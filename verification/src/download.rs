//! Download accounting: whether a download may begin, the running byte
//! count as chunks arrive, and the progress line redrawn in place after
//! each chunk.  The network transfer itself happens outside this crate;
//! every decision about it is made here.

use vstd::prelude::*;
use vstd::string::*;

use crate::errors::UpdateError;
use crate::numfmt::{dec_of, fixed2, fixed2_of, to_decimal};

verus! {

/// Whether an HTTP status code counts as success.
pub open spec fn is_success_code(status: u16) -> bool {
    200 <= status < 300
}

/// `d` of `t` as integer hundredths of a percent, truncated.
pub open spec fn percent_hundredths(d: nat, t: nat) -> nat
    recommends
        t > 0,
{
    d * 10000 / t
}

/// A byte count as integer hundredths of a mebibyte (1,048,576 bytes),
/// truncated.
pub open spec fn mib_hundredths(bytes: nat) -> nat {
    bytes * 100 / 1048576
}

/// The progress line for `d` of `t` bytes: a carriage return so the line
/// redraws in place, the percentage with two decimals, and the downloaded
/// and total sizes in mebibytes with two decimals.
pub open spec fn progress_line_of(d: nat, t: nat) -> Seq<char> {
    "\rDownloading... "@ + fixed2_of(percent_hundredths(d, t)) + "% ("@ + fixed2_of(
        mib_hundredths(d),
    ) + "MB / "@ + fixed2_of(mib_hundredths(t)) + "MB)"@
}

/// The running state of one artifact download: the total size the response
/// declared, and the bytes written to the destination file so far.
pub struct DownloadTracker {
    pub total: u64,
    pub downloaded: u64,
}

impl DownloadTracker {
    /// Decide whether the download may begin.  A non-success status is
    /// refused with a DownloadError carrying that status; a response that
    /// does not declare its content length up front is refused with a
    /// DownloadError carrying no status.  Otherwise the tracker starts
    /// with the declared total and no bytes downloaded.
    pub fn begin(status: u16, content_length: Option<u64>) -> (r: Result<
        DownloadTracker,
        UpdateError,
    >)
        ensures
            !is_success_code(status) ==> (r matches Err(e) && e matches UpdateError::DownloadError {
                status: st,
                message,
            } && st == Some(status) && message@ == "Download failed with status: "@ + dec_of(
                status as nat,
            )),
            is_success_code(status) ==> match content_length {
                Option::Some(n) => r matches Ok(t) && t.total == n && t.downloaded == 0,
                Option::None => r matches Err(e) && e matches UpdateError::DownloadError {
                    status: st,
                    message,
                } && st is None && message@ == "Failed to get content length"@,
            },
    {
        if !(200 <= status && status < 300) {
            let mut message = "Download failed with status: ".to_owned();
            let rendered = to_decimal(status as u128);
            message.append(rendered.as_str());
            Err(UpdateError::DownloadError { status: Some(status), message })
        } else {
            match content_length {
                Option::Some(n) => Ok(DownloadTracker { total: n, downloaded: 0 }),
                Option::None => Err(
                    UpdateError::DownloadError {
                        status: None,
                        message: "Failed to get content length".to_owned(),
                    },
                ),
            }
        }
    }

    /// Absorb one chunk of `n` bytes just written to the destination file.
    pub fn add_chunk(&mut self, n: u64)
        requires
            old(self).downloaded + n <= u64::MAX,
        ensures
            final(self).total == old(self).total,
            final(self).downloaded == old(self).downloaded + n,
    {
        self.downloaded = self.downloaded + n;
    }

    /// The progress line for the current state.
    pub fn progress_line(&self) -> (r: String)
        requires
            self.total > 0,
        ensures
            r@ == progress_line_of(self.downloaded as nat, self.total as nat),
    {
        let pct: u128 = (self.downloaded as u128) * 10000 / (self.total as u128);
        let mib_d: u128 = (self.downloaded as u128) * 100 / 1048576;
        let mib_t: u128 = (self.total as u128) * 100 / 1048576;
        let mut s = "\rDownloading... ".to_owned();
        let pct_text = fixed2(pct);
        s.append(pct_text.as_str());
        s.append("% (");
        let mib_d_text = fixed2(mib_d);
        s.append(mib_d_text.as_str());
        s.append("MB / ");
        let mib_t_text = fixed2(mib_t);
        s.append(mib_t_text.as_str());
        s.append("MB)");
        proof {
            assert(s@ =~= progress_line_of(self.downloaded as nat, self.total as nat));
        }
        s
    }
}

/// The sum of a sequence of chunk sizes.
pub open spec fn sum_chunks(chunks: Seq<u64>) -> int
    decreases chunks.len(),
{
    if chunks.len() == 0 {
        0
    } else {
        sum_chunks(chunks.drop_last()) + chunks.last()
    }
}

/// Law: for every download size and every chunk sequence summing to that
/// size, a tracker that started empty and absorbed each chunk in turn —
/// so its byte count, the length of the written file, is the sum of the
/// chunks — ends at exactly the declared total, and its final progress
/// line reports exactly "100.00" percent.
pub proof fn lemma_download_completion(t: DownloadTracker, chunks: Seq<u64>)
    requires
        t.total > 0,
        t.downloaded as int == sum_chunks(chunks),
        sum_chunks(chunks) == t.total as int,
    ensures
        t.downloaded == t.total,
        percent_hundredths(t.downloaded as nat, t.total as nat) == 10000,
        progress_line_of(t.downloaded as nat, t.total as nat) == "\rDownloading... "@ + "100.00"@
            + "% ("@ + fixed2_of(mib_hundredths(t.total as nat)) + "MB / "@ + fixed2_of(
            mib_hundredths(t.total as nat),
        ) + "MB)"@,
{
    let tt = t.total as int;
    vstd::arithmetic::div_mod::lemma_div_multiples_vanish(10000, tt);
    assert(tt * 10000 == 10000 * tt) by (nonlinear_arith);
    assert(percent_hundredths(t.downloaded as nat, t.total as nat) == 10000);
    assert(fixed2_of(10000) == "100.00"@) by {
        reveal_with_fuel(dec_of, 4);
        reveal_strlit("100.00");
        assert(fixed2_of(10000) =~= "100.00"@);
    }
}

} // verus!
