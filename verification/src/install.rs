//! The install step: granting the artifact its executable bit, judging
//! the self-extraction subprocess, resolving the per-user install
//! directory, planning the backup of the previous installation, and
//! laying out the filesystem effects of the install in their required
//! order — every backup move strictly before the new copies land.

use vstd::prelude::*;
use vstd::string::*;

use crate::desktop::{desktop_entry_of, desktop_entry_path, launcher_path_of, render_desktop_entry};
use crate::errors::UpdateError;
use crate::paths::{cut_index, cut_of, join_of, path_join};

verus! {

/// Decide the outcome of setting the artifact's permission bits to
/// owner-read/write/execute, group/other read/execute: failure becomes a
/// PermissionError carrying the given detail.
pub fn after_chmod(ok: bool, detail: &str) -> (r: Result<(), UpdateError>)
    ensures
        ok <==> r is Ok,
        !ok ==> (r matches Err(e) && e matches UpdateError::PermissionError { message } && message@
            == detail@),
{
    if ok {
        Ok(())
    } else {
        Err(UpdateError::PermissionError { message: detail.to_owned() })
    }
}

/// Decide the outcome of the self-extraction subprocess: a non-zero exit
/// becomes an ExtractionError carrying the subprocess's captured
/// standard-error text, and nothing of the install may proceed.
pub fn after_extraction(exit_ok: bool, stderr: &str) -> (r: Result<(), UpdateError>)
    ensures
        exit_ok <==> r is Ok,
        !exit_ok ==> (r matches Err(e) && e matches UpdateError::ExtractionError { message }
            && message@ == "AppImage extraction failed: "@ + stderr@),
{
    if exit_ok {
        Ok(())
    } else {
        let mut message = "AppImage extraction failed: ".to_owned();
        message.append(stderr);
        Err(UpdateError::ExtractionError { message })
    }
}

/// The install directory under a home directory.
pub open spec fn install_dir_of(home: Seq<char>) -> Seq<char> {
    join_of(join_of(home, "Applications"@), "cursor"@)
}

/// Resolve the install directory from the home-directory variable: unset
/// fails with a ConfigError, otherwise the fixed per-user location.
pub fn resolve_install_dir(home: Option<String>) -> (r: Result<String, UpdateError>)
    ensures
        match home {
            Option::Some(h) => r matches Ok(d) && d@ == install_dir_of(h@),
            Option::None => r matches Err(e) && e is ConfigError,
        },
{
    match home {
        Option::Some(h) => {
            let apps = path_join(h.as_str(), "Applications");
            Ok(path_join(apps.as_str(), "cursor"))
        },
        Option::None => Err(
            UpdateError::ConfigError {
                message: "HOME environment variable is not set".to_owned(),
            },
        ),
    }
}

/// The extraction tree's fixed location under the scratch directory.  That
/// the artifact unpacks itself there is a convention of its packaging
/// format, not verified here.
pub fn extraction_dir(tmp_dir: &str) -> (r: String)
    ensures
        r@ == join_of(tmp_dir@, "squashfs-root"@),
{
    path_join(tmp_dir, "squashfs-root")
}

/// One direct entry of the install directory, as handed in by the shell
/// that listed it: the file name and whether it is a directory.
pub struct DirEntry {
    pub name: String,
    pub is_dir: bool,
}

/// The extension of a file name: the text after the last '.', provided
/// that dot is neither absent nor the name's first character.
pub open spec fn ext_of(name: Seq<char>) -> Option<Seq<char>> {
    if cut_of(name, '.') >= 2 {
        Option::Some(name.subrange(cut_of(name, '.'), name.len() as int))
    } else {
        Option::None
    }
}

/// Whether the backup step moves this entry: a regular file (directories
/// are skipped) whose extension is exactly the artifact's or the icon's
/// format.
pub open spec fn is_backup_candidate(e: DirEntry) -> bool {
    &&& !e.is_dir
    &&& (ext_of(e.name@) == Option::Some("AppImage"@) || ext_of(e.name@) == Option::Some("png"@))
}

/// Whether the backup step moves this entry.
pub fn backup_candidate(e: &DirEntry) -> (r: bool)
    ensures
        r == is_backup_candidate(*e),
{
    if e.is_dir {
        return false;
    }
    let name: &str = e.name.as_str();
    let n = name.unicode_len();
    let cut = cut_index(name, '.');
    if cut < 2 {
        return false;
    }
    let ext = name.substring_char(cut, n);
    let ext_owned = ext.to_owned();
    ext_owned == "AppImage".to_owned() || ext_owned == "png".to_owned()
}

/// One planned backup move, with paths relative to the install directory.
pub struct RenameOp {
    pub from: String,
    pub to: String,
}

/// The backup target for a file name: the name inside the `back`
/// subdirectory with the backup suffix appended.
pub open spec fn backup_target_of(name: Seq<char>) -> Seq<char> {
    "back/"@ + name + ".bak"@
}

/// The names the backup step moves, in directory-listing order.
pub open spec fn backup_sources(entries: Seq<DirEntry>) -> Seq<Seq<char>> {
    entries.filter(|e: DirEntry| is_backup_candidate(e)).map_values(|e: DirEntry| e.name@)
}

/// Plan the backup step for the given directory listing: one move, into
/// the `back` subdirectory with a `.bak` suffix, for every regular file
/// whose extension is the artifact's or the icon's format, in listing
/// order.  Directories and files of other extensions are left in place.
pub fn backup_plan(entries: &Vec<DirEntry>) -> (plan: Vec<RenameOp>)
    ensures
        plan@.map_values(|op: RenameOp| op.from@) == backup_sources(entries@),
        forall|i: int|
            0 <= i < plan@.len() ==> (#[trigger] plan@[i]).to@ == backup_target_of(plan@[i].from@),
{
    let ghost pred = |e: DirEntry| is_backup_candidate(e);
    let ghost name_of = |e: DirEntry| e.name@;
    let ghost from_of = |op: RenameOp| op.from@;
    let mut plan: Vec<RenameOp> = Vec::new();
    let mut k: usize = 0;
    while k < entries.len()
        invariant
            k <= entries@.len(),
            pred == (|e: DirEntry| is_backup_candidate(e)),
            name_of == (|e: DirEntry| e.name@),
            from_of == (|op: RenameOp| op.from@),
            plan@.map_values(from_of) == entries@.take(k as int).filter(pred).map_values(name_of),
            forall|i: int|
                0 <= i < plan@.len() ==> (#[trigger] plan@[i]).to@ == backup_target_of(
                    plan@[i].from@,
                ),
        decreases entries@.len() - k,
    {
        let ghost prefix = entries@.take(k as int);
        let ghost x = entries@[k as int];
        proof {
            assert(entries@.take(k + 1) =~= prefix.push(x));
            prefix.lemma_filter_push(x, pred);
        }
        let e = &entries[k];
        if backup_candidate(e) {
            let from = e.name.clone();
            let to = {
                let mut t = "back/".to_owned();
                t.append(e.name.as_str());
                t.append(".bak");
                t
            };
            proof {
                assert(to@ =~= backup_target_of(x.name@));
            }
            plan.push(RenameOp { from, to });
            proof {
                assert(plan@.map_values(from_of) =~= prefix.filter(pred).map_values(name_of).push(
                    x.name@,
                ));
                assert(prefix.push(x).filter(pred).map_values(name_of) =~= prefix.filter(
                    pred,
                ).map_values(name_of).push(x.name@));
            }
        } else {
            proof {
                assert(prefix.push(x).filter(pred).map_values(name_of) =~= prefix.filter(
                    pred,
                ).map_values(name_of));
            }
        }
        k = k + 1;
    }
    proof {
        assert(entries@.take(entries@.len() as int) =~= entries@);
    }
    plan
}

/// One filesystem effect of the install step.  The step performs them in
/// the order planned: every backup move first, then the icon copy, then
/// the artifact copy, then the launcher write.
pub enum InstallAction {
    /// Move a previous file into the backup subdirectory.
    RenameToBackup { from: String, to: String },
    /// Copy the icon out of the extraction tree into the install directory.
    CopyIcon { from: String, to: String },
    /// Copy the downloaded artifact into the install directory.
    CopyArtifact { from: String, to: String },
    /// Write the launcher descriptor, fully overwriting any prior content.
    WriteLauncher { path: String, contents: String },
}

/// Lay out the filesystem effects of the install, in order: the backup
/// moves for every previous artifact or icon in the install directory,
/// then the icon copy, the artifact copy and the launcher write.  Every
/// backup move stands strictly before either copy, so the previous
/// version is archived before the new one lands.
pub fn install_actions(
    entries: &Vec<DirEntry>,
    install_dir: &str,
    extracted_dir: &str,
    artifact_src: &str,
    artifact_name: &str,
    home: &str,
) -> (acts: Vec<InstallAction>)
    ensures
        acts@.len() == backup_sources(entries@).len() + 3,
        forall|i: int|
            0 <= i < backup_sources(entries@).len() ==> ((#[trigger] acts@[i])
                matches InstallAction::RenameToBackup { from, to } && from@ == join_of(
                install_dir@,
                backup_sources(entries@)[i],
            ) && to@ == join_of(install_dir@, backup_target_of(backup_sources(entries@)[i]))),
        ({
            let nb = backup_sources(entries@).len() as int;
            &&& acts@[nb] matches InstallAction::CopyIcon { from, to } && from@ == join_of(
                extracted_dir@,
                "code.png"@,
            ) && to@ == join_of(install_dir@, "code.png"@)
            &&& acts@[nb + 1] matches InstallAction::CopyArtifact { from, to } && from@
                == artifact_src@ && to@ == join_of(install_dir@, artifact_name@)
            &&& acts@[nb + 2] matches InstallAction::WriteLauncher { path, contents } && path@
                == launcher_path_of(home@) && contents@ == desktop_entry_of(
                join_of(install_dir@, artifact_name@),
                join_of(install_dir@, "code.png"@),
            )
        }),
        forall|i: int, j: int|
            (0 <= i < acts@.len() && 0 <= j < acts@.len() && ((#[trigger] acts@[i])
                matches InstallAction::RenameToBackup { .. }) && (((#[trigger] acts@[j])
                matches InstallAction::CopyIcon { .. }) || (acts@[j]
                matches InstallAction::CopyArtifact { .. }))) ==> i < j,
{
    let rel = backup_plan(entries);
    let ghost from_of = |op: RenameOp| op.from@;
    let mut acts: Vec<InstallAction> = Vec::new();
    let mut k: usize = 0;
    while k < rel.len()
        invariant
            k <= rel@.len(),
            from_of == (|op: RenameOp| op.from@),
            rel@.map_values(from_of) == backup_sources(entries@),
            forall|i: int|
                0 <= i < rel@.len() ==> (#[trigger] rel@[i]).to@ == backup_target_of(
                    rel@[i].from@,
                ),
            acts@.len() == k,
            forall|i: int|
                0 <= i < k ==> ((#[trigger] acts@[i]) matches InstallAction::RenameToBackup {
                    from,
                    to,
                } && from@ == join_of(install_dir@, backup_sources(entries@)[i]) && to@ == join_of(
                    install_dir@,
                    backup_target_of(backup_sources(entries@)[i]),
                )),
        decreases rel@.len() - k,
    {
        proof {
            assert(rel@.map_values(from_of)[k as int] == from_of(rel@[k as int]));
        }
        let from = path_join(install_dir, rel[k].from.as_str());
        let to = path_join(install_dir, rel[k].to.as_str());
        acts.push(InstallAction::RenameToBackup { from, to });
        k = k + 1;
    }
    let icon_from = path_join(extracted_dir, "code.png");
    let icon_to = path_join(install_dir, "code.png");
    let exec_to = path_join(install_dir, artifact_name);
    let contents = render_desktop_entry(exec_to.as_str(), icon_to.as_str());
    let launcher = desktop_entry_path(home);
    acts.push(InstallAction::CopyIcon { from: icon_from, to: icon_to });
    acts.push(InstallAction::CopyArtifact { from: artifact_src.to_owned(), to: exec_to });
    acts.push(InstallAction::WriteLauncher { path: launcher, contents });
    acts
}

} // verus!
