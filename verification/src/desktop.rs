//! The launcher descriptor: a fixed-schema text file that tells the
//! desktop environment how to present and launch the installed
//! application.  It is rendered here in full and fully overwrites any
//! prior content when written.

use vstd::prelude::*;
use vstd::string::*;

use crate::paths::join_of;

verus! {

/// The full text of the launcher descriptor for the given installed
/// executable and icon paths.
pub open spec fn desktop_entry_of(exec_path: Seq<char>, icon_path: Seq<char>) -> Seq<char> {
    "[Desktop Entry]\nName=Cursor\nExec="@ + exec_path + "\nIcon="@ + icon_path
        + "\nType=Application\nCategories=Utility;Development;\nTerminal=false"@
}

/// The fixed path of the launcher descriptor under the given home
/// directory.
pub open spec fn launcher_path_of(home: Seq<char>) -> Seq<char> {
    join_of(home, ".local/share/applications/cursor.desktop"@)
}

/// Render the launcher descriptor for the given installed paths.
pub fn render_desktop_entry(exec_path: &str, icon_path: &str) -> (r: String)
    ensures
        r@ == desktop_entry_of(exec_path@, icon_path@),
{
    let mut s = "[Desktop Entry]\nName=Cursor\nExec=".to_owned();
    s.append(exec_path);
    s.append("\nIcon=");
    s.append(icon_path);
    s.append("\nType=Application\nCategories=Utility;Development;\nTerminal=false");
    proof {
        assert(s@ =~= desktop_entry_of(exec_path@, icon_path@));
    }
    s
}

/// The path the launcher descriptor is written to.
pub fn desktop_entry_path(home: &str) -> (r: String)
    ensures
        r@ == launcher_path_of(home@),
{
    crate::paths::path_join(home, ".local/share/applications/cursor.desktop")
}

} // verus!
