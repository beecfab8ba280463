use cursorup::desktop::{desktop_entry_path, render_desktop_entry};
use cursorup::numfmt::{fixed2, to_decimal};
use cursorup::paths::{artifact_file_name, path_join};
use cursorup::TmpDir;

#[test]
fn desktop_entry_full_text() {
    let text = render_desktop_entry("/home/u/Applications/cursor/cursor.AppImage", "/home/u/Applications/cursor/code.png");
    assert_eq!(
        text,
        "[Desktop Entry]\n\
         Name=Cursor\n\
         Exec=/home/u/Applications/cursor/cursor.AppImage\n\
         Icon=/home/u/Applications/cursor/code.png\n\
         Type=Application\n\
         Categories=Utility;Development;\n\
         Terminal=false"
    );
}

#[test]
fn desktop_entry_location() {
    assert_eq!(
        desktop_entry_path("/home/u"),
        "/home/u/.local/share/applications/cursor.desktop"
    );
}

#[test]
fn decimal_rendering() {
    assert_eq!(to_decimal(0), "0");
    assert_eq!(to_decimal(7), "7");
    assert_eq!(to_decimal(1234), "1234");
    assert_eq!(to_decimal(1048576), "1048576");
}

#[test]
fn fixed_point_rendering() {
    assert_eq!(fixed2(0), "0.00");
    assert_eq!(fixed2(5), "0.05");
    assert_eq!(fixed2(50), "0.50");
    assert_eq!(fixed2(1234), "12.34");
    assert_eq!(fixed2(10000), "100.00");
}

#[test]
fn file_name_from_url() {
    assert_eq!(
        artifact_file_name("https://dl.example/releases/cursor-1.2.3.AppImage"),
        "cursor-1.2.3.AppImage"
    );
    assert_eq!(artifact_file_name("bare-name"), "bare-name");
    assert_eq!(artifact_file_name("trailing/"), "");
}

#[test]
fn joining_paths() {
    assert_eq!(path_join("/a/b", "c"), "/a/b/c");
    assert_eq!(path_join("", "c"), "/c");
}

#[test]
fn scratch_directory_location() {
    let t = TmpDir::new("/tmp");
    assert_eq!(t.path, "/tmp/cursorup_temp");
}

#[test]
fn error_message_text() {
    let e = cursorup::UpdateError::ConfigError {
        message: String::from("HOME environment variable is not set"),
    };
    assert_eq!(e.message(), "HOME environment variable is not set");
}
