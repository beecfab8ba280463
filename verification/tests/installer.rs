use cursorup::install::{
    after_chmod, after_extraction, backup_plan, install_actions, resolve_install_dir,
    extraction_dir, DirEntry, InstallAction,
};
use cursorup::UpdateError;

fn entry(name: &str, is_dir: bool) -> DirEntry {
    DirEntry {
        name: String::from(name),
        is_dir,
    }
}

#[test]
fn backup_existing_install() {
    let entries = vec![entry("cursor.AppImage", false), entry("code.png", false)];
    let plan = backup_plan(&entries);
    assert_eq!(plan.len(), 2);
    assert_eq!(plan[0].from, "cursor.AppImage");
    assert_eq!(plan[0].to, "back/cursor.AppImage.bak");
    assert_eq!(plan[1].from, "code.png");
    assert_eq!(plan[1].to, "back/code.png.bak");
}

#[test]
fn backup_skips_directories_and_other_files() {
    let entries = vec![
        entry("back", true),
        entry("notes.txt", false),
        entry("cursor-1.2.3.AppImage", false),
        entry("png", false),
        entry(".png", false),
    ];
    let plan = backup_plan(&entries);
    assert_eq!(plan.len(), 1);
    assert_eq!(plan[0].from, "cursor-1.2.3.AppImage");
    assert_eq!(plan[0].to, "back/cursor-1.2.3.AppImage.bak");
}

#[test]
fn backup_of_empty_directory_is_empty() {
    let plan = backup_plan(&Vec::new());
    assert!(plan.is_empty());
}

#[test]
fn chmod_failure_is_permission_error() {
    match after_chmod(false, "mode change refused") {
        Err(UpdateError::PermissionError { message }) => {
            assert_eq!(message, "mode change refused");
        }
        _ => panic!("a chmod failure must be a PermissionError"),
    }
    assert!(after_chmod(true, "").is_ok());
}

#[test]
fn failed_extraction_carries_stderr() {
    match after_extraction(false, "fuse: device not found") {
        Err(UpdateError::ExtractionError { message }) => {
            assert_eq!(message, "AppImage extraction failed: fuse: device not found");
        }
        _ => panic!("a non-zero exit must be an ExtractionError"),
    }
    assert!(after_extraction(true, "").is_ok());
}

#[test]
fn install_dir_requires_home() {
    assert!(matches!(
        resolve_install_dir(None),
        Err(UpdateError::ConfigError { .. })
    ));
    let dir = resolve_install_dir(Some(String::from("/home/u"))).unwrap();
    assert_eq!(dir, "/home/u/Applications/cursor");
}

#[test]
fn extraction_tree_location() {
    assert_eq!(extraction_dir("/tmp/cursorup_temp"), "/tmp/cursorup_temp/squashfs-root");
}

#[test]
fn actions_back_up_before_copying() {
    let entries = vec![entry("cursor.AppImage", false)];
    let acts = install_actions(
        &entries,
        "/home/u/Applications/cursor",
        "/tmp/cursorup_temp/squashfs-root",
        "/tmp/cursorup_temp/cursor-2.AppImage",
        "cursor-2.AppImage",
        "/home/u",
    );
    assert_eq!(acts.len(), 4);
    match &acts[0] {
        InstallAction::RenameToBackup { from, to } => {
            assert_eq!(from, "/home/u/Applications/cursor/cursor.AppImage");
            assert_eq!(to, "/home/u/Applications/cursor/back/cursor.AppImage.bak");
        }
        _ => panic!("the backup move must come first"),
    }
    match &acts[1] {
        InstallAction::CopyIcon { from, to } => {
            assert_eq!(from, "/tmp/cursorup_temp/squashfs-root/code.png");
            assert_eq!(to, "/home/u/Applications/cursor/code.png");
        }
        _ => panic!("the icon copy must follow the backups"),
    }
    match &acts[2] {
        InstallAction::CopyArtifact { from, to } => {
            assert_eq!(from, "/tmp/cursorup_temp/cursor-2.AppImage");
            assert_eq!(to, "/home/u/Applications/cursor/cursor-2.AppImage");
        }
        _ => panic!("the artifact copy must follow the icon copy"),
    }
    match &acts[3] {
        InstallAction::WriteLauncher { path, contents } => {
            assert_eq!(path, "/home/u/.local/share/applications/cursor.desktop");
            assert!(contents.contains("Exec=/home/u/Applications/cursor/cursor-2.AppImage"));
            assert!(contents.contains("Icon=/home/u/Applications/cursor/code.png"));
        }
        _ => panic!("the launcher write must come last"),
    }
}
