use thirdeye::journal::{get_default_journal_path, journal_path_in, Platform};
use std::path::{Path, PathBuf};

fn game_folder() -> PathBuf {
    PathBuf::new()
        .join("Saved Games")
        .join("Frontier Developments")
        .join("Elite Dangerous")
}

#[test]
fn no_default_on_other_systems() {
    assert_eq!(journal_path_in(Platform::Other, None), None);
    assert_eq!(
        journal_path_in(Platform::Other, Some("/home/alice".to_string())),
        None
    );
    assert_eq!(get_default_journal_path(Platform::Other), None);
}

#[test]
fn no_default_without_a_directory_to_start_from() {
    assert_eq!(journal_path_in(Platform::Windows, None), None);
    assert_eq!(journal_path_in(Platform::Linux, None), None);
}

#[test]
fn windows_default_is_below_the_home_directory() {
    let path = journal_path_in(Platform::Windows, Some("home".to_string()));
    let expected = Path::new("home").join(game_folder());
    assert_eq!(path, Some(expected.to_string_lossy().into_owned()));
}

#[test]
fn linux_default_is_below_the_proton_prefix() {
    let path = journal_path_in(Platform::Linux, Some("share".to_string()));
    let expected = Path::new("share")
        .join("Steam")
        .join("steamapps")
        .join("compatdata")
        .join("359320")
        .join("pfx")
        .join("drive_c")
        .join("users")
        .join("steamuser")
        .join(game_folder());
    assert_eq!(path, Some(expected.to_string_lossy().into_owned()));
}

#[test]
fn linux_default_spelled_out() {
    if std::path::MAIN_SEPARATOR == '/' {
        let path = journal_path_in(
            Platform::Linux,
            Some("/home/alice/.local/share".to_string()),
        );
        assert_eq!(
            path,
            Some(
                "/home/alice/.local/share/Steam/steamapps/compatdata/359320/pfx/drive_c/users/steamuser/Saved Games/Frontier Developments/Elite Dangerous"
                    .to_string()
            )
        );
    }
}

#[test]
fn windows_default_spelled_out() {
    if std::path::MAIN_SEPARATOR == '/' {
        let path = journal_path_in(Platform::Windows, Some("/home/alice".to_string()));
        assert_eq!(
            path,
            Some("/home/alice/Saved Games/Frontier Developments/Elite Dangerous".to_string())
        );
    }
}

#[test]
fn default_of_the_current_user_ends_in_the_game_folder() {
    let folder = game_folder();
    for platform in [Platform::Windows, Platform::Linux] {
        if let Some(path) = get_default_journal_path(platform) {
            assert!(Path::new(&path).ends_with(&folder));
        }
    }
}

#[test]
fn linux_default_of_the_current_user_is_in_steam() {
    if let Some(path) = get_default_journal_path(Platform::Linux) {
        let steam = Path::new("Steam").join("steamapps").join("compatdata");
        let path = PathBuf::from(path);
        assert!(path
            .ancestors()
            .any(|ancestor| ancestor.ends_with(&steam)));
    }
}
