//! Locate Elite: Dangerous journal files.

use vstd::prelude::*;
use std::path::Path;

verus! {

/// The operating systems whose journal folder is known.
#[derive(Debug, Clone, Copy, PartialEq, Eq, Structural)]
pub enum Platform {
    Windows,
    Linux,
    /// Any other system: no default is known there.
    Other,
}

/// The text of the path that `Path::join` gives for `base` and `part`, on
/// the system that the program was built for.
pub uninterp spec fn path_join(base: Seq<char>, part: Seq<char>) -> Seq<char>;

/// Calls `Path::join` on the path that `base` spells, with `part`; the
/// result is handed back as text. Nothing is claimed of it but that equal
/// arguments give equal paths.
#[verifier::external_body]
fn join(base: &str, part: &str) -> (joined: String)
    ensures
        joined@ == path_join(base@, part@),
{
    Path::new(base).join(part).to_string_lossy().into_owned()
}

/// Calls `dirs::home_dir`, which asks the environment and the system for
/// the user's home directory. Nothing is claimed of what it finds. A path
/// that is not Unicode is spelled with replacement characters.
#[verifier::external_body]
fn home_dir() -> (dir: Option<String>) {
    match dirs::home_dir() {
        Some(path) => Some(path.to_string_lossy().into_owned()),
        None => None,
    }
}

/// Calls `dirs::data_dir`, which asks the environment and the system for
/// the user's data directory. Nothing is claimed of what it finds. A path
/// that is not Unicode is spelled with replacement characters.
#[verifier::external_body]
fn data_dir() -> (dir: Option<String>) {
    match dirs::data_dir() {
        Some(path) => Some(path.to_string_lossy().into_owned()),
        None => None,
    }
}

/// The folder that the game keeps its journals in, relative to the user's
/// home directory on Windows.
pub open spec fn game_folder() -> Seq<char> {
    let saved = path_join(Seq::empty(), "Saved Games"@);
    let frontier = path_join(saved, "Frontier Developments"@);
    path_join(frontier, "Elite Dangerous"@)
}

/// The home directory of the Windows user that Steam's Proton sets up for
/// the game, below the data directory `data` of the Linux user.
pub open spec fn proton_home(data: Seq<char>) -> Seq<char> {
    let steam = path_join(data, "Steam"@);
    let apps = path_join(steam, "steamapps"@);
    let compat = path_join(apps, "compatdata"@);
    let game = path_join(compat, "359320"@);
    let prefix = path_join(game, "pfx"@);
    let drive = path_join(prefix, "drive_c"@);
    let users = path_join(drive, "users"@);
    path_join(users, "steamuser"@)
}

/// The default journal path on `platform`, given the directory `base` that
/// the platform's rule starts from: the home directory on Windows, the data
/// directory on Linux.
pub open spec fn journal_path_below(platform: Platform, base: Option<Seq<char>>) -> Option<
    Seq<char>,
> {
    match (platform, base) {
        (Platform::Windows, Some(home)) => Some(path_join(home, game_folder())),
        (Platform::Linux, Some(data)) => Some(path_join(proton_home(data), game_folder())),
        _ => None,
    }
}

/// The text of an optional string.
pub open spec fn text_of(s: Option<String>) -> Option<Seq<char>> {
    match s {
        Some(s) => Some(s@),
        None => None,
    }
}

fn game_folder_path() -> (folder: String)
    ensures
        folder@ == game_folder(),
{
    let saved = join("", "Saved Games");
    let frontier = join(saved.as_str(), "Frontier Developments");
    proof {
        reveal_strlit("");
        assert(""@ =~= Seq::<char>::empty());
    }
    join(frontier.as_str(), "Elite Dangerous")
}

fn proton_home_path(data: &str) -> (home: String)
    ensures
        home@ == proton_home(data@),
{
    let steam = join(data, "Steam");
    let apps = join(steam.as_str(), "steamapps");
    let compat = join(apps.as_str(), "compatdata");
    // Elite: Dangerous steam app ID
    let game = join(compat.as_str(), "359320");
    let prefix = join(game.as_str(), "pfx");
    let drive = join(prefix.as_str(), "drive_c");
    let users = join(drive.as_str(), "users");
    join(users.as_str(), "steamuser")
}

/// Get the default journal path on `platform` below the directory `base`:
/// the user's home directory on Windows, the user's data directory on
/// Linux, where the game is taken to run in Steam via Proton.
///
/// Returns `None` when no default is known: on any other system, and where
/// the directory is not known.
pub fn journal_path_in(platform: Platform, base: Option<String>) -> (path: Option<String>)
    ensures
        text_of(path) == journal_path_below(platform, text_of(base)),
{
    match base {
        None => None,
        Some(dir) => match platform {
            Platform::Windows => {
                let folder = game_folder_path();
                Some(join(dir.as_str(), folder.as_str()))
            },
            Platform::Linux => {
                let home = proton_home_path(dir.as_str());
                let folder = game_folder_path();
                Some(join(home.as_str(), folder.as_str()))
            },
            Platform::Other => None,
        },
    }
}

/// Whether `path` can be the default journal path on `platform`: none at
/// all, or the one below some directory.
pub open spec fn is_default_journal_path(platform: Platform, path: Option<Seq<char>>) -> bool {
    path is None || (platform != Platform::Other && exists|base: Seq<char>|
        path == #[trigger] journal_path_below(platform, Some(base)))
}

/// Get the default Elite: Dangerous journal file path for the current
/// user on `platform`.
///
/// Returns `None` when no default is known. Which directory the path
/// starts from is for the system to say.
pub fn get_default_journal_path(platform: Platform) -> (path: Option<String>)
    ensures
        is_default_journal_path(platform, text_of(path)),
        platform == Platform::Other ==> path is None,
{
    let base = match platform {
        Platform::Windows => home_dir(),
        Platform::Linux => data_dir(),
        Platform::Other => None,
    };
    journal_path_in(platform, base)
}

} // verus!
