//! Where the program keeps its files, below the platform's log directory.
use vstd::prelude::*;

verus! {

/// `Path::new(base).join(part)`, as text.
pub uninterp spec fn joined_path(base: Seq<char>, part: Seq<char>) -> Seq<char>;

/// `std::path::Path::join`. Stated: the result is the named join of the
/// two texts. The text is exact because both inputs are UTF-8.
#[verifier::external_body]
fn path_join(base: &str, part: &str) -> (r: String)
    ensures
        r@ == joined_path(base@, part@),
{
    std::path::Path::new(base).join(part).to_string_lossy().into_owned()
}

/// Why the log directory could not be found.
#[derive(Debug, PartialEq, Eq, Structural)]
pub enum LogDirError {
    /// The home directory is unknown.
    NoHome,
}

/// The log directory on Linux: `.argon` in the home directory.
pub fn log_dir_in_home(home: Option<&str>) -> (r: Result<String, LogDirError>)
    ensures
        match r {
            Ok(p) => home matches Some(h) && p@ == joined_path(h@, ".argon"@),
            Err(e) => home is None && e == LogDirError::NoHome,
        },
{
    match home {
        Some(h) => Ok(path_join(h, ".argon")),
        None => Err(LogDirError::NoHome),
    }
}

/// The directory of the account database.
pub fn db_path(log_dir: &str) -> (r: String)
    ensures
        r@ == joined_path(joined_path(joined_path(log_dir@, "raccoon"@), "accounts"@), "database"@),
{
    let a = path_join(log_dir, "raccoon");
    let b = path_join(a.as_str(), "accounts");
    path_join(b.as_str(), "database")
}

/// The file the account pool is saved to.
pub fn pool_file_path(log_dir: &str) -> (r: String)
    ensures
        r@ == joined_path(joined_path(joined_path(log_dir@, "games"@), "raccoon"@), "pool.json"@),
{
    let a = path_join(log_dir, "games");
    let b = path_join(a.as_str(), "raccoon");
    path_join(b.as_str(), "pool.json")
}

/// The file that lists the games to probe.
pub fn game_keys_path(log_dir: &str) -> (r: String)
    ensures
        r@ == joined_path(joined_path(log_dir@, "games"@), "game_keys.json"@),
{
    let a = path_join(log_dir, "games");
    path_join(a.as_str(), "game_keys.json")
}

} // verus!
