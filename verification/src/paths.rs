//! Where the application keeps its files, relative to its data directory.

use vstd::prelude::*;

use crate::text::{push_char, string_from};

verus! {

/// `name` placed inside the directory `dir`, as `Path::join` places a
/// relative name: a separator is added unless `dir` is empty or already ends
/// with one.
pub open spec fn path_join(dir: Seq<char>, name: Seq<char>) -> Seq<char> {
    if dir.len() == 0 {
        name
    } else if dir.last() == '/' {
        dir + name
    } else {
        dir + seq!['/'] + name
    }
}

/// `name` placed inside the directory `dir`.
pub fn join_path(dir: &str, name: &str) -> (r: String)
    ensures
        r@ == path_join(dir@, name@),
{
    let mut r = string_from(dir);
    let n = dir.unicode_len();
    if n == 0 {
        return string_from(name);
    }
    if dir.get_char(n - 1) != '/' {
        push_char(&mut r, '/');
    }
    r.append(name);
    r
}

/// The database file, `pcli.db` in the data directory.
pub fn db_path(data_dir: &str) -> (r: String)
    ensures
        r@ == path_join(data_dir@, "pcli.db"@),
{
    join_path(data_dir, "pcli.db")
}

/// The settings file, `config.toml` in the data directory.
pub fn config_path(data_dir: &str) -> (r: String)
    ensures
        r@ == path_join(data_dir@, "config.toml"@),
{
    join_path(data_dir, "config.toml")
}

/// The file holding the background service's process id, `daemon.pid` in
/// the data directory.
pub fn daemon_pid_path(data_dir: &str) -> (r: String)
    ensures
        r@ == path_join(data_dir@, "daemon.pid"@),
{
    join_path(data_dir, "daemon.pid")
}

/// The file holding the interactive history, `history.txt` in the data
/// directory.
pub fn history_path(data_dir: &str) -> (r: String)
    ensures
        r@ == path_join(data_dir@, "history.txt"@),
{
    join_path(data_dir, "history.txt")
}

} // verus!
