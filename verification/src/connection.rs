//! The connection descriptor of the database: the database path resolved
//! against a working directory, wrapped as a SQLite connection string.

use vstd::prelude::*;

verus! {

/// A path that starts at the root.
pub open spec fn is_absolute(path: Seq<char>) -> bool {
    path.len() > 0 && path[0] == '/'
}

/// `path` resolved against the directory `base`: an absolute path stands for
/// itself; a relative one is appended to the directory, after a `/` unless
/// the directory is empty or already ends in one.
pub open spec fn resolved(base: Seq<char>, path: Seq<char>) -> Seq<char> {
    if is_absolute(path) {
        path
    } else if base.len() == 0 || base.last() == '/' {
        base + path
    } else {
        base + seq!['/'] + path
    }
}

/// The connection descriptor of the database at `path`: read, write and
/// create access, with a private cache.
pub open spec fn descriptor(path: Seq<char>) -> Seq<char> {
    "sqlite:"@ + path + "?mode=rwc&cache=private"@
}

/// The connection descriptor of the database `db_path`, seen from the
/// working directory `cwd`.
pub open spec fn connection_text(cwd: Seq<char>, db_path: Seq<char>) -> Seq<char> {
    descriptor(resolved(cwd, db_path))
}

/// Whether `part` stands in `text` at position `at`.
pub open spec fn occurs_at(text: Seq<char>, part: Seq<char>, at: int) -> bool {
    0 <= at && at + part.len() <= text.len() && text.subrange(at, at + part.len()) == part
}

/// Whether `part` stands somewhere in `text`.
pub open spec fn contains(text: Seq<char>, part: Seq<char>) -> bool {
    exists|at: int| occurs_at(text, part, at)
}

/// Resolves `path` against the directory `base`.
pub fn resolve_path(base: &str, path: &str) -> (r: String)
    ensures
        r@ == resolved(base@, path@),
{
    let path_len = path.unicode_len();
    if path_len > 0 && path.get_char(0) == '/' {
        return path.to_owned();
    }
    let base_len = base.unicode_len();
    let mut joined = base.to_owned();
    if base_len > 0 && base.get_char(base_len - 1) != '/' {
        joined.append("/");
        proof {
            reveal_strlit("/");
            assert("/"@ =~= seq!['/']);
        }
    }
    joined.append(path);
    joined
}

/// Wraps a database path as a connection descriptor.
pub fn connection_descriptor(path: &str) -> (r: String)
    ensures
        r@ == descriptor(path@),
{
    let mut text = "sqlite:".to_owned();
    text.append(path);
    text.append("?mode=rwc&cache=private");
    text
}

/// The connection descriptor of the database `db_path`, seen from the
/// working directory `cwd`.
pub fn connection_string(cwd: &str, db_path: &str) -> (r: String)
    ensures
        r@ == connection_text(cwd@, db_path@),
{
    let path = resolve_path(cwd, db_path);
    connection_descriptor(path.as_str())
}

/// A connection descriptor always holds `mode=rwc&cache=private` and, from
/// its eighth character on, the path it was made for.
pub proof fn lemma_descriptor_contents(path: Seq<char>)
    ensures
        occurs_at(descriptor(path), "sqlite:"@, 0),
        occurs_at(descriptor(path), path, 7),
        occurs_at(descriptor(path), "mode=rwc&cache=private"@, path.len() as int + 8),
        contains(descriptor(path), "mode=rwc&cache=private"@),
        descriptor(path).len() == path.len() + 30,
{
    reveal_strlit("sqlite:");
    reveal_strlit("?mode=rwc&cache=private");
    reveal_strlit("mode=rwc&cache=private");
    let text = descriptor(path);
    let n = path.len() as int;
    assert(text.subrange(0, 7) =~= "sqlite:"@);
    assert(text.subrange(7, 7 + n) =~= path);
    assert(text.subrange(n + 8, n + 30) =~= "mode=rwc&cache=private"@);
    assert(occurs_at(text, "mode=rwc&cache=private"@, n + 8));
}

/// Resolving against an absolute directory gives an absolute path, and so
/// does resolving an absolute path against any directory. A relative path
/// stays whole at the end of the result.
pub proof fn lemma_resolved_path(base: Seq<char>, path: Seq<char>)
    ensures
        is_absolute(base) || is_absolute(path) ==> is_absolute(resolved(base, path)),
        is_absolute(path) ==> resolved(base, path) == path,
        occurs_at(resolved(base, path), path, resolved(base, path).len() - path.len()),
        !is_absolute(path) ==> occurs_at(resolved(base, path), base, 0),
{
    let joined = resolved(base, path);
    assert(joined.subrange(joined.len() - path.len(), joined.len() as int) =~= path);
    if !is_absolute(path) {
        assert(joined.subrange(0, base.len() as int) =~= base);
    }
}

/// The connection descriptor of a store always holds
/// `mode=rwc&cache=private` and the database path joined to the working
/// directory, which is absolute where the working directory is.
pub proof fn lemma_connection_text(cwd: Seq<char>, db_path: Seq<char>)
    ensures
        contains(connection_text(cwd, db_path), "mode=rwc&cache=private"@),
        contains(connection_text(cwd, db_path), resolved(cwd, db_path)),
        is_absolute(cwd) ==> is_absolute(resolved(cwd, db_path)),
{
    lemma_descriptor_contents(resolved(cwd, db_path));
    lemma_resolved_path(cwd, db_path);
}

} // verus!
