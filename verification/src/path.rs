//! How the database path is derived from the temporary directory.
//!
//! Paths are modelled as sequences of characters. The database lives in the
//! entry named `db` of its directory; a separator is put between the two
//! unless the directory is empty or already ends with one.

use vstd::prelude::*;
use vstd::string::*;

verus! {

/// The character that parts a directory from an entry inside it.
pub open spec fn separator() -> char {
    '/'
}

/// The name of the entry that holds the database.
pub open spec fn database_name() -> Seq<char> {
    seq!['d', 'b']
}

/// Whether `dir` is written with a separator at its end.
pub open spec fn ends_with_separator(dir: Seq<char>) -> bool {
    dir.len() > 0 && dir.last() == separator()
}

/// The path of the database that belongs to the directory `dir`.
pub open spec fn database_path(dir: Seq<char>) -> Seq<char> {
    if dir.len() == 0 || ends_with_separator(dir) {
        dir + database_name()
    } else {
        dir.push(separator()) + database_name()
    }
}

/// Whether `a` and `b` are two spellings of one directory: they are equal, or
/// one is the other with a single separator added at its end.
pub open spec fn same_directory(a: Seq<char>, b: Seq<char>) -> bool {
    ||| a == b
    ||| (a.len() > 0 && !ends_with_separator(a) && b == a.push(separator()))
    ||| (b.len() > 0 && !ends_with_separator(b) && a == b.push(separator()))
}

/// Computes the path of the database that belongs to the directory `dir`.
pub fn derive_database_path(dir: &str) -> (path: String)
    ensures
        path@ == database_path(dir@),
{
    let n: usize = dir.unicode_len();
    let mut path = String::from_str(dir);
    if n > 0 && dir.get_char(n - 1) != '/' {
        path.append("/");
    }
    path.append("db");
    proof {
        reveal_strlit("/");
        reveal_strlit("db");
        assert(path@ =~= database_path(dir@));
    }
    path
}

/// The database path lies strictly inside its directory: it begins with the
/// directory as written, is longer than it, and ends with the database's name.
pub proof fn lemma_database_path_inside_directory(dir: Seq<char>)
    ensures
        dir.is_prefix_of(database_path(dir)),
        database_path(dir).len() > dir.len(),
        database_name().is_suffix_of(database_path(dir)),
        database_path(dir) != dir,
{
    let p = database_path(dir);
    let k = p.len() - database_name().len();
    assert(p.subrange(0, dir.len() as int) =~= dir);
    assert(p.subrange(k, p.len() as int) =~= database_name());
}

/// Two directories have the same database path exactly when they are two
/// spellings of one directory.
pub proof fn lemma_same_database_path(a: Seq<char>, b: Seq<char>)
    ensures
        database_path(a) == database_path(b) <==> same_directory(a, b),
{
    let pa = database_path(a);
    let pb = database_path(b);
    if same_directory(a, b) {
        if a == b {
        } else if a.len() > 0 && !ends_with_separator(a) && b == a.push(separator()) {
            assert(ends_with_separator(b));
            assert(pa =~= pb);
        } else {
            assert(ends_with_separator(a));
            assert(pa =~= pb);
        }
    }
    if pa == pb {
        lemma_database_path_stem(a);
        lemma_database_path_stem(b);
        let sa = pa.subrange(0, pa.len() - 2);
        let sb = pb.subrange(0, pb.len() - 2);
        assert(sa == sb);
        let plain_a = a.len() == 0 || ends_with_separator(a);
        let plain_b = b.len() == 0 || ends_with_separator(b);
        if !plain_a && !plain_b {
            assert(a =~= a.push(separator()).drop_last());
            assert(b =~= b.push(separator()).drop_last());
        }
    }
}

/// What stands before the database's name in a database path: the directory
/// itself, or the directory and one separator.
proof fn lemma_database_path_stem(dir: Seq<char>)
    ensures
        database_path(dir).len() >= 2,
        database_path(dir).subrange(0, database_path(dir).len() - 2) == (if dir.len() == 0
            || ends_with_separator(dir) {
            dir
        } else {
            dir.push(separator())
        }),
{
    let p = database_path(dir);
    let stem = if dir.len() == 0 || ends_with_separator(dir) {
        dir
    } else {
        dir.push(separator())
    };
    assert(p.subrange(0, p.len() - 2) =~= stem);
}

/// Fixtures that hold different directories never share a database path.
pub proof fn lemma_distinct_directories_distinct_paths(a: Seq<char>, b: Seq<char>)
    requires
        !same_directory(a, b),
    ensures
        database_path(a) != database_path(b),
{
    lemma_same_database_path(a, b);
}

} // verus!
