use vstd::prelude::*;
use vstd::string::StrSliceExecFns;
use vstd::string::StringExecFns;

verus! {

/// The position of the last occurrence of `c` in `s`, or -1 where `s` does
/// not hold `c`.
pub open spec fn last_index_of(s: Seq<char>, c: char) -> int
    decreases s.len(),
{
    if s.len() == 0 {
        -1
    } else if s.last() == c {
        s.len() - 1
    } else {
        last_index_of(s.drop_last(), c)
    }
}

/// The directory part of an archive path: everything up to and including
/// its last `/`, and nothing where it has none.
pub open spec fn parent_dir(path: Seq<char>) -> Seq<char> {
    path.take(last_index_of(path, '/') + 1)
}

/// The last component of a path: what follows its last `/`.
pub open spec fn file_name(path: Seq<char>) -> Seq<char> {
    path.skip(last_index_of(path, '/') + 1)
}

/// The extension of a path: what follows the last `.` of its file name,
/// unless the file name has no `.` or only a leading one.
pub open spec fn extension(path: Seq<char>) -> Option<Seq<char>> {
    let name = file_name(path);
    let dot = last_index_of(name, '.');
    if dot <= 0 {
        None
    } else {
        Some(name.skip(dot + 1))
    }
}

/// `last_index_of` finds an occurrence, and no occurrence follows it.
pub proof fn lemma_last_index_of(s: Seq<char>, c: char)
    ensures
        -1 <= last_index_of(s, c) < s.len(),
        last_index_of(s, c) >= 0 ==> s[last_index_of(s, c)] == c,
        forall|j: int| last_index_of(s, c) < j < s.len() ==> s[j] != c,
    decreases s.len(),
{
    if s.len() > 0 && s.last() != c {
        lemma_last_index_of(s.drop_last(), c);
        assert forall|j: int| last_index_of(s, c) < j < s.len() implies s[j] != c by {
            if j < s.len() - 1 {
                assert(s.drop_last()[j] == s[j]);
            }
        }
    }
}

/// Where the tail of `s` from `i` on is free of `c`, the last occurrence in
/// `s` is the last occurrence in its first `i` characters.
proof fn lemma_last_index_of_prefix(s: Seq<char>, c: char, i: int)
    requires
        0 <= i <= s.len(),
        forall|j: int| i <= j < s.len() ==> s[j] != c,
    ensures
        last_index_of(s, c) == last_index_of(s.take(i), c),
    decreases s.len() - i,
{
    if i < s.len() {
        assert(s.drop_last().take(i) =~= s.take(i));
        lemma_last_index_of_prefix(s.drop_last(), c, i);
    } else {
        assert(s.take(i) =~= s);
    }
}

/// Finds the last occurrence of a character in a string.
pub fn find_last(s: &str, c: char) -> (r: Option<usize>)
    ensures
        match r {
            Some(k) => k == last_index_of(s@, c),
            None => last_index_of(s@, c) == -1,
        },
        s@.len() <= usize::MAX,
{
    let mut i: usize = s.unicode_len();
    while i > 0
        invariant
            i <= s@.len() <= usize::MAX,
            forall|j: int| i <= j < s@.len() ==> s@[j] != c,
        decreases i,
    {
        if s.get_char(i - 1) == c {
            proof {
                lemma_last_index_of_prefix(s@, c, i as int);
            }
            return Some(i - 1);
        }
        i = i - 1;
    }
    proof {
        lemma_last_index_of_prefix(s@, c, 0);
    }
    None
}

/// The directory that an archive path lies in, with its closing `/`.
pub fn directory_of(path: &str) -> (r: String)
    ensures
        r@ == parent_dir(path@),
{
    let end: usize = match find_last(path, '/') {
        Some(k) => {
            proof {
                lemma_last_index_of(path@, '/');
            }
            k + 1
        },
        None => 0,
    };
    String::from_str(path.substring_char(0, end))
}

/// Joins a directory, as `directory_of` gives it, and a path relative to it.
pub fn join_path(dir: &str, relative: &str) -> (r: String)
    ensures
        r@ == dir@ + relative@,
{
    String::from_str(dir).concat(relative)
}

/// Tells whether the extension of a path is exactly `expected`.
pub fn has_extension(path: &str, expected: &str) -> (r: bool)
    ensures
        r == (extension(path@) == Some(expected@)),
{
    let len: usize = path.unicode_len();
    let start: usize = match find_last(path, '/') {
        Some(k) => {
            proof {
                lemma_last_index_of(path@, '/');
            }
            k + 1
        },
        None => 0,
    };
    let name = path.substring_char(start, len);
    match find_last(name, '.') {
        Some(dot) => {
            if dot == 0 {
                false
            } else {
                proof {
                    lemma_last_index_of(name@, '.');
                }
                let name_len: usize = name.unicode_len();
                let found = String::from_str(name.substring_char(dot + 1, name_len));
                let wanted = String::from_str(expected);
                found == wanted
            }
        },
        None => false,
    }
}

} // verus!
