//! Path text helpers: extracting a display name from a model path and
//! deriving the per-model configuration file path. Paths are plain character
//! strings with `'/'` separators; the final component after the last
//! separator is the file name, and its portion before a final (non-leading)
//! dot is the stem.

use vstd::prelude::*;
use vstd::seq_lib::*;
use vstd::string::*;

verus! {

/// The part of `s` after the last occurrence of `c` (all of `s` when `c`
/// does not occur).
pub open spec fn after_last(s: Seq<char>, c: char) -> Seq<char> {
    match s.index_of_last(c) {
        Some(i) => s.skip(i + 1),
        None => s,
    }
}

/// The file name of a path: the component after the last separator. Empty,
/// `.` and `..` components name no file.
pub open spec fn spec_file_name(path: Seq<char>) -> Option<Seq<char>> {
    let name = after_last(path, '/');
    if name.len() == 0 || name == seq!['.'] || name == seq!['.', '.'] {
        None
    } else {
        Some(name)
    }
}

/// A file name without its extension: the portion before the last dot,
/// unless that dot is the leading character.
pub open spec fn stem_of_name(name: Seq<char>) -> Seq<char> {
    match name.index_of_last('.') {
        Some(p) => if p <= 0 {
            name
        } else {
            name.take(p)
        },
        None => name,
    }
}

/// A file name with its extension replaced (or added).
pub open spec fn with_extension(name: Seq<char>, ext: Seq<char>) -> Seq<char> {
    stem_of_name(name) + seq!['.'] + ext
}

/// A directory prefix joined with a file name by a single separator.
pub open spec fn joined(prefix: Seq<char>, name: Seq<char>) -> Seq<char> {
    if prefix.len() == 0 {
        name
    } else if prefix.last() == '/' {
        prefix + name
    } else {
        prefix + seq!['/'] + name
    }
}

/// The stem of a path's file name, shortened to at most `desired_length`
/// characters; a shortened stem ends in `..`. A path without a file name
/// shows `err` instead.
pub open spec fn spec_pathbuf_to_string(path: Seq<char>, desired_length: int, err: Seq<char>) -> Seq<
    char,
> {
    let stem = match spec_file_name(path) {
        Some(name) => stem_of_name(name),
        None => err,
    };
    if stem.len() > desired_length {
        stem.take(desired_length - 2) + seq!['.', '.']
    } else {
        stem
    }
}

/// The path under `prefix` that names the same file as `path` but with
/// extension `ext`; nothing when `path` has no file name.
pub open spec fn spec_pathbuf_helper(path: Seq<char>, prefix: Seq<char>, ext: Seq<char>) -> Option<
    Seq<char>,
> {
    match spec_file_name(path) {
        Some(name) => Some(joined(prefix, with_extension(name, ext))),
        None => None,
    }
}

/// The character position of the last occurrence of `c` in `s`.
fn last_pos_char(s: &str, c: char) -> (r: Option<usize>)
    ensures
        match r {
            Some(i) => s@.index_of_last(c) == Some(i as int),
            None => s@.index_of_last(c) is None,
        },
{
    let n = s.unicode_len();
    let mut i: usize = n;
    while i > 0
        invariant
            0 <= i <= n == s@.len(),
            forall|j: int| i <= j < n ==> s@[j] != c,
        decreases i,
    {
        if s.get_char(i - 1) == c {
            proof {
                s@.index_of_last_ensures(c);
                match s@.index_of_last(c) {
                    Some(idx) => {
                        if idx < i - 1 {
                            assert(s@[i - 1] != c);
                        }
                        if idx > i - 1 {
                            assert(s@[idx] != c);
                        }
                    },
                    None => {
                        assert(s@[i - 1] != c);
                    },
                }
            }
            return Some(i - 1);
        }
        i = i - 1;
    }
    proof {
        s@.index_of_last_ensures(c);
        match s@.index_of_last(c) {
            Some(idx) => {
                assert(s@[idx] != c);
            },
            None => {},
        }
    }
    None
}

/// The file name of a path, as [`spec_file_name`] describes it.
pub fn file_name_str(path: &str) -> (r: Option<String>)
    ensures
        match r {
            Some(name) => spec_file_name(path@) == Some(name@),
            None => spec_file_name(path@) is None,
        },
{
    let n = path.unicode_len();
    proof {
        path@.index_of_last_ensures('/');
    }
    let start = match last_pos_char(path, '/') {
        Some(i) => i + 1,
        None => 0,
    };
    let name = path.substring_char(start, n);
    proof {
        assert(name@ =~= after_last(path@, '/'));
    }
    let k = name.unicode_len();
    if k == 0 {
        return None;
    }
    let is_dot = k == 1 && name.get_char(0) == '.';
    if is_dot {
        proof {
            assert(name@ =~= seq!['.']);
        }
        return None;
    }
    let is_dot_dot = k == 2 && name.get_char(0) == '.' && name.get_char(1) == '.';
    if is_dot_dot {
        proof {
            assert(name@ =~= seq!['.', '.']);
        }
        return None;
    }
    proof {
        if name@ == seq!['.'] {
            assert(name@.len() == 1 && name@[0] == '.');
        }
        if name@ == seq!['.', '.'] {
            assert(name@.len() == 2 && name@[0] == '.' && name@[1] == '.');
        }
    }
    Some(name.to_owned())
}

/// The stem of a file name, as [`stem_of_name`] describes it.
fn stem_of_name_str(name: &str) -> (r: String)
    ensures
        r@ == stem_of_name(name@),
{
    proof {
        name@.index_of_last_ensures('.');
    }
    match last_pos_char(name, '.') {
        Some(p) => if p == 0 {
            name.to_owned()
        } else {
            name.substring_char(0, p).to_owned()
        },
        None => name.to_owned(),
    }
}

/// The stem of a path's file name, shortened to at most `desired_length`
/// characters with a trailing `..` where it had to be cut; `error_str` stands
/// in for a path without a file name.
pub fn pathbuf_to_string(path: &str, desired_length: usize, error_str: &str) -> (r: String)
    requires
        desired_length >= 2,
    ensures
        r@ == spec_pathbuf_to_string(path@, desired_length as int, error_str@),
{
    let stem: String = match file_name_str(path) {
        Some(name) => stem_of_name_str(name.as_str()),
        None => error_str.to_owned(),
    };
    if stem.unicode_len() > desired_length {
        let mut cut = stem.as_str().substring_char(0, desired_length - 2).to_owned();
        cut.append("..");
        proof {
            reveal_strlit("..");
            assert(cut@ =~= spec_pathbuf_to_string(path@, desired_length as int, error_str@));
        }
        cut
    } else {
        stem
    }
}

/// The path under `prefix` naming the same file as `path` with extension
/// `extension`, or nothing when `path` has no file name.
pub fn pathbuf_helper(path: &str, prefix: &str, extension: &str) -> (r: Option<String>)
    ensures
        match r {
            Some(p) => spec_pathbuf_helper(path@, prefix@, extension@) == Some(p@),
            None => spec_pathbuf_helper(path@, prefix@, extension@) is None,
        },
{
    let name = match file_name_str(path) {
        Some(name) => name,
        None => {
            return None;
        },
    };
    let mut renamed = stem_of_name_str(name.as_str());
    renamed.append(".");
    renamed.append(extension);
    proof {
        reveal_strlit(".");
        assert(renamed@ =~= with_extension(name@, extension@));
    }
    let plen = prefix.unicode_len();
    let mut out: String;
    if plen == 0 {
        out = renamed;
    } else if prefix.get_char(plen - 1) == '/' {
        out = prefix.to_owned();
        out.append(renamed.as_str());
    } else {
        out = prefix.to_owned();
        out.append("/");
        out.append(renamed.as_str());
        proof {
            reveal_strlit("/");
        }
    }
    proof {
        assert(out@ =~= joined(prefix@, with_extension(name@, extension@)));
    }
    Some(out)
}

} // verus!
