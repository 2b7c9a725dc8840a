//! A character-level model of slash-separated paths, and the path
//! constructions the re-encoder needs: the backup destination and the
//! output path `<stem>.<suffix>.mkv` next to the input.
//!
//! The model is deliberately simple: a path is a sequence of characters,
//! its file name is whatever follows the last `/`, and no normalisation of
//! repeated or trailing separators is attempted.

use vstd::prelude::*;
use crate::text::last_char_index;

verus! {

/// Index of the last `/` in `p`, if any.
pub open spec fn last_slash(p: Seq<char>) -> Option<int> {
    p.index_of_last('/')
}

/// The final component of `p`: everything after the last `/`,
/// or all of `p` when it has no `/`. Empty when `p` ends in `/`.
pub open spec fn file_name_of(p: Seq<char>) -> Seq<char> {
    match last_slash(p) {
        Some(i) => p.subrange(i + 1, p.len() as int),
        None => p,
    }
}

/// The directory part of `p`: everything before the last `/`
/// (the root `/` when the last `/` is the first character),
/// or empty when `p` has no `/`.
pub open spec fn parent_of(p: Seq<char>) -> Seq<char> {
    match last_slash(p) {
        Some(i) => if i == 0 {
            seq!['/']
        } else {
            p.subrange(0, i)
        },
        None => Seq::empty(),
    }
}

/// The stem of a file name: everything before the last `.`, except that a
/// name whose only `.` leads it (a hidden file) is its own stem.
pub open spec fn stem_of(name: Seq<char>) -> Seq<char> {
    match name.index_of_last('.') {
        Some(i) => if i == 0 {
            name
        } else {
            name.subrange(0, i)
        },
        None => name,
    }
}

/// The extension of a file name: everything after the last `.`, or nothing
/// when there is no `.` or the only `.` leads the name.
pub open spec fn extension_of(name: Seq<char>) -> Option<Seq<char>> {
    match name.index_of_last('.') {
        Some(i) => if i == 0 {
            None
        } else {
            Some(name.subrange(i + 1, name.len() as int))
        },
        None => None,
    }
}

/// The extension of the final component of a path.
pub open spec fn path_extension(p: Seq<char>) -> Option<Seq<char>> {
    extension_of(file_name_of(p))
}

/// `name` appended to the directory `dir`, inserting a `/` where needed.
pub open spec fn join_of(dir: Seq<char>, name: Seq<char>) -> Seq<char> {
    if dir.len() == 0 {
        name
    } else if dir.last() == '/' {
        dir + name
    } else {
        dir + seq!['/'] + name
    }
}

/// Ties the executable search for the last `/` or `.` to the spec-level
/// `index_of_last`, which characterises the same position.
proof fn lemma_index_of_last_agrees(s: Seq<char>, c: char, r: Option<usize>)
    requires
        match r {
            Some(i) => i < s.len() && s[i as int] == c && (forall|j: int|
                i < j < s.len() ==> s[j] != c),
            None => forall|j: int| 0 <= j < s.len() ==> s[j] != c,
        },
    ensures
        match r {
            Some(i) => s.index_of_last(c) == Some(i as int),
            None => s.index_of_last(c) is None,
        },
{
    s.index_of_last_ensures(c);
    match r {
        Some(i) => {
            assert(s.contains(c));
            let k = s.index_of_last(c)->Some_0;
            assert(s[k] == c);
            assert(k == i as int);
        },
        None => {
            assert(!s.contains(c));
        },
    }
}

/// The final component of `p`.
pub fn file_name<'a>(p: &'a str) -> (r: &'a str)
    ensures
        r@ == file_name_of(p@),
{
    let len = p.unicode_len();
    let found = last_char_index(p, '/');
    proof {
        lemma_index_of_last_agrees(p@, '/', found);
    }
    match found {
        Some(i) => p.substring_char(i + 1, len),
        None => p.substring_char(0, len),
    }
}

/// The directory part of `p`.
pub fn parent_dir(p: &str) -> (r: String)
    ensures
        r@ == parent_of(p@),
{
    let found = last_char_index(p, '/');
    proof {
        lemma_index_of_last_agrees(p@, '/', found);
    }
    match found {
        Some(i) => {
            if i == 0 {
                proof {
                    reveal_strlit("/");
                    assert("/"@ =~= seq!['/']);
                }
                "/".to_owned()
            } else {
                p.substring_char(0, i).to_owned()
            }
        },
        None => {
            let r = String::new();
            proof {
                assert(r@ =~= parent_of(p@));
            }
            r
        },
    }
}

/// The stem of a file name.
pub fn file_stem<'a>(name: &'a str) -> (r: &'a str)
    ensures
        r@ == stem_of(name@),
{
    let len = name.unicode_len();
    let found = last_char_index(name, '.');
    proof {
        lemma_index_of_last_agrees(name@, '.', found);
    }
    match found {
        Some(i) => {
            if i == 0 {
                name.substring_char(0, len)
            } else {
                name.substring_char(0, i)
            }
        },
        None => name.substring_char(0, len),
    }
}

/// The extension of a file name.
pub fn extension<'a>(name: &'a str) -> (r: Option<&'a str>)
    ensures
        match r {
            Some(x) => extension_of(name@) == Some(x@),
            None => extension_of(name@) is None,
        },
{
    let len = name.unicode_len();
    let found = last_char_index(name, '.');
    proof {
        lemma_index_of_last_agrees(name@, '.', found);
    }
    match found {
        Some(i) => {
            if i == 0 {
                None
            } else {
                Some(name.substring_char(i + 1, len))
            }
        },
        None => None,
    }
}

/// Joins `name` onto the directory `dir`.
pub fn join_path(dir: &str, name: &str) -> (r: String)
    ensures
        r@ == join_of(dir@, name@),
{
    proof {
        reveal_strlit("/");
        assert("/"@ =~= seq!['/']);
    }
    let len = dir.unicode_len();
    if len == 0 {
        name.to_owned()
    } else {
        let mut out = dir.to_owned();
        if dir.get_char(len - 1) != '/' {
            out.append("/");
        }
        out.append(name);
        proof {
            assert(out@ =~= join_of(dir@, name@));
        }
        out
    }
}

/// The stem the output file is named after: the input's stem, or `out`
/// when the input has no final component to take a stem from.
pub open spec fn output_stem_of(p: Seq<char>) -> Seq<char> {
    if file_name_of(p).len() == 0 {
        "out"@
    } else {
        stem_of(file_name_of(p))
    }
}

/// The output file name: `<stem>.<suffix>.mkv`.
pub open spec fn output_name_of(p: Seq<char>, suffix: Seq<char>) -> Seq<char> {
    output_stem_of(p) + "."@ + suffix + ".mkv"@
}

/// The output path: the output file name placed in the input's directory.
pub open spec fn output_path_of(p: Seq<char>, suffix: Seq<char>) -> Seq<char> {
    join_of(parent_of(p), output_name_of(p, suffix))
}

/// Builds the path the encoded output is written to: the input's stem
/// (or `out` if it has none), the codec suffix and the `mkv` container
/// extension, in the input's own directory.
pub fn get_output_path(input: &str, codec_suffix: &str) -> (r: String)
    ensures
        r@ == output_path_of(input@, codec_suffix@),
{
    let name = file_name(input);
    let stem = if name.unicode_len() == 0 {
        "out"
    } else {
        file_stem(name)
    };
    let mut out_name = stem.to_owned();
    out_name.append(".");
    out_name.append(codec_suffix);
    out_name.append(".mkv");
    let dir = parent_dir(input);
    let r = join_path(dir.as_str(), out_name.as_str());
    proof {
        assert(out_name@ =~= output_name_of(input@, codec_suffix@));
        assert(r@ =~= output_path_of(input@, codec_suffix@));
    }
    r
}

/// Where the backup copy of `input` is placed: its file name inside
/// `backup_dir`. An input with no final component has nowhere to back
/// up to, so it is excluded.
pub fn backup_destination(input: &str, backup_dir: &str) -> (r: String)
    requires
        file_name_of(input@).len() > 0,
    ensures
        r@ == join_of(backup_dir@, file_name_of(input@)),
{
    let name = file_name(input);
    join_path(backup_dir, name)
}

} // verus!
