//! The slice of path syntax the recorder needs: finding the final file-name
//! component of a slash-separated path and stripping its extension.
//!
//! A path is a sequence of components separated by `/`. Empty components and
//! lone `.` components are skipped; a path whose last real component is `..`,
//! or that has no component at all, has no file name. The extension of a
//! file name is everything after its last `.`, unless that dot is the very
//! first character (so ".profile" has no extension).

use vstd::prelude::*;

verus! {

/// The start of the path component that ends right before index `e`:
/// the least index `i` such that `s[i..e)` holds no separator.
pub open spec fn spec_comp_start(s: Seq<char>, e: int) -> int
    decreases e,
{
    if e <= 0 {
        0
    } else if s[e - 1] == '/' {
        e
    } else {
        spec_comp_start(s, e - 1)
    }
}

/// The range `[start, end)` of the file-name component of the prefix
/// `s[0..e)`, or `None` where that prefix has no file name: it is empty,
/// all separators and `.` components, or ends in a `..` component.
pub open spec fn spec_file_name_range(s: Seq<char>, e: int) -> Option<(int, int)>
    decreases e,
{
    if e <= 0 {
        None
    } else if s[e - 1] == '/' {
        spec_file_name_range(s, e - 1)
    } else {
        let st = spec_comp_start(s, e);
        if e - st == 1 && s[st] == '.' {
            spec_file_name_range(s, st)
        } else if e - st == 2 && s[st] == '.' && s[st + 1] == '.' {
            None
        } else {
            Some((st, e))
        }
    }
}

/// The index of the last `.` strictly after `st` and before `e`,
/// or `st` where there is none.
pub open spec fn spec_last_dot(s: Seq<char>, st: int, e: int) -> int
    decreases e - st,
{
    if e <= st + 1 {
        st
    } else if s[e - 1] == '.' {
        e - 1
    } else {
        spec_last_dot(s, st, e - 1)
    }
}

/// Where the stem of the component `s[st..e)` ends: just before the last
/// dot, except that a dot in the leading position starts no extension.
pub open spec fn spec_stem_end(s: Seq<char>, st: int, e: int) -> int {
    if spec_last_dot(s, st, e) > st {
        spec_last_dot(s, st, e)
    } else {
        e
    }
}

/// The base name a path yields: its file-name component with the extension
/// stripped, re-read as a path in case the stripped stem is itself a `.` or
/// `..` component (then an earlier component, or nothing, is the answer).
pub open spec fn spec_base_name(s: Seq<char>) -> Option<Seq<char>> {
    match spec_file_name_range(s, s.len() as int) {
        None => None,
        Some((st, e)) => {
            let se = spec_stem_end(s, st, e);
            match spec_file_name_range(s, se) {
                None => None,
                Some((st2, e2)) => Some(s.subrange(st2, e2)),
            }
        },
    }
}

proof fn lemma_comp_start_bounds(s: Seq<char>, e: int)
    requires
        0 <= e,
    ensures
        0 <= spec_comp_start(s, e) <= e,
        e > 0 && s[e - 1] != '/' ==> spec_comp_start(s, e) < e,
    decreases e,
{
    if e > 0 && s[e - 1] != '/' {
        lemma_comp_start_bounds(s, e - 1);
    }
}

proof fn lemma_file_name_range_bounds(s: Seq<char>, e: int)
    requires
        0 <= e,
        spec_file_name_range(s, e) is Some,
    ensures
        0 <= spec_file_name_range(s, e)->Some_0.0 < spec_file_name_range(s, e)->Some_0.1 <= e,
    decreases e,
{
    if e > 0 {
        if s[e - 1] == '/' {
            lemma_file_name_range_bounds(s, e - 1);
        } else {
            let st = spec_comp_start(s, e);
            lemma_comp_start_bounds(s, e);
            if e - st == 1 && s[st] == '.' {
                lemma_file_name_range_bounds(s, st);
            }
        }
    }
}

fn comp_start(s: &str, e: usize) -> (r: usize)
    requires
        e <= s@.len(),
    ensures
        r as int == spec_comp_start(s@, e as int),
        r <= e,
    decreases e,
{
    if e == 0 {
        0
    } else if s.get_char(e - 1) == '/' {
        e
    } else {
        comp_start(s, e - 1)
    }
}

/// The file-name component of the prefix `s[0..e)`, as a range of indices.
fn file_name_range(s: &str, e: usize) -> (r: Option<(usize, usize)>)
    requires
        e <= s@.len(),
    ensures
        r is Some <==> spec_file_name_range(s@, e as int) is Some,
        r matches Some(p) ==> spec_file_name_range(s@, e as int) == Some((p.0 as int, p.1 as int)),
    decreases e,
{
    if e == 0 {
        None
    } else if s.get_char(e - 1) == '/' {
        file_name_range(s, e - 1)
    } else {
        let st = comp_start(s, e);
        if e - st == 1 && s.get_char(st) == '.' {
            file_name_range(s, st)
        } else if e - st == 2 && s.get_char(st) == '.' && s.get_char(st + 1) == '.' {
            None
        } else {
            Some((st, e))
        }
    }
}

fn last_dot(s: &str, st: usize, e: usize) -> (r: usize)
    requires
        st <= e <= s@.len(),
    ensures
        r as int == spec_last_dot(s@, st as int, e as int),
        st <= r,
        r < e || r == st,
    decreases e - st,
{
    if e - st <= 1 {
        st
    } else if s.get_char(e - 1) == '.' {
        e - 1
    } else {
        last_dot(s, st, e - 1)
    }
}

fn stem_end(s: &str, st: usize, e: usize) -> (r: usize)
    requires
        st < e <= s@.len(),
    ensures
        r as int == spec_stem_end(s@, st as int, e as int),
        st < r <= e,
{
    let d = last_dot(s, st, e);
    if d > st {
        d
    } else {
        e
    }
}

/// The base name of `path`: the final component with its extension
/// stripped, exactly as `spec_base_name` states it.
pub fn base_name(path: &str) -> (r: Option<String>)
    ensures
        r is Some <==> spec_base_name(path@) is Some,
        r matches Some(b) ==> spec_base_name(path@) == Some(b@),
{
    let n = path.unicode_len();
    let first = file_name_range(path, n);
    match first {
        None => None,
        Some((st, e)) => {
            proof {
                lemma_file_name_range_bounds(path@, n as int);
            }
            let se = stem_end(path, st, e);
            match file_name_range(path, se) {
                None => None,
                Some((st2, e2)) => {
                    proof {
                        lemma_file_name_range_bounds(path@, se as int);
                    }
                    let stem = path.substring_char(st2, e2);
                    Some(stem.to_owned())
                },
            }
        },
    }
}

} // verus!
