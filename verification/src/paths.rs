//! The final component of a slash-separated path, as `std::path::Path::file_name`
//! yields it on Unix.

use vstd::prelude::*;
use vstd::string::{StrSliceExecFns, StringExecFns};

verus! {

/// The position just past the last `/` of `s`, or 0 when `s` has none.
pub open spec fn after_last_slash(s: Seq<char>) -> int
    decreases s.len(),
{
    if s.len() == 0 {
        0
    } else if s.last() == '/' {
        s.len() as int
    } else {
        after_last_slash(s.drop_last())
    }
}

/// The path component `.`.
pub open spec fn cur_dir() -> Seq<char> {
    seq!['.']
}

/// The path component `..`.
pub open spec fn parent_dir() -> Seq<char> {
    seq!['.', '.']
}

/// `after_last_slash` points into `s`, and before its end when `s` does
/// not end in `/`.
pub proof fn lemma_after_last_slash_bounds(s: Seq<char>)
    ensures
        0 <= after_last_slash(s) <= s.len(),
        s.len() > 0 && s.last() != '/' ==> after_last_slash(s) < s.len(),
    decreases s.len(),
{
    if s.len() > 0 && s.last() != '/' {
        lemma_after_last_slash_bounds(s.drop_last());
    }
}

/// The last component of a path, with repeated and trailing separators and
/// `.` components skipped (the way `Path::components` reads a Unix path);
/// `None` when no component is left (an empty path, `/`, `.`).
pub open spec fn last_component(s: Seq<char>) -> Option<Seq<char>>
    decreases s.len(),
{
    if s.len() == 0 {
        None
    } else if s.last() == '/' {
        last_component(s.drop_last())
    } else {
        let k = after_last_slash(s);
        if s.skip(k) == cur_dir() {
            proof {
                lemma_after_last_slash_bounds(s);
            }
            last_component(s.take(k))
        } else {
            Some(s.skip(k))
        }
    }
}

/// The file name of a path: its last component, unless that is `..` or
/// there is none.
pub open spec fn file_name_spec(path: Seq<char>) -> Option<Seq<char>> {
    match last_component(path) {
        Some(c) => if c == parent_dir() {
            None
        } else {
            Some(c)
        },
        None => None,
    }
}

proof fn lemma_after_last_slash_of_segment(s: Seq<char>, start: int, end: int)
    requires
        0 <= start <= end <= s.len(),
        forall|j: int| start <= j < end ==> s[j] != '/',
        start == 0 || s[start - 1] == '/',
    ensures
        after_last_slash(s.take(end)) == start,
    decreases end,
{
    if end > start {
        assert(s.take(end).drop_last() =~= s.take(end - 1));
        lemma_after_last_slash_of_segment(s, start, end - 1);
    } else if end > 0 {
        assert(s.take(end).last() == '/');
    }
}

/// The file name of `path`: its final component, with trailing `/` and `.`
/// components ignored, or `None` when the path ends in `..` or has no
/// component (`""`, `"/"`, `"."`).
pub fn file_name(path: &str) -> (r: Option<String>)
    ensures
        match r {
            Some(name) => file_name_spec(path@) == Some(name@),
            None => file_name_spec(path@) is None,
        },
{
    let len = path.unicode_len();
    let mut end = len;
    assert(path@.take(len as int) =~= path@);
    while end > 0
        invariant
            len == path@.len(),
            end <= len,
            last_component(path@) == last_component(path@.take(end as int)),
        decreases end,
    {
        let ghost prefix = path@.take(end as int);
        if path.get_char(end - 1) == '/' {
            assert(prefix.drop_last() =~= path@.take(end - 1));
            end = end - 1;
        } else {
            let mut start = end - 1;
            while start > 0 && path.get_char(start - 1) != '/'
                invariant
                    len == path@.len(),
                    start < end <= len,
                    forall|j: int| start <= j < end ==> path@[j] != '/',
                decreases start,
            {
                start = start - 1;
            }
            proof {
                lemma_after_last_slash_of_segment(path@, start as int, end as int);
                assert(prefix.skip(start as int) =~= path@.subrange(start as int, end as int));
                assert(prefix.take(start as int) =~= path@.take(start as int));
            }
            if end - start == 1 && path.get_char(start) == '.' {
                assert(path@.subrange(start as int, end as int) =~= cur_dir());
                end = start;
            } else {
                let segment = path.substring_char(start, end);
                if end - start == 2 && path.get_char(start) == '.' && path.get_char(start + 1)
                    == '.' {
                    assert(segment@ =~= parent_dir());
                    return None;
                }
                proof {
                    if segment@ == cur_dir() {
                        assert(segment@.len() == 1);
                        assert(segment@[0] == path@[start as int]);
                    }
                    if segment@ == parent_dir() {
                        assert(segment@[0] == path@[start as int]);
                        assert(segment@[1] == path@[start + 1]);
                    }
                }
                return Some(String::from_str(segment));
            }
        }
    }
    assert(path@.take(0) =~= Seq::<char>::empty());
    None
}

/// A path component: not empty, free of `/`, and neither `.` nor `..`.
pub open spec fn is_plain_component(c: Seq<char>) -> bool {
    &&& c.len() > 0
    &&& forall|i: int| 0 <= i < c.len() ==> c[i] != '/'
    &&& c != cur_dir()
    &&& c != parent_dir()
}

/// The file name of a directory followed by a plain component is that
/// component.
pub proof fn lemma_file_name_of_join(dir: Seq<char>, name: Seq<char>)
    requires
        dir.len() == 0 || dir.last() == '/',
        is_plain_component(name),
    ensures
        file_name_spec(dir + name) == Some(name),
{
    let s = dir + name;
    assert(s.take(s.len() as int) =~= s);
    assert forall|j: int| dir.len() <= j < s.len() implies s[j] != '/' by {
        assert(s[j] == name[j - dir.len()]);
    }
    if dir.len() > 0 {
        assert(s[dir.len() - 1] == dir.last());
    }
    lemma_after_last_slash_of_segment(s, dir.len() as int, s.len() as int);
    assert(s.skip(dir.len() as int) =~= name);
    assert(s.last() == name.last());
}

proof fn lemma_last_component_is_single(s: Seq<char>)
    ensures
        last_component(s) matches Some(c) ==> c.len() > 0 && c != cur_dir() && (forall|i: int|
            0 <= i < c.len() ==> c[i] != '/'),
    decreases s.len(),
{
    if s.len() == 0 {
    } else if s.last() == '/' {
        lemma_last_component_is_single(s.drop_last());
    } else {
        let k = after_last_slash(s);
        lemma_after_last_slash_bounds(s);
        lemma_after_last_slash_segment(s);
        if s.skip(k) == cur_dir() {
            lemma_last_component_is_single(s.take(k));
        } else {
            assert(s.skip(k).len() > 0);
            assert forall|i: int| 0 <= i < s.skip(k).len() implies s.skip(k)[i] != '/' by {
                assert(s.skip(k)[i] == s[k + i]);
            }
        }
    }
}

proof fn lemma_after_last_slash_segment(s: Seq<char>)
    ensures
        forall|j: int| after_last_slash(s) <= j < s.len() ==> s[j] != '/',
    decreases s.len(),
{
    if s.len() > 0 && s.last() != '/' {
        lemma_after_last_slash_segment(s.drop_last());
        lemma_after_last_slash_bounds(s.drop_last());
        assert forall|j: int| after_last_slash(s) <= j < s.len() implies s[j] != '/' by {
            if j < s.len() - 1 {
                assert(s[j] == s.drop_last()[j]);
            }
        }
    }
}

/// A file name is a single plain path component: not empty, without `/`,
/// and neither `.` nor `..`.
pub proof fn lemma_file_name_is_plain_component(path: Seq<char>)
    ensures
        file_name_spec(path) matches Some(name) ==> is_plain_component(name),
{
    lemma_last_component_is_single(path);
}

} // verus!
