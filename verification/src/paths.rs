//! File-name handling for plugin bundle paths.
//!
//! A plugin bundle is named by its path, and its display name is the file
//! stem of that path. The rules, stated over character sequences: the base
//! name is everything after the last `/` (the whole path if there is none);
//! a path ending in `/` has no stem; otherwise the stem is the base name up
//! to its last `.`, except that a `.` at the very start of the base name
//! (a hidden file) does not cut it.
//!
//! These rules are deliberately simpler than `std::path::Path::file_stem`,
//! which they otherwise agree with on ordinary bundle paths: std ignores
//! trailing separators (`"dir/"` names `dir` there, has no stem here) and
//! treats the `.` and `..` components specially (no stem there; here `"."`
//! has none, `".."` keeps its leading dot and yields `"."`). Plugin bundle
//! paths name a `.component` directory and never take those shapes.

use vstd::prelude::*;
use vstd::string::*;

verus! {

/// Index at which the base name starts: one past the last `/`, or 0 if the
/// path contains none.
pub open spec fn base_start(s: Seq<char>) -> int
    decreases s.len(),
{
    if s.len() == 0 {
        0
    } else if s[s.len() - 1] == '/' {
        s.len() as int
    } else {
        base_start(s.drop_last())
    }
}

/// Index of the last `.` that lies strictly after `start`, or -1 if there
/// is none.
pub open spec fn last_dot_after(s: Seq<char>, start: int) -> int
    decreases s.len(),
{
    if s.len() == 0 {
        -1
    } else if s.len() - 1 > start && s[s.len() - 1] == '.' {
        s.len() - 1
    } else {
        last_dot_after(s.drop_last(), start)
    }
}

/// The file stem of a path, or `None` if the path has an empty base name.
pub open spec fn spec_file_stem(s: Seq<char>) -> Option<Seq<char>> {
    let start = base_start(s);
    if start >= s.len() {
        None
    } else {
        let dot = last_dot_after(s, start);
        if dot == -1 {
            Some(s.subrange(start, s.len() as int))
        } else {
            Some(s.subrange(start, dot))
        }
    }
}

proof fn lemma_base_start_bounds(s: Seq<char>)
    ensures
        0 <= base_start(s) <= s.len(),
    decreases s.len(),
{
    if s.len() == 0 {
    } else if s[s.len() - 1] == '/' {
    } else {
        lemma_base_start_bounds(s.drop_last());
    }
}

proof fn lemma_base_start_at(s: Seq<char>, k: int)
    requires
        0 <= k < s.len(),
        s[k] == '/',
        forall|m: int| k < m < s.len() ==> s[m] != '/',
    ensures
        base_start(s) == k + 1,
    decreases s.len(),
{
    if s.len() - 1 == k {
    } else {
        assert(s[s.len() - 1] != '/');
        assert(s.drop_last()[k] == s[k]);
        assert(forall|m: int| k < m < s.len() - 1 ==> s.drop_last()[m] == s[m]);
        lemma_base_start_at(s.drop_last(), k);
    }
}

proof fn lemma_base_start_none(s: Seq<char>)
    requires
        forall|m: int| 0 <= m < s.len() ==> s[m] != '/',
    ensures
        base_start(s) == 0,
    decreases s.len(),
{
    if s.len() == 0 {
    } else {
        assert(s[s.len() - 1] != '/');
        assert(forall|m: int| 0 <= m < s.len() - 1 ==> s.drop_last()[m] == s[m]);
        lemma_base_start_none(s.drop_last());
    }
}

proof fn lemma_last_dot_at(s: Seq<char>, start: int, k: int)
    requires
        0 <= k < s.len(),
        k > start,
        s[k] == '.',
        forall|m: int| k < m < s.len() ==> s[m] != '.',
    ensures
        last_dot_after(s, start) == k,
    decreases s.len(),
{
    if s.len() - 1 == k {
    } else {
        assert(s[s.len() - 1] != '.');
        assert(s.drop_last()[k] == s[k]);
        assert(forall|m: int| k < m < s.len() - 1 ==> s.drop_last()[m] == s[m]);
        lemma_last_dot_at(s.drop_last(), start, k);
    }
}

proof fn lemma_last_dot_none(s: Seq<char>, start: int)
    requires
        forall|m: int| 0 <= m && start < m < s.len() ==> s[m] != '.',
    ensures
        last_dot_after(s, start) == -1,
    decreases s.len(),
{
    if s.len() == 0 {
    } else {
        if s.len() - 1 > start {
            assert(s[s.len() - 1] != '.');
        }
        assert(forall|m: int| 0 <= m && start < m < s.len() - 1 ==> s.drop_last()[m] == s[m]);
        lemma_last_dot_none(s.drop_last(), start);
    }
}

/// The file stem of a path, by the rules above, or `None` if the base name
/// is empty.
pub fn file_stem(path: &str) -> (r: Option<String>)
    ensures
        match r {
            Some(stem) => spec_file_stem(path@) == Some(stem@),
            None => spec_file_stem(path@) is None,
        },
{
    let n = path.unicode_len();
    let mut last_slash: Option<usize> = None;
    let mut last_dot: Option<usize> = None;
    let mut i: usize = 0;
    while i < n
        invariant
            n == path@.len(),
            i <= n,
            match last_slash {
                Some(k) => k < i && path@[k as int] == '/' && forall|m: int|
                    k < m < i ==> path@[m] != '/',
                None => forall|m: int| 0 <= m < i ==> path@[m] != '/',
            },
            match last_dot {
                Some(k) => k < i && path@[k as int] == '.' && forall|m: int|
                    k < m < i ==> path@[m] != '.',
                None => forall|m: int| 0 <= m < i ==> path@[m] != '.',
            },
        decreases n - i,
    {
        let c = path.get_char(i);
        if c == '/' {
            last_slash = Some(i);
        }
        if c == '.' {
            last_dot = Some(i);
        }
        i = i + 1;
    }
    let start: usize = match last_slash {
        Some(k) => {
            proof {
                lemma_base_start_at(path@, k as int);
            }
            k + 1
        },
        None => {
            proof {
                lemma_base_start_none(path@);
            }
            0
        },
    };
    if start >= n {
        return None;
    }
    let end: usize = match last_dot {
        Some(k) => {
            if k > start {
                proof {
                    lemma_last_dot_at(path@, start as int, k as int);
                }
                k
            } else {
                proof {
                    lemma_last_dot_none(path@, start as int);
                }
                n
            }
        },
        None => {
            proof {
                lemma_last_dot_none(path@, start as int);
            }
            n
        },
    };
    let stem = path.substring_char(start, end).to_owned();
    Some(stem)
}

} // verus!
