//! Safety rules for the relative paths of a generation plan and for project names.
use vstd::prelude::*;

verus! {

/// Why a relative path was refused.
#[derive(Debug, Clone, Copy, PartialEq, Eq, Structural)]
pub enum PathIssue {
    /// The path has no characters.
    Empty,
    /// The path starts at the file-system root.
    Absolute,
    /// The path holds a backslash or a NUL character.
    ForbiddenChar,
    /// A segment is `.` or `..`.
    DotSegment,
    /// Two separators follow each other, or the path ends with one.
    EmptySegment,
    /// An earlier unit of the same plan has this path.
    Duplicate,
}

/// Position `i` begins a segment of `p`.
pub open spec fn seg_start(p: Seq<char>, i: int) -> bool {
    i == 0 || (0 < i <= p.len() && p[i - 1] == '/')
}

/// Position `j` ends a segment of `p`.
pub open spec fn seg_end(p: Seq<char>, j: int) -> bool {
    j == p.len() || (0 <= j < p.len() && p[j] == '/')
}

pub open spec fn forbidden_char(c: char) -> bool {
    c == '\\' || c == '\0'
}

pub open spec fn forbidden_at(p: Seq<char>, i: int) -> bool {
    0 <= i < p.len() && forbidden_char(p[i])
}

/// A segment `.` or `..` starts at `i`.
pub open spec fn dot_segment_at(p: Seq<char>, i: int) -> bool {
    &&& 0 <= i < p.len()
    &&& seg_start(p, i)
    &&& p[i] == '.'
    &&& (seg_end(p, i + 1) || (i + 1 < p.len() && p[i + 1] == '.' && seg_end(p, i + 2)))
}

/// An empty segment starts at `i`.
pub open spec fn empty_segment_at(p: Seq<char>, i: int) -> bool {
    0 <= i <= p.len() && seg_start(p, i) && seg_end(p, i)
}

pub open spec fn has_forbidden_char(p: Seq<char>) -> bool {
    exists|i: int| #[trigger] forbidden_at(p, i)
}

pub open spec fn has_dot_segment(p: Seq<char>) -> bool {
    exists|i: int| #[trigger] dot_segment_at(p, i)
}

pub open spec fn has_empty_segment(p: Seq<char>) -> bool {
    exists|i: int| #[trigger] empty_segment_at(p, i)
}

/// The issue reported for `p`, checked in a fixed order; `None` when `p` is safe.
pub open spec fn path_issue(p: Seq<char>) -> Option<PathIssue> {
    if p.len() == 0 {
        Some(PathIssue::Empty)
    } else if p[0] == '/' {
        Some(PathIssue::Absolute)
    } else if has_forbidden_char(p) {
        Some(PathIssue::ForbiddenChar)
    } else if has_dot_segment(p) {
        Some(PathIssue::DotSegment)
    } else if has_empty_segment(p) {
        Some(PathIssue::EmptySegment)
    } else {
        None
    }
}

/// A relative path that stays inside the directory it is joined to.
pub open spec fn is_safe_path(p: Seq<char>) -> bool {
    path_issue(p) is None
}

/// A project name is one path segment: non-empty, no separator, not `.` or `..`.
pub open spec fn is_valid_project_name(s: Seq<char>) -> bool {
    &&& s.len() > 0
    &&& forall|i: int| 0 <= i < s.len() ==> !(#[trigger] s[i] == '/' || forbidden_char(s[i]))
    &&& !(s.len() == 1 && s[0] == '.')
    &&& !(s.len() == 2 && s[0] == '.' && s[1] == '.')
}

/// Checks every position of `p` from `i` on; unfolds on concrete paths.
pub open spec fn clean_from(p: Seq<char>, i: int) -> bool
    decreases p.len() + 1 - i,
{
    if i < 0 || i > p.len() {
        true
    } else {
        !forbidden_at(p, i) && !dot_segment_at(p, i) && !empty_segment_at(p, i) && clean_from(
            p,
            i + 1,
        )
    }
}

/// A path with no issue at any position from the start, and not absolute, is safe.
pub proof fn lemma_clean_is_safe(p: Seq<char>)
    requires
        p.len() > 0,
        p[0] != '/',
        clean_from(p, 0),
    ensures
        is_safe_path(p),
{
    assert forall|i: int| 0 <= i <= p.len() implies clean_from(p, i) by {
        lemma_clean_suffix(p, 0, i);
    }
    assert forall|i: int| 0 <= i <= p.len() implies !forbidden_at(p, i) && !dot_segment_at(p, i)
        && !empty_segment_at(p, i) by {
        assert(clean_from(p, i));
    }
}

proof fn lemma_clean_suffix(p: Seq<char>, i: int, j: int)
    requires
        0 <= i <= j <= p.len(),
        clean_from(p, i),
    ensures
        clean_from(p, j),
    decreases j - i,
{
    if i < j {
        lemma_clean_suffix(p, i + 1, j);
    }
}

fn char_at_or_slash(p: &str, n: usize, i: usize) -> (c: char)
    requires
        n == p@.len(),
    ensures
        i < n ==> c == p@[i as int],
        i >= n ==> c == '/',
{
    if i < n {
        p.get_char(i)
    } else {
        '/'
    }
}

/// Checks one relative path of a plan.
pub fn validate_path(p: &str) -> (r: Result<(), PathIssue>)
    ensures
        r matches Ok(_) <==> is_safe_path(p@),
        r matches Err(issue) ==> path_issue(p@) == Some(issue),
{
    let n = p.unicode_len();
    if n == 0 {
        return Err(PathIssue::Empty);
    }
    if p.get_char(0) == '/' {
        return Err(PathIssue::Absolute);
    }
    let mut forbidden = false;
    let mut dot = false;
    let mut empty = false;
    let mut i: usize = 0;
    while i < n
        invariant
            n == p@.len(),
            n > 0,
            i <= n,
            forbidden <==> exists|j: int| 0 <= j < i && #[trigger] forbidden_at(p@, j),
            dot <==> exists|j: int| 0 <= j < i && #[trigger] dot_segment_at(p@, j),
            empty <==> exists|j: int| 0 <= j < i && #[trigger] empty_segment_at(p@, j),
        decreases n - i,
    {
        let c = p.get_char(i);
        let starts = i == 0 || p.get_char(i - 1) == '/';
        if c == '\\' || c == '\0' {
            forbidden = true;
        }
        if starts && c == '.' {
            let c1 = char_at_or_slash(p, n, i + 1);
            if c1 == '/' {
                dot = true;
            } else if c1 == '.' {
                let c2 = char_at_or_slash(p, n, i + 2);
                if c2 == '/' {
                    dot = true;
                }
            }
        }
        if starts && c == '/' {
            empty = true;
        }
        proof {
            if forbidden_at(p@, i as int) {
                assert(forbidden);
            }
            if dot_segment_at(p@, i as int) {
                assert(dot);
            }
            if empty_segment_at(p@, i as int) {
                assert(empty);
            }
        }
        i = i + 1;
    }
    if p.get_char(n - 1) == '/' {
        empty = true;
    }
    proof {
        if empty_segment_at(p@, n as int) {
            assert(empty);
        }
        if has_forbidden_char(p@) {
            let j = choose|j: int| #[trigger] forbidden_at(p@, j);
            assert(0 <= j < n + 1);
        }
        if has_dot_segment(p@) {
            let j = choose|j: int| #[trigger] dot_segment_at(p@, j);
            assert(0 <= j < n + 1);
        }
        if has_empty_segment(p@) {
            let j = choose|j: int| #[trigger] empty_segment_at(p@, j);
            assert(0 <= j < n + 1);
        }
    }
    if forbidden {
        Err(PathIssue::ForbiddenChar)
    } else if dot {
        Err(PathIssue::DotSegment)
    } else if empty {
        Err(PathIssue::EmptySegment)
    } else {
        Ok(())
    }
}

/// Checks that `name` can be used as the single directory segment of a new project.
pub fn validate_project_name(name: &str) -> (r: bool)
    ensures
        r == is_valid_project_name(name@),
{
    let n = name.unicode_len();
    if n == 0 {
        return false;
    }
    let mut i: usize = 0;
    while i < n
        invariant
            n == name@.len(),
            i <= n,
            forall|j: int| 0 <= j < i ==> !(#[trigger] name@[j] == '/' || forbidden_char(name@[j])),
        decreases n - i,
    {
        let c = name.get_char(i);
        if c == '/' || c == '\\' || c == '\0' {
            assert(name@[i as int] == '/' || forbidden_char(name@[i as int]));
            return false;
        }
        i = i + 1;
    }
    if name.get_char(0) == '.' {
        if n == 1 {
            return false;
        }
        if n == 2 && name.get_char(1) == '.' {
            return false;
        }
    }
    true
}

} // verus!
