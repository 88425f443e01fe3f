//! Paths as character sequences, with `/` as the separator.

use vstd::prelude::*;

verus! {

/// The separator between path components.
pub open spec fn is_separator(c: char) -> bool {
    c == '/'
}

/// `dir` and `name` joined by one separator.
pub open spec fn joined(dir: Seq<char>, name: Seq<char>) -> Seq<char> {
    dir + seq!['/'] + name
}

/// Index at which the last segment of `p` starts: just after the last
/// separator, or 0 when there is none.
pub open spec fn segment_start(p: Seq<char>) -> int
    decreases p.len(),
{
    if p.len() == 0 {
        0
    } else if is_separator(p.last()) {
        p.len() as int
    } else {
        segment_start(p.drop_last())
    }
}

/// What follows the last separator of `p`.
pub open spec fn last_segment(p: Seq<char>) -> Seq<char> {
    p.subrange(segment_start(p), p.len() as int)
}

/// `p` ends in a `.` segment: a `.` that starts the path or follows a
/// separator.
pub open spec fn ends_in_current_dir(p: Seq<char>) -> bool {
    p.len() > 0 && p.last() == '.' && (p.len() == 1 || is_separator(p[p.len() - 2]))
}

/// The final component of `p`, as a file name: trailing separators and `.`
/// segments do not count; a path whose last remaining segment is `..`, or
/// that has none, has no file name.
pub open spec fn file_name_of(p: Seq<char>) -> Option<Seq<char>>
    decreases p.len(),
{
    if p.len() == 0 {
        None
    } else if is_separator(p.last()) || ends_in_current_dir(p) {
        file_name_of(p.drop_last())
    } else if last_segment(p) == seq!['.', '.'] {
        None
    } else {
        Some(last_segment(p))
    }
}

/// `s` ends with `suffix`, compared character by character.
pub open spec fn has_suffix(s: Seq<char>, suffix: Seq<char>) -> bool {
    suffix.len() <= s.len() && s.subrange(s.len() - suffix.len(), s.len() as int) == suffix
}

proof fn lemma_segment_start_bounds(p: Seq<char>)
    ensures
        0 <= segment_start(p) <= p.len(),
    decreases p.len(),
{
    if p.len() > 0 && !is_separator(p.last()) {
        lemma_segment_start_bounds(p.drop_last());
    }
}

/// Joins `dir` and `name` with one separator.
pub fn join_path(dir: &str, name: &str) -> (r: String)
    ensures
        r@ == joined(dir@, name@),
{
    let mut r = String::from_str(dir);
    let sep = "/";
    proof {
        reveal_strlit("/");
    }
    r.append(sep);
    r.append(name);
    r
}

/// The index at which the last segment of the first `end` characters of
/// `path` starts.
fn segment_position(path: &str, end: usize) -> (r: usize)
    requires
        end <= path@.len(),
    ensures
        r == segment_start(path@.subrange(0, end as int)),
{
    let mut i: usize = end;
    while i > 0
        invariant
            i <= end <= path@.len(),
            segment_start(path@.subrange(0, end as int)) == segment_start(
                path@.subrange(0, i as int),
            ),
        decreases i,
    {
        let c = path.get_char(i - 1);
        let ghost q = path@.subrange(0, i as int);
        assert(q.last() == c);
        if c == '/' {
            return i;
        }
        assert(q.drop_last() =~= path@.subrange(0, i - 1));
        i = i - 1;
    }
    0
}

/// Where the file name of `path` lies, in characters: `Some((start, end))`
/// when it is `path[start..end]`, `None` when `path` has no file name.
pub fn file_name_bounds(path: &str) -> (r: Option<(usize, usize)>)
    ensures
        match r {
            Some((start, end)) => start <= end <= path@.len() && file_name_of(path@) == Some(
                path@.subrange(start as int, end as int),
            ),
            None => file_name_of(path@) is None,
        },
{
    let n = path.unicode_len();
    let mut end: usize = n;
    assert(path@.subrange(0, n as int) =~= path@);
    loop
        invariant
            end <= n == path@.len(),
            file_name_of(path@) == file_name_of(path@.subrange(0, end as int)),
        decreases end,
    {
        let ghost q = path@.subrange(0, end as int);
        if end == 0 {
            return None;
        }
        let c = path.get_char(end - 1);
        assert(q.last() == c);
        let trailing = if c == '/' {
            true
        } else if c == '.' {
            if end == 1 {
                true
            } else {
                let b = path.get_char(end - 2);
                assert(q[q.len() - 2] == b);
                b == '/'
            }
        } else {
            false
        };
        if !trailing {
            let start = segment_position(path, end);
            proof {
                lemma_segment_start_bounds(q);
            }
            assert(last_segment(q) =~= path@.subrange(start as int, end as int));
            if end - start == 2 {
                let a = path.get_char(start);
                let b = path.get_char(start + 1);
                if a == '.' && b == '.' {
                    assert(last_segment(q) =~= seq!['.', '.']);
                    return None;
                }
                assert(last_segment(q)[0] == a);
                assert(last_segment(q)[1] == b);
            }
            return Some((start, end));
        }
        assert(q.drop_last() =~= path@.subrange(0, end - 1));
        end = end - 1;
    }
}

/// Whether `path` has a file name and it ends with `suffix`, compared
/// character by character and case-sensitively.
pub fn file_name_ends_with(path: &str, suffix: &str) -> (r: bool)
    ensures
        r == (file_name_of(path@) matches Some(name) && has_suffix(name, suffix@)),
{
    let (start, n) = match file_name_bounds(path) {
        Some(b) => b,
        None => {
            return false;
        },
    };
    let m = suffix.unicode_len();
    let ghost name = path@.subrange(start as int, n as int);
    if m > n - start {
        return false;
    }
    let offset = n - m;
    let mut j: usize = 0;
    while j < m
        invariant
            j <= m,
            start <= n <= path@.len(),
            m <= n - start,
            offset == n - m,
            m == suffix@.len(),
            name == path@.subrange(start as int, n as int),
            file_name_of(path@) == Some(name),
            forall|k: int| 0 <= k < j ==> path@[offset + k] == suffix@[k],
        decreases m - j,
    {
        let c = path.get_char(offset + j);
        let d = suffix.get_char(j);
        if c != d {
            let ghost tail = name.subrange(name.len() - m, name.len() as int);
            assert(tail[j as int] == path@[offset + j]);
            assert(tail[j as int] != suffix@[j as int]);
            return false;
        }
        j = j + 1;
    }
    assert(name.subrange(name.len() - m, name.len() as int) =~= suffix@);
    true
}

} // verus!
