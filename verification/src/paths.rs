//! Paths as texts: names with slashes between them.

use crate::text::{chars_of, concat2, concat3, opt_view, text_of};
use vstd::prelude::*;

verus! {

/// Where the names of a path begin: after the slash of the root, or after a dot that the path
/// begins with.
pub open spec fn body_start(path: Seq<char>) -> int {
    if path.len() == 0 {
        0
    } else if path[0] == '/' {
        1
    } else if path[0] == '.' && (path.len() == 1 || path[1] == '/') {
        1
    } else {
        0
    }
}

/// Where the last name before an end begins: after the last slash.
pub open spec fn name_start(path: Seq<char>, from: int, end: int) -> int
    decreases end - from,
{
    if end <= from {
        from
    } else if path[end - 1] == '/' {
        end
    } else {
        name_start(path, from, end - 1)
    }
}

/// Whether a name counts: nothing between two slashes does not, and neither does a dot.
pub open spec fn counts(path: Seq<char>, start: int, end: int) -> bool {
    start < end && !(end == start + 1 && path[start] == '.')
}

/// Where what is before a name ends: before the slash, where there is one.
pub open spec fn end_before(from: int, start: int) -> int {
    if start > from {
        start - 1
    } else {
        from
    }
}

/// Where the last name that counts ends, or where the names begin if none does.
pub open spec fn last_end(path: Seq<char>, from: int, end: int) -> int
    decreases end - from,
{
    let start = name_start(path, from, end);
    if end <= from || counts(path, start, end) {
        end
    } else {
        proof {
            lemma_name_start(path, from, end);
        }
        last_end(path, from, end_before(from, start))
    }
}

/// The last name before an end begins no earlier than the names do, and no later than that end.
pub proof fn lemma_name_start(path: Seq<char>, from: int, end: int)
    requires
        from <= end,
    ensures
        from <= name_start(path, from, end) <= end,
    decreases end - from,
{
    if from < end && path[end - 1] != '/' {
        lemma_name_start(path, from, end - 1);
    }
}

/// The directory that a path is in: what is written before its last name that counts, up to the
/// name before that one. A lone dot is in the directory of no name.
pub open spec fn parent_path(path: Seq<char>) -> Option<Seq<char>> {
    let from = body_start(path);
    let end = last_end(path, from, path.len() as int);
    if end > from {
        let start = name_start(path, from, end);
        Some(path.take(last_end(path, from, end_before(from, start))))
    } else if from == 1 && path[0] == '.' {
        Some(Seq::empty())
    } else {
        None
    }
}

/// A path below another.
pub open spec fn path_below(path: Seq<char>, name: Seq<char>) -> Seq<char> {
    if path.len() == 0 || path.last() == '/' {
        path + name
    } else {
        path + "/"@ + name
    }
}

fn start_of_name(path: &Vec<char>, from: usize, end: usize) -> (r: usize)
    requires
        from <= end <= path@.len(),
    ensures
        r == name_start(path@, from as int, end as int),
        from <= r <= end,
{
    let mut start = end;
    while start > from && path[start - 1] != '/'
        invariant
            from <= start <= end <= path@.len(),
            name_start(path@, from as int, start as int) == name_start(
                path@,
                from as int,
                end as int,
            ),
        decreases start,
    {
        start -= 1;
    }
    start
}

fn end_of_last(path: &Vec<char>, from: usize, end: usize) -> (r: usize)
    requires
        from <= end <= path@.len(),
    ensures
        r == last_end(path@, from as int, end as int),
        from <= r <= end,
{
    let mut at = end;
    while at > from
        invariant
            from <= at <= end <= path@.len(),
            last_end(path@, from as int, at as int) == last_end(path@, from as int, end as int),
        decreases at,
    {
        let start = start_of_name(path, from, at);
        if start < at && !(at - start == 1 && path[start] == '.') {
            return at;
        }
        at = if start > from {
            start - 1
        } else {
            from
        };
    }
    at
}

/// The directory that a path is in.
pub fn parent_of(path: &str) -> (r: Option<String>)
    ensures
        opt_view(r) == parent_path(path@),
{
    let chars = chars_of(path);
    let rooted = chars.len() > 0 && chars[0] == '/';
    let dotted = chars.len() > 0 && chars[0] == '.' && (chars.len() == 1 || chars[1] == '/');
    let from: usize = if rooted || dotted {
        1
    } else {
        0
    };
    let end = end_of_last(&chars, from, chars.len());
    if end > from {
        let start = start_of_name(&chars, from, end);
        let before: usize = if start > from {
            start - 1
        } else {
            from
        };
        let to = end_of_last(&chars, from, before);
        proof {
            assert(chars@.subrange(0, to as int) =~= path@.take(to as int));
        }
        Some(text_of(&chars, 0, to))
    } else if dotted {
        Some(String::new())
    } else {
        None
    }
}

/// A path below another.
pub fn below(path: &str, name: &str) -> (r: String)
    ensures
        r@ == path_below(path@, name@),
{
    let chars = chars_of(path);
    if chars.len() == 0 || chars[chars.len() - 1] == '/' {
        concat2(path, name)
    } else {
        concat3(path, "/", name)
    }
}

} // verus!
