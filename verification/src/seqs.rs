//! Searching and filtering sequences, and stepping round a ring of indices.

use vstd::prelude::*;

verus! {

/// The index of the first element at or after `from` that satisfies `p`.
pub open spec fn first_from<T>(s: Seq<T>, p: spec_fn(T) -> bool, from: int) -> Option<int>
    decreases s.len() - from,
{
    if from < 0 || from >= s.len() {
        None
    } else if p(s[from]) {
        Some(from)
    } else {
        first_from(s, p, from + 1)
    }
}

/// The index of the first element that satisfies `p`.
pub open spec fn first_where<T>(s: Seq<T>, p: spec_fn(T) -> bool) -> Option<int> {
    first_from(s, p, 0)
}

/// An index found is the first of an element that satisfies `p`; none is found only where no
/// element does.
pub proof fn lemma_first_from<T>(s: Seq<T>, p: spec_fn(T) -> bool, from: int)
    requires
        0 <= from <= s.len(),
    ensures
        match first_from(s, p, from) {
            Some(i) => from <= i < s.len() && p(s[i]) && forall|j: int|
                from <= j < i ==> !p(#[trigger] s[j]),
            None => forall|j: int| from <= j < s.len() ==> !p(#[trigger] s[j]),
        },
    decreases s.len() - from,
{
    if from < s.len() && !p(s[from]) {
        lemma_first_from(s, p, from + 1);
    }
}

/// A first index that is known from its properties.
pub proof fn lemma_first_is<T>(s: Seq<T>, p: spec_fn(T) -> bool, i: int)
    requires
        0 <= i < s.len(),
        p(s[i]),
        forall|j: int| 0 <= j < i ==> !p(#[trigger] s[j]),
    ensures
        first_where(s, p) == Some(i),
{
    lemma_first_from(s, p, 0);
}

/// Stepping forwards and backwards round `n` indices.
pub proof fn lemma_wrap(i: int, n: int)
    requires
        0 <= i < n,
    ensures
        (i + 1) % n == (if i + 1 == n {
            0
        } else {
            i + 1
        }),
        (i + n - 1) % n == (if i == 0 {
            n - 1
        } else {
            i - 1
        }),
{
    if i + 1 == n {
        vstd::arithmetic::div_mod::lemma_mod_self_0(n);
    } else {
        vstd::arithmetic::div_mod::lemma_small_mod((i + 1) as nat, n as nat);
    }
    if i == 0 {
        vstd::arithmetic::div_mod::lemma_small_mod((n - 1) as nat, n as nat);
    } else {
        vstd::arithmetic::div_mod::lemma_mod_add_multiples_vanish(i - 1, n);
        vstd::arithmetic::div_mod::lemma_small_mod((i - 1) as nat, n as nat);
    }
}

/// The index `direction` steps from `current`, round `n` indices.
pub fn step_round(current: u32, direction: i32, n: u32) -> (r: u32)
    requires
        0 < n,
    ensures
        r == (current + direction) % n as int,
        r < n,
{
    let ring: i128 = n as i128;
    let shifted: i128 = current as i128 + direction as i128 + ring * 4_000_000_000;
    proof {
        assert(ring * 4_000_000_000 >= 4_000_000_000);
        vstd::arithmetic::div_mod::lemma_mod_multiples_vanish(
            4_000_000_000,
            current + direction,
            n as int,
        );
    }
    (shifted % ring) as u32
}

/// The index one step from another, round `count` indices.
pub open spec fn neighbour(index: int, backwards: bool, count: int) -> int {
    if backwards {
        (index + count - 1) % count
    } else {
        (index + 1) % count
    }
}

/// The index one step from another, round `count` indices.
pub fn step_index(index: usize, backwards: bool, count: usize) -> (r: usize)
    requires
        count > 0,
    ensures
        r == neighbour(index as int, backwards, count as int),
        r < count,
{
    let current: usize = index % count;
    proof {
        let n = count as int;
        lemma_wrap(current as int, n);
        vstd::arithmetic::div_mod::lemma_mod_twice(index as int, n);
        vstd::arithmetic::div_mod::lemma_add_mod_noop(index as int, n - 1, n);
        vstd::arithmetic::div_mod::lemma_add_mod_noop(current as int, n - 1, n);
        vstd::arithmetic::div_mod::lemma_add_mod_noop(index as int, 1, n);
        vstd::arithmetic::div_mod::lemma_add_mod_noop(current as int, 1, n);
    }
    if backwards {
        if current == 0 {
            count - 1
        } else {
            current - 1
        }
    } else if current + 1 == count {
        0
    } else {
        current + 1
    }
}

/// An item that is not wanted may be taken out before the rest is kept.
pub proof fn lemma_filter_remove<T>(s: Seq<T>, p: spec_fn(T) -> bool, i: int)
    requires
        0 <= i < s.len(),
        !p(s[i]),
    ensures
        s.remove(i).filter(p) == s.filter(p),
{
    let a = s.take(i);
    let x = seq![s[i]];
    let b = s.skip(i + 1);
    assert(s =~= a + x + b);
    assert(s.remove(i) =~= a + b);
    assert(x.filter(p) =~= Seq::empty()) by {
        reveal(Seq::filter);
        assert(x.drop_last() =~= Seq::empty());
        assert(x.drop_last().filter(p) =~= Seq::empty());
    }
    Seq::filter_distributes_over_add(a, b, p);
    Seq::filter_distributes_over_add(a + x, b, p);
    Seq::filter_distributes_over_add(a, x, p);
    assert(a.filter(p) + x.filter(p) =~= a.filter(p));
}

/// Where every item is wanted, all are kept.
pub proof fn lemma_filter_all<T>(s: Seq<T>, p: spec_fn(T) -> bool)
    requires
        forall|i: int| 0 <= i < s.len() ==> p(#[trigger] s[i]),
    ensures
        s.filter(p) == s,
    decreases s.len(),
{
    reveal(Seq::filter);
    if s.len() > 0 {
        let t = s.drop_last();
        assert forall|i: int| 0 <= i < t.len() implies p(#[trigger] t[i]) by {
            assert(t[i] == s[i]);
        }
        lemma_filter_all(t, p);
        assert(p(s[s.len() - 1]));
        assert(t.push(s.last()) =~= s);
    } else {
        assert(s.filter(p) =~= s);
    }
}

} // verus!
