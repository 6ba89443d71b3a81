//! Putting chosen indices in the order of their keys.

use crate::seqs::{lemma_filter_all, lemma_filter_remove};
use vstd::prelude::*;

verus! {

/// Whether a key comes before another: at the first place where they differ it has the smaller
/// number, or it ends there.
pub open spec fn key_less(a: Seq<i128>, b: Seq<i128>) -> bool
    decreases a.len(),
{
    if b.len() == 0 {
        false
    } else if a.len() == 0 {
        true
    } else if a[0] != b[0] {
        a[0] < b[0]
    } else {
        key_less(a.drop_first(), b.drop_first())
    }
}

/// Keys as sequences.
pub open spec fn key_views(keys: Seq<Vec<i128>>) -> Seq<Seq<i128>> {
    keys.map_values(|key: Vec<i128>| key@)
}

/// Indices as numbers.
pub open spec fn indices(list: Seq<usize>) -> Seq<int> {
    list.map_values(|i: usize| i as int)
}

/// Where `x` goes in a list of indices: after all whose keys are not greater than its own.
pub open spec fn place_for(list: Seq<int>, keys: Seq<Seq<i128>>, x: int, from: int) -> int
    decreases list.len() - from,
{
    if from >= list.len() || key_less(keys[x], keys[list[from]]) {
        from
    } else {
        place_for(list, keys, x, from + 1)
    }
}

/// The chosen indices below `n`, ordered by their keys, those with equal keys by themselves.
pub open spec fn ordered(keys: Seq<Seq<i128>>, chosen: spec_fn(int) -> bool, n: int) -> Seq<int>
    decreases n,
{
    if n <= 0 {
        Seq::empty()
    } else {
        let rest = ordered(keys, chosen, n - 1);
        if chosen(n - 1) {
            rest.insert(place_for(rest, keys, n - 1, 0), n - 1)
        } else {
            rest
        }
    }
}

fn key_is_less(a: &Vec<i128>, b: &Vec<i128>) -> (r: bool)
    ensures
        r == key_less(a@, b@),
{
    let mut i: usize = 0;
    proof {
        assert(a@.subrange(0, a@.len() as int) =~= a@);
        assert(b@.subrange(0, b@.len() as int) =~= b@);
    }
    while i < a.len() && i < b.len()
        invariant
            i <= a@.len(),
            i <= b@.len(),
            key_less(a@, b@) == key_less(
                a@.subrange(i as int, a@.len() as int),
                b@.subrange(i as int, b@.len() as int),
            ),
        decreases a@.len() - i,
    {
        let ghost x = a@.subrange(i as int, a@.len() as int);
        let ghost y = b@.subrange(i as int, b@.len() as int);
        proof {
            assert(x.drop_first() =~= a@.subrange(i + 1, a@.len() as int));
            assert(y.drop_first() =~= b@.subrange(i + 1, b@.len() as int));
            assert(x[0] == a@[i as int] && y[0] == b@[i as int]);
        }
        if a[i] != b[i] {
            return a[i] < b[i];
        }
        i += 1;
    }
    i < b.len()
}

/// The chosen indices, ordered by their keys, those with equal keys by themselves.
pub fn order_chosen(keys: &Vec<Vec<i128>>, chosen: &Vec<bool>) -> (r: Vec<usize>)
    requires
        chosen@.len() == keys@.len(),
    ensures
        indices(r@) == ordered(key_views(keys@), |i: int| chosen@[i], keys@.len() as int),
        forall|i: int| 0 <= i < r@.len() ==> #[trigger] r@[i] < keys@.len(),
{
    let mut list: Vec<usize> = Vec::new();
    let mut n: usize = 0;
    let ghost picks = |i: int| chosen@[i];
    let ghost views = key_views(keys@);
    proof {
        assert(indices(list@) =~= Seq::<int>::empty());
    }
    while n < keys.len()
        invariant
            n <= keys@.len(),
            chosen@.len() == keys@.len(),
            picks == (|i: int| chosen@[i]),
            views == key_views(keys@),
            indices(list@) == ordered(views, picks, n as int),
            forall|i: int| 0 <= i < list@.len() ==> #[trigger] list@[i] < n,
        decreases keys@.len() - n,
    {
        if chosen[n] {
            let mut at: usize = 0;
            while at < list.len() && !key_is_less(&keys[n], &keys[list[at]])
                invariant
                    at <= list@.len(),
                    n < keys@.len(),
                    views == key_views(keys@),
                    forall|i: int| 0 <= i < list@.len() ==> #[trigger] list@[i] < n,
                    place_for(indices(list@), views, n as int, 0) == place_for(
                        indices(list@),
                        views,
                        n as int,
                        at as int,
                    ),
                decreases list@.len() - at,
            {
                at += 1;
            }
            let ghost before = list@;
            list.insert(at, n);
            proof {
                assert(indices(list@) =~= indices(before).insert(at as int, n as int));
                assert forall|i: int| 0 <= i < list@.len() implies #[trigger] list@[i] < n + 1 by {
                    if i < at {
                        assert(list@[i] == before[i]);
                    } else if i > at {
                        assert(list@[i] == before[i - 1]);
                    }
                }
            }
        }
        n += 1;
    }
    list
}

/// A key before another is before every key that does not come before that one.
pub proof fn lemma_key_less_chain(a: Seq<i128>, b: Seq<i128>, c: Seq<i128>)
    requires
        key_less(a, b),
        !key_less(c, b),
    ensures
        key_less(a, c),
    decreases a.len(),
{
    if a.len() > 0 && b.len() > 0 && c.len() > 0 && a[0] == b[0] && b[0] == c[0] {
        lemma_key_less_chain(a.drop_first(), b.drop_first(), c.drop_first());
    }
}

/// Of two keys not both come before the other.
pub proof fn lemma_key_less_asymmetric(a: Seq<i128>, b: Seq<i128>)
    requires
        key_less(a, b),
    ensures
        !key_less(b, a),
        a != b,
    decreases a.len(),
{
    if a.len() > 0 && b.len() > 0 && a[0] == b[0] {
        lemma_key_less_asymmetric(a.drop_first(), b.drop_first());
    }
}

proof fn lemma_place(list: Seq<int>, keys: Seq<Seq<i128>>, x: int, from: int)
    requires
        0 <= from <= list.len(),
    ensures
        from <= place_for(list, keys, x, from) <= list.len(),
        forall|i: int|
            from <= i < place_for(list, keys, x, from) ==> !key_less(
                keys[x],
                keys[#[trigger] list[i]],
            ),
        place_for(list, keys, x, from) < list.len() ==> key_less(
            keys[x],
            keys[list[place_for(list, keys, x, from)]],
        ),
    decreases list.len() - from,
{
    if from < list.len() && !key_less(keys[x], keys[list[from]]) {
        lemma_place(list, keys, x, from + 1);
    }
}

/// The ordered list holds the chosen indices, each once, and no others.
pub proof fn law_order_is_complete(keys: Seq<Seq<i128>>, chosen: spec_fn(int) -> bool, n: int)
    requires
        0 <= n,
    ensures
        forall|x: int|
            #[trigger] ordered(keys, chosen, n).contains(x) <==> 0 <= x < n && chosen(x),
        ordered(keys, chosen, n).no_duplicates(),
    decreases n,
{
    if n > 0 {
        law_order_is_complete(keys, chosen, n - 1);
        let rest = ordered(keys, chosen, n - 1);
        let list = ordered(keys, chosen, n);
        if chosen(n - 1) {
            lemma_place(rest, keys, n - 1, 0);
            let at = place_for(rest, keys, n - 1, 0);
            rest.insert_ensures(at, n - 1);
            assert forall|x: int| #[trigger] list.contains(x) <==> 0 <= x < n && chosen(x) by {
                if list.contains(x) {
                    let i = choose|i: int| 0 <= i < list.len() && list[i] == x;
                    if i < at {
                        assert(rest[i] == x);
                        assert(rest.contains(x));
                    } else if i > at {
                        assert(rest[i - 1] == x);
                        assert(rest.contains(x));
                    }
                }
                if 0 <= x < n && chosen(x) {
                    if x == n - 1 {
                        assert(list[at] == x);
                    } else {
                        assert(rest.contains(x));
                        let i = choose|i: int| 0 <= i < rest.len() && rest[i] == x;
                        if i < at {
                            assert(list[i] == x);
                        } else {
                            assert(list[i + 1] == x);
                        }
                    }
                }
            }
            assert forall|i: int, j: int|
                0 <= i < list.len() && 0 <= j < list.len() && i != j implies list[i] != list[j] by {
                let a = if i < at {
                    i
                } else {
                    i - 1
                };
                let b = if j < at {
                    j
                } else {
                    j - 1
                };
                if i == at {
                    assert(rest.contains(rest[b]));
                } else if j == at {
                    assert(rest.contains(rest[a]));
                } else {
                    assert(list[i] == rest[a] && list[j] == rest[b]);
                }
            }
        }
    }
}

/// In the ordered list no index comes before one with a smaller key, and indices with equal keys
/// stand in their own order.
pub proof fn law_order_is_sorted(keys: Seq<Seq<i128>>, chosen: spec_fn(int) -> bool, n: int)
    requires
        0 <= n,
    ensures
        forall|i: int, j: int|
            0 <= i < j < ordered(keys, chosen, n).len() ==> !key_less(
                keys[#[trigger] ordered(keys, chosen, n)[j]],
                keys[#[trigger] ordered(keys, chosen, n)[i]],
            ) && (keys[ordered(keys, chosen, n)[i]] == keys[ordered(keys, chosen, n)[j]]
                ==> ordered(keys, chosen, n)[i] < ordered(keys, chosen, n)[j]),
    decreases n,
{
    if n > 0 {
        law_order_is_sorted(keys, chosen, n - 1);
        law_order_is_complete(keys, chosen, n - 1);
        let rest = ordered(keys, chosen, n - 1);
        let list = ordered(keys, chosen, n);
        if chosen(n - 1) {
            lemma_place(rest, keys, n - 1, 0);
            let at = place_for(rest, keys, n - 1, 0);
            rest.insert_ensures(at, n - 1);
            assert forall|i: int, j: int| 0 <= i < j < list.len() implies !key_less(
                keys[#[trigger] list[j]],
                keys[#[trigger] list[i]],
            ) && (keys[list[i]] == keys[list[j]] ==> list[i] < list[j]) by {
                let a = if i < at {
                    i
                } else {
                    i - 1
                };
                let b = if j < at {
                    j
                } else {
                    j - 1
                };
                if i == at {
                    assert(list[j] == rest[b]);
                    if b > at {
                        assert(!key_less(keys[rest[b]], keys[rest[at]]));
                        lemma_key_less_chain(keys[n - 1], keys[rest[at]], keys[rest[b]]);
                    }
                    lemma_key_less_asymmetric(keys[n - 1], keys[rest[b]]);
                } else if j == at {
                    assert(list[i] == rest[a]);
                    assert(rest.contains(rest[a]));
                } else {
                    assert(list[i] == rest[a] && list[j] == rest[b]);
                }
            }
        }
    }
}

/// The ordered list depends on which indices are chosen, not on how that is said.
pub proof fn lemma_same_choice(
    keys: Seq<Seq<i128>>,
    a: spec_fn(int) -> bool,
    b: spec_fn(int) -> bool,
    n: int,
)
    requires
        forall|i: int| 0 <= i < n ==> #[trigger] a(i) == b(i),
    ensures
        ordered(keys, a, n) == ordered(keys, b, n),
    decreases n,
{
    if n > 0 {
        assert(a(n - 1) == b(n - 1));
        lemma_same_choice(keys, a, b, n - 1);
    }
}

/// Where all indices are chosen, all are in the ordered list.
pub proof fn lemma_all_chosen(keys: Seq<Seq<i128>>, chosen: spec_fn(int) -> bool, n: int)
    requires
        0 <= n,
        forall|i: int| 0 <= i < n ==> #[trigger] chosen(i),
    ensures
        ordered(keys, chosen, n).len() == n,
    decreases n,
{
    if n > 0 {
        lemma_all_chosen(keys, chosen, n - 1);
        lemma_place(ordered(keys, chosen, n - 1), keys, n - 1, 0);
        assert(chosen(n - 1));
    }
}

/// Items that are put in the order of their keys are the same items.
pub proof fn law_order_keeps_the_items<T>(
    items: Seq<T>,
    keys: Seq<Seq<i128>>,
    chosen: spec_fn(int) -> bool,
    n: int,
)
    requires
        0 <= n <= items.len(),
        forall|i: int| 0 <= i < n ==> #[trigger] chosen(i),
    ensures
        ordered(keys, chosen, n).map_values(|i: int| items[i]).to_multiset() == items.take(
            n,
        ).to_multiset(),
    decreases n,
{
    broadcast use vstd::seq_lib::group_to_multiset_ensures;

    let at = |i: int| items[i];
    if n <= 0 {
        assert(ordered(keys, chosen, n).map_values(at) =~= items.take(n));
    } else {
        law_order_keeps_the_items(items, keys, chosen, n - 1);
        let rest = ordered(keys, chosen, n - 1);
        assert(chosen(n - 1));
        lemma_place(rest, keys, n - 1, 0);
        let place = place_for(rest, keys, n - 1, 0);
        assert(rest.insert(place, n - 1).map_values(at) =~= rest.map_values(at).insert(
            place,
            items[n - 1],
        ));
        assert(items.take(n) =~= items.take(n - 1).push(items[n - 1]));
    }
}

/// Whether an index is below a number.
pub open spec fn below(n: int) -> spec_fn(int) -> bool {
    |i: int| i < n
}

proof fn lemma_same_place(
    list: Seq<int>,
    a: Seq<Seq<i128>>,
    b: Seq<Seq<i128>>,
    n: int,
    x: int,
    from: int,
)
    requires
        0 <= x < n,
        0 <= from,
        forall|i: int| 0 <= i < n ==> #[trigger] a[i] == b[i],
        forall|j: int| 0 <= j < list.len() ==> 0 <= #[trigger] list[j] < n,
    ensures
        place_for(list, a, x, from) == place_for(list, b, x, from),
    decreases list.len() - from,
{
    assert(a[x] == b[x]);
    if from < list.len() {
        assert(a[list[from]] == b[list[from]]);
        lemma_same_place(list, a, b, n, x, from + 1);
    }
}

proof fn lemma_same_keys(
    a: Seq<Seq<i128>>,
    b: Seq<Seq<i128>>,
    chosen: spec_fn(int) -> bool,
    n: int,
)
    requires
        0 <= n,
        forall|i: int| 0 <= i < n ==> #[trigger] a[i] == b[i],
    ensures
        ordered(a, chosen, n) == ordered(b, chosen, n),
    decreases n,
{
    if n > 0 {
        lemma_same_keys(a, b, chosen, n - 1);
        law_order_is_complete(a, chosen, n - 1);
        let rest = ordered(a, chosen, n - 1);
        assert forall|j: int| 0 <= j < rest.len() implies 0 <= #[trigger] rest[j] < n by {
            assert(rest.contains(rest[j]));
        }
        lemma_same_place(rest, a, b, n, n - 1, 0);
    }
}

/// Indices that come later do not change which of the earlier ones are in the ordered list, nor
/// their order.
pub proof fn law_later_indices_keep_the_order(
    keys: Seq<Seq<i128>>,
    chosen: spec_fn(int) -> bool,
    n: int,
    more_keys: Seq<Seq<i128>>,
    more_chosen: spec_fn(int) -> bool,
    m: int,
)
    requires
        0 <= n <= m,
        forall|i: int| 0 <= i < n ==> #[trigger] keys[i] == more_keys[i],
        forall|i: int| 0 <= i < n ==> #[trigger] chosen(i) == more_chosen(i),
    ensures
        ordered(more_keys, more_chosen, m).filter(below(n)) == ordered(keys, chosen, n),
    decreases m,
{
    let list = ordered(more_keys, more_chosen, m);
    if m == n {
        lemma_same_choice(keys, chosen, more_chosen, n);
        lemma_same_keys(keys, more_keys, more_chosen, n);
        law_order_is_complete(more_keys, more_chosen, n);
        assert forall|j: int| 0 <= j < list.len() implies below(n)(#[trigger] list[j]) by {
            assert(list.contains(list[j]));
        }
        lemma_filter_all(list, below(n));
    } else {
        law_later_indices_keep_the_order(keys, chosen, n, more_keys, more_chosen, m - 1);
        let rest = ordered(more_keys, more_chosen, m - 1);
        if more_chosen(m - 1) {
            let place = place_for(rest, more_keys, m - 1, 0);
            lemma_place(rest, more_keys, m - 1, 0);
            assert(list.remove(place) =~= rest);
            lemma_filter_remove(list, below(n), place);
        }
    }
}

} // verus!
