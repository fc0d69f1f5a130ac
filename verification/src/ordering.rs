//! Lists of conversations are shown newest first: ordered by the time of
//! their last message, latest first, conversations without messages last,
//! and ties kept in the order they came in.
use vstd::prelude::*;
use crate::text::{lex_lt, lex_lt_from, str_lt};

verus! {

proof fn lemma_lex_irreflexive(a: Seq<char>, i: int)
    requires
        0 <= i,
    ensures
        !lex_lt_from(a, a, i),
    decreases a.len() - i,
{
    if i < a.len() {
        lemma_lex_irreflexive(a, i + 1);
    }
}

proof fn lemma_lex_asymmetric(a: Seq<char>, b: Seq<char>, i: int)
    requires
        0 <= i,
        lex_lt_from(a, b, i),
    ensures
        !lex_lt_from(b, a, i),
    decreases a.len() - i,
{
    if i < a.len() && i < b.len() && a[i] == b[i] {
        lemma_lex_asymmetric(a, b, i + 1);
    }
}

proof fn lemma_lex_transitive(a: Seq<char>, b: Seq<char>, c: Seq<char>, i: int)
    requires
        0 <= i,
        lex_lt_from(a, b, i),
        lex_lt_from(b, c, i),
    ensures
        lex_lt_from(a, c, i),
    decreases a.len() - i,
{
    if i < a.len() && i < b.len() && i < c.len() && a[i] == b[i] && b[i] == c[i] {
        lemma_lex_transitive(a, b, c, i + 1);
    }
}

proof fn lemma_lex_total(a: Seq<char>, b: Seq<char>, i: int)
    requires
        0 <= i <= a.len(),
        i <= b.len(),
        a.subrange(0, i) == b.subrange(0, i),
        !lex_lt_from(a, b, i),
        !lex_lt_from(b, a, i),
    ensures
        a == b,
    decreases a.len() - i,
{
    if i < a.len() && i < b.len() {
        assert(a[i] == b[i]) by {
            if a[i] != b[i] {
                assert((a[i] as int) != (b[i] as int));
            }
        }
        assert(a.subrange(0, i + 1) =~= a.subrange(0, i).push(a[i]));
        assert(b.subrange(0, i + 1) =~= b.subrange(0, i).push(b[i]));
        lemma_lex_total(a, b, i + 1);
    } else {
        assert(a.len() == i && b.len() == i);
        assert(a =~= a.subrange(0, i));
        assert(b =~= b.subrange(0, i));
    }
}

/// Order of last-message times: no message comes before any message, and
/// times compare as text.
pub open spec fn key_lt(a: Option<Seq<char>>, b: Option<Seq<char>>) -> bool {
    match (a, b) {
        (None, Some(_)) => true,
        (Some(x), Some(y)) => lex_lt(x, y),
        _ => false,
    }
}

/// Whether item `i` is listed before item `j`: it has the later last
/// message, or the same one and came in first.
pub open spec fn listed_before(keys: Seq<Option<Seq<char>>>, i: int, j: int) -> bool {
    key_lt(keys[j], keys[i]) || (keys[i] == keys[j] && i < j)
}

proof fn lemma_listed_before_order(keys: Seq<Option<Seq<char>>>, i: int, j: int, k: int)
    ensures
        !listed_before(keys, i, i),
        listed_before(keys, i, j) ==> !listed_before(keys, j, i),
        listed_before(keys, i, j) && listed_before(keys, j, k) ==> listed_before(keys, i, k),
        i != j ==> listed_before(keys, i, j) || listed_before(keys, j, i),
{
    match keys[i] {
        Some(x) => lemma_lex_irreflexive(x, 0),
        None => {},
    }
    if listed_before(keys, i, j) && listed_before(keys, j, i) {
        match (keys[i], keys[j]) {
            (Some(x), Some(y)) => {
                if lex_lt(y, x) {
                    lemma_lex_asymmetric(y, x, 0);
                }
            },
            _ => {},
        }
    }
    if listed_before(keys, i, j) && listed_before(keys, j, k) {
        match (keys[i], keys[j], keys[k]) {
            (Some(x), Some(y), Some(z)) => {
                if lex_lt(z, y) && lex_lt(y, x) {
                    lemma_lex_transitive(z, y, x, 0);
                }
            },
            _ => {},
        }
    }
    if i != j && !listed_before(keys, i, j) && !listed_before(keys, j, i) {
        match (keys[i], keys[j]) {
            (Some(x), Some(y)) => {
                assert(x.subrange(0, 0) =~= y.subrange(0, 0));
                lemma_lex_total(x, y, 0);
            },
            _ => {},
        }
    }
}

/// The character sequences of optional texts.
pub open spec fn key_views(keys: Seq<Option<String>>) -> Seq<Option<Seq<char>>> {
    keys.map_values(|k: Option<String>| match k { Some(s) => Some(s@), None => None })
}

fn goes_before(keys: &Vec<Option<String>>, i: usize, j: usize) -> (r: bool)
    requires
        i < keys@.len(),
        j < keys@.len(),
    ensures
        r == listed_before(key_views(keys@), i as int, j as int),
{
    let ki = &keys[i];
    let kj = &keys[j];
    let later = match (kj, ki) {
        (None, Some(_)) => true,
        (Some(x), Some(y)) => str_lt(x.as_str(), y.as_str()),
        _ => false,
    };
    let same = match (ki, kj) {
        (None, None) => true,
        (Some(x), Some(y)) => crate::text::str_eq(x.as_str(), y.as_str()),
        _ => false,
    };
    later || (same && i < j)
}

/// The order in which to list items whose last-message times are `keys`:
/// every item once, newest first, ties kept in the order they came in.
pub fn newest_first(keys: &Vec<Option<String>>) -> (order: Vec<usize>)
    ensures
        order@.len() == keys@.len(),
        forall|i: int| 0 <= i < order@.len() ==> order@[i] < keys@.len(),
        forall|i: int, j: int| 0 <= i < j < order@.len() ==> order@[i] != order@[j],
        forall|i: int, j: int|
            0 <= i < j < order@.len() ==> listed_before(
                key_views(keys@),
                order@[i] as int,
                order@[j] as int,
            ),
{
    let ghost kv = key_views(keys@);
    let mut order: Vec<usize> = Vec::new();
    let mut k: usize = 0;
    while k < keys.len()
        invariant
            kv == key_views(keys@),
            0 <= k <= keys@.len(),
            order@.len() == k,
            forall|i: int| 0 <= i < order@.len() ==> order@[i] < k,
            forall|i: int, j: int| 0 <= i < j < order@.len() ==> order@[i] != order@[j],
            forall|i: int, j: int|
                0 <= i < j < order@.len() ==> listed_before(kv, order@[i] as int, order@[j] as int),
        decreases keys@.len() - k,
    {
        let mut p: usize = 0;
        while p < order.len() && goes_before(keys, order[p], k)
            invariant
                kv == key_views(keys@),
                k < keys@.len(),
                0 <= p <= order@.len(),
                forall|i: int| 0 <= i < order@.len() ==> order@[i] < k,
                forall|i: int| 0 <= i < p ==> listed_before(kv, order@[i] as int, k as int),
            decreases order@.len() - p,
        {
            p = p + 1;
        }
        proof {
            // everything from p on comes after k
            assert forall|j: int| p <= j < order@.len() implies listed_before(
                kv,
                k as int,
                order@[j] as int,
            ) by {
                lemma_listed_before_order(kv, order@[p as int] as int, order@[j] as int, k as int);
                lemma_listed_before_order(kv, k as int, order@[p as int] as int, order@[j] as int);
                if j > p {
                    assert(listed_before(kv, order@[p as int] as int, order@[j] as int));
                }
            }
        }
        let ghost old_order = order@;
        order.insert(p, k);
        proof {
            assert forall|i: int, j: int| 0 <= i < j < order@.len() implies listed_before(
                kv,
                order@[i] as int,
                order@[j] as int,
            ) by {
                if i < p && j < p {
                    assert(order@[i] == old_order[i] && order@[j] == old_order[j]);
                } else if i < p && j == p {
                } else if i < p && j > p {
                    assert(order@[j] == old_order[j - 1]);
                    lemma_listed_before_order(kv, order@[i] as int, k as int, order@[j] as int);
                } else if i == p {
                    assert(order@[j] == old_order[j - 1]);
                } else {
                    assert(order@[i] == old_order[i - 1] && order@[j] == old_order[j - 1]);
                }
            }
            assert forall|i: int, j: int| 0 <= i < j < order@.len() implies order@[i] != order@[j] by {
                if i < p && j < p {
                    assert(order@[i] == old_order[i] && order@[j] == old_order[j]);
                } else if i < p && j > p {
                    assert(order@[i] == old_order[i] && order@[j] == old_order[j - 1]);
                } else if i > p {
                    assert(order@[i] == old_order[i - 1] && order@[j] == old_order[j - 1]);
                } else if i < p && j == p {
                    assert(order@[i] == old_order[i]);
                } else {
                    assert(order@[j] == old_order[j - 1]);
                }
            }
        }
        k = k + 1;
    }
    order
}

} // verus!
