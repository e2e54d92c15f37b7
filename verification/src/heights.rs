//! Searches among the heights at which a client has consensus states.
use vstd::prelude::*;

use crate::keyed_map::KeyedMap;
use crate::store_state::{
    greatest_height_below, is_greatest_below, is_least_above, least_height_above,
};
use crate::types::{height_lt, Height};

verus! {

/// Two heights of which neither comes before the other are the same height.
proof fn lemma_height_total(a: Height, b: Height)
    requires
        !height_lt(a, b),
        !height_lt(b, a),
    ensures
        a == b,
{
}

/// The lowest height above `h` is unique, so `least_height_above` names it.
pub proof fn lemma_least_above_is_named(heights: Set<Height>, h: Height, k: Height)
    requires
        is_least_above(heights, h, k),
    ensures
        least_height_above(heights, h) == Some(k),
{
    let c = choose|c: Height| is_least_above(heights, h, c);
    lemma_height_total(c, k);
}

/// The highest height below `h` is unique, so `greatest_height_below` names it.
pub proof fn lemma_greatest_below_is_named(heights: Set<Height>, h: Height, k: Height)
    requires
        is_greatest_below(heights, h, k),
    ensures
        greatest_height_below(heights, h) == Some(k),
{
    let c = choose|c: Height| is_greatest_below(heights, h, c);
    lemma_height_total(c, k);
}

/// A non-empty set of `u64` has a least element.
proof fn lemma_min_u64(s: Set<u64>, x: u64)
    requires
        s.contains(x),
    ensures
        exists|m: u64| s.contains(m) && forall|y: u64| s.contains(y) ==> m <= y,
    decreases x,
{
    if exists|y: u64| s.contains(y) && y < x {
        let y = choose|y: u64| s.contains(y) && y < x;
        lemma_min_u64(s, y);
    } else {
        assert(forall|y: u64| s.contains(y) ==> x <= y);
    }
}

/// A non-empty set of `u64` has a greatest element.
proof fn lemma_max_u64(s: Set<u64>, x: u64)
    requires
        s.contains(x),
    ensures
        exists|m: u64| s.contains(m) && forall|y: u64| s.contains(y) ==> y <= m,
    decreases u64::MAX - x,
{
    if exists|y: u64| s.contains(y) && y > x {
        let y = choose|y: u64| s.contains(y) && y > x;
        lemma_max_u64(s, y);
    } else {
        assert(forall|y: u64| s.contains(y) ==> y <= x);
    }
}

/// Heights are well ordered: a non-empty set of heights has a lowest one.
pub proof fn lemma_lowest_exists(s: Set<Height>, k: Height)
    requires
        s.contains(k),
    ensures
        exists|m: Height| s.contains(m) && forall|k2: Height| s.contains(k2) ==> !height_lt(k2, m),
{
    let numbers = Set::new(
        |r: u64| exists|k2: Height| s.contains(k2) && k2.revision_number == r,
    );
    assert(numbers.contains(k.revision_number));
    lemma_min_u64(numbers, k.revision_number);
    let r0 = choose|m: u64| numbers.contains(m) && forall|y: u64| numbers.contains(y) ==> m <= y;
    let k1 = choose|k2: Height| s.contains(k2) && k2.revision_number == r0;
    let heights = Set::new(
        |x: u64|
            exists|k2: Height|
                s.contains(k2) && k2.revision_number == r0 && k2.revision_height == x,
    );
    assert(heights.contains(k1.revision_height));
    lemma_min_u64(heights, k1.revision_height);
    let h0 = choose|m: u64| heights.contains(m) && forall|y: u64| heights.contains(y) ==> m <= y;
    let m = choose|k2: Height|
        s.contains(k2) && k2.revision_number == r0 && k2.revision_height == h0;
    assert forall|k2: Height| s.contains(k2) implies !height_lt(k2, m) by {
        assert(numbers.contains(k2.revision_number));
        if k2.revision_number == r0 {
            assert(heights.contains(k2.revision_height));
        }
    }
}

/// Heights are bounded: a non-empty set of heights has a highest one.
pub proof fn lemma_highest_exists(s: Set<Height>, k: Height)
    requires
        s.contains(k),
    ensures
        exists|m: Height| s.contains(m) && forall|k2: Height| s.contains(k2) ==> !height_lt(m, k2),
{
    let numbers = Set::new(
        |r: u64| exists|k2: Height| s.contains(k2) && k2.revision_number == r,
    );
    assert(numbers.contains(k.revision_number));
    lemma_max_u64(numbers, k.revision_number);
    let r0 = choose|m: u64| numbers.contains(m) && forall|y: u64| numbers.contains(y) ==> y <= m;
    let k1 = choose|k2: Height| s.contains(k2) && k2.revision_number == r0;
    let heights = Set::new(
        |x: u64|
            exists|k2: Height|
                s.contains(k2) && k2.revision_number == r0 && k2.revision_height == x,
    );
    assert(heights.contains(k1.revision_height));
    lemma_max_u64(heights, k1.revision_height);
    let h0 = choose|m: u64| heights.contains(m) && forall|y: u64| heights.contains(y) ==> y <= m;
    let m = choose|k2: Height|
        s.contains(k2) && k2.revision_number == r0 && k2.revision_height == h0;
    assert forall|k2: Height| s.contains(k2) implies !height_lt(m, k2) by {
        assert(numbers.contains(k2.revision_number));
        if k2.revision_number == r0 {
            assert(heights.contains(k2.revision_height));
        }
    }
}

/// The entry at the lowest height above `h`, if any height is above it.
pub fn least_above<'a>(m: &'a KeyedMap<Height, Vec<u8>>, h: &Height) -> (r: Option<
    (Height, &'a Vec<u8>),
>)
    ensures
        match r {
            Some((k, v)) => least_height_above(m@.dom(), *h) == Some(k) && m@.contains_key(k)
                && m@[k] == *v,
            None => least_height_above(m@.dom(), *h) is None,
        },
{
    let n = m.len();
    let mut best: Option<(Height, &'a Vec<u8>)> = None;
    let mut i: usize = 0;
    while i < n
        invariant
            n == m.spec_len(),
            i <= n,
            match best {
                Some((k, v)) => {
                    &&& m@.contains_key(k)
                    &&& m@[k] == *v
                    &&& height_lt(*h, k)
                    &&& forall|j: int|
                        0 <= j < i && height_lt(*h, #[trigger] m.key_at(j)) ==> !height_lt(
                            m.key_at(j),
                            k,
                        )
                },
                None => forall|j: int| 0 <= j < i ==> !height_lt(*h, #[trigger] m.key_at(j)),
            },
        decreases n - i,
    {
        let (k, v) = m.entry_at(i);
        if h.lt(k) {
            match best {
                Some((b, _)) => {
                    if k.lt(&b) {
                        best = Some((*k, v));
                    }
                },
                None => {
                    best = Some((*k, v));
                },
            }
        }
        i = i + 1;
    }
    proof {
        m.lemma_keys();
        match best {
            Some((k, v)) => {
                assert forall|k2: Height|
                    m@.dom().contains(k2) && height_lt(*h, k2) implies !height_lt(k2, k) by {
                    let j = choose|j: int| 0 <= j < m.spec_len() && m.key_at(j) == k2;
                }
                lemma_least_above_is_named(m@.dom(), *h, k);
            },
            None => {
                assert forall|k2: Height| !is_least_above(m@.dom(), *h, k2) by {
                    if m@.dom().contains(k2) {
                        let j = choose|j: int| 0 <= j < m.spec_len() && m.key_at(j) == k2;
                    }
                }
            },
        }
    }
    best
}

/// The entry at the highest height below `h`, if any height is below it.
pub fn greatest_below<'a>(m: &'a KeyedMap<Height, Vec<u8>>, h: &Height) -> (r: Option<
    (Height, &'a Vec<u8>),
>)
    ensures
        match r {
            Some((k, v)) => greatest_height_below(m@.dom(), *h) == Some(k) && m@.contains_key(k)
                && m@[k] == *v,
            None => greatest_height_below(m@.dom(), *h) is None,
        },
{
    let n = m.len();
    let mut best: Option<(Height, &'a Vec<u8>)> = None;
    let mut i: usize = 0;
    while i < n
        invariant
            n == m.spec_len(),
            i <= n,
            match best {
                Some((k, v)) => {
                    &&& m@.contains_key(k)
                    &&& m@[k] == *v
                    &&& height_lt(k, *h)
                    &&& forall|j: int|
                        0 <= j < i && height_lt(#[trigger] m.key_at(j), *h) ==> !height_lt(
                            k,
                            m.key_at(j),
                        )
                },
                None => forall|j: int| 0 <= j < i ==> !height_lt(#[trigger] m.key_at(j), *h),
            },
        decreases n - i,
    {
        let (k, v) = m.entry_at(i);
        if k.lt(h) {
            match best {
                Some((b, _)) => {
                    if b.lt(k) {
                        best = Some((*k, v));
                    }
                },
                None => {
                    best = Some((*k, v));
                },
            }
        }
        i = i + 1;
    }
    proof {
        m.lemma_keys();
        match best {
            Some((k, v)) => {
                assert forall|k2: Height|
                    m@.dom().contains(k2) && height_lt(k2, *h) implies !height_lt(k, k2) by {
                    let j = choose|j: int| 0 <= j < m.spec_len() && m.key_at(j) == k2;
                }
                lemma_greatest_below_is_named(m@.dom(), *h, k);
            },
            None => {
                assert forall|k2: Height| !is_greatest_below(m@.dom(), *h, k2) by {
                    if m@.dom().contains(k2) {
                        let j = choose|j: int| 0 <= j < m.spec_len() && m.key_at(j) == k2;
                    }
                }
            },
        }
    }
    best
}

} // verus!
