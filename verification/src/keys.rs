//! Order keys and their extrema.
//!
//! Every scalar quantity the decision core looks at — a squared distance, a
//! potential energy, a coordinate — enters this crate as an *order key*: a
//! signed 64-bit integer produced by the caller through a strictly monotone
//! encoding of its numeric representation, so that `<` on two keys agrees
//! with `<` on the quantities they encode.  The core never does arithmetic on
//! a key; it only compares, and every result it returns is either one of the
//! keys it was given or a discrete classification.  This module defines the
//! maximum and minimum of a sequence of keys and proves the facts the rest of
//! the crate builds on.

use vstd::prelude::*;

verus! {

/// The largest key of a non-empty sequence.
pub open spec fn seq_max(s: Seq<i64>) -> i64
    recommends
        s.len() > 0,
    decreases s.len(),
{
    if s.len() <= 1 {
        s[0]
    } else {
        let later = seq_max(s.drop_first());
        if s[0] >= later {
            s[0]
        } else {
            later
        }
    }
}

/// The smallest key of a non-empty sequence.
pub open spec fn seq_min(s: Seq<i64>) -> i64
    recommends
        s.len() > 0,
    decreases s.len(),
{
    if s.len() <= 1 {
        s[0]
    } else {
        let later = seq_min(s.drop_first());
        if s[0] <= later {
            s[0]
        } else {
            later
        }
    }
}

/// `seq_max` bounds every element and is itself an element.
pub proof fn lemma_seq_max_props(s: Seq<i64>)
    requires
        s.len() > 0,
    ensures
        forall|i: int| 0 <= i < s.len() ==> s[i] <= seq_max(s),
        exists|i: int| 0 <= i < s.len() && s[i] == seq_max(s),
    decreases s.len(),
{
    if s.len() <= 1 {
        assert(s[0] == seq_max(s));
    } else {
        lemma_seq_max_props(s.drop_first());
        assert forall|i: int| 0 <= i < s.len() implies s[i] <= seq_max(s) by {
            if i > 0 {
                assert(s[i] == s.drop_first()[i - 1]);
            }
        }
        if s[0] >= seq_max(s.drop_first()) {
            assert(s[0] == seq_max(s));
        } else {
            let j = choose|j: int|
                0 <= j < s.drop_first().len() && s.drop_first()[j] == seq_max(s.drop_first());
            assert(s.drop_first()[j] == s[j + 1]);
            assert(s[j + 1] == seq_max(s));
        }
    }
}

/// `seq_min` bounds every element from below and is itself an element.
pub proof fn lemma_seq_min_props(s: Seq<i64>)
    requires
        s.len() > 0,
    ensures
        forall|i: int| 0 <= i < s.len() ==> seq_min(s) <= s[i],
        exists|i: int| 0 <= i < s.len() && s[i] == seq_min(s),
    decreases s.len(),
{
    if s.len() <= 1 {
        assert(s[0] == seq_min(s));
    } else {
        lemma_seq_min_props(s.drop_first());
        assert forall|i: int| 0 <= i < s.len() implies seq_min(s) <= s[i] by {
            if i > 0 {
                assert(s[i] == s.drop_first()[i - 1]);
            }
        }
        if s[0] <= seq_min(s.drop_first()) {
            assert(s[0] == seq_min(s));
        } else {
            let j = choose|j: int|
                0 <= j < s.drop_first().len() && s.drop_first()[j] == seq_min(s.drop_first());
            assert(s.drop_first()[j] == s[j + 1]);
            assert(s[j + 1] == seq_min(s));
        }
    }
}

/// A key that occurs in the sequence and bounds it from above is its maximum.
pub proof fn lemma_seq_max_characterize(s: Seq<i64>, m: i64)
    requires
        s.len() > 0,
        exists|i: int| 0 <= i < s.len() && s[i] == m,
        forall|i: int| 0 <= i < s.len() ==> s[i] <= m,
    ensures
        seq_max(s) == m,
{
    lemma_seq_max_props(s);
}

/// A key that occurs in the sequence and bounds it from below is its minimum.
pub proof fn lemma_seq_min_characterize(s: Seq<i64>, m: i64)
    requires
        s.len() > 0,
        exists|i: int| 0 <= i < s.len() && s[i] == m,
        forall|i: int| 0 <= i < s.len() ==> m <= s[i],
    ensures
        seq_min(s) == m,
{
    lemma_seq_min_props(s);
}

/// The maximum of a sequence of keys does not depend on their order: reading
/// the keys backwards yields the same maximum.
pub proof fn lemma_seq_max_reverse(s: Seq<i64>)
    requires
        s.len() > 0,
    ensures
        seq_max(s.reverse()) == seq_max(s),
{
    let r = s.reverse();
    lemma_seq_max_props(s);
    assert forall|i: int| 0 <= i < r.len() implies r[i] <= seq_max(s) by {
        assert(r[i] == s[s.len() - 1 - i]);
    }
    let j = choose|j: int| 0 <= j < s.len() && s[j] == seq_max(s);
    assert(r[s.len() - 1 - j] == seq_max(s));
    lemma_seq_max_characterize(r, seq_max(s));
}

/// The largest key in a non-empty vector.
pub fn max_key(keys: &Vec<i64>) -> (r: i64)
    requires
        keys.len() > 0,
    ensures
        r == seq_max(keys@),
{
    let mut r: i64 = keys[0];
    let mut i: usize = 1;
    while i < keys.len()
        invariant
            1 <= i <= keys.len(),
            exists|j: int| 0 <= j < i && keys@[j] == r,
            forall|j: int| 0 <= j < i ==> keys@[j] <= r,
        decreases keys.len() - i,
    {
        if keys[i] > r {
            r = keys[i];
        }
        i = i + 1;
    }
    proof {
        lemma_seq_max_characterize(keys@, r);
    }
    r
}

/// The smallest key in a non-empty vector.
pub fn min_key(keys: &Vec<i64>) -> (r: i64)
    requires
        keys.len() > 0,
    ensures
        r == seq_min(keys@),
{
    let mut r: i64 = keys[0];
    let mut i: usize = 1;
    while i < keys.len()
        invariant
            1 <= i <= keys.len(),
            exists|j: int| 0 <= j < i && keys@[j] == r,
            forall|j: int| 0 <= j < i ==> r <= keys@[j],
        decreases keys.len() - i,
    {
        if keys[i] < r {
            r = keys[i];
        }
        i = i + 1;
    }
    proof {
        lemma_seq_min_characterize(keys@, r);
    }
    r
}

} // verus!
