//! Validation of a decoded selection set against a district's ballot
//! configuration: every identifier must be a configured option, the number
//! of distinct selections must lie within the district's bounds, and no
//! identifier may repeat.

use vstd::prelude::*;
use vstd::seq_lib::lemma_seq_contains_after_push;

verus! {

broadcast use lemma_seq_contains_after_push;

use crate::enums::{BallotStatus, InvalidReason};

/// Every selected identifier is one of the allowed option identifiers.
pub open spec fn all_options_known(selected: Seq<u32>, allowed: Seq<u32>) -> bool {
    forall|i: int| 0 <= i < selected.len() ==> allowed.contains(selected[i])
}

/// How many distinct identifiers the selection holds.
pub open spec fn distinct_count(selected: Seq<u32>) -> nat {
    selected.to_set().len()
}

/// The terminal status that the decryption algorithm assigns to a ballot
/// whose ciphertext decoded to `selected`, checked in order: unknown
/// options first, then the distinct-selection bounds, then repeats.
pub open spec fn choice_outcome(selected: Seq<u32>, allowed: Seq<u32>, min: u32, max: u32) -> BallotStatus {
    if !all_options_known(selected, allowed) {
        BallotStatus::Invalid(InvalidReason::UnknownOption)
    } else if distinct_count(selected) < min || distinct_count(selected) > max {
        BallotStatus::Invalid(InvalidReason::OutOfRange)
    } else if !selected.no_duplicates() {
        BallotStatus::Invalid(InvalidReason::DuplicateOption)
    } else {
        BallotStatus::Valid
    }
}

/// Linear membership test over a vector of option identifiers.
pub fn contains_option(v: &Vec<u32>, x: u32) -> (r: bool)
    ensures
        r == v@.contains(x),
{
    let mut i: usize = 0;
    while i < v.len()
        invariant
            i <= v@.len(),
            forall|j: int| 0 <= j < i ==> v@[j] != x,
        decreases v@.len() - i,
    {
        if v[i] == x {
            return true;
        }
        i += 1;
    }
    false
}

/// Runs the content checks of the decryption algorithm on a decoded
/// selection and returns the terminal status it earns. Never returns
/// Unknown.
pub fn validate_choices(selected: &Vec<u32>, allowed: &Vec<u32>, min: u32, max: u32) -> (r: BallotStatus)
    ensures
        r == choice_outcome(selected@, allowed@, min, max),
        r != BallotStatus::Unknown,
{
    let mut i: usize = 0;
    while i < selected.len()
        invariant
            i <= selected@.len(),
            forall|j: int| 0 <= j < i ==> allowed@.contains(#[trigger] selected@[j]),
        decreases selected@.len() - i,
    {
        if !contains_option(allowed, selected[i]) {
            assert(!all_options_known(selected@, allowed@));
            return BallotStatus::Invalid(InvalidReason::UnknownOption);
        }
        i += 1;
    }
    assert(all_options_known(selected@, allowed@));

    let mut seen: Vec<u32> = Vec::new();
    let mut dup = false;
    let mut k: usize = 0;
    while k < selected.len()
        invariant
            k <= selected@.len(),
            seen@.no_duplicates(),
            forall|y: u32| #[trigger] seen@.contains(y)
                == selected@.subrange(0, k as int).contains(y),
            dup == !selected@.subrange(0, k as int).no_duplicates(),
        decreases selected@.len() - k,
    {
        let ghost pre = selected@.subrange(0, k as int);
        let ghost post = selected@.subrange(0, k as int + 1);
        let x = selected[k];
        proof {
            assert(post =~= pre.push(x));
        }
        if contains_option(&seen, x) {
            proof {
                assert(pre.contains(x));
                let w = choose|w: int| 0 <= w < pre.len() && pre[w] == x;
                assert(post[w] == x && post[pre.len() as int] == x);
                assert(!post.no_duplicates());
            }
            dup = true;
        } else {
            proof {
                assert(!pre.contains(x));
                assert(seen@.push(x).no_duplicates()) by {
                    assert(forall|a: int, b: int|
                        (0 <= a < seen@.push(x).len() && 0 <= b < seen@.push(x).len() && a != b)
                            ==> seen@.push(x)[a] != seen@.push(x)[b]);
                }
                assert(post.no_duplicates() == pre.no_duplicates()) by {
                    if pre.no_duplicates() {
                        assert(forall|a: int, b: int|
                            (0 <= a < post.len() && 0 <= b < post.len() && a != b)
                                ==> post[a] != post[b]);
                    } else {
                        let (a, b) = choose|a: int, b: int|
                            0 <= a < pre.len() && 0 <= b < pre.len() && a != b && pre[a] == pre[b];
                        assert(post[a] == post[b]);
                    }
                }
            }
            seen.push(x);
        }
        k += 1;
    }
    proof {
        assert(selected@.subrange(0, selected@.len() as int) =~= selected@);
        assert(seen@.to_set() =~= selected@.to_set());
        seen@.unique_seq_to_set();
    }
    let count = seen.len();
    if (count as u64) < (min as u64) || (count as u64) > (max as u64) {
        return BallotStatus::Invalid(InvalidReason::OutOfRange);
    }
    if dup {
        return BallotStatus::Invalid(InvalidReason::DuplicateOption);
    }
    BallotStatus::Valid
}

} // verus!
