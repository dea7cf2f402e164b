//! Checks on the pose landmarks before measuring.

use crate::pose::lm;
use vstd::prelude::*;

verus! {

/// The landmarks that must be visible, in the order in which they are checked.
pub open spec fn key_landmarks() -> Seq<usize> {
    seq![
        lm::NOSE,
        lm::LEFT_SHOULDER,
        lm::RIGHT_SHOULDER,
        lm::LEFT_HIP,
        lm::RIGHT_HIP,
        lm::LEFT_ANKLE,
        lm::RIGHT_ANKLE,
    ]
}

/// The landmarks that must be visible, in the order in which they are checked.
pub fn key_landmark_indices() -> (keys: &'static [usize])
    ensures
        keys@ == key_landmarks(),
{
    &[
        lm::NOSE,
        lm::LEFT_SHOULDER,
        lm::RIGHT_SHOULDER,
        lm::LEFT_HIP,
        lm::RIGHT_HIP,
        lm::LEFT_ANKLE,
        lm::RIGHT_ANKLE,
    ]
}

/// The check reaches no landmark beyond the list: every key landmark past its end comes after
/// a hidden key landmark, at which the check stops.
pub open spec fn keys_in_reach(visible: Seq<bool>) -> bool {
    forall|k: int|
        0 <= k < key_landmarks().len() && #[trigger] key_landmarks()[k] >= visible.len() ==> exists|j: int|
            0 <= j < k && key_landmarks()[j] < visible.len() && !visible[#[trigger] key_landmarks()[j] as int]
}

/// Whether `validate_landmarks` can check these flags without reading past their end.
pub fn landmarks_in_reach(visible: &Vec<bool>) -> (ok: bool)
    ensures
        ok == keys_in_reach(visible@),
{
    let keys = key_landmark_indices();
    let mut i: usize = 0;
    while i < keys.len()
        invariant
            keys@ == key_landmarks(),
            i <= keys@.len(),
            forall|j: int| 0 <= j < i ==> #[trigger] key_landmarks()[j] < visible@.len(),
            forall|j: int| 0 <= j < i ==> visible@[#[trigger] key_landmarks()[j] as int],
        decreases keys@.len() - i,
    {
        let idx = keys[i];
        if idx >= visible.len() {
            assert(key_landmarks()[i as int] >= visible@.len());
            return false;
        }
        if !visible[idx] {
            assert(forall|k: int| i < k < key_landmarks().len() ==> key_landmarks()[i as int] < #[trigger] key_landmarks()[k]);
            assert forall|k: int|
                0 <= k < key_landmarks().len() && #[trigger] key_landmarks()[k] >= visible@.len() implies exists|j: int|
                    0 <= j < k && key_landmarks()[j] < visible@.len() && !visible@[#[trigger] key_landmarks()[j] as int] by {
                assert(k > i);
                assert(key_landmarks()[i as int] == idx);
            }
            return true;
        }
        i = i + 1;
    }
    true
}

/// Checks that every key landmark is visible; `visible[i]` tells whether landmark `i` is.
/// Returns the first key landmark, in checking order, that is not visible.
pub fn validate_landmarks(visible: &Vec<bool>) -> (res: Result<(), usize>)
    requires
        keys_in_reach(visible@),
    ensures
        res is Ok <==> forall|k: int| 0 <= k < key_landmarks().len() ==> visible@[#[trigger] key_landmarks()[k] as int],
        res matches Err(idx) ==> exists|k: int|
            {
                &&& 0 <= k < key_landmarks().len()
                &&& idx == key_landmarks()[k]
                &&& !visible@[idx as int]
                &&& forall|j: int| 0 <= j < k ==> visible@[#[trigger] key_landmarks()[j] as int]
            },
{
    let keys = key_landmark_indices();
    let mut i: usize = 0;
    while i < keys.len()
        invariant
            keys@ == key_landmarks(),
            keys_in_reach(visible@),
            i <= keys@.len(),
            forall|j: int| 0 <= j < i ==> visible@[#[trigger] key_landmarks()[j] as int],
        decreases keys@.len() - i,
    {
        let idx = keys[i];
        proof {
            // A key landmark past the end would need an earlier hidden one, and the loop
            // has seen none.
            assert(idx == key_landmarks()[i as int]);
            if idx >= visible@.len() {
                assert(exists|j: int|
                    0 <= j < i && key_landmarks()[j] < visible@.len()
                        && !visible@[#[trigger] key_landmarks()[j] as int]);
            }
        }
        if !visible[idx] {
            return Err(idx);
        }
        i = i + 1;
    }
    Ok(())
}

/// The key landmarks are the nose (0), the shoulders (11, 12), the hips (23, 24) and the
/// ankles (27, 28), checked in that order; the landmark reported is always one of them, and
/// no reported landmark is visible.
pub proof fn lemma_key_landmarks(visible: Seq<bool>, res: Result<(), usize>)
    requires
        res matches Err(idx) ==> exists|k: int|
            {
                &&& 0 <= k < key_landmarks().len()
                &&& idx == key_landmarks()[k]
                &&& !visible[idx as int]
            },
    ensures
        key_landmarks() == seq![0usize, 11, 12, 23, 24, 27, 28],
        res matches Err(idx) ==> (idx == 0 || idx == 11 || idx == 12 || idx == 23 || idx == 24
            || idx == 27 || idx == 28) && !visible[idx as int],
{
    assert(key_landmarks() =~= seq![0usize, 11, 12, 23, 24, 27, 28]);
}

} // verus!
