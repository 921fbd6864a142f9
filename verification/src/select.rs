//! Choosing one project among those that a file was identified as.

use crate::identifier::{ModIdentifier, ModPlatform};
use itertools::Itertools;
use vstd::prelude::*;

verus! {

/// The position of the first candidate on `preferred` at or after `from`, or
/// the number of candidates if there is none.
pub open spec fn first_on(candidates: Seq<ModIdentifier>, preferred: ModPlatform, from: int) -> int
    decreases candidates.len() - from,
{
    if from < 0 || from >= candidates.len() {
        candidates.len() as int
    } else if candidates[from].on() == preferred {
        from
    } else {
        first_on(candidates, preferred, from + 1)
    }
}

/// Whether some candidate is on `preferred`.
pub open spec fn offers(candidates: Seq<ModIdentifier>, preferred: ModPlatform) -> bool {
    exists|i: int| 0 <= i < candidates.len() && (#[trigger] candidates[i]).on() == preferred
}

/// The position of the candidate to take: that of the first candidate on
/// `preferred`, or 0 where no candidate is on it.
pub open spec fn choice(candidates: Seq<ModIdentifier>, preferred: ModPlatform) -> int {
    if first_on(candidates, preferred, 0) < candidates.len() {
        first_on(candidates, preferred, 0)
    } else {
        0
    }
}

/// [`Itertools::find_or_first`] over the candidates, asking of each whether it
/// is on `preferred`.
///
/// The contract is that method's documentation: the first element that
/// satisfies the predicate, else the first element, and nothing only where
/// there is no element.
#[verifier::external_body]
fn find_or_first_on<'a>(candidates: &'a Vec<ModIdentifier>, preferred: ModPlatform) -> (found: Option<
    &'a ModIdentifier,
>)
    ensures
        candidates@.len() == 0 ==> found is None,
        candidates@.len() > 0 ==> found == Some(&candidates@[choice(candidates@, preferred)]),
{
    candidates.iter().find_or_first(|candidate| candidate.is_on(preferred))
}

/// What `first_on` finds is a position at or after `from`, it holds a
/// candidate on `preferred` if it is a position at all, and no candidate
/// between `from` and it is on `preferred`.
pub proof fn lemma_first_on(candidates: Seq<ModIdentifier>, preferred: ModPlatform, from: int)
    requires
        0 <= from <= candidates.len(),
    ensures
        from <= first_on(candidates, preferred, from) <= candidates.len(),
        first_on(candidates, preferred, from) < candidates.len() ==> candidates[first_on(
            candidates,
            preferred,
            from,
        )].on() == preferred,
        forall|i: int|
            from <= i < first_on(candidates, preferred, from) ==> (#[trigger] candidates[i]).on()
                != preferred,
    decreases candidates.len() - from,
{
    if from < candidates.len() && candidates[from].on() != preferred {
        lemma_first_on(candidates, preferred, from + 1);
    }
}

/// Picks the project to record for a file that was identified as
/// `candidates`: the first candidate on the preferred platform, or the very
/// first candidate where none is on it.
pub fn select<'a>(candidates: &'a Vec<ModIdentifier>, preferred: ModPlatform) -> (chosen: &'a ModIdentifier)
    requires
        candidates@.len() > 0,
    ensures
        0 <= choice(candidates@, preferred) < candidates@.len(),
        *chosen == candidates@[choice(candidates@, preferred)],
        offers(candidates@, preferred) ==> chosen.on() == preferred,
        !offers(candidates@, preferred) ==> *chosen == candidates@[0],
{
    proof {
        lemma_choice(candidates@, preferred);
    }
    match find_or_first_on(candidates, preferred) {
        Some(found) => found,
        // Nothing is found only among no candidates, and there is one.
        None => &candidates[0],
    }
}

/// The candidate taken is one of the candidates. Where some candidate is on
/// the preferred platform, it is the first of those; where none is, it is the
/// first candidate of all.
pub proof fn lemma_choice(candidates: Seq<ModIdentifier>, preferred: ModPlatform)
    requires
        candidates.len() > 0,
    ensures
        0 <= choice(candidates, preferred) < candidates.len(),
        offers(candidates, preferred) ==> candidates[choice(candidates, preferred)].on()
            == preferred,
        offers(candidates, preferred) ==> forall|i: int|
            0 <= i < choice(candidates, preferred) ==> (#[trigger] candidates[i]).on() != preferred,
        !offers(candidates, preferred) ==> choice(candidates, preferred) == 0,
{
    lemma_first_on(candidates, preferred, 0);
}

} // verus!
