//! The laws of the container, stated over the models that its contracts use.
//!
//! Each proof function here records a property that holds of every owner
//! type and every pair, assuming only what the container's own contracts
//! establish. The hypotheses name exactly what a constructor or accessor
//! ensures; the conclusion is the stated law.

use vstd::prelude::*;

use crate::owner::Owner;
use crate::pair::{infallible, PairView};

verus! {

/// Round trip: consuming a pair that was constructed from `owner` yields a
/// value equal to that original owner, whatever dependent the production
/// computed in between. (After consumption only the owner remains: the
/// dependent is destroyed and is no longer observable.)
///
/// The first hypothesis is what every constructor ensures of the pair it
/// returns; the second is what [`Pair::into_owner`](crate::Pair::into_owner)
/// ensures of its result.
pub proof fn lemma_round_trip<O: Owner>(owner: O, pair: PairView<O>, consumed: O)
    requires
        pair.owner == owner,
        consumed == pair.owner,
    ensures
        consumed == owner,
{
}

/// With a production that cannot fail, construction cannot fail either:
/// every outcome that [`Pair::try_new_with_context`](crate::Pair::try_new_with_context)
/// may have for such an owner is a success that holds the original owner and
/// a produced dependent.
///
/// The second hypothesis is exactly what `try_new_with_context` ensures of
/// its result.
pub proof fn lemma_infallible_construction_succeeds<O: Owner>(
    owner: O,
    context: O::Context,
    result: Result<PairView<O>, (O, O::Error)>,
)
    requires
        infallible(owner, context),
        match result {
            Ok(pair) => pair.owner == owner && owner.produces(context, Ok(pair.dependent)),
            Err((returned, error)) => returned == owner && owner.produces(context, Err(error)),
        },
    ensures
        result is Ok,
        result matches Ok(pair) ==> pair.owner == owner,
{
}

/// Failed construction is lossless: the owner handed back alongside the
/// error is the very owner that construction was attempted with, and no pair
/// exists in that outcome.
///
/// The hypothesis is what the `try_` constructors ensure of a failed
/// construction.
pub proof fn lemma_failure_returns_owner<O: Owner>(
    owner: O,
    context: O::Context,
    returned: O,
    error: O::Error,
)
    requires
        returned == owner && owner.produces(context, Err(error)),
    ensures
        returned == owner,
        !infallible(owner, context),
{
}

/// Deterministic production pins construction down completely: when an
/// owner's production admits exactly one dependent for a context, every pair
/// constructed from that owner and context holds exactly that dependent.
///
/// The second hypothesis is what every constructor ensures of the pair it
/// returns.
pub proof fn lemma_deterministic_production<O: Owner>(
    owner: O,
    context: O::Context,
    expected: O::Dependent,
    pair: PairView<O>,
)
    requires
        forall|result: Result<O::Dependent, O::Error>|
            owner.produces(context, result) ==> result == Ok::<O::Dependent, O::Error>(expected),
        pair.owner == owner && owner.produces(context, Ok(pair.dependent)),
    ensures
        pair.dependent == expected,
{
}

/// Shared access is idempotent: any two reads of the owner, and any two
/// reads of the dependent, taken from the same pair state, return equal
/// values — reading never changes the pair.
///
/// The hypotheses are what [`Pair::owner`](crate::Pair::owner) and
/// [`Pair::with_dependent`](crate::Pair::with_dependent) ensure of the
/// values they expose.
pub proof fn lemma_shared_access_idempotent<O: Owner>(
    pair: PairView<O>,
    owner_read_1: O,
    owner_read_2: O,
    dependent_read_1: O::Dependent,
    dependent_read_2: O::Dependent,
)
    requires
        owner_read_1 == pair.owner,
        owner_read_2 == pair.owner,
        dependent_read_1 == pair.dependent,
        dependent_read_2 == pair.dependent,
    ensures
        owner_read_1 == owner_read_2,
        dependent_read_1 == dependent_read_2,
{
}

} // verus!
