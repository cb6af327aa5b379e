//! A container that bundles an owner value together with a dependent value
//! computed from it, keeping both movable as a single unit with a single,
//! well-defined teardown order.
//!
//! The [`Owner`] trait describes how a dependent is produced from an owner
//! (possibly with extra context, possibly failing); [`Pair`] houses the two
//! values, produces the dependent eagerly at construction, exposes read and
//! write access to both parts, and hands the owner back on consumption.

mod as_ref;
mod borrow;
mod deref;
mod laws;
mod owner;
mod pair;
mod ref_owner;

pub use as_ref::AsRefPair;
pub use borrow::BorrowPair;
pub use deref::DerefPair;
pub use laws::{
    lemma_deterministic_production, lemma_failure_returns_owner,
    lemma_infallible_construction_succeeds, lemma_round_trip, lemma_shared_access_idempotent,
};
pub use owner::{Dependent, HasDependent, Owner};
pub use pair::{infallible, Pair, PairView};
pub use ref_owner::RefOwner;
