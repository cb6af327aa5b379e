//! The [`Owner`] and [`HasDependent`] traits: the borrow contract that a type
//! implements so that a [`Pair`](crate::Pair) can bundle it with the dependent
//! value it produces.

use vstd::prelude::*;

verus! {

/// Names the dependent type for the [`Owner`] trait.
///
/// Splitting the type declaration from the production function mirrors the
/// shape of the contract: first say *what* an owner can produce, then say
/// *how* it is produced.
pub trait HasDependent {
    /// The dependent type, computed from an owner. This type is what
    /// [`Owner::make_dependent`] returns on success.
    type Dependent;
}

/// A type alias for the [`Dependent`](HasDependent::Dependent) of some
/// [`Owner`].
pub type Dependent<O> = <O as HasDependent>::Dependent;

/// A type which can act as the "owner" of some data and can produce a
/// dependent value computed from itself. Used for the [`Pair`](crate::Pair)
/// container.
///
/// The supertrait [`HasDependent`] names the dependent type; the
/// [`make_dependent`](Owner::make_dependent) function says how to compute a
/// dependent from a reference to an owner, and the [`produces`](Owner::produces)
/// predicate is its specification: every implementation states which results
/// `make_dependent` may return for a given owner and context.
pub trait Owner: HasDependent + Sized {
    /// Additional context provided to [`make_dependent`](Owner::make_dependent)
    /// as an argument.
    ///
    /// If additional context is not necessary, this should be set to `()`.
    type Context;

    /// The error type returned by [`make_dependent`](Owner::make_dependent) in
    /// the event of an error.
    type Error;

    /// The specification of [`make_dependent`](Owner::make_dependent): which
    /// outcomes production may have for this owner value and this context.
    ///
    /// A deterministic implementation pins the result down to one value; an
    /// implementation with unconstrained effects may relate several outcomes
    /// to the same input. An implementation that keeps the default promises
    /// nothing of what it produces.
    open spec fn produces(
        self,
        context: Self::Context,
        result: Result<Self::Dependent, Self::Error>,
    ) -> bool {
        true
    }

    /// Attempts to construct a [`Dependent`](HasDependent::Dependent) from a
    /// reference to an owner and some context.
    fn make_dependent(&self, context: Self::Context) -> (result: Result<
        Self::Dependent,
        Self::Error,
    >)
        ensures
            self.produces(context, result),
    ;
}

} // verus!
