//! Defines [`BorrowPair`], a pair specialized to a borrowed view of the
//! owner.

use vstd::prelude::*;

verus! {

/// A pair of an owner and a dependent computed from it as a borrowed view,
/// in the role that `core::borrow::Borrow` plays elsewhere. The view is
/// passed explicitly, as a function from a reference to the owner, because a
/// call through that trait carries no contract for verification.
///
/// The view is computed once, at construction; afterwards the pair behaves
/// like a [`Pair`](crate::Pair) whose production cannot fail: the owner is
/// read-only, the dependent can be read freely, and consumption hands the
/// owner back unchanged.
pub struct BorrowPair<T, U> {
    // Declared first: destroyed before the owner when the pair is dropped.
    dependent: U,
    owner: T,
}

impl<T, U> BorrowPair<T, U> {
    /// The owner value held inside.
    pub closed spec fn owner_spec(self) -> T {
        self.owner
    }

    /// The dependent value computed at construction.
    pub closed spec fn dependent_spec(self) -> U {
        self.dependent
    }

    /// Creates a new [`BorrowPair`] from an owner value and a view function,
    /// applying the view to the owner exactly once.
    pub fn new<F: Fn(&T) -> U>(owner: T, f: F) -> (r: Self)
        requires
            call_requires(f, (&owner,)),
        ensures
            r.owner_spec() == owner,
            call_ensures(f, (&owner,), r.dependent_spec()),
    {
        let dependent = f(&owner);
        Self { dependent, owner }
    }

    /// Returns a reference to the owner.
    pub fn get_owner(&self) -> (r: &T)
        ensures
            *r == self.owner_spec(),
    {
        &self.owner
    }

    /// Returns a reference to the dependent.
    pub fn get_dependent(&self) -> (r: &U)
        ensures
            *r == self.dependent_spec(),
    {
        &self.dependent
    }

    /// Consumes the pair, destroying the dependent and returning the owner.
    pub fn into_owner(self) -> (r: T)
        ensures
            r == self.owner_spec(),
    {
        self.owner
    }
}

} // verus!
