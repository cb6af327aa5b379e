//! Defines [`RefOwner`], an [`Owner`] built from a value and an explicit
//! projection function.

use vstd::pervasive::cloned;
use vstd::prelude::*;

use crate::owner::{HasDependent, Owner};

verus! {

/// An [`Owner`] that pairs an arbitrary value with a dependent computed from
/// it by a projection function.
///
/// The projection is applied once, in [`RefOwner::new`]; production then
/// hands out clones of the computed dependent. Production never fails, so a
/// `RefOwner` always satisfies [`infallible`](crate::infallible) and works
/// with the plain (non-`try_`) constructors of [`Pair`](crate::Pair).
pub struct RefOwner<O, D: Clone> {
    owner: O,
    dependent: D,
}

impl<O, D: Clone> RefOwner<O, D> {
    /// The owner value held inside.
    pub closed spec fn owner_spec(self) -> O {
        self.owner
    }

    /// The dependent value computed at construction.
    pub closed spec fn dependent_spec(self) -> D {
        self.dependent
    }

    /// Creates a new [`RefOwner`] from an owner value and a projection. The
    /// projection is applied to the owner here, exactly once.
    pub fn new<F: Fn(&O) -> D>(owner: O, f: F) -> (r: Self)
        requires
            call_requires(f, (&owner,)),
        ensures
            r.owner_spec() == owner,
            call_ensures(f, (&owner,), r.dependent_spec()),
    {
        let dependent = f(&owner);
        Self { owner, dependent }
    }

    /// Returns a reference to the owner value.
    pub fn owner(&self) -> (r: &O)
        ensures
            *r == self.owner_spec(),
    {
        &self.owner
    }

    /// Consumes the [`RefOwner`], returning the owner value.
    pub fn into_owner(self) -> (r: O)
        ensures
            r == self.owner_spec(),
    {
        self.owner
    }
}

impl<O, D: Clone> HasDependent for RefOwner<O, D> {
    type Dependent = D;
}

impl<O, D: Clone> Owner for RefOwner<O, D> {
    type Context = ();

    type Error = core::convert::Infallible;

    /// Production clones the dependent computed at construction; it never
    /// fails.
    open spec fn produces(
        self,
        context: (),
        result: Result<D, core::convert::Infallible>,
    ) -> bool {
        match result {
            Ok(dependent) => cloned(self.dependent_spec(), dependent),
            Err(_) => false,
        }
    }

    fn make_dependent(&self, context: ()) -> (result: Result<D, core::convert::Infallible>)
        ensures
            self.produces(context, result),
    {
        Ok(self.dependent.clone())
    }
}

} // verus!
