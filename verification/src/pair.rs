//! Defines [`Pair`], the primary abstraction provided by this crate.

use vstd::pervasive::unreached;
use vstd::prelude::*;

use crate::owner::Owner;

verus! {

/// Holds when production cannot fail: every outcome that
/// [`Owner::make_dependent`] may have for this owner and context is a
/// success.
///
/// The plain (non-`try_`) constructors of [`Pair`] ask for this, so that the
/// type system of contracts — rather than a run-time check — rules the error
/// path out.
pub open spec fn infallible<O: Owner>(owner: O, context: O::Context) -> bool {
    forall|result: Result<O::Dependent, O::Error>|
        owner.produces(context, result) ==> result is Ok
}

/// A pair containing both some [`Owner`] and its
/// [`Dependent`](crate::HasDependent::Dependent).
///
/// The owner must be provided to construct a [`Pair`], and the dependent is
/// immediately created (computed from the owner). Both are stored together in
/// the pair, each in its own heap allocation, so that the pair itself may be
/// moved freely without disturbing either part.
///
/// Conceptually, the pair has ownership over the owner `O`, the owner is
/// read-only for the lifetime of the pair, and the dependent is owned by the
/// pair and valid for the pair's lifetime.
///
/// The dependent field stands before the owner field so that, when a pair is
/// dropped, the dependent is destroyed strictly before the owner: Rust drops
/// fields in declaration order. Every teardown path keeps that order, and
/// [`Pair::into_boxed_owner`] destroys the dependent explicitly before handing
/// the owner back.
pub struct Pair<O: Owner> {
    // Destroyed first on drop: the dependent never outlives the owner it was
    // computed from.
    dependent: Box<O::Dependent>,
    owner: Box<O>,
}

/// The mathematical model of a [`Pair`]: the owner value and the dependent
/// value it currently holds.
pub struct PairView<O: Owner> {
    pub owner: O,
    pub dependent: O::Dependent,
}

impl<O: Owner> View for Pair<O> {
    type V = PairView<O>;

    closed spec fn view(&self) -> PairView<O> {
        PairView { owner: *self.owner, dependent: *self.dependent }
    }
}

impl<O: Owner> Pair<O> {
    /// Constructs a new [`Pair`] with the given boxed [`Owner`]. The dependent
    /// will be computed through [`Owner::make_dependent`] during this
    /// construction.
    ///
    /// # Errors
    /// If [`Owner::make_dependent`] returns an error, the original owner is
    /// handed back unchanged alongside that error; no pair is ever created in
    /// that path.
    pub fn try_new_from_box_with_context(owner: Box<O>, context: O::Context) -> (result: Result<
        Self,
        (Box<O>, O::Error),
    >)
        ensures
            match result {
                Ok(pair) => pair@.owner == *owner && (*owner).produces(
                    context,
                    Ok(pair@.dependent),
                ),
                Err((returned, error)) => returned == owner && (*owner).produces(
                    context,
                    Err(error),
                ),
            },
    {
        match owner.make_dependent(context) {
            Ok(dependent) => Ok(Pair { dependent: Box::new(dependent), owner }),
            Err(error) => Err((owner, error)),
        }
    }

    /// Constructs a new [`Pair`] with the given [`Owner`]. The dependent will
    /// be computed through [`Owner::make_dependent`] during this construction.
    ///
    /// # Errors
    /// If [`Owner::make_dependent`] returns an error, the original owner is
    /// handed back unchanged alongside that error; no pair is ever created in
    /// that path.
    pub fn try_new_with_context(owner: O, context: O::Context) -> (result: Result<
        Self,
        (O, O::Error),
    >)
        ensures
            match result {
                Ok(pair) => pair@.owner == owner && owner.produces(context, Ok(pair@.dependent)),
                Err((returned, error)) => returned == owner && owner.produces(context, Err(error)),
            },
    {
        match Self::try_new_from_box_with_context(Box::new(owner), context) {
            Ok(pair) => Ok(pair),
            Err((returned, error)) => Err((*returned, error)),
        }
    }

    /// Constructs a new [`Pair`] with the given [`Owner`], whose production
    /// cannot fail for this context. The dependent will be computed through
    /// [`Owner::make_dependent`] during this construction.
    pub fn new_with_context(owner: O, context: O::Context) -> (pair: Self)
        requires
            infallible(owner, context),
        ensures
            pair@.owner == owner,
            owner.produces(context, Ok(pair@.dependent)),
    {
        match Self::try_new_with_context(owner, context) {
            Ok(pair) => pair,
            Err(_) => unreached(),
        }
    }

    /// Constructs a new [`Pair`] with the given boxed [`Owner`], whose
    /// production cannot fail for this context. The dependent will be
    /// computed through [`Owner::make_dependent`] during this construction.
    pub fn new_from_box_with_context(owner: Box<O>, context: O::Context) -> (pair: Self)
        requires
            infallible(*owner, context),
        ensures
            pair@.owner == *owner,
            (*owner).produces(context, Ok(pair@.dependent)),
    {
        match Self::try_new_from_box_with_context(owner, context) {
            Ok(pair) => pair,
            Err(_) => unreached(),
        }
    }

    /// Returns a reference to the owner.
    pub fn owner(&self) -> (owner: &O)
        ensures
            *owner == self@.owner,
    {
        &self.owner
    }

    /// Returns a reference to the owner.
    pub fn get_owner(&self) -> (owner: &O)
        ensures
            *owner == self@.owner,
    {
        &self.owner
    }

    /// Calls the given closure, providing shared access to the dependent, and
    /// returns the value computed by the closure.
    pub fn with_dependent<'s, T, F: FnOnce(&'s O::Dependent) -> T>(&'s self, f: F) -> (t: T)
        requires
            call_requires(f, (&self@.dependent,)),
        ensures
            call_ensures(f, (&self@.dependent,), t),
    {
        f(&self.dependent)
    }

    /// Calls the given closure, providing exclusive access to the dependent,
    /// and returns the value computed by the closure.
    pub fn with_dependent_mut<T, F: FnOnce(&mut O::Dependent) -> T>(&mut self, f: F) -> (t: T)
        requires
            forall|d: &mut O::Dependent|
                mut_ref_current(d) == old(self)@.dependent ==> call_requires(f, (d,)),
        ensures
            final(self)@.owner == old(self)@.owner,
            exists|d: &mut O::Dependent|
                {
                    &&& mut_ref_current(d) == old(self)@.dependent
                    &&& mut_ref_future(d) == final(self)@.dependent
                    &&& call_ensures(f, (d,), t)
                },
    {
        let d: &mut O::Dependent = &mut *self.dependent;
        proof {
            assert(mut_ref_current(d) == old(self)@.dependent);
        }
        f(d)
    }

    /// Calls the given closure, providing shared access to the owner and the
    /// dependent together, and returns the value computed by the closure.
    pub fn with_both<'s, T, F: FnOnce(&'s O, &'s O::Dependent) -> T>(&'s self, f: F) -> (t: T)
        requires
            call_requires(f, (&self@.owner, &self@.dependent)),
        ensures
            call_ensures(f, (&self@.owner, &self@.dependent), t),
    {
        f(&self.owner, &self.dependent)
    }

    /// Calls the given closure, providing shared access to the owner and
    /// exclusive access to the dependent, and returns the value computed by
    /// the closure. The owner stays read-only: only the dependent can change.
    pub fn with_both_mut<T, F: FnOnce(&O, &mut O::Dependent) -> T>(&mut self, f: F) -> (t: T)
        requires
            forall|d: &mut O::Dependent|
                mut_ref_current(d) == old(self)@.dependent ==> call_requires(
                    f,
                    (&old(self)@.owner, d),
                ),
        ensures
            final(self)@.owner == old(self)@.owner,
            exists|d: &mut O::Dependent|
                {
                    &&& mut_ref_current(d) == old(self)@.dependent
                    &&& mut_ref_future(d) == final(self)@.dependent
                    &&& call_ensures(f, (&old(self)@.owner, d), t)
                },
    {
        let owner: &O = &self.owner;
        let d: &mut O::Dependent = &mut *self.dependent;
        proof {
            assert(mut_ref_current(d) == old(self)@.dependent);
        }
        f(owner, d)
    }

    /// Consumes the [`Pair`], destroying the dependent and returning the
    /// owner in its heap allocation.
    pub fn into_boxed_owner(self) -> (owner: Box<O>)
        ensures
            *owner == self@.owner,
    {
        let Pair { dependent, owner } = self;
        // The dependent is destroyed here, strictly before the owner could be.
        drop_dependent(dependent);
        owner
    }

    /// Consumes the [`Pair`], destroying the dependent and returning the
    /// owner.
    pub fn into_owner(self) -> (owner: O)
        ensures
            owner == self@.owner,
    {
        *self.into_boxed_owner()
    }
}

impl<O: Owner<Context = ()>> Pair<O> {
    /// Constructs a new [`Pair`] with the given [`Owner`], whose production
    /// is context-free and cannot fail. The dependent will be computed
    /// through [`Owner::make_dependent`] during this construction.
    pub fn new(owner: O) -> (pair: Self)
        requires
            infallible(owner, ()),
        ensures
            pair@.owner == owner,
            owner.produces((), Ok(pair@.dependent)),
    {
        Self::new_with_context(owner, ())
    }

    /// Constructs a new [`Pair`] with the given boxed [`Owner`], whose
    /// production is context-free and cannot fail. The dependent will be
    /// computed through [`Owner::make_dependent`] during this construction.
    pub fn new_from_box(owner: Box<O>) -> (pair: Self)
        requires
            infallible(*owner, ()),
        ensures
            pair@.owner == *owner,
            (*owner).produces((), Ok(pair@.dependent)),
    {
        Self::new_from_box_with_context(owner, ())
    }

    /// Constructs a new [`Pair`] with the given [`Owner`], whose production
    /// is context-free. The dependent will be computed through
    /// [`Owner::make_dependent`] during this construction.
    ///
    /// # Errors
    /// If [`Owner::make_dependent`] returns an error, the original owner is
    /// handed back unchanged alongside that error; no pair is ever created in
    /// that path.
    pub fn try_new(owner: O) -> (result: Result<Self, (O, O::Error)>)
        ensures
            match result {
                Ok(pair) => pair@.owner == owner && owner.produces((), Ok(pair@.dependent)),
                Err((returned, error)) => returned == owner && owner.produces((), Err(error)),
            },
    {
        Self::try_new_with_context(owner, ())
    }

    /// Constructs a new [`Pair`] with the given boxed [`Owner`], whose
    /// production is context-free. The dependent will be computed through
    /// [`Owner::make_dependent`] during this construction.
    ///
    /// # Errors
    /// If [`Owner::make_dependent`] returns an error, the original boxed
    /// owner is handed back unchanged alongside that error; no pair is ever
    /// created in that path.
    pub fn try_new_from_box(owner: Box<O>) -> (result: Result<Self, (Box<O>, O::Error)>)
        ensures
            match result {
                Ok(pair) => pair@.owner == *owner && (*owner).produces(
                    (),
                    Ok(pair@.dependent),
                ),
                Err((returned, error)) => returned == owner && (*owner).produces(
                    (),
                    Err(error),
                ),
            },
    {
        Self::try_new_from_box_with_context(owner, ())
    }
}

/// Destroys a dependent value. Standing alone, the call makes the teardown
/// order in [`Pair::into_boxed_owner`] explicit.
fn drop_dependent<D>(dependent: Box<D>) {
    let _ = dependent;
}

} // verus!
