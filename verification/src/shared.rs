//! A value that several owners on one thread share and change in turn.
use std::cell::{Ref, RefCell, RefMut};
use std::rc::{Rc, Weak};
use vstd::prelude::*;

verus! {

/// The cell of the standard library that checks borrows when the program runs.
#[verifier::external_type_specification]
#[verifier::external_body]
#[verifier::reject_recursive_types(T)]
pub struct ExRefCell<T: ?Sized>(RefCell<T>);

/// A shared borrow of what a `RefCell` holds.
#[verifier::external_type_specification]
#[verifier::external_body]
#[verifier::reject_recursive_types(T)]
pub struct ExRef<'b, T: ?Sized>(Ref<'b, T>);

/// An exclusive borrow of what a `RefCell` holds.
#[verifier::external_type_specification]
#[verifier::external_body]
#[verifier::reject_recursive_types(T)]
pub struct ExRefMut<'b, T: ?Sized + 'b>(RefMut<'b, T>);

/// A shared resource wrapper that provides interior mutability.
#[derive(Debug, PartialEq, Eq, Default)]
#[verifier::reject_recursive_types(T)]
pub struct Shared<T> {
    pub inner: Rc<RefCell<T>>,
}

/// A weak reference to a Shared pointer. It holds the weak pointer of the
/// standard library, which cannot be declared as a type of its own, so the
/// struct as a whole is taken on trust: a holder with nothing said of it.
#[derive(Debug)]
#[verifier::external_body]
#[verifier::reject_recursive_types(T)]
pub struct WeakShared<T> {
    pub inner: Weak<RefCell<T>>,
}

/// `RefCell::new`: a cell that holds `value`. What a cell holds can change
/// behind a shared reference, so nothing is said of it.
#[verifier::external_body]
fn cell_new<T>(value: T) -> RefCell<T> {
    RefCell::new(value)
}

/// `RefCell::try_borrow`: a shared borrow of what the cell holds, or `None`
/// while it is borrowed exclusively. Which of the two depends on borrows that
/// are alive elsewhere.
#[verifier::external_body]
fn cell_try_borrow<'a, T>(cell: &'a RefCell<T>) -> Option<Ref<'a, T>> {
    cell.try_borrow().ok()
}

/// `RefCell::try_borrow_mut`: an exclusive borrow of what the cell holds, or
/// `None` while it is borrowed in any way. Which of the two depends on borrows
/// that are alive elsewhere.
#[verifier::external_body]
fn cell_try_borrow_mut<'a, T>(cell: &'a RefCell<T>) -> Option<RefMut<'a, T>> {
    cell.try_borrow_mut().ok()
}

/// `Rc::clone`: another owner of the value of `rc`. In a specification an `Rc`
/// stands for the value that it points to, and both point to the same one.
#[verifier::external_body]
fn rc_clone<T>(rc: &Rc<RefCell<T>>) -> (copy: Rc<RefCell<T>>)
    ensures
        copy == *rc,
{
    Rc::clone(rc)
}

impl<T> Shared<T> {
    pub fn new(value: T) -> Self {
        Self { inner: Rc::new(cell_new(value)) }
    }

    /// Borrows the resource immutably, unless it is borrowed mutably just now.
    pub fn get(&self) -> Option<Ref<'_, T>> {
        cell_try_borrow(&self.inner)
    }

    /// Borrows the resource mutably, unless it is borrowed just now.
    pub fn get_mut(&self) -> Option<RefMut<'_, T>> {
        cell_try_borrow_mut(&self.inner)
    }

    /// Downgrades the resource to a weak reference: `Rc::downgrade`. Nothing is
    /// said of the weak reference, which Verus cannot look into.
    #[verifier::external_body]
    pub fn downgrade(&self) -> WeakShared<T> {
        WeakShared { inner: Rc::downgrade(&self.inner) }
    }

    /// Another owner of the same resource.
    pub fn clone(&self) -> (copy: Self)
        ensures
            copy.inner == self.inner,
    {
        Self { inner: rc_clone(&self.inner) }
    }
}

impl<T> From<T> for Shared<T> {
    fn from(value: T) -> (shared: Self) {
        Self::new(value)
    }
}

impl<T> vstd::std_specs::convert::FromSpecImpl<T> for Shared<T> {
    /// Nothing is promised of the conversion: it makes a new cell, of which
    /// nothing can be said.
    open spec fn obeys_from_spec() -> bool {
        false
    }

    open spec fn from_spec(value: T) -> Self {
        arbitrary()
    }
}

impl<T> WeakShared<T> {
    /// Another weak reference to the same resource: `Weak::clone`.
    #[verifier::external_body]
    pub fn clone(&self) -> WeakShared<T> {
        WeakShared { inner: Weak::clone(&self.inner) }
    }

    /// An owner of the resource, or `None` once the last owner is gone:
    /// `Weak::upgrade`. Which of the two depends on the owners that are alive
    /// elsewhere.
    #[verifier::external_body]
    pub fn upgrade(&self) -> Option<Shared<T>> {
        match Weak::upgrade(&self.inner) {
            Some(rc) => Some(Shared { inner: rc }),
            None => None,
        }
    }
}

} // verus!
