use std::cell::{Ref, RefCell, RefMut};
use std::rc::Rc;
use vstd::prelude::*;

verus! {

#[verifier::external_type_specification]
#[verifier::external_body]
#[verifier::reject_recursive_types(T)]
pub struct ExRef<'b, T: ?Sized>(Ref<'b, T>);

#[verifier::external_type_specification]
#[verifier::external_body]
#[verifier::reject_recursive_types(T)]
pub struct ExRefMut<'b, T: ?Sized + 'b>(RefMut<'b, T>);

#[verifier::external_type_specification]
#[verifier::external_body]
#[verifier::reject_recursive_types(T)]
pub struct ExRefCell<T: ?Sized>(RefCell<T>);

/// Dereferences a shared [`Ref`] guard (`Deref::deref` of `std::cell::Ref`).
/// Nothing is stated of the result: the guarded value lives inside a
/// `RefCell`, whose contents this library does not model.
#[verifier::external_body]
fn ref_guard_get<'b, 'a, T>(guard: &'b Ref<'a, T>) -> &'b T {
    &**guard
}

/// Dereferences an exclusive [`RefMut`] guard (`Deref::deref` of `std::cell::RefMut`).
/// Nothing is stated of the result, for the same reason as [`ref_guard_get`].
#[verifier::external_body]
fn ref_mut_guard_get<'b, 'a, T>(guard: &'b RefMut<'a, T>) -> &'b T {
    &**guard
}

/// Mutably dereferences a [`RefMut`] guard (`DerefMut::deref_mut` of `std::cell::RefMut`).
/// Nothing is stated of the result, for the same reason as [`ref_guard_get`].
#[verifier::external_body]
fn ref_mut_guard_get_mut<'b, 'a, T>(guard: &'b mut RefMut<'a, T>) -> &'b mut T {
    &mut **guard
}

/// Tries to take a shared borrow of a `RefCell` (`RefCell::try_borrow`),
/// giving `None` where the cell is mutably borrowed at the time of the call.
/// `RefCell::try_borrow` does not panic. Which of the two comes back depends on
/// the cell's run-time borrow state, which this library does not model, so
/// nothing is stated of the result.
#[verifier::external_body]
pub(crate) fn cell_try_borrow<'a, T>(cell: &'a RefCell<T>) -> Option<Ref<'a, T>> {
    cell.try_borrow().ok()
}

/// Tries to take an exclusive borrow of a `RefCell` (`RefCell::try_borrow_mut`),
/// giving `None` where the cell is borrowed at the time of the call.
/// `RefCell::try_borrow_mut` does not panic; as for [`cell_try_borrow`],
/// which outcome comes back is not stated.
#[verifier::external_body]
pub(crate) fn cell_try_borrow_mut<'a, T>(cell: &'a RefCell<T>) -> Option<RefMut<'a, T>> {
    cell.try_borrow_mut().ok()
}

/// Wraps a value in a new `RefCell` (`RefCell::new`).
/// Nothing is stated of the result: the contents of a `RefCell` are not modelled.
#[verifier::external_body]
pub(crate) fn cell_new<T>(value: T) -> RefCell<T> {
    RefCell::new(value)
}

/// A read-only view of a value that is owned, borrowed or guarded by a `RefCell`.
#[verifier::reject_recursive_types(T)]
pub enum Readonly<'a, T> {
    Owned(T),
    Borrowed(&'a T),
    Ref(Ref<'a, T>),
}

impl<'a, T> Readonly<'a, T> {
    /// Returns a reference to the held value.
    pub fn value(&self) -> (r: &T)
        ensures
            self matches Readonly::Owned(v) ==> *r == v,
            self matches Readonly::Borrowed(v) ==> *r == *v,
    {
        match self {
            Readonly::Owned(v) => v,
            Readonly::Borrowed(v) => *v,
            Readonly::Ref(v) => ref_guard_get(v),
        }
    }
}

/// A writable view of a value that is owned, mutably borrowed or guarded by a `RefCell`.
#[verifier::reject_recursive_types(T)]
pub enum Writable<'a, T> {
    Owned(T),
    Borrowed(&'a mut T),
    RefMut(RefMut<'a, T>),
}

impl<'a, T> Writable<'a, T> {
    /// Returns a reference to the held value.
    pub fn value(&self) -> (r: &T)
        ensures
            self matches Writable::Owned(v) ==> *r == v,
            self matches Writable::Borrowed(v) ==> *r == **v,
    {
        match self {
            Writable::Owned(v) => v,
            Writable::Borrowed(v) => &**v,
            Writable::RefMut(v) => ref_mut_guard_get(v),
        }
    }

    /// Returns a mutable reference to the held value.
    pub fn value_mut(&mut self) -> (r: &mut T)
        ensures
            (*old(self)) matches Writable::Owned(v) ==> *r == v && *final(self) == Writable::<'a, T>::Owned(*final(r)),
            (*old(self)) matches Writable::Borrowed(v) ==> *r == *v && ((*final(self)) matches Writable::Borrowed(w)
                && *w == *final(r) && *final(w) == *final(v)),
    {
        match self {
            Writable::Owned(v) => v,
            Writable::Borrowed(v) => &mut **v,
            Writable::RefMut(v) => ref_mut_guard_get_mut(v),
        }
    }
}

/// A value that is owned, mutably borrowed or shared through `Rc<RefCell<_>>`.
#[verifier::reject_recursive_types(T)]
pub enum Value<'a, T> {
    Owned(T),
    Borrowed(&'a mut T),
    Rc(Rc<RefCell<T>>),
}

impl<'a, T> Value<'a, T> {
    /// Returns a read-only view of the held value. A value shared through
    /// `Rc<RefCell<_>>` gives `None`, where its cell is mutably borrowed at the
    /// time of the call, in place of a panic.
    pub fn value(&self) -> (r: Option<Readonly<'_, T>>)
        ensures
            self matches Value::Owned(v) ==> (r matches Some(Readonly::Borrowed(b)) && *b == v),
            self matches Value::Borrowed(v) ==> (r matches Some(Readonly::Borrowed(b)) && *b == **v),
            self is Rc ==> (r is None || r matches Some(Readonly::Ref(_))),
    {
        match self {
            Value::Owned(v) => Some(Readonly::Borrowed(v)),
            Value::Borrowed(v) => Some(Readonly::Borrowed(&**v)),
            Value::Rc(v) => match cell_try_borrow(&**v) {
                Some(guard) => Some(Readonly::Ref(guard)),
                None => None,
            },
        }
    }

    /// Returns a writable view of the held value; a write through it lands
    /// in the held value. A value shared through `Rc<RefCell<_>>` gives
    /// `None`, where its cell is borrowed at the time of the call, in place of
    /// a panic.
    pub fn value_mut(&mut self) -> (r: Option<Writable<'_, T>>)
        ensures
            (*old(self)) matches Value::Owned(v) ==> (r matches Some(Writable::Borrowed(b)) && *b == v
                && *final(self) == Value::<'a, T>::Owned(*final(b))),
            (*old(self)) matches Value::Borrowed(v) ==> (r matches Some(Writable::Borrowed(b)) && *b == *v
                && ((*final(self)) matches Value::Borrowed(w) && *w == *final(b) && *final(w) == *final(v))),
            (*old(self)) is Rc ==> (r is None || r matches Some(Writable::RefMut(_))),
    {
        match self {
            Value::Owned(v) => Some(Writable::Borrowed(v)),
            Value::Borrowed(v) => Some(Writable::Borrowed(&mut **v)),
            Value::Rc(v) => match cell_try_borrow_mut(&**v) {
                Some(guard) => Some(Writable::RefMut(guard)),
                None => None,
            },
        }
    }
}

} // verus!
