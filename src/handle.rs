//! The shared, lock-guarded handle to the editor engine.
use std::sync::{Arc, Mutex, MutexGuard, PoisonError, TryLockError};
use vstd::prelude::*;

verus! {

/// `std::sync::Mutex`, carried through opaquely: whether it is held is
/// decided by other threads at run time, so nothing about it is modelled.
#[verifier::external_type_specification]
#[verifier::external_body]
#[verifier::reject_recursive_types(T)]
pub struct ExMutex<T: ?Sized>(Mutex<T>);

/// `std::sync::MutexGuard`: exclusive access that ends when the guard is dropped.
#[verifier::external_type_specification]
#[verifier::external_body]
#[verifier::reject_recursive_types(T)]
pub struct ExMutexGuard<'a, T: ?Sized + 'a>(MutexGuard<'a, T>);

/// `std::sync::PoisonError`: a previous holder panicked while holding the lock.
#[verifier::external_type_specification]
#[verifier::external_body]
#[verifier::reject_recursive_types(T)]
pub struct ExPoisonError<T>(PoisonError<T>);

/// `std::sync::TryLockError`: the lock was held elsewhere, or is poisoned.
#[verifier::external_type_specification]
#[verifier::external_body]
#[verifier::reject_recursive_types(T)]
pub struct ExTryLockError<T>(TryLockError<T>);

/// Relies on `Mutex::new`: wraps the value in a new, unlocked mutex.
pub assume_specification<T>[ Mutex::<T>::new ](t: T) -> Mutex<T>;

/// Relies on `Mutex::try_lock`: never blocks; returns the guard when the lock
/// was free, else a `TryLockError`.
pub assume_specification<T: ?Sized>[ Mutex::<T>::try_lock ](m: &Mutex<T>) -> Result<
    MutexGuard<'_, T>,
    TryLockError<MutexGuard<'_, T>>,
>;

/// The failure that a blocking acquisition reports: a previous holder
/// panicked while it held the engine, so the engine may be half-updated.
#[derive(Clone, Copy, Debug, PartialEq, Eq, Structural)]
pub enum EngineLockError {
    Poisoned,
}

/// Turns the outcome of a blocking acquisition (`Mutex::lock` on
/// [`EditorModel::shared`]) into a result of this library: the guard when the
/// lock was taken, `Poisoned` otherwise.
pub fn blocking_outcome<G>(r: Result<G, PoisonError<G>>) -> (out: Result<G, EngineLockError>)
    ensures
        r is Ok <==> out is Ok,
        r is Ok ==> out == Ok::<G, EngineLockError>(r->Ok_0),
        r is Err ==> out == Err::<G, EngineLockError>(EngineLockError::Poisoned),
{
    match r {
        Ok(g) => Ok(g),
        Err(_) => Err(EngineLockError::Poisoned),
    }
}

/// Turns the outcome of a non-blocking acquisition into the handle's result:
/// the guard when the lock was taken, `None` when it was unavailable
/// (held elsewhere, or poisoned).
pub fn try_outcome<G>(r: Result<G, TryLockError<G>>) -> (out: Option<G>)
    ensures
        r is Ok <==> out is Some,
        r is Ok ==> out == Some(r->Ok_0),
{
    match r {
        Ok(g) => Some(g),
        Err(_) => None,
    }
}

/// A reference-counted handle to one engine behind a mutual-exclusion lock.
/// Clones share the same engine and the same lock; the engine itself need
/// not be cloneable.
#[verifier::reject_recursive_types(E)]
pub struct EditorModel<E> {
    inner: Arc<Mutex<E>>,
}

impl<E> EditorModel<E> {
    /// Puts an already-initialised engine behind a new, unlocked handle.
    pub fn new(engine: E) -> (m: Self) {
        EditorModel { inner: Arc::new(Mutex::new(engine)) }
    }

    /// The lock itself, for the blocking path of the GUI thread's own
    /// commands. Blocking is kept out of this library: `Mutex::lock` may
    /// panic or never return when the calling thread already holds the lock,
    /// and which thread holds it is not known here.
    pub fn shared(&self) -> (m: &Mutex<E>) {
        &self.inner
    }

    /// Returns the guard at once when the engine is free, `None` when it is
    /// held (by any thread, this one included) or poisoned; never blocks.
    pub fn try_lock(&self) -> (r: Option<MutexGuard<'_, E>>) {
        let m: &Mutex<E> = &self.inner;
        try_outcome(m.try_lock())
    }
}

impl<E> Clone for EditorModel<E> {
    /// Relies on `Arc::clone`: a new reference to the same lock and engine.
    #[verifier::external_body]
    fn clone(&self) -> (c: Self) {
        EditorModel { inner: Arc::clone(&self.inner) }
    }
}

} // verus!
