//! The atomic cell: a race-free view of one value for hardware without
//! native atomic read-modify-write instructions.
//!
//! Every protected operation runs the critical-section protocol against the
//! mutual-exclusion register it is handed: spin until a read claims the lock,
//! perform exactly one access to the value slot, then release the lock by
//! writing zero. Ordering parameters are accepted for interface compatibility
//! with the conventional atomic API but carry no distinct behaviour: the one
//! global mutex already serializes every protected operation.

use vstd::prelude::*;
use vstd::std_specs::cmp::PartialEqSpec;
use vstd::std_specs::ops::AddSpec;
use vstd::std_specs::ops::BitAndSpec;
use vstd::std_specs::ops::BitOrSpec;
use vstd::std_specs::ops::SubSpec;
use core::sync::atomic::Ordering;
use crate::spinlock::SpinlockRegister;

verus! {

/// A cell holding one value of type `T`, mutated only inside critical
/// sections guarded by a [`SpinlockRegister`] — except through
/// [`Atomic::get_mut`], whose exclusive borrow makes the lock unnecessary.
pub struct Atomic<T> {
    inner: T,
}

pub type AtomicUsize = Atomic<usize>;

pub type AtomicBool = Atomic<bool>;

impl<T> View for Atomic<T> {
    type V = T;

    closed spec fn view(&self) -> T {
        self.inner
    }
}

impl<T> Atomic<T> {
    /// Stores `initial` directly into the slot, with no locking: at
    /// construction time no other context can yet observe the cell.
    pub fn new(initial: T) -> (r: Self)
        ensures
            r@ == initial,
    {
        Atomic { inner: initial }
    }

    /// Bypasses the lock entirely and hands out a direct mutable handle to
    /// the slot. The exclusive borrow of the cell guarantees that no other
    /// context can access it for the lifetime of the handle, so no critical
    /// section is needed; the cell afterwards holds exactly what was left in
    /// the handle.
    pub fn get_mut(&mut self) -> (r: &mut T)
        ensures
            *r == old(self)@,
            final(self)@ == *final(r),
    {
        &mut self.inner
    }
}

impl<T: PartialEq + Copy> Atomic<T> {
    /// Returns a copy of the current value, read inside a critical section.
    /// No side effect beyond the lock acquire and release.
    pub fn load(&self, lock: &mut SpinlockRegister, _order: Ordering) -> (r: T)
        requires
            !old(lock).is_held(),
        ensures
            r == self@,
            !final(lock).is_held(),
    {
        lock.acquire();
        let result = self.inner;
        lock.release();
        result
    }

    /// Overwrites the slot with `value` inside a critical section.
    pub fn store(&mut self, lock: &mut SpinlockRegister, value: T, _order: Ordering)
        requires
            !old(lock).is_held(),
        ensures
            final(self)@ == value,
            !final(lock).is_held(),
    {
        lock.acquire();
        self.inner = value;
        lock.release();
    }

    /// If the slot equals `current`, sets it to `new` and returns `Ok(new)`;
    /// otherwise leaves the slot unchanged and returns `Err(current)`. On the
    /// failure path the payload is the caller-supplied expected value, not
    /// the slot's actual contents — a deliberate quirk of this cell that
    /// callers must not paper over.
    ///
    /// Whatever the equality test decided, the result pins down the slot:
    /// `Ok` means the slot now holds `new`, `Err` means it is unchanged.
    /// When `T`'s equality obeys its specification, which branch was taken
    /// is determined by whether the old value equals `current`.
    pub fn compare_exchange(
        &mut self,
        lock: &mut SpinlockRegister,
        current: T,
        new: T,
        _success: Ordering,
        _failure: Ordering,
    ) -> (r: Result<T, T>)
        requires
            !old(lock).is_held(),
        ensures
            (match r {
                Ok(v) => v == new && final(self)@ == new,
                Err(e) => e == current && final(self)@ == old(self)@,
            }),
            T::obeys_eq_spec() ==> (r is Ok <==> old(self)@.eq_spec(&current)),
            !final(lock).is_held(),
    {
        lock.acquire();
        let result: Result<T, T>;
        if self.inner == current {
            self.inner = new;
            result = Ok(new);
        } else {
            result = Err(current);
        }
        lock.release();
        result
    }

    /// Defined identically to [`Atomic::compare_exchange`]: no spurious
    /// failure is implemented, and "weak" is a naming-only nod to the
    /// conventional atomic API shape.
    pub fn compare_exchange_weak(
        &mut self,
        lock: &mut SpinlockRegister,
        current: T,
        new: T,
        _success: Ordering,
        _failure: Ordering,
    ) -> (r: Result<T, T>)
        requires
            !old(lock).is_held(),
        ensures
            (match r {
                Ok(v) => v == new && final(self)@ == new,
                Err(e) => e == current && final(self)@ == old(self)@,
            }),
            T::obeys_eq_spec() ==> (r is Ok <==> old(self)@.eq_spec(&current)),
            !final(lock).is_held(),
    {
        self.compare_exchange(lock, current, new, _success, _failure)
    }
}

impl<T: PartialEq + Copy + core::ops::BitAnd<Output = T> + core::ops::BitOr<Output = T>> Atomic<
    T,
> {
    /// Returns the value before the update, then replaces the slot with the
    /// bitwise AND of that value and `mask`, all inside one critical section.
    pub fn fetch_and(&mut self, lock: &mut SpinlockRegister, mask: T, _order: Ordering) -> (r: T)
        requires
            !old(lock).is_held(),
            old(self)@.bitand_req(mask),
        ensures
            r == old(self)@,
            T::obeys_bitand_spec() ==> final(self)@ == old(self)@.bitand_spec(mask),
            !final(lock).is_held(),
    {
        lock.acquire();
        let result = self.inner;
        self.inner = self.inner & mask;
        lock.release();
        result
    }

    /// Returns the value before the update, then replaces the slot with the
    /// bitwise OR of that value and `mask`, all inside one critical section.
    pub fn fetch_or(&mut self, lock: &mut SpinlockRegister, mask: T, _order: Ordering) -> (r: T)
        requires
            !old(lock).is_held(),
            old(self)@.bitor_req(mask),
        ensures
            r == old(self)@,
            T::obeys_bitor_spec() ==> final(self)@ == old(self)@.bitor_spec(mask),
            !final(lock).is_held(),
    {
        lock.acquire();
        let result = self.inner;
        self.inner = self.inner | mask;
        lock.release();
        result
    }
}

impl<T: PartialEq + Copy + core::ops::Add<Output = T> + core::ops::Sub<Output = T>> Atomic<T> {
    /// Returns the value before the update, then adds `delta` into the slot,
    /// all inside one critical section. The precondition rules out the
    /// additions the payload type itself refuses (for the integer types,
    /// overflow).
    pub fn fetch_add(&mut self, lock: &mut SpinlockRegister, delta: T, _order: Ordering) -> (r: T)
        requires
            !old(lock).is_held(),
            old(self)@.add_req(delta),
        ensures
            r == old(self)@,
            T::obeys_add_spec() ==> final(self)@ == old(self)@.add_spec(delta),
            !final(lock).is_held(),
    {
        lock.acquire();
        let result = self.inner;
        self.inner = self.inner + delta;
        lock.release();
        result
    }

    /// Returns the value before the update, then subtracts `delta` from the
    /// slot, all inside one critical section. The precondition rules out the
    /// subtractions the payload type itself refuses (for the unsigned integer
    /// types, going below zero).
    pub fn fetch_sub(&mut self, lock: &mut SpinlockRegister, delta: T, _order: Ordering) -> (r: T)
        requires
            !old(lock).is_held(),
            old(self)@.sub_req(delta),
        ensures
            r == old(self)@,
            T::obeys_sub_spec() ==> final(self)@ == old(self)@.sub_spec(delta),
            !final(lock).is_held(),
    {
        lock.acquire();
        let result = self.inner;
        self.inner = self.inner - delta;
        lock.release();
        result
    }
}

} // verus!
