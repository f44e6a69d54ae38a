//! A model of the hardware mutual-exclusion register (spinlock line).
//!
//! The hardware offers one width-1 atomic primitive: reading the register
//! claims the lock and yields a nonzero token when the lock was free, and
//! yields zero when some context already holds it; writing zero releases the
//! lock unconditionally. This module captures those semantics in a type whose
//! operations carry contracts, so that the critical-section protocol of the
//! atomic cell can be verified against them.

use vstd::prelude::*;

verus! {

/// The mutual-exclusion register. One such register guards every cell that is
/// handed a reference to it: it is a single shared resource, not a per-cell
/// lock, so critical sections on different cells sharing a register are
/// serialized with one another.
pub struct SpinlockRegister {
    held: bool,
}

impl SpinlockRegister {
    /// True while some execution context holds the lock.
    pub closed spec fn is_held(&self) -> bool {
        self.held
    }

    /// A register in the released state, as the lock line presents itself
    /// before anyone has claimed it.
    pub fn new() -> (r: Self)
        ensures
            !r.is_held(),
    {
        SpinlockRegister { held: false }
    }

    /// One read of the register. When the lock was free the read claims it
    /// and yields a nonzero token; when it was already held the read yields
    /// zero and changes nothing.
    pub fn read(&mut self) -> (token: u32)
        ensures
            !old(self).is_held() ==> token != 0 && final(self).is_held(),
            old(self).is_held() ==> token == 0 && final(self).is_held(),
    {
        if self.held {
            0
        } else {
            self.held = true;
            1
        }
    }

    /// A write of zero: releases the lock unconditionally, whoever held it.
    pub fn write_zero(&mut self)
        ensures
            !final(self).is_held(),
    {
        self.held = false;
    }

    /// The spin step of the critical-section protocol: poll the register
    /// until a read yields a nonzero token. The spin is an unbounded
    /// busy-wait on real hardware; it terminates exactly when the lock is
    /// observed free, which the precondition demands (a lock that is never
    /// released hangs every later caller, and no recovery is modelled).
    pub fn acquire(&mut self)
        requires
            !old(self).is_held(),
        ensures
            final(self).is_held(),
    {
        let mut token: u32 = 0;
        while token == 0
            invariant
                token == 0 ==> !self.is_held(),
                token != 0 ==> self.is_held(),
            decreases (if token == 0 { 1int } else { 0int }),
        {
            token = self.read();
        }
    }

    /// The release step: write zero, unconditionally.
    pub fn release(&mut self)
        ensures
            !final(self).is_held(),
    {
        self.write_zero();
    }
}

} // verus!
