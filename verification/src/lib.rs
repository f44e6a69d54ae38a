//! Atomic-like shared-variable semantics for hardware that lacks native
//! read-modify-write instructions, built from a single hardware
//! mutual-exclusion register.
//!
//! The only true atomic primitive assumed is a spinlock register that claims
//! the lock on a qualifying read and releases it on a write of zero. Every
//! operation on an [`atomic::Atomic`] cell runs inside a critical section
//! guarded by that register, so all protected accesses are totally ordered.
//! The register is modelled explicitly by [`spinlock::SpinlockRegister`] and
//! handed to each operation, which keeps the shared-resource dependency
//! visible in the interface and lets a harness stand a software register in
//! for the hardware line. The [`model`] module states the sequential oracle
//! that serialized histories are equivalent to, and proves the cell
//! linearizable against it.

pub mod atomic;
pub mod model;
pub mod spinlock;
