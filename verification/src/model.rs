//! A sequential model of the protected operations.
//!
//! The hardware mutex serializes every protected operation on every cell
//! that shares it, so a concurrent history is equivalent to some sequence of
//! operations applied one after the other in completion order — the cell is
//! linearizable against this single-threaded oracle. The model gives that
//! oracle a name: [`step`] is the effect of one protected operation on the
//! value, [`run`] folds a whole history, and the lemmas below state the
//! properties a serialized history enjoys.

use vstd::prelude::*;
use vstd::std_specs::cmp::PartialEqSpec;
use vstd::std_specs::ops::AddSpec;
use vstd::std_specs::ops::BitAndSpec;
use vstd::std_specs::ops::BitOrSpec;
use vstd::std_specs::ops::SubSpec;
use core::sync::atomic::Ordering;
use crate::atomic::Atomic;
use crate::spinlock::SpinlockRegister;

verus! {

/// One protected operation, as some execution context issues it. The payload
/// of each variant is the argument the operation carries; the ordering
/// parameters are left out because they carry no distinct behaviour.
#[derive(Clone, Copy)]
pub enum Op<T> {
    Load,
    Store(T),
    CompareExchange(T, T),
    FetchAdd(T),
    FetchSub(T),
    FetchAnd(T),
    FetchOr(T),
}

/// The value the cell holds after one protected operation runs its critical
/// section against a cell holding `v`. The arithmetic and bitwise arms are
/// stated with the specification functions of the payload type's own
/// operators, so the model means exactly what the operators mean.
pub open spec fn step<
    T: core::ops::Add<Output = T> + core::ops::Sub<Output = T> + core::ops::BitAnd<
        Output = T,
    > + core::ops::BitOr<Output = T>,
>(v: T, op: Op<T>) -> T {
    match op {
        Op::Load => v,
        Op::Store(w) => w,
        Op::CompareExchange(c, n) => if v == c {
            n
        } else {
            v
        },
        Op::FetchAdd(d) => v.add_spec(d),
        Op::FetchSub(d) => v.sub_spec(d),
        Op::FetchAnd(m) => v.bitand_spec(m),
        Op::FetchOr(m) => v.bitor_spec(m),
    }
}

/// The value the cell holds after a whole history of protected operations,
/// applied in completion order to a cell that started at `v0`.
pub open spec fn run<
    T: core::ops::Add<Output = T> + core::ops::Sub<Output = T> + core::ops::BitAnd<
        Output = T,
    > + core::ops::BitOr<Output = T>,
>(v0: T, ops: Seq<Op<T>>) -> T
    decreases ops.len(),
{
    if ops.len() == 0 {
        v0
    } else {
        step(run(v0, ops.drop_last()), ops.last())
    }
}

/// Serialization composes: a history split at any point yields the same
/// final value as running the first part and then the second from where the
/// first left off. This is the shape mutual exclusion forces on every
/// concurrent history — critical sections never overlap, so any two
/// contexts' operations compose sequentially in completion order.
pub proof fn lemma_run_concat<
    T: core::ops::Add<Output = T> + core::ops::Sub<Output = T> + core::ops::BitAnd<
        Output = T,
    > + core::ops::BitOr<Output = T>,
>(v0: T, first: Seq<Op<T>>, second: Seq<Op<T>>)
    ensures
        run(v0, first + second) == run(run(v0, first), second),
    decreases second.len(),
{
    if second.len() == 0 {
        assert(first + second =~= first);
    } else {
        lemma_run_concat(v0, first, second.drop_last());
        assert((first + second).drop_last() =~= first + second.drop_last());
    }
}

/// The last completed write wins: whatever history came before, a store of
/// `w` as the final completed operation leaves the cell holding exactly `w`
/// — never a torn or partially-written value.
pub proof fn lemma_last_store_wins<
    T: core::ops::Add<Output = T> + core::ops::Sub<Output = T> + core::ops::BitAnd<
        Output = T,
    > + core::ops::BitOr<Output = T>,
>(v0: T, ops: Seq<Op<T>>, w: T)
    requires
        ops.len() > 0,
        ops.last() == Op::Store(w),
    ensures
        run(v0, ops) == w,
{
}

/// A read changes nothing: a history with a load appended ends at the same
/// value as the history itself, and the load observes exactly that value —
/// the value some completed operation left, never an intermediate one.
pub proof fn lemma_load_changes_nothing<
    T: core::ops::Add<Output = T> + core::ops::Sub<Output = T> + core::ops::BitAnd<
        Output = T,
    > + core::ops::BitOr<Output = T>,
>(v0: T, ops: Seq<Op<T>>)
    ensures
        run(v0, ops.push(Op::Load)) == run(v0, ops),
{
    assert(ops.push(Op::Load).drop_last() =~= ops);
}

/// A compare-exchange against a cell holding exactly the expected value
/// installs the new value; repeating it with the same expected value then
/// finds the cell changed and leaves it alone (the failing call returns the
/// caller's expected value, and the cell keeps `n`).
pub proof fn lemma_compare_exchange_then_retry<
    T: core::ops::Add<Output = T> + core::ops::Sub<Output = T> + core::ops::BitAnd<
        Output = T,
    > + core::ops::BitOr<Output = T>,
>(v: T, c: T, n: T)
    requires
        v == c,
        n != c,
    ensures
        step(v, Op::CompareExchange(c, n)) == n,
        step(step(v, Op::CompareExchange(c, n)), Op::CompareExchange(c, n)) == n,
{
}

/// A fetch-add followed by a load: the load observes the pre-update value
/// plus the delta; likewise for fetch-sub with the difference.
pub proof fn lemma_fetch_add_then_load<
    T: core::ops::Add<Output = T> + core::ops::Sub<Output = T> + core::ops::BitAnd<
        Output = T,
    > + core::ops::BitOr<Output = T>,
>(v: T, d: T)
    ensures
        step(step(v, Op::FetchAdd(d)), Op::Load) == v.add_spec(d),
        step(step(v, Op::FetchSub(d)), Op::Load) == v.sub_spec(d),
{
}

/// A fetch-and or fetch-or followed by a load: the load observes the
/// pre-update value masked with the operand.
pub proof fn lemma_fetch_mask_then_load<
    T: core::ops::Add<Output = T> + core::ops::Sub<Output = T> + core::ops::BitAnd<
        Output = T,
    > + core::ops::BitOr<Output = T>,
>(v: T, m: T)
    ensures
        step(step(v, Op::FetchAnd(m)), Op::Load) == v.bitand_spec(m),
        step(step(v, Op::FetchOr(m)), Op::Load) == v.bitor_spec(m),
{
}

/// Whether a cell holding `v` accepts `op`: the arithmetic operations demand
/// what their payload type's operator demands (for the integer types, that
/// the sum stays in range, that the difference does not go below the
/// smallest value); the others accept any argument.
pub open spec fn op_req<
    T: core::ops::Add<Output = T> + core::ops::Sub<Output = T> + core::ops::BitAnd<
        Output = T,
    > + core::ops::BitOr<Output = T>,
>(v: T, op: Op<T>) -> bool {
    match op {
        Op::Load => true,
        Op::Store(_) => true,
        Op::CompareExchange(_, _) => true,
        Op::FetchAdd(d) => v.add_req(d),
        Op::FetchSub(d) => v.sub_req(d),
        Op::FetchAnd(m) => v.bitand_req(m),
        Op::FetchOr(m) => v.bitor_req(m),
    }
}

/// Whether every operation of a history is accepted at the value it meets
/// when the history runs from `v0`.
pub open spec fn history_in_bounds<
    T: core::ops::Add<Output = T> + core::ops::Sub<Output = T> + core::ops::BitAnd<
        Output = T,
    > + core::ops::BitOr<Output = T>,
>(v0: T, ops: Seq<Op<T>>) -> bool
    decreases ops.len(),
{
    ops.len() == 0 || {
        &&& history_in_bounds(v0, ops.drop_last())
        &&& op_req(run(v0, ops.drop_last()), ops.last())
    }
}

/// In a history that stays in bounds, the operation at position `i` is
/// accepted at the value the preceding prefix reaches.
pub proof fn lemma_history_in_bounds_at<
    T: core::ops::Add<Output = T> + core::ops::Sub<Output = T> + core::ops::BitAnd<
        Output = T,
    > + core::ops::BitOr<Output = T>,
>(v0: T, ops: Seq<Op<T>>, i: int)
    requires
        history_in_bounds(v0, ops),
        0 <= i < ops.len(),
    ensures
        op_req(run(v0, ops.take(i)), ops[i]),
    decreases ops.len(),
{
    if i == ops.len() - 1 {
        assert(ops.take(i) =~= ops.drop_last());
    } else {
        lemma_history_in_bounds_at(v0, ops.drop_last(), i);
        assert(ops.drop_last().take(i) =~= ops.take(i));
    }
}

/// Replays a whole history of protected operations against a cell, one
/// critical section after another, and lands exactly where the
/// single-threaded oracle says: the cell ends at [`run`] of the history.
/// This is the linearizability of the cell made concrete — once the mutex
/// serializes a concurrent history into completion order, executing it is
/// the same as folding the model over it.
///
/// The payload type's operators must obey their specifications and its
/// equality must be equality on values, as they do for the integer types.
pub fn replay<
    T: PartialEq + Copy + core::ops::Add<Output = T> + core::ops::Sub<Output = T> +
        core::ops::BitAnd<Output = T> + core::ops::BitOr<Output = T>,
>(cell: &mut Atomic<T>, lock: &mut SpinlockRegister, ops: &Vec<Op<T>>)
    requires
        !old(lock).is_held(),
        T::obeys_eq_spec(),
        T::obeys_add_spec(),
        T::obeys_sub_spec(),
        T::obeys_bitand_spec(),
        T::obeys_bitor_spec(),
        forall|a: T, b: T| #[trigger] a.eq_spec(&b) <==> a == b,
        history_in_bounds(old(cell)@, ops@),
    ensures
        final(cell)@ == run(old(cell)@, ops@),
        !final(lock).is_held(),
{
    let mut i: usize = 0;
    while i < ops.len()
        invariant
            i <= ops@.len(),
            !lock.is_held(),
            T::obeys_eq_spec(),
            T::obeys_add_spec(),
            T::obeys_sub_spec(),
            T::obeys_bitand_spec(),
            T::obeys_bitor_spec(),
            forall|a: T, b: T| #[trigger] a.eq_spec(&b) <==> a == b,
            history_in_bounds(old(cell)@, ops@),
            cell@ == run(old(cell)@, ops@.take(i as int)),
        decreases ops@.len() - i,
    {
        proof {
            lemma_history_in_bounds_at(old(cell)@, ops@, i as int);
            assert(ops@.take(i as int + 1).drop_last() =~= ops@.take(i as int));
        }
        match ops[i] {
            Op::Load => {
                let _ = cell.load(lock, Ordering::SeqCst);
            },
            Op::Store(w) => {
                cell.store(lock, w, Ordering::SeqCst);
            },
            Op::CompareExchange(c, n) => {
                let _ = cell.compare_exchange(lock, c, n, Ordering::SeqCst, Ordering::SeqCst);
            },
            Op::FetchAdd(d) => {
                let _ = cell.fetch_add(lock, d, Ordering::SeqCst);
            },
            Op::FetchSub(d) => {
                let _ = cell.fetch_sub(lock, d, Ordering::SeqCst);
            },
            Op::FetchAnd(m) => {
                let _ = cell.fetch_and(lock, m, Ordering::SeqCst);
            },
            Op::FetchOr(m) => {
                let _ = cell.fetch_or(lock, m, Ordering::SeqCst);
            },
        }
        i = i + 1;
    }
    proof {
        assert(ops@.take(ops@.len() as int) =~= ops@);
    }
}

} // verus!
