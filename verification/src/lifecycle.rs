//! A ghost model of the slot's lifecycle, and the laws that hold over every
//! run of the supervisor.
//!
//! Each `SlotOp` stands for one completed operation on the process slot, as
//! the contracts in `slot` describe them; `step_allowed` records when each
//! operation can occur and `step` what it does to the slot's occupancy. The
//! laws are proved for every sequence of operations that respects those
//! contracts.

use vstd::prelude::*;

verus! {

/// One completed operation on the process slot.
#[derive(Clone, Copy, Debug, PartialEq, Eq, Structural)]
pub enum SlotOp {
    /// `start` on an empty slot whose spawn succeeded: the handle was
    /// installed (`check_start` then `finish_start` with a spawned handle).
    StartSpawned,
    /// `start` on an occupied slot: rejected with `AlreadyRunning`.
    StartRejected,
    /// `start` on an empty slot whose spawn failed: the slot stays empty.
    StartSpawnFailed,
    /// The reaper took the occupant (if any) out before waiting
    /// (`take_for_wait`).
    ReaperTake,
    /// The reaper's defensive clear after the wait (`reconcile_after_wait`);
    /// in the current design the slot is already empty when it runs.
    ReaperClear,
    /// `stop` on an occupied slot whose kill was delivered: the occupant
    /// stays.
    KillDelivered,
    /// `stop` on an occupied slot whose kill failed: the slot was
    /// force-cleared.
    KillFailed,
    /// `stop` on an empty slot: rejected with `NotRunning`.
    StopRejected,
}

/// When each operation can occur, given whether the slot is occupied —
/// exactly as the contracts in `slot` allow them.
pub open spec fn step_allowed(occupied: bool, op: SlotOp) -> bool {
    match op {
        SlotOp::StartSpawned => !occupied,
        SlotOp::StartRejected => occupied,
        SlotOp::StartSpawnFailed => !occupied,
        SlotOp::ReaperTake => true,
        SlotOp::ReaperClear => !occupied,
        SlotOp::KillDelivered => occupied,
        SlotOp::KillFailed => occupied,
        SlotOp::StopRejected => !occupied,
    }
}

/// The slot's occupancy after one operation.
pub open spec fn step(occupied: bool, op: SlotOp) -> bool {
    match op {
        SlotOp::StartSpawned => true,
        SlotOp::StartRejected => occupied,
        SlotOp::StartSpawnFailed => false,
        SlotOp::ReaperTake => false,
        SlotOp::ReaperClear => false,
        SlotOp::KillDelivered => occupied,
        SlotOp::KillFailed => false,
        SlotOp::StopRejected => occupied,
    }
}

/// The slot's occupancy after a whole run.
pub open spec fn run(occupied: bool, ops: Seq<SlotOp>) -> bool
    decreases ops.len(),
{
    if ops.len() == 0 {
        occupied
    } else {
        step(run(occupied, ops.drop_last()), ops.last())
    }
}

/// A run in which every operation occurred as the contracts allow it.
pub open spec fn valid_run(occupied: bool, ops: Seq<SlotOp>) -> bool
    decreases ops.len(),
{
    ops.len() == 0 || (valid_run(occupied, ops.drop_last()) && step_allowed(
        run(occupied, ops.drop_last()),
        ops.last(),
    ))
}

/// The slot's occupancy after the first `n` operations.
pub open spec fn occupancy_at(occupied: bool, ops: Seq<SlotOp>, n: int) -> bool {
    run(occupied, ops.take(n))
}

/// The operations that vacate an occupied slot: the reaper's take (toward the
/// terminal event) and a failed kill's force-clear.
pub open spec fn vacates(op: SlotOp) -> bool {
    op is ReaperTake || op is KillFailed
}

/// How many successful starts a run holds.
pub open spec fn start_count(ops: Seq<SlotOp>) -> nat
    decreases ops.len(),
{
    if ops.len() == 0 {
        0
    } else {
        start_count(ops.drop_last()) + (if ops.last() is StartSpawned {
            1nat
        } else {
            0nat
        })
    }
}

/// How many failed kills a run holds.
pub open spec fn kill_fail_count(ops: Seq<SlotOp>) -> nat
    decreases ops.len(),
{
    if ops.len() == 0 {
        0
    } else {
        kill_fail_count(ops.drop_last()) + (if ops.last() is KillFailed {
            1nat
        } else {
            0nat
        })
    }
}

/// How many terminal events a run emits: the reaper emits exactly one per
/// handle it actually takes out (and none when it finds the slot empty).
pub open spec fn terminal_count(occupied: bool, ops: Seq<SlotOp>) -> nat
    decreases ops.len(),
{
    if ops.len() == 0 {
        0
    } else {
        terminal_count(occupied, ops.drop_last()) + (if ops.last() is ReaperTake && run(
            occupied,
            ops.drop_last(),
        ) {
            1nat
        } else {
            0nat
        })
    }
}

/// Unfolds `occupancy_at` one step from the front.
proof fn lemma_occupancy_unfold(occupied: bool, ops: Seq<SlotOp>, n: int)
    requires
        1 <= n <= ops.len(),
    ensures
        occupancy_at(occupied, ops, n) == step(occupancy_at(occupied, ops, n - 1), ops[n - 1]),
{
    assert(ops.take(n).drop_last() =~= ops.take(n - 1));
    assert(ops.take(n).last() == ops[n - 1]);
}

/// In a valid run, every operation was allowed in the state it found.
proof fn lemma_step_allowed_at(occupied: bool, ops: Seq<SlotOp>, k: int)
    requires
        valid_run(occupied, ops),
        0 <= k < ops.len(),
    ensures
        step_allowed(occupancy_at(occupied, ops, k), ops[k]),
    decreases ops.len(),
{
    if k == ops.len() - 1 {
        assert(ops.take(k) =~= ops.drop_last());
    } else {
        lemma_step_allowed_at(occupied, ops.drop_last(), k);
        assert(ops.drop_last().take(k) =~= ops.take(k));
    }
}

/// While no operation vacates the slot, an occupied slot stays occupied.
proof fn lemma_occupied_until_vacated(occupied: bool, ops: Seq<SlotOp>, i: int, n: int)
    requires
        valid_run(occupied, ops),
        0 <= i <= n <= ops.len(),
        occupancy_at(occupied, ops, i),
        forall|k: int| i <= k < n ==> !vacates(ops[k]),
    ensures
        occupancy_at(occupied, ops, n),
    decreases n - i,
{
    if n > i {
        lemma_occupied_until_vacated(occupied, ops, i, n - 1);
        lemma_step_allowed_at(occupied, ops, n - 1);
        lemma_occupancy_unfold(occupied, ops, n);
    }
}

/// Law: at most one `start` succeeds without an intervening vacation of the
/// slot. Between any two successful starts some operation must have vacated
/// it: the reaper observed a termination, or a failed kill force-cleared it.
pub proof fn lemma_start_mutual_exclusion(occupied: bool, ops: Seq<SlotOp>, i: int, j: int)
    requires
        valid_run(occupied, ops),
        0 <= i < j < ops.len(),
        ops[i] is StartSpawned,
        ops[j] is StartSpawned,
    ensures
        exists|k: int| i < k < j && vacates(ops[k]),
{
    if forall|k: int| i < k < j ==> !vacates(ops[k]) {
        lemma_occupancy_unfold(occupied, ops, i + 1);
        lemma_occupied_until_vacated(occupied, ops, i + 1, j);
        lemma_step_allowed_at(occupied, ops, j);
        assert(false);
    }
}

/// Law: while the slot is occupied, a `start` can only be the `AlreadyRunning`
/// rejection — it can neither succeed nor even reach a spawn attempt.
pub proof fn lemma_start_while_occupied_rejected(occupied: bool, ops: Seq<SlotOp>, k: int)
    requires
        valid_run(occupied, ops),
        0 <= k < ops.len(),
        occupancy_at(occupied, ops, k),
    ensures
        !(ops[k] is StartSpawned),
        !(ops[k] is StartSpawnFailed),
{
    lemma_step_allowed_at(occupied, ops, k);
}

/// Law: after the reaper takes an exited process out, the slot is empty again
/// and a following `start` is allowed to succeed.
pub proof fn lemma_start_after_exit(occupied: bool, ops: Seq<SlotOp>)
    requires
        valid_run(occupied, ops),
        ops.len() > 0,
        ops.last() is ReaperTake,
    ensures
        !run(occupied, ops),
        step_allowed(run(occupied, ops), SlotOp::StartSpawned),
{
}

/// Law: terminal events are conserved. Every successful start is answered by
/// exactly one of: a terminal event (the reaper took the handle), a failed
/// kill's force-clear, or the process still occupying the slot at the end of
/// the run — and a run that begins occupied carries one further pending
/// lifetime.
pub proof fn lemma_terminal_conservation(occupied: bool, ops: Seq<SlotOp>)
    requires
        valid_run(occupied, ops),
    ensures
        terminal_count(occupied, ops) + kill_fail_count(ops) + (if run(occupied, ops) {
            1nat
        } else {
            0nat
        }) == start_count(ops) + (if occupied {
            1nat
        } else {
            0nat
        }),
    decreases ops.len(),
{
    if ops.len() > 0 {
        lemma_terminal_conservation(occupied, ops.drop_last());
    }
}

/// Law: in a run that starts empty, where no kill ever fails and no process is
/// left running, exactly one terminal event is emitted per completed process
/// lifetime — never zero, never two.
pub proof fn lemma_one_terminal_per_lifetime(ops: Seq<SlotOp>)
    requires
        valid_run(false, ops),
        kill_fail_count(ops) == 0,
        !run(false, ops),
    ensures
        terminal_count(false, ops) == start_count(ops),
{
    lemma_terminal_conservation(false, ops);
}

} // verus!
