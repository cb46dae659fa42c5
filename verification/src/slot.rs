//! The single-occupant process slot and the supervisor's decisions.
//!
//! The supervisor is generic over the handle type `H` (the host instantiates
//! it with its OS process handle). Each `start`/`stop`/reap operation is split
//! around its one outside step (spawn, kill, wait): the first half decides
//! under the slot lock, the host performs the OS call, and the second half
//! records the outcome. The host holds its lock around both halves, so each
//! command is atomic with respect to the slot.

use vstd::prelude::*;
use crate::errors::SupervisorError;

verus! {

/// A mutually exclusive container holding at most one live process handle.
pub struct ProcessSlot<H> {
    occupant: Option<H>,
}

impl<H> View for ProcessSlot<H> {
    type V = Option<H>;

    closed spec fn view(&self) -> Option<H> {
        self.occupant
    }
}

impl<H> ProcessSlot<H> {
    /// An empty slot.
    pub fn empty() -> (s: Self)
        ensures
            s@ is None,
    {
        ProcessSlot { occupant: None }
    }

    /// Whether a handle currently occupies the slot.
    pub fn is_occupied(&self) -> (b: bool)
        ensures
            b == (self@ is Some),
    {
        self.occupant.is_some()
    }

    /// Stores a handle in the empty slot.
    pub fn install(&mut self, handle: H)
        requires
            old(self)@ is None,
        ensures
            final(self)@ == Some(handle),
    {
        self.occupant = Some(handle);
    }

    /// Removes and returns the occupant, leaving the slot empty.
    pub fn take(&mut self) -> (r: Option<H>)
        ensures
            r == old(self)@,
            final(self)@ is None,
    {
        self.occupant.take()
    }

    /// Empties the slot, dropping any occupant.
    pub fn clear(&mut self)
        ensures
            final(self)@ is None,
    {
        self.occupant = None;
    }
}

/// The public-facing component: owns the process slot and decides every
/// `start`/`stop`/reap step.
pub struct Supervisor<H> {
    slot: ProcessSlot<H>,
}

impl<H> Supervisor<H> {
    /// The handle currently held, if any.
    pub closed spec fn occupant(&self) -> Option<H> {
        self.slot@
    }

    /// Whether a process is currently supervised.
    pub open spec fn running(&self) -> bool {
        self.occupant() is Some
    }

    /// A supervisor with an empty slot.
    pub fn new() -> (s: Self)
        ensures
            !s.running(),
    {
        Supervisor { slot: ProcessSlot::empty() }
    }

    /// Whether a process is currently supervised.
    pub fn is_running(&self) -> (b: bool)
        ensures
            b == self.running(),
    {
        self.slot.is_occupied()
    }

    /// `start`, first half: succeeds exactly when the slot is empty; while a
    /// process runs, every call is rejected with `AlreadyRunning` and has no
    /// side effect.
    pub fn check_start(&self) -> (r: Result<(), SupervisorError>)
        ensures
            r is Ok <==> !self.running(),
            self.running() ==> (r matches Err(e) && e is AlreadyRunning),
    {
        if self.slot.is_occupied() {
            Err(SupervisorError::AlreadyRunning)
        } else {
            Ok(())
        }
    }

    /// `start`, second half: records the spawn attempt made for an empty slot.
    /// A spawned handle occupies the slot and the start succeeds; a spawn
    /// failure leaves the slot empty and reports `SpawnFailed` with the OS
    /// reason.
    pub fn finish_start(&mut self, outcome: Result<H, String>) -> (r: Result<
        (),
        SupervisorError,
    >)
        requires
            !old(self).running(),
        ensures
            r is Ok <==> outcome is Ok,
            outcome matches Ok(handle) ==> final(self).occupant() == Some(handle),
            outcome matches Err(reason) ==> !final(self).running() && (r matches Err(e)
                && e matches SupervisorError::SpawnFailed(r2) && r2 == reason),
    {
        match outcome {
            Ok(handle) => {
                self.slot.install(handle);
                Ok(())
            },
            Err(reason) => Err(SupervisorError::SpawnFailed(reason)),
        }
    }

    /// `stop`, first half: on an empty slot fails with `NotRunning`; on an
    /// occupied slot hands the occupant out to be killed, leaving the slot
    /// empty until the outcome is recorded.
    pub fn take_for_stop(&mut self) -> (r: Result<H, SupervisorError>)
        ensures
            !final(self).running(),
            old(self).occupant() matches Some(handle) ==> r == Ok::<H, SupervisorError>(handle),
            !old(self).running() ==> (r matches Err(e) && e is NotRunning),
    {
        match self.slot.take() {
            Some(handle) => Ok(handle),
            None => Err(SupervisorError::NotRunning),
        }
    }

    /// `stop`, second half: records the kill attempt on the handle taken out.
    /// A delivered kill puts the occupant back (its exit is still observed and
    /// reconciled by the reaper) and the stop succeeds; a failed kill treats
    /// the handle as unusable, leaves the slot empty, and reports `KillFailed`
    /// with the OS reason.
    pub fn finish_stop(&mut self, handle: H, outcome: Result<(), String>) -> (r: Result<
        (),
        SupervisorError,
    >)
        requires
            !old(self).running(),
        ensures
            r is Ok <==> outcome is Ok,
            outcome is Ok ==> final(self).occupant() == Some(handle),
            outcome matches Err(reason) ==> !final(self).running() && (r matches Err(e)
                && e matches SupervisorError::KillFailed(r2) && r2 == reason),
    {
        match outcome {
            Ok(_) => {
                self.slot.install(handle);
                Ok(())
            },
            Err(reason) => Err(SupervisorError::KillFailed(reason)),
        }
    }

    /// Reaper, first half: takes the occupant out before the long wait, so the
    /// slot is free while the wait blocks and `stop` is never blocked behind
    /// it.
    pub fn take_for_wait(&mut self) -> (r: Option<H>)
        ensures
            r == old(self).occupant(),
            !final(self).running(),
    {
        self.slot.take()
    }

    /// Reaper, last step: the defensive clear after the wait. In the current
    /// single-slot design the slot is already empty when this runs; the clear
    /// only guards against a stale occupant.
    pub fn reconcile_after_wait(&mut self)
        ensures
            !final(self).running(),
    {
        self.slot.clear();
    }
}

} // verus!
