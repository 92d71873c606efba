//! The grid state store: two alternating snapshots of the simulation grid
//! and the generation counter that assigns them their roles.
//!
//! The double buffer is an index toggle over a fixed pair of snapshots,
//! never two independently-lived objects. At generation `g` the snapshot at
//! index `g % 2` is "read" (the newest completed generation) and the one at
//! `(g + 1) % 2` is "write" (the next generation under construction). A
//! step writes the transition of the read snapshot into the write snapshot
//! and then advances the counter, which flips the roles; a buffer is never
//! read by the step that writes it.

use vstd::prelude::*;

use crate::error::ConfigurationError;
use crate::params::SimulationParams;
use crate::rule::SimulationCell;
use crate::rule::TransitionRule;
use crate::rule::next_snapshot;
use crate::rule::spec_next_snapshot;

verus! {

/// The buffer index that is read at generation `g`.
pub open spec fn read_index_of(g: nat) -> nat {
    g % 2
}

/// The buffer index that is written at generation `g`.
pub open spec fn write_index_of(g: nat) -> nat {
    (g + 1) % 2
}

/// The two roles never coincide, each is 0 or 1, they alternate strictly
/// with the generation, and a step's write buffer is the next step's read
/// buffer.
pub proof fn lemma_buffer_roles(g: nat)
    ensures
        read_index_of(g) != write_index_of(g),
        read_index_of(g) == 0 || read_index_of(g) == 1,
        write_index_of(g) == 0 || write_index_of(g) == 1,
        read_index_of(g) == g % 2,
        read_index_of(g + 1) == write_index_of(g),
        write_index_of(g + 1) == read_index_of(g),
{
}

/// The double-buffered grid plus its generation counter.
pub struct SimulationState {
    pub generation: u64,
    pub params: SimulationParams,
    pub snapshot0: Vec<SimulationCell>,
    pub snapshot1: Vec<SimulationCell>,
}

impl SimulationState {
    /// Both snapshots hold exactly one cell per grid coordinate.
    pub open spec fn wf(self) -> bool {
        &&& self.snapshot0@.len() == self.params.spec_cell_count()
        &&& self.snapshot1@.len() == self.params.spec_cell_count()
    }

    /// The snapshot stored at buffer index `i`.
    pub open spec fn spec_snapshot(self, i: nat) -> Seq<SimulationCell> {
        if i == 0 {
            self.snapshot0@
        } else {
            self.snapshot1@
        }
    }

    /// The snapshot currently marked "read": the newest completed
    /// generation.
    pub open spec fn spec_read_snapshot(self) -> Seq<SimulationCell> {
        self.spec_snapshot(read_index_of(self.generation as nat))
    }

    /// Builds the store from the initial cells, which must number exactly
    /// `width * height`; anything else is a configuration error. Both
    /// snapshots start as the initial grid, so the first step has defined
    /// input whichever buffer it reads.
    pub fn new(params: SimulationParams, initial: Vec<SimulationCell>) -> (r: Result<
        SimulationState,
        ConfigurationError,
    >)
        ensures
            r is Ok <==> initial@.len() == params.spec_cell_count(),
            r matches Ok(s) ==> {
                &&& s.wf()
                &&& s.generation == 0
                &&& s.params == params
                &&& s.snapshot0@ == initial@
                &&& s.snapshot1@ == initial@
            },
            r matches Err(e) ==> e == ConfigurationError::GridSizeMismatch,
    {
        let expected = params.cell_count();
        if initial.len() as u64 != expected {
            return Err(ConfigurationError::GridSizeMismatch);
        }
        let snapshot1 = initial.clone();
        proof {
            assert(snapshot1@ =~= initial@);
        }
        Ok(SimulationState { generation: 0, params, snapshot0: initial, snapshot1 })
    }

    /// The generation the read snapshot belongs to.
    pub fn current_generation(&self) -> (r: u64)
        ensures
            r == self.generation,
    {
        self.generation
    }

    /// The buffer index currently marked "read".
    pub fn read_index(&self) -> (r: u32)
        ensures
            r == read_index_of(self.generation as nat),
            r == 0 || r == 1,
    {
        (self.generation % 2) as u32
    }

    /// The buffer index currently marked "write".
    pub fn write_index(&self) -> (r: u32)
        ensures
            r == write_index_of(self.generation as nat),
            r == 0 || r == 1,
    {
        ((self.generation % 2) as u32 + 1) % 2
    }

    /// Flips the buffer roles by advancing the generation counter. Pure
    /// bookkeeping: neither snapshot is touched, let alone reallocated.
    /// The step engine calls this only after the generation's work has
    /// been submitted.
    pub fn advance(&mut self)
        requires
            old(self).generation < u64::MAX,
        ensures
            final(self).generation == old(self).generation + 1,
            final(self).params == old(self).params,
            final(self).snapshot0 == old(self).snapshot0,
            final(self).snapshot1 == old(self).snapshot1,
    {
        self.generation = self.generation + 1;
    }

    /// One simulation step: writes the transition of the read snapshot
    /// into the write snapshot, then advances the counter so the fresh
    /// snapshot becomes "read". The previously read snapshot is left
    /// untouched; it is merely re-marked "write" for the next step.
    pub fn step(&mut self, transition: TransitionRule)
        requires
            old(self).wf(),
            old(self).generation < u64::MAX,
        ensures
            final(self).wf(),
            final(self).generation == old(self).generation + 1,
            final(self).params == old(self).params,
            // the roles flipped: what was "write" is now "read"
            read_index_of(final(self).generation as nat) == write_index_of(
                old(self).generation as nat,
            ),
            // the snapshot now marked "read" is a pure function of the
            // previously read snapshot and the parameters
            final(self).spec_read_snapshot() == spec_next_snapshot(
                transition,
                old(self).spec_read_snapshot(),
                old(self).params.width as nat,
                old(self).params.height as nat,
            ),
            // the previously read snapshot survives unchanged as the new
            // write buffer
            final(self).spec_snapshot(read_index_of(old(self).generation as nat)) == old(
                self,
            ).spec_read_snapshot(),
    {
        let read = self.read_index();
        if read == 0 {
            let next = next_snapshot(&self.snapshot0, &self.params, transition);
            self.snapshot1 = next;
        } else {
            let next = next_snapshot(&self.snapshot1, &self.params, transition);
            self.snapshot0 = next;
        }
        self.generation = self.generation + 1;
    }
}

} // verus!
