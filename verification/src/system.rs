use vstd::prelude::*;

use crate::types::{Event, EventRecord, Phase};

verus! {

/// The part of the runtime's system storage that the pallet reads and writes.
pub struct System {
    block_number: u64,
    extrinsic_index: Option<u32>,
    execution_phase: Option<Phase>,
    events: Vec<EventRecord>,
}

/// The abstract state of [`System`].
#[verifier::ext_equal]
pub struct SystemModel {
    pub block_number: u64,
    pub extrinsic_index: Option<u32>,
    pub execution_phase: Option<Phase>,
    pub events: Seq<EventRecord>,
}

impl View for System {
    type V = SystemModel;

    closed spec fn view(&self) -> SystemModel {
        SystemModel {
            block_number: self.block_number,
            extrinsic_index: self.extrinsic_index,
            execution_phase: self.execution_phase,
            events: self.events@,
        }
    }
}

impl SystemModel {
    /// The state at genesis: block zero, extrinsic index zero (the genesis build writes
    /// it), no phase, no events.
    pub open spec fn genesis() -> SystemModel {
        SystemModel {
            block_number: 0,
            extrinsic_index: Some(0),
            execution_phase: None,
            events: Seq::empty(),
        }
    }

    /// The phase recorded with an event deposited now.
    pub open spec fn current_phase(self) -> Phase {
        match self.execution_phase {
            Some(p) => p,
            None => Phase::Initialization,
        }
    }

    /// The state after depositing `event`: nothing is recorded in the genesis block;
    /// otherwise the event is appended with the current phase.
    pub open spec fn deposit(self, event: Event) -> SystemModel {
        if self.block_number == 0 {
            self
        } else {
            SystemModel {
                events: self.events.push(EventRecord { phase: self.current_phase(), event }),
                ..self
            }
        }
    }
}

impl System {
    /// A system at genesis.
    pub fn new() -> (s: System)
        ensures
            s@ == SystemModel::genesis(),
    {
        System { block_number: 0, extrinsic_index: Some(0), execution_phase: None, events: Vec::new() }
    }

    /// The number of the current block.
    pub fn block_number(&self) -> (n: u64)
        ensures
            n == self@.block_number,
    {
        self.block_number
    }

    /// Sets the number of the current block.
    pub fn set_block_number(&mut self, n: u64)
        ensures
            final(self)@ == (SystemModel { block_number: n, ..old(self)@ }),
    {
        self.block_number = n;
    }

    /// The index of the extrinsic being applied, if one is.
    pub fn extrinsic_index(&self) -> (i: Option<u32>)
        ensures
            i == self@.extrinsic_index,
    {
        self.extrinsic_index
    }

    /// Records which extrinsic is being applied.
    pub fn set_extrinsic_index(&mut self, i: Option<u32>)
        ensures
            final(self)@ == (SystemModel { extrinsic_index: i, ..old(self)@ }),
    {
        self.extrinsic_index = i;
    }

    /// Records the phase of block execution.
    pub fn set_execution_phase(&mut self, p: Option<Phase>)
        ensures
            final(self)@ == (SystemModel { execution_phase: p, ..old(self)@ }),
    {
        self.execution_phase = p;
    }

    /// The events deposited so far.
    pub fn events(&self) -> (v: Vec<EventRecord>)
        ensures
            v@ == self@.events,
    {
        let mut v: Vec<EventRecord> = Vec::new();
        let n = self.events.len();
        for i in 0..n
            invariant
                n == self.events@.len(),
                v@ == self.events@.subrange(0, i as int),
        {
            v.push(self.events[i]);
        }
        v
    }

    /// Deposits an event; in the genesis block nothing is recorded.
    pub fn deposit_event(&mut self, event: Event)
        ensures
            final(self)@ == old(self)@.deposit(event),
    {
        if self.block_number == 0 {
            return;
        }
        let phase = match self.execution_phase {
            Some(p) => p,
            None => Phase::Initialization,
        };
        self.events.push(EventRecord { phase, event });
    }
}

} // verus!
