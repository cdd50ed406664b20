//! The records that the driver reports.

use vstd::prelude::*;

verus! {

#[derive(Debug, Clone, Copy, PartialEq, Eq, Structural)]
pub enum Event {
    Process { parent_id: usize, process_id: usize, create: bool },
    Thread { process_id: usize, thread_id: usize, create: bool },
}

impl Event {
    /// Position of the record's variant in the declaration.
    pub open spec fn variant(self) -> u32 {
        match self {
            Event::Process { .. } => 0,
            Event::Thread { .. } => 1,
        }
    }

    /// The first identifier of the record.
    pub open spec fn first(self) -> u64 {
        match self {
            Event::Process { parent_id, .. } => parent_id as u64,
            Event::Thread { process_id, .. } => process_id as u64,
        }
    }

    /// The second identifier of the record.
    pub open spec fn second(self) -> u64 {
        match self {
            Event::Process { process_id, .. } => process_id as u64,
            Event::Thread { thread_id, .. } => thread_id as u64,
        }
    }

    /// Whether the record reports a creation.
    pub open spec fn created(self) -> bool {
        match self {
            Event::Process { create, .. } => create,
            Event::Thread { create, .. } => create,
        }
    }
}

} // verus!
