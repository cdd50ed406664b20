//! Verified core of a process and thread monitoring driver: the shared-memory
//! ring buffer, the bounded device queue, the control-request state machines
//! and the framing of event records.

pub mod barrier;
pub mod error;
pub mod frame;
pub mod ioctl;
pub mod irp;
pub mod irql;
pub mod lifetime;
pub mod mutex;
pub mod notify;
pub mod ring;
pub mod state;
pub mod types;
