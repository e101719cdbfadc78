//! Verified core of an EtherCAT master link for chains of AUTD ultrasound
//! devices.
//!
//! The crate models the master's data structures (slave states, the process
//! image, the group record) and proves the decision logic that drives the
//! bus: option validation, distributed-clock synchronization, the PI
//! controller that phase-aligns the cycle thread, and the supervisor that
//! recovers slaves which fall out of the operational state. The raw-socket
//! transport, threads and timers live outside this crate and feed plain
//! values in and out.

pub mod adapters;
pub mod context;
pub mod cycle;
pub mod dc;
pub mod error;
pub mod fmt;
pub mod iomap;
pub mod link;
pub mod message;
pub mod option;
pub mod pool;
pub mod smoothing;
pub mod state;
pub mod status;
pub mod supervisor;

pub use adapters::{EthernetAdapter, EthernetAdapters};
pub use context::Context;
pub use error::SOEMError;
pub use iomap::IOMap;
pub use option::{SOEMOption, TimerStrategy};
pub use pool::TxBufferPool;
pub use state::State;
pub use status::Status;
pub use supervisor::EcatErrorHandler;
