//! Native side of a host bridge: typed handlers are erased into one uniform
//! call shape, dispatched from raw JSON byte payloads, and their outcomes are
//! handed back through NUL-terminated buffers and a single error channel.

pub mod buffer;
pub mod error_channel;
pub mod panic_message;
pub mod registration;
pub mod trampoline;
pub mod eraser;
