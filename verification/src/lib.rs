//! A drift-correcting tick engine: it keeps a running time value (counting
//! up, counting down, or tracking local wall-clock time with an offset) and
//! renders it as `"{sign}{HH}:{MM}:{SS}"` once per second for an external
//! sink file. This crate holds the verified core: timestamp arithmetic, the
//! counting modes, the engine's start/stop/tick state machine, and the
//! rate-limited fault reporting rules. The surrounding process (the runtime,
//! the sink I/O, the user interface) drives these functions from outside.

pub mod clock;
pub mod engine;
pub mod fault;
pub mod mode;
pub mod registry;
pub mod render;
