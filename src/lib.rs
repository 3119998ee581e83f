//! Routes formatted trace events to a host console, remapping each event's
//! severity tier on the way.
//!
//! [`MakeConsoleWriter`] holds a [`MappedLevels`] table and hands out one
//! [`ConsoleWriter`] per event. A writer gathers the event's bytes and, when
//! flushed, decides the single console call that the host should make.

pub mod factory;
pub mod levels;
mod text;
pub mod writer;

pub use factory::MakeConsoleWriter;
pub use levels::{Level, MappedLevels};
pub use writer::{ConsoleCall, ConsoleMethod, ConsoleWriter, Emission, FlushError, WriterState};
