//! A safety and lifecycle core for a process-to-process texture and
//! byte-buffer sharing engine.
//!
//! The engine itself is an opaque native library reached over a C++ method
//! table; this crate owns everything that makes those calls safe and
//! consistent: the handle acquisition/release state machine, string and
//! buffer marshaling in both directions, numeric width checks, and a uniform
//! error taxonomy. Each capability operation is validated and marshaled here
//! and handed out as an [`call::EngineCall`] description; an embedder performs
//! the foreign call it describes and feeds the raw outcome back through the
//! decoding functions of this crate.

pub mod adapter;
pub mod buffer;
pub mod call;
pub mod error;
pub mod frame;
pub mod graphics;
pub mod logging;
pub mod memory;
pub mod modes;
pub mod preference;
pub mod receiver;
pub mod registry;
pub mod reply;
pub mod sender;
pub mod senders;
pub mod spout;
pub mod system;
pub mod text;

pub use buffer::BoundedOutputBuffer;
pub use call::EngineCall;
pub use error::Error;
pub use preference::DxgiGpuPreference;
pub use spout::RustySpout;
pub use text::NameString;
