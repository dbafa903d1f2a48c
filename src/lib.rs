//! A verified control layer for driving a single-threaded, globally-stateful
//! audio-patch engine (libpd) from several instances.
//!
//! The engine keeps one "current instance" per thread, one hook slot per event
//! category for the whole process, and one outgoing message buffer. This crate
//! decides, with proved contracts, what has to happen to that state: which
//! instance to select and restore around an operation, which hooks to install
//! and to clear, and whether a message under construction may grow or be sent.
//! The calls into the engine itself are made by the caller with the values
//! decided here.

pub mod atom;
pub mod audio;
pub mod callbacks;
pub mod instance;
pub mod message;

pub use atom::Atom;
pub use audio::{AudioCall, AudioDispatch, PdAudioContext};
pub use callbacks::{Callbacks, HookCategory, HookOwner, HookSlots, RecieveError, RegistrationPolicy};
pub use instance::{ActiveInstanceGuard, InstanceId, Restore};
pub use message::{MessageBuilder, SendError, SentMessageInfo};
