//! A filesystem-change watch multiplexer.
//!
//! Callers register files and directories, each tagged with a payload. The
//! library decides which directories have to be put under observation,
//! keeps the tables that map a watch handle back to the registered targets,
//! and turns each raw change notification into the event to deliver, or
//! into nothing. Installing watches, reading notifications and delivering
//! events are the caller's part: the library hands out what to do next and
//! takes back what happened.
//!
//! A session goes through two phases. While it registers, the caller asks
//! `Session::next_request` for the next directory to watch, installs the
//! watch and reports its handle with `Session::installed`, until no request
//! is left. While it runs, the caller hands each notification to
//! `Session::correlate` and does what the reaction says.

pub mod errors;
pub mod guarantees;
pub mod masks;
pub mod model;
pub mod paths;
pub mod session;
pub mod target;

pub use errors::PatrolError;
pub use masks::{dir_created_mask, watch_mask};
pub use session::{Config, Event, Patrol, RawEvent, Reaction, Session};
pub use target::{build_targets, Target, TargetU};
