//! Decision logic of a stereo balance tool for the default audio playback
//! endpoint.
//!
//! The library never touches the platform. It says which native call is to be
//! made next, takes what the call gave back and decides from it how to go on.
//! A caller performs the calls and feeds the replies back in:
//!
//! 1. [`Driver::start`] reads the targets off the command line.
//! 2. [`Driver::request`] is the call to make; the caller makes it.
//! 3. [`Driver::step`] takes the [`Reply`] and hands back the driver for the
//!    next call, or the result of the run.
//!
//! A run is over after ten calls at most. [`Volume`] offers the same
//! exchange for single operations.

pub mod args;
pub mod channel;
pub mod driver;
pub mod error;
pub mod native;
pub mod status;
pub mod text;
pub mod volume;

pub use crate::args::{parse_level, parse_targets, Targets, DEFAULT_LEFT, DEFAULT_RIGHT};
pub use crate::channel::Channel;
pub use crate::driver::{balance, Driver, Outcome, Phase, Progress, Run, FALLBACK_LEVEL};
pub use crate::error::{Capability, NativeFunction, VolumeError};
pub use crate::native::{Reply, Request, CONSOLE, RENDER};
pub use crate::status::{is_error, is_null};
pub use crate::volume::{Stage, Volume, VolumeState, MAX_LEVEL};
