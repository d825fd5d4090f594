//! The exchange with the platform: the calls that the library asks for and
//! the replies that it takes back.

use vstd::prelude::*;
use crate::error::{Capability, NativeFunction, VolumeError};
use crate::status::{failure, is_error, is_null};

verus! {

/// The data flow of a playback endpoint, as the enumerator numbers it.
pub const RENDER: u32 = 0;

/// The console role, as the enumerator numbers it.
pub const CONSOLE: u32 = 0;

/// A native call that the caller is to make.
///
/// An object is named by the address at which it lies. A level is a
/// percentage; the caller hands the native interface the scalar `level / 100`.
#[derive(Clone, Copy, Debug, PartialEq, Eq, Structural)]
pub enum Request {
    /// Set up the runtime context of the audio subsystem.
    CoInitializeEx,
    /// Create the device enumerator.
    CoCreateInstance,
    /// Ask `enumerator` for the default endpoint of the given flow and role.
    GetDefaultAudioEndpoint { enumerator: usize, data_flow: u32, role: u32 },
    /// Activate the volume interface of `device`.
    Activate { device: usize },
    /// Read the master level of `endpoint`.
    GetMasterVolumeLevelScalar { endpoint: usize },
    /// Read the level of one channel of `endpoint`.
    GetChannelVolumeLevelScalar { endpoint: usize, channel: u32 },
    /// Write the master level of `endpoint`, with no event context.
    SetMasterVolumeLevelScalar { endpoint: usize, level: usize },
    /// Write the level of one channel of `endpoint`, with no event context.
    SetChannelVolumeLevelScalar { endpoint: usize, channel: u32, level: usize },
}

impl Request {
    /// The native function that the request calls.
    pub open spec fn spec_function(self) -> NativeFunction {
        match self {
            Request::CoInitializeEx => NativeFunction::CoInitializeEx,
            Request::CoCreateInstance => NativeFunction::CoCreateInstance,
            Request::GetDefaultAudioEndpoint { .. } => NativeFunction::GetDefaultAudioEndpoint,
            Request::Activate { .. } => NativeFunction::Activate,
            Request::GetMasterVolumeLevelScalar { .. } => NativeFunction::GetMasterVolumeLevelScalar,
            Request::GetChannelVolumeLevelScalar { .. } => NativeFunction::GetChannelVolumeLevelScalar,
            Request::SetMasterVolumeLevelScalar { .. } => NativeFunction::SetMasterVolumeLevelScalar,
            Request::SetChannelVolumeLevelScalar { .. } => NativeFunction::SetChannelVolumeLevelScalar,
        }
    }

    /// The native function that the request calls.
    #[verifier::when_used_as_spec(spec_function)]
    pub fn function(self) -> (f: NativeFunction)
        ensures
            f == self.spec_function(),
    {
        match self {
            Request::CoInitializeEx => NativeFunction::CoInitializeEx,
            Request::CoCreateInstance => NativeFunction::CoCreateInstance,
            Request::GetDefaultAudioEndpoint { .. } => NativeFunction::GetDefaultAudioEndpoint,
            Request::Activate { .. } => NativeFunction::Activate,
            Request::GetMasterVolumeLevelScalar { .. } => NativeFunction::GetMasterVolumeLevelScalar,
            Request::GetChannelVolumeLevelScalar { .. } => NativeFunction::GetChannelVolumeLevelScalar,
            Request::SetMasterVolumeLevelScalar { .. } => NativeFunction::SetMasterVolumeLevelScalar,
            Request::SetChannelVolumeLevelScalar { .. } => NativeFunction::SetChannelVolumeLevelScalar,
        }
    }

    /// True when no object that the request names lies at address 0.
    pub open spec fn names_no_null(self) -> bool {
        match self {
            Request::CoInitializeEx => true,
            Request::CoCreateInstance => true,
            Request::GetDefaultAudioEndpoint { enumerator, .. } => enumerator != 0,
            Request::Activate { device } => device != 0,
            Request::GetMasterVolumeLevelScalar { endpoint } => endpoint != 0,
            Request::GetChannelVolumeLevelScalar { endpoint, .. } => endpoint != 0,
            Request::SetMasterVolumeLevelScalar { endpoint, .. } => endpoint != 0,
            Request::SetChannelVolumeLevelScalar { endpoint, .. } => endpoint != 0,
        }
    }
}

/// What a native call gave back.
#[derive(Clone, Copy, Debug, PartialEq, Eq, Structural)]
pub struct Reply {
    /// The status code that the call returned.
    pub status: i32,
    /// What the call wrote: for a call of the acquisition sequence the address
    /// of the object it handed out (0 for none), for a call that reads a level
    /// the scalar times 100, rounded to the nearest whole number. A call that
    /// writes nothing leaves it without meaning.
    pub value: usize,
}

impl Reply {
    /// Whether `function` succeeded, going by the status alone.
    pub open spec fn spec_check(self, function: NativeFunction) -> Result<(), VolumeError> {
        if self.status < 0 {
            Err(failure(function, self.status))
        } else {
            Ok(())
        }
    }

    /// Reads the reply to a call of `function` that hands nothing out: the
    /// failure that the status tells, if it tells one.
    pub fn check(self, function: NativeFunction) -> (r: Result<(), VolumeError>)
        ensures
            r == self.spec_check(function),
    {
        is_error(self.status, function)
    }

    /// The level that `function` read, or the failure that its status tells.
    pub open spec fn spec_level(self, function: NativeFunction) -> Result<usize, VolumeError> {
        if self.status < 0 {
            Err(failure(function, self.status))
        } else {
            Ok(self.value)
        }
    }

    /// Reads the reply to a call of `function` that reads a level: the failure
    /// that the status tells, else the level.
    pub fn level(self, function: NativeFunction) -> (r: Result<usize, VolumeError>)
        ensures
            r == self.spec_level(function),
    {
        match is_error(self.status, function) {
            Err(e) => Err(e),
            Ok(()) => Ok(self.value),
        }
    }

    /// The object that `function` handed out, or why there is none: a failure
    /// status comes first, a missing object second.
    pub open spec fn spec_handle(self, function: NativeFunction, capability: Capability) -> Result<
        usize,
        VolumeError,
    > {
        if self.status < 0 {
            Err(failure(function, self.status))
        } else if self.value == 0 {
            Err(VolumeError::NullCapability { capability })
        } else {
            Ok(self.value)
        }
    }

    /// Reads the reply to a call of `function` that hands out `capability`:
    /// the failure that the status tells, else the missing object, else the
    /// address of the object.
    pub fn handle(self, function: NativeFunction, capability: Capability) -> (r: Result<
        usize,
        VolumeError,
    >)
        ensures
            r == self.spec_handle(function, capability),
            r matches Ok(address) ==> address != 0,
    {
        match is_error(self.status, function) {
            Err(e) => Err(e),
            Ok(()) => match is_null(self.value, capability) {
                Err(e) => Err(e),
                Ok(()) => Ok(self.value),
            },
        }
    }
}

} // verus!
