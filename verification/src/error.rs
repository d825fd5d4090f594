//! What can go wrong, and the text that a diagnostic shows for it.

use vstd::prelude::*;
use vstd::string::StringExecFns;
use crate::text::{hex_text, push_hex};

verus! {

/// A function of the native audio interface that the tool calls.
#[derive(Clone, Copy, Debug, PartialEq, Eq, Structural)]
pub enum NativeFunction {
    /// Sets up the runtime context of the audio subsystem for this process.
    CoInitializeEx,
    /// Creates the enumerator of audio endpoint devices.
    CoCreateInstance,
    /// Asks the enumerator for the default endpoint.
    GetDefaultAudioEndpoint,
    /// Activates the volume interface of the endpoint.
    Activate,
    GetMasterVolumeLevelScalar,
    GetChannelVolumeLevelScalar,
    SetMasterVolumeLevelScalar,
    SetChannelVolumeLevelScalar,
}

impl NativeFunction {
    /// True of the four functions that acquire the endpoint, false of the four
    /// that read or write a level.
    pub open spec fn spec_is_acquisition(self) -> bool {
        self is CoInitializeEx || self is CoCreateInstance || self is GetDefaultAudioEndpoint
            || self is Activate
    }

    /// Whether the function belongs to the acquisition sequence.
    #[verifier::when_used_as_spec(spec_is_acquisition)]
    pub fn is_acquisition(self) -> (b: bool)
        ensures
            b == self.spec_is_acquisition(),
    {
        match self {
            NativeFunction::CoInitializeEx
            | NativeFunction::CoCreateInstance
            | NativeFunction::GetDefaultAudioEndpoint
            | NativeFunction::Activate => true,
            _ => false,
        }
    }

    /// The name of the function as a diagnostic shows it.
    pub open spec fn spec_name(self) -> Seq<char> {
        match self {
            NativeFunction::CoInitializeEx => "CoInitializeEx"@,
            NativeFunction::CoCreateInstance => "CoCreateInstance"@,
            NativeFunction::GetDefaultAudioEndpoint => "GetDefaultAudioEndpoint"@,
            NativeFunction::Activate => "Activate"@,
            NativeFunction::GetMasterVolumeLevelScalar => "GetMasterVolumeLevelScalar"@,
            NativeFunction::GetChannelVolumeLevelScalar => "GetChannelVolumeLevelScalar"@,
            NativeFunction::SetMasterVolumeLevelScalar => "SetMasterVolumeLevelScalar"@,
            NativeFunction::SetChannelVolumeLevelScalar => "SetChannelVolumeLevelScalar"@,
        }
    }

    /// The name of the function as a diagnostic shows it.
    pub fn name(self) -> (s: &'static str)
        ensures
            s@ == self.spec_name(),
    {
        match self {
            NativeFunction::CoInitializeEx => "CoInitializeEx",
            NativeFunction::CoCreateInstance => "CoCreateInstance",
            NativeFunction::GetDefaultAudioEndpoint => "GetDefaultAudioEndpoint",
            NativeFunction::Activate => "Activate",
            NativeFunction::GetMasterVolumeLevelScalar => "GetMasterVolumeLevelScalar",
            NativeFunction::GetChannelVolumeLevelScalar => "GetChannelVolumeLevelScalar",
            NativeFunction::SetMasterVolumeLevelScalar => "SetMasterVolumeLevelScalar",
            NativeFunction::SetChannelVolumeLevelScalar => "SetChannelVolumeLevelScalar",
        }
    }
}

/// An object that the acquisition sequence expects a native call to hand out.
#[derive(Clone, Copy, Debug, PartialEq, Eq, Structural)]
pub enum Capability {
    /// The enumerator of audio endpoint devices.
    DeviceEnumerator,
    /// The default playback device.
    Device,
    /// The volume interface of the default playback device.
    EndpointVolume,
}

impl Capability {
    /// The name of the native interface that the capability is.
    pub open spec fn spec_name(self) -> Seq<char> {
        match self {
            Capability::DeviceEnumerator => "IMMDeviceEnumerator"@,
            Capability::Device => "IMMDevice"@,
            Capability::EndpointVolume => "IAudioEndpointVolume"@,
        }
    }

    /// The name of the native interface that the capability is.
    pub fn name(self) -> (s: &'static str)
        ensures
            s@ == self.spec_name(),
    {
        match self {
            Capability::DeviceEnumerator => "IMMDeviceEnumerator",
            Capability::Device => "IMMDevice",
            Capability::EndpointVolume => "IAudioEndpointVolume",
        }
    }
}

/// Why an operation of the tool failed.
#[derive(Clone, Copy, Debug, PartialEq, Eq, Structural)]
pub enum VolumeError {
    /// A native call of the acquisition sequence returned a failure status.
    InitializationFailure { function: NativeFunction, code: i32 },
    /// A native call succeeded by its status and yet handed out no object.
    NullCapability { capability: Capability },
    /// A level was to be read or written before the endpoint was acquired.
    NotInitialized,
    /// A level above 100 was to be written.
    OutOfRange { level: usize },
    /// A native call that reads or writes a level returned a failure status.
    NativeOperationFailure { function: NativeFunction, code: i32 },
    /// The positional argument at `position` is no unsigned decimal number.
    ArgumentParseFailure { position: usize },
}

impl VolumeError {
    /// The text of the diagnostic for the error.
    ///
    /// A failure status is shown with the name of the native function and the
    /// code in hexadecimal, a missing object with the name of its interface.
    pub open spec fn spec_message(self) -> Seq<char> {
        match self {
            VolumeError::InitializationFailure { function, code } => "Func: "@
                + function.spec_name() + ", HRESULT: "@ + hex_text(code),
            VolumeError::NativeOperationFailure { function, code } => "Func: "@
                + function.spec_name() + ", HRESULT: "@ + hex_text(code),
            VolumeError::NullCapability { capability } => "Pointer of type \""@
                + capability.spec_name() + "\" is null!"@,
            VolumeError::NotInitialized => "Call initialize function first!"@,
            VolumeError::OutOfRange { .. } => "Volume can't be above 100!"@,
            VolumeError::ArgumentParseFailure { .. } => "Argument is not a valid non-negative integer!"@,
        }
    }

    /// The text of the diagnostic for the error.
    pub fn message(&self) -> (s: String)
        ensures
            s@ == self.spec_message(),
    {
        match self {
            VolumeError::InitializationFailure { function, code }
            | VolumeError::NativeOperationFailure { function, code } => {
                let mut s = String::from_str("Func: ");
                s.append(function.name());
                s.append(", HRESULT: ");
                push_hex(&mut s, *code);
                s
            },
            VolumeError::NullCapability { capability } => {
                let mut s = String::from_str("Pointer of type \"");
                s.append(capability.name());
                s.append("\" is null!");
                s
            },
            VolumeError::NotInitialized => String::from_str("Call initialize function first!"),
            VolumeError::OutOfRange { .. } => String::from_str("Volume can't be above 100!"),
            VolumeError::ArgumentParseFailure { .. } => String::from_str(
                "Argument is not a valid non-negative integer!",
            ),
        }
    }
}

} // verus!
