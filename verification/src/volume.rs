//! The volume controller: acquiring the volume interface of the default
//! playback endpoint, and asking for reads and writes of its levels.

use vstd::prelude::*;
use crate::error::{Capability, NativeFunction, VolumeError};
use crate::native::{Reply, Request, CONSOLE, RENDER};

verus! {

/// The highest level that can be written: levels are percentages.
pub const MAX_LEVEL: usize = 100;

/// How far the acquisition sequence has come: the call that is due next,
/// with the object that the call before it handed out.
#[derive(Clone, Copy, Debug, PartialEq, Eq, Structural)]
pub enum Stage {
    /// The runtime context is to be set up.
    Runtime,
    /// The device enumerator is to be created.
    Enumerator,
    /// `enumerator` is to be asked for the default playback endpoint.
    Endpoint { enumerator: usize },
    /// The volume interface of `device` is to be activated.
    Activation { device: usize },
}

impl Stage {
    /// The call that is due at this stage. The endpoint that is looked up is
    /// the one of the playback flow in the console role.
    pub open spec fn request(self) -> Request {
        match self {
            Stage::Runtime => Request::CoInitializeEx,
            Stage::Enumerator => Request::CoCreateInstance,
            Stage::Endpoint { enumerator } => Request::GetDefaultAudioEndpoint {
                enumerator,
                data_flow: RENDER,
                role: CONSOLE,
            },
            Stage::Activation { device } => Request::Activate { device },
        }
    }

    /// How the sequence goes on when the call of this stage is answered by
    /// `reply`: the stage that follows, `None` when this was the last call and
    /// `reply.value` is the volume interface, or the error that ends the
    /// sequence. A failure status gives an initialization failure; a call that
    /// succeeds by its status and hands out no object gives a null capability.
    pub open spec fn advance(self, reply: Reply) -> Result<Option<Stage>, VolumeError> {
        match self {
            Stage::Runtime => match reply.spec_check(NativeFunction::CoInitializeEx) {
                Err(e) => Err(e),
                Ok(_) => Ok(Some(Stage::Enumerator)),
            },
            Stage::Enumerator => match reply.spec_handle(
                NativeFunction::CoCreateInstance,
                Capability::DeviceEnumerator,
            ) {
                Err(e) => Err(e),
                Ok(enumerator) => Ok(Some(Stage::Endpoint { enumerator })),
            },
            Stage::Endpoint { .. } => match reply.spec_handle(
                NativeFunction::GetDefaultAudioEndpoint,
                Capability::Device,
            ) {
                Err(e) => Err(e),
                Ok(device) => Ok(Some(Stage::Activation { device })),
            },
            Stage::Activation { .. } => match reply.spec_handle(
                NativeFunction::Activate,
                Capability::EndpointVolume,
            ) {
                Err(e) => Err(e),
                Ok(_) => Ok(None),
            },
        }
    }
}

/// What a volume controller holds, as contracts speak of it.
pub struct VolumeState {
    /// The stage of the acquisition sequence that is due next. A sequence
    /// that has ended, well or badly, leaves the first stage due again.
    pub stage: Stage,
    /// The volume interface of the endpoint, by its address: `None` until an
    /// acquisition sequence has completed.
    pub endpoint: Option<usize>,
}

impl VolumeState {
    /// True when no object that the state holds lies at address 0.
    pub open spec fn wf(self) -> bool {
        self.stage.request().names_no_null() && self.endpoint != Some(0usize)
    }

    /// The state after the call of the stage that was due was answered by
    /// `reply`, and what the caller is told: the next call of the sequence,
    /// `None` when the sequence is complete, or the error that ended it.
    ///
    /// The endpoint changes only when the sequence completes. An error leaves
    /// the first stage due, so that a later sequence starts afresh.
    pub open spec fn initialize(self, reply: Reply) -> (VolumeState, Result<
        Option<Request>,
        VolumeError,
    >) {
        match self.stage.advance(reply) {
            Err(e) => (VolumeState { stage: Stage::Runtime, endpoint: self.endpoint }, Err(e)),
            Ok(Some(next)) => (
                VolumeState { stage: next, endpoint: self.endpoint },
                Ok(Some(next.request())),
            ),
            Ok(None) => (
                VolumeState { stage: Stage::Runtime, endpoint: Some(reply.value) },
                Ok(None),
            ),
        }
    }

    /// The request that reads the master level: none without the volume
    /// interface.
    pub open spec fn get_master_volume(self) -> Result<Request, VolumeError> {
        match self.endpoint {
            None => Err(VolumeError::NotInitialized),
            Some(endpoint) => Ok(Request::GetMasterVolumeLevelScalar { endpoint }),
        }
    }

    /// The request that reads the level of `channel`: none without the volume
    /// interface.
    pub open spec fn get_channel_volume(self, channel: u32) -> Result<Request, VolumeError> {
        match self.endpoint {
            None => Err(VolumeError::NotInitialized),
            Some(endpoint) => Ok(Request::GetChannelVolumeLevelScalar { endpoint, channel }),
        }
    }

    /// The request that writes the master level `volume`: none without the
    /// volume interface, and none for a level above 100.
    pub open spec fn set_master_volume(self, volume: usize) -> Result<Request, VolumeError> {
        match self.endpoint {
            None => Err(VolumeError::NotInitialized),
            Some(endpoint) => if volume > MAX_LEVEL {
                Err(VolumeError::OutOfRange { level: volume })
            } else {
                Ok(Request::SetMasterVolumeLevelScalar { endpoint, level: volume })
            },
        }
    }

    /// The request that writes the level `volume` of `channel`: none without
    /// the volume interface, and none for a level above 100.
    pub open spec fn set_channel_volume(self, channel: u32, volume: usize) -> Result<
        Request,
        VolumeError,
    > {
        match self.endpoint {
            None => Err(VolumeError::NotInitialized),
            Some(endpoint) => if volume > MAX_LEVEL {
                Err(VolumeError::OutOfRange { level: volume })
            } else {
                Ok(Request::SetChannelVolumeLevelScalar { endpoint, channel, level: volume })
            },
        }
    }
}

/// The volume controller of the default playback endpoint.
///
/// It makes no native call itself. [`Volume::acquisition`] and the four
/// operations say which call is to be made; the caller makes it and hands the
/// reply to [`Volume::initialize`], or reads it with [`Reply::level`] or
/// [`crate::status::is_error`].
#[derive(Debug)]
pub struct Volume {
    endpoint_volume: Option<usize>,
    stage: Stage,
}

impl View for Volume {
    type V = VolumeState;

    closed spec fn view(&self) -> VolumeState {
        VolumeState { stage: self.stage, endpoint: self.endpoint_volume }
    }
}

impl Volume {
    #[verifier::type_invariant]
    spec fn well_formed(self) -> bool {
        self@.wf()
    }

    /// A controller that holds no volume interface, with the whole
    /// acquisition sequence before it.
    pub fn new() -> (v: Volume)
        ensures
            v@ == (VolumeState { stage: Stage::Runtime, endpoint: None }),
    {
        Volume { endpoint_volume: None, stage: Stage::Runtime }
    }

    /// The call of the acquisition sequence that is due next.
    pub fn acquisition(&self) -> (r: Request)
        ensures
            r == self@.stage.request(),
            r.names_no_null(),
    {
        proof {
            use_type_invariant(self);
        }
        match self.stage {
            Stage::Runtime => Request::CoInitializeEx,
            Stage::Enumerator => Request::CoCreateInstance,
            Stage::Endpoint { enumerator } => Request::GetDefaultAudioEndpoint {
                enumerator,
                data_flow: RENDER,
                role: CONSOLE,
            },
            Stage::Activation { device } => Request::Activate { device },
        }
    }

    /// Takes the acquisition sequence one call further: `reply` is what the
    /// call of [`Volume::acquisition`] gave back.
    ///
    /// The result is the next call to make, `None` when the sequence is
    /// complete, or the error of a call that failed or handed out nothing.
    /// Only a complete sequence changes what the controller holds: from then
    /// on it holds the volume interface that the last call handed out.
    pub fn initialize(&mut self, reply: Reply) -> (r: Result<Option<Request>, VolumeError>)
        ensures
            (final(self)@, r) == old(self)@.initialize(reply),
            r != Ok::<Option<Request>, VolumeError>(None) ==> final(self)@.endpoint == old(
                self,
            )@.endpoint,
            r matches Ok(Some(request)) ==> request.names_no_null(),
    {
        proof {
            use_type_invariant(&*self);
        }
        let next = match self.stage {
            Stage::Runtime => match reply.check(NativeFunction::CoInitializeEx) {
                Err(e) => Err(e),
                Ok(()) => Ok(Some(Stage::Enumerator)),
            },
            Stage::Enumerator => match reply.handle(
                NativeFunction::CoCreateInstance,
                Capability::DeviceEnumerator,
            ) {
                Err(e) => Err(e),
                Ok(enumerator) => Ok(Some(Stage::Endpoint { enumerator })),
            },
            Stage::Endpoint { .. } => match reply.handle(
                NativeFunction::GetDefaultAudioEndpoint,
                Capability::Device,
            ) {
                Err(e) => Err(e),
                Ok(device) => Ok(Some(Stage::Activation { device })),
            },
            Stage::Activation { .. } => match reply.handle(
                NativeFunction::Activate,
                Capability::EndpointVolume,
            ) {
                Err(e) => Err(e),
                Ok(endpoint) => {
                    self.endpoint_volume = Some(endpoint);
                    Ok(None)
                },
            },
        };
        match next {
            Err(e) => {
                self.stage = Stage::Runtime;
                Err(e)
            },
            Ok(Some(stage)) => {
                self.stage = stage;
                Ok(Some(self.acquisition()))
            },
            Ok(None) => {
                self.stage = Stage::Runtime;
                Ok(None)
            },
        }
    }

    /// Asks for a read of the master level.
    ///
    /// Fails with `NotInitialized` exactly when the controller holds no volume
    /// interface. The level is read off the reply with [`Reply::level`].
    pub fn get_master_volume(&self) -> (r: Result<Request, VolumeError>)
        ensures
            r == self@.get_master_volume(),
            self@.endpoint is None ==> r == Err::<Request, VolumeError>(VolumeError::NotInitialized),
            r matches Ok(request) ==> request.names_no_null(),
    {
        let endpoint = self.get_endpoint_volume()?;
        Ok(Request::GetMasterVolumeLevelScalar { endpoint })
    }

    /// Asks for a read of the level of the channel with index `channel`.
    ///
    /// Fails with `NotInitialized` exactly when the controller holds no volume
    /// interface. The level is read off the reply with [`Reply::level`].
    pub fn get_channel_volume(&self, channel: u32) -> (r: Result<Request, VolumeError>)
        ensures
            r == self@.get_channel_volume(channel),
            self@.endpoint is None ==> r == Err::<Request, VolumeError>(VolumeError::NotInitialized),
            r matches Ok(request) ==> request.names_no_null(),
    {
        let endpoint = self.get_endpoint_volume()?;
        Ok(Request::GetChannelVolumeLevelScalar { endpoint, channel })
    }

    /// Asks for a write of the master level `volume`.
    ///
    /// Fails with `NotInitialized` when the controller holds no volume
    /// interface, else with `OutOfRange` when `volume` is above 100. In both
    /// cases no request comes out, so nothing is written.
    pub fn set_master_volume(&self, volume: usize) -> (r: Result<Request, VolumeError>)
        ensures
            r == self@.set_master_volume(volume),
            self@.endpoint is None ==> r == Err::<Request, VolumeError>(VolumeError::NotInitialized),
            self@.endpoint is Some && volume > MAX_LEVEL ==> r == Err::<Request, VolumeError>(
                VolumeError::OutOfRange { level: volume },
            ),
            r matches Ok(request) ==> request.names_no_null(),
    {
        let endpoint = self.get_endpoint_volume()?;
        if volume > MAX_LEVEL {
            return Err(VolumeError::OutOfRange { level: volume });
        }
        Ok(Request::SetMasterVolumeLevelScalar { endpoint, level: volume })
    }

    /// Asks for a write of the level `volume` of the channel with index
    /// `channel`.
    ///
    /// Fails with `NotInitialized` when the controller holds no volume
    /// interface, else with `OutOfRange` when `volume` is above 100. In both
    /// cases no request comes out, so nothing is written.
    pub fn set_channel_volume(&self, channel: u32, volume: usize) -> (r: Result<
        Request,
        VolumeError,
    >)
        ensures
            r == self@.set_channel_volume(channel, volume),
            self@.endpoint is None ==> r == Err::<Request, VolumeError>(VolumeError::NotInitialized),
            self@.endpoint is Some && volume > MAX_LEVEL ==> r == Err::<Request, VolumeError>(
                VolumeError::OutOfRange { level: volume },
            ),
            r matches Ok(request) ==> request.names_no_null(),
    {
        let endpoint = self.get_endpoint_volume()?;
        if volume > MAX_LEVEL {
            return Err(VolumeError::OutOfRange { level: volume });
        }
        Ok(Request::SetChannelVolumeLevelScalar { endpoint, channel, level: volume })
    }

    /// The volume interface, or `NotInitialized` where the controller holds
    /// none.
    fn get_endpoint_volume(&self) -> (r: Result<usize, VolumeError>)
        ensures
            r == match self@.endpoint {
                None => Err::<usize, VolumeError>(VolumeError::NotInitialized),
                Some(endpoint) => Ok(endpoint),
            },
            r matches Ok(endpoint) ==> endpoint != 0,
    {
        proof {
            use_type_invariant(self);
        }
        if let Some(endpoint) = self.endpoint_volume {
            Ok(endpoint)
        } else {
            Err(VolumeError::NotInitialized)
        }
    }
}

/// A controller holds the volume interface only through a sequence that
/// completed: where it holds none, a reply that does not complete the
/// sequence leaves it holding none, so every read and write is still refused
/// as not initialized.
pub proof fn lemma_unfinished_acquisition_holds_nothing(
    state: VolumeState,
    reply: Reply,
    channel: u32,
    level: usize,
)
    requires
        state.endpoint is None,
        state.initialize(reply).1 != Ok::<Option<Request>, VolumeError>(None),
    ensures
        state.initialize(reply).0.endpoint is None,
        state.initialize(reply).0.get_master_volume() == Err::<Request, VolumeError>(
            VolumeError::NotInitialized,
        ),
        state.initialize(reply).0.get_channel_volume(channel) == Err::<Request, VolumeError>(
            VolumeError::NotInitialized,
        ),
        state.initialize(reply).0.set_master_volume(level) == Err::<Request, VolumeError>(
            VolumeError::NotInitialized,
        ),
        state.initialize(reply).0.set_channel_volume(channel, level) == Err::<Request, VolumeError>(
            VolumeError::NotInitialized,
        ),
{
}

/// The lookup of the default endpoint is the third call of the sequence. When
/// it fails, by its status or by handing out no device, the sequence ends
/// there with an error: no activation is asked for, and the controller holds
/// what it held before.
pub proof fn lemma_failed_lookup_ends_acquisition(state: VolumeState, reply: Reply)
    requires
        state.stage is Endpoint,
        reply.status < 0 || reply.value == 0,
    ensures
        state.initialize(reply).1 is Err,
        state.initialize(reply).1 == Err::<Option<Request>, VolumeError>(
            if reply.status < 0 {
                VolumeError::InitializationFailure {
                    function: NativeFunction::GetDefaultAudioEndpoint,
                    code: reply.status,
                }
            } else {
                VolumeError::NullCapability { capability: Capability::Device }
            },
        ),
        state.initialize(reply).0.endpoint == state.endpoint,
{
}

/// A state that names no null object is followed by one that names none, and
/// the call it asks for next names none either.
pub proof fn lemma_initialize_keeps_wf(state: VolumeState, reply: Reply)
    requires
        state.wf(),
    ensures
        state.initialize(reply).0.wf(),
        state.initialize(reply).1 matches Ok(Some(request)) ==> request.names_no_null()
            && request.function().is_acquisition(),
{
}

/// What the controller adds to a write that is read back: nothing. A level of
/// at most 100 goes into the write request as it is, and a level that a
/// successful read gives comes out as it is. So where the endpoint gives
/// the level that was written, the read gives that level.
pub proof fn lemma_level_passes_unchanged(state: VolumeState, channel: u32, level: usize, reply: Reply)
    requires
        state.endpoint is Some,
        level <= MAX_LEVEL,
        reply.status >= 0,
        reply.value == level,
    ensures
        state.set_channel_volume(channel, level) == Ok::<Request, VolumeError>(
            Request::SetChannelVolumeLevelScalar {
                endpoint: state.endpoint->0,
                channel,
                level,
            },
        ),
        state.set_master_volume(level) == Ok::<Request, VolumeError>(
            Request::SetMasterVolumeLevelScalar { endpoint: state.endpoint->0, level },
        ),
        reply.spec_level(NativeFunction::GetChannelVolumeLevelScalar) == Ok::<usize, VolumeError>(
            level,
        ),
        reply.spec_level(NativeFunction::GetMasterVolumeLevelScalar) == Ok::<usize, VolumeError>(
            level,
        ),
{
}

} // verus!
