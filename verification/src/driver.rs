//! The one operation of the tool: acquire the endpoint, read the two channel
//! levels and the master level, set the channels, and write the master level
//! back as it was read.

use vstd::prelude::*;
use crate::args::{parse_targets, parsed_targets, Targets};
use crate::channel::Channel;
use crate::error::{Capability, NativeFunction, VolumeError};
use crate::native::{Reply, Request, CONSOLE, RENDER};
use crate::volume::{Stage, Volume, VolumeState, MAX_LEVEL};

verus! {

/// The level that both channels are set to when they are found unequal.
pub const FALLBACK_LEVEL: usize = 100;

/// The levels to write, given the levels that were read: the targets when
/// the two channels are level with each other, else the fallback for both.
pub open spec fn spec_balance(left: usize, right: usize, targets: Targets) -> Targets {
    if left == right {
        targets
    } else {
        Targets { left: FALLBACK_LEVEL, right: FALLBACK_LEVEL }
    }
}

/// Decides the levels to write from the levels `left` and `right` that were
/// read: the targets when the two are equal, else 100 for both channels,
/// whatever the targets ask for.
#[verifier::when_used_as_spec(spec_balance)]
pub fn balance(left: usize, right: usize, targets: Targets) -> (t: Targets)
    ensures
        t == spec_balance(left, right, targets),
{
    if left == right {
        targets
    } else {
        Targets { left: FALLBACK_LEVEL, right: FALLBACK_LEVEL }
    }
}

/// The call that a run is waiting on, with what the run has to remember
/// until it has made its last call.
#[derive(Clone, Copy, Debug, PartialEq, Eq, Structural)]
pub enum Phase {
    /// A call of the acquisition sequence.
    Acquiring,
    /// The read of the left channel.
    ReadingLeft,
    /// The read of the right channel; the left channel stood at `left`.
    ReadingRight { left: usize },
    /// The read of the master level; the channels stood at `left` and `right`.
    ReadingMaster { left: usize, right: usize },
    /// The write of the left channel; then `right` goes to the right channel
    /// and `master` back to the master level.
    WritingLeft { right: usize, master: usize },
    /// The write of the right channel; then `master` goes back to the master
    /// level.
    WritingRight { master: usize },
    /// The write of the master level.
    WritingMaster,
}

/// A run of the tool between two native calls, as contracts speak of it.
pub struct Run {
    /// What the volume controller of the run holds.
    pub volume: VolumeState,
    /// The levels that the command line asked for.
    pub targets: Targets,
    /// The call that the run is waiting on.
    pub phase: Phase,
    /// That call as the caller is to make it.
    pub pending: Request,
}

/// How a run goes on after a reply.
pub enum Outcome {
    /// The run waits on its next call.
    Continue(Run),
    /// The run is over, and this is its result.
    Stop(Result<(), VolumeError>),
}

impl Run {
    /// The run before its first call: nothing is acquired, and the first call
    /// of the acquisition sequence is due.
    pub open spec fn start(targets: Targets) -> Run {
        Run {
            volume: VolumeState { stage: Stage::Runtime, endpoint: None },
            targets,
            phase: Phase::Acquiring,
            pending: Request::CoInitializeEx,
        }
    }

    /// The run goes into `phase` with the call `request`, or ends with the
    /// error that stands in its place.
    pub open spec fn ask(self, phase: Phase, request: Result<Request, VolumeError>) -> Outcome {
        match request {
            Err(e) => Outcome::Stop(Err(e)),
            Ok(pending) => Outcome::Continue(Run { phase, pending, ..self }),
        }
    }

    /// How the run goes on when the call it is waiting on is answered by
    /// `reply`.
    ///
    /// A reply that tells a failure ends the run with that failure, and so
    /// does a write that the controller refuses. Otherwise the calls follow
    /// one another in this order: the acquisition sequence, the reads of the
    /// left channel, the right channel and the master level, the writes of
    /// the left and the right channel with the levels of [`spec_balance`],
    /// and the write of the master level with the level that was read. After
    /// the last write the run ends well.
    pub open spec fn next(self, reply: Reply) -> Outcome {
        match self.phase {
            Phase::Acquiring => {
                let (volume, result) = self.volume.initialize(reply);
                let run = Run { volume, ..self };
                match result {
                    Err(e) => Outcome::Stop(Err(e)),
                    Ok(Some(pending)) => Outcome::Continue(Run { pending, ..run }),
                    Ok(None) => run.ask(
                        Phase::ReadingLeft,
                        volume.get_channel_volume(Channel::Left.index()),
                    ),
                }
            },
            Phase::ReadingLeft => match reply.spec_level(
                NativeFunction::GetChannelVolumeLevelScalar,
            ) {
                Err(e) => Outcome::Stop(Err(e)),
                Ok(left) => self.ask(
                    Phase::ReadingRight { left },
                    self.volume.get_channel_volume(Channel::Right.index()),
                ),
            },
            Phase::ReadingRight { left } => match reply.spec_level(
                NativeFunction::GetChannelVolumeLevelScalar,
            ) {
                Err(e) => Outcome::Stop(Err(e)),
                Ok(right) => self.ask(
                    Phase::ReadingMaster { left, right },
                    self.volume.get_master_volume(),
                ),
            },
            Phase::ReadingMaster { left, right } => match reply.spec_level(
                NativeFunction::GetMasterVolumeLevelScalar,
            ) {
                Err(e) => Outcome::Stop(Err(e)),
                Ok(master) => {
                    let levels = spec_balance(left, right, self.targets);
                    self.ask(
                        Phase::WritingLeft { right: levels.right, master },
                        self.volume.set_channel_volume(Channel::Left.index(), levels.left),
                    )
                },
            },
            Phase::WritingLeft { right, master } => match reply.spec_check(
                NativeFunction::SetChannelVolumeLevelScalar,
            ) {
                Err(e) => Outcome::Stop(Err(e)),
                Ok(_) => self.ask(
                    Phase::WritingRight { master },
                    self.volume.set_channel_volume(Channel::Right.index(), right),
                ),
            },
            Phase::WritingRight { master } => match reply.spec_check(
                NativeFunction::SetChannelVolumeLevelScalar,
            ) {
                Err(e) => Outcome::Stop(Err(e)),
                Ok(_) => self.ask(Phase::WritingMaster, self.volume.set_master_volume(master)),
            },
            Phase::WritingMaster => Outcome::Stop(
                reply.spec_check(NativeFunction::SetMasterVolumeLevelScalar),
            ),
        }
    }

    /// True of the runs that [`Run::start`] and [`Run::next`] lead to: no
    /// object is null, and the pending call is the one that the phase waits
    /// on. Past the acquisition sequence that call goes to the volume
    /// interface that the controller holds, and a write carries a level of at
    /// most 100.
    pub open spec fn wf(self) -> bool {
        &&& self.volume.wf()
        &&& self.pending.names_no_null()
        &&& match self.phase {
            Phase::Acquiring => self.pending == self.volume.stage.request(),
            Phase::ReadingLeft => self.pending matches Request::GetChannelVolumeLevelScalar {
                endpoint,
                channel,
            } && self.volume.endpoint == Some(endpoint) && channel == Channel::Left.index(),
            Phase::ReadingRight { .. } => self.pending matches Request::GetChannelVolumeLevelScalar {
                endpoint,
                channel,
            } && self.volume.endpoint == Some(endpoint) && channel == Channel::Right.index(),
            Phase::ReadingMaster { .. } => self.pending matches Request::GetMasterVolumeLevelScalar {
                endpoint,
            } && self.volume.endpoint == Some(endpoint),
            Phase::WritingLeft { .. } => self.pending matches Request::SetChannelVolumeLevelScalar {
                endpoint,
                channel,
                level,
            } && self.volume.endpoint == Some(endpoint) && channel == Channel::Left.index()
                && level <= MAX_LEVEL,
            Phase::WritingRight { .. } => self.pending matches Request::SetChannelVolumeLevelScalar {
                endpoint,
                channel,
                level,
            } && self.volume.endpoint == Some(endpoint) && channel == Channel::Right.index()
                && level <= MAX_LEVEL,
            Phase::WritingMaster => self.pending matches Request::SetMasterVolumeLevelScalar {
                endpoint,
                level,
            } && self.volume.endpoint == Some(endpoint) && level <= MAX_LEVEL,
        }
    }
}

/// One run of the tool. Its view is the [`Run`] it stands at.
///
/// The driver makes no native call itself: [`Driver::request`] is the call
/// that the caller is to make, and [`Driver::step`] takes the reply.
#[derive(Debug)]
pub struct Driver {
    volume: Volume,
    targets: Targets,
    phase: Phase,
    pending: Request,
}

/// What [`Driver::step`] hands back.
#[derive(Debug)]
pub enum Progress {
    /// The run goes on: the driver waits on its next call.
    Pending(Driver),
    /// The run is over, and this is its result.
    Finished(Result<(), VolumeError>),
}

impl View for Driver {
    type V = Run;

    closed spec fn view(&self) -> Run {
        Run { volume: self.volume@, targets: self.targets, phase: self.phase, pending: self.pending }
    }
}

impl Driver {
    #[verifier::type_invariant]
    spec fn well_formed(self) -> bool {
        self@.wf()
    }

    /// A run that is to bring the channels to `targets`, before its first
    /// call.
    pub fn new(targets: Targets) -> (d: Driver)
        ensures
            d@ == Run::start(targets),
    {
        let volume = Volume::new();
        let pending = volume.acquisition();
        Driver { volume, targets, phase: Phase::Acquiring, pending }
    }

    /// A run for the positional arguments `args` of the command line.
    ///
    /// Arguments that do not parse fail here, before the run exists and so
    /// before any native call can be asked for.
    pub fn start(args: &Vec<String>) -> (r: Result<Driver, VolumeError>)
        ensures
            match parsed_targets(args@) {
                Ok(targets) => r matches Ok(d) && d@ == Run::start(targets),
                Err(e) => r matches Err(f) && f == e,
            },
    {
        match parse_targets(args) {
            Ok(targets) => Ok(Driver::new(targets)),
            Err(e) => Err(e),
        }
    }

    /// The native call that the run is waiting on.
    pub fn request(&self) -> (r: Request)
        ensures
            r == self@.pending,
            r.names_no_null(),
    {
        proof {
            use_type_invariant(self);
        }
        self.pending
    }

    /// Goes into `phase` with the call `request`, or ends the run with the
    /// error that stands in its place.
    fn ask(volume: Volume, targets: Targets, phase: Phase, request: Result<
        Request,
        VolumeError,
    >) -> (p: Progress)
        requires
            request matches Ok(pending) ==> (Run { volume: volume@, targets, phase, pending }).wf(),
        ensures
            match request {
                Ok(pending) => p matches Progress::Pending(d) && d@ == (Run {
                    volume: volume@,
                    targets,
                    phase,
                    pending,
                }),
                Err(e) => p == Progress::Finished(Err(e)),
            },
    {
        match request {
            Err(e) => Progress::Finished(Err(e)),
            Ok(pending) => Progress::Pending(Driver { volume, targets, phase, pending }),
        }
    }

    /// Takes the reply to the call of [`Driver::request`] and goes on as
    /// [`Run::next`] says: to the next call, or to the end of the run.
    pub fn step(self, reply: Reply) -> (p: Progress)
        ensures
            match self@.next(reply) {
                Outcome::Continue(run) => p matches Progress::Pending(d) && d@ == run,
                Outcome::Stop(result) => p == Progress::Finished(result),
            },
    {
        proof {
            use_type_invariant(&self);
        }
        let Driver { volume, targets, phase, pending: _ } = self;
        let mut volume = volume;
        match phase {
            Phase::Acquiring => match volume.initialize(reply) {
                Err(e) => Progress::Finished(Err(e)),
                Ok(Some(pending)) => Progress::Pending(
                    Driver { volume, targets, phase: Phase::Acquiring, pending },
                ),
                Ok(None) => {
                    let request = volume.get_channel_volume(Channel::Left.index());
                    Driver::ask(volume, targets, Phase::ReadingLeft, request)
                },
            },
            Phase::ReadingLeft => match reply.level(NativeFunction::GetChannelVolumeLevelScalar) {
                Err(e) => Progress::Finished(Err(e)),
                Ok(left) => {
                    let request = volume.get_channel_volume(Channel::Right.index());
                    Driver::ask(volume, targets, Phase::ReadingRight { left }, request)
                },
            },
            Phase::ReadingRight { left } => match reply.level(
                NativeFunction::GetChannelVolumeLevelScalar,
            ) {
                Err(e) => Progress::Finished(Err(e)),
                Ok(right) => {
                    let request = volume.get_master_volume();
                    Driver::ask(volume, targets, Phase::ReadingMaster { left, right }, request)
                },
            },
            Phase::ReadingMaster { left, right } => match reply.level(
                NativeFunction::GetMasterVolumeLevelScalar,
            ) {
                Err(e) => Progress::Finished(Err(e)),
                Ok(master) => {
                    let levels = balance(left, right, targets);
                    let request = volume.set_channel_volume(Channel::Left.index(), levels.left);
                    Driver::ask(
                        volume,
                        targets,
                        Phase::WritingLeft { right: levels.right, master },
                        request,
                    )
                },
            },
            Phase::WritingLeft { right, master } => match reply.check(
                NativeFunction::SetChannelVolumeLevelScalar,
            ) {
                Err(e) => Progress::Finished(Err(e)),
                Ok(()) => {
                    let request = volume.set_channel_volume(Channel::Right.index(), right);
                    Driver::ask(volume, targets, Phase::WritingRight { master }, request)
                },
            },
            Phase::WritingRight { master } => match reply.check(
                NativeFunction::SetChannelVolumeLevelScalar,
            ) {
                Err(e) => Progress::Finished(Err(e)),
                Ok(()) => {
                    let request = volume.set_master_volume(master);
                    Driver::ask(volume, targets, Phase::WritingMaster, request)
                },
            },
            Phase::WritingMaster => Progress::Finished(
                reply.check(NativeFunction::SetMasterVolumeLevelScalar),
            ),
        }
    }
}

/// Where the run for `targets` stands once the first `n` of `replies` have
/// come in, each in answer to the call that the run was waiting on. A run
/// that is over stays over.
pub open spec fn after(targets: Targets, replies: Seq<Reply>, n: nat) -> Outcome
    decreases n,
{
    if n == 0 {
        Outcome::Continue(Run::start(targets))
    } else {
        match after(targets, replies, (n - 1) as nat) {
            Outcome::Continue(run) => run.next(replies[n - 1]),
            Outcome::Stop(result) => Outcome::Stop(result),
        }
    }
}

/// True when none of the first `n` of `replies` tells a failure.
pub open spec fn all_succeed(replies: Seq<Reply>, n: nat) -> bool {
    forall|i: int| 0 <= i < n ==> (#[trigger] replies[i]).status >= 0
}

/// True when the replies to the three calls of the acquisition sequence that
/// hand out an object (the second, third and fourth call) each hand one out.
pub open spec fn all_handed_out(replies: Seq<Reply>) -> bool {
    replies[1].value != 0 && replies[2].value != 0 && replies[3].value != 0
}

/// The number of calls that a run has behind it, read off the call that it
/// is waiting on.
pub open spec fn calls_made(run: Run) -> nat {
    match run.phase {
        Phase::Acquiring => match run.volume.stage {
            Stage::Runtime => 0,
            Stage::Enumerator => 1,
            Stage::Endpoint { .. } => 2,
            Stage::Activation { .. } => 3,
        },
        Phase::ReadingLeft => 4,
        Phase::ReadingRight { .. } => 5,
        Phase::ReadingMaster { .. } => 6,
        Phase::WritingLeft { .. } => 7,
        Phase::WritingRight { .. } => 8,
        Phase::WritingMaster => 9,
    }
}

/// Every reply takes a run one call further or ends it.
pub proof fn lemma_next_is_one_call_further(run: Run, reply: Reply)
    ensures
        run.next(reply) matches Outcome::Continue(next) ==> calls_made(next) == calls_made(run)
            + 1,
{
}

/// A run makes ten calls at most: while it goes on it has made as many calls
/// as it has had replies, and the tenth reply ends it, whatever the replies
/// are.
pub proof fn lemma_run_ends_within_ten_calls(targets: Targets, replies: Seq<Reply>, n: nat)
    ensures
        after(targets, replies, n) matches Outcome::Continue(run) ==> calls_made(run) == n && n
            < 10,
        n >= 10 ==> after(targets, replies, n) is Stop,
    decreases n,
{
    if n > 0 {
        lemma_run_ends_within_ten_calls(targets, replies, (n - 1) as nat);
        if let Outcome::Continue(run) = after(targets, replies, (n - 1) as nat) {
            lemma_next_is_one_call_further(run, replies[n - 1]);
        }
    }
}

/// A run that [`Run::wf`] holds of goes on to one that it holds of.
pub proof fn lemma_next_keeps_wf(run: Run, reply: Reply)
    requires
        run.wf(),
    ensures
        run.next(reply) matches Outcome::Continue(next) ==> next.wf(),
{
}

/// Every run on the way from the start is one that [`Run::wf`] holds of, so
/// every call that a run asks for names no null object.
pub proof fn lemma_after_wf(targets: Targets, replies: Seq<Reply>, n: nat)
    ensures
        after(targets, replies, n) matches Outcome::Continue(run) ==> run.wf()
            && run.pending.names_no_null(),
    decreases n,
{
    if n > 0 {
        lemma_after_wf(targets, replies, (n - 1) as nat);
        if let Outcome::Continue(run) = after(targets, replies, (n - 1) as nat) {
            lemma_next_keeps_wf(run, replies[n - 1]);
        }
    }
}

/// The first seven calls of a run whose calls all succeed: the four of the
/// acquisition sequence, each going to the object that the call before it
/// handed out, then the reads of the left channel, the right channel and the
/// master level, all three on the volume interface that was acquired.
pub proof fn lemma_calls_up_to_the_reads(targets: Targets, replies: Seq<Reply>)
    requires
        replies.len() >= 6,
        all_succeed(replies, 6),
        all_handed_out(replies),
    ensures
        after(targets, replies, 0) matches Outcome::Continue(run) && run.pending
            == Request::CoInitializeEx,
        after(targets, replies, 1) matches Outcome::Continue(run) && run.pending
            == Request::CoCreateInstance,
        after(targets, replies, 2) matches Outcome::Continue(run) && run.pending
            == (Request::GetDefaultAudioEndpoint {
            enumerator: replies[1].value,
            data_flow: RENDER,
            role: CONSOLE,
        }),
        after(targets, replies, 3) matches Outcome::Continue(run) && run.pending
            == (Request::Activate { device: replies[2].value }),
        after(targets, replies, 4) matches Outcome::Continue(run) && run.pending
            == (Request::GetChannelVolumeLevelScalar { endpoint: replies[3].value, channel: 0 }),
        after(targets, replies, 5) matches Outcome::Continue(run) && run.pending
            == (Request::GetChannelVolumeLevelScalar { endpoint: replies[3].value, channel: 1 }),
        after(targets, replies, 6) matches Outcome::Continue(run) && run.pending
            == (Request::GetMasterVolumeLevelScalar { endpoint: replies[3].value }) && run.phase
            == (Phase::ReadingMaster { left: replies[4].value, right: replies[5].value })
            && run.volume.endpoint == Some(replies[3].value) && run.targets == targets,
{
    reveal_with_fuel(after, 7);
}

/// Of a run whose calls all succeed, with both channels read at the same
/// level and both targets at most 100: the left channel is set to the left
/// target, then the right channel to the right target, then the master level
/// to the level that was read, and the run ends well.
pub proof fn lemma_level_channels_take_the_targets(targets: Targets, replies: Seq<Reply>)
    requires
        replies.len() == 10,
        all_succeed(replies, 10),
        all_handed_out(replies),
        replies[4].value == replies[5].value,
        targets.left <= 100,
        targets.right <= 100,
        replies[6].value <= 100,
    ensures
        after(targets, replies, 7) matches Outcome::Continue(run) && run.pending
            == (Request::SetChannelVolumeLevelScalar {
            endpoint: replies[3].value,
            channel: 0,
            level: targets.left,
        }),
        after(targets, replies, 8) matches Outcome::Continue(run) && run.pending
            == (Request::SetChannelVolumeLevelScalar {
            endpoint: replies[3].value,
            channel: 1,
            level: targets.right,
        }),
        after(targets, replies, 9) matches Outcome::Continue(run) && run.pending
            == (Request::SetMasterVolumeLevelScalar {
            endpoint: replies[3].value,
            level: replies[6].value,
        }),
        after(targets, replies, 10) == Outcome::Stop(Ok(())),
{
    lemma_calls_up_to_the_reads(targets, replies);
    reveal_with_fuel(after, 5);
}

/// Of a run whose calls all succeed, with the two channels read at different
/// levels: both channels are set to 100, whatever the targets are, then the
/// master level to the level that was read, and the run ends well.
pub proof fn lemma_uneven_channels_take_the_fallback(targets: Targets, replies: Seq<Reply>)
    requires
        replies.len() == 10,
        all_succeed(replies, 10),
        all_handed_out(replies),
        replies[4].value != replies[5].value,
        replies[6].value <= 100,
    ensures
        after(targets, replies, 7) matches Outcome::Continue(run) && run.pending
            == (Request::SetChannelVolumeLevelScalar {
            endpoint: replies[3].value,
            channel: 0,
            level: 100,
        }),
        after(targets, replies, 8) matches Outcome::Continue(run) && run.pending
            == (Request::SetChannelVolumeLevelScalar {
            endpoint: replies[3].value,
            channel: 1,
            level: 100,
        }),
        after(targets, replies, 9) matches Outcome::Continue(run) && run.pending
            == (Request::SetMasterVolumeLevelScalar {
            endpoint: replies[3].value,
            level: replies[6].value,
        }),
        after(targets, replies, 10) == Outcome::Stop(Ok(())),
{
    lemma_calls_up_to_the_reads(targets, replies);
    reveal_with_fuel(after, 5);
}

/// A left target above 100 on level channels ends the run as out of range
/// when the reads are done: no write is asked for.
pub proof fn lemma_left_target_out_of_range_writes_nothing(targets: Targets, replies: Seq<Reply>)
    requires
        replies.len() >= 7,
        all_succeed(replies, 7),
        all_handed_out(replies),
        replies[4].value == replies[5].value,
        targets.left > 100,
    ensures
        after(targets, replies, 7) == Outcome::Stop(
            Err(VolumeError::OutOfRange { level: targets.left }),
        ),
{
    lemma_calls_up_to_the_reads(targets, replies);
    reveal_with_fuel(after, 2);
}

/// A right target above 100 on level channels ends the run as out of range
/// after the left channel was written: the write that was made stays, and
/// nothing is written to the right channel or to the master level.
pub proof fn lemma_right_target_out_of_range_stops_after_left(
    targets: Targets,
    replies: Seq<Reply>,
)
    requires
        replies.len() >= 8,
        all_succeed(replies, 8),
        all_handed_out(replies),
        replies[4].value == replies[5].value,
        targets.left <= 100,
        targets.right > 100,
    ensures
        after(targets, replies, 7) matches Outcome::Continue(run) && run.pending
            == (Request::SetChannelVolumeLevelScalar {
            endpoint: replies[3].value,
            channel: 0,
            level: targets.left,
        }),
        after(targets, replies, 8) == Outcome::Stop(
            Err(VolumeError::OutOfRange { level: targets.right }),
        ),
{
    lemma_calls_up_to_the_reads(targets, replies);
    reveal_with_fuel(after, 3);
}

/// When the lookup of the default endpoint, the third call of a run, fails by
/// its status or hands out no device, the run is over after three calls: the
/// volume interface is never activated, and no level is read or written.
pub proof fn lemma_failed_lookup_ends_run(targets: Targets, replies: Seq<Reply>, n: nat)
    requires
        replies.len() >= 3,
        all_succeed(replies, 2),
        replies[1].value != 0,
        replies[2].status < 0 || replies[2].value == 0,
        n >= 3,
    ensures
        after(targets, replies, 0) matches Outcome::Continue(run) && run.pending
            == Request::CoInitializeEx,
        after(targets, replies, 1) matches Outcome::Continue(run) && run.pending
            == Request::CoCreateInstance,
        after(targets, replies, 2) matches Outcome::Continue(run) && run.pending.function()
            == NativeFunction::GetDefaultAudioEndpoint,
        after(targets, replies, n) == Outcome::Stop(
            Err(
                if replies[2].status < 0 {
                    VolumeError::InitializationFailure {
                        function: NativeFunction::GetDefaultAudioEndpoint,
                        code: replies[2].status,
                    }
                } else {
                    VolumeError::NullCapability { capability: Capability::Device }
                },
            ),
        ),
    decreases n,
{
    if n == 3 {
        reveal_with_fuel(after, 4);
    } else {
        lemma_failed_lookup_ends_run(targets, replies, (n - 1) as nat);
        reveal_with_fuel(after, 3);
    }
}

} // verus!
