use stereo_volume::{
    balance, Capability, Driver, NativeFunction, Progress, Reply, Request, Targets, VolumeError,
    FALLBACK_LEVEL,
};

const ENUMERATOR: usize = 0x1000;
const DEVICE: usize = 0x2000;
const ENDPOINT: usize = 0x3000;

/// A stand-in for the platform: a stereo endpoint that keeps its levels as
/// scalars, answers every call, and records the calls it gets.
struct Endpoint {
    left: f32,
    right: f32,
    master: f32,
    /// The call that is to fail, with the status it then returns.
    failing: Option<(NativeFunction, usize, i32)>,
    /// The call that is to hand out nothing.
    missing: Option<NativeFunction>,
    calls: Vec<Request>,
}

impl Endpoint {
    fn at(left: usize, right: usize, master: usize) -> Endpoint {
        Endpoint {
            left: left as f32 / 100f32,
            right: right as f32 / 100f32,
            master: master as f32 / 100f32,
            failing: None,
            missing: None,
            calls: Vec::new(),
        }
    }

    /// Lets the `nth` call of `function` (counted from 1) return `status`.
    fn failing(mut self, function: NativeFunction, nth: usize, status: i32) -> Endpoint {
        self.failing = Some((function, nth, status));
        self
    }

    fn missing(mut self, function: NativeFunction) -> Endpoint {
        self.missing = Some(function);
        self
    }

    fn levels(&self) -> (usize, usize, usize) {
        (percent(self.left), percent(self.right), percent(self.master))
    }

    fn writes(&self) -> Vec<Request> {
        self.calls
            .iter()
            .copied()
            .filter(|call| {
                matches!(
                    call,
                    Request::SetMasterVolumeLevelScalar { .. }
                        | Request::SetChannelVolumeLevelScalar { .. }
                )
            })
            .collect()
    }

    fn perform(&mut self, request: Request) -> Reply {
        self.calls.push(request);
        let function = request.function();
        if let Some((failing, nth, status)) = self.failing {
            let so_far = self.calls.iter().filter(|call| call.function() == failing).count();
            if failing == function && so_far == nth {
                return Reply { status, value: 0 };
            }
        }
        if self.missing == Some(function) {
            return Reply { status: 0, value: 0 };
        }
        match request {
            Request::CoInitializeEx => Reply { status: 0, value: 0 },
            Request::CoCreateInstance => Reply { status: 0, value: ENUMERATOR },
            Request::GetDefaultAudioEndpoint { enumerator, data_flow, role } => {
                assert_eq!(enumerator, ENUMERATOR);
                assert_eq!((data_flow, role), (0, 0));
                Reply { status: 0, value: DEVICE }
            }
            Request::Activate { device } => {
                assert_eq!(device, DEVICE);
                Reply { status: 0, value: ENDPOINT }
            }
            Request::GetMasterVolumeLevelScalar { endpoint } => {
                assert_eq!(endpoint, ENDPOINT);
                Reply { status: 0, value: percent(self.master) }
            }
            Request::GetChannelVolumeLevelScalar { endpoint, channel } => {
                assert_eq!(endpoint, ENDPOINT);
                match channel {
                    0 => Reply { status: 0, value: percent(self.left) },
                    1 => Reply { status: 0, value: percent(self.right) },
                    _ => Reply { status: -2147024809, value: 0 },
                }
            }
            Request::SetMasterVolumeLevelScalar { endpoint, level } => {
                assert_eq!(endpoint, ENDPOINT);
                self.master = level as f32 / 100f32;
                Reply { status: 0, value: 0 }
            }
            Request::SetChannelVolumeLevelScalar { endpoint, channel, level } => {
                assert_eq!(endpoint, ENDPOINT);
                match channel {
                    0 => self.left = level as f32 / 100f32,
                    1 => self.right = level as f32 / 100f32,
                    _ => return Reply { status: -2147024809, value: 0 },
                }
                Reply { status: 0, value: 0 }
            }
        }
    }
}

fn percent(scalar: f32) -> usize {
    (scalar * 100f32).round() as usize
}

fn positional(words: &[&str]) -> Vec<String> {
    words.iter().map(|word| word.to_string()).collect()
}

/// Runs the tool for the positional arguments `words` against `endpoint`.
fn run(words: &[&str], endpoint: &mut Endpoint) -> Result<(), VolumeError> {
    let mut driver = Driver::start(&positional(words))?;
    loop {
        let reply = endpoint.perform(driver.request());
        match driver.step(reply) {
            Progress::Pending(next) => driver = next,
            Progress::Finished(result) => return result,
        }
    }
}

fn acquisition_calls() -> Vec<Request> {
    vec![
        Request::CoInitializeEx,
        Request::CoCreateInstance,
        Request::GetDefaultAudioEndpoint { enumerator: ENUMERATOR, data_flow: 0, role: 0 },
        Request::Activate { device: DEVICE },
    ]
}

fn read_calls() -> Vec<Request> {
    vec![
        Request::GetChannelVolumeLevelScalar { endpoint: ENDPOINT, channel: 0 },
        Request::GetChannelVolumeLevelScalar { endpoint: ENDPOINT, channel: 1 },
        Request::GetMasterVolumeLevelScalar { endpoint: ENDPOINT },
    ]
}

#[test]
fn balance_keeps_the_targets_on_level_channels() {
    let targets = Targets { left: 70, right: 55 };
    assert_eq!(balance(40, 40, targets), targets);
    assert_eq!(balance(0, 0, targets), targets);
    assert_eq!(balance(100, 100, Targets { left: 150, right: 3 }), Targets { left: 150, right: 3 });
}

#[test]
fn balance_falls_back_to_100_on_uneven_channels() {
    assert_eq!(FALLBACK_LEVEL, 100);
    let fallback = Targets { left: 100, right: 100 };
    assert_eq!(balance(40, 60, Targets { left: 70, right: 55 }), fallback);
    assert_eq!(balance(60, 40, Targets { left: 0, right: 0 }), fallback);
    assert_eq!(balance(99, 100, Targets { left: 500, right: 500 }), fallback);
}

#[test]
fn level_channels_take_the_requested_targets() {
    let mut endpoint = Endpoint::at(40, 40, 65);
    assert_eq!(run(&["70", "55"], &mut endpoint), Ok(()));
    assert_eq!(endpoint.levels(), (70, 55, 65));
}

#[test]
fn uneven_channels_are_reset_to_100() {
    let mut endpoint = Endpoint::at(40, 60, 65);
    assert_eq!(run(&["70", "55"], &mut endpoint), Ok(()));
    assert_eq!(endpoint.levels(), (100, 100, 65));
}

#[test]
fn no_arguments_apply_the_defaults() {
    let mut endpoint = Endpoint::at(40, 40, 65);
    assert_eq!(run(&[], &mut endpoint), Ok(()));
    assert_eq!(endpoint.levels(), (100, 86, 65));
}

#[test]
fn one_argument_applies_the_defaults() {
    let mut endpoint = Endpoint::at(12, 12, 30);
    assert_eq!(run(&["70"], &mut endpoint), Ok(()));
    assert_eq!(endpoint.levels(), (100, 86, 30));
}

#[test]
fn a_run_makes_ten_calls_in_order() {
    let mut endpoint = Endpoint::at(40, 40, 65);
    assert_eq!(run(&["70", "55"], &mut endpoint), Ok(()));
    let mut expected = acquisition_calls();
    expected.extend(read_calls());
    expected.push(Request::SetChannelVolumeLevelScalar { endpoint: ENDPOINT, channel: 0, level: 70 });
    expected.push(Request::SetChannelVolumeLevelScalar { endpoint: ENDPOINT, channel: 1, level: 55 });
    expected.push(Request::SetMasterVolumeLevelScalar { endpoint: ENDPOINT, level: 65 });
    assert_eq!(endpoint.calls, expected);
}

#[test]
fn the_master_level_is_written_back_as_read() {
    for master in [0usize, 1, 33, 65, 99, 100] {
        let mut endpoint = Endpoint::at(20, 20, master);
        assert_eq!(run(&["10", "90"], &mut endpoint), Ok(()));
        assert_eq!(
            endpoint.writes().last(),
            Some(&Request::SetMasterVolumeLevelScalar { endpoint: ENDPOINT, level: master })
        );
        assert_eq!(endpoint.levels(), (10, 90, master));
    }
}

#[test]
fn uneven_channels_ignore_targets_out_of_range() {
    let mut endpoint = Endpoint::at(40, 60, 65);
    assert_eq!(run(&["150", "999"], &mut endpoint), Ok(()));
    assert_eq!(endpoint.levels(), (100, 100, 65));
}

#[test]
fn bad_arguments_make_no_native_call() {
    let mut endpoint = Endpoint::at(40, 40, 65);
    assert_eq!(
        run(&["loud", "55"], &mut endpoint),
        Err(VolumeError::ArgumentParseFailure { position: 0 })
    );
    assert!(endpoint.calls.is_empty());
    assert_eq!(
        run(&["70", "5.5"], &mut endpoint),
        Err(VolumeError::ArgumentParseFailure { position: 1 })
    );
    assert!(endpoint.calls.is_empty());
    assert_eq!(endpoint.levels(), (40, 40, 65));
}

#[test]
fn left_target_out_of_range_writes_nothing() {
    let mut endpoint = Endpoint::at(40, 40, 65);
    assert_eq!(run(&["101", "55"], &mut endpoint), Err(VolumeError::OutOfRange { level: 101 }));
    assert!(endpoint.writes().is_empty());
    assert_eq!(endpoint.levels(), (40, 40, 65));
    let mut expected = acquisition_calls();
    expected.extend(read_calls());
    assert_eq!(endpoint.calls, expected);
}

#[test]
fn right_target_out_of_range_keeps_the_left_write() {
    let mut endpoint = Endpoint::at(40, 40, 65);
    assert_eq!(run(&["70", "101"], &mut endpoint), Err(VolumeError::OutOfRange { level: 101 }));
    assert_eq!(
        endpoint.writes(),
        vec![Request::SetChannelVolumeLevelScalar { endpoint: ENDPOINT, channel: 0, level: 70 }]
    );
    assert_eq!(endpoint.levels(), (70, 40, 65));
}

#[test]
fn runtime_failure_ends_the_run_after_one_call() {
    let mut endpoint =
        Endpoint::at(40, 40, 65).failing(NativeFunction::CoInitializeEx, 1, -2147417850);
    assert_eq!(
        run(&["70", "55"], &mut endpoint),
        Err(VolumeError::InitializationFailure {
            function: NativeFunction::CoInitializeEx,
            code: -2147417850,
        })
    );
    assert_eq!(endpoint.calls, vec![Request::CoInitializeEx]);
}

#[test]
fn missing_enumerator_ends_the_run() {
    let mut endpoint = Endpoint::at(40, 40, 65).missing(NativeFunction::CoCreateInstance);
    assert_eq!(
        run(&[], &mut endpoint),
        Err(VolumeError::NullCapability { capability: Capability::DeviceEnumerator })
    );
    assert_eq!(endpoint.calls.len(), 2);
}

#[test]
fn failed_lookup_prevents_every_read_and_write() {
    let mut endpoint =
        Endpoint::at(40, 40, 65).failing(NativeFunction::GetDefaultAudioEndpoint, 1, -2147023728);
    assert_eq!(
        run(&["70", "55"], &mut endpoint),
        Err(VolumeError::InitializationFailure {
            function: NativeFunction::GetDefaultAudioEndpoint,
            code: -2147023728,
        })
    );
    assert_eq!(endpoint.calls, acquisition_calls()[..3].to_vec());
    assert_eq!(endpoint.levels(), (40, 40, 65));
}

#[test]
fn missing_device_prevents_every_read_and_write() {
    let mut endpoint = Endpoint::at(40, 40, 65).missing(NativeFunction::GetDefaultAudioEndpoint);
    assert_eq!(
        run(&["70", "55"], &mut endpoint),
        Err(VolumeError::NullCapability { capability: Capability::Device })
    );
    assert_eq!(endpoint.calls, acquisition_calls()[..3].to_vec());
    assert_eq!(endpoint.levels(), (40, 40, 65));
}

#[test]
fn failed_activation_ends_the_run() {
    let mut endpoint = Endpoint::at(40, 40, 65).failing(NativeFunction::Activate, 1, -1);
    assert_eq!(
        run(&["70", "55"], &mut endpoint),
        Err(VolumeError::InitializationFailure { function: NativeFunction::Activate, code: -1 })
    );
    assert_eq!(endpoint.calls, acquisition_calls());
}

#[test]
fn missing_volume_interface_ends_the_run() {
    let mut endpoint = Endpoint::at(40, 40, 65).missing(NativeFunction::Activate);
    assert_eq!(
        run(&["70", "55"], &mut endpoint),
        Err(VolumeError::NullCapability { capability: Capability::EndpointVolume })
    );
    assert_eq!(endpoint.calls, acquisition_calls());
}

#[test]
fn failed_read_ends_the_run_before_any_write() {
    let mut endpoint =
        Endpoint::at(40, 40, 65).failing(NativeFunction::GetChannelVolumeLevelScalar, 2, -7);
    assert_eq!(
        run(&["70", "55"], &mut endpoint),
        Err(VolumeError::NativeOperationFailure {
            function: NativeFunction::GetChannelVolumeLevelScalar,
            code: -7,
        })
    );
    assert_eq!(endpoint.calls.len(), 6);
    assert!(endpoint.writes().is_empty());

    let mut endpoint =
        Endpoint::at(40, 40, 65).failing(NativeFunction::GetMasterVolumeLevelScalar, 1, -8);
    assert_eq!(
        run(&["70", "55"], &mut endpoint),
        Err(VolumeError::NativeOperationFailure {
            function: NativeFunction::GetMasterVolumeLevelScalar,
            code: -8,
        })
    );
    assert_eq!(endpoint.calls.len(), 7);
    assert!(endpoint.writes().is_empty());
}

#[test]
fn failed_right_write_does_not_undo_the_left_write() {
    let mut endpoint =
        Endpoint::at(40, 40, 65).failing(NativeFunction::SetChannelVolumeLevelScalar, 2, -9);
    assert_eq!(
        run(&["70", "55"], &mut endpoint),
        Err(VolumeError::NativeOperationFailure {
            function: NativeFunction::SetChannelVolumeLevelScalar,
            code: -9,
        })
    );
    assert_eq!(endpoint.levels(), (70, 40, 65));
    assert_eq!(endpoint.calls.len(), 9);
}

#[test]
fn failed_master_write_is_the_result_of_the_run() {
    let mut endpoint =
        Endpoint::at(40, 40, 65).failing(NativeFunction::SetMasterVolumeLevelScalar, 1, -10);
    assert_eq!(
        run(&["70", "55"], &mut endpoint),
        Err(VolumeError::NativeOperationFailure {
            function: NativeFunction::SetMasterVolumeLevelScalar,
            code: -10,
        })
    );
    assert_eq!(endpoint.levels(), (70, 55, 65));
    assert_eq!(endpoint.calls.len(), 10);
}

#[test]
fn a_master_level_above_100_cannot_be_written_back() {
    let mut driver = Driver::new(Targets { left: 70, right: 55 });
    let replies = [
        Reply { status: 0, value: 0 },
        Reply { status: 0, value: ENUMERATOR },
        Reply { status: 0, value: DEVICE },
        Reply { status: 0, value: ENDPOINT },
        Reply { status: 0, value: 40 },
        Reply { status: 0, value: 40 },
        Reply { status: 0, value: 120 },
        Reply { status: 0, value: 0 },
    ];
    for reply in replies {
        driver = match driver.step(reply) {
            Progress::Pending(next) => next,
            Progress::Finished(result) => panic!("the run ended early with {:?}", result),
        };
    }
    assert_eq!(
        driver.request(),
        Request::SetChannelVolumeLevelScalar { endpoint: ENDPOINT, channel: 1, level: 55 }
    );
    match driver.step(Reply { status: 0, value: 0 }) {
        Progress::Finished(result) => {
            assert_eq!(result, Err(VolumeError::OutOfRange { level: 120 }))
        }
        Progress::Pending(next) => panic!("the run goes on with {:?}", next.request()),
    }
}

#[test]
fn every_pair_of_levels_follows_the_policy() {
    for left in (0..=100usize).step_by(10) {
        for right in (0..=100usize).step_by(10) {
            let mut endpoint = Endpoint::at(left, right, 50);
            assert_eq!(run(&["31", "62"], &mut endpoint), Ok(()));
            let expected = if left == right { (31, 62, 50) } else { (100, 100, 50) };
            assert_eq!(endpoint.levels(), expected);
        }
    }
}

#[test]
fn a_run_is_over_after_ten_calls_whatever_the_replies() {
    for seed in 0..200usize {
        let mut driver = Driver::new(Targets { left: seed % 120, right: (seed * 7) % 120 });
        let mut calls = 0;
        loop {
            calls += 1;
            assert!(calls <= 10);
            let status = if (seed + calls) % 11 == 0 { -1 } else { (seed % 3) as i32 };
            let value = (seed * 31 + calls * 17) % 103;
            driver = match driver.step(Reply { status, value }) {
                Progress::Pending(next) => next,
                Progress::Finished(_) => break,
            };
        }
    }
}

#[test]
fn no_request_of_a_run_names_a_null_object() {
    let mut endpoint = Endpoint::at(40, 40, 65);
    assert_eq!(run(&["70", "55"], &mut endpoint), Ok(()));
    for call in &endpoint.calls {
        match *call {
            Request::CoInitializeEx | Request::CoCreateInstance => {}
            Request::GetDefaultAudioEndpoint { enumerator, .. } => assert_ne!(enumerator, 0),
            Request::Activate { device } => assert_ne!(device, 0),
            Request::GetMasterVolumeLevelScalar { endpoint }
            | Request::GetChannelVolumeLevelScalar { endpoint, .. }
            | Request::SetMasterVolumeLevelScalar { endpoint, .. }
            | Request::SetChannelVolumeLevelScalar { endpoint, .. } => assert_ne!(endpoint, 0),
        }
    }
}
