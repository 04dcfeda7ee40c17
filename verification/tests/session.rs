use cevio::{
    Alpha, CallOutcome, CallSequence, Cast, CastBuilder, Cevio, CevioConfig, CevioConfigBuilder,
    CevioError, CloseMode, HostStartResult, NativeCall, NativeError, Speed, Tone, ToneScale,
    Volume,
};

/// A stand-in for the native layer: it writes down every call it is asked to
/// make and fails the call at one position, if one is chosen.
struct Script {
    made: Vec<NativeCall>,
    fail_at: Option<usize>,
}

impl Script {
    fn succeeding() -> Self {
        Script { made: Vec::new(), fail_at: None }
    }

    fn failing_at(position: usize) -> Self {
        Script { made: Vec::new(), fail_at: Some(position) }
    }

    fn perform(&mut self, call: &NativeCall) -> CallOutcome {
        let position: usize = self.made.len();
        self.made.push(call.clone());
        if self.fail_at == Some(position) {
            Err(CevioError::Windows(failure()))
        } else {
            Ok(())
        }
    }
}

fn failure() -> NativeError {
    NativeError { code: -2147467259, message: "Unspecified error".to_string() }
}

fn run(mut sequence: CallSequence, script: &mut Script) -> CallOutcome {
    loop {
        let call = match sequence.next_call() {
            Some(call) => call.clone(),
            None => break,
        };
        let outcome = script.perform(&call);
        sequence.record(outcome);
    }
    assert!(sequence.is_finished());
    sequence.into_outcome().unwrap()
}

fn bring_up(mut session: Cevio, script: &mut Script) -> CallOutcome {
    loop {
        let call = match session.next_call() {
            Some(call) => call.clone(),
            None => break,
        };
        let outcome = script.perform(&call);
        session.record(outcome);
    }
    session.into_outcome().unwrap()
}

fn full_cast() -> Cast {
    Cast {
        cast: Some("X".to_string()),
        volume: Volume::new(1),
        speed: Speed::new(2),
        tone: Tone::new(3),
        tone_scale: ToneScale::new(4),
        alpha: Alpha::new(5),
    }
}

fn full_config() -> CevioConfig {
    CevioConfigBuilder::default()
        .start_host(true)
        .no_wait(true)
        .initial_cast("X")
        .initial_volume(Volume::new(1).unwrap())
        .initial_speed(Speed::new(2).unwrap())
        .initial_tone(Tone::new(3).unwrap())
        .initial_tone_scale(ToneScale::new(4).unwrap())
        .initial_alpha(Alpha::new(5).unwrap())
        .build()
        .unwrap()
}

fn full_cast_calls() -> Vec<NativeCall> {
    vec![
        NativeCall::SetCast("X".to_string()),
        NativeCall::SetVolume(Volume::new(1).unwrap()),
        NativeCall::SetSpeed(Speed::new(2).unwrap()),
        NativeCall::SetTone(Tone::new(3).unwrap()),
        NativeCall::SetToneScale(ToneScale::new(4).unwrap()),
        NativeCall::SetAlpha(Alpha::new(5).unwrap()),
    ]
}

#[test]
fn apply_cast_sets_voice_then_volume() {
    let cast = CastBuilder::default()
        .cast("X")
        .volume(Volume::new(90).unwrap())
        .build()
        .unwrap();
    let mut script = Script::succeeding();
    assert_eq!(run(Cevio::apply_cast(&cast), &mut script), Ok(()));
    assert_eq!(
        script.made,
        vec![NativeCall::SetCast("X".to_string()), NativeCall::SetVolume(Volume::new(90).unwrap())]
    );
}

#[test]
fn apply_cast_stops_when_the_voice_is_refused() {
    let cast = CastBuilder::default()
        .cast("X")
        .volume(Volume::new(90).unwrap())
        .build()
        .unwrap();
    let mut script = Script::failing_at(0);
    assert_eq!(
        run(Cevio::apply_cast(&cast), &mut script),
        Err(CevioError::Windows(failure()))
    );
    assert_eq!(script.made, vec![NativeCall::SetCast("X".to_string())]);
}

#[test]
fn apply_cast_keeps_the_fixed_order() {
    let mut script = Script::succeeding();
    assert_eq!(run(Cevio::apply_cast(&full_cast()), &mut script), Ok(()));
    assert_eq!(script.made, full_cast_calls());
}

#[test]
fn apply_cast_leaves_earlier_calls_in_effect() {
    for position in 0..6usize {
        let mut script = Script::failing_at(position);
        assert_eq!(
            run(Cevio::apply_cast(&full_cast()), &mut script),
            Err(CevioError::Windows(failure()))
        );
        assert_eq!(script.made, full_cast_calls()[..=position].to_vec());
    }
}

#[test]
fn apply_cast_skips_absent_fields() {
    let cast = CastBuilder::default()
        .tone(Tone::new(3).unwrap())
        .alpha(Alpha::new(5).unwrap())
        .build()
        .unwrap();
    let mut script = Script::succeeding();
    assert_eq!(run(Cevio::apply_cast(&cast), &mut script), Ok(()));
    assert_eq!(
        script.made,
        vec![NativeCall::SetTone(Tone::new(3).unwrap()), NativeCall::SetAlpha(Alpha::new(5).unwrap())]
    );
}

#[test]
fn empty_cast_makes_no_call() {
    let sequence = Cevio::apply_cast(&Cast::default());
    assert!(sequence.is_finished());
    assert!(sequence.next_call().is_none());
    assert_eq!(sequence.into_outcome(), Some(Ok(())));
}

#[test]
fn sequence_has_no_outcome_while_a_call_is_pending() {
    let mut sequence = CallSequence::new(vec![NativeCall::CreateService, NativeCall::CreateTalker]);
    assert_eq!(sequence.completed(), 0);
    assert!(!sequence.is_finished());
    sequence.record(Ok(()));
    assert_eq!(sequence.completed(), 1);
    assert!(!sequence.has_failed());
    assert_eq!(sequence.next_call(), Some(&NativeCall::CreateTalker));
    assert_eq!(sequence.into_outcome(), None);
}

#[test]
fn sequence_ignores_outcomes_after_its_end() {
    let mut sequence = CallSequence::new(vec![NativeCall::CreateService]);
    sequence.record(Err(CevioError::ProcessStartFailed));
    sequence.record(Ok(()));
    sequence.record(Err(CevioError::AppTerminated));
    assert!(sequence.has_failed());
    assert_eq!(sequence.completed(), 0);
    assert_eq!(sequence.into_outcome(), Some(Err(CevioError::ProcessStartFailed)));
}

#[test]
fn plain_session_takes_the_hold_and_both_handles() {
    let mut script = Script::succeeding();
    assert_eq!(bring_up(Cevio::new(), &mut script), Ok(()));
    assert_eq!(
        script.made,
        vec![NativeCall::AcquireRuntime, NativeCall::CreateService, NativeCall::CreateTalker]
    );
}

#[test]
fn configured_session_starts_then_sets_in_order() {
    let mut script = Script::succeeding();
    assert_eq!(bring_up(Cevio::with_config(full_config()), &mut script), Ok(()));
    let mut expected = vec![
        NativeCall::AcquireRuntime,
        NativeCall::CreateService,
        NativeCall::CreateTalker,
        NativeCall::StartHost { no_wait: true },
    ];
    expected.extend(full_cast_calls());
    assert_eq!(script.made, expected);
}

#[test]
fn session_without_start_does_not_start_the_host() {
    let config = CevioConfigBuilder::default()
        .no_wait(true)
        .initial_speed(Speed::new(2).unwrap())
        .build()
        .unwrap();
    let mut script = Script::succeeding();
    assert_eq!(bring_up(Cevio::with_config(config), &mut script), Ok(()));
    assert_eq!(
        script.made,
        vec![
            NativeCall::AcquireRuntime,
            NativeCall::CreateService,
            NativeCall::CreateTalker,
            NativeCall::SetSpeed(Speed::new(2).unwrap()),
        ]
    );
}

#[test]
fn refused_hold_is_not_given_back() {
    let mut script = Script::failing_at(0);
    assert_eq!(bring_up(Cevio::new(), &mut script), Err(CevioError::Windows(failure())));
    assert_eq!(script.made, vec![NativeCall::AcquireRuntime]);
}

#[test]
fn failed_service_handle_gives_the_hold_back() {
    let mut script = Script::failing_at(1);
    assert_eq!(bring_up(Cevio::new(), &mut script), Err(CevioError::Windows(failure())));
    assert_eq!(
        script.made,
        vec![NativeCall::AcquireRuntime, NativeCall::CreateService, NativeCall::ReleaseRuntime]
    );
}

#[test]
fn failed_talker_handle_gives_the_hold_back() {
    let mut script = Script::failing_at(2);
    assert_eq!(bring_up(Cevio::new(), &mut script), Err(CevioError::Windows(failure())));
    assert_eq!(
        script.made,
        vec![
            NativeCall::AcquireRuntime,
            NativeCall::CreateService,
            NativeCall::CreateTalker,
            NativeCall::ReleaseRuntime,
        ]
    );
}

#[test]
fn every_late_failure_gives_the_hold_back_once() {
    for position in 1..10usize {
        let mut script = Script::failing_at(position);
        assert_eq!(
            bring_up(Cevio::with_config(full_config()), &mut script),
            Err(CevioError::Windows(failure()))
        );
        assert_eq!(script.made.len(), position + 2);
        assert_eq!(script.made.last(), Some(&NativeCall::ReleaseRuntime));
        let releases: usize =
            script.made.iter().filter(|call| **call == NativeCall::ReleaseRuntime).count();
        assert_eq!(releases, 1);
    }
}

#[test]
fn failure_is_reported_only_after_the_hold_is_back() {
    let mut session = Cevio::new();
    session.record(Ok(()));
    session.record(Err(CevioError::Windows(failure())));
    assert!(!session.is_ready());
    assert_eq!(session.next_call(), Some(&NativeCall::ReleaseRuntime));
    session.record(Err(CevioError::AppTerminated));
    assert_eq!(session.next_call(), None);
    assert_eq!(session.into_outcome(), Some(Err(CevioError::Windows(failure()))));
}

#[test]
fn pending_release_withholds_the_outcome() {
    let mut session = Cevio::new();
    session.record(Ok(()));
    session.record(Err(CevioError::Windows(failure())));
    assert_eq!(session.into_outcome(), None);
}

#[test]
fn session_is_ready_after_its_last_call() {
    let mut session = Cevio::new();
    assert!(!session.is_ready());
    session.record(Ok(()));
    session.record(Ok(()));
    assert!(!session.is_ready());
    session.record(Ok(()));
    assert!(session.is_ready());
    session.record(Err(CevioError::AppTerminated));
    assert!(session.is_ready());
    assert_eq!(session.into_outcome(), Some(Ok(())));
}

#[test]
fn start_code_two_is_executable_not_found() {
    assert_eq!(HostStartResult::from_i32(2), HostStartResult::FileNotFound);
    assert_eq!(Cevio::start(Ok(2)), Err(CevioError::ExecutableNotFound));
}

#[test]
fn start_codes_have_their_meaning() {
    assert_eq!(Cevio::start(Ok(0)), Ok(()));
    assert_eq!(Cevio::start(Ok(1)), Err(CevioError::InstallUnknown));
    assert_eq!(Cevio::start(Ok(3)), Err(CevioError::ProcessStartFailed));
    assert_eq!(Cevio::start(Ok(4)), Err(CevioError::AppTerminated));
    assert_eq!(Cevio::start(Ok(-1)), Err(CevioError::AppTerminated));
    assert_eq!(Cevio::start(Ok(i32::MAX)), Err(CevioError::AppTerminated));
    assert_eq!(Cevio::start(Ok(i32::MIN)), Err(CevioError::AppTerminated));
}

#[test]
fn start_reports_of_every_code() {
    assert_eq!(HostStartResult::from_i32(0), HostStartResult::Succeeded);
    assert_eq!(HostStartResult::from_i32(1), HostStartResult::NotRegistered);
    assert_eq!(HostStartResult::from_i32(3), HostStartResult::StartingFailed);
    assert_eq!(HostStartResult::from_i32(4), HostStartResult::HostError);
    assert_eq!(HostStartResult::Succeeded.into_result(), Ok(()));
    assert_eq!(HostStartResult::HostError.into_result(), Err(CevioError::AppTerminated));
}

#[test]
fn failed_start_call_is_a_native_failure() {
    assert_eq!(Cevio::start(Err(failure())), Err(CevioError::Windows(failure())));
}

#[test]
fn close_modes_have_their_codes() {
    assert_eq!(CloseMode::Interactive.code(), 0);
    assert_eq!(CloseMode::Force.code(), 1);
}

#[test]
fn reported_levels_become_parameters() {
    assert_eq!(Cevio::volume(Ok(30)), Ok(Volume::new(30).unwrap()));
    assert_eq!(Cevio::speed(Ok(0)), Ok(Speed::new(0).unwrap()));
    assert_eq!(Cevio::tone(Ok(100)), Ok(Tone::new(100).unwrap()));
    assert_eq!(Cevio::tone_scale(Ok(51)), Ok(ToneScale::new(51).unwrap()));
    assert_eq!(Cevio::alpha(Ok(99)), Ok(Alpha::new(99).unwrap()));
}

#[test]
fn failed_readings_are_native_failures() {
    assert_eq!(Cevio::volume(Err(failure())), Err(CevioError::Windows(failure())));
    assert_eq!(Cevio::speed(Err(failure())), Err(CevioError::Windows(failure())));
    assert_eq!(Cevio::tone(Err(failure())), Err(CevioError::Windows(failure())));
    assert_eq!(Cevio::tone_scale(Err(failure())), Err(CevioError::Windows(failure())));
    assert_eq!(Cevio::alpha(Err(failure())), Err(CevioError::Windows(failure())));
}
