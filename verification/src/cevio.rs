//! The session: how it is brought up, which calls a cast configuration
//! stands for, and how the answers of the host are read.
//!
//! A session is brought up call by call. `Cevio` names the next call, the
//! caller makes it and records how it went, until the session is ready or has
//! failed. A session that fails after it took its hold on the native runtime
//! asks for the hold to be given back before it reports the failure.

use vstd::prelude::*;
use crate::cast::{level_of, name_of, Cast, CastView};
use crate::config::{CevioConfig, CevioConfigView};
use crate::error::{CevioError, NativeError};
use crate::host::{calls_view, HostStartResult, NativeCall, NativeCallView};
use crate::parameter::{level_in_range, Alpha, Speed, Tone, ToneScale, Volume};
use crate::sequence::{
    leading_successes, lemma_stops_at_first_failure, CallOutcome, CallSequence, CallSequenceView,
};

verus! {

/// The list that holds `call`, or the empty list where there is none.
pub open spec fn optional_call(call: Option<NativeCallView>) -> Seq<NativeCallView> {
    match call {
        Some(c) => seq![c],
        None => seq![],
    }
}

/// The call that selects the voice of `cast`, where it names one.
pub open spec fn voice_call(cast: CastView) -> Option<NativeCallView> {
    match cast.cast {
        Some(name) => Some(NativeCallView::SetCast(name)),
        None => None,
    }
}

/// The call that sets the volume of `cast`, where it names one.
pub open spec fn volume_call(cast: CastView) -> Option<NativeCallView> {
    match cast.volume {
        Some(level) => Some(NativeCallView::SetVolume(level)),
        None => None,
    }
}

/// The call that sets the speed of `cast`, where it names one.
pub open spec fn speed_call(cast: CastView) -> Option<NativeCallView> {
    match cast.speed {
        Some(level) => Some(NativeCallView::SetSpeed(level)),
        None => None,
    }
}

/// The call that sets the tone of `cast`, where it names one.
pub open spec fn tone_call(cast: CastView) -> Option<NativeCallView> {
    match cast.tone {
        Some(level) => Some(NativeCallView::SetTone(level)),
        None => None,
    }
}

/// The call that sets the tone scale of `cast`, where it names one.
pub open spec fn tone_scale_call(cast: CastView) -> Option<NativeCallView> {
    match cast.tone_scale {
        Some(level) => Some(NativeCallView::SetToneScale(level)),
        None => None,
    }
}

/// The call that sets the alpha of `cast`, where it names one.
pub open spec fn alpha_call(cast: CastView) -> Option<NativeCallView> {
    match cast.alpha {
        Some(level) => Some(NativeCallView::SetAlpha(level)),
        None => None,
    }
}

/// The calls that apply `cast`: one for each field that is set, the voice
/// first, then volume, speed, tone, tone scale and alpha.
pub open spec fn cast_calls(cast: CastView) -> Seq<NativeCallView> {
    optional_call(voice_call(cast)) + optional_call(volume_call(cast)) + optional_call(
        speed_call(cast),
    ) + optional_call(tone_call(cast)) + optional_call(tone_scale_call(cast)) + optional_call(
        alpha_call(cast),
    )
}

/// The calls that every session is brought up with: the hold on the runtime,
/// then the two handles.
pub open spec fn setup_calls() -> Seq<NativeCallView> {
    seq![
        NativeCallView::AcquireRuntime,
        NativeCallView::CreateService,
        NativeCallView::CreateTalker,
    ]
}

/// The calls that bring a session up as `config` says: the hold on the
/// runtime and the two handles, the start of the host if it is asked for,
/// then the calls of the first voice and levels.
pub open spec fn bring_up_calls(config: CevioConfigView) -> Seq<NativeCallView> {
    let start = if config.start_host {
        seq![NativeCallView::StartHost { no_wait: config.no_wait }]
    } else {
        seq![]
    };
    setup_calls() + start + cast_calls(config.initial)
}

/// What `call` says, where there is one.
pub open spec fn optional_view(call: Option<NativeCall>) -> Option<NativeCallView> {
    match call {
        Some(c) => Some(c@),
        None => None,
    }
}

/// Adds `call` to `calls`, where there is one.
fn push_optional(
    calls: &mut Vec<NativeCall>,
    call: Option<NativeCall>,
    Ghost(base): Ghost<Seq<NativeCallView>>,
    Ghost(added): Ghost<Seq<NativeCallView>>,
)
    requires
        calls_view(old(calls)@) == base + added,
    ensures
        calls_view(final(calls)@) == base + (added + optional_call(optional_view(call))),
{
    if let Some(c) = call {
        calls.push(c);
        assert(calls_view(calls@) =~= calls_view(old(calls)@).push(c@));
        assert((base + added).push(c@) =~= base + (added + seq![c@]));
    } else {
        assert(calls_view(calls@) =~= base + (added + Seq::<NativeCallView>::empty()));
    }
}

/// Adds the calls of a cast configuration, given field by field, to `calls`.
fn push_cast_calls(
    calls: &mut Vec<NativeCall>,
    name: &Option<String>,
    volume: Option<Volume>,
    speed: Option<Speed>,
    tone: Option<Tone>,
    tone_scale: Option<ToneScale>,
    alpha: Option<Alpha>,
)
    ensures
        calls_view(final(calls)@) == calls_view(old(calls)@) + cast_calls(
            CastView {
                cast: name_of(*name),
                volume: level_of(volume),
                speed: level_of(speed),
                tone: level_of(tone),
                tone_scale: level_of(tone_scale),
                alpha: level_of(alpha),
            },
        ),
{
    let ghost base = calls_view(calls@);
    let ghost cast = CastView {
        cast: name_of(*name),
        volume: level_of(volume),
        speed: level_of(speed),
        tone: level_of(tone),
        tone_scale: level_of(tone_scale),
        alpha: level_of(alpha),
    };
    let ghost a = optional_call(voice_call(cast));
    let ghost b = a + optional_call(volume_call(cast));
    let ghost c = b + optional_call(speed_call(cast));
    let ghost d = c + optional_call(tone_call(cast));
    let ghost e = d + optional_call(tone_scale_call(cast));
    assert(base =~= base + Seq::<NativeCallView>::empty());
    assert(Seq::<NativeCallView>::empty() + a =~= a);
    let set_cast = match name {
        Some(n) => Some(NativeCall::SetCast(n.clone())),
        None => None,
    };
    assert(optional_view(set_cast) == voice_call(cast));
    push_optional(calls, set_cast, Ghost(base), Ghost(Seq::empty()));
    let set_volume = match volume {
        Some(level) => Some(NativeCall::SetVolume(level)),
        None => None,
    };
    assert(optional_view(set_volume) == volume_call(cast));
    push_optional(calls, set_volume, Ghost(base), Ghost(a));
    let set_speed = match speed {
        Some(level) => Some(NativeCall::SetSpeed(level)),
        None => None,
    };
    assert(optional_view(set_speed) == speed_call(cast));
    push_optional(calls, set_speed, Ghost(base), Ghost(b));
    let set_tone = match tone {
        Some(level) => Some(NativeCall::SetTone(level)),
        None => None,
    };
    assert(optional_view(set_tone) == tone_call(cast));
    push_optional(calls, set_tone, Ghost(base), Ghost(c));
    let set_tone_scale = match tone_scale {
        Some(level) => Some(NativeCall::SetToneScale(level)),
        None => None,
    };
    assert(optional_view(set_tone_scale) == tone_scale_call(cast));
    push_optional(calls, set_tone_scale, Ghost(base), Ghost(d));
    let set_alpha = match alpha {
        Some(level) => Some(NativeCall::SetAlpha(level)),
        None => None,
    };
    assert(optional_view(set_alpha) == alpha_call(cast));
    push_optional(calls, set_alpha, Ghost(base), Ghost(e));
}

/// Where a session stands while it is brought up: the calls that bring it
/// up, and whether its hold on the runtime was given back.
pub struct CevioView {
    pub bring_up: CallSequenceView,
    pub released: bool,
}

impl CevioView {
    /// The session that `config` describes, before any call was made.
    pub open spec fn fresh(config: CevioConfigView) -> CevioView {
        CevioView { bring_up: CallSequenceView::fresh(bring_up_calls(config)), released: false }
    }

    /// Whether the hold on the runtime has yet to be given back: a call
    /// failed after the hold was taken.
    pub open spec fn release_owed(self) -> bool {
        self.bring_up.failure is Some && self.bring_up.done >= 1 && !self.released
    }

    /// The call to make next: the next one that brings the session up, then,
    /// where one of them failed, the one that gives the hold back.
    pub open spec fn pending(self) -> Option<NativeCallView> {
        if self.bring_up.pending() is Some {
            self.bring_up.pending()
        } else if self.release_owed() {
            Some(NativeCallView::ReleaseRuntime)
        } else {
            None
        }
    }

    /// The session after the pending call went as `outcome` says. How giving
    /// the hold back went makes no difference. Without a pending call
    /// nothing changes.
    pub open spec fn after(self, outcome: CallOutcome) -> CevioView {
        if self.bring_up.pending() is Some {
            CevioView { bring_up: self.bring_up.after(outcome), ..self }
        } else if self.release_owed() {
            CevioView { released: true, ..self }
        } else {
            self
        }
    }

    /// What bringing the session up came to, nothing while a call is
    /// pending.
    pub open spec fn outcome(self) -> Option<CallOutcome> {
        if self.pending() is None {
            self.bring_up.outcome()
        } else {
            None
        }
    }

    /// The session after `outcomes` were recorded one after the other.
    pub open spec fn after_all(self, outcomes: Seq<CallOutcome>) -> CevioView
        decreases outcomes.len(),
    {
        if outcomes.len() == 0 {
            self
        } else {
            self.after_all(outcomes.drop_last()).after(outcomes.last())
        }
    }

    /// The calls that were made while `outcomes` were recorded one after the
    /// other: each outcome answers the call that was pending when it came.
    pub open spec fn issued(self, outcomes: Seq<CallOutcome>) -> Seq<NativeCallView>
        decreases outcomes.len(),
    {
        if outcomes.len() == 0 {
            Seq::empty()
        } else {
            let earlier = self.issued(outcomes.drop_last());
            match self.after_all(outcomes.drop_last()).pending() {
                Some(call) => earlier.push(call),
                None => earlier,
            }
        }
    }
}

/// A session on its way up.
#[derive(Debug)]
pub struct Cevio {
    bring_up: CallSequence,
    released: bool,
    give_back: NativeCall,
}

impl View for Cevio {
    type V = CevioView;

    closed spec fn view(&self) -> CevioView {
        CevioView { bring_up: self.bring_up@, released: self.released }
    }
}

impl Cevio {
    #[verifier::type_invariant]
    spec fn gives_back_the_hold(self) -> bool {
        self.give_back@ == NativeCallView::ReleaseRuntime
    }

    /// A session that sets nothing and starts nothing while it is brought up.
    pub fn new() -> (session: Self)
        ensures
            session@ == CevioView::fresh(CevioConfigView::empty()),
    {
        Self::with_config(CevioConfig::default())
    }

    /// A session that is brought up as `config` says.
    pub fn with_config(config: CevioConfig) -> (session: Self)
        ensures
            session@ == CevioView::fresh(config@),
    {
        let mut calls: Vec<NativeCall> = Vec::new();
        calls.push(NativeCall::AcquireRuntime);
        calls.push(NativeCall::CreateService);
        calls.push(NativeCall::CreateTalker);
        assert(calls_view(calls@) =~= setup_calls());
        if config.start_host {
            calls.push(NativeCall::StartHost { no_wait: config.no_wait });
            assert(calls_view(calls@) =~= setup_calls() + seq![
                NativeCallView::StartHost { no_wait: config.no_wait },
            ]);
        } else {
            assert(calls_view(calls@) =~= setup_calls() + Seq::<NativeCallView>::empty());
        }
        push_cast_calls(
            &mut calls,
            &config.initial_cast,
            config.initial_volume,
            config.initial_speed,
            config.initial_tone,
            config.initial_tone_scale,
            config.initial_alpha,
        );
        Cevio {
            bring_up: CallSequence::new(calls),
            released: false,
            give_back: NativeCall::ReleaseRuntime,
        }
    }

    /// The call to make next, or nothing when the session is ready or has
    /// failed for good.
    pub fn next_call(&self) -> (call: Option<&NativeCall>)
        ensures
            match call {
                Some(c) => self@.pending() == Some(c@),
                None => self@.pending() is None,
            },
    {
        proof {
            use_type_invariant(self);
        }
        match self.bring_up.next_call() {
            Some(call) => Some(call),
            None => {
                if self.bring_up.has_failed() && self.bring_up.completed() >= 1 && !self.released {
                    Some(&self.give_back)
                } else {
                    None
                }
            },
        }
    }

    /// Records how the pending call went. Without a pending call nothing
    /// changes.
    pub fn record(&mut self, outcome: CallOutcome)
        ensures
            final(self)@ == old(self)@.after(outcome),
    {
        proof {
            use_type_invariant(&*self);
        }
        if !self.bring_up.is_finished() {
            self.bring_up.record(outcome);
        } else if self.bring_up.has_failed() && self.bring_up.completed() >= 1 && !self.released {
            self.released = true;
        }
    }

    /// Whether the session is up: every call that brings it up succeeded.
    pub fn is_ready(&self) -> (ready: bool)
        ensures
            ready == (self@.outcome() == Some(Ok::<(), CevioError>(()))),
    {
        self.bring_up.is_finished() && !self.bring_up.has_failed()
    }

    /// What bringing the session up came to: success, or the first failure
    /// once the hold on the runtime is given back; nothing while a call is
    /// pending.
    pub fn into_outcome(self) -> (outcome: Option<CallOutcome>)
        ensures
            outcome == self@.outcome(),
    {
        let owed = self.bring_up.has_failed() && self.bring_up.completed() >= 1 && !self.released;
        if owed {
            None
        } else {
            self.bring_up.into_outcome()
        }
    }

    /// Reads the host's answer to the question for the volume: the failure of
    /// the call, or the volume of the level it returned. A level outside the
    /// range breaks the host's word and is not an answer to read.
    pub fn volume(reply: Result<u32, NativeError>) -> (level: Result<Volume, CevioError>)
        requires
            reply matches Ok(raw) ==> level_in_range(raw as int),
        ensures
            match reply {
                Ok(raw) => level matches Ok(v) && v@ == raw,
                Err(e) => level == Err::<Volume, CevioError>(CevioError::Windows(e)),
            },
    {
        match reply {
            Ok(raw) => Ok(Volume::new(raw as u8).unwrap()),
            Err(e) => Err(CevioError::Windows(e)),
        }
    }

    /// Reads the host's answer to the question for the speed: the failure of
    /// the call, or the speed of the level it returned. A level outside the
    /// range breaks the host's word and is not an answer to read.
    pub fn speed(reply: Result<u32, NativeError>) -> (level: Result<Speed, CevioError>)
        requires
            reply matches Ok(raw) ==> level_in_range(raw as int),
        ensures
            match reply {
                Ok(raw) => level matches Ok(v) && v@ == raw,
                Err(e) => level == Err::<Speed, CevioError>(CevioError::Windows(e)),
            },
    {
        match reply {
            Ok(raw) => Ok(Speed::new(raw as u8).unwrap()),
            Err(e) => Err(CevioError::Windows(e)),
        }
    }

    /// Reads the host's answer to the question for the tone: the failure of
    /// the call, or the tone of the level it returned. A level outside the
    /// range breaks the host's word and is not an answer to read.
    pub fn tone(reply: Result<u32, NativeError>) -> (level: Result<Tone, CevioError>)
        requires
            reply matches Ok(raw) ==> level_in_range(raw as int),
        ensures
            match reply {
                Ok(raw) => level matches Ok(v) && v@ == raw,
                Err(e) => level == Err::<Tone, CevioError>(CevioError::Windows(e)),
            },
    {
        match reply {
            Ok(raw) => Ok(Tone::new(raw as u8).unwrap()),
            Err(e) => Err(CevioError::Windows(e)),
        }
    }

    /// Reads the host's answer to the question for the tone scale: the failure of
    /// the call, or the tone scale of the level it returned. A level outside the
    /// range breaks the host's word and is not an answer to read.
    pub fn tone_scale(reply: Result<u32, NativeError>) -> (level: Result<ToneScale, CevioError>)
        requires
            reply matches Ok(raw) ==> level_in_range(raw as int),
        ensures
            match reply {
                Ok(raw) => level matches Ok(v) && v@ == raw,
                Err(e) => level == Err::<ToneScale, CevioError>(CevioError::Windows(e)),
            },
    {
        match reply {
            Ok(raw) => Ok(ToneScale::new(raw as u8).unwrap()),
            Err(e) => Err(CevioError::Windows(e)),
        }
    }

    /// Reads the host's answer to the question for the alpha: the failure of
    /// the call, or the alpha of the level it returned. A level outside the
    /// range breaks the host's word and is not an answer to read.
    pub fn alpha(reply: Result<u32, NativeError>) -> (level: Result<Alpha, CevioError>)
        requires
            reply matches Ok(raw) ==> level_in_range(raw as int),
        ensures
            match reply {
                Ok(raw) => level matches Ok(v) && v@ == raw,
                Err(e) => level == Err::<Alpha, CevioError>(CevioError::Windows(e)),
            },
    {
        match reply {
            Ok(raw) => Ok(Alpha::new(raw as u8).unwrap()),
            Err(e) => Err(CevioError::Windows(e)),
        }
    }

    /// The calls that apply `cast` to a session that is up, to be made in
    /// order until one fails.
    pub fn apply_cast(cast: &Cast) -> (sequence: CallSequence)
        ensures
            sequence@ == CallSequenceView::fresh(cast_calls(cast@)),
    {
        let mut calls: Vec<NativeCall> = Vec::new();
        assert(calls_view(calls@) =~= Seq::<NativeCallView>::empty());
        push_cast_calls(
            &mut calls,
            &cast.cast,
            cast.volume,
            cast.speed,
            cast.tone,
            cast.tone_scale,
            cast.alpha,
        );
        assert(Seq::<NativeCallView>::empty() + cast_calls(cast@) =~= cast_calls(cast@));
        CallSequence::new(calls)
    }

    /// Reads the host's answer to a start: the failure of the call itself,
    /// or what the returned code means.
    pub fn start(reply: Result<i32, NativeError>) -> (outcome: CallOutcome)
        ensures
            outcome == match reply {
                Ok(code) => HostStartResult::of_code(code).outcome(),
                Err(e) => Err(CevioError::Windows(e)),
            },
    {
        match reply {
            Ok(code) => HostStartResult::from_i32(code).into_result(),
            Err(e) => Err(CevioError::Windows(e)),
        }
    }
}

/// The calls that apply a cast configuration set a voice or a level and
/// nothing else, and there are at most six of them.
pub proof fn lemma_cast_calls_only_set(cast: CastView)
    ensures
        cast_calls(cast).len() <= 6,
        forall|i: int|
            0 <= i < cast_calls(cast).len() ==> {
                let call = #[trigger] cast_calls(cast)[i];
                call is SetCast || call is SetVolume || call is SetSpeed || call is SetTone
                    || call is SetToneScale || call is SetAlpha
            },
{
}

/// The calls that bring a session up begin with the hold on the runtime and
/// the two handles; the hold is taken once, at the start, and no call among
/// them gives it back.
pub proof fn lemma_bring_up_calls_shape(config: CevioConfigView)
    ensures
        bring_up_calls(config).len() >= 3,
        bring_up_calls(config).take(3) == setup_calls(),
        forall|i: int|
            0 <= i < bring_up_calls(config).len() ==> #[trigger] bring_up_calls(config)[i]
                !is ReleaseRuntime,
        forall|i: int|
            1 <= i < bring_up_calls(config).len() ==> #[trigger] bring_up_calls(config)[i]
                !is AcquireRuntime,
{
    let calls = bring_up_calls(config);
    lemma_cast_calls_only_set(config.initial);
    assert(calls.take(3) =~= setup_calls());
}

/// A session is brought up call by call, in order, and gives its hold on the
/// runtime back when it fails after taking it. With `k` outcomes before the
/// first failure:
/// - if `k` reaches the number of calls, every call was made, none of them
///   gave the hold back, and the session is up;
/// - else if a failure follows, the first `k + 1` calls were made; if the
///   failed call is the first, the one that takes the hold, the session has
///   come to that failure; if it is a later one, the call that gives the
///   hold back is pending, and once its outcome has come too (whatever it
///   is) it was made after the others and the session has come to the
///   failure;
/// - else exactly the first `k` calls were made, and the next one is pending.
pub proof fn lemma_bring_up_gives_hold_back(config: CevioConfigView, outcomes: Seq<CallOutcome>)
    ensures
        ({
            let calls = bring_up_calls(config);
            let k = leading_successes(outcomes);
            let start = CevioView::fresh(config);
            let end = start.after_all(outcomes);
            let made = start.issued(outcomes);
            &&& k <= outcomes.len()
            &&& end.bring_up == CallSequenceView::fresh(calls).after_all(outcomes)
            &&& if k >= calls.len() {
                &&& made == calls
                &&& !end.released
                &&& end.outcome() == Some(Ok::<(), CevioError>(()))
            } else if k < outcomes.len() {
                &&& outcomes[k as int] is Err
                &&& if k == 0 {
                    &&& made == calls.take(1)
                    &&& !end.released
                    &&& end.outcome() == Some(outcomes[0])
                } else if outcomes.len() == k + 1 {
                    &&& made == calls.take(k as int + 1)
                    &&& !end.released
                    &&& end.pending() == Some(NativeCallView::ReleaseRuntime)
                    &&& end.outcome() is None
                } else {
                    &&& made == calls.take(k as int + 1).push(NativeCallView::ReleaseRuntime)
                    &&& end.released
                    &&& end.outcome() == Some(outcomes[k as int])
                }
            } else {
                &&& made == calls.take(k as int)
                &&& !end.released
                &&& end.pending() == Some(calls[k as int])
                &&& end.outcome() is None
            }
        }),
    decreases outcomes.len(),
{
    let calls = bring_up_calls(config);
    let inner = CallSequenceView::fresh(calls);
    let start = CevioView::fresh(config);
    lemma_stops_at_first_failure(calls, outcomes);
    if outcomes.len() == 0 {
        assert(calls.take(0) =~= Seq::<NativeCallView>::empty());
    } else {
        let earlier = outcomes.drop_last();
        lemma_bring_up_gives_hold_back(config, earlier);
        lemma_stops_at_first_failure(calls, earlier);
        let k0 = leading_successes(earlier);
        let before = start.after_all(earlier);
        if k0 >= calls.len() {
            assert(before.pending() is None);
        } else if k0 < earlier.len() {
            assert(outcomes[k0 as int] == earlier[k0 as int]);
            assert(before.bring_up.pending() is None);
        } else {
            assert(before.bring_up.pending() == Some(calls[k0 as int]));
            assert(calls.take(k0 as int).push(calls[k0 as int]) =~= calls.take(k0 as int + 1));
            if k0 + 1 == calls.len() {
                assert(calls.take(k0 as int + 1) =~= calls);
            }
        }
    }
}

} // verus!
