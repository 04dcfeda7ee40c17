//! A list of native calls that is made one call at a time and given up at
//! the first call that fails.
//!
//! The sequence names the next call; the caller makes it and records how it
//! went. Calls that succeeded stay in effect when a later one fails: nothing
//! is rolled back.

use vstd::prelude::*;
use crate::error::CevioError;
use crate::host::{calls_view, NativeCall, NativeCallView};

verus! {

/// How one call went.
pub type CallOutcome = Result<(), CevioError>;

/// Where a sequence stands: its calls, how many of them have succeeded, and
/// the failure that ended it, if one did.
pub struct CallSequenceView {
    pub calls: Seq<NativeCallView>,
    pub done: nat,
    pub failure: Option<CevioError>,
}

impl CallSequenceView {
    /// The sequence of `calls` before any of them was made.
    pub open spec fn fresh(calls: Seq<NativeCallView>) -> CallSequenceView {
        CallSequenceView { calls, done: 0, failure: None }
    }

    /// The call to make next: the first one that has not succeeded yet,
    /// unless a call has failed or none is left.
    pub open spec fn pending(self) -> Option<NativeCallView> {
        if self.failure is None && self.done < self.calls.len() {
            Some(self.calls[self.done as int])
        } else {
            None
        }
    }

    /// The sequence after the pending call went as `outcome` says. Without a
    /// pending call nothing changes.
    pub open spec fn after(self, outcome: CallOutcome) -> CallSequenceView {
        if self.pending() is None {
            self
        } else {
            match outcome {
                Ok(_) => CallSequenceView { done: self.done + 1, ..self },
                Err(e) => CallSequenceView { failure: Some(e), ..self },
            }
        }
    }

    /// What the sequence came to: the failure that ended it, success when
    /// every call succeeded, nothing while a call is pending.
    pub open spec fn outcome(self) -> Option<CallOutcome> {
        match self.failure {
            Some(e) => Some(Err(e)),
            None => if self.done < self.calls.len() {
                None
            } else {
                Some(Ok(()))
            },
        }
    }

    /// The sequence after `outcomes` were recorded one after the other.
    pub open spec fn after_all(self, outcomes: Seq<CallOutcome>) -> CallSequenceView
        decreases outcomes.len(),
    {
        if outcomes.len() == 0 {
            self
        } else {
            self.after_all(outcomes.drop_last()).after(outcomes.last())
        }
    }

    /// The calls that were made while `outcomes` were recorded one after the
    /// other: each outcome answers the call that was pending when it came.
    pub open spec fn issued(self, outcomes: Seq<CallOutcome>) -> Seq<NativeCallView>
        decreases outcomes.len(),
    {
        if outcomes.len() == 0 {
            Seq::empty()
        } else {
            let earlier = self.issued(outcomes.drop_last());
            match self.after_all(outcomes.drop_last()).pending() {
                Some(call) => earlier.push(call),
                None => earlier,
            }
        }
    }
}

/// How many outcomes stand before the first failure among `outcomes`.
pub open spec fn leading_successes(outcomes: Seq<CallOutcome>) -> nat
    decreases outcomes.len(),
{
    if outcomes.len() == 0 {
        0
    } else {
        let earlier = leading_successes(outcomes.drop_last());
        if earlier == outcomes.len() - 1 && outcomes.last() is Ok {
            earlier + 1
        } else {
            earlier
        }
    }
}

/// A list of native calls on its way.
#[derive(Debug)]
pub struct CallSequence {
    calls: Vec<NativeCall>,
    done: usize,
    failure: Option<CevioError>,
}

impl View for CallSequence {
    type V = CallSequenceView;

    closed spec fn view(&self) -> CallSequenceView {
        CallSequenceView {
            calls: calls_view(self.calls@),
            done: self.done as nat,
            failure: self.failure,
        }
    }
}

impl CallSequence {
    #[verifier::type_invariant]
    spec fn within_calls(self) -> bool {
        self.done <= self.calls.len()
    }

    /// The sequence of `calls`, none of them made yet.
    pub fn new(calls: Vec<NativeCall>) -> (sequence: Self)
        ensures
            sequence@ == CallSequenceView::fresh(calls_view(calls@)),
    {
        CallSequence { calls, done: 0, failure: None }
    }

    /// The call to make next, or nothing when the sequence has ended.
    pub fn next_call(&self) -> (call: Option<&NativeCall>)
        ensures
            match call {
                Some(c) => self@.pending() == Some(c@),
                None => self@.pending() is None,
            },
    {
        proof {
            use_type_invariant(self);
        }
        if self.failure.is_none() && self.done < self.calls.len() {
            Some(&self.calls[self.done])
        } else {
            None
        }
    }

    /// Records how the pending call went. Without a pending call nothing
    /// changes.
    pub fn record(&mut self, outcome: CallOutcome)
        ensures
            final(self)@ == old(self)@.after(outcome),
        no_unwind
    {
        proof {
            use_type_invariant(&*self);
        }
        let running = match &self.failure {
            Some(_) => false,
            None => true,
        };
        if running && self.done < self.calls.len() {
            match outcome {
                Ok(_) => {
                    self.done += 1;
                },
                Err(e) => {
                    self.failure = Some(e);
                },
            }
        }
    }

    /// How many calls have succeeded.
    pub fn completed(&self) -> (count: usize)
        ensures
            count == self@.done,
            count <= self@.calls.len(),
    {
        proof {
            use_type_invariant(self);
        }
        self.done
    }

    /// Whether a call has failed.
    pub fn has_failed(&self) -> (failed: bool)
        ensures
            failed == (self@.failure is Some),
    {
        self.failure.is_some()
    }

    /// Whether the sequence has ended: no call is pending.
    pub fn is_finished(&self) -> (finished: bool)
        ensures
            finished == (self@.pending() is None),
            finished == (self@.outcome() is Some),
    {
        proof {
            use_type_invariant(self);
        }
        !(self.failure.is_none() && self.done < self.calls.len())
    }

    /// What the sequence came to: the first failure, success when every call
    /// succeeded, nothing while a call is pending.
    pub fn into_outcome(self) -> (outcome: Option<CallOutcome>)
        ensures
            outcome == self@.outcome(),
    {
        proof {
            use_type_invariant(&self);
        }
        let finished = self.done >= self.calls.len();
        match self.failure {
            Some(e) => Some(Err(e)),
            None => if finished {
                Some(Ok(()))
            } else {
                None
            },
        }
    }
}

/// A sequence makes its calls in order and ends at the first that fails.
/// With `k` outcomes before the first failure:
/// - if `k` reaches the number of calls, every call was made and the
///   sequence succeeded;
/// - else if a failure follows, exactly the first `k + 1` calls were made,
///   and the sequence came to that failure;
/// - else exactly the first `k` calls were made, and the next one is pending.
pub proof fn lemma_stops_at_first_failure(calls: Seq<NativeCallView>, outcomes: Seq<CallOutcome>)
    ensures
        ({
            let k = leading_successes(outcomes);
            let start = CallSequenceView::fresh(calls);
            let end = start.after_all(outcomes);
            let made = start.issued(outcomes);
            &&& k <= outcomes.len()
            &&& end.calls == calls
            &&& end.done == if k >= calls.len() {
                calls.len()
            } else {
                k
            }
            &&& if k >= calls.len() {
                &&& made == calls
                &&& end.outcome() == Some(Ok::<(), CevioError>(()))
            } else if k < outcomes.len() {
                &&& made == calls.take(k as int + 1)
                &&& outcomes[k as int] is Err
                &&& end.outcome() == Some(outcomes[k as int])
            } else {
                &&& made == calls.take(k as int)
                &&& end.outcome() is None
                &&& end.pending() == Some(calls[k as int])
            }
        }),
    decreases outcomes.len(),
{
    let start = CallSequenceView::fresh(calls);
    if outcomes.len() == 0 {
        assert(calls.take(0) =~= Seq::<NativeCallView>::empty());
        if calls.len() == 0 {
            assert(start.issued(outcomes) =~= calls);
        }
    } else {
        let earlier = outcomes.drop_last();
        lemma_stops_at_first_failure(calls, earlier);
        let k0 = leading_successes(earlier);
        let k = leading_successes(outcomes);
        let before = start.after_all(earlier);
        if k0 >= calls.len() {
            assert(before.pending() is None);
        } else if k0 < earlier.len() {
            assert(before.pending() is None);
            assert(outcomes[k0 as int] == earlier[k0 as int]);
        } else {
            assert(before.pending() == Some(calls[k0 as int]));
            assert(calls.take(k0 as int).push(calls[k0 as int]) =~= calls.take(k0 as int + 1));
            if k0 + 1 == calls.len() {
                assert(calls.take(k0 as int + 1) =~= calls);
            }
        }
    }
}

} // verus!
