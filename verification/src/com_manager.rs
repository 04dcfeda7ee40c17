//! The process-wide count of users of the native object runtime.
//!
//! The runtime is started for the first user and torn down after the last.
//! `ComManager` holds the count and decides, for each user that arrives or
//! leaves, whether the runtime has to be started or torn down. The caller
//! keeps one manager for the process behind one lock, makes the native calls
//! the manager asks for, and tells it how the start went.

use vstd::prelude::*;
use crate::error::NativeError;

verus! {

/// Status the native start returns when it started the runtime.
pub const S_OK: i32 = 0;

/// Status the native start returns when the runtime was already started by
/// someone else in a compatible mode.
pub const S_FALSE: i32 = 1;

/// Whether the status `hr` of the native start leaves the runtime usable.
pub open spec fn start_accepted(hr: i32) -> bool {
    hr == S_OK || hr == S_FALSE
}

/// One user arriving or leaving.
pub enum GuardEvent {
    /// A user asks for the runtime; `hr` is the status the native start
    /// gives if it is run for this user.
    Acquire { hr: i32 },
    /// A user gives the runtime back.
    Release,
}

/// The count after `event`, when it was `count` before.
pub open spec fn count_after_event(count: nat, event: GuardEvent) -> nat {
    match event {
        GuardEvent::Acquire { hr } => if count == 0 && !start_accepted(hr) {
            0
        } else {
            count + 1
        },
        GuardEvent::Release => if count > 0 {
            (count - 1) as nat
        } else {
            0
        },
    }
}

/// Whether `event`, met at `count`, runs the native start.
pub open spec fn event_runs_start(count: nat, event: GuardEvent) -> bool {
    event is Acquire && count == 0
}

/// Whether `event`, met at `count`, is granted: every release is, and every
/// acquire but one whose native start is refused.
pub open spec fn event_granted(count: nat, event: GuardEvent) -> bool {
    match event {
        GuardEvent::Acquire { hr } => count > 0 || start_accepted(hr),
        GuardEvent::Release => true,
    }
}

/// Whether `event`, met at `count`, tears the runtime down.
pub open spec fn event_tears_down(count: nat, event: GuardEvent) -> bool {
    event is Release && count == 1
}

/// The count of users of the native runtime.
pub struct ComManager {
    ref_count: usize,
}

impl View for ComManager {
    type V = nat;

    closed spec fn view(&self) -> nat {
        self.ref_count as nat
    }
}

impl ComManager {
    /// A manager with no user.
    pub fn new() -> (manager: Self)
        ensures
            manager@ == 0,
    {
        ComManager { ref_count: 0 }
    }

    /// The number of users.
    pub fn ref_count(&self) -> (count: usize)
        ensures
            count == self@,
    {
        self.ref_count
    }

    /// Whether the native start has to be run for the next user to arrive:
    /// it has when there is no user. The caller runs it exactly then, and
    /// hands its status to `initialize`.
    pub fn needs_start(&self) -> (needed: bool)
        ensures
            needed == (self@ == 0),
    {
        self.ref_count == 0
    }

    /// Counts one more user. `hr` is the status of the native start, and is
    /// looked at only where there was no user before: a status other than
    /// `S_OK` and `S_FALSE` then refuses the user and is handed back.
    pub fn initialize(&mut self, hr: i32) -> (granted: Result<(), NativeError>)
        requires
            old(self)@ < usize::MAX,
        ensures
            final(self)@ == count_after_event(old(self)@, GuardEvent::Acquire { hr }),
            granted is Ok <==> event_granted(old(self)@, GuardEvent::Acquire { hr }),
            granted matches Err(e) ==> e.code == hr && e.message@.len() == 0,
    {
        if self.ref_count == 0 {
            if hr != S_OK && hr != S_FALSE {
                return Err(NativeError { code: hr, message: String::new() });
            }
        }
        self.ref_count += 1;
        Ok(())
    }

    /// Counts one user less, and tells whether the runtime has to be torn
    /// down now: it has when the last user left. Without a user nothing
    /// changes.
    pub fn uninitialize(&mut self) -> (teardown: bool)
        ensures
            final(self)@ == count_after_event(old(self)@, GuardEvent::Release),
            teardown == event_tears_down(old(self)@, GuardEvent::Release),
    {
        if self.ref_count > 0 {
            self.ref_count -= 1;
            self.ref_count == 0
        } else {
            false
        }
    }
}

/// One user's hold on the runtime. It is made when the user is counted and
/// given up when the user is counted out again.
#[derive(Debug)]
pub struct ComGuard {
    held: (),
}

impl ComGuard {
    /// Counts one more user at `manager` and hands out the hold that stands
    /// for that user, or the refused status where the native start was
    /// refused. `hr` is read as `ComManager::initialize` reads it.
    pub fn new(manager: &mut ComManager, hr: i32) -> (guard: Result<ComGuard, NativeError>)
        requires
            old(manager)@ < usize::MAX,
        ensures
            final(manager)@ == count_after_event(old(manager)@, GuardEvent::Acquire { hr }),
            guard is Ok <==> event_granted(old(manager)@, GuardEvent::Acquire { hr }),
            guard matches Err(e) ==> e.code == hr && e.message@.len() == 0,
    {
        match manager.initialize(hr) {
            Ok(()) => Ok(ComGuard { held: () }),
            Err(e) => Err(e),
        }
    }

    /// Gives the hold up: counts the user out at `manager` and tells whether
    /// the runtime has to be torn down now.
    pub fn release(self, manager: &mut ComManager) -> (teardown: bool)
        ensures
            final(manager)@ == count_after_event(old(manager)@, GuardEvent::Release),
            teardown == event_tears_down(old(manager)@, GuardEvent::Release),
    {
        manager.uninitialize()
    }
}

/// The count after `events`, met in order by a manager that starts without a
/// user.
pub open spec fn count_after(events: Seq<GuardEvent>) -> nat
    decreases events.len(),
{
    if events.len() == 0 {
        0
    } else {
        count_after_event(count_after(events.drop_last()), events.last())
    }
}

/// How many times the runtime was started in the course of `events`.
pub open spec fn starts_in(events: Seq<GuardEvent>) -> nat
    decreases events.len(),
{
    if events.len() == 0 {
        0
    } else {
        let before = count_after(events.drop_last());
        let started = event_runs_start(before, events.last()) && event_granted(
            before,
            events.last(),
        );
        starts_in(events.drop_last()) + if started {
            1nat
        } else {
            0nat
        }
    }
}

/// How many times the runtime was torn down in the course of `events`.
pub open spec fn teardowns_in(events: Seq<GuardEvent>) -> nat
    decreases events.len(),
{
    if events.len() == 0 {
        0
    } else {
        teardowns_in(events.drop_last()) + if event_tears_down(
            count_after(events.drop_last()),
            events.last(),
        ) {
            1nat
        } else {
            0nat
        }
    }
}

/// One acquire for each status in `hrs`, then `releases` releases.
pub open spec fn acquires_then_releases(hrs: Seq<i32>, releases: nat) -> Seq<GuardEvent> {
    Seq::new(hrs.len(), |i: int| GuardEvent::Acquire { hr: hrs[i] }) + Seq::new(
        releases,
        |i: int| GuardEvent::Release,
    )
}

/// Whatever users arrive and leave, in whatever order, the runtime is up
/// exactly while there is a user: it was started once more than it was torn
/// down if the count is above zero, and as often as it was torn down if not.
pub proof fn lemma_runtime_up_while_used(events: Seq<GuardEvent>)
    ensures
        starts_in(events) == teardowns_in(events) + if count_after(events) > 0 {
            1nat
        } else {
            0nat
        },
    decreases events.len(),
{
    if events.len() > 0 {
        lemma_runtime_up_while_used(events.drop_last());
    }
}

/// After N users have arrived, the first of them with a start that was
/// accepted, and `releases` of them have left again, the runtime has been
/// started once; it has been torn down once if all N have left, and not at
/// all before that.
pub proof fn lemma_last_release_tears_down(hrs: Seq<i32>, releases: nat)
    requires
        hrs.len() >= 1,
        start_accepted(hrs[0]),
        releases <= hrs.len(),
    ensures
        count_after(acquires_then_releases(hrs, releases)) == hrs.len() - releases,
        starts_in(acquires_then_releases(hrs, releases)) == 1,
        teardowns_in(acquires_then_releases(hrs, releases)) == if releases == hrs.len() {
            1nat
        } else {
            0nat
        },
    decreases hrs.len() + releases,
{
    let events = acquires_then_releases(hrs, releases);
    if releases > 0 {
        let fewer = (releases - 1) as nat;
        assert(events.drop_last() =~= acquires_then_releases(hrs, fewer));
        assert(events.last() == GuardEvent::Release);
        lemma_last_release_tears_down(hrs, fewer);
    } else if hrs.len() > 1 {
        assert(events.drop_last() =~= acquires_then_releases(hrs.drop_last(), 0));
        assert(events.last() == GuardEvent::Acquire { hr: hrs.last() });
        lemma_last_release_tears_down(hrs.drop_last(), 0);
    } else {
        assert(events.drop_last() =~= Seq::<GuardEvent>::empty());
        assert(events.last() == GuardEvent::Acquire { hr: hrs[0] });
        assert(count_after(events.drop_last()) == 0);
        assert(starts_in(events.drop_last()) == 0);
        assert(teardowns_in(events.drop_last()) == 0);
    }
}

} // verus!
