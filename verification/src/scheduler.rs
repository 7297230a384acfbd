//! The refresh scheduler: when a cycle starts and what it asks for.
//!
//! The scheduler decides; its caller waits, reads the clock and sends the
//! requests. A cycle is started by a tick and asks once for every tracked
//! league. The requests are handed out together and nobody waits for their
//! outcomes: each is committed to the cache when it arrives, also after a
//! later cycle has begun.

use crate::calendar::weekday_index;
use crate::calendar::window_around;
use crate::calendar::Date;
use crate::calendar::Window;
use crate::calendar::WindowMode;
use crate::calendar::WindowView;
use crate::fetch::request_for;
use crate::fetch::FetchRequest;
use crate::fetch::RequestView;
use crate::leagues::Entries;
use crate::leagues::KeySet;
use vstd::prelude::*;

verus! {

/// The seconds between the start of one cycle and the next.
pub const REFRESH_INTERVAL_SECS: u64 = 3600;

/// The requests of one cycle: one for each league, in the order of the
/// registry, all over the same window.
pub open spec fn requests_for(keys: Entries, window: WindowView) -> Seq<RequestView> {
    Seq::new(keys.len(), |i: int| request_for(keys[i].0, window))
}

/// The requests of the cycle that starts on `today`; none where the window
/// around `today` leaves the calendar.
pub open spec fn cycle_on(keys: Entries, today: int, mode: WindowMode) -> Seq<RequestView> {
    match window_around(today, weekday_index(today), mode) {
        Some(window) => requests_for(keys, window),
        None => Seq::empty(),
    }
}

/// A list of requests as the characters of their parts.
pub open spec fn requests_view(requests: Seq<FetchRequest>) -> Seq<RequestView> {
    requests.map_values(|r: FetchRequest| r@)
}

/// The requests of one cycle over `window`.
pub fn plan_cycle(keys: &KeySet, window: &Window) -> (plan: Vec<FetchRequest>)
    ensures
        requests_view(plan@) == requests_for(keys@, window@),
{
    let mut plan: Vec<FetchRequest> = Vec::new();
    let count = keys.len();
    let mut i: usize = 0;
    while i < count
        invariant
            i <= count,
            count == keys@.len(),
            plan@.len() == i,
            forall|j: int| 0 <= j < i ==> (#[trigger] plan@[j])@ == request_for(keys@[j].0, window@),
        decreases count - i,
    {
        match keys.get(i) {
            Some(league) => {
                plan.push(FetchRequest::new(league.key.as_str(), window));
            },
            None => {},
        }
        i += 1;
    }
    assert(requests_view(plan@) =~= requests_for(keys@, window@));
    plan
}

/// Where the scheduler stands.
#[derive(Clone, Copy, Debug, PartialEq, Eq, Structural)]
pub enum Phase {
    /// Waiting for the next tick.
    Idle,
    /// The requests of a cycle are being handed out.
    Cycle,
}

/// What happened outside the scheduler.
#[derive(Clone, Copy, Debug, PartialEq, Eq, Structural)]
pub enum Event {
    /// The wait is over; the clock shows this day.
    Tick(Date),
    /// The requests of the cycle have all been handed out.
    Dispatched,
}

/// What the scheduler asks of its caller.
#[derive(Clone, Debug, PartialEq, Eq)]
pub enum Action {
    /// Wait this many seconds, then report a tick.
    Wait(u64),
    /// Start a fetch for each of these requests without waiting for any, then
    /// report that they are handed out.
    Dispatch(Vec<FetchRequest>),
    /// Nothing: the event did not fit the phase.
    Ignore,
}

/// An action with its requests as characters.
pub enum ActionView {
    Wait(int),
    Dispatch(Seq<RequestView>),
    Ignore,
}

impl View for Action {
    type V = ActionView;

    open spec fn view(&self) -> ActionView {
        match *self {
            Action::Wait(seconds) => ActionView::Wait(seconds as int),
            Action::Dispatch(requests) => ActionView::Dispatch(requests_view(requests@)),
            Action::Ignore => ActionView::Ignore,
        }
    }
}

/// The phase after `event` arrives in `phase`.
pub open spec fn phase_after(phase: Phase, event: Event) -> Phase {
    match (phase, event) {
        (Phase::Idle, Event::Tick(_)) => Phase::Cycle,
        (Phase::Cycle, Event::Dispatched) => Phase::Idle,
        _ => phase,
    }
}

/// What is asked of the caller when `event` arrives in `phase`.
pub open spec fn action_after(phase: Phase, event: Event, keys: Entries, mode: WindowMode) -> ActionView {
    match (phase, event) {
        (Phase::Idle, Event::Tick(today)) => ActionView::Dispatch(cycle_on(keys, today@, mode)),
        (Phase::Cycle, Event::Dispatched) => ActionView::Wait(REFRESH_INTERVAL_SECS as int),
        _ => ActionView::Ignore,
    }
}

/// The refresh scheduler.
#[derive(Clone, Copy, Debug, PartialEq, Eq)]
pub struct Scheduler {
    /// Where the scheduler stands.
    pub phase: Phase,
    /// How far around the day of a tick each cycle asks.
    pub mode: WindowMode,
}

impl Scheduler {
    /// A scheduler at rest, and its first request to the caller: to report a
    /// tick at once, so that the first cycle runs at startup.
    pub fn start(mode: WindowMode) -> (r: (Scheduler, Action))
        ensures
            r.0.phase == Phase::Idle,
            r.0.mode == mode,
            r.1 == Action::Wait(0),
    {
        (Scheduler { phase: Phase::Idle, mode }, Action::Wait(0))
    }

    /// Takes `event` in and says what the caller is to do next.
    pub fn handle(&mut self, keys: &KeySet, event: Event) -> (action: Action)
        ensures
            final(self).mode == old(self).mode,
            final(self).phase == phase_after(old(self).phase, event),
            action@ == action_after(old(self).phase, event, keys@, old(self).mode),
    {
        match (self.phase, event) {
            (Phase::Idle, Event::Tick(today)) => {
                self.phase = Phase::Cycle;
                match Window::containing(today, self.mode) {
                    Some(window) => Action::Dispatch(plan_cycle(keys, &window)),
                    None => {
                        let none: Vec<FetchRequest> = Vec::new();
                        assert(requests_view(none@) =~= Seq::<RequestView>::empty());
                        Action::Dispatch(none)
                    },
                }
            },
            (Phase::Cycle, Event::Dispatched) => {
                self.phase = Phase::Idle;
                Action::Wait(REFRESH_INTERVAL_SECS)
            },
            _ => Action::Ignore,
        }
    }
}

} // verus!
