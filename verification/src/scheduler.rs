//! The tracking scheduler's per-tick decision logic.
//!
//! One tick: advance the session's logical clock by the current interval,
//! look the tracked line up in the fetched departure list, and decide
//! whether the session goes on (with a progress notification and possibly
//! a shrunken interval), has departed, or is no longer reported.
//!
//! The surrounding loop — the timer wait, the fetch, sending the
//! notifications, aborting on cancellation — is unverified plumbing; every
//! decision it acts on is taken here, against `spec_tick`.

use vstd::prelude::*;
use crate::structs::{BusDeparture, DepartureModel, Location, LocationModel, view_seq};
use crate::text::str_eq;
use crate::times::{parse_rfc3339, rfc3339_parse, EPOCH_BOUND};

verus! {

/// Bound on the logical clock: far beyond any epoch second chrono can
/// parse, yet small enough that one more tick can never overflow an `i64`.
pub const MAX_LOGICAL_TIME: i64 = 100_000_000_000_000;

/// One user's active tracked departure, from line selection to
/// termination. The scheduler owns it exclusively; `logical_now` is the
/// tick cursor, advanced by the interval rather than read from a clock.
#[derive(Debug)]
pub struct TrackingSession {
    pub user_id: u64,
    pub stop_id: String,
    pub line_name: String,
    pub direction: String,
    pub interval_minutes: u32,
    pub logical_now: i64,
}

/// Mathematical model of a `TrackingSession`.
pub ghost struct SessionModel {
    pub user_id: int,
    pub stop_id: Seq<char>,
    pub line_name: Seq<char>,
    pub direction: Seq<char>,
    pub interval_minutes: int,
    pub logical_now: int,
}

impl View for TrackingSession {
    type V = SessionModel;

    open spec fn view(&self) -> SessionModel {
        SessionModel {
            user_id: self.user_id as int,
            stop_id: self.stop_id@,
            line_name: self.line_name@,
            direction: self.direction@,
            interval_minutes: self.interval_minutes as int,
            logical_now: self.logical_now as int,
        }
    }
}

impl Clone for TrackingSession {
    fn clone(&self) -> (r: Self)
        ensures
            r == *self,
    {
        TrackingSession {
            user_id: self.user_id,
            stop_id: self.stop_id.clone(),
            line_name: self.line_name.clone(),
            direction: self.direction.clone(),
            interval_minutes: self.interval_minutes,
            logical_now: self.logical_now,
        }
    }
}

impl TrackingSession {
    /// A session is well formed when its polling interval is at least one
    /// minute and its logical clock is within the range a tick can extend.
    pub open spec fn wf(&self) -> bool {
        &&& 1 <= self.interval_minutes
        &&& -MAX_LOGICAL_TIME <= self.logical_now <= MAX_LOGICAL_TIME
    }
}

/// What one tick decided.
#[derive(Debug)]
pub enum TickOutcome {
    /// The line is still on its way: notify the remaining whole minutes
    /// (zero means "arriving now") and, when the feed reports one, the
    /// vehicle's live position.
    Progress { remaining_minutes: i64, position: Option<Location> },
    /// The logical clock has passed the effective departure time.
    Departed,
    /// The tracked (line, direction) pair is absent from the feed.
    NotFound,
    /// The matched record carries an unreadable timestamp or an absurd
    /// delay; skip this tick's notification and retry on the next.
    Malformed,
}

/// Mathematical model of a `TickOutcome`.
pub ghost enum TickOutcomeModel {
    Progress { remaining_minutes: int, position: Option<LocationModel> },
    Departed,
    NotFound,
    Malformed,
}

impl View for TickOutcome {
    type V = TickOutcomeModel;

    open spec fn view(&self) -> TickOutcomeModel {
        match self {
            TickOutcome::Progress { remaining_minutes, position } => {
                TickOutcomeModel::Progress {
                    remaining_minutes: *remaining_minutes as int,
                    position: match position {
                        Some(l) => Some(l@),
                        None => None,
                    },
                }
            },
            TickOutcome::Departed => TickOutcomeModel::Departed,
            TickOutcome::NotFound => TickOutcomeModel::NotFound,
            TickOutcome::Malformed => TickOutcomeModel::Malformed,
        }
    }
}

/// An outcome that ends the session.
pub open spec fn terminal(o: TickOutcomeModel) -> bool {
    o is Departed || o is NotFound
}

/// The departure reports the tracked line in the tracked direction.
pub open spec fn line_matches(d: DepartureModel, line_name: Seq<char>, direction: Seq<char>) -> bool {
    d.name == line_name && d.direction == direction
}

/// `i` is the first index of `deps` reporting the tracked line.
pub open spec fn is_first_line_match(
    deps: Seq<DepartureModel>,
    line_name: Seq<char>,
    direction: Seq<char>,
    i: int,
) -> bool {
    &&& 0 <= i < deps.len()
    &&& line_matches(deps[i], line_name, direction)
    &&& forall|j: int| 0 <= j < i ==> !line_matches(#[trigger] deps[j], line_name, direction)
}

/// Index of the first departure reporting the tracked line, if any.
pub open spec fn first_line_match(
    deps: Seq<DepartureModel>,
    line_name: Seq<char>,
    direction: Seq<char>,
) -> Option<int> {
    if exists|i: int| is_first_line_match(deps, line_name, direction, i) {
        Some(choose|i: int| is_first_line_match(deps, line_name, direction, i))
    } else {
        None
    }
}

/// Finds the departure of the tracked line, first match wins.
pub fn find_departure(deps: &Vec<BusDeparture>, line_name: &str, direction: &str) -> (r: Option<
    usize,
>)
    ensures
        match r {
            Some(i) => i < deps@.len() && first_line_match(view_seq(deps@), line_name@, direction@)
                == Some(i as int),
            None => first_line_match(view_seq(deps@), line_name@, direction@) is None,
        },
{
    let ghost m = view_seq(deps@);
    let n: usize = deps.len();
    let mut i: usize = 0;
    while i < n
        invariant
            n == deps@.len(),
            m == view_seq(deps@),
            0 <= i <= n,
            forall|j: int| 0 <= j < i ==> !line_matches(#[trigger] m[j], line_name@, direction@),
        decreases n - i,
    {
        let d = &deps[i];
        if str_eq(d.name.as_str(), line_name) && str_eq(d.direction.as_str(), direction) {
            proof {
                assert(is_first_line_match(m, line_name@, direction@, i as int));
                let w = choose|w: int| is_first_line_match(m, line_name@, direction@, w);
                assert(w == i as int);
            }
            return Some(i);
        }
        i = i + 1;
    }
    proof {
        if exists|w: int| is_first_line_match(m, line_name@, direction@, w) {
            let w = choose|w: int| is_first_line_match(m, line_name@, direction@, w);
        }
    }
    None
}

/// The instant the departure effectively leaves: the planned time plus the
/// reported delay. Nothing when the timestamp text does not parse, or when
/// the delay is too absurd to be a real number of seconds.
pub open spec fn effective_time(d: DepartureModel) -> Option<int> {
    match rfc3339_parse(d.planned) {
        Some(p) => match d.delay {
            Some(del) => if -EPOCH_BOUND <= del <= EPOCH_BOUND {
                Some(p.0 + del)
            } else {
                None
            },
            None => Some(p.0),
        },
        None => None,
    }
}

/// Computes the effective departure instant of one feed record.
fn effective_time_of(d: &BusDeparture) -> (r: Option<i64>)
    ensures
        match r {
            Some(t) => effective_time(d@) == Some(t as int) && -2 * EPOCH_BOUND < t < 2
                * EPOCH_BOUND,
            None => effective_time(d@) is None,
        },
{
    match parse_rfc3339(d.planned.as_str()) {
        Some(p) => match d.delay {
            Some(del) => if -EPOCH_BOUND <= del && del <= EPOCH_BOUND {
                Some(p.0 + del)
            } else {
                None
            },
            None => Some(p.0),
        },
        None => None,
    }
}

/// One tick of the scheduler, as a mathematical function: the session
/// afterwards, and what the tick decided.
///
/// In order: the logical clock advances by the interval; a missing line
/// terminates with `NotFound`; an unreadable record changes nothing else;
/// a passed effective time terminates with `Departed`; with less than a
/// minute left the interval is pinned to one minute; with less time left
/// than one interval (and an interval above a minute) the interval shrinks
/// to the remaining whole minutes.
pub open spec fn spec_tick(s: SessionModel, deps: Seq<DepartureModel>) -> (
    SessionModel,
    TickOutcomeModel,
) {
    let now = s.logical_now + 60 * s.interval_minutes;
    let s1 = SessionModel { logical_now: now, ..s };
    match first_line_match(deps, s.line_name, s.direction) {
        None => (s1, TickOutcomeModel::NotFound),
        Some(i) => match effective_time(deps[i]) {
            None => (s1, TickOutcomeModel::Malformed),
            Some(eff) => if now > eff {
                (s1, TickOutcomeModel::Departed)
            } else {
                let rem_min = (eff - now) / 60;
                let position = deps[i].curr_position;
                if rem_min == 0 {
                    (
                        SessionModel { interval_minutes: 1, ..s1 },
                        TickOutcomeModel::Progress { remaining_minutes: 0, position },
                    )
                } else if s.interval_minutes > 1 && rem_min < s.interval_minutes {
                    (
                        SessionModel { interval_minutes: rem_min, ..s1 },
                        TickOutcomeModel::Progress { remaining_minutes: rem_min, position },
                    )
                } else {
                    (s1, TickOutcomeModel::Progress { remaining_minutes: rem_min, position })
                }
            },
        },
    }
}

/// One tick of the scheduler. Decides everything `spec_tick` decides; the
/// interval never grows and never drops under one minute.
pub fn tick(session: &mut TrackingSession, departures: &Vec<BusDeparture>) -> (outcome:
    TickOutcome)
    requires
        old(session).wf(),
    ensures
        (final(session)@, outcome@) == spec_tick(old(session)@, view_seq(departures@)),
        final(session).interval_minutes <= old(session).interval_minutes,
        1 <= final(session).interval_minutes,
        final(session).user_id == old(session).user_id,
        final(session).stop_id == old(session).stop_id,
        final(session).line_name == old(session).line_name,
        final(session).direction == old(session).direction,
{
    let interval_secs: i64 = 60 * (session.interval_minutes as i64);
    let now: i64 = session.logical_now + interval_secs;
    session.logical_now = now;
    let i: usize = match find_departure(departures, session.line_name.as_str(),
        session.direction.as_str()) {
        Some(i) => i,
        None => {
            return TickOutcome::NotFound;
        },
    };
    let dep = &departures[i];
    let eff: i64 = match effective_time_of(dep) {
        Some(t) => t,
        None => {
            return TickOutcome::Malformed;
        },
    };
    if now > eff {
        return TickOutcome::Departed;
    }
    let rem_min: i64 = (eff - now) / 60;
    let position: Option<Location> = match &dep.curr_position {
        Some(l) => Some(l.clone()),
        None => None,
    };
    if rem_min == 0 {
        session.interval_minutes = 1;
        TickOutcome::Progress { remaining_minutes: 0, position }
    } else {
        if session.interval_minutes > 1 && rem_min < session.interval_minutes as i64 {
            session.interval_minutes = rem_min as u32;
        }
        TickOutcome::Progress { remaining_minutes: rem_min, position }
    }
}

/// The whole life of a session against a sequence of fetch results: the
/// trace of (session after the tick, outcome) pairs, tick by tick, cut off
/// at the first terminal outcome.
pub open spec fn spec_run(s: SessionModel, fetches: Seq<Seq<DepartureModel>>) -> Seq<
    (SessionModel, TickOutcomeModel),
>
    decreases fetches.len(),
{
    if fetches.len() == 0 {
        Seq::empty()
    } else {
        let r0 = spec_tick(s, fetches[0]);
        if terminal(r0.1) {
            seq![r0]
        } else {
            seq![r0] + spec_run(r0.0, fetches.drop_first())
        }
    }
}

/// One tick keeps the session's identity, never enlarges the interval and
/// never lets it drop under one minute.
pub proof fn lemma_tick_interval(s: SessionModel, deps: Seq<DepartureModel>)
    requires
        1 <= s.interval_minutes,
    ensures
        ({
            let s1 = spec_tick(s, deps).0;
            &&& 1 <= s1.interval_minutes <= s.interval_minutes
            &&& s1.user_id == s.user_id
            &&& s1.stop_id == s.stop_id
            &&& s1.line_name == s.line_name
            &&& s1.direction == s.direction
        }),
{
}

/// Every session along a run keeps the identity of the starting session,
/// and its interval stays between one minute and the starting interval.
pub proof fn lemma_run_session_bounds(
    s: SessionModel,
    fetches: Seq<Seq<DepartureModel>>,
    k: int,
)
    requires
        1 <= s.interval_minutes,
        0 <= k < spec_run(s, fetches).len(),
    ensures
        ({
            let sk = spec_run(s, fetches)[k].0;
            &&& 1 <= sk.interval_minutes <= s.interval_minutes
            &&& sk.user_id == s.user_id
            &&& sk.stop_id == s.stop_id
            &&& sk.line_name == s.line_name
            &&& sk.direction == s.direction
        }),
    decreases k,
{
    let r0 = spec_tick(s, fetches[0]);
    lemma_tick_interval(s, fetches[0]);
    if k > 0 {
        lemma_run_session_bounds(r0.0, fetches.drop_first(), k - 1);
    }
}

/// The adaptive interval is monotonically non-increasing across the life
/// of one session, and bounded below by one minute: at any two ticks of
/// one run, the later interval never exceeds the earlier one.
pub proof fn lemma_interval_monotone(
    s: SessionModel,
    fetches: Seq<Seq<DepartureModel>>,
    i: int,
    j: int,
)
    requires
        1 <= s.interval_minutes,
        0 <= i <= j < spec_run(s, fetches).len(),
    ensures
        spec_run(s, fetches)[j].0.interval_minutes <= spec_run(s, fetches)[i].0.interval_minutes,
        1 <= spec_run(s, fetches)[j].0.interval_minutes,
        spec_run(s, fetches)[i].0.interval_minutes <= s.interval_minutes,
    decreases j,
{
    let r0 = spec_tick(s, fetches[0]);
    lemma_tick_interval(s, fetches[0]);
    if j == 0 {
    } else if i == 0 {
        lemma_run_session_bounds(r0.0, fetches.drop_first(), j - 1);
    } else {
        lemma_interval_monotone(r0.0, fetches.drop_first(), i - 1, j - 1);
    }
}

/// Only the last tick of a run can be terminal: once a session has ended,
/// no further tick is taken and no further outcome exists.
pub proof fn lemma_terminal_only_last(s: SessionModel, fetches: Seq<Seq<DepartureModel>>, j: int)
    requires
        0 <= j < spec_run(s, fetches).len() - 1,
    ensures
        !terminal(spec_run(s, fetches)[j].1),
    decreases j,
{
    let r0 = spec_tick(s, fetches[0]);
    if j > 0 {
        lemma_terminal_only_last(r0.0, fetches.drop_first(), j - 1);
    }
}

/// Losing the tracked line ends the session with `NotFound` exactly once:
/// if the session is still running when a fetch without the tracked
/// (line, direction) pair arrives, that tick is the run's last, it reports
/// `NotFound`, and no earlier tick was terminal — so exactly one terminal
/// notice is ever emitted, however many later fetches also lack the pair.
pub proof fn lemma_not_found_once(s: SessionModel, fetches: Seq<Seq<DepartureModel>>, k: int)
    requires
        1 <= s.interval_minutes,
        0 <= k < fetches.len(),
        spec_run(s, fetches).len() > k,
        first_line_match(fetches[k], s.line_name, s.direction) is None,
    ensures
        spec_run(s, fetches).len() == k + 1,
        spec_run(s, fetches)[k].1 is NotFound,
        forall|j: int| 0 <= j < k ==> !terminal(#[trigger] spec_run(s, fetches)[j].1),
    decreases k,
{
    let r0 = spec_tick(s, fetches[0]);
    lemma_tick_interval(s, fetches[0]);
    if k == 0 {
    } else {
        assert(!terminal(r0.1)) by {
            if terminal(r0.1) {
                assert(spec_run(s, fetches).len() == 1);
            }
        }
        lemma_not_found_once(r0.0, fetches.drop_first(), k - 1);
        assert forall|j: int| 0 <= j < k implies !terminal(
            #[trigger] spec_run(s, fetches)[j].1,
        ) by {
            if j > 0 {
                assert(spec_run(s, fetches)[j] == spec_run(r0.0, fetches.drop_first())[j - 1]);
            }
        }
    }
}

} // verus!
