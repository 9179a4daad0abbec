//! The conversation state machine: one tagged state per chat, advanced by
//! `advance` on each inbound event, yielding the next state and the
//! outbound effects of the turn.
//!
//! Gateway work (profile lookup, geocoding, fetching stations or
//! departures) happens outside; its result arrives folded into the event,
//! and a failed call arrives as `GatewayFailed`, which never advances the
//! state. Every transition is pinned by `spec_advance`, the machine's
//! transition table as one mathematical function.

use vstd::prelude::*;
use crate::structs::{
    BusDeparture, DepartureModel, Station, StationModel, UserData, UserDataModel, view_seq,
};
use crate::text::{
    composite_key, composite_key_spec, parse_minutes, parse_minutes_spec, split_composite,
    split_composite_spec,
};
use crate::times::{clock_of, clock_time_of, parse_rfc3339, rfc3339_parse, ClockTime};
use crate::times::{delay_minutes, div_towards_zero};
use crate::scheduler::{SessionModel, TrackingSession, MAX_LOGICAL_TIME};

verus! {

/// Where one chat stands in the flow from greeting to active tracking.
#[derive(Debug)]
pub enum ConversationState {
    Idle,
    AwaitingCity,
    AwaitingAddress { city: String },
    AwaitingStation { city: String, addr: String, stations: Vec<Station> },
    AwaitingLine {
        city: String,
        addr: String,
        stations: Vec<Station>,
        stop: String,
        stop_id: String,
    },
    AwaitingInterval {
        city: String,
        addr: String,
        stations: Vec<Station>,
        stop: String,
        stop_id: String,
        transit: String,
    },
    Tracking,
}

/// Mathematical model of a `ConversationState`.
pub ghost enum StateModel {
    Idle,
    AwaitingCity,
    AwaitingAddress { city: Seq<char> },
    AwaitingStation { city: Seq<char>, addr: Seq<char>, stations: Seq<StationModel> },
    AwaitingLine {
        city: Seq<char>,
        addr: Seq<char>,
        stations: Seq<StationModel>,
        stop: Seq<char>,
        stop_id: Seq<char>,
    },
    AwaitingInterval {
        city: Seq<char>,
        addr: Seq<char>,
        stations: Seq<StationModel>,
        stop: Seq<char>,
        stop_id: Seq<char>,
        transit: Seq<char>,
    },
    Tracking,
}

impl View for ConversationState {
    type V = StateModel;

    open spec fn view(&self) -> StateModel {
        match self {
            ConversationState::Idle => StateModel::Idle,
            ConversationState::AwaitingCity => StateModel::AwaitingCity,
            ConversationState::AwaitingAddress { city } => {
                StateModel::AwaitingAddress { city: city@ }
            },
            ConversationState::AwaitingStation { city, addr, stations } => {
                StateModel::AwaitingStation {
                    city: city@,
                    addr: addr@,
                    stations: view_seq(stations@),
                }
            },
            ConversationState::AwaitingLine { city, addr, stations, stop, stop_id } => {
                StateModel::AwaitingLine {
                    city: city@,
                    addr: addr@,
                    stations: view_seq(stations@),
                    stop: stop@,
                    stop_id: stop_id@,
                }
            },
            ConversationState::AwaitingInterval { city, addr, stations, stop, stop_id, transit } => {
                StateModel::AwaitingInterval {
                    city: city@,
                    addr: addr@,
                    stations: view_seq(stations@),
                    stop: stop@,
                    stop_id: stop_id@,
                    transit: transit@,
                }
            },
            ConversationState::Tracking => StateModel::Tracking,
        }
    }
}

impl Default for ConversationState {
    /// A chat starts idle.
    fn default() -> (r: Self)
        ensures
            r@ == StateModel::Idle,
    {
        ConversationState::Idle
    }
}

/// One turn's inbound event, with whatever the gateway already resolved
/// for it folded in as plain values.
#[derive(Debug)]
pub enum Event {
    /// The help command.
    HelpRequested,
    /// The start command from a user whose profile was found; the stations
    /// near the stored coordinates have been fetched.
    StartKnown { city: String, addr: String, stations: Vec<Station> },
    /// The start command from a user with no stored profile.
    StartUnknown,
    /// A text line carrying the user's city.
    CityText { city: String },
    /// A message without text where text was expected.
    NotText,
    /// The user's address (typed, or recovered from a shared position),
    /// geocoded, with the stations near it fetched.
    AddressResolved { user: UserData, stations: Vec<Station> },
    /// A message with neither text nor a position where an address was
    /// expected.
    AddressMissing,
    /// A geocoding or transit-gateway call failed this turn.
    GatewayFailed,
    /// The "change address" selection.
    BackToAddress,
    /// A station selection, with the departures fetched for the selected
    /// station.
    StationChosen { stop: String, departures: Vec<BusDeparture> },
    /// A line(+direction) selection, as its composite button key.
    LineChosen { transit: String },
    /// A polling-interval selection; `start_time` is the instant (epoch
    /// seconds) the selection message carries.
    IntervalChosen { minutes_text: String, user_id: u64, start_time: i64 },
    /// The cancel command or selection.
    CancelRequested { user_id: u64 },
    /// The user's tracking scheduler terminated on its own.
    TrackingEnded,
    /// Anything else.
    Unrecognized,
}

/// Mathematical model of an `Event`.
pub ghost enum EventModel {
    HelpRequested,
    StartKnown { city: Seq<char>, addr: Seq<char>, stations: Seq<StationModel> },
    StartUnknown,
    CityText { city: Seq<char> },
    NotText,
    AddressResolved { user: UserDataModel, stations: Seq<StationModel> },
    AddressMissing,
    GatewayFailed,
    BackToAddress,
    StationChosen { stop: Seq<char>, departures: Seq<DepartureModel> },
    LineChosen { transit: Seq<char> },
    IntervalChosen { minutes_text: Seq<char>, user_id: int, start_time: int },
    CancelRequested { user_id: int },
    TrackingEnded,
    Unrecognized,
}

impl View for Event {
    type V = EventModel;

    open spec fn view(&self) -> EventModel {
        match self {
            Event::HelpRequested => EventModel::HelpRequested,
            Event::StartKnown { city, addr, stations } => EventModel::StartKnown {
                city: city@,
                addr: addr@,
                stations: view_seq(stations@),
            },
            Event::StartUnknown => EventModel::StartUnknown,
            Event::CityText { city } => EventModel::CityText { city: city@ },
            Event::NotText => EventModel::NotText,
            Event::AddressResolved { user, stations } => EventModel::AddressResolved {
                user: user@,
                stations: view_seq(stations@),
            },
            Event::AddressMissing => EventModel::AddressMissing,
            Event::GatewayFailed => EventModel::GatewayFailed,
            Event::BackToAddress => EventModel::BackToAddress,
            Event::StationChosen { stop, departures } => EventModel::StationChosen {
                stop: stop@,
                departures: view_seq(departures@),
            },
            Event::LineChosen { transit } => EventModel::LineChosen { transit: transit@ },
            Event::IntervalChosen { minutes_text, user_id, start_time } => {
                EventModel::IntervalChosen {
                    minutes_text: minutes_text@,
                    user_id: *user_id as int,
                    start_time: *start_time as int,
                }
            },
            Event::CancelRequested { user_id } => EventModel::CancelRequested {
                user_id: *user_id as int,
            },
            Event::TrackingEnded => EventModel::TrackingEnded,
            Event::Unrecognized => EventModel::Unrecognized,
        }
    }
}

/// One departure of a station's feed, reduced to what the departure list
/// message shows: line, direction, planned local time, delay in minutes.
#[derive(Debug)]
pub struct DepartureSummary {
    pub name: String,
    pub direction: String,
    /// Planned departure, in the clock of the timestamp's own offset;
    /// nothing when the timestamp text does not parse.
    pub time: Option<ClockTime>,
    /// The reported delay in whole minutes; nothing when the feed reports
    /// none or reports zero.
    pub delay_minutes: Option<i64>,
}

/// Mathematical model of a `DepartureSummary`.
pub ghost struct SummaryModel {
    pub name: Seq<char>,
    pub direction: Seq<char>,
    pub time: Option<ClockTime>,
    pub delay_minutes: Option<int>,
}

impl View for DepartureSummary {
    type V = SummaryModel;

    open spec fn view(&self) -> SummaryModel {
        SummaryModel {
            name: self.name@,
            direction: self.direction@,
            time: self.time,
            delay_minutes: match self.delay_minutes {
                Some(m) => Some(m as int),
                None => None,
            },
        }
    }
}

/// An outbound consequence of one turn: a prompt or notice to render, a
/// profile to persist, a tracking session to spawn, or a task to cancel.
#[derive(Debug)]
pub enum Effect {
    /// Show the command overview.
    ShowHelp,
    /// Ask a new user for their city.
    PromptCity,
    /// Ask again for the city: the message carried no text.
    RepromptCity,
    /// Ask for the street address (or a shared position) within `city`.
    PromptAddress { city: String },
    /// Ask again for the address: the message carried neither.
    RepromptAddress,
    /// Ask for a replacement address after "change address".
    PromptNewAddress,
    /// Persist the user's resolved profile for the next start.
    PersistProfile { user: UserData },
    /// Show the resolved address and the nearby stations as buttons; the
    /// "change address" option is always the last button.
    ShowStations { addr: String, city: String, buttons: Vec<String> },
    /// Tell the user the selected station has no departures right now.
    NotifyNoDepartures,
    /// Show the selected station's departures, and one button per line.
    ShowDepartures { stop: String, summaries: Vec<DepartureSummary>, buttons: Vec<String> },
    /// Ask for the polling interval.
    PromptInterval,
    /// Confirm the chosen polling interval.
    ConfirmInterval { minutes: u32 },
    /// Spawn the tracking scheduler for this session and register its
    /// handle under the session's user.
    StartTracking { session: TrackingSession },
    /// Cancel the user's registered tracking task, if any.
    CancelTracking { user_id: u64 },
    /// Confirm the cancellation.
    NotifyCancelled,
    /// Tell the user the message could not be handled.
    NotifyUnhandled,
    /// Tell the user an upstream call failed and the turn can be retried.
    NotifyFailure,
    /// A stale or malformed selection: ask the user to start over.
    PromptRestart,
}

/// Mathematical model of an `Effect`.
pub ghost enum EffectModel {
    ShowHelp,
    PromptCity,
    RepromptCity,
    PromptAddress { city: Seq<char> },
    RepromptAddress,
    PromptNewAddress,
    PersistProfile { user: UserDataModel },
    ShowStations { addr: Seq<char>, city: Seq<char>, buttons: Seq<Seq<char>> },
    NotifyNoDepartures,
    ShowDepartures { stop: Seq<char>, summaries: Seq<SummaryModel>, buttons: Seq<Seq<char>> },
    PromptInterval,
    ConfirmInterval { minutes: int },
    StartTracking { session: SessionModel },
    CancelTracking { user_id: int },
    NotifyCancelled,
    NotifyUnhandled,
    NotifyFailure,
    PromptRestart,
}

impl View for Effect {
    type V = EffectModel;

    open spec fn view(&self) -> EffectModel {
        match self {
            Effect::ShowHelp => EffectModel::ShowHelp,
            Effect::PromptCity => EffectModel::PromptCity,
            Effect::RepromptCity => EffectModel::RepromptCity,
            Effect::PromptAddress { city } => EffectModel::PromptAddress { city: city@ },
            Effect::RepromptAddress => EffectModel::RepromptAddress,
            Effect::PromptNewAddress => EffectModel::PromptNewAddress,
            Effect::PersistProfile { user } => EffectModel::PersistProfile { user: user@ },
            Effect::ShowStations { addr, city, buttons } => EffectModel::ShowStations {
                addr: addr@,
                city: city@,
                buttons: view_seq(buttons@),
            },
            Effect::NotifyNoDepartures => EffectModel::NotifyNoDepartures,
            Effect::ShowDepartures { stop, summaries, buttons } => EffectModel::ShowDepartures {
                stop: stop@,
                summaries: view_seq(summaries@),
                buttons: view_seq(buttons@),
            },
            Effect::PromptInterval => EffectModel::PromptInterval,
            Effect::ConfirmInterval { minutes } => EffectModel::ConfirmInterval {
                minutes: *minutes as int,
            },
            Effect::StartTracking { session } => EffectModel::StartTracking { session: session@ },
            Effect::CancelTracking { user_id } => EffectModel::CancelTracking {
                user_id: *user_id as int,
            },
            Effect::NotifyCancelled => EffectModel::NotifyCancelled,
            Effect::NotifyUnhandled => EffectModel::NotifyUnhandled,
            Effect::NotifyFailure => EffectModel::NotifyFailure,
            Effect::PromptRestart => EffectModel::PromptRestart,
        }
    }
}

/// The buttons of the station list: every station's name, in feed order,
/// with the "change address" option appended last.
pub open spec fn station_buttons_spec(stations: Seq<StationModel>) -> Seq<Seq<char>> {
    stations.map_values(|st: StationModel| st.name) + seq!["<< Change address"@]
}

/// Builds the station list's buttons. The "change address" option is
/// always the last button, after one button per station in feed order.
pub fn station_buttons(stations: &Vec<Station>) -> (r: Vec<String>)
    ensures
        view_seq(r@) == station_buttons_spec(view_seq(stations@)),
        r@.len() == stations@.len() + 1,
        r@[r@.len() - 1]@ == "<< Change address"@,
        forall|i: int| 0 <= i < stations@.len() ==> (#[trigger] r@[i])@ == stations@[i]@.name,
{
    let n: usize = stations.len();
    let mut r: Vec<String> = Vec::new();
    let mut i: usize = 0;
    while i < n
        invariant
            n == stations@.len(),
            0 <= i <= n,
            r@.len() == i,
            forall|j: int| 0 <= j < i ==> (#[trigger] r@[j])@ == stations@[j]@.name,
        decreases n - i,
    {
        r.push(stations[i].name.clone());
        i = i + 1;
    }
    r.push("<< Change address".to_owned());
    proof {
        assert(view_seq(r@) =~= station_buttons_spec(view_seq(stations@)));
    }
    r
}

/// `i` is the first index of `stations` whose name begins with the
/// selection text.
pub open spec fn is_first_station_match(
    stations: Seq<StationModel>,
    selection: Seq<char>,
    i: int,
) -> bool {
    &&& 0 <= i < stations.len()
    &&& selection.is_prefix_of(stations[i].name)
    &&& forall|j: int| 0 <= j < i ==> !selection.is_prefix_of((#[trigger] stations[j]).name)
}

/// Index of the first station whose name begins with the selection text.
pub open spec fn first_station_match(stations: Seq<StationModel>, selection: Seq<char>) -> Option<
    int,
> {
    if exists|i: int| is_first_station_match(stations, selection, i) {
        Some(choose|i: int| is_first_station_match(stations, selection, i))
    } else {
        None
    }
}

/// Finds the station a free-form reply names, by prefix matching against
/// the fetched list, first match winning. When one station's name is a
/// prefix of another's this is ambiguous; the earlier entry is taken.
pub fn select_station(stations: &Vec<Station>, selection: &str) -> (r: Option<usize>)
    ensures
        match r {
            Some(i) => i < stations@.len() && first_station_match(
                view_seq(stations@),
                selection@,
            ) == Some(i as int),
            None => first_station_match(view_seq(stations@), selection@) is None,
        },
{
    let ghost m = view_seq(stations@);
    let n: usize = stations.len();
    let mut i: usize = 0;
    while i < n
        invariant
            n == stations@.len(),
            m == view_seq(stations@),
            0 <= i <= n,
            forall|j: int| 0 <= j < i ==> !selection@.is_prefix_of((#[trigger] m[j]).name),
        decreases n - i,
    {
        if crate::text::str_starts_with(stations[i].name.as_str(), selection) {
            proof {
                assert(is_first_station_match(m, selection@, i as int));
                let w = choose|w: int| is_first_station_match(m, selection@, w);
                assert(w == i as int);
            }
            return Some(i);
        }
        i = i + 1;
    }
    proof {
        if exists|w: int| is_first_station_match(m, selection@, w) {
            let w = choose|w: int| is_first_station_match(m, selection@, w);
        }
    }
    None
}

/// What the departure list shows of one feed record: its line and
/// direction, the planned local time where the timestamp parses, and the
/// delay in whole minutes where one is reported and is not zero.
pub open spec fn summary_spec(d: DepartureModel) -> SummaryModel {
    SummaryModel {
        name: d.name,
        direction: d.direction,
        time: match rfc3339_parse(d.planned) {
            Some(p) => Some(clock_of(p.0 + p.1)),
            None => None,
        },
        delay_minutes: match d.delay {
            Some(del) => if del == 0 {
                None
            } else {
                Some(div_towards_zero(del, 60))
            },
            None => None,
        },
    }
}

pub open spec fn summaries_spec(deps: Seq<DepartureModel>) -> Seq<SummaryModel> {
    deps.map_values(|d: DepartureModel| summary_spec(d))
}

/// Reduces one departure to its display summary.
pub fn departure_summary(d: &BusDeparture) -> (r: DepartureSummary)
    ensures
        r@ == summary_spec(d@),
{
    let time: Option<ClockTime> = match parse_rfc3339(d.planned.as_str()) {
        Some(p) => Some(clock_time_of(p.0 + (p.1 as i64))),
        None => None,
    };
    let delay: Option<i64> = match d.delay {
        Some(del) => if del == 0 {
            None
        } else {
            Some(delay_minutes(del))
        },
        None => None,
    };
    DepartureSummary {
        name: d.name.clone(),
        direction: d.direction.clone(),
        time,
        delay_minutes: delay,
    }
}

/// Reduces a station's departures to their display summaries, in order.
pub fn departure_summaries(deps: &Vec<BusDeparture>) -> (r: Vec<DepartureSummary>)
    ensures
        view_seq(r@) == summaries_spec(view_seq(deps@)),
{
    let n: usize = deps.len();
    let mut r: Vec<DepartureSummary> = Vec::new();
    let mut i: usize = 0;
    while i < n
        invariant
            n == deps@.len(),
            0 <= i <= n,
            r@.len() == i,
            forall|j: int| 0 <= j < i ==> (#[trigger] r@[j])@ == summary_spec(deps@[j]@),
        decreases n - i,
    {
        r.push(departure_summary(&deps[i]));
        i = i + 1;
    }
    proof {
        assert(view_seq(r@) =~= summaries_spec(view_seq(deps@)));
    }
    r
}

/// The buttons of the line list: each departure's composite
/// `"name (direction)"` key, in feed order.
pub open spec fn line_buttons_spec(deps: Seq<DepartureModel>) -> Seq<Seq<char>> {
    deps.map_values(|d: DepartureModel| composite_key_spec(d.name, d.direction))
}

/// Builds one selection button per departure, carrying its composite key.
pub fn line_buttons(deps: &Vec<BusDeparture>) -> (r: Vec<String>)
    ensures
        view_seq(r@) == line_buttons_spec(view_seq(deps@)),
{
    let n: usize = deps.len();
    let mut r: Vec<String> = Vec::new();
    let mut i: usize = 0;
    while i < n
        invariant
            n == deps@.len(),
            0 <= i <= n,
            r@.len() == i,
            forall|j: int|
                0 <= j < i ==> (#[trigger] r@[j])@ == composite_key_spec(
                    deps@[j]@.name,
                    deps@[j]@.direction,
                ),
        decreases n - i,
    {
        r.push(composite_key(deps[i].name.as_str(), deps[i].direction.as_str()));
        i = i + 1;
    }
    proof {
        assert(view_seq(r@) =~= line_buttons_spec(view_seq(deps@)));
    }
    r
}

/// A one-effect turn.
fn one_effect(e: Effect) -> (r: Vec<Effect>)
    ensures
        view_seq(r@) == seq![e@],
{
    let mut r: Vec<Effect> = Vec::new();
    r.push(e);
    proof {
        assert(view_seq(r@) =~= seq![e@]);
    }
    r
}

/// An effect-free turn.
fn no_effects() -> (r: Vec<Effect>)
    ensures
        view_seq(r@) == Seq::<EffectModel>::empty(),
{
    let r: Vec<Effect> = Vec::new();
    proof {
        assert(view_seq(r@) =~= Seq::<EffectModel>::empty());
    }
    r
}

/// A two-effect turn.
fn two_effects(a: Effect, b: Effect) -> (r: Vec<Effect>)
    ensures
        view_seq(r@) == seq![a@, b@],
{
    let mut r: Vec<Effect> = Vec::new();
    r.push(a);
    r.push(b);
    proof {
        assert(view_seq(r@) =~= seq![a@, b@]);
    }
    r
}

/// Finalizing the interval selection: with a readable interval of at
/// least one minute, a well-formed composite line key, and a start instant
/// in the range the scheduler's clock admits, the session begins tracking;
/// any stale or malformed selection sends the user back to the start. The
/// session's clock starts one interval early, so its first tick lands on
/// the start instant itself.
pub open spec fn spec_start_session(
    stop_id: Seq<char>,
    transit: Seq<char>,
    minutes_text: Seq<char>,
    user_id: int,
    start_time: int,
) -> (StateModel, Seq<EffectModel>) {
    match (parse_minutes_spec(minutes_text), split_composite_spec(transit)) {
        (Some(m), Some(pair)) => {
            if m >= 1 && -MAX_LOGICAL_TIME <= start_time <= MAX_LOGICAL_TIME
                && -MAX_LOGICAL_TIME <= start_time - 60 * m {
                let session = SessionModel {
                    user_id,
                    stop_id,
                    line_name: pair.0,
                    direction: pair.1,
                    interval_minutes: m as int,
                    logical_now: start_time - 60 * m,
                };
                (
                    StateModel::Tracking,
                    seq![
                        EffectModel::ConfirmInterval { minutes: m as int },
                        EffectModel::StartTracking { session },
                    ],
                )
            } else {
                (StateModel::Idle, seq![EffectModel::PromptRestart])
            }
        },
        _ => (StateModel::Idle, seq![EffectModel::PromptRestart]),
    }
}

/// A selection key the library itself generated starts a session that
/// tracks exactly the line it names: when the stored key is the composite
/// of a line name (one without a parenthesis of its own) and a direction,
/// the minutes text reads as an interval of at least a minute, and the
/// start instant lies in the scheduler's range, the chat moves to
/// `Tracking` and the spawned session carries that name, direction and
/// interval, with its clock set one interval before the start instant.
pub proof fn lemma_selected_line_is_tracked(
    stop_id: Seq<char>,
    line_name: Seq<char>,
    direction: Seq<char>,
    minutes_text: Seq<char>,
    user_id: int,
    start_time: int,
    m: u32,
)
    requires
        forall|j: int| 0 <= j < line_name.len() ==> line_name[j] != '(',
        parse_minutes_spec(minutes_text) == Some(m),
        m >= 1,
        -MAX_LOGICAL_TIME <= start_time <= MAX_LOGICAL_TIME,
        -MAX_LOGICAL_TIME <= start_time - 60 * m,
    ensures
        ({
            let transit = composite_key_spec(line_name, direction);
            let r = spec_start_session(stop_id, transit, minutes_text, user_id, start_time);
            &&& r.0 is Tracking
            &&& r.1.len() == 2
            &&& r.1[1] matches EffectModel::StartTracking { session } && session == (SessionModel {
                user_id,
                stop_id,
                line_name,
                direction,
                interval_minutes: m as int,
                logical_now: start_time - 60 * m,
            })
        }),
{
    crate::text::lemma_composite_key_round_trip(line_name, direction);
}

/// The transition table: for a state and an event, the next state and the
/// turn's effects, exactly.
pub open spec fn spec_advance(s: StateModel, e: EventModel) -> (StateModel, Seq<EffectModel>) {
    match e {
        EventModel::HelpRequested => (s, seq![EffectModel::ShowHelp]),
        EventModel::CancelRequested { user_id } => (
            StateModel::Idle,
            seq![EffectModel::CancelTracking { user_id }, EffectModel::NotifyCancelled],
        ),
        EventModel::GatewayFailed => (s, seq![EffectModel::NotifyFailure]),
        EventModel::TrackingEnded => match s {
            StateModel::Tracking => (StateModel::Idle, Seq::empty()),
            _ => (s, Seq::empty()),
        },
        EventModel::StartKnown { city, addr, stations } => match s {
            StateModel::Idle => (
                StateModel::AwaitingStation { city, addr, stations },
                seq![
                    EffectModel::ShowStations {
                        addr,
                        city,
                        buttons: station_buttons_spec(stations),
                    },
                ],
            ),
            _ => (s, seq![EffectModel::NotifyUnhandled]),
        },
        EventModel::StartUnknown => match s {
            StateModel::Idle => (StateModel::AwaitingCity, seq![EffectModel::PromptCity]),
            _ => (s, seq![EffectModel::NotifyUnhandled]),
        },
        EventModel::CityText { city } => match s {
            StateModel::AwaitingCity => (
                StateModel::AwaitingAddress { city },
                seq![EffectModel::PromptAddress { city }],
            ),
            _ => (s, seq![EffectModel::NotifyUnhandled]),
        },
        EventModel::NotText => match s {
            StateModel::AwaitingCity => (s, seq![EffectModel::RepromptCity]),
            _ => (s, seq![EffectModel::NotifyUnhandled]),
        },
        EventModel::AddressResolved { user, stations } => match s {
            StateModel::AwaitingAddress { city } => (
                StateModel::AwaitingStation { city, addr: user.addr, stations },
                seq![
                    EffectModel::PersistProfile { user },
                    EffectModel::ShowStations {
                        addr: user.addr,
                        city,
                        buttons: station_buttons_spec(stations),
                    },
                ],
            ),
            _ => (s, seq![EffectModel::NotifyUnhandled]),
        },
        EventModel::AddressMissing => match s {
            StateModel::AwaitingAddress { .. } => (s, seq![EffectModel::RepromptAddress]),
            _ => (s, seq![EffectModel::NotifyUnhandled]),
        },
        EventModel::BackToAddress => match s {
            StateModel::AwaitingStation { city, .. } => (
                StateModel::AwaitingAddress { city },
                seq![EffectModel::PromptNewAddress],
            ),
            _ => (s, seq![EffectModel::NotifyUnhandled]),
        },
        EventModel::StationChosen { stop, departures } => match s {
            StateModel::AwaitingStation { city, addr, stations } => {
                match first_station_match(stations, stop) {
                    None => (StateModel::Idle, seq![EffectModel::PromptRestart]),
                    Some(i) => if departures.len() == 0 {
                        (StateModel::Idle, seq![EffectModel::NotifyNoDepartures])
                    } else {
                        (
                            StateModel::AwaitingLine {
                                city,
                                addr,
                                stations,
                                stop,
                                stop_id: stations[i].id,
                            },
                            seq![
                                EffectModel::ShowDepartures {
                                    stop,
                                    summaries: summaries_spec(departures),
                                    buttons: line_buttons_spec(departures),
                                },
                            ],
                        )
                    },
                }
            },
            _ => (s, seq![EffectModel::NotifyUnhandled]),
        },
        EventModel::LineChosen { transit } => match s {
            StateModel::AwaitingLine { city, addr, stations, stop, stop_id } => (
                StateModel::AwaitingInterval { city, addr, stations, stop, stop_id, transit },
                seq![EffectModel::PromptInterval],
            ),
            _ => (s, seq![EffectModel::NotifyUnhandled]),
        },
        EventModel::IntervalChosen { minutes_text, user_id, start_time } => match s {
            StateModel::AwaitingInterval { stop_id, transit, .. } => {
                spec_start_session(stop_id, transit, minutes_text, user_id, start_time)
            },
            _ => (s, seq![EffectModel::NotifyUnhandled]),
        },
        EventModel::Unrecognized => (s, seq![EffectModel::NotifyUnhandled]),
    }
}

/// Advances one chat's conversation by one event: yields exactly the next
/// state and the effects that `spec_advance`, the transition table,
/// prescribes for it.
pub fn advance(state: ConversationState, event: Event) -> (r: (ConversationState, Vec<Effect>))
    ensures
        r.0@ == spec_advance(state@, event@).0,
        view_seq(r.1@) == spec_advance(state@, event@).1,
{
    match event {
        Event::HelpRequested => (state, one_effect(Effect::ShowHelp)),
        Event::CancelRequested { user_id } => (
            ConversationState::Idle,
            two_effects(Effect::CancelTracking { user_id }, Effect::NotifyCancelled),
        ),
        Event::GatewayFailed => (state, one_effect(Effect::NotifyFailure)),
        Event::TrackingEnded => match state {
            ConversationState::Tracking => (ConversationState::Idle, no_effects()),
            other => (other, no_effects()),
        },
        Event::StartKnown { city, addr, stations } => match state {
            ConversationState::Idle => {
                let buttons = station_buttons(&stations);
                let effects = one_effect(
                    Effect::ShowStations { addr: addr.clone(), city: city.clone(), buttons },
                );
                (ConversationState::AwaitingStation { city, addr, stations }, effects)
            },
            other => (other, one_effect(Effect::NotifyUnhandled)),
        },
        Event::StartUnknown => match state {
            ConversationState::Idle => (
                ConversationState::AwaitingCity,
                one_effect(Effect::PromptCity),
            ),
            other => (other, one_effect(Effect::NotifyUnhandled)),
        },
        Event::CityText { city } => match state {
            ConversationState::AwaitingCity => {
                let effects = one_effect(Effect::PromptAddress { city: city.clone() });
                (ConversationState::AwaitingAddress { city }, effects)
            },
            other => (other, one_effect(Effect::NotifyUnhandled)),
        },
        Event::NotText => match state {
            ConversationState::AwaitingCity => (
                ConversationState::AwaitingCity,
                one_effect(Effect::RepromptCity),
            ),
            other => (other, one_effect(Effect::NotifyUnhandled)),
        },
        Event::AddressResolved { user, stations } => match state {
            ConversationState::AwaitingAddress { city } => {
                let addr: String = user.addr.clone();
                let buttons = station_buttons(&stations);
                let effects = two_effects(
                    Effect::PersistProfile { user },
                    Effect::ShowStations { addr: addr.clone(), city: city.clone(), buttons },
                );
                (ConversationState::AwaitingStation { city, addr, stations }, effects)
            },
            other => (other, one_effect(Effect::NotifyUnhandled)),
        },
        Event::AddressMissing => match state {
            ConversationState::AwaitingAddress { city } => (
                ConversationState::AwaitingAddress { city },
                one_effect(Effect::RepromptAddress),
            ),
            other => (other, one_effect(Effect::NotifyUnhandled)),
        },
        Event::BackToAddress => match state {
            ConversationState::AwaitingStation { city, addr: _, stations: _ } => (
                ConversationState::AwaitingAddress { city },
                one_effect(Effect::PromptNewAddress),
            ),
            other => (other, one_effect(Effect::NotifyUnhandled)),
        },
        Event::StationChosen { stop, departures } => match state {
            ConversationState::AwaitingStation { city, addr, stations } => {
                match select_station(&stations, stop.as_str()) {
                    None => (ConversationState::Idle, one_effect(Effect::PromptRestart)),
                    Some(i) => {
                        if departures.len() == 0 {
                            (ConversationState::Idle, one_effect(Effect::NotifyNoDepartures))
                        } else {
                            let stop_id: String = stations[i].id.clone();
                            let summaries = departure_summaries(&departures);
                            let buttons = line_buttons(&departures);
                            let effects = one_effect(
                                Effect::ShowDepartures { stop: stop.clone(), summaries, buttons },
                            );
                            (
                                ConversationState::AwaitingLine {
                                    city,
                                    addr,
                                    stations,
                                    stop,
                                    stop_id,
                                },
                                effects,
                            )
                        }
                    },
                }
            },
            other => (other, one_effect(Effect::NotifyUnhandled)),
        },
        Event::LineChosen { transit } => match state {
            ConversationState::AwaitingLine { city, addr, stations, stop, stop_id } => (
                ConversationState::AwaitingInterval {
                    city,
                    addr,
                    stations,
                    stop,
                    stop_id,
                    transit,
                },
                one_effect(Effect::PromptInterval),
            ),
            other => (other, one_effect(Effect::NotifyUnhandled)),
        },
        Event::IntervalChosen { minutes_text, user_id, start_time } => match state {
            ConversationState::AwaitingInterval {
                city: _,
                addr: _,
                stations: _,
                stop: _,
                stop_id,
                transit,
            } => {
                match (parse_minutes(minutes_text.as_str()), split_composite(transit.as_str())) {
                    (Some(m), Some(pair)) => {
                        if m >= 1 && -MAX_LOGICAL_TIME <= start_time && start_time
                            <= MAX_LOGICAL_TIME && -MAX_LOGICAL_TIME <= start_time - 60 * (
                        m as i64) {
                            let session = TrackingSession {
                                user_id,
                                stop_id,
                                line_name: pair.0,
                                direction: pair.1,
                                interval_minutes: m,
                                logical_now: start_time - 60 * (m as i64),
                            };
                            (
                                ConversationState::Tracking,
                                two_effects(
                                    Effect::ConfirmInterval { minutes: m },
                                    Effect::StartTracking { session },
                                ),
                            )
                        } else {
                            (ConversationState::Idle, one_effect(Effect::PromptRestart))
                        }
                    },
                    _ => (ConversationState::Idle, one_effect(Effect::PromptRestart)),
                }
            },
            other => (other, one_effect(Effect::NotifyUnhandled)),
        },
        Event::Unrecognized => (state, one_effect(Effect::NotifyUnhandled)),
    }
}

} // verus!
