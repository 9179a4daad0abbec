use transit_tracker::convo::{advance, ConversationState, Effect, Event};
use transit_tracker::structs::{BusDeparture, Location, Station, UserData};
use transit_tracker::times::ClockTime;

fn station(id: &str, name: &str) -> Station {
    Station {
        id: id.to_string(),
        name: name.to_string(),
        location: Location { lat: "52.52".to_string(), lon: "13.41".to_string() },
        distance: 120,
    }
}

fn departure(name: &str, direction: &str, planned: &str, delay: Option<i64>) -> BusDeparture {
    BusDeparture {
        stop_id: "900100003".to_string(),
        planned: planned.to_string(),
        delay,
        direction: direction.to_string(),
        name: name.to_string(),
        destination: Station::default(),
        curr_position: None,
    }
}

fn profile(id: &str, city: &str, addr: &str) -> UserData {
    UserData {
        id: id.to_string(),
        city: city.to_string(),
        addr: addr.to_string(),
        lat: "52.52".to_string(),
        lon: "13.41".to_string(),
    }
}

fn awaiting_station() -> ConversationState {
    ConversationState::AwaitingStation {
        city: "Berlin".to_string(),
        addr: "Alexanderplatz 1".to_string(),
        stations: vec![station("900100003", "Alexanderplatz"), station("900100004", "Hackescher Markt")],
    }
}

fn awaiting_interval() -> ConversationState {
    ConversationState::AwaitingInterval {
        city: "Berlin".to_string(),
        addr: "Alexanderplatz 1".to_string(),
        stations: vec![station("900100003", "Alexanderplatz")],
        stop: "Alexanderplatz".to_string(),
        stop_id: "900100003".to_string(),
        transit: "100 (Downtown)".to_string(),
    }
}

#[test]
fn test_start_unknown_prompts_for_city() {
    let (state, effects) = advance(ConversationState::Idle, Event::StartUnknown);
    assert!(matches!(state, ConversationState::AwaitingCity));
    assert_eq!(effects.len(), 1);
    assert!(matches!(effects[0], Effect::PromptCity));
}

#[test]
fn test_start_known_lists_stations() {
    let event = Event::StartKnown {
        city: "Berlin".to_string(),
        addr: "Alexanderplatz 1".to_string(),
        stations: vec![station("900100003", "Alexanderplatz")],
    };
    let (state, effects) = advance(ConversationState::Idle, event);
    assert!(matches!(state, ConversationState::AwaitingStation { .. }));
    assert_eq!(effects.len(), 1);
    match &effects[0] {
        Effect::ShowStations { addr, city, buttons } => {
            assert_eq!(addr, "Alexanderplatz 1");
            assert_eq!(city, "Berlin");
            assert_eq!(buttons.len(), 2);
            assert_eq!(buttons[0], "Alexanderplatz");
            assert_eq!(buttons[1], "<< Change address");
        },
        other => panic!("expected a station list, got {:?}", other),
    }
}

#[test]
fn test_start_outside_idle_is_unhandled() {
    let (state, effects) = advance(ConversationState::AwaitingCity, Event::StartUnknown);
    assert!(matches!(state, ConversationState::AwaitingCity));
    assert!(matches!(effects[0], Effect::NotifyUnhandled));
}

#[test]
fn test_city_text_moves_to_address() {
    let event = Event::CityText { city: "Berlin".to_string() };
    let (state, effects) = advance(ConversationState::AwaitingCity, event);
    match state {
        ConversationState::AwaitingAddress { city } => assert_eq!(city, "Berlin"),
        other => panic!("expected the address prompt state, got {:?}", other),
    }
    assert!(matches!(&effects[0], Effect::PromptAddress { .. }));
}

#[test]
fn test_textless_city_message_reprompts() {
    let (state, effects) = advance(ConversationState::AwaitingCity, Event::NotText);
    assert!(matches!(state, ConversationState::AwaitingCity));
    assert!(matches!(effects[0], Effect::RepromptCity));
}

#[test]
fn test_address_resolved_persists_and_lists() {
    let state = ConversationState::AwaitingAddress { city: "Berlin".to_string() };
    let event = Event::AddressResolved {
        user: profile("42", "Berlin", "Alexanderplatz 1"),
        stations: vec![station("900100003", "Alexanderplatz")],
    };
    let (state, effects) = advance(state, event);
    assert!(matches!(state, ConversationState::AwaitingStation { .. }));
    assert_eq!(effects.len(), 2);
    match &effects[0] {
        Effect::PersistProfile { user } => {
            assert_eq!(user.id, "42");
            assert_eq!(user.addr, "Alexanderplatz 1");
        },
        other => panic!("expected the profile to be persisted, got {:?}", other),
    }
    assert!(matches!(&effects[1], Effect::ShowStations { .. }));
}

#[test]
fn test_addressless_message_reprompts() {
    let state = ConversationState::AwaitingAddress { city: "Berlin".to_string() };
    let (state, effects) = advance(state, Event::AddressMissing);
    assert!(matches!(state, ConversationState::AwaitingAddress { .. }));
    assert!(matches!(effects[0], Effect::RepromptAddress));
}

#[test]
fn test_gateway_failure_does_not_advance() {
    let state = ConversationState::AwaitingAddress { city: "Berlin".to_string() };
    let (state, effects) = advance(state, Event::GatewayFailed);
    match state {
        ConversationState::AwaitingAddress { city } => assert_eq!(city, "Berlin"),
        other => panic!("expected the state to stay, got {:?}", other),
    }
    assert!(matches!(effects[0], Effect::NotifyFailure));
}

#[test]
fn test_back_returns_to_address() {
    let (state, effects) = advance(awaiting_station(), Event::BackToAddress);
    match state {
        ConversationState::AwaitingAddress { city } => assert_eq!(city, "Berlin"),
        other => panic!("expected the address prompt state, got {:?}", other),
    }
    assert!(matches!(effects[0], Effect::PromptNewAddress));
}

#[test]
fn test_station_chosen_lists_departures() {
    let event = Event::StationChosen {
        stop: "Alexanderplatz".to_string(),
        departures: vec![
            departure("100", "Downtown", "2024-01-01T10:00:00+00:00", Some(120)),
            departure("S7", "Potsdam", "2024-01-01T10:05:00+00:00", None),
        ],
    };
    let (state, effects) = advance(awaiting_station(), event);
    match &state {
        ConversationState::AwaitingLine { stop, stop_id, .. } => {
            assert_eq!(stop, "Alexanderplatz");
            assert_eq!(stop_id, "900100003");
        },
        other => panic!("expected the line prompt state, got {:?}", other),
    }
    assert_eq!(effects.len(), 1);
    match &effects[0] {
        Effect::ShowDepartures { stop, summaries, buttons } => {
            assert_eq!(stop, "Alexanderplatz");
            assert_eq!(summaries.len(), 2);
            assert_eq!(summaries[0].name, "100");
            assert_eq!(summaries[0].time, Some(ClockTime { hour: 10, minute: 0 }));
            assert_eq!(summaries[0].delay_minutes, Some(2));
            assert_eq!(summaries[1].delay_minutes, None);
            assert_eq!(buttons.len(), 2);
            assert_eq!(buttons[0], "100 (Downtown)");
            assert_eq!(buttons[1], "S7 (Potsdam)");
        },
        other => panic!("expected the departure list, got {:?}", other),
    }
}

#[test]
fn test_station_prefix_match_first_wins() {
    let state = ConversationState::AwaitingStation {
        city: "Berlin".to_string(),
        addr: "Alexanderplatz 1".to_string(),
        stations: vec![station("1", "Alexanderplatz"), station("2", "Alexanderplatz Bhf")],
    };
    let event = Event::StationChosen {
        stop: "Alexanderplatz".to_string(),
        departures: vec![departure("100", "Downtown", "2024-01-01T10:00:00+00:00", None)],
    };
    let (state, _) = advance(state, event);
    match state {
        ConversationState::AwaitingLine { stop_id, .. } => assert_eq!(stop_id, "1"),
        other => panic!("expected the line prompt state, got {:?}", other),
    }
}

#[test]
fn test_station_chosen_without_departures_resets() {
    let event = Event::StationChosen {
        stop: "Alexanderplatz".to_string(),
        departures: vec![],
    };
    let (state, effects) = advance(awaiting_station(), event);
    assert!(matches!(state, ConversationState::Idle));
    assert!(matches!(effects[0], Effect::NotifyNoDepartures));
}

#[test]
fn test_stale_station_selection_restarts() {
    let event = Event::StationChosen {
        stop: "Ostbahnhof".to_string(),
        departures: vec![departure("100", "Downtown", "2024-01-01T10:00:00+00:00", None)],
    };
    let (state, effects) = advance(awaiting_station(), event);
    assert!(matches!(state, ConversationState::Idle));
    assert!(matches!(effects[0], Effect::PromptRestart));
}

#[test]
fn test_line_chosen_prompts_interval() {
    let state = ConversationState::AwaitingLine {
        city: "Berlin".to_string(),
        addr: "Alexanderplatz 1".to_string(),
        stations: vec![station("900100003", "Alexanderplatz")],
        stop: "Alexanderplatz".to_string(),
        stop_id: "900100003".to_string(),
    };
    let event = Event::LineChosen { transit: "100 (Downtown)".to_string() };
    let (state, effects) = advance(state, event);
    match state {
        ConversationState::AwaitingInterval { transit, .. } => assert_eq!(transit, "100 (Downtown)"),
        other => panic!("expected the interval prompt state, got {:?}", other),
    }
    assert!(matches!(effects[0], Effect::PromptInterval));
}

#[test]
fn test_interval_chosen_starts_tracking() {
    let event = Event::IntervalChosen {
        minutes_text: "5".to_string(),
        user_id: 42,
        start_time: 1704103200,
    };
    let (state, effects) = advance(awaiting_interval(), event);
    assert!(matches!(state, ConversationState::Tracking));
    assert_eq!(effects.len(), 2);
    match &effects[0] {
        Effect::ConfirmInterval { minutes } => assert_eq!(*minutes, 5),
        other => panic!("expected the interval confirmation, got {:?}", other),
    }
    match &effects[1] {
        Effect::StartTracking { session } => {
            assert_eq!(session.user_id, 42);
            assert_eq!(session.stop_id, "900100003");
            assert_eq!(session.line_name, "100");
            assert_eq!(session.direction, "Downtown");
            assert_eq!(session.interval_minutes, 5);
            // The clock starts one interval early: the first tick lands on
            // the selection instant itself.
            assert_eq!(session.logical_now, 1704103200 - 300);
        },
        other => panic!("expected the session to start, got {:?}", other),
    }
}

#[test]
fn test_interval_chosen_garbage_restarts() {
    let event = Event::IntervalChosen {
        minutes_text: "soon".to_string(),
        user_id: 42,
        start_time: 1704103200,
    };
    let (state, effects) = advance(awaiting_interval(), event);
    assert!(matches!(state, ConversationState::Idle));
    assert!(matches!(effects[0], Effect::PromptRestart));
}

#[test]
fn test_interval_chosen_zero_restarts() {
    let event = Event::IntervalChosen {
        minutes_text: "0".to_string(),
        user_id: 42,
        start_time: 1704103200,
    };
    let (state, effects) = advance(awaiting_interval(), event);
    assert!(matches!(state, ConversationState::Idle));
    assert!(matches!(effects[0], Effect::PromptRestart));
}

#[test]
fn test_cancel_aborts_and_resets() {
    let (state, effects) = advance(ConversationState::Tracking, Event::CancelRequested {
        user_id: 42,
    });
    assert!(matches!(state, ConversationState::Idle));
    assert_eq!(effects.len(), 2);
    match &effects[0] {
        Effect::CancelTracking { user_id } => assert_eq!(*user_id, 42),
        other => panic!("expected the task cancellation, got {:?}", other),
    }
    assert!(matches!(effects[1], Effect::NotifyCancelled));
}

#[test]
fn test_scheduler_end_returns_to_idle() {
    let (state, effects) = advance(ConversationState::Tracking, Event::TrackingEnded);
    assert!(matches!(state, ConversationState::Idle));
    assert!(effects.is_empty());
}

#[test]
fn test_unrecognized_leaves_state() {
    let (state, effects) = advance(ConversationState::Tracking, Event::Unrecognized);
    assert!(matches!(state, ConversationState::Tracking));
    assert!(matches!(effects[0], Effect::NotifyUnhandled));
}

#[test]
fn test_help_shows_commands() {
    let (state, effects) = advance(ConversationState::Idle, Event::HelpRequested);
    assert!(matches!(state, ConversationState::Idle));
    assert!(matches!(effects[0], Effect::ShowHelp));
}

#[test]
fn test_onboarding_scenario() {
    // A user with no stored profile: start, city, address; the reply is a
    // non-empty station list whose last option changes the address.
    let (state, effects) = advance(ConversationState::Idle, Event::StartUnknown);
    assert!(matches!(effects[0], Effect::PromptCity));

    let (state, _) = advance(state, Event::CityText { city: "Berlin".to_string() });

    let event = Event::AddressResolved {
        user: profile("42", "Berlin", "Alexanderplatz 1"),
        stations: vec![
            station("900100003", "Alexanderplatz"),
            station("900100004", "Hackescher Markt"),
        ],
    };
    let (state, effects) = advance(state, event);
    assert!(matches!(state, ConversationState::AwaitingStation { .. }));
    match &effects[1] {
        Effect::ShowStations { buttons, .. } => {
            assert!(buttons.len() > 1);
            assert_eq!(buttons.last().unwrap(), "<< Change address");
        },
        other => panic!("expected the station list, got {:?}", other),
    }
}
