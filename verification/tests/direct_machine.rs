use fsm_engine::direct::{State, FSM};

#[derive(Debug, Hash, Clone, Copy, PartialEq, Eq)]
enum TrafficLightState {
    RED,
    YELLOW,
    GREEN,
}

impl State for TrafficLightState {}

#[test]
fn test_new() {
    let fsm = FSM::new(&TrafficLightState::RED);
    assert_eq!(fsm.state().unwrap(), &TrafficLightState::RED);
}

#[test]
fn test_from_schema() {
    let schema = get_schema();

    let mut fsm = FSM::from_schema(&TrafficLightState::RED, &schema);
    assert_eq!(fsm.state().unwrap(), &TrafficLightState::RED);

    fsm.change_state(&TrafficLightState::YELLOW);
    assert_eq!(fsm.state().unwrap(), &TrafficLightState::YELLOW);

    fsm.change_state(&TrafficLightState::GREEN);
    assert_eq!(fsm.state().unwrap(), &TrafficLightState::GREEN);

    fsm.change_state(&TrafficLightState::YELLOW);
    assert_eq!(fsm.state().unwrap(), &TrafficLightState::YELLOW);

    fsm.change_state(&TrafficLightState::RED);
    assert_eq!(fsm.state().unwrap(), &TrafficLightState::RED);
}

#[test]
#[should_panic]
fn test_invalid_change_state() {
    let schema = get_schema();

    let mut fsm = FSM::from_schema(&TrafficLightState::RED, &schema);
    fsm.change_state(&TrafficLightState::GREEN);
}

fn get_schema() -> Vec<(TrafficLightState, TrafficLightState)> {
    [
        (TrafficLightState::RED, TrafficLightState::YELLOW),
        (TrafficLightState::YELLOW, TrafficLightState::GREEN),
        (TrafficLightState::GREEN, TrafficLightState::YELLOW),
        (TrafficLightState::YELLOW, TrafficLightState::RED),
    ]
    .to_vec()
}

/// Duplicate edges in the batch collapse: the machine behaves as if the edge
/// were given once.
#[test]
fn test_from_schema_duplicates_collapse() {
    let schema = vec![
        (TrafficLightState::RED, TrafficLightState::YELLOW),
        (TrafficLightState::RED, TrafficLightState::YELLOW),
        (TrafficLightState::YELLOW, TrafficLightState::RED),
    ];
    let mut fsm = FSM::from_schema(&TrafficLightState::RED, &schema);
    fsm.change_state(&TrafficLightState::YELLOW);
    assert_eq!(fsm.state().unwrap(), &TrafficLightState::YELLOW);
    fsm.change_state(&TrafficLightState::RED);
    assert_eq!(fsm.state().unwrap(), &TrafficLightState::RED);
}

/// `state()` is a pure observation: repeated calls without an intervening
/// mutator agree.
#[test]
fn test_direct_state_is_idempotent() {
    let schema = get_schema();
    let mut fsm = FSM::from_schema(&TrafficLightState::RED, &schema);
    assert_eq!(fsm.state().unwrap(), fsm.state().unwrap());
    fsm.change_state(&TrafficLightState::YELLOW);
    assert_eq!(fsm.state().unwrap(), fsm.state().unwrap());
    assert_eq!(fsm.state().unwrap(), &TrafficLightState::YELLOW);
}

/// End-to-end traffic-light scenario over the declared adjacency graph:
/// Red to Yellow to Green, each step committed and observable.
#[test]
fn test_traffic_light_direct_scenario() {
    let schema = get_schema();
    let mut fsm = FSM::from_schema(&TrafficLightState::RED, &schema);

    fsm.change_state(&TrafficLightState::YELLOW);
    assert_eq!(fsm.state().unwrap(), &TrafficLightState::YELLOW);

    fsm.change_state(&TrafficLightState::GREEN);
    assert_eq!(fsm.state().unwrap(), &TrafficLightState::GREEN);
}
