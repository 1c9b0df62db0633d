use zoop_engine::game_set::{Game, Rollback, SaveAndChecksum};
use zoop_engine::ggrs_config::GGRSConfig;
use zoop_engine::session::{
    assign_slots, start_network_session, plan_session, validate_prediction_window, NetworkPlayer,
    PlayerId, PlayerSlot, SessionError, DESYNC_INTERVAL, INPUT_DELAY, MAX_PREDICTION_WINDOW,
    PREDICTION_WINDOW,
};

fn roster() -> Vec<NetworkPlayer> {
    vec![
        NetworkPlayer { is_local: false, id: PlayerId(30) },
        NetworkPlayer { is_local: true, id: PlayerId(10) },
        NetworkPlayer { is_local: false, id: PlayerId(20) },
    ]
}

#[test]
fn session_parameters_of_the_game() {
    assert_eq!(PREDICTION_WINDOW, 12);
    assert_eq!(INPUT_DELAY, 3);
    assert_eq!(DESYNC_INTERVAL, 10);
    assert!(PREDICTION_WINDOW <= MAX_PREDICTION_WINDOW);
}

#[test]
fn window_above_ceiling_is_refused() {
    let planned = plan_session(&roster(), MAX_PREDICTION_WINDOW + 1, 3, 10);
    assert_eq!(planned.err(), Some(SessionError::InvalidPredictionWindow));
    let planned = plan_session(&roster(), usize::MAX, 3, 10);
    assert_eq!(planned.err(), Some(SessionError::InvalidPredictionWindow));
}

#[test]
fn window_of_zero_is_refused() {
    let planned = plan_session(&roster(), 0, 3, 10);
    assert_eq!(planned.err(), Some(SessionError::InvalidPredictionWindow));
}

#[test]
fn window_at_the_ceiling_is_accepted() {
    let plan = plan_session(&roster(), MAX_PREDICTION_WINDOW, 0, 1).unwrap();
    assert_eq!(plan.max_prediction_window, MAX_PREDICTION_WINDOW);
    let plan = plan_session(&roster(), 1, 0, 1).unwrap();
    assert_eq!(plan.max_prediction_window, 1);
}

#[test]
fn validation_gives_the_window_back() {
    assert_eq!(validate_prediction_window(12), Ok(12));
    assert_eq!(validate_prediction_window(0), Err(SessionError::InvalidPredictionWindow));
    assert_eq!(validate_prediction_window(129), Err(SessionError::InvalidPredictionWindow));
}

#[test]
fn slots_follow_roster_order() {
    let plan = plan_session(&roster(), 8, 2, 5).unwrap();
    assert_eq!(plan.num_players, 3);
    assert_eq!(plan.max_prediction_window, 8);
    assert_eq!(plan.input_delay, 2);
    assert_eq!(plan.desync_interval, 5);
    assert_eq!(
        plan.slots,
        vec![
            PlayerSlot::Remote(PlayerId(30)),
            PlayerSlot::Local,
            PlayerSlot::Remote(PlayerId(20)),
        ]
    );
}

#[test]
fn network_session_uses_the_game_parameters() {
    let plan = start_network_session(&roster()).unwrap();
    assert_eq!(plan.num_players, 3);
    assert_eq!(plan.max_prediction_window, 12);
    assert_eq!(plan.input_delay, 3);
    assert_eq!(plan.desync_interval, 10);
    assert_eq!(plan.slots, assign_slots(&roster()));
}

#[test]
fn empty_roster_has_no_slots() {
    let plan = start_network_session(&Vec::new()).unwrap();
    assert_eq!(plan.num_players, 0);
    assert!(plan.slots.is_empty());
}

#[test]
fn all_local_roster() {
    let players = vec![
        NetworkPlayer { is_local: true, id: PlayerId(1) },
        NetworkPlayer { is_local: true, id: PlayerId(2) },
    ];
    assert_eq!(assign_slots(&players), vec![PlayerSlot::Local, PlayerSlot::Local]);
}

#[test]
fn schedule_sets_compare_equal_to_themselves() {
    assert_eq!(Rollback, Rollback.clone());
    assert_eq!(Game, Game.clone());
    assert_eq!(SaveAndChecksum, SaveAndChecksum.clone());
    assert_eq!(format!("{:?}", GGRSConfig), "GGRSConfig");
}
