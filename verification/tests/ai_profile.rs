use domain::ai_profile::AIProfile;
use domain::ai_profile::Event;
use domain::ai_profile::MoveSelected;
use domain::ai_profile::SelectMove;
use domain::shared::Command;
use domain::shared::DomainError;
use domain::shared::Payload;

fn ready_profile() -> AIProfile {
    let mut profile = AIProfile::new("profile-01");
    profile.set_strategy_kind_consistent(true);
    profile.set_within_search_budget(true);
    profile.set_scripted_deterministic(true);
    profile
}

fn valid_cmd() -> SelectMove {
    SelectMove::new("profile-01", "board:e4")
}

// Scenario: Successfully execute SelectMoveCmd.
#[test]
fn selects_move_and_emits_event() {
    let mut profile = ready_profile();

    let events = profile
        .execute(valid_cmd().into_command())
        .expect("valid move selection should succeed");

    assert_eq!(events.len(), 1);
    assert_eq!(events[0].event_type(), "ai.move.selected");
    match &events[0] {
        Event::MoveSelected(selected) => {
            assert_eq!(selected.profile_id, "profile-01");
            assert_eq!(selected.board_state, "board:e4");
        }
    }
    assert_eq!(profile.moves_selected(), 1);
    assert_eq!(profile.version(), 1);
    assert_eq!(profile.uncommitted_events().len(), 1);
    assert_eq!(
        profile.uncommitted_events()[0].event_type(),
        "ai.move.selected"
    );
}

// Scenario: SelectMoveCmd rejected - A difficulty tier maps to exactly one
// strategy kind (scripted for prologue; MCTS for Standard/Brutal/Legendary).
#[test]
fn rejects_when_strategy_kind_is_inconsistent() {
    let mut profile = ready_profile();
    profile.set_strategy_kind_consistent(false);

    let err = profile.execute(valid_cmd().into_command()).expect_err(
        "a difficulty tier mapping to more than one strategy kind must be rejected",
    );

    assert!(matches!(err, DomainError::InvariantViolation(_)));
    assert_eq!(profile.moves_selected(), 0);
    assert_eq!(profile.version(), 0);
}

// Scenario: SelectMoveCmd rejected - MCTS move selection must stay within
// its configured search budget.
#[test]
fn rejects_when_search_budget_is_exceeded() {
    let mut profile = ready_profile();
    profile.set_within_search_budget(false);

    let err = profile
        .execute(valid_cmd().into_command())
        .expect_err("an MCTS selection exceeding its search budget must be rejected");

    assert!(matches!(err, DomainError::InvariantViolation(_)));
    assert_eq!(profile.moves_selected(), 0);
    assert_eq!(profile.version(), 0);
}

// Scenario: SelectMoveCmd rejected - Scripted profiles are deterministic for
// a given mission and state.
#[test]
fn rejects_when_scripted_choice_is_non_deterministic() {
    let mut profile = ready_profile();
    profile.set_scripted_deterministic(false);

    let err = profile
        .execute(valid_cmd().into_command())
        .expect_err("a non-deterministic scripted profile must be rejected");

    assert!(matches!(err, DomainError::InvariantViolation(_)));
    assert_eq!(profile.moves_selected(), 0);
    assert_eq!(profile.version(), 0);
}

#[test]
fn rejects_command_for_a_different_profile() {
    let mut profile = ready_profile();

    let err = profile
        .execute(SelectMove::new("profile-99", "board:e4").into_command())
        .expect_err("a command for another profile must be rejected");

    assert!(matches!(err, DomainError::InvariantViolation(_)));
    assert_eq!(profile.moves_selected(), 0);
    assert_eq!(profile.version(), 0);
}

#[test]
fn rejects_missing_profile_id() {
    let mut profile = ready_profile();

    let err = profile
        .execute(SelectMove::new("   ", "board:e4").into_command())
        .expect_err("missing profileId must be rejected");

    assert!(matches!(err, DomainError::InvariantViolation(_)));
    assert_eq!(profile.version(), 0);
}

#[test]
fn rejects_missing_board_state() {
    let mut profile = ready_profile();

    let err = profile
        .execute(SelectMove::new("profile-01", "   ").into_command())
        .expect_err("missing boardState must be rejected");

    assert!(matches!(err, DomainError::InvariantViolation(_)));
    assert_eq!(profile.version(), 0);
}

#[test]
fn selects_successive_moves() {
    let mut profile = ready_profile();

    profile
        .execute(valid_cmd().into_command())
        .expect("first move selection should succeed");
    profile
        .execute(SelectMove::new("profile-01", "board:e5").into_command())
        .expect("second move selection should succeed");

    assert_eq!(profile.moves_selected(), 2);
    assert_eq!(profile.version(), 2);
}

#[test]
fn ai_profile_rejects_unknown_command() {
    let mut profile = AIProfile::new("profile-01");
    let err = profile.execute(Command::new("NoSuchCommand")).unwrap_err();

    match err {
        DomainError::UnknownCommand { aggregate, command } => {
            assert_eq!(aggregate, "AIProfile");
            assert_eq!(command, "NoSuchCommand");
        }
        other => panic!("expected UnknownCommand, got {other:?}"),
    }
}

#[test]
fn ai_profile_command_payload_round_trips() {
    let cmd = valid_cmd();
    let command = cmd.into_command();

    assert_eq!(command.name, SelectMove::COMMAND);
    let decoded: SelectMove = match command.payload {
        Payload::Decoded(decoded) => decoded,
        Payload::Malformed(complaint) => panic!("expected a payload, got {complaint}"),
    };
    assert_eq!(decoded, valid_cmd());
}

fn message(err: DomainError) -> String {
    match err {
        DomainError::InvariantViolation(message) => message,
        other => panic!("expected InvariantViolation, got {other:?}"),
    }
}

fn profile_refusal(change: fn(&mut AIProfile, &mut SelectMove)) -> String {
    let mut profile = ready_profile();
    let mut cmd = valid_cmd();
    change(&mut profile, &mut cmd);
    let err = profile.execute(cmd.into_command()).unwrap_err();
    assert_eq!(profile.version(), 0);
    assert_eq!(profile.moves_selected(), 0);
    message(err)
}

#[test]
fn profile_refusals_are_exact() {
    assert_eq!(
        profile_refusal(|_, cmd| cmd.profile_id = " ".to_string()),
        "ai profile 'profile-01' requires a valid profileId to select a move"
    );
    assert_eq!(
        profile_refusal(|_, cmd| cmd.board_state = " ".to_string()),
        "ai profile 'profile-01' requires a valid boardState to select a move"
    );
    assert_eq!(
        profile_refusal(|_, cmd| cmd.profile_id = "profile-02".to_string()),
        "command targets ai profile 'profile-02' but this aggregate is ai profile 'profile-01'"
    );
    assert_eq!(
        profile_refusal(|profile, _| profile.set_strategy_kind_consistent(false)),
        "ai profile 'profile-01' has a difficulty tier that does not map to exactly one strategy \
         kind; a difficulty tier maps to exactly one strategy kind (scripted for prologue; MCTS for \
         Standard/Brutal/Legendary)"
    );
    assert_eq!(
        profile_refusal(|profile, _| profile.set_within_search_budget(false)),
        "ai profile 'profile-01' exceeded its configured search budget; MCTS move selection must \
         stay within its configured search budget"
    );
    assert_eq!(
        profile_refusal(|profile, _| profile.set_scripted_deterministic(false)),
        "ai profile 'profile-01' produced a non-deterministic scripted choice; scripted profiles \
         are deterministic for a given mission and state"
    );
}

#[test]
fn malformed_move_payload_is_told() {
    let mut profile = ready_profile();
    let err = profile
        .execute(Command::with_payload(
            SelectMove::COMMAND,
            Payload::Malformed("missing field `boardState` at line 1 column 2".to_string()),
        ))
        .unwrap_err();
    assert_eq!(
        message(err),
        "malformed SelectMoveCmd payload: missing field `boardState` at line 1 column 2"
    );
}
