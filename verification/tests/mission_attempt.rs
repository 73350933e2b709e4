use domain::mission_attempt::AdvanceMissionState;
use domain::mission_attempt::ClaimFirstClearReward;
use domain::mission_attempt::Event;
use domain::mission_attempt::FirstClearRewardClaimed;
use domain::mission_attempt::MissionAttempt;
use domain::mission_attempt::MissionStateAdvanced;
use domain::mission_attempt::Request;
use domain::shared::Command;
use domain::shared::DomainError;
use domain::shared::Payload;

fn ready_attempt() -> MissionAttempt {
    let mut attempt = MissionAttempt::new("attempt-01");
    attempt.set_first_clear_reward_claimed(false);
    attempt.set_prologue_predecessor_cleared(true);
    attempt.set_reprise_rotation_eligible(true);
    attempt.set_scripted_points_satisfied(true);
    attempt
}

fn valid_cmd() -> ClaimFirstClearReward {
    ClaimFirstClearReward::new("player-01", "mission-01")
}

fn valid_advance_cmd() -> AdvanceMissionState {
    AdvanceMissionState::new("attempt-01", "boss_hp_50")
}

// Scenario: Successfully execute ClaimFirstClearRewardCmd.
#[test]
fn claims_first_clear_reward_and_emits_event() {
    let mut attempt = ready_attempt();

    let events = attempt
        .execute(valid_cmd().into_command())
        .expect("valid first-clear reward claim should succeed");

    assert_eq!(events.len(), 1);
    assert_eq!(events[0].event_type(), "first.clear.reward.claimed");
    match &events[0] {
        Event::FirstClearRewardClaimed(claimed) => {
            assert_eq!(claimed.player_id, "player-01");
            assert_eq!(claimed.mission_id, "mission-01");
        }
        other => panic!("expected FirstClearRewardClaimed, got {other:?}"),
    }
    assert!(attempt.first_clear_reward_claimed());
    assert_eq!(attempt.version(), 1);
    assert_eq!(attempt.uncommitted_events().len(), 1);
    assert_eq!(
        attempt.uncommitted_events()[0].event_type(),
        "first.clear.reward.claimed"
    );
}

// Scenario: Successfully execute AdvanceMissionStateCmd.
#[test]
fn advances_mission_state_and_emits_event() {
    let mut attempt = ready_attempt();

    let events = attempt
        .execute(valid_advance_cmd().into_command())
        .expect("valid mission state advance should succeed");

    assert_eq!(events.len(), 1);
    assert_eq!(events[0].event_type(), "mission.state.advanced");
    match &events[0] {
        Event::MissionStateAdvanced(advanced) => {
            assert_eq!(advanced.mission_attempt_id, "attempt-01");
            assert_eq!(advanced.trigger, "boss_hp_50");
            assert_eq!(advanced.scripted_state_step, 1);
        }
        other => panic!("expected MissionStateAdvanced, got {other:?}"),
    }
    assert_eq!(attempt.scripted_state_step(), 1);
    assert_eq!(attempt.version(), 1);
    assert_eq!(attempt.uncommitted_events().len(), 1);
    assert_eq!(
        attempt.uncommitted_events()[0].event_type(),
        "mission.state.advanced"
    );
}

// Scenario: AdvanceMissionStateCmd rejected - The fixed $MADE reward for a
// mission is granted only on the player's first clear, ever.
#[test]
fn advance_rejects_when_first_clear_reward_was_already_claimed() {
    let mut attempt = ready_attempt();
    attempt.set_first_clear_reward_claimed(true);

    let err = attempt
        .execute(valid_advance_cmd().into_command())
        .expect_err("an advance violating first-clear reward rules must be rejected");

    assert!(matches!(err, DomainError::InvariantViolation(_)));
    assert_eq!(attempt.scripted_state_step(), 0);
    assert_eq!(attempt.version(), 0);
}

// Scenario: AdvanceMissionStateCmd rejected - Prologue missions are gated in
// sequence; a mission unlocks only after its predecessor is cleared.
#[test]
fn advance_rejects_when_prologue_predecessor_is_uncleared() {
    let mut attempt = ready_attempt();
    attempt.set_prologue_predecessor_cleared(false);

    let err = attempt
        .execute(valid_advance_cmd().into_command())
        .expect_err("an advance with an uncleared predecessor must be rejected");

    assert!(matches!(err, DomainError::InvariantViolation(_)));
    assert_eq!(attempt.scripted_state_step(), 0);
    assert_eq!(attempt.version(), 0);
}

// Scenario: AdvanceMissionStateCmd rejected - Only missions in today's
// Reprise rotation are eligible for repeat rewards.
#[test]
fn advance_rejects_when_mission_is_not_in_reprise_rotation() {
    let mut attempt = ready_attempt();
    attempt.set_reprise_rotation_eligible(false);

    let err = attempt
        .execute(valid_advance_cmd().into_command())
        .expect_err("an advance outside today's Reprise rotation must be rejected");

    assert!(matches!(err, DomainError::InvariantViolation(_)));
    assert_eq!(attempt.scripted_state_step(), 0);
    assert_eq!(attempt.version(), 0);
}

// Scenario: AdvanceMissionStateCmd rejected - Per-mission special rules and
// boss HP-threshold barks fire exactly at their scripted points.
#[test]
fn advance_rejects_when_scripted_points_are_not_satisfied() {
    let mut attempt = ready_attempt();
    attempt.set_scripted_points_satisfied(false);

    let err = attempt
        .execute(valid_advance_cmd().into_command())
        .expect_err("an advance at the wrong scripted point must be rejected");

    assert!(matches!(err, DomainError::InvariantViolation(_)));
    assert_eq!(attempt.scripted_state_step(), 0);
    assert_eq!(attempt.version(), 0);
}

#[test]
fn advance_rejects_command_for_a_different_attempt() {
    let mut attempt = ready_attempt();

    let err = attempt
        .execute(AdvanceMissionState::new("attempt-99", "boss_hp_50").into_command())
        .expect_err("an advance command for another attempt must be rejected");

    assert!(matches!(err, DomainError::InvariantViolation(_)));
    assert_eq!(attempt.scripted_state_step(), 0);
    assert_eq!(attempt.version(), 0);
}

#[test]
fn advance_rejects_missing_mission_attempt_id() {
    let mut attempt = ready_attempt();

    let err = attempt
        .execute(AdvanceMissionState::new("   ", "boss_hp_50").into_command())
        .expect_err("missing missionAttemptId must be rejected");

    assert!(matches!(err, DomainError::InvariantViolation(_)));
    assert_eq!(attempt.scripted_state_step(), 0);
    assert_eq!(attempt.version(), 0);
}

#[test]
fn advance_rejects_missing_trigger() {
    let mut attempt = ready_attempt();

    let err = attempt
        .execute(AdvanceMissionState::new("attempt-01", "   ").into_command())
        .expect_err("missing trigger must be rejected");

    assert!(matches!(err, DomainError::InvariantViolation(_)));
    assert_eq!(attempt.scripted_state_step(), 0);
    assert_eq!(attempt.version(), 0);
}

#[test]
fn advance_command_payload_round_trips() {
    let cmd = valid_advance_cmd();
    let command = cmd.into_command();

    assert_eq!(command.name, AdvanceMissionState::COMMAND);
    let decoded: AdvanceMissionState = match command.payload {
        Payload::Decoded(Request::AdvanceMissionState(decoded)) => decoded,
        _ => panic!("expected the payload of AdvanceMissionState"),
    };
    assert_eq!(decoded, valid_advance_cmd());
}

// Scenario: rejected - The fixed $MADE reward for a mission is granted only
// on the player's first clear, ever.
#[test]
fn rejects_when_first_clear_reward_was_already_claimed() {
    let mut attempt = ready_attempt();
    attempt.set_first_clear_reward_claimed(true);

    let err = attempt
        .execute(valid_cmd().into_command())
        .expect_err("a repeated first-clear reward claim must be rejected");

    assert!(matches!(err, DomainError::InvariantViolation(_)));
    assert_eq!(attempt.version(), 0);
}

// Scenario: rejected - Prologue missions are gated in sequence; a mission
// unlocks only after its predecessor is cleared.
#[test]
fn rejects_when_prologue_predecessor_is_uncleared() {
    let mut attempt = ready_attempt();
    attempt.set_prologue_predecessor_cleared(false);

    let err = attempt
        .execute(valid_cmd().into_command())
        .expect_err("an uncleared predecessor must block prologue reward claims");

    assert!(matches!(err, DomainError::InvariantViolation(_)));
    assert_eq!(attempt.version(), 0);
}

// Scenario: rejected - Only missions in today's Reprise rotation are
// eligible for repeat rewards.
#[test]
fn rejects_when_mission_is_not_in_reprise_rotation() {
    let mut attempt = ready_attempt();
    attempt.set_reprise_rotation_eligible(false);

    let err = attempt
        .execute(valid_cmd().into_command())
        .expect_err("a mission outside today's Reprise rotation must be rejected");

    assert!(matches!(err, DomainError::InvariantViolation(_)));
    assert_eq!(attempt.version(), 0);
}

// Scenario: rejected - Per-mission special rules and boss HP-threshold barks
// fire exactly at their scripted points.
#[test]
fn rejects_when_scripted_points_are_not_satisfied() {
    let mut attempt = ready_attempt();
    attempt.set_scripted_points_satisfied(false);

    let err = attempt
        .execute(valid_cmd().into_command())
        .expect_err("unsatisfied scripted points must be rejected");

    assert!(matches!(err, DomainError::InvariantViolation(_)));
    assert_eq!(attempt.version(), 0);
}

#[test]
fn rejects_missing_player_id() {
    let mut attempt = ready_attempt();

    let err = attempt
        .execute(ClaimFirstClearReward::new("   ", "mission-01").into_command())
        .expect_err("missing playerId must be rejected");

    assert!(matches!(err, DomainError::InvariantViolation(_)));
    assert_eq!(attempt.version(), 0);
}

#[test]
fn rejects_missing_mission_id() {
    let mut attempt = ready_attempt();

    let err = attempt
        .execute(ClaimFirstClearReward::new("player-01", "   ").into_command())
        .expect_err("missing missionId must be rejected");

    assert!(matches!(err, DomainError::InvariantViolation(_)));
    assert_eq!(attempt.version(), 0);
}

#[test]
fn rejects_repeat_claim_after_successful_claim() {
    let mut attempt = ready_attempt();

    attempt
        .execute(valid_cmd().into_command())
        .expect("first claim should succeed");
    let err = attempt
        .execute(valid_cmd().into_command())
        .expect_err("second claim should be rejected");

    assert!(matches!(err, DomainError::InvariantViolation(_)));
    assert_eq!(attempt.version(), 1);
}

#[test]
fn mission_attempt_rejects_unknown_command() {
    let mut attempt = MissionAttempt::new("attempt-01");
    let err = attempt.execute(Command::new("NoSuchCommand")).unwrap_err();

    match err {
        DomainError::UnknownCommand { aggregate, command } => {
            assert_eq!(aggregate, "MissionAttempt");
            assert_eq!(command, "NoSuchCommand");
        }
        other => panic!("expected UnknownCommand, got {other:?}"),
    }
}

#[test]
fn mission_attempt_command_payload_round_trips() {
    let cmd = valid_cmd();
    let command = cmd.into_command();

    assert_eq!(command.name, ClaimFirstClearReward::COMMAND);
    let decoded: ClaimFirstClearReward = match command.payload {
        Payload::Decoded(Request::ClaimFirstClearReward(decoded)) => decoded,
        _ => panic!("expected the payload of ClaimFirstClearReward"),
    };
    assert_eq!(decoded, valid_cmd());
}

fn message(err: DomainError) -> String {
    match err {
        DomainError::InvariantViolation(message) => message,
        other => panic!("expected InvariantViolation, got {other:?}"),
    }
}

fn claim_refusal(change: fn(&mut MissionAttempt)) -> String {
    let mut attempt = ready_attempt();
    change(&mut attempt);
    let err = attempt.execute(valid_cmd().into_command()).unwrap_err();
    assert_eq!(attempt.version(), 0);
    message(err)
}

#[test]
fn mission_refusals_are_exact() {
    assert_eq!(
        claim_refusal(|attempt| attempt.set_first_clear_reward_claimed(true)),
        "mission attempt 'attempt-01' has already claimed the fixed $MADE first-clear reward; the \
         fixed $MADE reward for a mission is granted only on the player's first clear, ever"
    );
    assert_eq!(
        claim_refusal(|attempt| attempt.set_prologue_predecessor_cleared(false)),
        "mission attempt 'attempt-01' is locked behind an uncleared predecessor; prologue missions \
         are gated in sequence"
    );
    assert_eq!(
        claim_refusal(|attempt| attempt.set_reprise_rotation_eligible(false)),
        "mission attempt 'attempt-01' is not in today's Reprise rotation; only missions in today's \
         Reprise rotation are eligible for repeat rewards"
    );
    assert_eq!(
        claim_refusal(|attempt| attempt.set_scripted_points_satisfied(false)),
        "mission attempt 'attempt-01' did not satisfy scripted mission points; per-mission special \
         rules and boss HP-threshold barks fire exactly at their scripted points"
    );
}

#[test]
fn mission_targets_are_checked_field_by_field() {
    let mut attempt = ready_attempt();
    for (id, trigger, expected) in [
        (" ", "", "mission attempt 'attempt-01' requires a valid missionAttemptId to advance mission state"),
        ("x", " ", "mission attempt 'attempt-01' requires a valid trigger to advance mission state"),
        ("x", "t", "command targets mission attempt 'x' but this aggregate is mission attempt 'attempt-01'"),
    ] {
        let err = attempt.execute(AdvanceMissionState::new(id, trigger).into_command()).unwrap_err();
        assert_eq!(message(err), expected);
    }
}

#[test]
fn a_claim_ends_the_attempt() {
    let mut attempt = ready_attempt();
    for step in 1..=3 {
        attempt.execute(valid_advance_cmd().into_command()).unwrap();
        assert_eq!(attempt.scripted_state_step(), step);
    }
    attempt.execute(valid_cmd().into_command()).unwrap();
    assert!(attempt.first_clear_reward_claimed());
    assert!(attempt.execute(valid_advance_cmd().into_command()).is_err());
    assert!(attempt.execute(valid_cmd().into_command()).is_err());
    assert_eq!(attempt.scripted_state_step(), 3);
    assert_eq!(attempt.version(), 4);
}
