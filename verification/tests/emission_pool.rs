use domain::emission_pool::EmissionPool;
use domain::emission_pool::EmitRewardCmd;
use domain::emission_pool::Event;
use domain::emission_pool::LowPoolWarningRaised;
use domain::emission_pool::RaiseLowPoolWarningCmd;
use domain::emission_pool::Request;
use domain::emission_pool::RewardEmitted;
use domain::emission_pool::SEASON_ONE_POOL;
use domain::shared::Command;
use domain::shared::DomainError;
use domain::shared::Payload;

/// The depletion percentage at which the advance-notice low-pool warning is
/// raised: 80% depletion, not exhaustion (100%).
const WARNING_DEPLETION_PCT: u8 = 80;

/// An emission-ready EmissionPool `pool-01`: fully funded at the Season 1
/// pool of 30M $MADE, with a valid emission schedule, a correctly configured
/// low-pool warning, and a resolved governance gate.
fn ready_pool() -> EmissionPool {
    let mut pool = EmissionPool::new("pool-01");
    pool.set_remaining_balance(SEASON_ONE_POOL);
    pool.set_emission_schedule_valid(true);
    pool.set_low_pool_warning_valid(true);
    pool.set_governance_schedule_valid(true);
    pool
}

/// A command emitting 1000 $MADE from `pool-01` to `recipient-7`.
fn valid_cmd() -> EmitRewardCmd {
    EmitRewardCmd::new("pool-01", "recipient-7", 1000)
}

/// A command raising a low-pool warning on `pool-01` at 80% depletion.
fn valid_warning_cmd() -> RaiseLowPoolWarningCmd {
    RaiseLowPoolWarningCmd::new("pool-01", WARNING_DEPLETION_PCT)
}

// Scenario: Successfully execute EmitRewardCmd.
#[test]
fn emits_and_records_reward_emitted_event() {
    let mut pool = ready_pool();

    let events = pool
        .execute(valid_cmd().into_command())
        .expect("valid emission should succeed");

    assert_eq!(events.len(), 1);
    assert_eq!(events[0].event_type(), "reward.emitted");
    match &events[0] {
        Event::RewardEmitted(emitted) => {
            assert_eq!(emitted.pool_id, "pool-01");
            assert_eq!(emitted.recipient_id, "recipient-7");
            assert_eq!(emitted.amount, 1000);
            assert_eq!(emitted.remaining_balance, SEASON_ONE_POOL - 1000);
        }
        other => panic!("expected RewardEmitted, got {other:?}"),
    }
    // The emission was drawn down from the pool.
    assert_eq!(pool.remaining_balance(), SEASON_ONE_POOL - 1000);
    // The EmissionPool recorded the event and advanced its version.
    assert_eq!(pool.version(), 1);
    assert_eq!(pool.uncommitted_events().len(), 1);
    assert_eq!(pool.uncommitted_events()[0].event_type(), "reward.emitted");
}

// Scenario: rejected - Season 1 opens with a 30M pool; each subsequent
// season's pool halves by the mandated schedule.
#[test]
fn rejects_when_emission_schedule_is_invalid() {
    let mut pool = ready_pool();
    pool.set_emission_schedule_valid(false);

    let err = pool
        .execute(valid_cmd().into_command())
        .expect_err("an invalid emission schedule must be rejected");
    assert!(matches!(err, DomainError::InvariantViolation(_)));
    assert_eq!(pool.version(), 0);
    // A rejected emission leaves the balance untouched.
    assert_eq!(pool.remaining_balance(), SEASON_ONE_POOL);
}

// Scenario: rejected - The pool can never emit more than its remaining
// balance.
#[test]
fn rejects_when_amount_exceeds_remaining_balance() {
    let mut pool = ready_pool();
    pool.set_remaining_balance(500);

    let err = pool
        .execute(valid_cmd().into_command())
        .expect_err("emitting more than the remaining balance must be rejected");
    assert!(matches!(err, DomainError::InvariantViolation(_)));
    assert_eq!(pool.version(), 0);
    assert_eq!(pool.remaining_balance(), 500);
}

// Scenario: rejected - The low-pool warning must be raised at 80% depletion
// (advance notice), not at exhaustion.
#[test]
fn rejects_when_low_pool_warning_is_misconfigured() {
    let mut pool = ready_pool();
    pool.set_low_pool_warning_valid(false);

    let err = pool
        .execute(valid_cmd().into_command())
        .expect_err("a misconfigured low-pool warning must be rejected");
    assert!(matches!(err, DomainError::InvariantViolation(_)));
    assert_eq!(pool.version(), 0);
}

// Scenario: rejected - Pool size is a governance-adjustable parameter; a
// later season cannot open until the prior season's drain is understood.
#[test]
fn rejects_when_governance_gate_is_unresolved() {
    let mut pool = ready_pool();
    pool.set_governance_schedule_valid(false);

    let err = pool
        .execute(valid_cmd().into_command())
        .expect_err("an unresolved governance gate must be rejected");
    assert!(matches!(err, DomainError::InvariantViolation(_)));
    assert_eq!(pool.version(), 0);
}

// An emission draining exactly the remaining balance is allowed (the ceiling
// is inclusive).
#[test]
fn emits_exactly_the_remaining_balance() {
    let mut pool = ready_pool();
    pool.set_remaining_balance(1000);

    let events = pool
        .execute(valid_cmd().into_command())
        .expect("emitting exactly the remaining balance should succeed");
    assert_eq!(events.len(), 1);
    assert_eq!(pool.remaining_balance(), 0);
}

// Scenario: Successfully execute RaiseLowPoolWarningCmd.
#[test]
fn raises_and_emits_low_pool_warning_raised_event() {
    let mut pool = ready_pool();

    let events = pool
        .execute(valid_warning_cmd().into_command())
        .expect("valid low-pool warning should succeed");

    assert_eq!(events.len(), 1);
    assert_eq!(events[0].event_type(), "low.pool.warning.raised");
    match &events[0] {
        Event::LowPoolWarningRaised(raised) => {
            assert_eq!(raised.pool_id, "pool-01");
            assert_eq!(raised.depletion_pct, WARNING_DEPLETION_PCT);
        }
        other => panic!("expected LowPoolWarningRaised, got {other:?}"),
    }
    // The EmissionPool recorded the event and advanced its version.
    assert_eq!(pool.version(), 1);
    assert_eq!(pool.uncommitted_events().len(), 1);
    assert_eq!(
        pool.uncommitted_events()[0].event_type(),
        "low.pool.warning.raised"
    );
}

// Scenario: RaiseLowPoolWarningCmd rejected - Season 1 opens with a 30M pool;
// each subsequent season's pool halves by 5% of the prior schedule.
#[test]
fn warning_rejected_when_schedule_departs_from_curve() {
    let mut pool = ready_pool();
    pool.set_emission_schedule_valid(false);

    let err = pool
        .execute(valid_warning_cmd().into_command())
        .expect_err("a schedule departing from the mandated curve must be rejected");
    assert!(matches!(err, DomainError::InvariantViolation(_)));
    assert_eq!(pool.version(), 0);
}

// Scenario: RaiseLowPoolWarningCmd rejected - The pool can never emit more
// than its remaining balance.
#[test]
fn warning_rejected_when_pool_is_insolvent() {
    let mut pool = ready_pool();
    pool.set_remaining_balance(0);

    let err = pool
        .execute(valid_warning_cmd().into_command())
        .expect_err("a warning on a pool that would over-emit must be rejected");
    assert!(matches!(err, DomainError::InvariantViolation(_)));
    assert_eq!(pool.version(), 0);
}

// Scenario: RaiseLowPoolWarningCmd rejected - The 50% low-pool warning must
// be raised at 80% depletion (advance notice), not at exhaustion.
#[test]
fn warning_rejected_when_warning_threshold_is_incorrect() {
    let mut pool = ready_pool();
    pool.set_low_pool_warning_valid(false);

    let err = pool
        .execute(valid_warning_cmd().into_command())
        .expect_err("a warning wired to fire at exhaustion must be rejected");
    assert!(matches!(err, DomainError::InvariantViolation(_)));
    assert_eq!(pool.version(), 0);
}

// Scenario: RaiseLowPoolWarningCmd rejected - Pool size is a
// governance-adjustable parameter; Season 2 cannot open until Season 1 drain
// is understood.
#[test]
fn warning_rejected_when_prior_season_drain_not_understood() {
    let mut pool = ready_pool();
    pool.set_governance_schedule_valid(false);

    let err = pool.execute(valid_warning_cmd().into_command()).expect_err(
        "opening the next season before the prior drain is understood must be rejected",
    );
    assert!(matches!(err, DomainError::InvariantViolation(_)));
    assert_eq!(pool.version(), 0);
}

// An unrecognized command is rejected as UnknownCommand naming this aggregate.
#[test]
fn emission_pool_rejects_unknown_command() {
    let mut pool = ready_pool();

    let err = pool
        .execute(Command::new("NoSuchCommand"))
        .expect_err("unknown command must be rejected");
    match err {
        DomainError::UnknownCommand { aggregate, command } => {
            assert_eq!(aggregate, "EmissionPool");
            assert_eq!(command, "NoSuchCommand");
        }
        other => panic!("expected UnknownCommand, got {other:?}"),
    }
    assert_eq!(pool.version(), 0);
}

// A command naming a different pool is rejected before any invariant runs.
#[test]
fn rejects_command_for_a_different_pool() {
    let mut pool = ready_pool();
    let cmd = EmitRewardCmd::new("pool-99", "recipient-7", 1000);

    let err = pool
        .execute(cmd.into_command())
        .expect_err("a command for another pool must be rejected");
    assert!(matches!(err, DomainError::InvariantViolation(_)));
    assert_eq!(pool.version(), 0);
}

// A warning command naming a different pool is rejected before any invariant
// runs.
#[test]
fn warning_rejected_for_a_different_pool() {
    let mut pool = ready_pool();
    let cmd = RaiseLowPoolWarningCmd::new("pool-99", WARNING_DEPLETION_PCT);

    let err = pool
        .execute(cmd.into_command())
        .expect_err("a warning command for another pool must be rejected");
    assert!(matches!(err, DomainError::InvariantViolation(_)));
    assert_eq!(pool.version(), 0);
}

// Commands missing any required field are rejected.
#[test]
fn emission_pool_rejects_command_with_missing_fields() {
    for cmd in [
        EmitRewardCmd::new("   ", "recipient-7", 1000),
        EmitRewardCmd::new("pool-01", "   ", 1000),
        EmitRewardCmd::new("pool-01", "recipient-7", 0),
    ] {
        let mut pool = ready_pool();
        let err = pool
            .execute(cmd.into_command())
            .expect_err("a command with a missing field must be rejected");
        assert!(matches!(err, DomainError::InvariantViolation(_)));
        assert_eq!(pool.version(), 0);
    }
}

// Warning commands missing the poolId or carrying an out-of-range
// depletionPct are rejected.
#[test]
fn warning_rejected_with_invalid_fields() {
    for cmd in [
        RaiseLowPoolWarningCmd::new("   ", WARNING_DEPLETION_PCT),
        RaiseLowPoolWarningCmd::new("pool-01", 101),
    ] {
        let mut pool = ready_pool();
        let err = pool
            .execute(cmd.into_command())
            .expect_err("an invalid warning command must be rejected");
        assert!(matches!(err, DomainError::InvariantViolation(_)));
        assert_eq!(pool.version(), 0);
    }
}

// A malformed payload for a recognized command is a domain error, not a panic.
#[test]
fn rejects_malformed_emit_reward_payload() {
    let mut pool = ready_pool();

    let err = pool
        .execute(Command::with_payload(
            EmitRewardCmd::COMMAND,
            Payload::Malformed("expected ident at line 1 column 2".to_string()),
        ))
        .expect_err("malformed payload must be rejected");
    assert!(matches!(err, DomainError::InvariantViolation(_)));
    assert_eq!(pool.version(), 0);
}

// A malformed warning payload is a domain error, not a panic.
#[test]
fn rejects_malformed_warning_payload() {
    let mut pool = ready_pool();

    let err = pool
        .execute(Command::with_payload(
            RaiseLowPoolWarningCmd::COMMAND,
            Payload::Malformed("expected ident at line 1 column 2".to_string()),
        ))
        .expect_err("malformed payload must be rejected");
    assert!(matches!(err, DomainError::InvariantViolation(_)));
    assert_eq!(pool.version(), 0);
}

#[test]
fn emit_reward_command_payload_round_trips() {
    let cmd = valid_cmd();
    let command = cmd.into_command();
    assert_eq!(command.name, EmitRewardCmd::COMMAND);
    let decoded: EmitRewardCmd = match command.payload {
        Payload::Decoded(Request::EmitRewardCmd(decoded)) => decoded,
        _ => panic!("expected the payload of EmitRewardCmd"),
    };
    assert_eq!(decoded, valid_cmd());
}

#[test]
fn warning_command_payload_round_trips() {
    let cmd = valid_warning_cmd();
    let command = cmd.into_command();
    assert_eq!(command.name, RaiseLowPoolWarningCmd::COMMAND);
    let decoded: RaiseLowPoolWarningCmd = match command.payload {
        Payload::Decoded(Request::RaiseLowPoolWarningCmd(decoded)) => decoded,
        _ => panic!("expected the payload of RaiseLowPoolWarningCmd"),
    };
    assert_eq!(decoded, valid_warning_cmd());
}

fn message(err: DomainError) -> String {
    match err {
        DomainError::InvariantViolation(message) => message,
        other => panic!("expected InvariantViolation, got {other:?}"),
    }
}

fn emit_refusal(change: fn(&mut EmissionPool, &mut EmitRewardCmd)) -> String {
    let mut pool = ready_pool();
    let mut cmd = valid_cmd();
    change(&mut pool, &mut cmd);
    let balance = pool.remaining_balance();
    let err = pool.execute(cmd.into_command()).unwrap_err();
    assert_eq!(pool.version(), 0);
    assert_eq!(pool.remaining_balance(), balance);
    message(err)
}

#[test]
fn emission_refusals_are_exact() {
    assert_eq!(
        emit_refusal(|_, cmd| cmd.pool_id = " ".to_string()),
        "emission pool 'pool-01' requires a valid poolId to emit a reward"
    );
    assert_eq!(
        emit_refusal(|_, cmd| cmd.recipient_id = " ".to_string()),
        "emission pool 'pool-01' requires a valid recipientId to emit a reward"
    );
    assert_eq!(
        emit_refusal(|_, cmd| cmd.amount = 0),
        "emission pool 'pool-01' requires a positive amount to emit a reward"
    );
    assert_eq!(
        emit_refusal(|_, cmd| cmd.pool_id = "pool-02".to_string()),
        "command targets emission pool 'pool-02' but this aggregate is emission pool 'pool-01'"
    );
    assert_eq!(
        emit_refusal(|pool, _| pool.set_emission_schedule_valid(false)),
        "emission pool 'pool-01' emission schedule does not match the mandated season schedule \
         (Season 1 opens with a 30M pool; each subsequent season halves per the prior schedule)"
    );
    assert_eq!(
        emit_refusal(|pool, _| pool.set_remaining_balance(999)),
        "emission pool 'pool-01' cannot emit 1000 $MADE; the pool can never emit more than its \
         remaining balance of 999"
    );
    assert_eq!(
        emit_refusal(|pool, _| pool.set_low_pool_warning_valid(false)),
        "emission pool 'pool-01' low-pool warning is misconfigured; the 50% low-pool warning must \
         be raised at 80% depletion (advance notice), not at exhaustion"
    );
    assert_eq!(
        emit_refusal(|pool, _| pool.set_governance_schedule_valid(false)),
        "emission pool 'pool-01' governance gate is unresolved; pool size is a \
         governance-adjustable parameter and a later season cannot open until the prior season's \
         drain is understood"
    );
}

#[test]
fn what_is_emitted_leaves_the_pool() {
    let mut pool = ready_pool();
    pool.set_remaining_balance(100);
    let mut paid = 0;
    for amount in [10, 25, 65] {
        let events = pool
            .execute(EmitRewardCmd::new("pool-01", "r", amount).into_command())
            .unwrap();
        paid += amount;
        assert_eq!(pool.remaining_balance(), 100 - paid);
        assert!(matches!(
            &events[0],
            Event::RewardEmitted(emitted) if emitted.remaining_balance == 100 - paid
        ));
    }
    assert!(pool.execute(EmitRewardCmd::new("pool-01", "r", 1).into_command()).is_err());
    assert_eq!(pool.version(), 3);
}

#[test]
fn the_largest_reward_does_not_overflow() {
    let mut pool = ready_pool();
    pool.set_remaining_balance(u64::MAX);
    pool.execute(EmitRewardCmd::new("pool-01", "r", u64::MAX).into_command()).unwrap();
    assert_eq!(pool.remaining_balance(), 0);
}

#[test]
fn warning_refusals_are_exact() {
    let mut pool = ready_pool();
    let err = pool.execute(RaiseLowPoolWarningCmd::new("pool-01", 101).into_command()).unwrap_err();
    assert_eq!(
        message(err),
        "emission pool 'pool-01' requires a depletionPct in the range 0..=100 to raise a low-pool \
         warning, got 101"
    );
    assert!(pool.execute(RaiseLowPoolWarningCmd::new("pool-01", 100).into_command()).is_ok());
    assert!(pool.execute(RaiseLowPoolWarningCmd::new("pool-01", 0).into_command()).is_ok());
    pool.set_remaining_balance(0);
    let err = pool.execute(RaiseLowPoolWarningCmd::new("pool-01", 80).into_command()).unwrap_err();
    assert_eq!(
        message(err),
        "emission pool 'pool-01' has no remaining balance; the pool can never emit more than its \
         remaining balance"
    );
}

#[test]
fn a_mixed_sequence_gives_out_what_the_pool_loses() {
    let mut pool = ready_pool();
    pool.set_remaining_balance(100);
    let mut given = 0;
    for amount in [60, 50, 30, 20, 10, 1] {
        if pool.execute(EmitRewardCmd::new("pool-01", "r", amount).into_command()).is_ok() {
            given += amount;
        }
        let _ = pool.execute(RaiseLowPoolWarningCmd::new("pool-01", 80).into_command());
        assert_eq!(pool.remaining_balance() + given, 100);
    }
    assert_eq!(given, 100);
}
