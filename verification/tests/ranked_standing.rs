use domain::ranked_standing::ApplyDisconnectPenalty;
use domain::ranked_standing::ApplyRankFloorProtection;
use domain::ranked_standing::AwardStar;
use domain::ranked_standing::BASE_DISCONNECT_PENALTY;
use domain::ranked_standing::DisconnectPenaltyApplied;
use domain::ranked_standing::ElevateSmurf;
use domain::ranked_standing::Estimate;
use domain::ranked_standing::Event;
use domain::ranked_standing::INFINITY;
use domain::ranked_standing::MatchOutcome;
use domain::ranked_standing::MatchResultRecorded;
use domain::ranked_standing::RankFloorProtected;
use domain::ranked_standing::RankPromoted;
use domain::ranked_standing::RankedStanding;
use domain::ranked_standing::RatingRecalculated;
use domain::ranked_standing::Real;
use domain::ranked_standing::RecordMatchResult;
use domain::ranked_standing::Request;
use domain::ranked_standing::SMURF_ELEVATION_MATCHES;
use domain::ranked_standing::STARS_PER_TIER;
use domain::ranked_standing::SmurfElevated;
use domain::ranked_standing::StarAwarded;
use domain::ranked_standing::Tier;
use domain::shared::Command;
use domain::shared::DomainError;
use domain::shared::Payload;

fn bits(x: f64) -> u64 {
    x.to_bits()
}

fn number(x: f64) -> Real {
    Real::new(x.to_bits(), &x.to_string())
}

/// What the Glicko-2 update makes of (1620, 80, 0.059) for a win against 1600.
fn after_a_win() -> Estimate {
    Estimate {
        rating: bits(1636.5731),
        rating_deviation: bits(78.6205),
        volatility: bits(0.059000),
    }
}

/// What the Glicko-2 update makes of (1620, 80, 0.059) for a loss against 1600.
fn after_a_loss() -> Estimate {
    Estimate {
        rating: bits(1601.4311),
        rating_deviation: bits(78.6205),
        volatility: bits(0.059000),
    }
}

/// A protection-ready standing `r-01` for player `p-1`: fresh Glicko-2
/// estimate, a well-formed visible rank sitting at its reached Corner floor,
/// no pending smurf elevation, and a disconnect ledger that matches the
/// doubling schedule. Tests mutate one aspect at a time to drive a specific
/// rejection.
fn ready_standing() -> RankedStanding {
    let mut standing = RankedStanding::new("r-01");
    standing.set_player("p-1");
    // Glicko-2 estimate recalculated after all 10 rated matches.
    standing.set_ratings(bits(1620.0), bits(80.0), bits(0.059), 10, 10);
    // Two stars in Corner, no bonus star, no live streak.
    standing.set_visible_rank(Tier::Corner, 2, false, 0);
    // Reached floor is Corner (an anti-tilt bracket); current tier is at it.
    standing.set_tier_floor(Tier::Corner);
    // 10 matches, not a suspected smurf.
    standing.set_smurf_state(10, false, false);
    // Two abandonments → BASE·2 = 10 under the doubling schedule.
    standing.set_disconnect_ledger(2, BASE_DISCONNECT_PENALTY * 2);
    standing
}

/// A command applying floor protection to `r-01` for player `p-1`.
fn valid_cmd() -> ApplyRankFloorProtection {
    ApplyRankFloorProtection::new("r-01", "p-1")
}

// Scenario: Successfully execute ApplyRankFloorProtectionCmd.
#[test]
fn applies_protection_and_emits_rank_floor_protected_event() {
    let mut standing = ready_standing();

    let events = standing
        .execute(valid_cmd().into_command())
        .expect("valid protection should succeed");

    assert_eq!(events.len(), 1);
    assert_eq!(events[0].event_type(), "ranked.rank.floor.protected");
    match &events[0] {
        Event::RankFloorProtected(protected) => {
            assert_eq!(protected.standing_id, "r-01");
            assert_eq!(protected.player_id, "p-1");
            assert_eq!(protected.tier_floor, Tier::Corner);
        }
        other => panic!("expected RankFloorProtected, got {other:?}"),
    }
    // The standing recorded the event and holds at or above its floor.
    assert!(standing.tier().rank() >= standing.tier_floor().rank());
    assert_eq!(standing.version(), 1);
    assert_eq!(standing.uncommitted_events().len(), 1);
    assert_eq!(
        standing.uncommitted_events()[0].event_type(),
        "ranked.rank.floor.protected"
    );
}

// Scenario: rejected — Glicko-2 rating, RD, and volatility are recalculated
// after every rated match.
#[test]
fn rejects_when_ratings_are_stale() {
    let mut standing = ready_standing();
    // The estimate lags: 10 rated matches played, but synced at match 9.
    standing.set_ratings(bits(1620.0), bits(80.0), bits(0.059), 10, 9);

    let err = standing
        .execute(valid_cmd().into_command())
        .expect_err("a stale Glicko-2 estimate must be rejected");
    assert!(matches!(err, DomainError::InvariantViolation(_)));
    assert_eq!(standing.version(), 0);
}

// Scenario: rejected — visible rank advances through tiers Block→Legend with
// 3 stars per tier; a win streak grants a bonus star.
#[test]
fn rejects_when_visible_rank_exceeds_stars_per_tier() {
    let mut standing = ready_standing();
    // Four stars in a tier that promotes at three is malformed.
    standing.set_visible_rank(Tier::Corner, STARS_PER_TIER + 1, false, 0);

    let err = standing
        .execute(valid_cmd().into_command())
        .expect_err("a tier over its star cap must be rejected");
    assert!(matches!(err, DomainError::InvariantViolation(_)));
    assert_eq!(standing.version(), 0);
}

// Visible-rank invariant: a bonus star requires a live win streak.
#[test]
fn rejects_bonus_star_without_a_win_streak() {
    let mut standing = ready_standing();
    // Bonus star claimed with no live streak.
    standing.set_visible_rank(Tier::Corner, 2, true, 0);

    let err = standing
        .execute(valid_cmd().into_command())
        .expect_err("a bonus star without a streak must be rejected");
    assert!(matches!(err, DomainError::InvariantViolation(_)));
    assert_eq!(standing.version(), 0);
}

// Scenario: rejected — rank-floor protection prevents demotion below a
// reached tier floor (anti-tilt applies to Block/Corner).
#[test]
fn rejects_when_standing_is_below_its_floor() {
    let mut standing = ready_standing();
    // Current tier Block sits below the reached Corner floor.
    standing.set_visible_rank(Tier::Block, 2, false, 0);

    let err = standing
        .execute(valid_cmd().into_command())
        .expect_err("a standing below its floor must be rejected");
    assert!(matches!(err, DomainError::InvariantViolation(_)));
    assert_eq!(standing.version(), 0);
}

// Rank-floor invariant: anti-tilt protection applies only to Block/Corner.
#[test]
fn rejects_floor_protection_above_anti_tilt_brackets() {
    let mut standing = ready_standing();
    // A Champion floor is above the Block/Corner anti-tilt brackets.
    standing.set_visible_rank(Tier::Champion, 2, false, 0);
    standing.set_tier_floor(Tier::Champion);

    let err = standing
        .execute(valid_cmd().into_command())
        .expect_err("protecting a floor above Corner must be rejected");
    assert!(matches!(err, DomainError::InvariantViolation(_)));
    assert_eq!(standing.version(), 0);
}

// Scenario: rejected — a suspected smurf is auto-elevated to a higher bracket
// after 20 matches.
#[test]
fn rejects_suspected_smurf_not_yet_elevated() {
    let mut standing = ready_standing();
    // A suspected smurf past the 20-match threshold that was not elevated.
    standing.set_smurf_state(SMURF_ELEVATION_MATCHES, true, false);

    let err = standing
        .execute(valid_cmd().into_command())
        .expect_err("an un-elevated suspected smurf must be rejected");
    assert!(matches!(err, DomainError::InvariantViolation(_)));
    assert_eq!(standing.version(), 0);
}

// Scenario: rejected — disconnect penalties escalate (doubling) on repeated
// abandonment.
#[test]
fn rejects_when_disconnect_penalty_does_not_double() {
    let mut standing = ready_standing();
    // Three abandonments owe BASE·4 under doubling; charging BASE·3 breaks it.
    standing.set_disconnect_ledger(3, BASE_DISCONNECT_PENALTY * 3);

    let err = standing
        .execute(valid_cmd().into_command())
        .expect_err("a penalty off the doubling schedule must be rejected");
    assert!(matches!(err, DomainError::InvariantViolation(_)));
    assert_eq!(standing.version(), 0);
}

// A command naming a different standing is rejected before any invariant runs.
#[test]
fn rejects_command_for_a_different_standing() {
    let mut standing = ready_standing();
    let cmd = ApplyRankFloorProtection::new("r-99", "p-1");

    let err = standing
        .execute(cmd.into_command())
        .expect_err("a command for another standing must be rejected");
    assert!(matches!(err, DomainError::InvariantViolation(_)));
    assert_eq!(standing.version(), 0);
}

// A command for the wrong player is rejected.
#[test]
fn ranked_standing_rejects_command_for_a_different_player() {
    let mut standing = ready_standing();
    let cmd = ApplyRankFloorProtection::new("r-01", "p-other");

    let err = standing
        .execute(cmd.into_command())
        .expect_err("a command for another player must be rejected");
    assert!(matches!(err, DomainError::InvariantViolation(_)));
    assert_eq!(standing.version(), 0);
}

// A command with no player is rejected.
#[test]
fn rejects_command_without_a_player() {
    let mut standing = ready_standing();
    let cmd = ApplyRankFloorProtection::new("r-01", "   ");

    let err = standing
        .execute(cmd.into_command())
        .expect_err("a missing playerId must be rejected");
    assert!(matches!(err, DomainError::InvariantViolation(_)));
    assert_eq!(standing.version(), 0);
}

// An unrecognized command is still an UnknownCommand for this aggregate,
// preserving the contract the mock adapters rely on.
#[test]
fn ranked_standing_rejects_unknown_command() {
    let mut standing = RankedStanding::new("r-01");
    let err = standing.execute(Command::new("NoSuchCommand")).unwrap_err();
    match err {
        DomainError::UnknownCommand { aggregate, command } => {
            assert_eq!(aggregate, "RankedStanding");
            assert_eq!(command, "NoSuchCommand");
        }
        other => panic!("expected UnknownCommand, got {other:?}"),
    }
}

#[test]
fn ranked_standing_command_payload_round_trips() {
    let cmd = valid_cmd();
    let command = cmd.into_command();
    assert_eq!(command.name, ApplyRankFloorProtection::COMMAND);
    let decoded: ApplyRankFloorProtection = match command.payload {
        Payload::Decoded(Request::ApplyRankFloorProtection(decoded)) => decoded,
        _ => panic!("expected the payload of ApplyRankFloorProtection"),
    };
    assert_eq!(decoded, valid_cmd());
}

// --- ElevateSmurfCmd -------------------------------------------------

/// An elevation-ready standing `r-01` for player `p-1`: a suspected smurf
/// that has reached the 20-match threshold and has *not* yet been elevated,
/// with a fresh Glicko-2 estimate, a well-formed visible rank at its Corner
/// floor, and a disconnect ledger on the doubling schedule. Tests mutate one
/// aspect at a time to drive a specific rejection.
fn ready_smurf() -> RankedStanding {
    let mut standing = RankedStanding::new("r-01");
    standing.set_player("p-1");
    // Glicko-2 estimate recalculated after all 20 rated matches.
    standing.set_ratings(bits(1720.0), bits(70.0), bits(0.058), 20, 20);
    // Two stars in Corner, no bonus star, no live streak.
    standing.set_visible_rank(Tier::Corner, 2, false, 0);
    // Reached floor is Corner (an anti-tilt bracket); current tier is at it.
    standing.set_tier_floor(Tier::Corner);
    // A suspected smurf, 20 matches played, not yet elevated.
    standing.set_smurf_state(SMURF_ELEVATION_MATCHES, true, false);
    // Two abandonments → BASE·2 = 10 under the doubling schedule.
    standing.set_disconnect_ledger(2, BASE_DISCONNECT_PENALTY * 2);
    standing
}

/// A command elevating `r-01` for player `p-1` after 20 matches.
fn valid_elevate_cmd() -> ElevateSmurf {
    ElevateSmurf::new("r-01", "p-1", SMURF_ELEVATION_MATCHES)
}

// Scenario: Successfully execute ElevateSmurfCmd.
#[test]
fn elevates_smurf_and_emits_smurf_elevated_event() {
    let mut standing = ready_smurf();

    let events = standing
        .execute(valid_elevate_cmd().into_command())
        .expect("a warranted elevation should succeed");

    assert_eq!(events.len(), 1);
    assert_eq!(events[0].event_type(), "smurf.elevated");
    match &events[0] {
        Event::SmurfElevated(elevated) => {
            assert_eq!(elevated.standing_id, "r-01");
            assert_eq!(elevated.player_id, "p-1");
            assert_eq!(elevated.match_count, SMURF_ELEVATION_MATCHES);
            // Elevated one bracket up, from Corner to Contender.
            assert_eq!(elevated.elevated_to, Tier::Contender);
        }
        other => panic!("expected SmurfElevated, got {other:?}"),
    }
    // The standing was promoted and recorded the event.
    assert_eq!(standing.tier(), Tier::Contender);
    assert_eq!(standing.version(), 1);
    assert_eq!(standing.uncommitted_events().len(), 1);
    assert_eq!(
        standing.uncommitted_events()[0].event_type(),
        "smurf.elevated"
    );
}

// Scenario: rejected — Glicko-2 rating, RD, and volatility are recalculated
// after every rated match.
#[test]
fn elevate_rejects_when_ratings_are_stale() {
    let mut standing = ready_smurf();
    // The estimate lags: 20 rated matches played, but synced at match 19.
    standing.set_ratings(bits(1720.0), bits(70.0), bits(0.058), 20, 19);

    let err = standing
        .execute(valid_elevate_cmd().into_command())
        .expect_err("a stale Glicko-2 estimate must be rejected");
    assert!(matches!(err, DomainError::InvariantViolation(_)));
    assert_eq!(standing.version(), 0);
}

// Scenario: rejected — visible rank advances through tiers Block→Legend with
// 3 stars per tier; a win streak grants a bonus star.
#[test]
fn elevate_rejects_when_visible_rank_exceeds_stars_per_tier() {
    let mut standing = ready_smurf();
    // Four stars in a tier that promotes at three is malformed.
    standing.set_visible_rank(Tier::Corner, STARS_PER_TIER + 1, false, 0);

    let err = standing
        .execute(valid_elevate_cmd().into_command())
        .expect_err("a tier over its star cap must be rejected");
    assert!(matches!(err, DomainError::InvariantViolation(_)));
    assert_eq!(standing.version(), 0);
}

// Scenario: rejected — rank-floor protection prevents demotion below a
// reached tier floor (anti-tilt applies to Block/Corner).
#[test]
fn elevate_rejects_when_standing_is_below_its_floor() {
    let mut standing = ready_smurf();
    // Current tier Block sits below the reached Corner floor.
    standing.set_visible_rank(Tier::Block, 2, false, 0);

    let err = standing
        .execute(valid_elevate_cmd().into_command())
        .expect_err("a standing below its floor must be rejected");
    assert!(matches!(err, DomainError::InvariantViolation(_)));
    assert_eq!(standing.version(), 0);
}

// Scenario: rejected — a suspected smurf is auto-elevated to a higher bracket
// after 20 matches. Here the standing is not an eligible smurf, so elevation
// is unwarranted.
#[test]
fn elevate_rejects_when_not_an_eligible_smurf() {
    let mut standing = ready_smurf();
    // Not flagged as a suspected smurf: elevation is unwarranted.
    standing.set_smurf_state(SMURF_ELEVATION_MATCHES, false, false);

    let err = standing
        .execute(valid_elevate_cmd().into_command())
        .expect_err("elevating a non-smurf must be rejected");
    assert!(matches!(err, DomainError::InvariantViolation(_)));
    assert_eq!(standing.version(), 0);
}

// Smurf-elevation rule: a standing already elevated is not elevated again.
#[test]
fn elevate_rejects_when_already_elevated() {
    let mut standing = ready_smurf();
    // Already elevated: a smurf is elevated at most once.
    standing.set_smurf_state(SMURF_ELEVATION_MATCHES, true, true);

    let err = standing
        .execute(valid_elevate_cmd().into_command())
        .expect_err("re-elevating an elevated smurf must be rejected");
    assert!(matches!(err, DomainError::InvariantViolation(_)));
    assert_eq!(standing.version(), 0);
}

// Scenario: rejected — disconnect penalties escalate (doubling) on repeated
// abandonment.
#[test]
fn elevate_rejects_when_disconnect_penalty_does_not_double() {
    let mut standing = ready_smurf();
    // Three abandonments owe BASE·4 under doubling; charging BASE·3 breaks it.
    standing.set_disconnect_ledger(3, BASE_DISCONNECT_PENALTY * 3);

    let err = standing
        .execute(valid_elevate_cmd().into_command())
        .expect_err("a penalty off the doubling schedule must be rejected");
    assert!(matches!(err, DomainError::InvariantViolation(_)));
    assert_eq!(standing.version(), 0);
}

// A valid matchCount must be supplied: it must agree with the standing's record.
#[test]
fn elevate_rejects_when_match_count_disagrees_with_record() {
    let mut standing = ready_smurf();
    // The standing has recorded 20 matches; a command reporting 19 is invalid.
    let cmd = ElevateSmurf::new("r-01", "p-1", SMURF_ELEVATION_MATCHES - 1);

    let err = standing
        .execute(cmd.into_command())
        .expect_err("a match count that disagrees with the record must be rejected");
    assert!(matches!(err, DomainError::InvariantViolation(_)));
    assert_eq!(standing.version(), 0);
}

// A command naming a different standing is rejected before any invariant runs.
#[test]
fn elevate_rejects_command_for_a_different_standing() {
    let mut standing = ready_smurf();
    let cmd = ElevateSmurf::new("r-99", "p-1", SMURF_ELEVATION_MATCHES);

    let err = standing
        .execute(cmd.into_command())
        .expect_err("a command for another standing must be rejected");
    assert!(matches!(err, DomainError::InvariantViolation(_)));
    assert_eq!(standing.version(), 0);
}

// A command with no player is rejected.
#[test]
fn elevate_rejects_command_without_a_player() {
    let mut standing = ready_smurf();
    let cmd = ElevateSmurf::new("r-01", "   ", SMURF_ELEVATION_MATCHES);

    let err = standing
        .execute(cmd.into_command())
        .expect_err("a missing playerId must be rejected");
    assert!(matches!(err, DomainError::InvariantViolation(_)));
    assert_eq!(standing.version(), 0);
}

#[test]
fn elevate_command_payload_round_trips() {
    let cmd = valid_elevate_cmd();
    let command = cmd.into_command();
    assert_eq!(command.name, ElevateSmurf::COMMAND);
    let decoded: ElevateSmurf = match command.payload {
        Payload::Decoded(Request::ElevateSmurf(decoded)) => decoded,
        _ => panic!("expected the payload of ElevateSmurf"),
    };
    assert_eq!(decoded, valid_elevate_cmd());
}

#[test]
fn disconnect_schedule_doubles() {
    assert_eq!(RankedStanding::expected_disconnect_penalty(0), 0);
    assert_eq!(
        RankedStanding::expected_disconnect_penalty(1),
        BASE_DISCONNECT_PENALTY
    );
    assert_eq!(
        RankedStanding::expected_disconnect_penalty(2),
        BASE_DISCONNECT_PENALTY * 2
    );
    assert_eq!(
        RankedStanding::expected_disconnect_penalty(3),
        BASE_DISCONNECT_PENALTY * 4
    );
}

// --- ApplyDisconnectPenaltyCmd ---------------------------------------

/// A penalty-ready standing `r-01` for player `p-1`: a fresh Glicko-2
/// estimate, a well-formed visible rank at its Corner floor, no pending smurf
/// elevation, and a disconnect ledger on the doubling schedule (two prior
/// abandonments owing BASE·2). Tests mutate one aspect at a time to drive a
/// specific rejection.
fn ready_disconnect() -> RankedStanding {
    let mut standing = RankedStanding::new("r-01");
    standing.set_player("p-1");
    // Glicko-2 estimate recalculated after all 10 rated matches.
    standing.set_ratings(bits(1620.0), bits(80.0), bits(0.059), 10, 10);
    // Two stars in Corner, no bonus star, no live streak.
    standing.set_visible_rank(Tier::Corner, 2, false, 0);
    // Reached floor is Corner (an anti-tilt bracket); current tier is at it.
    standing.set_tier_floor(Tier::Corner);
    // 10 matches, not a suspected smurf.
    standing.set_smurf_state(10, false, false);
    // Two abandonments → BASE·2 = 10 under the doubling schedule.
    standing.set_disconnect_ledger(2, BASE_DISCONNECT_PENALTY * 2);
    standing
}

/// A command charging a disconnect penalty to `r-01` for player `p-1` after
/// the two prior abandonments the ready standing records.
fn valid_disconnect_cmd() -> ApplyDisconnectPenalty {
    ApplyDisconnectPenalty::new("r-01", "p-1", 2)
}

// Scenario: Successfully execute ApplyDisconnectPenaltyCmd.
#[test]
fn applies_penalty_and_emits_disconnect_penalty_applied_event() {
    let mut standing = ready_disconnect();

    let events = standing
        .execute(valid_disconnect_cmd().into_command())
        .expect("a valid disconnect penalty should succeed");

    assert_eq!(events.len(), 1);
    assert_eq!(events[0].event_type(), "disconnect.penalty.applied");
    match &events[0] {
        Event::DisconnectPenaltyApplied(applied) => {
            assert_eq!(applied.standing_id, "r-01");
            assert_eq!(applied.player_id, "p-1");
            assert_eq!(applied.prior_penalties, 2);
            // The third abandonment doubles BASE·2 to BASE·4.
            assert_eq!(applied.penalty, BASE_DISCONNECT_PENALTY * 4);
            assert_eq!(applied.abandonments, 3);
        }
        other => panic!("expected DisconnectPenaltyApplied, got {other:?}"),
    }
    // The ledger advanced one step and stays on the doubling schedule.
    assert_eq!(standing.version(), 1);
    assert_eq!(standing.uncommitted_events().len(), 1);
    assert_eq!(
        standing.uncommitted_events()[0].event_type(),
        "disconnect.penalty.applied"
    );
}

// Scenario: rejected — Glicko-2 rating, RD, and volatility are recalculated
// after every rated match.
#[test]
fn disconnect_rejects_when_ratings_are_stale() {
    let mut standing = ready_disconnect();
    // The estimate lags: 10 rated matches played, but synced at match 9.
    standing.set_ratings(bits(1620.0), bits(80.0), bits(0.059), 10, 9);

    let err = standing
        .execute(valid_disconnect_cmd().into_command())
        .expect_err("a stale Glicko-2 estimate must be rejected");
    assert!(matches!(err, DomainError::InvariantViolation(_)));
    assert_eq!(standing.version(), 0);
}

// Scenario: rejected — visible rank advances through tiers Block→Legend with
// 3 stars per tier; a win streak grants a bonus star.
#[test]
fn disconnect_rejects_when_visible_rank_exceeds_stars_per_tier() {
    let mut standing = ready_disconnect();
    // Four stars in a tier that promotes at three is malformed.
    standing.set_visible_rank(Tier::Corner, STARS_PER_TIER + 1, false, 0);

    let err = standing
        .execute(valid_disconnect_cmd().into_command())
        .expect_err("a tier over its star cap must be rejected");
    assert!(matches!(err, DomainError::InvariantViolation(_)));
    assert_eq!(standing.version(), 0);
}

// Scenario: rejected — rank-floor protection prevents demotion below a
// reached tier floor (anti-tilt applies to Block/Corner).
#[test]
fn disconnect_rejects_when_standing_is_below_its_floor() {
    let mut standing = ready_disconnect();
    // Current tier Block sits below the reached Corner floor.
    standing.set_visible_rank(Tier::Block, 2, false, 0);

    let err = standing
        .execute(valid_disconnect_cmd().into_command())
        .expect_err("a standing below its floor must be rejected");
    assert!(matches!(err, DomainError::InvariantViolation(_)));
    assert_eq!(standing.version(), 0);
}

// Scenario: rejected — a suspected smurf is auto-elevated to a higher bracket
// after 20 matches.
#[test]
fn disconnect_rejects_suspected_smurf_not_yet_elevated() {
    let mut standing = ready_disconnect();
    // A suspected smurf past the 20-match threshold that was not elevated.
    standing.set_smurf_state(SMURF_ELEVATION_MATCHES, true, false);

    let err = standing
        .execute(valid_disconnect_cmd().into_command())
        .expect_err("an un-elevated suspected smurf must be rejected");
    assert!(matches!(err, DomainError::InvariantViolation(_)));
    assert_eq!(standing.version(), 0);
}

// Scenario: rejected — disconnect penalties escalate (doubling) on repeated
// abandonment. Here the *existing* ledger is off the schedule, so the penalty
// cannot be advanced from an inconsistent base.
#[test]
fn disconnect_rejects_when_existing_penalty_does_not_double() {
    let mut standing = ready_disconnect();
    // Three abandonments owe BASE·4 under doubling; charging BASE·3 breaks it.
    standing.set_disconnect_ledger(3, BASE_DISCONNECT_PENALTY * 3);

    // The command must still reconcile with the (broken) recorded count.
    let cmd = ApplyDisconnectPenalty::new("r-01", "p-1", 3);
    let err = standing
        .execute(cmd.into_command())
        .expect_err("a penalty off the doubling schedule must be rejected");
    assert!(matches!(err, DomainError::InvariantViolation(_)));
    assert_eq!(standing.version(), 0);
}

// A valid priorPenalties must be supplied: it must agree with the standing's
// recorded abandonment count.
#[test]
fn disconnect_rejects_when_prior_penalties_disagree_with_record() {
    let mut standing = ready_disconnect();
    // The standing has recorded two abandonments; a command reporting one is
    // invalid — it would restart the escalation from the wrong place.
    let cmd = ApplyDisconnectPenalty::new("r-01", "p-1", 1);

    let err = standing
        .execute(cmd.into_command())
        .expect_err("a prior-penalty count that disagrees with the record must be rejected");
    assert!(matches!(err, DomainError::InvariantViolation(_)));
    assert_eq!(standing.version(), 0);
}

// A command naming a different standing is rejected before any invariant runs.
#[test]
fn disconnect_rejects_command_for_a_different_standing() {
    let mut standing = ready_disconnect();
    let cmd = ApplyDisconnectPenalty::new("r-99", "p-1", 2);

    let err = standing
        .execute(cmd.into_command())
        .expect_err("a command for another standing must be rejected");
    assert!(matches!(err, DomainError::InvariantViolation(_)));
    assert_eq!(standing.version(), 0);
}

// A command with no player is rejected.
#[test]
fn disconnect_rejects_command_without_a_player() {
    let mut standing = ready_disconnect();
    let cmd = ApplyDisconnectPenalty::new("r-01", "   ", 2);

    let err = standing
        .execute(cmd.into_command())
        .expect_err("a missing playerId must be rejected");
    assert!(matches!(err, DomainError::InvariantViolation(_)));
    assert_eq!(standing.version(), 0);
}

// The very first abandonment charges the BASE penalty from an empty ledger.
#[test]
fn disconnect_charges_base_penalty_on_first_abandonment() {
    let mut standing = ready_disconnect();
    // No prior abandonments: an empty, consistent ledger.
    standing.set_disconnect_ledger(0, 0);

    let events = standing
        .execute(ApplyDisconnectPenalty::new("r-01", "p-1", 0).into_command())
        .expect("a first disconnect penalty should succeed");
    match &events[0] {
        Event::DisconnectPenaltyApplied(applied) => {
            assert_eq!(applied.prior_penalties, 0);
            assert_eq!(applied.penalty, BASE_DISCONNECT_PENALTY);
            assert_eq!(applied.abandonments, 1);
        }
        other => panic!("expected DisconnectPenaltyApplied, got {other:?}"),
    }
    assert_eq!(standing.version(), 1);
}

#[test]
fn disconnect_command_payload_round_trips() {
    let cmd = valid_disconnect_cmd();
    let command = cmd.into_command();
    assert_eq!(command.name, ApplyDisconnectPenalty::COMMAND);
    let decoded: ApplyDisconnectPenalty = match command.payload {
        Payload::Decoded(Request::ApplyDisconnectPenalty(decoded)) => decoded,
        _ => panic!("expected the payload of ApplyDisconnectPenalty"),
    };
    assert_eq!(decoded, valid_disconnect_cmd());
}

// ----- RecordMatchResultCmd (S-27) -----------------------------------

/// A result-ready standing: same consistent state as [`ready_standing`],
/// reused because `RecordMatchResultCmd` enforces the identical five
/// invariants as preconditions before ingesting a match.
fn result_ready_standing() -> RankedStanding {
    ready_standing()
}

/// A command recording a win against a 1600-rated opponent on `r-01` for
/// player `p-1`.
fn valid_result_cmd() -> RecordMatchResult {
    RecordMatchResult::new("r-01", "p-1", "m-1", MatchOutcome::Win, number(1600.0))
}

// Scenario: Successfully execute RecordMatchResultCmd — a match.result.recorded
// event and a rating.recalculated event are emitted.
#[test]
fn records_result_and_emits_recorded_and_recalculated_events() {
    let mut standing = result_ready_standing();
    let before_matches = standing.rated_matches();

    let events = standing
        .execute(valid_result_cmd().into_command(after_a_win()))
        .expect("valid match result should succeed");

    assert_eq!(events.len(), 2);
    assert_eq!(events[0].event_type(), "match.result.recorded");
    assert_eq!(events[1].event_type(), "rating.recalculated");
    match &events[0] {
        Event::MatchResultRecorded(recorded) => {
            assert_eq!(recorded.standing_id, "r-01");
            assert_eq!(recorded.player_id, "p-1");
            assert_eq!(recorded.match_id, "m-1");
            assert_eq!(recorded.outcome, MatchOutcome::Win);
        }
        other => panic!("expected MatchResultRecorded, got {other:?}"),
    }
    match &events[1] {
        Event::RatingRecalculated(recalc) => {
            assert_eq!(recalc.standing_id, "r-01");
            assert_eq!(recalc.rated_matches, before_matches + 1);
            // A win raises the rating and shrinks the deviation.
            assert!(f64::from_bits(recalc.rating) > 1620.0);
            assert!(f64::from_bits(recalc.rating_deviation) < 80.0);
            assert!(f64::from_bits(recalc.volatility) > 0.0);
        }
        other => panic!("expected RatingRecalculated, got {other:?}"),
    }
    // Both events were recorded and the estimate stays fresh for the next
    // match (ratings_synced_at now equals the new rated_matches).
    assert_eq!(standing.rated_matches(), before_matches + 1);
    assert_eq!(standing.version(), 2);
    assert_eq!(standing.uncommitted_events().len(), 2);
    standing
        .ensure_ratings_recalculated()
        .expect("estimate must be fresh after recording");
}

// A loss lowers the rating.
#[test]
fn a_loss_lowers_the_rating() {
    let mut standing = result_ready_standing();
    let cmd = RecordMatchResult::new("r-01", "p-1", "m-2", MatchOutcome::Loss, number(1600.0));

    standing
        .execute(cmd.into_command(after_a_loss()))
        .expect("a recorded loss should succeed");

    assert!(f64::from_bits(standing.rating()) < 1620.0);
}

// Scenario: rejected — Glicko-2 rating, RD, and volatility are recalculated
// after every rated match.
#[test]
fn record_rejects_when_ratings_are_stale() {
    let mut standing = result_ready_standing();
    // The estimate lags the matches already played.
    standing.set_ratings(bits(1620.0), bits(80.0), bits(0.059), 10, 9);

    let err = standing
        .execute(valid_result_cmd().into_command(after_a_win()))
        .expect_err("a stale Glicko-2 estimate must be rejected");
    assert!(matches!(err, DomainError::InvariantViolation(_)));
    assert_eq!(standing.version(), 0);
}

// Scenario: rejected — visible rank advances through tiers Block→Legend with
// 3 stars per tier; a win streak grants a bonus star.
#[test]
fn record_rejects_malformed_visible_rank() {
    let mut standing = result_ready_standing();
    standing.set_visible_rank(Tier::Corner, STARS_PER_TIER + 1, false, 0);

    let err = standing
        .execute(valid_result_cmd().into_command(after_a_win()))
        .expect_err("a tier over its star cap must be rejected");
    assert!(matches!(err, DomainError::InvariantViolation(_)));
    assert_eq!(standing.version(), 0);
}

// Scenario: rejected — rank-floor protection prevents demotion below a reached
// tier floor (anti-tilt applies to Block/Corner).
#[test]
fn record_rejects_when_below_floor() {
    let mut standing = result_ready_standing();
    // Current tier Block sits below the reached Corner floor.
    standing.set_visible_rank(Tier::Block, 2, false, 0);

    let err = standing
        .execute(valid_result_cmd().into_command(after_a_win()))
        .expect_err("a standing below its floor must be rejected");
    assert!(matches!(err, DomainError::InvariantViolation(_)));
    assert_eq!(standing.version(), 0);
}

// Scenario: rejected — a suspected smurf is auto-elevated to a higher bracket
// after 20 matches.
#[test]
fn record_rejects_unelevated_smurf() {
    let mut standing = result_ready_standing();
    standing.set_smurf_state(SMURF_ELEVATION_MATCHES, true, false);

    let err = standing
        .execute(valid_result_cmd().into_command(after_a_win()))
        .expect_err("an un-elevated suspected smurf must be rejected");
    assert!(matches!(err, DomainError::InvariantViolation(_)));
    assert_eq!(standing.version(), 0);
}

// Scenario: rejected — disconnect penalties escalate (doubling) on repeated
// abandonment.
#[test]
fn record_rejects_penalty_off_doubling_schedule() {
    let mut standing = result_ready_standing();
    // Three abandonments owe BASE·4 under doubling; charging BASE·3 breaks it.
    standing.set_disconnect_ledger(3, BASE_DISCONNECT_PENALTY * 3);

    let err = standing
        .execute(valid_result_cmd().into_command(after_a_win()))
        .expect_err("a penalty off the doubling schedule must be rejected");
    assert!(matches!(err, DomainError::InvariantViolation(_)));
    assert_eq!(standing.version(), 0);
}

// A result for the wrong standing / player / with a missing match or a
// non-finite opponent rating is rejected before any state changes.
#[test]
fn record_rejects_bad_targets_and_inputs() {
    for cmd in [
        RecordMatchResult::new("r-99", "p-1", "m-1", MatchOutcome::Win, number(1600.0)),
        RecordMatchResult::new("r-01", "p-other", "m-1", MatchOutcome::Win, number(1600.0)),
        RecordMatchResult::new("r-01", "   ", "m-1", MatchOutcome::Win, number(1600.0)),
        RecordMatchResult::new("r-01", "p-1", "  ", MatchOutcome::Win, number(1600.0)),
        RecordMatchResult::new("r-01", "p-1", "m-1", MatchOutcome::Win, number(0.0)),
        RecordMatchResult::new("r-01", "p-1", "m-1", MatchOutcome::Win, number(f64::NAN)),
    ] {
        let mut standing = result_ready_standing();
        let err = standing
            .execute(cmd.into_command(after_a_win()))
            .expect_err("a malformed target/input must be rejected");
        assert!(matches!(err, DomainError::InvariantViolation(_)));
        assert_eq!(standing.version(), 0);
    }
}

#[test]
fn record_command_payload_round_trips() {
    let cmd = valid_result_cmd();
    let command = cmd.into_command(after_a_win());
    assert_eq!(command.name, RecordMatchResult::COMMAND);
    let decoded: RecordMatchResult = match command.payload {
        Payload::Decoded(Request::RecordMatchResult(decoded, _)) => decoded,
        _ => panic!("expected the payload of RecordMatchResult"),
    };
    assert_eq!(decoded, valid_result_cmd());
}

// --- AwardStarCmd ----------------------------------------------------

/// An award-ready standing `r-01` for player `p-1`, one star short of the tier
/// cap so a single awarded star promotes it: fresh Glicko-2 estimate, two
/// stars in Corner sitting at its reached Corner floor, no pending smurf
/// elevation, and a disconnect ledger on the doubling schedule.
fn award_ready_standing() -> RankedStanding {
    let mut standing = RankedStanding::new("r-01");
    standing.set_player("p-1");
    standing.set_ratings(bits(1620.0), bits(80.0), bits(0.059), 10, 10);
    // Two stars in Corner (cap is 3): the next star promotes to Contender.
    standing.set_visible_rank(Tier::Corner, STARS_PER_TIER - 1, false, 0);
    standing.set_tier_floor(Tier::Corner);
    standing.set_smurf_state(10, false, false);
    standing.set_disconnect_ledger(2, BASE_DISCONNECT_PENALTY * 2);
    standing
}

/// A command awarding a star (no streak bonus) to `r-01` for player `p-1`.
fn award_cmd() -> AwardStar {
    AwardStar::new("r-01", "p-1", false)
}

// Scenario: Successfully execute AwardStarCmd — a star.awarded event and a
// rank.promoted event are both emitted.
#[test]
fn awards_star_and_promotes_rank_emitting_both_events() {
    let mut standing = award_ready_standing();

    let events = standing
        .execute(award_cmd().into_command())
        .expect("awarding a tier-filling star should succeed");

    assert_eq!(events.len(), 2);
    assert_eq!(events[0].event_type(), "star.awarded");
    assert_eq!(events[1].event_type(), "rank.promoted");
    match &events[0] {
        Event::StarAwarded(awarded) => {
            assert_eq!(awarded.standing_id, "r-01");
            assert_eq!(awarded.player_id, "p-1");
            assert_eq!(awarded.tier, Tier::Corner);
            assert_eq!(awarded.stars_awarded, 1);
            assert!(!awarded.streak_bonus);
        }
        other => panic!("expected StarAwarded, got {other:?}"),
    }
    match &events[1] {
        Event::RankPromoted(promoted) => {
            assert_eq!(promoted.standing_id, "r-01");
            assert_eq!(promoted.player_id, "p-1");
            assert_eq!(promoted.from_tier, Tier::Corner);
            assert_eq!(promoted.to_tier, Tier::Contender);
        }
        other => panic!("expected RankPromoted, got {other:?}"),
    }
    // Promoted into Contender with the surplus (0) stars; two events recorded.
    assert_eq!(standing.tier(), Tier::Contender);
    assert_eq!(standing.version(), 2);
    assert_eq!(standing.uncommitted_events().len(), 2);
}

// A win-streak win grants a bonus star on top of the base star.
#[test]
fn awards_bonus_star_on_a_live_win_streak() {
    let mut standing = RankedStanding::new("r-01");
    standing.set_player("p-1");
    standing.set_ratings(bits(1620.0), bits(80.0), bits(0.059), 10, 10);
    // One star in Corner with a live streak: base + bonus = 2 -> fills the cap.
    standing.set_visible_rank(Tier::Corner, STARS_PER_TIER - 2, false, 3);
    standing.set_tier_floor(Tier::Corner);
    standing.set_smurf_state(10, false, false);
    standing.set_disconnect_ledger(2, BASE_DISCONNECT_PENALTY * 2);

    let events = standing
        .execute(AwardStar::new("r-01", "p-1", true).into_command())
        .expect("a streak win should award a bonus star");

    assert_eq!(events.len(), 2);
    match &events[0] {
        Event::StarAwarded(awarded) => {
            assert_eq!(awarded.stars_awarded, 2);
            assert!(awarded.streak_bonus);
        }
        other => panic!("expected StarAwarded, got {other:?}"),
    }
    assert_eq!(standing.tier(), Tier::Contender);
}

// Scenario: rejected — Glicko-2 rating, RD, and volatility are recalculated
// after every rated match.
#[test]
fn award_rejects_when_ratings_are_stale() {
    let mut standing = award_ready_standing();
    standing.set_ratings(bits(1620.0), bits(80.0), bits(0.059), 10, 9);

    let err = standing
        .execute(award_cmd().into_command())
        .expect_err("a stale Glicko-2 estimate must be rejected");
    assert!(matches!(err, DomainError::InvariantViolation(_)));
    assert_eq!(standing.version(), 0);
}

// Scenario: rejected — visible rank advances through tiers Block→Legend with
// 3 stars per tier; a win streak grants a bonus star.
#[test]
fn award_rejects_when_visible_rank_exceeds_stars_per_tier() {
    let mut standing = award_ready_standing();
    standing.set_visible_rank(Tier::Corner, STARS_PER_TIER + 1, false, 0);

    let err = standing
        .execute(award_cmd().into_command())
        .expect_err("a tier over its star cap must be rejected");
    assert!(matches!(err, DomainError::InvariantViolation(_)));
    assert_eq!(standing.version(), 0);
}

// Visible-rank invariant: a streak bonus star cannot be claimed without a live
// win streak.
#[test]
fn award_rejects_streak_bonus_without_a_win_streak() {
    let mut standing = award_ready_standing();

    let err = standing
        .execute(AwardStar::new("r-01", "p-1", true).into_command())
        .expect_err("a streak bonus without a streak must be rejected");
    assert!(matches!(err, DomainError::InvariantViolation(_)));
    assert_eq!(standing.version(), 0);
}

// Scenario: rejected — rank-floor protection prevents demotion below a
// reached tier floor (anti-tilt applies to Block/Corner).
#[test]
fn award_rejects_when_standing_is_below_its_floor() {
    let mut standing = award_ready_standing();
    // Current tier Block sits below the reached Corner floor.
    standing.set_visible_rank(Tier::Block, 2, false, 0);

    let err = standing
        .execute(award_cmd().into_command())
        .expect_err("a standing below its floor must be rejected");
    assert!(matches!(err, DomainError::InvariantViolation(_)));
    assert_eq!(standing.version(), 0);
}

// Scenario: rejected — a suspected smurf is auto-elevated to a higher bracket
// after 20 matches.
#[test]
fn award_rejects_suspected_smurf_not_yet_elevated() {
    let mut standing = award_ready_standing();
    standing.set_smurf_state(SMURF_ELEVATION_MATCHES, true, false);

    let err = standing
        .execute(award_cmd().into_command())
        .expect_err("an un-elevated suspected smurf must be rejected");
    assert!(matches!(err, DomainError::InvariantViolation(_)));
    assert_eq!(standing.version(), 0);
}

// Scenario: rejected — disconnect penalties escalate (doubling) on repeated
// abandonment.
#[test]
fn award_rejects_when_disconnect_penalty_does_not_double() {
    let mut standing = award_ready_standing();
    standing.set_disconnect_ledger(3, BASE_DISCONNECT_PENALTY * 3);

    let err = standing
        .execute(award_cmd().into_command())
        .expect_err("a penalty off the doubling schedule must be rejected");
    assert!(matches!(err, DomainError::InvariantViolation(_)));
    assert_eq!(standing.version(), 0);
}

// A command naming a different standing or player is rejected before crediting.
#[test]
fn award_rejects_command_for_a_different_standing_or_player() {
    let mut standing = award_ready_standing();
    let wrong_standing = standing
        .execute(AwardStar::new("r-99", "p-1", false).into_command())
        .expect_err("a command for another standing must be rejected");
    assert!(matches!(wrong_standing, DomainError::InvariantViolation(_)));

    let wrong_player = standing
        .execute(AwardStar::new("r-01", "p-other", false).into_command())
        .expect_err("a command for another player must be rejected");
    assert!(matches!(wrong_player, DomainError::InvariantViolation(_)));

    let no_player = standing
        .execute(AwardStar::new("r-01", "   ", false).into_command())
        .expect_err("a missing playerId must be rejected");
    assert!(matches!(no_player, DomainError::InvariantViolation(_)));
    assert_eq!(standing.version(), 0);
}

// A mid-tier win that does not fill the cap awards a star without promoting.
#[test]
fn award_without_filling_tier_emits_only_star_awarded() {
    let mut standing = award_ready_standing();
    // One star in Corner: awarding one more reaches two, below the cap of 3.
    standing.set_visible_rank(Tier::Corner, STARS_PER_TIER - 2, false, 0);

    let events = standing
        .execute(award_cmd().into_command())
        .expect("awarding a non-filling star should succeed");

    assert_eq!(events.len(), 1);
    assert_eq!(events[0].event_type(), "star.awarded");
    assert_eq!(standing.tier(), Tier::Corner);
    assert_eq!(standing.version(), 1);
}

#[test]
fn award_command_payload_round_trips() {
    let cmd = AwardStar::new("r-01", "p-1", true);
    let command = cmd.into_command();
    assert_eq!(command.name, AwardStar::COMMAND);
    let decoded: AwardStar = match command.payload {
        Payload::Decoded(Request::AwardStar(decoded)) => decoded,
        _ => panic!("expected the payload of AwardStar"),
    };
    assert_eq!(decoded, cmd);
}

fn message(err: DomainError) -> String {
    match err {
        DomainError::InvariantViolation(message) => message,
        other => panic!("expected InvariantViolation, got {other:?}"),
    }
}

#[test]
fn penalty_schedule_doubles_and_saturates() {
    assert_eq!(RankedStanding::expected_disconnect_penalty(4), 40);
    assert_eq!(RankedStanding::expected_disconnect_penalty(10), 2560);
    assert_eq!(RankedStanding::expected_disconnect_penalty(30), 2_684_354_560);
    for n in [31, 32, 33, 34, 64, 65, 1000, u32::MAX] {
        assert_eq!(RankedStanding::expected_disconnect_penalty(n), u32::MAX);
    }
}

#[test]
fn a_fresh_standing_has_the_default_estimate() {
    let standing = RankedStanding::new("r-01");
    assert_eq!(standing.rating(), 1500.0f64.to_bits());
    assert_eq!(standing.rating_deviation(), 350.0f64.to_bits());
    assert_eq!(standing.volatility(), 0.06f64.to_bits());
    assert_eq!(standing.rated_matches(), 0);
    assert_eq!(standing.id(), "r-01");
    assert_eq!(standing.player_id(), "");
    assert_eq!(standing.tier(), Tier::Block);
    assert_eq!(standing.tier_floor(), Tier::Block);
    assert_eq!(standing.version(), 0);
    assert_eq!(RankedStanding::aggregate_type(), "RankedStanding");
}

#[test]
fn positive_finite_numbers_are_told_by_their_bits() {
    for x in [f64::MIN_POSITIVE, 5e-324, 1.0, 1600.0, f64::MAX] {
        assert!(number(x).is_positive_finite());
    }
    for x in [0.0, -0.0, -1.0, f64::INFINITY, f64::NEG_INFINITY, f64::NAN, -f64::NAN, f64::MIN] {
        assert!(!number(x).is_positive_finite());
    }
}

#[test]
fn stale_ratings_message_is_exact() {
    let mut standing = ready_standing();
    standing.set_ratings(bits(1620.0), bits(80.0), bits(0.059), 10, 9);
    let err = standing
        .execute(ApplyRankFloorProtection::new("r-01", "p-1").into_command())
        .unwrap_err();
    assert_eq!(
        message(err),
        "standing 'r-01' has a Glicko-2 estimate synced at match 9 but has played 10 rated \
         matches; rating, RD, and volatility are recalculated after every rated match"
    );
}

#[test]
fn star_cap_and_floor_messages_are_exact() {
    let mut standing = ready_standing();
    standing.set_visible_rank(Tier::Corner, 4, false, 0);
    let err = standing.execute(AwardStar::new("r-01", "p-1", false).into_command()).unwrap_err();
    assert_eq!(
        message(err),
        "standing 'r-01' shows 4 stars in tier Corner but a tier holds at most 3 stars before \
         promotion"
    );
    let mut standing = ready_standing();
    standing.set_visible_rank(Tier::Block, 0, false, 0);
    let err = standing.execute(AwardStar::new("r-01", "p-1", false).into_command()).unwrap_err();
    assert_eq!(
        message(err),
        "standing 'r-01' sits at Block below its reached Corner floor; rank-floor protection \
         prevents demotion below the floor"
    );
    standing.set_tier_floor(Tier::Champion);
    let err = standing.execute(AwardStar::new("r-01", "p-1", false).into_command()).unwrap_err();
    assert_eq!(
        message(err),
        "standing 'r-01' asks to protect a Champion floor, but rank-floor (anti-tilt) protection \
         applies only to the Block/Corner brackets"
    );
}

#[test]
fn smurf_and_ledger_messages_are_exact() {
    let mut standing = ready_standing();
    standing.set_smurf_state(21, true, false);
    let err = standing.execute(AwardStar::new("r-01", "p-1", false).into_command()).unwrap_err();
    assert_eq!(
        message(err),
        "standing 'r-01' is a suspected smurf with 21 matches (≥20) but has not been elevated to \
         a higher bracket"
    );
    let mut standing = ready_standing();
    standing.set_disconnect_ledger(3, 15);
    let err = standing.execute(AwardStar::new("r-01", "p-1", false).into_command()).unwrap_err();
    assert_eq!(
        message(err),
        "standing 'r-01' charges a 15-point disconnect penalty for 3 abandonments but the \
         doubling schedule owes 20; penalties escalate by doubling on repeated abandonment"
    );
}

#[test]
fn elevation_eligibility_message_is_exact() {
    let mut standing = ready_standing();
    standing.set_smurf_state(19, true, false);
    let err = standing.execute(ElevateSmurf::new("r-01", "p-1", 19).into_command()).unwrap_err();
    assert_eq!(
        message(err),
        "standing 'r-01' is not eligible for smurf elevation: only a suspected smurf is \
         auto-elevated to a higher bracket, and only after 20 matches (has 19, suspected: true)"
    );
}

#[test]
fn an_opponent_rating_is_shown_as_it_came() {
    let mut standing = ready_standing();
    let cmd = RecordMatchResult::new("r-01", "p-1", "m-1", MatchOutcome::Draw, number(-12.5));
    let err = standing.execute(cmd.into_command(after_a_win())).unwrap_err();
    assert_eq!(
        message(err),
        "standing 'r-01' requires a finite, positive opponentRating but got -12.5"
    );
    assert_eq!(standing.rated_matches(), 10);
}

#[test]
fn a_recorded_match_takes_over_the_estimate() {
    let mut standing = ready_standing();
    let cmd = RecordMatchResult::new("r-01", "p-1", "m-1", MatchOutcome::Win, number(1600.0));
    assert!(standing.check_match_result(&cmd).is_ok());
    assert!(standing.can_count_a_match());
    standing.execute(cmd.into_command(after_a_win())).unwrap();
    assert_eq!(standing.rating(), after_a_win().rating);
    assert_eq!(standing.rating_deviation(), after_a_win().rating_deviation);
    assert_eq!(standing.volatility(), after_a_win().volatility);
    assert_eq!(standing.rated_matches(), 11);
    // The estimate is fresh: the next command is not refused for it.
    standing.execute(AwardStar::new("r-01", "p-1", false).into_command()).unwrap();
}

#[test]
fn counters_without_room_are_told() {
    let mut standing = ready_standing();
    standing.set_ratings(bits(1.0), bits(1.0), bits(1.0), u32::MAX, u32::MAX);
    assert!(!standing.can_count_a_match());
    let mut standing = ready_standing();
    standing.set_smurf_state(u32::MAX, false, false);
    assert!(!standing.can_count_a_match());
}

#[test]
fn the_match_that_reaches_the_threshold_makes_elevation_due() {
    let mut standing = ready_standing();
    standing.set_smurf_state(19, true, false);
    let cmd = RecordMatchResult::new("r-01", "p-1", "m-1", MatchOutcome::Win, number(1600.0));
    standing.execute(cmd.into_command(after_a_win())).unwrap();
    let err = standing.execute(AwardStar::new("r-01", "p-1", false).into_command()).unwrap_err();
    assert!(message(err).contains("has not been elevated"));
    let events = standing.execute(ElevateSmurf::new("r-01", "p-1", 20).into_command()).unwrap();
    assert_eq!(events.len(), 1);
    assert_eq!(standing.tier(), Tier::Contender);
    standing.execute(AwardStar::new("r-01", "p-1", false).into_command()).unwrap();
    assert!(standing.execute(ElevateSmurf::new("r-01", "p-1", 20).into_command()).is_err());
}

#[test]
fn penalties_double_from_one_to_the_next() {
    let mut standing = RankedStanding::new("r-01");
    standing.set_player("p-1");
    for (prior, owed) in [(0u32, 5u32), (1, 10), (2, 20), (3, 40)] {
        let events = standing
            .execute(ApplyDisconnectPenalty::new("r-01", "p-1", prior).into_command())
            .unwrap();
        match &events[0] {
            Event::DisconnectPenaltyApplied(applied) => {
                assert_eq!(applied.penalty, owed);
                assert_eq!(applied.abandonments, prior + 1);
                assert_eq!(applied.prior_penalties, prior);
            }
            other => panic!("expected DisconnectPenaltyApplied, got {other:?}"),
        }
    }
    assert_eq!(standing.version(), 4);
}

#[test]
fn abandonments_saturate() {
    let mut standing = RankedStanding::new("r-01");
    standing.set_player("p-1");
    standing.set_disconnect_ledger(u32::MAX, u32::MAX);
    let events = standing
        .execute(ApplyDisconnectPenalty::new("r-01", "p-1", u32::MAX).into_command())
        .unwrap();
    match &events[0] {
        Event::DisconnectPenaltyApplied(applied) => {
            assert_eq!(applied.penalty, u32::MAX);
            assert_eq!(applied.abandonments, u32::MAX);
        }
        other => panic!("expected DisconnectPenaltyApplied, got {other:?}"),
    }
}

#[test]
fn promotion_climbs_one_tier_at_a_time_and_raises_the_floor() {
    let mut standing = RankedStanding::new("r-01");
    standing.set_player("p-1");
    standing.set_visible_rank(Tier::Block, 2, false, 4);
    // Two stars make four: one is carried over.
    standing.execute(AwardStar::new("r-01", "p-1", true).into_command()).unwrap();
    assert_eq!(standing.tier(), Tier::Corner);
    assert_eq!(standing.tier_floor(), Tier::Corner);
    standing.execute(AwardStar::new("r-01", "p-1", true).into_command()).unwrap();
    assert_eq!(standing.tier(), Tier::Contender);
    // Contender is no anti-tilt bracket: the floor stays.
    assert_eq!(standing.tier_floor(), Tier::Corner);
    assert_eq!(standing.version(), 4);
}

#[test]
fn the_apex_holds_at_the_star_cap() {
    let mut standing = RankedStanding::new("r-01");
    standing.set_player("p-1");
    standing.set_visible_rank(Tier::Legend, 3, false, 1);
    let events = standing.execute(AwardStar::new("r-01", "p-1", true).into_command()).unwrap();
    assert_eq!(events.len(), 1);
    assert_eq!(standing.tier(), Tier::Legend);
    // Still well-formed, so another star is accepted.
    assert!(standing.execute(AwardStar::new("r-01", "p-1", false).into_command()).is_ok());
}

#[test]
fn protection_keeps_a_tier_above_the_floor() {
    let mut standing = ready_standing();
    standing.set_visible_rank(Tier::Champion, 0, false, 0);
    standing
        .execute(ApplyRankFloorProtection::new("r-01", "p-1").into_command())
        .unwrap();
    assert_eq!(standing.tier(), Tier::Champion);
    assert_eq!(standing.tier_floor(), Tier::Corner);
}

#[test]
fn tiers_are_ranked_along_the_ladder() {
    let ladder = [Tier::Block, Tier::Corner, Tier::Contender, Tier::Champion, Tier::Legend];
    for (i, tier) in ladder.iter().enumerate() {
        assert_eq!(tier.rank() as usize, i);
        assert_eq!(tier.is_anti_tilt(), i < 2);
        assert_eq!(tier.next(), ladder.get(i + 1).copied());
        assert_eq!(tier.elevated_bracket(), ladder[(i + 1).min(4)]);
        assert_eq!(tier.max_rank(Tier::Contender), ladder[i.max(2)]);
    }
}

#[test]
fn malformed_ranked_payload_message_is_exact() {
    let mut standing = ready_standing();
    let err = standing.execute(Command::new(AwardStar::COMMAND)).unwrap_err();
    assert_eq!(
        message(err),
        "malformed AwardStarCmd payload: EOF while parsing a value at line 1 column 0"
    );
    let err = standing
        .execute(Command::with_payload(
            ElevateSmurf::COMMAND,
            Payload::Malformed("invalid type: integer `1`".to_string()),
        ))
        .unwrap_err();
    assert_eq!(
        message(err),
        "malformed ElevateSmurfCmd payload: invalid type: integer `1`"
    );
    let err = standing
        .execute(Command::with_payload(
            ElevateSmurf::COMMAND,
            Payload::Decoded(Request::AwardStar(AwardStar::new("r-01", "p-1", false))),
        ))
        .unwrap_err();
    assert_eq!(
        message(err),
        "malformed ElevateSmurfCmd payload: the payload is another command's"
    );
}

#[test]
fn what_comes_between_leaves_the_ledger_and_the_elevation() {
    let mut standing = ready_standing();
    standing.set_disconnect_ledger(0, 0);
    standing.set_smurf_state(20, true, false);
    standing.execute(ElevateSmurf::new("r-01", "p-1", 20).into_command()).unwrap();
    let mut owed = 5;
    for prior in 0..4 {
        let events = standing
            .execute(ApplyDisconnectPenalty::new("r-01", "p-1", prior).into_command())
            .unwrap();
        assert!(matches!(
            &events[0],
            Event::DisconnectPenaltyApplied(applied) if applied.penalty == owed
        ));
        owed *= 2;
        standing.execute(AwardStar::new("r-01", "p-1", false).into_command()).unwrap();
        standing
            .execute(ApplyRankFloorProtection::new("r-01", "p-1").into_command())
            .unwrap();
        let cmd = RecordMatchResult::new("r-01", "p-1", "m", MatchOutcome::Win, number(1600.0));
        standing.execute(cmd.into_command(after_a_win())).unwrap();
        let played = 21 + prior;
        assert!(standing
            .execute(ElevateSmurf::new("r-01", "p-1", played).into_command())
            .is_err());
    }
}
