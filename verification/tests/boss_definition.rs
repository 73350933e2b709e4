use domain::boss_definition::AUTHORITATIVE_ROSTER_SIZE;
use domain::boss_definition::AssignSignatureCards;
use domain::boss_definition::BossDefined;
use domain::boss_definition::BossDefinition;
use domain::boss_definition::DefineBoss;
use domain::boss_definition::Event;
use domain::boss_definition::HeroPowerEffect;
use domain::boss_definition::LEGAL_STARTING_HP;
use domain::boss_definition::Request;
use domain::boss_definition::RosterValidated;
use domain::boss_definition::SignatureAssigned;
use domain::boss_definition::ValidateBossRoster;
use domain::shared::Command;
use domain::shared::DomainError;
use domain::shared::Payload;

/// A launch-valid Boss `boss-01`: exactly one hero power and trademark,
/// legal HP, a catalog of three valid signature cards, and a full 18-Boss
/// published roster. Tests mutate one aspect at a time to drive a specific
/// rejection.
fn valid_boss() -> BossDefinition {
    let mut boss = BossDefinition::new("boss-01");
    boss.declare_hero_power("Smash and Grab");
    boss.declare_trademark("The Vault Door");
    boss.set_starting_hp(60);
    boss.register_valid_cards(&["card-001", "card-002", "card-003"]);
    boss.set_published_roster_size(AUTHORITATIVE_ROSTER_SIZE);
    boss
}

/// A `DefineBossCmd` that satisfies every invariant, as a starting point
/// tests mutate one field at a time to drive a specific rejection. It targets
/// the same `boss-01` as [`valid_boss`], whose catalog and roster it relies
/// on for the signature-set and authoritative-roster invariants.
fn valid_define_cmd() -> DefineBoss {
    DefineBoss {
        boss_id: "boss-01".to_string(),
        name: "The Fixer".to_string(),
        starting_hp: 60,
        hero_powers: vec!["Smash and Grab".to_string()],
        trademarks: vec!["The Vault Door".to_string()],
        signature_card_ids: vec!["card-001".to_string(), "card-002".to_string()],
        hero_power_effect: HeroPowerEffect::DealDamage { amount: 2 },
        hero_power_cost: 2,
        trademark_effect: None,
    }
}

// Scenario: Successfully execute DefineBossCmd.
#[test]
fn defines_boss_and_emits_boss_defined_event() {
    let mut boss = valid_boss();

    let events = boss
        .execute(valid_define_cmd().into_command())
        .expect("valid definition should succeed");

    assert_eq!(events.len(), 1);
    assert_eq!(events[0].event_type(), "boss.defined");
    match &events[0] {
        Event::BossDefined(defined) => {
            assert_eq!(defined.boss_id, "boss-01");
            assert_eq!(defined.name, "The Fixer");
            assert_eq!(defined.starting_hp, 60);
            assert_eq!(defined.hero_power, "Smash and Grab");
            assert_eq!(defined.trademark, "The Vault Door");
            assert_eq!(defined.signature_card_ids, vec!["card-001", "card-002"]);
        }
        other => panic!("expected BossDefined, got {other:?}"),
    }
    assert_eq!(boss.version(), 1);
    assert_eq!(boss.uncommitted_events().len(), 1);
    assert_eq!(boss.uncommitted_events()[0].event_type(), "boss.defined");
}

// Scenario: a DefineBossCmd's typed hero-power effect and cost pass through
// untouched onto the emitted BossDefined event, alongside the existing
// display-string hero_power/trademark.
#[test]
fn define_boss_carries_hero_power_effect_and_cost() {
    let mut boss = valid_boss();
    let cmd = DefineBoss {
        hero_power_effect: HeroPowerEffect::DealDamage { amount: 2 },
        hero_power_cost: 2,
        ..valid_define_cmd()
    };

    let events = boss.execute(cmd.into_command()).expect("valid boss");

    match &events[0] {
        Event::BossDefined(d) => {
            assert_eq!(
                d.hero_power_effect,
                HeroPowerEffect::DealDamage { amount: 2 }
            );
            assert_eq!(d.hero_power_cost, 2);
            assert_eq!(d.trademark_effect, None);
        }
        other => panic!("expected BossDefined, got {other:?}"),
    }
}

// Scenario: DefineBossCmd rejected — every Boss has exactly one hero power and
// exactly one trademark.
#[test]
fn define_rejects_when_boss_has_more_than_one_hero_power() {
    let mut boss = valid_boss();
    let cmd = DefineBoss {
        hero_powers: vec!["Smash and Grab".to_string(), "Second Wind".to_string()],
        ..valid_define_cmd()
    };

    let err = boss
        .execute(cmd.into_command())
        .expect_err("a Boss with two hero powers must be rejected");
    assert!(matches!(err, DomainError::InvariantViolation(_)));
    assert_eq!(boss.version(), 0);
}

#[test]
fn define_rejects_when_boss_has_no_trademark() {
    let mut boss = valid_boss();
    let cmd = DefineBoss {
        trademarks: Vec::new(),
        ..valid_define_cmd()
    };

    let err = boss
        .execute(cmd.into_command())
        .expect_err("a Boss without a trademark must be rejected");
    assert!(matches!(err, DomainError::InvariantViolation(_)));
    assert_eq!(boss.version(), 0);
}

// Scenario: DefineBossCmd rejected — every Boss must be assigned a non-empty
// signature card set drawn from valid CardDefinitions.
#[test]
fn define_rejects_empty_signature_card_set() {
    let mut boss = valid_boss();
    let cmd = DefineBoss {
        signature_card_ids: Vec::new(),
        ..valid_define_cmd()
    };

    let err = boss
        .execute(cmd.into_command())
        .expect_err("an empty signature set must be rejected");
    assert!(matches!(err, DomainError::InvariantViolation(_)));
    assert_eq!(boss.version(), 0);
}

#[test]
fn define_rejects_signature_card_not_in_catalog() {
    let mut boss = valid_boss();
    let cmd = DefineBoss {
        signature_card_ids: vec!["card-001".to_string(), "card-999".to_string()],
        ..valid_define_cmd()
    };

    let err = boss
        .execute(cmd.into_command())
        .expect_err("a card outside the catalog must be rejected");
    assert!(matches!(err, DomainError::InvariantViolation(_)));
    assert_eq!(boss.version(), 0);
}

// Scenario: DefineBossCmd rejected — Boss starting HP must fall within the
// legal HP bounds.
#[test]
fn define_rejects_starting_hp_outside_legal_bounds() {
    let mut boss = valid_boss();
    let cmd = DefineBoss {
        // One past the legal maximum.
        starting_hp: LEGAL_STARTING_HP.1 + 1,
        ..valid_define_cmd()
    };

    let err = boss
        .execute(cmd.into_command())
        .expect_err("HP outside the legal bounds must be rejected");
    assert!(matches!(err, DomainError::InvariantViolation(_)));
    assert_eq!(boss.version(), 0);
}

// Scenario: DefineBossCmd rejected — the published roster must contain exactly
// the authoritative 18 Bosses before a launch is validated.
#[test]
fn define_rejects_when_published_roster_is_not_authoritative_size() {
    let mut boss = valid_boss();
    // One short of the authoritative roster.
    boss.set_published_roster_size(AUTHORITATIVE_ROSTER_SIZE - 1);

    let err = boss
        .execute(valid_define_cmd().into_command())
        .expect_err("an incomplete roster must be rejected");
    assert!(matches!(err, DomainError::InvariantViolation(_)));
    assert_eq!(boss.version(), 0);
}

#[test]
fn define_command_payload_round_trips() {
    let cmd = valid_define_cmd();
    let command = cmd.into_command();
    assert_eq!(command.name, DefineBoss::COMMAND);
    let decoded: DefineBoss = match command.payload {
        Payload::Decoded(Request::DefineBoss(decoded)) => decoded,
        _ => panic!("expected the payload of DefineBoss"),
    };
    assert_eq!(decoded, valid_define_cmd());
}

/// A command binding two valid signature cards to `boss-01`.
fn valid_cmd() -> AssignSignatureCards {
    AssignSignatureCards::new(
        "boss-01",
        vec!["card-001".to_string(), "card-002".to_string()],
    )
}

// Scenario: Successfully execute AssignSignatureCardsCmd.
#[test]
fn assigns_signature_and_emits_boss_signature_assigned_event() {
    let mut boss = valid_boss();

    let events = boss
        .execute(valid_cmd().into_command())
        .expect("valid assignment should succeed");

    assert_eq!(events.len(), 1);
    assert_eq!(events[0].event_type(), "boss.signature.assigned");
    match &events[0] {
        Event::SignatureAssigned(assigned) => {
            assert_eq!(assigned.boss_id, "boss-01");
            assert_eq!(assigned.signature_card_ids, vec!["card-001", "card-002"]);
        }
        other => panic!("expected SignatureAssigned, got {other:?}"),
    }
    // The event was recorded on the aggregate root.
    assert_eq!(boss.version(), 1);
    assert_eq!(boss.uncommitted_events().len(), 1);
    assert_eq!(
        boss.uncommitted_events()[0].event_type(),
        "boss.signature.assigned"
    );
}

// Scenario: rejected — every Boss has exactly one hero power and exactly one
// trademark.
#[test]
fn rejects_when_boss_has_more_than_one_hero_power() {
    let mut boss = valid_boss();
    // A second hero power breaks the exactly-one shape.
    boss.declare_hero_power("Second Wind");

    let err = boss
        .execute(valid_cmd().into_command())
        .expect_err("a Boss with two hero powers must be rejected");
    assert!(matches!(err, DomainError::InvariantViolation(_)));
    assert_eq!(boss.version(), 0);
}

// Scenario: rejected — every Boss must be assigned a non-empty signature card
// set drawn from valid CardDefinitions.
#[test]
fn rejects_empty_signature_card_set() {
    let mut boss = valid_boss();
    let cmd = AssignSignatureCards::new("boss-01", Vec::new());

    let err = boss
        .execute(cmd.into_command())
        .expect_err("an empty signature set must be rejected");
    assert!(matches!(err, DomainError::InvariantViolation(_)));
    assert_eq!(boss.version(), 0);
}

// Scenario: rejected — signature cards must be drawn from valid
// CardDefinitions (an id outside the catalog).
#[test]
fn rejects_signature_card_not_in_catalog() {
    let mut boss = valid_boss();
    let cmd = AssignSignatureCards::new(
        "boss-01",
        vec!["card-001".to_string(), "card-999".to_string()],
    );

    let err = boss
        .execute(cmd.into_command())
        .expect_err("a card outside the catalog must be rejected");
    assert!(matches!(err, DomainError::InvariantViolation(_)));
}

// Scenario: rejected — Boss starting HP must fall within the legal HP bounds.
#[test]
fn rejects_starting_hp_outside_legal_bounds() {
    let mut boss = valid_boss();
    // One past the legal maximum.
    boss.set_starting_hp(LEGAL_STARTING_HP.1 + 1);

    let err = boss
        .execute(valid_cmd().into_command())
        .expect_err("HP outside the legal bounds must be rejected");
    assert!(matches!(err, DomainError::InvariantViolation(_)));
}

// Scenario: rejected — the published roster must contain exactly the
// authoritative 18 Bosses before a launch is validated.
#[test]
fn rejects_when_published_roster_is_not_authoritative_size() {
    let mut boss = valid_boss();
    // One short of the authoritative roster.
    boss.set_published_roster_size(AUTHORITATIVE_ROSTER_SIZE - 1);

    let err = boss
        .execute(valid_cmd().into_command())
        .expect_err("an incomplete roster must be rejected");
    assert!(matches!(err, DomainError::InvariantViolation(_)));
}

// An unrecognized command is still an UnknownCommand for this aggregate,
// preserving the contract the mock adapters rely on.
#[test]
fn boss_definition_rejects_unknown_command() {
    let mut boss = BossDefinition::new("boss-01");
    let err = boss.execute(Command::new("NoSuchCommand")).unwrap_err();
    match err {
        DomainError::UnknownCommand { aggregate, command } => {
            assert_eq!(aggregate, "BossDefinition");
            assert_eq!(command, "NoSuchCommand");
        }
        other => panic!("expected UnknownCommand, got {other:?}"),
    }
}

#[test]
fn boss_definition_command_payload_round_trips() {
    let cmd = valid_cmd();
    let command = cmd.into_command();
    assert_eq!(command.name, AssignSignatureCards::COMMAND);
    let decoded: AssignSignatureCards = match command.payload {
        Payload::Decoded(Request::AssignSignatureCards(decoded)) => decoded,
        _ => panic!("expected the payload of AssignSignatureCards"),
    };
    assert_eq!(decoded, valid_cmd());
}

/// A launch-valid Boss with a signature card set already bound, ready for a
/// roster validation. Builds on [`valid_boss`] and adds the standing
/// signature set a `ValidateBossRosterCmd` re-checks.
fn valid_roster_boss() -> BossDefinition {
    let mut boss = valid_boss();
    boss.set_signature_card_ids(&["card-001", "card-002"]);
    boss
}

/// A `ValidateBossRosterCmd` expecting the authoritative 18-Boss roster.
fn valid_validate_cmd() -> ValidateBossRoster {
    ValidateBossRoster::new("roster-launch", AUTHORITATIVE_ROSTER_SIZE)
}

// Scenario: Successfully execute ValidateBossRosterCmd.
#[test]
fn validates_roster_and_emits_boss_roster_validated_event() {
    let mut boss = valid_roster_boss();

    let events = boss
        .execute(valid_validate_cmd().into_command())
        .expect("a valid roster should validate");

    assert_eq!(events.len(), 1);
    assert_eq!(events[0].event_type(), "boss.roster.validated");
    match &events[0] {
        Event::RosterValidated(validated) => {
            assert_eq!(validated.boss_id, "boss-01");
            assert_eq!(validated.roster_id, "roster-launch");
            assert_eq!(validated.validated_count, AUTHORITATIVE_ROSTER_SIZE);
        }
        other => panic!("expected RosterValidated, got {other:?}"),
    }
    assert_eq!(boss.version(), 1);
    assert_eq!(boss.uncommitted_events().len(), 1);
    assert_eq!(
        boss.uncommitted_events()[0].event_type(),
        "boss.roster.validated"
    );
}

// Scenario: rejected — every Boss has exactly one hero power and exactly one
// trademark.
#[test]
fn validate_rejects_when_boss_has_more_than_one_hero_power() {
    let mut boss = valid_roster_boss();
    // A second hero power breaks the exactly-one shape.
    boss.declare_hero_power("Second Wind");

    let err = boss
        .execute(valid_validate_cmd().into_command())
        .expect_err("a Boss with two hero powers must be rejected");
    assert!(matches!(err, DomainError::InvariantViolation(_)));
    assert_eq!(boss.version(), 0);
}

// Scenario: rejected — every Boss must be assigned a non-empty signature card
// set drawn from valid CardDefinitions.
#[test]
fn validate_rejects_empty_signature_card_set() {
    let mut boss = valid_roster_boss();
    // Strip the bound signature set to violate the signature-set invariant.
    boss.set_signature_card_ids(&[]);

    let err = boss
        .execute(valid_validate_cmd().into_command())
        .expect_err("an empty signature set must be rejected");
    assert!(matches!(err, DomainError::InvariantViolation(_)));
    assert_eq!(boss.version(), 0);
}

// Scenario: rejected — Boss starting HP must fall within the legal HP bounds.
#[test]
fn validate_rejects_starting_hp_outside_legal_bounds() {
    let mut boss = valid_roster_boss();
    // One past the legal maximum.
    boss.set_starting_hp(LEGAL_STARTING_HP.1 + 1);

    let err = boss
        .execute(valid_validate_cmd().into_command())
        .expect_err("HP outside the legal bounds must be rejected");
    assert!(matches!(err, DomainError::InvariantViolation(_)));
    assert_eq!(boss.version(), 0);
}

// Scenario: rejected — the published roster must contain exactly the
// authoritative 18 Bosses before a launch is validated.
#[test]
fn validate_rejects_when_published_roster_is_not_authoritative_size() {
    let mut boss = valid_roster_boss();
    // One short of the authoritative roster.
    boss.set_published_roster_size(AUTHORITATIVE_ROSTER_SIZE - 1);

    let err = boss
        .execute(valid_validate_cmd().into_command())
        .expect_err("an incomplete roster must be rejected");
    assert!(matches!(err, DomainError::InvariantViolation(_)));
    assert_eq!(boss.version(), 0);
}

// A caller whose expected_count disagrees with the published roster is
// rejected even when the roster is otherwise the authoritative size.
#[test]
fn validate_rejects_when_expected_count_mismatches_published_roster() {
    let mut boss = valid_roster_boss();
    let cmd = ValidateBossRoster::new("roster-launch", AUTHORITATIVE_ROSTER_SIZE + 1);

    let err = boss
        .execute(cmd.into_command())
        .expect_err("a mismatched expected count must be rejected");
    assert!(matches!(err, DomainError::InvariantViolation(_)));
    assert_eq!(boss.version(), 0);
}

#[test]
fn boss_definition_validate_command_payload_round_trips() {
    let cmd = valid_validate_cmd();
    let command = cmd.into_command();
    assert_eq!(command.name, ValidateBossRoster::COMMAND);
    let decoded: ValidateBossRoster = match command.payload {
        Payload::Decoded(Request::ValidateBossRoster(decoded)) => decoded,
        _ => panic!("expected the payload of ValidateBossRoster"),
    };
    assert_eq!(decoded, valid_validate_cmd());
}

fn message(err: DomainError) -> String {
    match err {
        DomainError::InvariantViolation(message) => message,
        other => panic!("expected InvariantViolation, got {other:?}"),
    }
}

fn define_refusal(change: fn(&mut BossDefinition, &mut DefineBoss)) -> String {
    let mut boss = valid_boss();
    let mut cmd = valid_define_cmd();
    change(&mut boss, &mut cmd);
    let err = boss.execute(cmd.into_command()).unwrap_err();
    assert_eq!(boss.version(), 0);
    message(err)
}

#[test]
fn boss_refusals_are_exact() {
    assert_eq!(
        define_refusal(|_, cmd| cmd.boss_id = "boss-02".to_string()),
        "command targets Boss 'boss-02' but this aggregate records 'boss-01'"
    );
    assert_eq!(
        define_refusal(|_, cmd| cmd.name = "\n ".to_string()),
        "a Boss must have a non-empty name"
    );
    assert_eq!(
        define_refusal(|_, cmd| cmd.hero_powers.clear()),
        "every Boss has exactly one hero power; Boss 'boss-01' declares 0"
    );
    assert_eq!(
        define_refusal(|_, cmd| cmd.trademarks.push("Another".to_string())),
        "every Boss has exactly one trademark; Boss 'boss-01' declares 2"
    );
    assert_eq!(
        define_refusal(|_, cmd| cmd.starting_hp = -5),
        "Boss starting HP must fall within [30, 90]; Boss 'boss-01' has -5"
    );
    assert_eq!(
        define_refusal(|boss, _| boss.set_published_roster_size(17)),
        "the published roster must contain exactly 18 Bosses before a launch is validated; found 17"
    );
    assert_eq!(
        define_refusal(|_, cmd| cmd.signature_card_ids.clear()),
        "every Boss must be assigned a non-empty signature card set; Boss 'boss-01' was given none"
    );
    assert_eq!(
        define_refusal(|_, cmd| {
            cmd.signature_card_ids = vec![
                "card-001".to_string(),
                "card-xyz".to_string(),
                "card-abc".to_string(),
            ]
        }),
        "signature card 'card-xyz' is not drawn from a valid CardDefinition"
    );
}

#[test]
fn starting_hp_at_the_bounds_is_legal() {
    for (hp, legal) in [(29, false), (30, true), (90, true), (91, false), (i64::MIN, false)] {
        let mut cmd = valid_define_cmd();
        cmd.starting_hp = hp;
        assert_eq!(valid_boss().execute(cmd.into_command()).is_ok(), legal);
    }
}

#[test]
fn a_defined_boss_passes_validation() {
    let mut boss = valid_boss();
    boss.execute(valid_define_cmd().into_command()).unwrap();
    boss.execute(valid_validate_cmd().into_command()).unwrap();
    boss.execute(valid_cmd().into_command()).unwrap();
    boss.execute(valid_validate_cmd().into_command()).unwrap();
    assert_eq!(boss.version(), 4);
    assert_eq!(boss.uncommitted_events()[0].event_type(), "boss.defined");
}

#[test]
fn roster_refusals_are_exact() {
    let mut boss = valid_roster_boss();
    let err = boss.execute(ValidateBossRoster::new(" ", 18).into_command()).unwrap_err();
    assert_eq!(message(err), "a roster validation must target a non-empty rosterId");
    let err = boss.execute(ValidateBossRoster::new("r", 19).into_command()).unwrap_err();
    assert_eq!(
        message(err),
        "the published roster must contain exactly 18 Bosses before a launch is validated; caller \
         expected 19 but the roster holds 18"
    );
}

#[test]
fn registering_a_card_twice_changes_nothing() {
    let mut boss = valid_boss();
    boss.register_valid_cards(&["card-001", "card-009", "card-009"]);
    let cmd = AssignSignatureCards::new("boss-01", vec!["card-009".to_string()]);
    boss.execute(cmd.into_command()).unwrap();
    let cmd = AssignSignatureCards::new("boss-01", vec!["card-010".to_string()]);
    assert!(boss.execute(cmd.into_command()).is_err());
}

#[test]
fn malformed_boss_payloads_are_told_by_command() {
    let mut boss = valid_boss();
    for command in [DefineBoss::COMMAND, AssignSignatureCards::COMMAND, ValidateBossRoster::COMMAND] {
        let err = boss.execute(Command::new(command)).unwrap_err();
        assert_eq!(
            message(err),
            format!("malformed {command} payload: EOF while parsing a value at line 1 column 0")
        );
    }
}
