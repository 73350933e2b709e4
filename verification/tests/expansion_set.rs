use domain::expansion_set::DraftCard;
use domain::expansion_set::EXPANSION_CARD_COUNT_BOUNDS;
use domain::expansion_set::Event;
use domain::expansion_set::ExpansionSet;
use domain::expansion_set::ExpansionValidated;
use domain::expansion_set::LEGAL_CARD_COST;
use domain::expansion_set::MAX_COPIES_PER_CARD;
use domain::expansion_set::ValidateExpansion;
use domain::shared::Command;
use domain::shared::DomainError;
use domain::shared::Payload;

/// The smallest legal card count for an expansion; the valid fixtures ship
/// exactly this many cards.
const VALID_CARD_COUNT: usize = EXPANSION_CARD_COUNT_BOUNDS.0;

/// Build `count` schema-well-formed, legal, copy-cap-respecting draft cards.
fn valid_cards(count: usize) -> Vec<DraftCard> {
    (0..count)
        .map(|i| DraftCard {
            card_id: format!("card-{i:04}"),
            class: "Neutral".to_string(),
            // Cycle costs across the legal range so cost legality is exercised.
            cost: (i as i64) % (LEGAL_CARD_COST.1 + 1),
            copies: 1,
        })
        .collect()
}

/// A releasable draft set `SET-01`: a legal-sized batch of valid cards, one
/// introduced keyword that the engine has registered, and `Neutral` as a
/// legal class. Tests mutate one aspect at a time to drive a specific
/// rejection.
fn valid_set() -> ExpansionSet {
    let mut set = ExpansionSet::new("SET-01");
    for card in valid_cards(VALID_CARD_COUNT) {
        set.add_draft_card(card);
    }
    set.register_legal_classes(&["Neutral"]);
    set.introduce_keyword("Overload");
    set.register_engine_keywords(&["Overload", "Rush"]);
    set
}

/// A `ValidateExpansionCmd` targeting the same `SET-01` as [`valid_set`].
fn valid_cmd() -> ValidateExpansion {
    ValidateExpansion::new("SET-01")
}

// Scenario: Successfully execute ValidateExpansionCmd.
#[test]
fn validates_expansion_and_emits_expansion_validated_event() {
    let mut set = valid_set();

    let events = set
        .execute(valid_cmd().into_command())
        .expect("a valid draft set should validate");

    assert_eq!(events.len(), 1);
    assert_eq!(events[0].event_type(), "expansion.validated");
    match &events[0] {
        Event::ExpansionValidated(validated) => {
            assert_eq!(validated.set_code, "SET-01");
            assert_eq!(validated.card_count, VALID_CARD_COUNT);
        }
    }
    // The event was recorded on the aggregate root.
    assert_eq!(set.version(), 1);
    assert_eq!(set.uncommitted_events().len(), 1);
    assert_eq!(
        set.uncommitted_events()[0].event_type(),
        "expansion.validated"
    );
}

// Scenario: rejected — an expansion cannot be released until it passes the
// validator (schema, cost/class legality, copy caps). Here a card's cost is
// outside the legal range.
#[test]
fn rejects_when_a_card_fails_the_validator_cost() {
    let mut set = valid_set();
    set.add_draft_card(DraftCard {
        card_id: "card-illegal".to_string(),
        class: "Neutral".to_string(),
        cost: LEGAL_CARD_COST.1 + 1,
        copies: 1,
    });

    let err = set
        .execute(valid_cmd().into_command())
        .expect_err("a card that fails the validator must be rejected");
    assert!(matches!(err, DomainError::InvariantViolation(_)));
    assert_eq!(set.version(), 0);
}

// Scenario: rejected — the validator also enforces the copy cap.
#[test]
fn rejects_when_a_card_exceeds_the_copy_cap() {
    let mut set = valid_set();
    set.add_draft_card(DraftCard {
        card_id: "card-overcopied".to_string(),
        class: "Neutral".to_string(),
        cost: 3,
        copies: MAX_COPIES_PER_CARD + 1,
    });

    let err = set
        .execute(valid_cmd().into_command())
        .expect_err("a card over the copy cap must be rejected");
    assert!(matches!(err, DomainError::InvariantViolation(_)));
    assert_eq!(set.version(), 0);
}

// Scenario: rejected — the validator also enforces class legality.
#[test]
fn rejects_when_a_card_has_an_illegal_class() {
    let mut set = valid_set();
    set.add_draft_card(DraftCard {
        card_id: "card-badclass".to_string(),
        class: "Nonexistent".to_string(),
        cost: 3,
        copies: 1,
    });

    let err = set
        .execute(valid_cmd().into_command())
        .expect_err("a card with an illegal class must be rejected");
    assert!(matches!(err, DomainError::InvariantViolation(_)));
    assert_eq!(set.version(), 0);
}

// Scenario: rejected — any new keyword introduced by the set must be
// registered and implemented in the engine before release.
#[test]
fn rejects_when_an_introduced_keyword_is_not_registered() {
    let mut set = valid_set();
    // A brand-new keyword the engine has not implemented.
    set.introduce_keyword("Photosynthesize");

    let err = set
        .execute(valid_cmd().into_command())
        .expect_err("an unregistered introduced keyword must be rejected");
    assert!(matches!(err, DomainError::InvariantViolation(_)));
    assert_eq!(set.version(), 0);
}

// Scenario: rejected — set card count must fall within the declared bounds
// for an expansion. Here the set is one card short of the minimum.
#[test]
fn rejects_when_card_count_below_declared_bounds() {
    let mut set = ExpansionSet::new("SET-01");
    for card in valid_cards(EXPANSION_CARD_COUNT_BOUNDS.0 - 1) {
        set.add_draft_card(card);
    }
    set.register_legal_classes(&["Neutral"]);

    let err = set
        .execute(valid_cmd().into_command())
        .expect_err("a card count below the declared bounds must be rejected");
    assert!(matches!(err, DomainError::InvariantViolation(_)));
    assert_eq!(set.version(), 0);
}

// Scenario: rejected — set card count must fall within the declared bounds
// for an expansion. Here the set is one card over the maximum.
#[test]
fn rejects_when_card_count_above_declared_bounds() {
    let mut set = ExpansionSet::new("SET-01");
    for card in valid_cards(EXPANSION_CARD_COUNT_BOUNDS.1 + 1) {
        set.add_draft_card(card);
    }
    set.register_legal_classes(&["Neutral"]);

    let err = set
        .execute(valid_cmd().into_command())
        .expect_err("a card count above the declared bounds must be rejected");
    assert!(matches!(err, DomainError::InvariantViolation(_)));
    assert_eq!(set.version(), 0);
}

// A command targeting a different set than this aggregate records is rejected.
#[test]
fn rejects_command_targeting_a_different_set() {
    let mut set = valid_set();
    let err = set
        .execute(ValidateExpansion::new("SET-99").into_command())
        .expect_err("a command for another set must be rejected");
    assert!(matches!(err, DomainError::InvariantViolation(_)));
    assert_eq!(set.version(), 0);
}

// An unrecognized command is still an UnknownCommand for this aggregate,
// preserving the contract the mock adapters rely on.
#[test]
fn expansion_set_rejects_unknown_command() {
    let mut set = ExpansionSet::new("SET-01");
    let err = set.execute(Command::new("NoSuchCommand")).unwrap_err();
    match err {
        DomainError::UnknownCommand { aggregate, command } => {
            assert_eq!(aggregate, "ExpansionSet");
            assert_eq!(command, "NoSuchCommand");
        }
        other => panic!("expected UnknownCommand, got {other:?}"),
    }
}

#[test]
fn expansion_set_command_payload_round_trips() {
    let cmd = valid_cmd();
    let command = cmd.into_command();
    assert_eq!(command.name, ValidateExpansion::COMMAND);
    let decoded: ValidateExpansion = match command.payload {
        Payload::Decoded(decoded) => decoded,
        Payload::Malformed(complaint) => panic!("expected a payload, got {complaint}"),
    };
    assert_eq!(decoded, valid_cmd());
}

fn message(err: DomainError) -> String {
    match err {
        DomainError::InvariantViolation(message) => message,
        other => panic!("expected InvariantViolation, got {other:?}"),
    }
}

fn set_refusal(change: fn(&mut DraftCard)) -> String {
    let mut set = valid_set();
    let mut card = DraftCard {
        card_id: "card-bad".to_string(),
        class: "Neutral".to_string(),
        cost: 1,
        copies: 1,
    };
    change(&mut card);
    set.add_draft_card(card);
    let err = set.execute(valid_cmd().into_command()).unwrap_err();
    assert_eq!(set.version(), 0);
    message(err)
}

#[test]
fn draft_card_refusals_are_exact() {
    assert_eq!(
        set_refusal(|card| card.card_id = "  ".to_string()),
        "draft card fails schema: empty card id"
    );
    assert_eq!(
        set_refusal(|card| card.class = String::new()),
        "draft card 'card-bad' fails schema: empty class"
    );
    assert_eq!(
        set_refusal(|card| card.cost = -1),
        "draft card 'card-bad' cost -1 is outside the legal range [0, 12]"
    );
    assert_eq!(
        set_refusal(|card| card.class = "Pirate".to_string()),
        "draft card 'card-bad' class 'Pirate' is not a legal class"
    );
    assert_eq!(
        set_refusal(|card| card.copies = 0),
        "draft card 'card-bad' ships 0 copies, outside the copy cap [1, 2]"
    );
    assert_eq!(
        set_refusal(|card| card.copies = 3),
        "draft card 'card-bad' ships 3 copies, outside the copy cap [1, 2]"
    );
}

#[test]
fn the_first_bad_draft_card_is_the_one_told() {
    let mut set = ExpansionSet::new("SET-01");
    set.register_legal_classes(&["Neutral"]);
    for (card_id, cost, copies) in [("a", 1, 1), ("b", 1, 9), ("c", 99, 1)] {
        set.add_draft_card(DraftCard {
            card_id: card_id.to_string(),
            class: "Neutral".to_string(),
            cost,
            copies,
        });
    }
    let err = set.execute(valid_cmd().into_command()).unwrap_err();
    assert_eq!(message(err), "draft card 'b' ships 9 copies, outside the copy cap [1, 2]");
}

#[test]
fn set_refusals_are_exact() {
    let mut set = valid_set();
    set.introduce_keyword("Zap");
    set.introduce_keyword("Aim");
    let err = set.execute(valid_cmd().into_command()).unwrap_err();
    assert_eq!(
        message(err),
        "keyword 'Zap' introduced by the set is not registered and implemented in the engine"
    );
    let mut set = ExpansionSet::new("SET-01");
    let err = set.execute(valid_cmd().into_command()).unwrap_err();
    assert_eq!(
        message(err),
        "set card count must fall within the declared bounds [100, 250]; set 'SET-01' has 0"
    );
    let err = set.execute(ValidateExpansion::new("SET-02").into_command()).unwrap_err();
    assert_eq!(message(err), "command targets set 'SET-02' but this aggregate records 'SET-01'");
}

#[test]
fn card_counts_at_the_bounds_are_legal() {
    for (count, legal) in [(99, false), (100, true), (250, true), (251, false)] {
        let mut set = ExpansionSet::new("SET-01");
        set.register_legal_classes(&["Neutral"]);
        for card in valid_cards(count) {
            set.add_draft_card(card);
        }
        assert_eq!(set.execute(valid_cmd().into_command()).is_ok(), legal);
    }
}

#[test]
fn validation_can_be_repeated() {
    let mut set = valid_set();
    set.execute(valid_cmd().into_command()).unwrap();
    set.execute(valid_cmd().into_command()).unwrap();
    assert_eq!(set.version(), 2);
}
