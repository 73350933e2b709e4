use domain::outfit::AddCardToOutfit;
use domain::outfit::CardAddedToOutfit;
use domain::outfit::CardRemovedFromOutfit;
use domain::outfit::Event;
use domain::outfit::LEGAL_OUTFIT_SIZE;
use domain::outfit::Outfit;
use domain::outfit::OutfitValidated;
use domain::outfit::RemoveCardFromOutfit;
use domain::outfit::Request;
use domain::outfit::ValidateOutfit;
use domain::shared::Command;
use domain::shared::DomainError;
use domain::shared::Payload;

/// A legal, removal-ready Outfit `o-01` owned by `o-01`: exactly 30 cards,
/// all of its own class or Neutral, all within copy caps, all owned. Tests
/// mutate one aspect at a time to drive a specific rejection.
fn ready_outfit() -> Outfit {
    let mut outfit = Outfit::new("o-01");
    outfit.set_card_count(LEGAL_OUTFIT_SIZE);
    outfit.set_only_own_class_or_neutral(true);
    outfit.set_within_copy_limits(true);
    outfit.set_all_cards_owned(true);
    outfit
}

/// A command removing card `c-01` from outfit `o-01`.
fn valid_cmd() -> RemoveCardFromOutfit {
    RemoveCardFromOutfit::new("o-01", "c-01")
}

// Scenario: Successfully execute RemoveCardFromOutfitCmd.
#[test]
fn removes_and_emits_card_removed_event() {
    let mut outfit = ready_outfit();

    let events = outfit
        .execute(valid_cmd().into_command())
        .expect("valid removal should succeed");

    assert_eq!(events.len(), 1);
    assert_eq!(events[0].event_type(), "card.removed.from.outfit");
    match &events[0] {
        Event::CardRemovedFromOutfit(removed) => {
            assert_eq!(removed.outfit_id, "o-01");
            assert_eq!(removed.card_id, "c-01");
        }
        other => panic!("expected CardRemovedFromOutfit, got {other:?}"),
    }
    // The Outfit recorded the event.
    assert_eq!(outfit.version(), 1);
    assert_eq!(outfit.uncommitted_events().len(), 1);
    assert_eq!(
        outfit.uncommitted_events()[0].event_type(),
        "card.removed.from.outfit"
    );
}

// Scenario: rejected — an Outfit contains exactly 30 cards to be legal for
// saving/play.
#[test]
fn rejects_when_not_exactly_thirty_cards() {
    let mut outfit = ready_outfit();
    // A deck of any size other than 30 is illegal for saving/play.
    outfit.set_card_count(29);

    let err = outfit
        .execute(valid_cmd().into_command())
        .expect_err("an Outfit that is not exactly 30 cards must be rejected");
    assert!(matches!(err, DomainError::InvariantViolation(_)));
    assert_eq!(outfit.version(), 0);
}

// Scenario: rejected — an Outfit may include only cards of its own class plus
// Neutral cards.
#[test]
fn rejects_when_card_outside_own_class() {
    let mut outfit = ready_outfit();
    // The deck includes a card of a foreign class.
    outfit.set_only_own_class_or_neutral(false);

    let err = outfit
        .execute(valid_cmd().into_command())
        .expect_err("an Outfit with a foreign-class card must be rejected");
    assert!(matches!(err, DomainError::InvariantViolation(_)));
    assert_eq!(outfit.version(), 0);
}

// Scenario: rejected — at most 2 copies of any card (1 copy for Legendary)
// may be included.
#[test]
fn rejects_when_copy_cap_exceeded() {
    let mut outfit = ready_outfit();
    // The deck exceeds a card's copy cap.
    outfit.set_within_copy_limits(false);

    let err = outfit
        .execute(valid_cmd().into_command())
        .expect_err("an Outfit exceeding a copy cap must be rejected");
    assert!(matches!(err, DomainError::InvariantViolation(_)));
    assert_eq!(outfit.version(), 0);
}

// Scenario: rejected — every card in the Outfit must be owned in the player's
// collection at validation time.
#[test]
fn rejects_when_card_not_owned() {
    let mut outfit = ready_outfit();
    // The deck references a card the player does not own.
    outfit.set_all_cards_owned(false);

    let err = outfit
        .execute(valid_cmd().into_command())
        .expect_err("an Outfit referencing an unowned card must be rejected");
    assert!(matches!(err, DomainError::InvariantViolation(_)));
    assert_eq!(outfit.version(), 0);
}

// A command naming a different Outfit is rejected before any invariant runs.
#[test]
fn rejects_command_for_a_different_outfit() {
    let mut outfit = ready_outfit();
    let cmd = RemoveCardFromOutfit::new("o-99", "c-01");

    let err = outfit
        .execute(cmd.into_command())
        .expect_err("a command for another outfit must be rejected");
    assert!(matches!(err, DomainError::InvariantViolation(_)));
    assert_eq!(outfit.version(), 0);
}

// Commands missing any required field are rejected.
#[test]
fn outfit_rejects_command_with_missing_fields() {
    for cmd in [
        RemoveCardFromOutfit::new("   ", "c-01"),
        RemoveCardFromOutfit::new("o-01", "   "),
    ] {
        let mut outfit = ready_outfit();
        let err = outfit
            .execute(cmd.into_command())
            .expect_err("a command with a missing field must be rejected");
        assert!(matches!(err, DomainError::InvariantViolation(_)));
        assert_eq!(outfit.version(), 0);
    }
}

/// A command validating outfit `o-01`.
fn valid_validate_cmd() -> ValidateOutfit {
    ValidateOutfit::new("o-01")
}

// Scenario: Successfully execute ValidateOutfitCmd.
#[test]
fn validates_and_emits_outfit_validated_event() {
    let mut outfit = ready_outfit();

    let events = outfit
        .execute(valid_validate_cmd().into_command())
        .expect("valid validation should succeed");

    assert_eq!(events.len(), 1);
    assert_eq!(events[0].event_type(), "outfit.validated");
    match &events[0] {
        Event::OutfitValidated(validated) => {
            assert_eq!(validated.outfit_id, "o-01");
        }
        other => panic!("expected OutfitValidated, got {other:?}"),
    }
    // The Outfit recorded the event.
    assert_eq!(outfit.version(), 1);
    assert_eq!(outfit.uncommitted_events().len(), 1);
    assert_eq!(
        outfit.uncommitted_events()[0].event_type(),
        "outfit.validated"
    );
}

// Scenario: ValidateOutfitCmd rejected — an Outfit contains exactly 30 cards
// to be legal for saving/play.
#[test]
fn validate_rejects_when_not_exactly_thirty_cards() {
    let mut outfit = ready_outfit();
    // A deck of any size other than 30 is illegal for saving/play.
    outfit.set_card_count(31);

    let err = outfit
        .execute(valid_validate_cmd().into_command())
        .expect_err("an Outfit that is not exactly 30 cards must be rejected");
    assert!(matches!(err, DomainError::InvariantViolation(_)));
    assert_eq!(outfit.version(), 0);
}

// Scenario: ValidateOutfitCmd rejected — an Outfit may include only cards of
// its own class plus Neutral cards.
#[test]
fn validate_rejects_when_card_outside_own_class() {
    let mut outfit = ready_outfit();
    // The deck includes a card of a foreign class.
    outfit.set_only_own_class_or_neutral(false);

    let err = outfit
        .execute(valid_validate_cmd().into_command())
        .expect_err("an Outfit with a foreign-class card must be rejected");
    assert!(matches!(err, DomainError::InvariantViolation(_)));
    assert_eq!(outfit.version(), 0);
}

// Scenario: ValidateOutfitCmd rejected — at most 2 copies of any card (1 copy
// for Legendary) may be included.
#[test]
fn validate_rejects_when_copy_cap_exceeded() {
    let mut outfit = ready_outfit();
    // The deck exceeds a card's copy cap.
    outfit.set_within_copy_limits(false);

    let err = outfit
        .execute(valid_validate_cmd().into_command())
        .expect_err("an Outfit exceeding a copy cap must be rejected");
    assert!(matches!(err, DomainError::InvariantViolation(_)));
    assert_eq!(outfit.version(), 0);
}

// Scenario: ValidateOutfitCmd rejected — every card in the Outfit must be
// owned in the player's collection at validation time.
#[test]
fn validate_rejects_when_card_not_owned() {
    let mut outfit = ready_outfit();
    // The deck references a card the player does not own.
    outfit.set_all_cards_owned(false);

    let err = outfit
        .execute(valid_validate_cmd().into_command())
        .expect_err("an Outfit referencing an unowned card must be rejected");
    assert!(matches!(err, DomainError::InvariantViolation(_)));
    assert_eq!(outfit.version(), 0);
}

// A validate command naming a different Outfit is rejected before any
// invariant runs.
#[test]
fn validate_rejects_command_for_a_different_outfit() {
    let mut outfit = ready_outfit();
    let cmd = ValidateOutfit::new("o-99");

    let err = outfit
        .execute(cmd.into_command())
        .expect_err("a command for another outfit must be rejected");
    assert!(matches!(err, DomainError::InvariantViolation(_)));
    assert_eq!(outfit.version(), 0);
}

// A validate command with a missing outfitId is rejected.
#[test]
fn validate_rejects_command_with_missing_outfit_id() {
    let mut outfit = ready_outfit();
    let err = outfit
        .execute(ValidateOutfit::new("   ").into_command())
        .expect_err("a command with a missing outfitId must be rejected");
    assert!(matches!(err, DomainError::InvariantViolation(_)));
    assert_eq!(outfit.version(), 0);
}

#[test]
fn outfit_validate_command_payload_round_trips() {
    let cmd = valid_validate_cmd();
    let command = cmd.into_command();
    assert_eq!(command.name, ValidateOutfit::COMMAND);
    let decoded: ValidateOutfit = match command.payload {
        Payload::Decoded(Request::ValidateOutfit(decoded)) => decoded,
        _ => panic!("expected the payload of ValidateOutfit"),
    };
    assert_eq!(decoded, valid_validate_cmd());
}

// An unrecognized command is still an UnknownCommand for this aggregate,
// preserving the contract the mock adapters rely on.
#[test]
fn outfit_rejects_unknown_command() {
    let mut outfit = Outfit::new("o-01");
    let err = outfit.execute(Command::new("NoSuchCommand")).unwrap_err();
    match err {
        DomainError::UnknownCommand { aggregate, command } => {
            assert_eq!(aggregate, "Outfit");
            assert_eq!(command, "NoSuchCommand");
        }
        other => panic!("expected UnknownCommand, got {other:?}"),
    }
}

#[test]
fn outfit_command_payload_round_trips() {
    let cmd = valid_cmd();
    let command = cmd.into_command();
    assert_eq!(command.name, RemoveCardFromOutfit::COMMAND);
    let decoded: RemoveCardFromOutfit = match command.payload {
        Payload::Decoded(Request::RemoveCardFromOutfit(decoded)) => decoded,
        _ => panic!("expected the payload of RemoveCardFromOutfit"),
    };
    assert_eq!(decoded, valid_cmd());
}

/// A command adding card `c-01` to outfit `o-01`.
fn valid_add_cmd() -> AddCardToOutfit {
    AddCardToOutfit::new("o-01", "c-01")
}

// Scenario: Successfully execute AddCardToOutfitCmd.
#[test]
fn adds_and_emits_card_added_event() {
    let mut outfit = ready_outfit();

    let events = outfit
        .execute(valid_add_cmd().into_command())
        .expect("valid addition should succeed");

    assert_eq!(events.len(), 1);
    assert_eq!(events[0].event_type(), "card.added.to.outfit");
    match &events[0] {
        Event::CardAddedToOutfit(added) => {
            assert_eq!(added.outfit_id, "o-01");
            assert_eq!(added.card_id, "c-01");
        }
        other => panic!("expected CardAddedToOutfit, got {other:?}"),
    }
    // The Outfit recorded the event.
    assert_eq!(outfit.version(), 1);
    assert_eq!(outfit.uncommitted_events().len(), 1);
    assert_eq!(
        outfit.uncommitted_events()[0].event_type(),
        "card.added.to.outfit"
    );
}

// Scenario: AddCardToOutfitCmd rejected — an Outfit contains exactly 30 cards
// to be legal for saving/play.
#[test]
fn add_rejects_when_not_exactly_thirty_cards() {
    let mut outfit = ready_outfit();
    // A deck of any size other than 30 is illegal for saving/play.
    outfit.set_card_count(31);

    let err = outfit
        .execute(valid_add_cmd().into_command())
        .expect_err("an Outfit that is not exactly 30 cards must be rejected");
    assert!(matches!(err, DomainError::InvariantViolation(_)));
    assert_eq!(outfit.version(), 0);
}

// Scenario: AddCardToOutfitCmd rejected — an Outfit may include only cards of
// its own class plus Neutral cards.
#[test]
fn add_rejects_when_card_outside_own_class() {
    let mut outfit = ready_outfit();
    // The deck includes a card of a foreign class.
    outfit.set_only_own_class_or_neutral(false);

    let err = outfit
        .execute(valid_add_cmd().into_command())
        .expect_err("an Outfit with a foreign-class card must be rejected");
    assert!(matches!(err, DomainError::InvariantViolation(_)));
    assert_eq!(outfit.version(), 0);
}

// Scenario: AddCardToOutfitCmd rejected — at most 2 copies of any card (1 copy
// for Legendary) may be included.
#[test]
fn add_rejects_when_copy_cap_exceeded() {
    let mut outfit = ready_outfit();
    // The deck exceeds a card's copy cap.
    outfit.set_within_copy_limits(false);

    let err = outfit
        .execute(valid_add_cmd().into_command())
        .expect_err("an Outfit exceeding a copy cap must be rejected");
    assert!(matches!(err, DomainError::InvariantViolation(_)));
    assert_eq!(outfit.version(), 0);
}

// Scenario: AddCardToOutfitCmd rejected — every card in the Outfit must be
// owned in the player's collection at validation time.
#[test]
fn add_rejects_when_card_not_owned() {
    let mut outfit = ready_outfit();
    // The deck references a card the player does not own.
    outfit.set_all_cards_owned(false);

    let err = outfit
        .execute(valid_add_cmd().into_command())
        .expect_err("an Outfit referencing an unowned card must be rejected");
    assert!(matches!(err, DomainError::InvariantViolation(_)));
    assert_eq!(outfit.version(), 0);
}

// An add command naming a different Outfit is rejected before any invariant
// runs.
#[test]
fn add_rejects_command_for_a_different_outfit() {
    let mut outfit = ready_outfit();
    let cmd = AddCardToOutfit::new("o-99", "c-01");

    let err = outfit
        .execute(cmd.into_command())
        .expect_err("a command for another outfit must be rejected");
    assert!(matches!(err, DomainError::InvariantViolation(_)));
    assert_eq!(outfit.version(), 0);
}

// Add commands missing any required field are rejected.
#[test]
fn add_rejects_command_with_missing_fields() {
    for cmd in [
        AddCardToOutfit::new("   ", "c-01"),
        AddCardToOutfit::new("o-01", "   "),
    ] {
        let mut outfit = ready_outfit();
        let err = outfit
            .execute(cmd.into_command())
            .expect_err("a command with a missing field must be rejected");
        assert!(matches!(err, DomainError::InvariantViolation(_)));
        assert_eq!(outfit.version(), 0);
    }
}

#[test]
fn add_command_payload_round_trips() {
    let cmd = valid_add_cmd();
    let command = cmd.into_command();
    assert_eq!(command.name, AddCardToOutfit::COMMAND);
    let decoded: AddCardToOutfit = match command.payload {
        Payload::Decoded(Request::AddCardToOutfit(decoded)) => decoded,
        _ => panic!("expected the payload of AddCardToOutfit"),
    };
    assert_eq!(decoded, valid_add_cmd());
}

fn message(err: DomainError) -> String {
    match err {
        DomainError::InvariantViolation(message) => message,
        other => panic!("expected InvariantViolation, got {other:?}"),
    }
}

fn add_refusal(change: fn(&mut Outfit)) -> String {
    let mut outfit = ready_outfit();
    change(&mut outfit);
    let err = outfit.execute(valid_add_cmd().into_command()).unwrap_err();
    assert_eq!(outfit.version(), 0);
    message(err)
}

#[test]
fn outfit_refusals_are_exact() {
    assert_eq!(
        add_refusal(|outfit| outfit.set_card_count(-31)),
        "outfit 'o-01' holds -31 cards; an Outfit contains exactly 30 cards to be legal for \
         saving/play"
    );
    assert_eq!(
        add_refusal(|outfit| outfit.set_only_own_class_or_neutral(false)),
        "outfit 'o-01' includes a card outside its own class; an Outfit may include only cards of \
         its own class plus Neutral cards"
    );
    assert_eq!(
        add_refusal(|outfit| outfit.set_within_copy_limits(false)),
        "outfit 'o-01' exceeds a card's copy cap; at most 2 copies of any card (1 copy for a \
         Legendary) may be included"
    );
    assert_eq!(
        add_refusal(|outfit| {
            outfit.set_player_id("p-9");
            outfit.set_all_cards_owned(false);
        }),
        "outfit 'o-01' references a card not owned by player 'p-9'; every card in the Outfit must \
         be owned in the player's collection at validation time"
    );
}

#[test]
fn outfit_targets_are_checked_field_by_field() {
    let mut outfit = ready_outfit();
    let err = outfit.execute(AddCardToOutfit::new(" ", "").into_command()).unwrap_err();
    assert_eq!(message(err), "outfit 'o-01' requires a valid outfitId to add a card");
    let err = outfit.execute(AddCardToOutfit::new("o-02", "").into_command()).unwrap_err();
    assert_eq!(message(err), "outfit 'o-01' requires a valid cardId to add a card");
    let err = outfit.execute(AddCardToOutfit::new("o-02", "c").into_command()).unwrap_err();
    assert_eq!(message(err), "command targets outfit 'o-02' but this aggregate is outfit 'o-01'");
}

#[test]
fn commands_do_not_touch_the_deck() {
    let mut outfit = ready_outfit();
    outfit.execute(valid_add_cmd().into_command()).unwrap();
    outfit.execute(valid_cmd().into_command()).unwrap();
    outfit.execute(valid_validate_cmd().into_command()).unwrap();
    assert_eq!(outfit.card_count(), LEGAL_OUTFIT_SIZE);
    assert_eq!(outfit.version(), 3);
}
