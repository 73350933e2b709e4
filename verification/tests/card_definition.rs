use domain::card_definition::CardClass;
use domain::card_definition::CardDefinition;
use domain::card_definition::CardType;
use domain::card_definition::DefineCardCmd;
use domain::card_definition::DeprecateCardCmd;
use domain::card_definition::REGISTERED_EFFECTS;
use domain::card_definition::Rarity;
use domain::card_definition::ReviseCardCmd;
use domain::card_definition::validate_card_fields;
use domain::shared::Command;
use domain::shared::DomainError;

/// A `DefineCardCmd` that satisfies every invariant, as a starting point
/// tests mutate one field at a time to drive a specific rejection.
fn valid_cmd() -> DefineCardCmd {
    DefineCardCmd {
        card_id: "card-001".to_string(),
        name: "Getaway Driver".to_string(),
        cost: 3,
        class: "Driver".to_string(),
        card_type: "Operator".to_string(),
        rarity: "Common".to_string(),
        keywords: vec!["Fast".to_string()],
        effect_script_ref: "effect.draw_card".to_string(),
        copy_cap: 0,
    }
}

#[test]
fn define_card_emits_card_defined_event() {
    let mut agg = CardDefinition::new("card-001");
    let events = agg.execute(valid_cmd().into_command()).unwrap();

    assert_eq!(events.len(), 1);
    assert_eq!(events[0].event_type(), "card.defined");
    assert_eq!(agg.version(), 1);
    assert_eq!(agg.uncommitted_events().len(), 1);
    assert_eq!(agg.uncommitted_events()[0].event_type(), "card.defined");
}

#[test]
fn legendary_card_with_declared_copy_cap_of_one_is_accepted() {
    let mut agg = CardDefinition::new("card-legend");
    let cmd = DefineCardCmd {
        rarity: "Legendary".to_string(),
        copy_cap: 1,
        ..valid_cmd()
    };
    assert!(agg.execute(cmd.into_command()).is_ok());
}

#[test]
fn rejects_cost_outside_type_range() {
    let mut agg = CardDefinition::new("card-001");
    // Operator's legal range is [1, 8]; 9 is out of range.
    let cmd = DefineCardCmd {
        cost: 9,
        ..valid_cmd()
    };
    assert!(matches!(
        agg.execute(cmd.into_command()),
        Err(DomainError::InvariantViolation(_))
    ));
    assert_eq!(agg.version(), 0);
}

#[test]
fn rejects_card_claiming_two_classes() {
    let mut agg = CardDefinition::new("card-001");
    let cmd = DefineCardCmd {
        class: "Driver/Hacker".to_string(),
        ..valid_cmd()
    };
    assert!(matches!(
        agg.execute(cmd.into_command()),
        Err(DomainError::InvariantViolation(_))
    ));
}

#[test]
fn rejects_unknown_card_type() {
    let mut agg = CardDefinition::new("card-001");
    let cmd = DefineCardCmd {
        card_type: "Sidekick".to_string(),
        ..valid_cmd()
    };
    assert!(matches!(
        agg.execute(cmd.into_command()),
        Err(DomainError::InvariantViolation(_))
    ));
}

#[test]
fn rejects_unregistered_effect_script_ref() {
    let mut agg = CardDefinition::new("card-001");
    let cmd = DefineCardCmd {
        effect_script_ref: "effect.does_not_exist".to_string(),
        ..valid_cmd()
    };
    assert!(matches!(
        agg.execute(cmd.into_command()),
        Err(DomainError::InvariantViolation(_))
    ));
}

#[test]
fn rejects_legendary_without_copy_cap_of_one() {
    let mut agg = CardDefinition::new("card-001");
    let cmd = DefineCardCmd {
        rarity: "Legendary".to_string(),
        copy_cap: 3,
        ..valid_cmd()
    };
    assert!(matches!(
        agg.execute(cmd.into_command()),
        Err(DomainError::InvariantViolation(_))
    ));
}

/// A `ReviseCardCmd` that satisfies every invariant, as a starting point
/// tests mutate one field at a time to drive a specific rejection.
fn valid_revise_cmd() -> ReviseCardCmd {
    ReviseCardCmd {
        card_id: "card-001".to_string(),
        name: "Getaway Driver".to_string(),
        cost: 4,
        class: "Driver".to_string(),
        card_type: "Operator".to_string(),
        rarity: "Common".to_string(),
        keywords: vec!["Fast".to_string(), "Nimble".to_string()],
        effect_script_ref: "effect.draw_card".to_string(),
        copy_cap: 0,
    }
}

#[test]
fn revise_card_emits_card_revised_event() {
    let mut agg = CardDefinition::new("card-001");
    let events = agg.execute(valid_revise_cmd().into_command()).unwrap();

    assert_eq!(events.len(), 1);
    assert_eq!(events[0].event_type(), "card.revised");
    assert_eq!(agg.version(), 1);
    assert_eq!(agg.uncommitted_events().len(), 1);
    assert_eq!(agg.uncommitted_events()[0].event_type(), "card.revised");
}

#[test]
fn revise_rejects_cost_outside_type_range() {
    let mut agg = CardDefinition::new("card-001");
    // Operator's legal range is [1, 8]; 9 is out of range.
    let cmd = ReviseCardCmd {
        cost: 9,
        ..valid_revise_cmd()
    };
    assert!(matches!(
        agg.execute(cmd.into_command()),
        Err(DomainError::InvariantViolation(_))
    ));
    assert_eq!(agg.version(), 0);
}

#[test]
fn revise_rejects_card_claiming_two_classes() {
    let mut agg = CardDefinition::new("card-001");
    let cmd = ReviseCardCmd {
        class: "Driver/Hacker".to_string(),
        ..valid_revise_cmd()
    };
    assert!(matches!(
        agg.execute(cmd.into_command()),
        Err(DomainError::InvariantViolation(_))
    ));
}

#[test]
fn revise_rejects_unknown_card_type() {
    let mut agg = CardDefinition::new("card-001");
    let cmd = ReviseCardCmd {
        card_type: "Sidekick".to_string(),
        ..valid_revise_cmd()
    };
    assert!(matches!(
        agg.execute(cmd.into_command()),
        Err(DomainError::InvariantViolation(_))
    ));
}

#[test]
fn revise_rejects_unregistered_effect_script_ref() {
    let mut agg = CardDefinition::new("card-001");
    let cmd = ReviseCardCmd {
        effect_script_ref: "effect.does_not_exist".to_string(),
        ..valid_revise_cmd()
    };
    assert!(matches!(
        agg.execute(cmd.into_command()),
        Err(DomainError::InvariantViolation(_))
    ));
}

#[test]
fn revise_rejects_legendary_without_copy_cap_of_one() {
    let mut agg = CardDefinition::new("card-001");
    let cmd = ReviseCardCmd {
        rarity: "Legendary".to_string(),
        copy_cap: 3,
        ..valid_revise_cmd()
    };
    assert!(matches!(
        agg.execute(cmd.into_command()),
        Err(DomainError::InvariantViolation(_))
    ));
    assert_eq!(agg.version(), 0);
}

#[test]
fn revise_legendary_with_declared_copy_cap_of_one_is_accepted() {
    let mut agg = CardDefinition::new("card-legend");
    let cmd = ReviseCardCmd {
        rarity: "Legendary".to_string(),
        copy_cap: 1,
        ..valid_revise_cmd()
    };
    assert!(agg.execute(cmd.into_command()).is_ok());
}

/// A `DeprecateCardCmd` that satisfies every invariant, as a starting point
/// tests mutate one field at a time to drive a specific rejection.
fn valid_deprecate_cmd() -> DeprecateCardCmd {
    DeprecateCardCmd {
        card_id: "card-001".to_string(),
        reason: "power creep — retired from Standard".to_string(),
        name: "Getaway Driver".to_string(),
        cost: 3,
        class: "Driver".to_string(),
        card_type: "Operator".to_string(),
        rarity: "Common".to_string(),
        keywords: vec!["Fast".to_string()],
        effect_script_ref: "effect.draw_card".to_string(),
        copy_cap: 0,
    }
}

#[test]
fn deprecate_card_emits_card_deprecated_event() {
    let mut agg = CardDefinition::new("card-001");
    let events = agg.execute(valid_deprecate_cmd().into_command()).unwrap();

    assert_eq!(events.len(), 1);
    assert_eq!(events[0].event_type(), "card.deprecated");
    assert_eq!(agg.version(), 1);
    assert_eq!(agg.uncommitted_events().len(), 1);
    assert_eq!(agg.uncommitted_events()[0].event_type(), "card.deprecated");
}

#[test]
fn deprecate_rejects_empty_reason() {
    let mut agg = CardDefinition::new("card-001");
    let cmd = DeprecateCardCmd {
        reason: "   ".to_string(),
        ..valid_deprecate_cmd()
    };
    assert!(matches!(
        agg.execute(cmd.into_command()),
        Err(DomainError::InvariantViolation(_))
    ));
    assert_eq!(agg.version(), 0);
}

#[test]
fn deprecate_rejects_cost_outside_type_range() {
    let mut agg = CardDefinition::new("card-001");
    // Operator's legal range is [1, 8]; 9 is out of range.
    let cmd = DeprecateCardCmd {
        cost: 9,
        ..valid_deprecate_cmd()
    };
    assert!(matches!(
        agg.execute(cmd.into_command()),
        Err(DomainError::InvariantViolation(_))
    ));
    assert_eq!(agg.version(), 0);
}

#[test]
fn deprecate_rejects_card_claiming_two_classes() {
    let mut agg = CardDefinition::new("card-001");
    let cmd = DeprecateCardCmd {
        class: "Driver/Hacker".to_string(),
        ..valid_deprecate_cmd()
    };
    assert!(matches!(
        agg.execute(cmd.into_command()),
        Err(DomainError::InvariantViolation(_))
    ));
}

#[test]
fn deprecate_rejects_unknown_card_type() {
    let mut agg = CardDefinition::new("card-001");
    let cmd = DeprecateCardCmd {
        card_type: "Sidekick".to_string(),
        ..valid_deprecate_cmd()
    };
    assert!(matches!(
        agg.execute(cmd.into_command()),
        Err(DomainError::InvariantViolation(_))
    ));
}

#[test]
fn deprecate_rejects_unregistered_effect_script_ref() {
    let mut agg = CardDefinition::new("card-001");
    let cmd = DeprecateCardCmd {
        effect_script_ref: "effect.does_not_exist".to_string(),
        ..valid_deprecate_cmd()
    };
    assert!(matches!(
        agg.execute(cmd.into_command()),
        Err(DomainError::InvariantViolation(_))
    ));
}

#[test]
fn deprecate_rejects_legendary_without_copy_cap_of_one() {
    let mut agg = CardDefinition::new("card-001");
    let cmd = DeprecateCardCmd {
        rarity: "Legendary".to_string(),
        copy_cap: 3,
        ..valid_deprecate_cmd()
    };
    assert!(matches!(
        agg.execute(cmd.into_command()),
        Err(DomainError::InvariantViolation(_))
    ));
    assert_eq!(agg.version(), 0);
}

#[test]
fn deprecate_legendary_with_declared_copy_cap_of_one_is_accepted() {
    let mut agg = CardDefinition::new("card-legend");
    let cmd = DeprecateCardCmd {
        rarity: "Legendary".to_string(),
        copy_cap: 1,
        ..valid_deprecate_cmd()
    };
    assert!(agg.execute(cmd.into_command()).is_ok());
}

#[test]
fn card_definition_rejects_unknown_command() {
    let mut agg = CardDefinition::new("card-001");
    let err = agg.execute(Command::new("NoSuchCommand")).unwrap_err();
    assert!(matches!(
        err,
        DomainError::UnknownCommand {
            aggregate: "CardDefinition",
            ..
        }
    ));
}

fn message(err: DomainError) -> String {
    match err {
        DomainError::InvariantViolation(message) => message,
        other => panic!("expected InvariantViolation, got {other:?}"),
    }
}

fn refusal(change: fn(&mut DefineCardCmd)) -> String {
    let mut cmd = valid_cmd();
    change(&mut cmd);
    let mut card = CardDefinition::new("card-001");
    let err = card.execute(cmd.into_command()).unwrap_err();
    assert_eq!(card.version(), 0);
    message(err)
}

#[test]
fn card_refusals_are_exact() {
    assert_eq!(
        refusal(|cmd| cmd.name = " \t\u{3000}".to_string()),
        "a card must have a non-empty name"
    );
    assert_eq!(
        refusal(|cmd| cmd.card_type = "operator".to_string()),
        "card type must be exactly one of Operator, Job, Piece, Vehicle, or Heist; got 'operator'"
    );
    assert_eq!(
        refusal(|cmd| cmd.class = " , / ".to_string()),
        "a card must declare exactly one class or Neutral; none was provided"
    );
    assert_eq!(
        refusal(|cmd| cmd.class = " Pilot ".to_string()),
        "unknown card class 'Pilot'; a card must name one known class or Neutral"
    );
    assert_eq!(
        refusal(|cmd| cmd.class = "Driver & Driver".to_string()),
        "a card belongs to exactly one class or is Neutral; no card may claim two classes; got \
         'Driver & Driver'"
    );
    assert_eq!(refusal(|cmd| cmd.rarity = "Mythic".to_string()), "unknown rarity 'Mythic'");
    assert_eq!(
        refusal(|cmd| cmd.cost = -1),
        "a Operator's Juice cost must fall within [1, 8]; got -1"
    );
    assert_eq!(
        refusal(|cmd| cmd.effect_script_ref = "effect.noop ".to_string()),
        "effect-script reference 'effect.noop ' does not resolve to a registered effect"
    );
    assert_eq!(
        refusal(|cmd| {
            cmd.rarity = "Legendary".to_string();
            cmd.copy_cap = 2;
        }),
        "Legendary rarity carries a per-Outfit copy cap of 1; definition declared 2"
    );
}

#[test]
fn class_fields_are_trimmed_and_split() {
    assert_eq!(CardClass::parse("  Hacker\n"), Ok(CardClass::Hacker));
    assert_eq!(CardClass::parse("/Boss,"), Ok(CardClass::Boss));
    assert_eq!(CardClass::parse("+ & Neutral"), Ok(CardClass::Neutral));
    assert!(CardClass::parse("").is_err());
    assert!(CardClass::parse("Boss Hacker").is_err());
    assert!(CardClass::parse("Boss+Hacker").is_err());
}

#[test]
fn every_class_reads_as_itself() {
    for class in [
        CardClass::Neutral,
        CardClass::Boss,
        CardClass::Muscle,
        CardClass::Grifter,
        CardClass::Hacker,
        CardClass::Driver,
        CardClass::Cleaner,
    ] {
        assert_eq!(CardClass::parse(class.as_str()), Ok(class));
    }
}

#[test]
fn every_type_and_rarity_reads_as_itself() {
    for (card_type, range) in [
        (CardType::Operator, (1, 8)),
        (CardType::Job, (0, 6)),
        (CardType::Piece, (0, 5)),
        (CardType::Vehicle, (2, 9)),
        (CardType::Heist, (3, 12)),
    ] {
        assert_eq!(CardType::parse(card_type.as_str()), Ok(card_type));
        assert_eq!(card_type.legal_cost_range(), range);
    }
    for rarity in [
        Rarity::Common,
        Rarity::Uncommon,
        Rarity::Rare,
        Rarity::Epic,
        Rarity::Legendary,
    ] {
        assert_eq!(Rarity::parse(rarity.as_str()), Ok(rarity));
    }
}

#[test]
fn costs_at_the_bounds_are_legal() {
    for (card_type, min, max) in [("Operator", 1, 8), ("Vehicle", 2, 9), ("Heist", 3, 12)] {
        for (cost, legal) in [(min - 1, false), (min, true), (max, true), (max + 1, false)] {
            let mut cmd = valid_cmd();
            cmd.card_type = card_type.to_string();
            cmd.cost = cost;
            let mut card = CardDefinition::new("card-001");
            assert_eq!(card.execute(cmd.into_command()).is_ok(), legal);
        }
    }
}

#[test]
fn every_registered_effect_is_accepted() {
    for effect in REGISTERED_EFFECTS {
        let mut cmd = valid_cmd();
        cmd.effect_script_ref = effect.to_string();
        assert!(CardDefinition::new("card-001").execute(cmd.into_command()).is_ok());
    }
}

#[test]
fn the_reason_is_checked_before_the_card() {
    let mut cmd = valid_deprecate_cmd();
    cmd.reason = "\u{a0}".to_string();
    cmd.name = String::new();
    let err = CardDefinition::new("card-001").execute(cmd.into_command()).unwrap_err();
    assert_eq!(message(err), "a card deprecation must carry a non-empty reason");
}

#[test]
fn validation_gives_the_value_objects() {
    let fields =
        validate_card_fields("Getaway", "Heist", " Driver ", "Legendary", 12, "effect.pull_heist", 1)
            .unwrap();
    assert_eq!(fields.class, CardClass::Driver);
    assert_eq!(fields.card_type, CardType::Heist);
    assert_eq!(fields.rarity, Rarity::Legendary);
}
