use domain::card_token::CardToken;
use domain::card_token::CardTokenMinted;
use domain::card_token::Event;
use domain::card_token::LinkWalletCmd;
use domain::card_token::MetadataStaged;
use domain::card_token::MintCardTokenCmd;
use domain::card_token::Request;
use domain::card_token::StageMetadataCmd;
use domain::card_token::StagedMetadata;
use domain::card_token::WalletLinked;
use domain::shared::Command;
use domain::shared::DomainError;
use domain::shared::Payload;

/// A mint-ready CardToken `token-01`: server-authoritative ownership,
/// resolvable staged metadata, no consumed serials, and verified on-chain
/// ownership for on-face render.
fn ready_token() -> CardToken {
    let mut token = CardToken::new("token-01");
    token.set_ownership_verified_server_authoritatively(true);
    token.set_ipfs_metadata_record_resolvable(true);
    token.set_on_chain_ownership_verified_for_render(true);
    token
}

/// A command minting token `token-01` with staged IPFS metadata and serial
/// `SN-0001`.
fn valid_cmd() -> MintCardTokenCmd {
    MintCardTokenCmd::new("token-01", "ipfs://metadata/token-01", "SN-0001")
}

// Scenario: Successfully execute MintCardTokenCmd.
#[test]
fn mints_and_emits_card_token_minted_event() {
    let mut token = ready_token();

    let events = token
        .execute(valid_cmd().into_command())
        .expect("valid mint should succeed");

    assert_eq!(events.len(), 1);
    assert_eq!(events[0].event_type(), "card.token.minted");
    match &events[0] {
        Event::CardTokenMinted(minted) => {
            assert_eq!(minted.token_id, "token-01");
            assert_eq!(minted.ipfs_metadata_ref, "ipfs://metadata/token-01");
            assert_eq!(minted.serial_number, "SN-0001");
        }
        other => panic!("expected CardTokenMinted, got {other:?}"),
    }
    // The CardToken recorded the event and consumed the serial number.
    assert_eq!(token.version(), 1);
    assert_eq!(token.uncommitted_events().len(), 1);
    assert_eq!(
        token.uncommitted_events()[0].event_type(),
        "card.token.minted"
    );
}

// Scenario: rejected - Ownership is verified server-authoritatively at match
// start; client-asserted ownership is never trusted.
#[test]
fn rejects_when_ownership_not_server_authoritative() {
    let mut token = ready_token();
    token.set_ownership_verified_server_authoritatively(false);

    let err = token
        .execute(valid_cmd().into_command())
        .expect_err("client-asserted ownership must be rejected");
    assert!(matches!(err, DomainError::InvariantViolation(_)));
    assert_eq!(token.version(), 0);
}

// Scenario: rejected - Every tokenId maps to a resolvable IPFS metadata
// record (name, cost, art URL, effect ref).
#[test]
fn rejects_when_ipfs_metadata_record_is_not_resolvable() {
    let mut token = ready_token();
    token.set_ipfs_metadata_record_resolvable(false);

    let err = token
        .execute(valid_cmd().into_command())
        .expect_err("unresolvable staged metadata must be rejected");
    assert!(matches!(err, DomainError::InvariantViolation(_)));
    assert_eq!(token.version(), 0);
}

// Scenario: rejected - Serialized cosmetic editions carry a unique,
// non-reusable serial number.
#[test]
fn rejects_when_serial_number_was_already_used() {
    let mut token = ready_token();
    token.record_used_serial_number("SN-0001");

    let err = token
        .execute(valid_cmd().into_command())
        .expect_err("a reused serial number must be rejected");
    assert!(matches!(err, DomainError::InvariantViolation(_)));
    assert_eq!(token.version(), 0);
}

// Serialized cosmetic editions are non-reusable in practice: a second mint
// with the same serial is rejected after the first successful mint consumed
// it.
#[test]
fn rejects_repeated_mint_with_same_serial_number() {
    let mut token = ready_token();

    token
        .execute(valid_cmd().into_command())
        .expect("first mint should succeed");
    let err = token
        .execute(valid_cmd().into_command())
        .expect_err("a repeated serial number must be rejected");
    assert!(matches!(err, DomainError::InvariantViolation(_)));
    assert_eq!(token.version(), 1);
    assert_eq!(token.uncommitted_events().len(), 1);
}

// Scenario: rejected - A cosmetic renders on-face only after verified
// on-chain ownership.
#[test]
fn rejects_when_on_chain_ownership_not_verified_for_render() {
    let mut token = ready_token();
    token.set_on_chain_ownership_verified_for_render(false);

    let err = token
        .execute(valid_cmd().into_command())
        .expect_err("unverified on-chain ownership must be rejected");
    assert!(matches!(err, DomainError::InvariantViolation(_)));
    assert_eq!(token.version(), 0);
}

// A command naming a different CardToken is rejected before any invariant
// runs.
#[test]
fn rejects_command_for_a_different_token() {
    let mut token = ready_token();
    let cmd = MintCardTokenCmd::new("token-99", "ipfs://metadata/token-99", "SN-0001");

    let err = token
        .execute(cmd.into_command())
        .expect_err("a command for another token must be rejected");
    assert!(matches!(err, DomainError::InvariantViolation(_)));
    assert_eq!(token.version(), 0);
}

// Commands missing any required field are rejected.
#[test]
fn card_token_rejects_command_with_missing_fields() {
    for cmd in [
        MintCardTokenCmd::new("   ", "ipfs://metadata/token-01", "SN-0001"),
        MintCardTokenCmd::new("token-01", "   ", "SN-0001"),
        MintCardTokenCmd::new("token-01", "ipfs://metadata/token-01", "   "),
    ] {
        let mut token = ready_token();
        let err = token
            .execute(cmd.into_command())
            .expect_err("a command with a missing field must be rejected");
        assert!(matches!(err, DomainError::InvariantViolation(_)));
        assert_eq!(token.version(), 0);
    }
}

// An unrecognized command is still an UnknownCommand for this aggregate,
// preserving the contract the mock adapters rely on.
#[test]
fn card_token_rejects_unknown_command() {
    let mut token = CardToken::new("token-01");
    let err = token.execute(Command::new("NoSuchCommand")).unwrap_err();
    match err {
        DomainError::UnknownCommand { aggregate, command } => {
            assert_eq!(aggregate, "CardToken");
            assert_eq!(command, "NoSuchCommand");
        }
        other => panic!("expected UnknownCommand, got {other:?}"),
    }
}

#[test]
fn card_token_command_payload_round_trips() {
    let cmd = valid_cmd();
    let command = cmd.into_command();
    assert_eq!(command.name, MintCardTokenCmd::COMMAND);
    let decoded: MintCardTokenCmd = match command.payload {
        Payload::Decoded(Request::MintCardTokenCmd(decoded)) => decoded,
        _ => panic!("expected the payload of MintCardTokenCmd"),
    };
    assert_eq!(decoded, valid_cmd());
}

// ---- StageMetadataCmd (S-61) --------------------------------------------

/// A resolvable metadata record for `token-01`.
fn valid_metadata() -> StagedMetadata {
    StagedMetadata::new(
        "Ember Drake",
        4,
        "ipfs://art/token-01",
        "effect://ember-drake",
    )
}

/// A command staging valid metadata for `token-01` under serial `SN-0001`.
fn valid_stage_cmd() -> StageMetadataCmd {
    StageMetadataCmd::new("token-01", valid_metadata(), "SN-0001")
}

// Scenario: Successfully execute StageMetadataCmd.
#[test]
fn stages_and_emits_metadata_staged_event() {
    let mut token = ready_token();

    let events = token
        .execute(valid_stage_cmd().into_command())
        .expect("valid stage should succeed");

    assert_eq!(events.len(), 1);
    assert_eq!(events[0].event_type(), "metadata.staged");
    match &events[0] {
        Event::MetadataStaged(staged) => {
            assert_eq!(staged.token_id, "token-01");
            assert_eq!(staged.metadata, valid_metadata());
            assert_eq!(staged.serial_number, "SN-0001");
        }
        other => panic!("expected MetadataStaged, got {other:?}"),
    }
    assert_eq!(token.version(), 1);
    assert_eq!(token.uncommitted_events().len(), 1);
    assert_eq!(
        token.uncommitted_events()[0].event_type(),
        "metadata.staged"
    );
}

// Scenario: rejected - Ownership is verified server-authoritatively at match
// start; client-asserted ownership is never trusted.
#[test]
fn stage_rejects_when_ownership_not_server_authoritative() {
    let mut token = ready_token();
    token.set_ownership_verified_server_authoritatively(false);

    let err = token
        .execute(valid_stage_cmd().into_command())
        .expect_err("client-asserted ownership must be rejected");
    assert!(matches!(err, DomainError::InvariantViolation(_)));
    assert_eq!(token.version(), 0);
}

// Scenario: rejected - Every tokenId maps to a resolvable IPFS metadata
// record (name, cost, art URL, effect ref).
#[test]
fn stage_rejects_when_ipfs_metadata_record_is_not_resolvable() {
    let mut token = ready_token();
    token.set_ipfs_metadata_record_resolvable(false);

    let err = token
        .execute(valid_stage_cmd().into_command())
        .expect_err("unresolvable staged metadata must be rejected");
    assert!(matches!(err, DomainError::InvariantViolation(_)));
    assert_eq!(token.version(), 0);
}

// Scenario: rejected - Serialized cosmetic editions carry a unique,
// non-reusable serial number.
#[test]
fn stage_rejects_when_serial_number_was_already_used() {
    let mut token = ready_token();
    token.record_used_serial_number("SN-0001");

    let err = token
        .execute(valid_stage_cmd().into_command())
        .expect_err("a reused serial number must be rejected");
    assert!(matches!(err, DomainError::InvariantViolation(_)));
    assert_eq!(token.version(), 0);
}

// Scenario: rejected - A cosmetic renders on-face only after verified
// on-chain ownership.
#[test]
fn stage_rejects_when_on_chain_ownership_not_verified_for_render() {
    let mut token = ready_token();
    token.set_on_chain_ownership_verified_for_render(false);

    let err = token
        .execute(valid_stage_cmd().into_command())
        .expect_err("unverified on-chain ownership must be rejected");
    assert!(matches!(err, DomainError::InvariantViolation(_)));
    assert_eq!(token.version(), 0);
}

// A stage command naming a different CardToken is rejected before any
// invariant runs.
#[test]
fn stage_rejects_command_for_a_different_token() {
    let mut token = ready_token();
    let cmd = StageMetadataCmd::new("token-99", valid_metadata(), "SN-0001");

    let err = token
        .execute(cmd.into_command())
        .expect_err("a command for another token must be rejected");
    assert!(matches!(err, DomainError::InvariantViolation(_)));
    assert_eq!(token.version(), 0);
}

// Stage commands missing any required field (including an unresolvable
// metadata record) are rejected.
#[test]
fn stage_rejects_command_with_missing_fields() {
    let cmds = [
        StageMetadataCmd::new("   ", valid_metadata(), "SN-0001"),
        StageMetadataCmd::new(
            "token-01",
            StagedMetadata::new("  ", 4, "ipfs://art", "eff"),
            "SN-0001",
        ),
        StageMetadataCmd::new(
            "token-01",
            StagedMetadata::new("Ember", 4, "  ", "eff"),
            "SN-0001",
        ),
        StageMetadataCmd::new(
            "token-01",
            StagedMetadata::new("Ember", 4, "ipfs://art", "  "),
            "SN-0001",
        ),
        StageMetadataCmd::new("token-01", valid_metadata(), "   "),
    ];
    for cmd in cmds {
        let mut token = ready_token();
        let err = token
            .execute(cmd.into_command())
            .expect_err("a command with a missing field must be rejected");
        assert!(matches!(err, DomainError::InvariantViolation(_)));
        assert_eq!(token.version(), 0);
    }
}

#[test]
fn stage_command_payload_round_trips() {
    let cmd = valid_stage_cmd();
    let command = cmd.into_command();
    assert_eq!(command.name, StageMetadataCmd::COMMAND);
    let decoded: StageMetadataCmd = match command.payload {
        Payload::Decoded(Request::StageMetadataCmd(decoded)) => decoded,
        _ => panic!("expected the payload of StageMetadataCmd"),
    };
    assert_eq!(decoded, valid_stage_cmd());
}

// ---- LinkWalletCmd (S-62) -----------------------------------------------

/// A command linking wallet `0xWALLET` to player `player-7` for `token-01`'s
/// cosmetic edition `SN-0001`, geo-checked against jurisdiction `US-CA`.
fn valid_link_cmd() -> LinkWalletCmd {
    LinkWalletCmd::new("token-01", "player-7", "0xWALLET", "US-CA", "SN-0001")
}

// Scenario: Successfully execute LinkWalletCmd.
#[test]
fn links_wallet_and_emits_wallet_linked_event() {
    let mut token = ready_token();

    let events = token
        .execute(valid_link_cmd().into_command())
        .expect("valid link should succeed");

    assert_eq!(events.len(), 1);
    assert_eq!(events[0].event_type(), "wallet.linked");
    match &events[0] {
        Event::WalletLinked(linked) => {
            assert_eq!(linked.token_id, "token-01");
            assert_eq!(linked.player_id, "player-7");
            assert_eq!(linked.wallet_address, "0xWALLET");
            assert_eq!(linked.jurisdiction, "US-CA");
            assert_eq!(linked.serial_number, "SN-0001");
        }
        other => panic!("expected WalletLinked, got {other:?}"),
    }
    assert_eq!(token.version(), 1);
    assert_eq!(token.uncommitted_events().len(), 1);
    assert_eq!(token.uncommitted_events()[0].event_type(), "wallet.linked");
}

// Scenario: rejected - Ownership is verified server-authoritatively at match
// start; client-asserted ownership is never trusted.
#[test]
fn link_rejects_when_ownership_not_server_authoritative() {
    let mut token = ready_token();
    token.set_ownership_verified_server_authoritatively(false);

    let err = token
        .execute(valid_link_cmd().into_command())
        .expect_err("client-asserted ownership must be rejected");
    assert!(matches!(err, DomainError::InvariantViolation(_)));
    assert_eq!(token.version(), 0);
}

// Scenario: rejected - Every tokenId maps to a resolvable IPFS metadata
// record (name, cost, art URL, effect ref).
#[test]
fn link_rejects_when_ipfs_metadata_record_is_not_resolvable() {
    let mut token = ready_token();
    token.set_ipfs_metadata_record_resolvable(false);

    let err = token
        .execute(valid_link_cmd().into_command())
        .expect_err("unresolvable staged metadata must be rejected");
    assert!(matches!(err, DomainError::InvariantViolation(_)));
    assert_eq!(token.version(), 0);
}

// Scenario: rejected - Serialized cosmetic editions carry a unique,
// non-reusable serial number.
#[test]
fn link_rejects_when_serial_number_was_already_used() {
    let mut token = ready_token();
    token.record_used_serial_number("SN-0001");

    let err = token
        .execute(valid_link_cmd().into_command())
        .expect_err("a reused serial number must be rejected");
    assert!(matches!(err, DomainError::InvariantViolation(_)));
    assert_eq!(token.version(), 0);
}

// Scenario: rejected - A cosmetic renders on-face only after verified
// on-chain ownership.
#[test]
fn link_rejects_when_on_chain_ownership_not_verified_for_render() {
    let mut token = ready_token();
    token.set_on_chain_ownership_verified_for_render(false);

    let err = token
        .execute(valid_link_cmd().into_command())
        .expect_err("unverified on-chain ownership must be rejected");
    assert!(matches!(err, DomainError::InvariantViolation(_)));
    assert_eq!(token.version(), 0);
}

// A link command naming a different CardToken is rejected before any
// invariant runs.
#[test]
fn link_rejects_command_for_a_different_token() {
    let mut token = ready_token();
    let cmd = LinkWalletCmd::new("token-99", "player-7", "0xWALLET", "US-CA", "SN-0001");

    let err = token
        .execute(cmd.into_command())
        .expect_err("a command for another token must be rejected");
    assert!(matches!(err, DomainError::InvariantViolation(_)));
    assert_eq!(token.version(), 0);
}

// Link commands missing any required field are rejected.
#[test]
fn link_rejects_command_with_missing_fields() {
    let cmds = [
        LinkWalletCmd::new("   ", "player-7", "0xWALLET", "US-CA", "SN-0001"),
        LinkWalletCmd::new("token-01", "   ", "0xWALLET", "US-CA", "SN-0001"),
        LinkWalletCmd::new("token-01", "player-7", "   ", "US-CA", "SN-0001"),
        LinkWalletCmd::new("token-01", "player-7", "0xWALLET", "   ", "SN-0001"),
        LinkWalletCmd::new("token-01", "player-7", "0xWALLET", "US-CA", "   "),
    ];
    for cmd in cmds {
        let mut token = ready_token();
        let err = token
            .execute(cmd.into_command())
            .expect_err("a command with a missing field must be rejected");
        assert!(matches!(err, DomainError::InvariantViolation(_)));
        assert_eq!(token.version(), 0);
    }
}

#[test]
fn link_command_payload_round_trips() {
    let cmd = valid_link_cmd();
    let command = cmd.into_command();
    assert_eq!(command.name, LinkWalletCmd::COMMAND);
    let decoded: LinkWalletCmd = match command.payload {
        Payload::Decoded(Request::LinkWalletCmd(decoded)) => decoded,
        _ => panic!("expected the payload of LinkWalletCmd"),
    };
    assert_eq!(decoded, valid_link_cmd());
}

fn message(err: DomainError) -> String {
    match err {
        DomainError::InvariantViolation(message) => message,
        other => panic!("expected InvariantViolation, got {other:?}"),
    }
}

fn mint_refusal(change: fn(&mut CardToken, &mut MintCardTokenCmd)) -> String {
    let mut token = ready_token();
    let mut cmd = valid_cmd();
    change(&mut token, &mut cmd);
    let err = token.execute(cmd.into_command()).unwrap_err();
    assert_eq!(token.version(), 0);
    message(err)
}

#[test]
fn token_refusals_are_exact() {
    assert_eq!(
        mint_refusal(|_, cmd| cmd.token_id = " ".to_string()),
        "card token 'token-01' requires a valid tokenId to mint"
    );
    assert_eq!(
        mint_refusal(|_, cmd| cmd.ipfs_metadata_ref = " ".to_string()),
        "card token 'token-01' requires a valid ipfsMetadataRef to mint"
    );
    assert_eq!(
        mint_refusal(|_, cmd| cmd.serial_number = " ".to_string()),
        "card token 'token-01' requires a valid serialNumber to mint"
    );
    assert_eq!(
        mint_refusal(|_, cmd| cmd.token_id = "token-02".to_string()),
        "command targets card token 'token-02' but this aggregate is card token 'token-01'"
    );
    assert_eq!(
        mint_refusal(|token, _| token.set_ownership_verified_server_authoritatively(false)),
        "card token 'token-01' ownership was client-asserted; ownership is verified \
         server-authoritatively at match start and client-asserted ownership is never trusted"
    );
    assert_eq!(
        mint_refusal(|token, _| token.set_ipfs_metadata_record_resolvable(false)),
        "card token 'token-01' does not map to a resolvable IPFS metadata record; every tokenId \
         maps to metadata containing name, cost, art URL, and effect ref"
    );
    assert_eq!(
        mint_refusal(|token, _| token.record_used_serial_number("SN-0001")),
        "card token 'token-01' serial number 'SN-0001' has already been used; serialized cosmetic \
         editions carry a unique, non-reusable serial number"
    );
    assert_eq!(
        mint_refusal(|token, _| token.set_on_chain_ownership_verified_for_render(false)),
        "card token 'token-01' would render a cosmetic before verified on-chain ownership; a \
         cosmetic renders on-face only after verified on-chain ownership"
    );
}

#[test]
fn a_serial_number_serves_once_whatever_the_command() {
    let mut token = ready_token();
    token.execute(valid_stage_cmd().into_command()).unwrap();
    for command in [
        valid_cmd().into_command(),
        valid_stage_cmd().into_command(),
        valid_link_cmd().into_command(),
    ] {
        assert!(token.execute(command).is_err());
    }
    let cmd = LinkWalletCmd::new("token-01", "player-7", "0xWALLET", "US-CA", "SN-0002");
    token.execute(cmd.into_command()).unwrap();
    let cmd = MintCardTokenCmd::new("token-01", "ipfs://metadata/token-01", "SN-0002");
    assert!(token.execute(cmd.into_command()).is_err());
    assert_eq!(token.version(), 2);
}

#[test]
fn metadata_is_resolvable_with_every_text_in_it() {
    assert!(StagedMetadata::new("n", 0, "a", "e").is_resolvable());
    assert!(!StagedMetadata::new(" ", 1, "a", "e").is_resolvable());
    assert!(!StagedMetadata::new("n", 1, "\n", "e").is_resolvable());
    assert!(!StagedMetadata::new("n", 1, "a", "").is_resolvable());
}
