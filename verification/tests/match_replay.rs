use domain::match_replay::Event;
use domain::match_replay::MatchReplay;
use domain::match_replay::ReplayFrame;
use domain::match_replay::SealReplayCmd;
use domain::shared::Command;
use domain::shared::DomainError;

/// Build a valid, contiguous, unsealed replay whose hash callers can seal on.
fn valid_replay() -> MatchReplay {
    let mut replay = MatchReplay::new("match-42");
    replay.set_seed(7).unwrap();
    replay.record_frame(11).unwrap();
    replay.record_frame(22).unwrap();
    replay.record_frame(33).unwrap();
    replay
}

fn seal(match_id: &str, final_state_hash: u64) -> Command<Vec<u8>> {
    SealReplayCmd {
        match_id: match_id.to_string(),
        final_state_hash,
    }
    .into_command()
}

#[test]
fn seal_replay_emits_replay_sealed_event() {
    let mut replay = valid_replay();
    let hash = replay.computed_final_hash();

    let events = replay
        .execute(seal("match-42", hash))
        .expect("seal should succeed");

    assert_eq!(events.len(), 1);
    assert_eq!(events[0].event_type(), "replay.sealed");
    assert!(matches!(
        &events[0],
        Event::ReplaySealed { match_id, final_state_hash, frame_count }
            if match_id == "match-42" && *final_state_hash == hash && *frame_count == 3
    ));
    assert!(replay.is_sealed());
    assert_eq!(replay.version(), 1);
    assert_eq!(replay.uncommitted_events().len(), 1);
}

#[test]
fn rejects_non_contiguous_sequence() {
    let mut replay = MatchReplay::new("match-42");
    replay.append_raw(ReplayFrame::new(0, 11)).unwrap();
    // Gap: sequence 2 where 1 is expected — a reorder/gap.
    replay.append_raw(ReplayFrame::new(2, 22)).unwrap();
    let hash = replay.computed_final_hash();

    let err = replay.execute(seal("match-42", hash)).unwrap_err();
    assert!(matches!(err, DomainError::InvariantViolation(_)));
    assert!(!replay.is_sealed());
}

#[test]
fn rejects_mutation_of_sealed_replay() {
    let mut replay = valid_replay();
    let hash = replay.computed_final_hash();
    replay
        .execute(seal("match-42", hash))
        .expect("first seal succeeds");

    // Re-sealing a frozen replay is a mutation and must be rejected.
    let err = replay.execute(seal("match-42", hash)).unwrap_err();
    assert!(matches!(err, DomainError::InvariantViolation(_)));
    // And the append-only guard blocks further recording.
    assert!(replay.record_frame(99).is_err());
}

#[test]
fn rejects_determinism_mismatch() {
    let mut replay = valid_replay();
    let wrong_hash = replay.computed_final_hash().wrapping_add(1);

    let err = replay.execute(seal("match-42", wrong_hash)).unwrap_err();
    assert!(matches!(err, DomainError::InvariantViolation(_)));
    assert!(!replay.is_sealed());
}

#[test]
fn rejects_acknowledgement_beyond_log() {
    let mut replay = valid_replay();
    // Client claims to have acked sequence 9, but the log ends at 2.
    replay.acknowledge(9).unwrap();
    let hash = replay.computed_final_hash();

    let err = replay.execute(seal("match-42", hash)).unwrap_err();
    assert!(matches!(err, DomainError::InvariantViolation(_)));
    assert!(!replay.is_sealed());
}

#[test]
fn match_replay_rejects_unknown_command() {
    let mut replay = MatchReplay::new("match-42");
    let err = replay.execute(Command::new("NoSuchCommand")).unwrap_err();
    match err {
        DomainError::UnknownCommand { aggregate, command } => {
            assert_eq!(aggregate, "MatchReplay");
            assert_eq!(command, "NoSuchCommand");
        }
        other => panic!("expected UnknownCommand, got {other:?}"),
    }
}

fn message(err: DomainError) -> String {
    match err {
        DomainError::InvariantViolation(message) => message,
        other => panic!("expected InvariantViolation, got {other:?}"),
    }
}

fn sealed_by(payload: &[u8]) -> String {
    let mut replay = valid_replay();
    let err = replay
        .execute(Command::with_payload(SealReplayCmd::NAME, payload.to_vec()))
        .unwrap_err();
    assert!(!replay.is_sealed());
    message(err)
}

#[test]
fn seal_commands_are_encoded_as_two_lines() {
    let command = seal("match-42", 18446744073709551615);
    assert_eq!(command.name, "SealReplayCmd");
    assert_eq!(command.payload, b"match-42\n18446744073709551615".to_vec());
    assert_eq!(seal("zürich", 0).payload, "zürich\n0".as_bytes().to_vec());
}

#[test]
fn encoded_requests_read_back() {
    for (match_id, hash) in [("m", 0u64), ("match-42", 7), ("ünï→😀", u64::MAX), (" ", 10)] {
        let command = seal(match_id, hash);
        let cmd = SealReplayCmd::decode(&command.payload).unwrap();
        assert_eq!(cmd.match_id, match_id);
        assert_eq!(cmd.final_state_hash, hash);
    }
}

#[test]
fn an_id_with_a_line_break_does_not_read_back() {
    let command = seal("a\nb", 7);
    assert_eq!(
        message(SealReplayCmd::decode(&command.payload).unwrap_err()),
        "SealReplayCmd final_state_hash is not a valid hash"
    );
}

#[test]
fn malformed_seal_payloads_are_told_apart() {
    assert_eq!(sealed_by(b"match-42\n\xff"), "SealReplayCmd payload is not UTF-8");
    assert_eq!(sealed_by(b"\xc0\x80\n1"), "SealReplayCmd payload is not UTF-8");
    assert_eq!(sealed_by(b""), "SealReplayCmd payload missing final_state_hash");
    assert_eq!(sealed_by(b"match-42 7"), "SealReplayCmd payload missing final_state_hash");
    for bad in ["", "-1", "+", "7 ", " 7", "0x7", "18446744073709551616", "7\n"] {
        assert_eq!(
            sealed_by(format!("match-42\n{bad}").as_bytes()),
            "SealReplayCmd final_state_hash is not a valid hash"
        );
    }
    assert_eq!(sealed_by(b"\n7"), "SealReplayCmd match_id is required");
    assert_eq!(sealed_by(b"\nx"), "SealReplayCmd final_state_hash is not a valid hash");
}

#[test]
fn hashes_may_carry_a_plus_sign_and_zeros() {
    let cmd = SealReplayCmd::decode(b"m\n+0007").unwrap();
    assert_eq!(cmd.final_state_hash, 7);
}

#[test]
fn the_empty_log_hashes_to_the_seed_mixed_with_the_offset() {
    let mut replay = MatchReplay::new("m");
    assert_eq!(replay.computed_final_hash(), 0xcbf2_9ce4_8422_2325);
    replay.set_seed(5).unwrap();
    assert_eq!(replay.computed_final_hash(), 5 ^ 0xcbf2_9ce4_8422_2325);
}

#[test]
fn frames_are_folded_in_order() {
    let prime: u64 = 0x0000_0100_0000_01b3;
    let mut acc: u64 = 7 ^ 0xcbf2_9ce4_8422_2325;
    for (sequence, input) in [(0u64, 11u64), (1, 22), (2, 33)] {
        acc = (acc ^ sequence).wrapping_mul(prime);
        acc = (acc ^ input).wrapping_mul(prime);
    }
    assert_eq!(valid_replay().computed_final_hash(), acc);
    let log = valid_replay().log().to_vec();
    assert_eq!(MatchReplay::replay_hash(7, &log), acc);
}

#[test]
fn a_disorder_is_told_by_its_first_position() {
    let mut replay = MatchReplay::new("m");
    replay.append_raw(ReplayFrame::new(0, 1)).unwrap();
    replay.append_raw(ReplayFrame::new(2, 1)).unwrap();
    replay.append_raw(ReplayFrame::new(9, 1)).unwrap();
    let hash = replay.computed_final_hash();
    let err = replay.execute(seal("m", hash)).unwrap_err();
    assert_eq!(
        message(err),
        "event log is not strictly ordered: frame at position 1 has sequence 2"
    );
}

#[test]
fn acknowledgements_up_to_the_last_frame_are_fine() {
    let mut replay = valid_replay();
    replay.acknowledge(2).unwrap();
    assert_eq!(replay.last_acknowledged_seq(), Some(2));
    let hash = replay.computed_final_hash();
    assert!(replay.execute(seal("match-42", hash)).is_ok());

    let mut replay = MatchReplay::new("m");
    replay.acknowledge(0).unwrap();
    let hash = replay.computed_final_hash();
    assert_eq!(
        message(replay.execute(seal("m", hash)).unwrap_err()),
        "last acknowledged sequence 0 is beyond the recorded log"
    );
}

#[test]
fn seal_refusals_are_exact() {
    let mut replay = valid_replay();
    let hash = replay.computed_final_hash();
    assert_eq!(
        message(replay.execute(seal("match-43", hash)).unwrap_err()),
        "matchId 'match-43' does not match replay 'match-42'"
    );
    let wrong = hash.wrapping_add(1);
    assert_eq!(
        message(replay.execute(seal("match-42", wrong)).unwrap_err()),
        format!(
            "determinism violation: replay from seed yields {hash}, but finalStateHash is {wrong}"
        )
    );
    replay.execute(seal("match-42", hash)).unwrap();
    assert_eq!(
        message(replay.execute(seal("match-42", hash)).unwrap_err()),
        "replay is already sealed: sealed replays cannot be mutated"
    );
    assert_eq!(replay.version(), 1);
}

#[test]
fn every_mutator_refuses_a_sealed_replay() {
    let mut replay = valid_replay();
    let hash = replay.computed_final_hash();
    replay.execute(seal("match-42", hash)).unwrap();
    let frozen = "replay is sealed: the log is append-only and immutable once written";
    assert_eq!(message(replay.set_seed(1).unwrap_err()), frozen);
    assert_eq!(message(replay.record_frame(1).unwrap_err()), frozen);
    assert_eq!(message(replay.append_raw(ReplayFrame::new(3, 1)).unwrap_err()), frozen);
    assert_eq!(message(replay.acknowledge(1).unwrap_err()), frozen);
    assert_eq!(replay.seed(), 7);
    assert_eq!(replay.log().len(), 3);
    assert_eq!(replay.last_acknowledged_seq(), None);
    assert_eq!(replay.computed_final_hash(), hash);
}

#[test]
fn recorded_frames_are_numbered_from_zero() {
    let mut replay = MatchReplay::new("m");
    assert_eq!(replay.record_frame(5), Ok(0));
    assert_eq!(replay.record_frame(6), Ok(1));
    assert_eq!(replay.log(), &[ReplayFrame::new(0, 5), ReplayFrame::new(1, 6)]);
    assert_eq!(replay.id(), "m");
}
