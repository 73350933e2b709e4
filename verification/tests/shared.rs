use domain::ai_profile::Event;
use domain::ai_profile::MoveSelected;
use domain::ai_profile::SelectMove;
use domain::shared::malformed;
use domain::shared::AggregateRoot;
use domain::shared::Command;
use domain::shared::DomainError;
use domain::shared::Payload;

#[test]
fn commands_carry_their_name_and_payload() {
    let command: Command<Vec<u8>> = Command::new("PingCmd");
    assert_eq!(command.name, "PingCmd");
    assert!(command.payload.is_empty());
    let command = Command::with_payload("PingCmd", vec![1u8, 2]);
    assert_eq!(command.payload, vec![1, 2]);
    let read = command.read_as(Payload::Decoded(SelectMove::new("p", "b")));
    assert_eq!(read.name, "PingCmd");
    assert!(matches!(read.payload, Payload::Decoded(cmd) if cmd == SelectMove::new("p", "b")));
}

#[test]
fn a_command_without_a_payload_does_not_decode() {
    let command: Command<Payload<SelectMove>> = Command::new("PingCmd");
    assert!(matches!(
        command.payload,
        Payload::Malformed(complaint) if complaint == "EOF while parsing a value at line 1 column 0"
    ));
}

#[test]
fn errors_say_what_was_refused() {
    assert_eq!(
        DomainError::unknown_command("Outfit", "PingCmd".to_string()),
        DomainError::UnknownCommand {
            aggregate: "Outfit",
            command: "PingCmd".to_string(),
        }
    );
    let refused: Result<(), DomainError> = malformed("PingCmd", "no value");
    assert_eq!(
        refused,
        Err(DomainError::InvariantViolation("malformed PingCmd payload: no value".to_string()))
    );
}

#[test]
fn a_root_keeps_events_in_order() {
    let mut root: AggregateRoot<Event> = AggregateRoot::new();
    assert_eq!(root.version(), 0);
    for board_state in ["a", "b"] {
        root.record(Event::MoveSelected(MoveSelected {
            profile_id: "p".to_string(),
            board_state: board_state.to_string(),
        }));
    }
    assert_eq!(root.version(), 2);
    let states: Vec<&str> = root
        .uncommitted_events()
        .iter()
        .map(|event| match event {
            Event::MoveSelected(selected) => selected.board_state.as_str(),
        })
        .collect();
    assert_eq!(states, ["a", "b"]);
}
