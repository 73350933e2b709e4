# domain

The domain model of a card game, written and proved in Verus: sixteen aggregates,
each of which takes commands, holds its invariants and records the events that an
accepted command gives rise to, and a validator for the shipped card catalog.

## How an aggregate is specified

Every aggregate has a view: a plain mathematical record of its state and of the
events recorded so far. Over the view stand

- one `..._fault` function for each command: the exact message of the first rule
  that refuses it, or `None`;
- one function for each command from a state to the next state and the answer;
- `execute`, which routes a command by its name.

The contract of the executable `execute` says that the new state and the answer
are those that the view's `execute` gives. The proof functions named `law_...` state
what follows for every state and command: a refused command changes nothing, an
accepted one records exactly the events it answers with, when success is owed, and
what each aggregate promises beyond that.

Numbers that are floating point elsewhere (ratings) are carried by their bits.

## Layout

- `src/shared.rs`: commands, errors, the log of recorded events.
- `src/text.rs`, `src/string_set.rs`: text, decimal numbers, sets of strings.
- `src/content_validator.rs`: validation of a whole catalog.
- the other files of `src/`: one aggregate each.
- `app/`: the `content-validator` program, the JSON form of the commands and the
  Glicko-2 update.
- `tests/`: tests of the library from outside.

The one thing taken on trust is `read_utf8` in `src/match_replay.rs`, a wrapper of
`std::str::from_utf8`.
