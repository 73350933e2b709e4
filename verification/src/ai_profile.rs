//! How a computer opponent chooses its moves.
//!
//! An [`AIProfile`] configures how a computer opponent chooses its next action
//! for the current board state. Three invariants are re-checked whenever a move
//! is selected:
//!
//! 1. A difficulty tier maps to exactly one strategy kind (scripted for the
//!    prologue; MCTS for Standard/Brutal/Legendary).
//! 2. MCTS move selection must stay within its configured search budget.
//! 3. Scripted profiles are deterministic for a given mission and state.
use crate::shared;
use crate::shared::AggregateRoot;
use crate::shared::Command;
use crate::shared::CommandView;
use crate::shared::DomainError;
use crate::shared::Payload;
use crate::shared::PayloadView;
use crate::shared::Reply;
use crate::shared::Repository;
use crate::text;
use vstd::prelude::*;

verus! {

/// The name of the aggregate type, as errors show it.
pub const AGGREGATE_TYPE: &'static str = "AIProfile";

/// The `SelectMoveCmd` payload. Field names use the service's `camelCase`
/// schema.
#[derive(Debug, PartialEq, Eq)]
pub struct SelectMove {
    /// The AIProfile choosing the move; must name this aggregate and must be non-
    /// empty.
    pub profile_id: String,
    /// The current board state the move is chosen for; must be non-empty.
    pub board_state: String,
}

/// What a [`SelectMove`] says.
#[verifier::ext_equal]
pub struct SelectMoveView {
    pub profile_id: Seq<char>,
    pub board_state: Seq<char>,
}

impl View for SelectMove {
    type V = SelectMoveView;

    open spec fn view(&self) -> SelectMoveView {
        SelectMoveView {
            profile_id: self.profile_id@,
            board_state: self.board_state@,
        }
    }
}

impl Clone for SelectMove {
    fn clone(&self) -> (r: Self)
        ensures
            r@ == self@,
    {
        SelectMove {
            profile_id: self.profile_id.clone(),
            board_state: self.board_state.clone(),
        }
    }
}

impl SelectMove {
    /// The name of the command.
    pub const COMMAND: &'static str = "SelectMoveCmd";

    /// Builds a command selecting a move for `profile_id` from `board_state`.
    pub fn new(profile_id: &str, board_state: &str) -> (r: Self)
        ensures
            r@ == (SelectMoveView {
                profile_id: profile_id@,
                board_state: board_state@,
            }),
    {
        SelectMove {
            profile_id: profile_id.to_owned(),
            board_state: board_state.to_owned(),
        }
    }

    /// This request as a command, ready to be executed.
    pub fn into_command(&self) -> (r: Command<Payload<SelectMove>>)
        ensures
            r@ == (CommandView {
                name: Self::COMMAND@,
                payload: PayloadView::Decoded(self@),
            }),
    {
        let request = self.clone();
        Command::with_payload(Self::COMMAND, Payload::Decoded(request))
    }
}

/// Story-facing alias for the command payload type.
pub type SelectMoveCmd = SelectMove;

/// The selected move carried by [`Event::MoveSelected`].
#[derive(Debug, PartialEq, Eq)]
pub struct MoveSelected {
    /// The AIProfile that selected the move.
    pub profile_id: String,
    /// The board state the move was chosen for.
    pub board_state: String,
}

/// What a [`MoveSelected`] says.
#[verifier::ext_equal]
pub struct MoveSelectedView {
    pub profile_id: Seq<char>,
    pub board_state: Seq<char>,
}

impl View for MoveSelected {
    type V = MoveSelectedView;

    open spec fn view(&self) -> MoveSelectedView {
        MoveSelectedView {
            profile_id: self.profile_id@,
            board_state: self.board_state@,
        }
    }
}

impl Clone for MoveSelected {
    fn clone(&self) -> (r: Self)
        ensures
            r@ == self@,
    {
        MoveSelected {
            profile_id: self.profile_id.clone(),
            board_state: self.board_state.clone(),
        }
    }
}

/// Domain events emitted by [`AIProfile`].
#[derive(Debug, PartialEq, Eq)]
pub enum Event {
    /// The AI chose its next action for the supplied board state.
    MoveSelected(MoveSelected),
}

/// What an [`Event`] says.
#[verifier::ext_equal]
pub enum EventView {
    MoveSelected(MoveSelectedView),
}

impl View for Event {
    type V = EventView;

    open spec fn view(&self) -> EventView {
        match self {
            Event::MoveSelected(body) => EventView::MoveSelected(body@),
        }
    }
}

impl Clone for Event {
    fn clone(&self) -> (r: Self)
        ensures
            r@ == self@,
    {
        match self {
            Event::MoveSelected(body) => Event::MoveSelected(body.clone()),
        }
    }
}

impl EventView {
    /// The name under which the event is published.
    pub open spec fn event_type(self) -> Seq<char> {
        match self {
            EventView::MoveSelected(_) => "ai.move.selected"@,
        }
    }
}

impl Event {
    /// The name under which the event is published.
    pub fn event_type(&self) -> (r: &'static str)
        ensures
            r@ == self@.event_type(),
    {
        match self {
            Event::MoveSelected(_) => "ai.move.selected",
        }
    }
}

/// An AI profile aggregate.
#[derive(Debug)]
pub struct AIProfile {
    id: String,
    root: AggregateRoot<Event>,
    /// Whether the profile's difficulty tier maps to exactly one strategy kind
    /// (scripted for prologue; MCTS for Standard/Brutal/Legendary).
    strategy_kind_consistent: bool,
    /// Whether MCTS move selection stays within its configured search budget.
    within_search_budget: bool,
    /// Whether the scripted profile is deterministic for a given mission and state.
    scripted_deterministic: bool,
    /// Number of moves selected so far on this profile.
    moves_selected: u64,
}

/// What an [`AIProfile`] says.
#[verifier::ext_equal]
pub struct AIProfileView {
    pub id: Seq<char>,
    pub events: Seq<EventView>,
    pub strategy_kind_consistent: bool,
    pub within_search_budget: bool,
    pub scripted_deterministic: bool,
    pub moves_selected: u64,
}

impl View for AIProfile {
    type V = AIProfileView;

    closed spec fn view(&self) -> AIProfileView {
        AIProfileView {
            id: self.id@,
            events: self.root@,
            strategy_kind_consistent: self.strategy_kind_consistent,
            within_search_budget: self.within_search_budget,
            scripted_deterministic: self.scripted_deterministic,
            moves_selected: self.moves_selected,
        }
    }
}

impl AIProfileView {
    /// The message where the tier does not map to one strategy kind.
    pub open spec fn strategy_fault(self) -> Option<Seq<char>> {
        if !self.strategy_kind_consistent {
            Some(
                "ai profile '"@ + self.id
                    + "' has a difficulty tier that does not map to exactly one strategy kind; a difficulty tier maps to exactly one strategy kind (scripted for prologue; MCTS for Standard/Brutal/Legendary)"@,
            )
        } else {
            None
        }
    }

    /// The message where the search budget is exceeded.
    pub open spec fn budget_fault(self) -> Option<Seq<char>> {
        if !self.within_search_budget {
            Some(
                "ai profile '"@ + self.id
                    + "' exceeded its configured search budget; MCTS move selection must stay within its configured search budget"@,
            )
        } else {
            None
        }
    }

    /// The message where a scripted choice is not deterministic.
    pub open spec fn determinism_fault(self) -> Option<Seq<char>> {
        if !self.scripted_deterministic {
            Some(
                "ai profile '"@ + self.id
                    + "' produced a non-deterministic scripted choice; scripted profiles are deterministic for a given mission and state"@,
            )
        } else {
            None
        }
    }

    /// The state after an event has been applied: one more move counted, up to what
    /// a `u64` holds.
    pub open spec fn apply(self, event: EventView) -> AIProfileView {
        match event {
            EventView::MoveSelected(_) => AIProfileView {
                moves_selected: if self.moves_selected < u64::MAX {
                    (self.moves_selected + 1) as u64
                } else {
                    u64::MAX
                },
                ..self
            },
        }
    }

    /// The message of the first rule that refuses a [`SelectMove`], if one does.
    pub open spec fn select_move_fault(
        self,
        cmd: SelectMoveView,
    ) -> Option<Seq<char>> {
        if text::is_blank_text(cmd.profile_id) {
            Some("ai profile '"@ + self.id + "' requires a valid profileId to select a move"@)
        } else if text::is_blank_text(cmd.board_state) {
            Some("ai profile '"@ + self.id + "' requires a valid boardState to select a move"@)
        } else if cmd.profile_id != self.id {
            Some(
                "command targets ai profile '"@ + cmd.profile_id
                    + "' but this aggregate is ai profile '"@ + self.id + "'"@,
            )
        } else {
            shared::first(
                self.strategy_fault(),
                shared::first(self.budget_fault(), self.determinism_fault()),
            )
        }
    }

    /// The state after a [`SelectMove`], and the answer to it.
    pub open spec fn select_move(self, cmd: SelectMoveView) -> (
        AIProfileView,
        Reply<EventView>,
    ) {
        match self.select_move_fault(cmd) {
            Some(message) => (self, shared::violation(message)),
            None => {
                let event = EventView::MoveSelected(MoveSelectedView {
                    profile_id: cmd.profile_id,
                    board_state: cmd.board_state,
                });
                (
                    AIProfileView { events: self.events.push(event), ..self.apply(event) },
                    Ok(seq![event]),
                )
            },
        }
    }

    /// The state after a command, and the answer to it.
    pub open spec fn execute(self, command: CommandView<PayloadView<SelectMoveView>>) -> (
        AIProfileView,
        Reply<EventView>,
    ) {
        if command.name == SelectMove::COMMAND@ {
            match command.payload {
                PayloadView::Decoded(cmd) => self.select_move(cmd),
                PayloadView::Malformed(complaint) => (
                    self,
                    shared::malformed_reply(SelectMove::COMMAND@, complaint),
                ),
            }
        } else {
            (self, shared::unknown(AGGREGATE_TYPE@, command.name))
        }
    }
}

impl AIProfile {
    /// The name of the aggregate type.
    pub fn aggregate_type() -> (r: &'static str)
        ensures
            r@ == AGGREGATE_TYPE@,
    {
        AGGREGATE_TYPE
    }

    /// Creates an AI profile identified by `id`, valid to select moves.
    pub fn new(id: &str) -> (r: Self)
        ensures
            r@ == (AIProfileView {
                id: id@,
                events: Seq::empty(),
                strategy_kind_consistent: true,
                within_search_budget: true,
                scripted_deterministic: true,
                moves_selected: 0,
            }),
    {
        AIProfile {
            id: id.to_owned(),
            root: AggregateRoot::new(),
            strategy_kind_consistent: true,
            within_search_budget: true,
            scripted_deterministic: true,
            moves_selected: 0,
        }
    }

    /// This aggregate's identity.
    pub fn id(&self) -> (r: &str)
        ensures
            r@ == self@.id,
    {
        self.id.as_str()
    }

    /// The version: the number of events recorded.
    pub fn version(&self) -> (r: u64)
        ensures
            r == self@.events.len(),
    {
        self.root.version()
    }

    /// The events recorded and not yet persisted.
    pub fn uncommitted_events(&self) -> (r: &[Event])
        ensures
            shared::views(r@) == self@.events,
    {
        self.root.uncommitted_events()
    }

    /// Strategy-mapping invariant: a difficulty tier maps to exactly one strategy
    /// kind (scripted for prologue; MCTS for Standard/Brutal/Legendary).
    fn ensure_strategy_kind_consistent(&self) -> (r: Result<(), DomainError>)
        ensures
            shared::broken(r) == shared::owed(self@.strategy_fault()),
    {
        if !self.strategy_kind_consistent {
            return shared::refuse(
                text::cat3(
                    "ai profile '", &self.id,
                    "' has a difficulty tier that does not map to exactly one strategy kind; a difficulty tier maps to exactly one strategy kind (scripted for prologue; MCTS for Standard/Brutal/Legendary)",
                ),
            );
        }
        Ok(())
    }

    /// Search-budget invariant: MCTS move selection stays within its configured
    /// search budget.
    fn ensure_within_search_budget(&self) -> (r: Result<(), DomainError>)
        ensures
            shared::broken(r) == shared::owed(self@.budget_fault()),
    {
        if !self.within_search_budget {
            return shared::refuse(
                text::cat3(
                    "ai profile '", &self.id,
                    "' exceeded its configured search budget; MCTS move selection must stay within its configured search budget",
                ),
            );
        }
        Ok(())
    }

    /// Determinism invariant: scripted profiles are deterministic for a given
    /// mission and state.
    fn ensure_scripted_deterministic(&self) -> (r: Result<(), DomainError>)
        ensures
            shared::broken(r) == shared::owed(self@.determinism_fault()),
    {
        if !self.scripted_deterministic {
            return shared::refuse(
                text::cat3(
                    "ai profile '", &self.id,
                    "' produced a non-deterministic scripted choice; scripted profiles are deterministic for a given mission and state",
                ),
            );
        }
        Ok(())
    }

    /// Applies an event to the state.
    fn apply(&mut self, event: &Event)
        ensures
            final(self)@ == old(self)@.apply(event@),
    {
        match event {
            Event::MoveSelected(_) => {
                self.moves_selected = self.moves_selected.saturating_add(1);
            },
        }
    }

    /// Handles a selection: the command must carry this profile and a board state,
    /// and the three invariants must hold. One more move is counted.
    fn select_move(&mut self, cmd: SelectMove) -> (r: Result<
        Vec<Event>,
        DomainError,
    >)
        ensures
            final(self)@ == old(self)@.select_move(cmd@).0,
            shared::reply(r) == old(self)@.select_move(cmd@).1,
    {
        if text::is_blank(&cmd.profile_id) {
            return shared::refuse(
                text::cat3(
                    "ai profile '", &self.id, "' requires a valid profileId to select a move",
                ),
            );
        }
        if text::is_blank(&cmd.board_state) {
            return shared::refuse(
                text::cat3(
                    "ai profile '", &self.id, "' requires a valid boardState to select a move",
                ),
            );
        }
        if !text::same(&cmd.profile_id, &self.id) {
            return shared::refuse(
                text::cat5(
                    "command targets ai profile '", &cmd.profile_id,
                    "' but this aggregate is ai profile '", &self.id, "'",
                ),
            );
        }
        if let Err(error) = self.ensure_strategy_kind_consistent() {
            return Err(error);
        }
        if let Err(error) = self.ensure_within_search_budget() {
            return Err(error);
        }
        if let Err(error) = self.ensure_scripted_deterministic() {
            return Err(error);
        }
        let event = Event::MoveSelected(
            MoveSelected {
                profile_id: cmd.profile_id,
                board_state: cmd.board_state,
            },
        );
        self.apply(&event);
        self.root.record(event.clone());
        Ok(shared::only(event))
    }

    /// Carries out a command, or says why it is refused.
    pub fn execute(&mut self, command: Command<Payload<SelectMove>>) -> (r: Result<
        Vec<Event>,
        DomainError,
    >)
        ensures
            final(self)@ == old(self)@.execute(command@).0,
            shared::reply(r) == old(self)@.execute(command@).1,
    {
        if text::same(&command.name, SelectMove::COMMAND) {
            match command.payload {
                Payload::Decoded(cmd) => self.select_move(cmd),
                Payload::Malformed(complaint) => shared::malformed(SelectMove::COMMAND, &complaint),
            }
        } else {
            Err(DomainError::unknown_command(AGGREGATE_TYPE, command.name))
        }
    }

    /// Number of moves selected on this profile.
    pub fn moves_selected(&self) -> (r: u64)
        ensures
            r == self@.moves_selected,
    {
        self.moves_selected
    }

    /// Records whether the difficulty tier maps to exactly one strategy kind.
    pub fn set_strategy_kind_consistent(&mut self, consistent: bool)
        ensures
            final(self)@ == (AIProfileView {
                strategy_kind_consistent: consistent,
                ..old(self)@
            }),
    {
        self.strategy_kind_consistent = consistent;
    }

    /// Records whether MCTS move selection stays within its configured search budget.
    pub fn set_within_search_budget(&mut self, within: bool)
        ensures
            final(self)@ == (AIProfileView {
                within_search_budget: within,
                ..old(self)@
            }),
    {
        self.within_search_budget = within;
    }

    /// Records whether the scripted profile is deterministic for a given mission and
    /// state.
    pub fn set_scripted_deterministic(&mut self, deterministic: bool)
        ensures
            final(self)@ == (AIProfileView {
                scripted_deterministic: deterministic,
                ..old(self)@
            }),
    {
        self.scripted_deterministic = deterministic;
    }
}

/// The repository port of the [`AIProfile`] aggregate: an adapter implements
/// [`Repository`] for it and then this marker.
pub trait AIProfileRepository: Repository<AIProfile> {

}

impl AIProfileView {
    /// A refused command changes nothing: neither the state nor the events.
    pub proof fn law_refusal_changes_nothing(
        self,
        command: CommandView<PayloadView<SelectMoveView>>,
    )
        ensures
            self.execute(command).1 is Err ==> self.execute(command).0 == self,
    {
    }

    /// An accepted command records exactly the events it answers with, behind
    /// those recorded before.
    pub proof fn law_events_are_recorded(self, command: CommandView<PayloadView<SelectMoveView>>)
        ensures
            self.execute(command).1 matches Ok(events) ==> {
                &&& events.len() == 1
                &&& self.execute(command).0.events == self.events + events
            },
    {
        if let Ok(events) = self.execute(command).1 {
            assert(self.execute(command).0.events =~= self.events + events);
        }
    }

    /// A move is selected exactly where the profile is the one named, the board
    /// state is not blank and the three invariants hold; it is counted, and
    /// repeating it is accepted again.
    pub proof fn law_selection_is_owed(self, cmd: SelectMoveView)
        ensures
            self.select_move(cmd).1 is Ok <==> {
                &&& cmd.profile_id == self.id
                &&& !text::is_blank_text(cmd.profile_id)
                &&& !text::is_blank_text(cmd.board_state)
                &&& self.strategy_kind_consistent
                &&& self.within_search_budget
                &&& self.scripted_deterministic
            },
            self.select_move(cmd).1 is Ok && self.moves_selected < u64::MAX ==> self.select_move(
                cmd,
            ).0.moves_selected == self.moves_selected + 1,
            self.select_move(cmd).1 is Ok ==> self.select_move(cmd).0.select_move(cmd).1 is Ok,
    {
    }
}

impl AIProfileView {
    /// Every command goes to its own handler, a payload that does not read is
    /// refused with the complaint about it, and a name that is none of these is
    /// unknown; what is refused otherwise is refused for a broken rule.
    pub proof fn law_commands_are_routed(self, command: CommandView<PayloadView<SelectMoveView>>)
        ensures
            command.name == "SelectMoveCmd"@ ==> match command.payload {
                PayloadView::Decoded(cmd) => self.execute(command)
                    == self.select_move(cmd),
                PayloadView::Malformed(complaint) => self.execute(command).1 == shared::violation::<
                    EventView,
                >("malformed "@ + "SelectMoveCmd"@ + " payload: "@ + complaint),
            },
            command.name != "SelectMoveCmd"@ ==> self.execute(command).1 == Err::<
                Seq<EventView>,
                shared::DomainErrorView,
            >(
                shared::DomainErrorView::UnknownCommand {
                    aggregate: "AIProfile"@,
                    command: command.name,
                },
            ),
            self.execute(command).1 matches Err(error) ==> (error is InvariantViolation <==> {
                ||| command.name == "SelectMoveCmd"@
            }),
    {
    }

    /// A selection records the profile and the board state that were submitted and
    /// counts one move, up to what a `u64` holds; nothing else changes.
    pub proof fn law_selection_records_the_move(self, cmd: SelectMoveView)
        requires
            self.select_move(cmd).1 is Ok,
        ensures
            ({
                let after = self.select_move(cmd).0;
                &&& self.select_move(cmd).1 matches Ok(events)
                &&& events.len() == 1
                &&& events[0].event_type() == "ai.move.selected"@
                &&& events[0] matches EventView::MoveSelected(said)
                &&& said.profile_id == cmd.profile_id
                &&& said.board_state == cmd.board_state
                &&& after.moves_selected == if self.moves_selected < u64::MAX {
                    self.moves_selected + 1
                } else {
                    u64::MAX as int
                }
                &&& after == (AIProfileView {
                    moves_selected: after.moves_selected,
                    events: self.events.push(events[0]),
                    ..self
                })
            }),
    {
    }
}

impl SelectMove {
    /// The view leaves nothing out: where two views agree, so does every field.
    pub proof fn law_view_leaves_nothing_out(self, other: SelectMove)
        requires
            self@ == other@,
        ensures
            self.profile_id@ == other.profile_id@,
            self.board_state@ == other.board_state@,
    {
    }
}

impl MoveSelected {
    /// The view leaves nothing out: where two views agree, so does every field.
    pub proof fn law_view_leaves_nothing_out(self, other: MoveSelected)
        requires
            self@ == other@,
        ensures
            self.profile_id@ == other.profile_id@,
            self.board_state@ == other.board_state@,
    {
    }
}

impl Event {
    /// The view leaves nothing out: where two views agree, so do the variants and
    /// what they carry.
    pub proof fn law_view_leaves_nothing_out(self, other: Event)
        requires
            self@ == other@,
        ensures
            match (self, other) {
                (Event::MoveSelected(a), Event::MoveSelected(b)) => a@ == b@,
            },
    {
    }
}

} // verus!
