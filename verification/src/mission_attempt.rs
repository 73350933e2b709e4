//! Attempts at missions and their first-clear reward.
//!
//! A [`MissionAttempt`] represents a player's attempt to clear a mission and
//! claim the fixed first-clear reward bundle. Four invariants are re-checked by
//! each command:
//!
//! 1. The fixed $MADE reward for a mission is granted only on the player's first
//!    clear, ever.
//! 2. Prologue missions are gated in sequence; a mission unlocks only after its
//!    predecessor is cleared.
//! 3. Only missions in today's Reprise rotation are eligible for repeat rewards.
//! 4. Per-mission special rules and boss HP-threshold barks fire exactly at
//!    their scripted points.
use crate::shared;
use crate::shared::AggregateRoot;
use crate::shared::Command;
use crate::shared::CommandView;
use crate::shared::DomainError;
use crate::shared::Payload;
use crate::shared::PayloadView;
use crate::shared::Reply;
use crate::shared::Repository;
use crate::shared::OTHER_COMMAND;
use crate::text;
use vstd::prelude::*;

verus! {

/// The name of the aggregate type, as errors show it.
pub const AGGREGATE_TYPE: &'static str = "MissionAttempt";

/// The `ClaimFirstClearRewardCmd` payload. Field names use the service's
/// `camelCase` schema.
#[derive(Debug, PartialEq, Eq)]
pub struct ClaimFirstClearReward {
    /// The player claiming the reward; must be non-empty.
    pub player_id: String,
    /// The mission whose first-clear reward is claimed; must be non-empty.
    pub mission_id: String,
}

/// What a [`ClaimFirstClearReward`] says.
#[verifier::ext_equal]
pub struct ClaimFirstClearRewardView {
    pub player_id: Seq<char>,
    pub mission_id: Seq<char>,
}

impl View for ClaimFirstClearReward {
    type V = ClaimFirstClearRewardView;

    open spec fn view(&self) -> ClaimFirstClearRewardView {
        ClaimFirstClearRewardView {
            player_id: self.player_id@,
            mission_id: self.mission_id@,
        }
    }
}

impl Clone for ClaimFirstClearReward {
    fn clone(&self) -> (r: Self)
        ensures
            r@ == self@,
    {
        ClaimFirstClearReward {
            player_id: self.player_id.clone(),
            mission_id: self.mission_id.clone(),
        }
    }
}

impl ClaimFirstClearReward {
    /// The name of the command.
    pub const COMMAND: &'static str = "ClaimFirstClearRewardCmd";

    /// Builds a command payload for `player_id` claiming `mission_id`.
    pub fn new(player_id: &str, mission_id: &str) -> (r: Self)
        ensures
            r@ == (ClaimFirstClearRewardView {
                player_id: player_id@,
                mission_id: mission_id@,
            }),
    {
        ClaimFirstClearReward {
            player_id: player_id.to_owned(),
            mission_id: mission_id.to_owned(),
        }
    }

    /// This request as a command, ready to be executed.
    pub fn into_command(&self) -> (r: Command<Payload<Request>>)
        ensures
            r@ == (CommandView {
                name: Self::COMMAND@,
                payload: PayloadView::Decoded(RequestView::ClaimFirstClearReward(self@)),
            }),
    {
        let request = Request::ClaimFirstClearReward(self.clone());
        Command::with_payload(Self::COMMAND, Payload::Decoded(request))
    }
}

/// Story-facing alias for the command payload type.
pub type ClaimFirstClearRewardCmd = ClaimFirstClearReward;

/// The `AdvanceMissionStateCmd` payload. Field names use the service's
/// `camelCase` schema.
#[derive(Debug, PartialEq, Eq)]
pub struct AdvanceMissionState {
    /// The MissionAttempt whose scripted state is advanced; must name this
    /// aggregate and must be non-empty.
    pub mission_attempt_id: String,
    /// The scripted trigger being reached; must be non-empty.
    pub trigger: String,
}

/// What an [`AdvanceMissionState`] says.
#[verifier::ext_equal]
pub struct AdvanceMissionStateView {
    pub mission_attempt_id: Seq<char>,
    pub trigger: Seq<char>,
}

impl View for AdvanceMissionState {
    type V = AdvanceMissionStateView;

    open spec fn view(&self) -> AdvanceMissionStateView {
        AdvanceMissionStateView {
            mission_attempt_id: self.mission_attempt_id@,
            trigger: self.trigger@,
        }
    }
}

impl Clone for AdvanceMissionState {
    fn clone(&self) -> (r: Self)
        ensures
            r@ == self@,
    {
        AdvanceMissionState {
            mission_attempt_id: self.mission_attempt_id.clone(),
            trigger: self.trigger.clone(),
        }
    }
}

impl AdvanceMissionState {
    /// The name of the command.
    pub const COMMAND: &'static str = "AdvanceMissionStateCmd";

    /// Builds a command advancing `mission_attempt_id` because `trigger` fired.
    pub fn new(mission_attempt_id: &str, trigger: &str) -> (r: Self)
        ensures
            r@ == (AdvanceMissionStateView {
                mission_attempt_id: mission_attempt_id@,
                trigger: trigger@,
            }),
    {
        AdvanceMissionState {
            mission_attempt_id: mission_attempt_id.to_owned(),
            trigger: trigger.to_owned(),
        }
    }

    /// This request as a command, ready to be executed.
    pub fn into_command(&self) -> (r: Command<Payload<Request>>)
        ensures
            r@ == (CommandView {
                name: Self::COMMAND@,
                payload: PayloadView::Decoded(RequestView::AdvanceMissionState(self@)),
            }),
    {
        let request = Request::AdvanceMissionState(self.clone());
        Command::with_payload(Self::COMMAND, Payload::Decoded(request))
    }
}

/// Story-facing alias for the command payload type.
pub type AdvanceMissionStateCmd = AdvanceMissionState;

/// The first-clear reward claim carried by [`Event::FirstClearRewardClaimed`].
#[derive(Debug, PartialEq, Eq)]
pub struct FirstClearRewardClaimed {
    /// The player that claimed the reward.
    pub player_id: String,
    /// The mission whose first-clear reward was claimed.
    pub mission_id: String,
}

/// What a [`FirstClearRewardClaimed`] says.
#[verifier::ext_equal]
pub struct FirstClearRewardClaimedView {
    pub player_id: Seq<char>,
    pub mission_id: Seq<char>,
}

impl View for FirstClearRewardClaimed {
    type V = FirstClearRewardClaimedView;

    open spec fn view(&self) -> FirstClearRewardClaimedView {
        FirstClearRewardClaimedView {
            player_id: self.player_id@,
            mission_id: self.mission_id@,
        }
    }
}

impl Clone for FirstClearRewardClaimed {
    fn clone(&self) -> (r: Self)
        ensures
            r@ == self@,
    {
        FirstClearRewardClaimed {
            player_id: self.player_id.clone(),
            mission_id: self.mission_id.clone(),
        }
    }
}

/// The scripted-state advance carried by [`Event::MissionStateAdvanced`].
#[derive(Debug, PartialEq, Eq)]
pub struct MissionStateAdvanced {
    /// The MissionAttempt whose scripted state advanced.
    pub mission_attempt_id: String,
    /// The trigger that advanced the scripted state and fires barks/panels.
    pub trigger: String,
    /// The resulting scripted state step after the trigger is applied.
    pub scripted_state_step: u64,
}

/// What a [`MissionStateAdvanced`] says.
#[verifier::ext_equal]
pub struct MissionStateAdvancedView {
    pub mission_attempt_id: Seq<char>,
    pub trigger: Seq<char>,
    pub scripted_state_step: u64,
}

impl View for MissionStateAdvanced {
    type V = MissionStateAdvancedView;

    open spec fn view(&self) -> MissionStateAdvancedView {
        MissionStateAdvancedView {
            mission_attempt_id: self.mission_attempt_id@,
            trigger: self.trigger@,
            scripted_state_step: self.scripted_state_step,
        }
    }
}

impl Clone for MissionStateAdvanced {
    fn clone(&self) -> (r: Self)
        ensures
            r@ == self@,
    {
        MissionStateAdvanced {
            mission_attempt_id: self.mission_attempt_id.clone(),
            trigger: self.trigger.clone(),
            scripted_state_step: self.scripted_state_step,
        }
    }
}

/// Domain events emitted by [`MissionAttempt`].
#[derive(Debug, PartialEq, Eq)]
pub enum Event {
    /// The fixed first-clear reward bundle was claimed for a player and mission.
    FirstClearRewardClaimed(FirstClearRewardClaimed),
    /// Scripted mission state advanced and its trigger-side effects should fire.
    MissionStateAdvanced(MissionStateAdvanced),
}

/// What an [`Event`] says.
#[verifier::ext_equal]
pub enum EventView {
    FirstClearRewardClaimed(FirstClearRewardClaimedView),
    MissionStateAdvanced(MissionStateAdvancedView),
}

impl View for Event {
    type V = EventView;

    open spec fn view(&self) -> EventView {
        match self {
            Event::FirstClearRewardClaimed(body) => EventView::FirstClearRewardClaimed(body@),
            Event::MissionStateAdvanced(body) => EventView::MissionStateAdvanced(body@),
        }
    }
}

impl Clone for Event {
    fn clone(&self) -> (r: Self)
        ensures
            r@ == self@,
    {
        match self {
            Event::FirstClearRewardClaimed(body) => Event::FirstClearRewardClaimed(body.clone()),
            Event::MissionStateAdvanced(body) => Event::MissionStateAdvanced(body.clone()),
        }
    }
}

impl EventView {
    /// The name under which the event is published.
    pub open spec fn event_type(self) -> Seq<char> {
        match self {
            EventView::FirstClearRewardClaimed(_) => "first.clear.reward.claimed"@,
            EventView::MissionStateAdvanced(_) => "mission.state.advanced"@,
        }
    }
}

impl Event {
    /// The name under which the event is published.
    pub fn event_type(&self) -> (r: &'static str)
        ensures
            r@ == self@.event_type(),
    {
        match self {
            Event::FirstClearRewardClaimed(_) => "first.clear.reward.claimed",
            Event::MissionStateAdvanced(_) => "mission.state.advanced",
        }
    }
}

/// A command of this context, with its payload read.
pub enum Request {
    /// A [`ClaimFirstClearReward`].
    ClaimFirstClearReward(ClaimFirstClearReward),
    /// An [`AdvanceMissionState`].
    AdvanceMissionState(AdvanceMissionState),
}

/// What a [`Request`] says.
#[verifier::ext_equal]
pub enum RequestView {
    ClaimFirstClearReward(ClaimFirstClearRewardView),
    AdvanceMissionState(AdvanceMissionStateView),
}

impl View for Request {
    type V = RequestView;

    open spec fn view(&self) -> RequestView {
        match self {
            Request::ClaimFirstClearReward(body) => RequestView::ClaimFirstClearReward(body@),
            Request::AdvanceMissionState(body) => RequestView::AdvanceMissionState(body@),
        }
    }
}

/// A mission attempt aggregate.
#[derive(Debug)]
pub struct MissionAttempt {
    id: String,
    root: AggregateRoot<Event>,
    /// Whether this player's first-clear reward has already been claimed.
    first_clear_reward_claimed: bool,
    /// Whether a prologue mission's predecessor has been cleared.
    prologue_predecessor_cleared: bool,
    /// Whether the mission is eligible under today's Reprise rotation rules.
    reprise_rotation_eligible: bool,
    /// Whether special rules and boss HP-threshold barks fired at their scripted
    /// points for this attempt.
    scripted_points_satisfied: bool,
    /// Current scripted mission state step. Each accepted advance moves this
    /// forward by one.
    scripted_state_step: u64,
}

/// What a [`MissionAttempt`] says.
#[verifier::ext_equal]
pub struct MissionAttemptView {
    pub id: Seq<char>,
    pub events: Seq<EventView>,
    pub first_clear_reward_claimed: bool,
    pub prologue_predecessor_cleared: bool,
    pub reprise_rotation_eligible: bool,
    pub scripted_points_satisfied: bool,
    pub scripted_state_step: u64,
}

impl View for MissionAttempt {
    type V = MissionAttemptView;

    closed spec fn view(&self) -> MissionAttemptView {
        MissionAttemptView {
            id: self.id@,
            events: self.root@,
            first_clear_reward_claimed: self.first_clear_reward_claimed,
            prologue_predecessor_cleared: self.prologue_predecessor_cleared,
            reprise_rotation_eligible: self.reprise_rotation_eligible,
            scripted_points_satisfied: self.scripted_points_satisfied,
            scripted_state_step: self.scripted_state_step,
        }
    }
}

impl MissionAttemptView {
    /// The message where the reward was claimed already.
    pub open spec fn reward_fault(self) -> Option<Seq<char>> {
        if self.first_clear_reward_claimed {
            Some(
                "mission attempt '"@ + self.id
                    + "' has already claimed the fixed $MADE first-clear reward; the fixed $MADE reward for a mission is granted only on the player's first clear, ever"@,
            )
        } else {
            None
        }
    }

    /// The message where the predecessor is not cleared.
    pub open spec fn sequence_fault(self) -> Option<Seq<char>> {
        if !self.prologue_predecessor_cleared {
            Some(
                "mission attempt '"@ + self.id
                    + "' is locked behind an uncleared predecessor; prologue missions are gated in sequence"@,
            )
        } else {
            None
        }
    }

    /// The message where the mission is not in today's rotation.
    pub open spec fn rotation_fault(self) -> Option<Seq<char>> {
        if !self.reprise_rotation_eligible {
            Some(
                "mission attempt '"@ + self.id
                    + "' is not in today's Reprise rotation; only missions in today's Reprise rotation are eligible for repeat rewards"@,
            )
        } else {
            None
        }
    }

    /// The message where a scripted point was missed.
    pub open spec fn script_fault(self) -> Option<Seq<char>> {
        if !self.scripted_points_satisfied {
            Some(
                "mission attempt '"@ + self.id
                    + "' did not satisfy scripted mission points; per-mission special rules and boss HP-threshold barks fire exactly at their scripted points"@,
            )
        } else {
            None
        }
    }

    /// The state after an event has been applied.
    pub open spec fn apply(self, event: EventView) -> MissionAttemptView {
        match event {
            EventView::FirstClearRewardClaimed(_) => MissionAttemptView {
                first_clear_reward_claimed: true,
                ..self
            },
            EventView::MissionStateAdvanced(advanced) => MissionAttemptView {
                scripted_state_step: advanced.scripted_state_step,
                ..self
            },
        }
    }

    /// The message of the first rule that refuses a [`ClaimFirstClearReward`], if one does.
    pub open spec fn claim_first_clear_reward_fault(
        self,
        cmd: ClaimFirstClearRewardView,
    ) -> Option<Seq<char>> {
        if text::is_blank_text(cmd.player_id) {
            Some(
                "mission attempt '"@ + self.id
                    + "' requires a valid playerId to claim the first-clear reward"@,
            )
        } else if text::is_blank_text(cmd.mission_id) {
            Some(
                "mission attempt '"@ + self.id
                    + "' requires a valid missionId to claim the first-clear reward"@,
            )
        } else {
            shared::first(
                self.reward_fault(),
                shared::first(
                    self.sequence_fault(),
                    shared::first(self.rotation_fault(), self.script_fault()),
                ),
            )
        }
    }

    /// The state after a [`ClaimFirstClearReward`], and the answer to it.
    pub open spec fn claim_first_clear_reward(self, cmd: ClaimFirstClearRewardView) -> (
        MissionAttemptView,
        Reply<EventView>,
    ) {
        match self.claim_first_clear_reward_fault(cmd) {
            Some(message) => (self, shared::violation(message)),
            None => {
                let event = EventView::FirstClearRewardClaimed(FirstClearRewardClaimedView {
                    player_id: cmd.player_id,
                    mission_id: cmd.mission_id,
                });
                (
                    MissionAttemptView { events: self.events.push(event), ..self.apply(event) },
                    Ok(seq![event]),
                )
            },
        }
    }

    /// The message where there is no further step.
    pub open spec fn step_fault(self) -> Option<Seq<char>> {
        if self.scripted_state_step == u64::MAX {
            Some(
                "mission attempt '"@ + self.id
                    + "' cannot advance scripted state beyond u64::MAX"@,
            )
        } else {
            None
        }
    }

    /// The message of the first rule that refuses an [`AdvanceMissionState`], if one does.
    pub open spec fn advance_mission_state_fault(
        self,
        cmd: AdvanceMissionStateView,
    ) -> Option<Seq<char>> {
        if text::is_blank_text(cmd.mission_attempt_id) {
            Some(
                "mission attempt '"@ + self.id
                    + "' requires a valid missionAttemptId to advance mission state"@,
            )
        } else if text::is_blank_text(cmd.trigger) {
            Some(
                "mission attempt '"@ + self.id
                    + "' requires a valid trigger to advance mission state"@,
            )
        } else if cmd.mission_attempt_id != self.id {
            Some(
                "command targets mission attempt '"@ + cmd.mission_attempt_id
                    + "' but this aggregate is mission attempt '"@ + self.id + "'"@,
            )
        } else {
            shared::first(
                self.reward_fault(),
                shared::first(
                    self.sequence_fault(),
                    shared::first(
                        self.rotation_fault(),
                        shared::first(self.script_fault(), self.step_fault()),
                    ),
                ),
            )
        }
    }

    /// The state after an [`AdvanceMissionState`], and the answer to it.
    pub open spec fn advance_mission_state(self, cmd: AdvanceMissionStateView) -> (
        MissionAttemptView,
        Reply<EventView>,
    ) {
        match self.advance_mission_state_fault(cmd) {
            Some(message) => (self, shared::violation(message)),
            None => {
                let event = EventView::MissionStateAdvanced(MissionStateAdvancedView {
                    mission_attempt_id: cmd.mission_attempt_id,
                    trigger: cmd.trigger,
                    scripted_state_step: (self.scripted_state_step + 1) as u64,
                });
                (
                    MissionAttemptView { events: self.events.push(event), ..self.apply(event) },
                    Ok(seq![event]),
                )
            },
        }
    }

    /// The state after a command, and the answer to it.
    pub open spec fn execute(self, command: CommandView<PayloadView<RequestView>>) -> (
        MissionAttemptView,
        Reply<EventView>,
    ) {
        if command.name == ClaimFirstClearReward::COMMAND@ {
            match command.payload {
                PayloadView::Decoded(RequestView::ClaimFirstClearReward(cmd)) => {
                    self.claim_first_clear_reward(cmd)
                },
                PayloadView::Decoded(_) => (
                    self,
                    shared::malformed_reply(ClaimFirstClearReward::COMMAND@, OTHER_COMMAND@),
                ),
                PayloadView::Malformed(complaint) => (
                    self,
                    shared::malformed_reply(ClaimFirstClearReward::COMMAND@, complaint),
                ),
            }
        } else if command.name == AdvanceMissionState::COMMAND@ {
            match command.payload {
                PayloadView::Decoded(RequestView::AdvanceMissionState(cmd)) => {
                    self.advance_mission_state(cmd)
                },
                PayloadView::Decoded(_) => (
                    self,
                    shared::malformed_reply(AdvanceMissionState::COMMAND@, OTHER_COMMAND@),
                ),
                PayloadView::Malformed(complaint) => (
                    self,
                    shared::malformed_reply(AdvanceMissionState::COMMAND@, complaint),
                ),
            }
        } else {
            (self, shared::unknown(AGGREGATE_TYPE@, command.name))
        }
    }
}

impl MissionAttempt {
    /// The name of the aggregate type.
    pub fn aggregate_type() -> (r: &'static str)
        ensures
            r@ == AGGREGATE_TYPE@,
    {
        AGGREGATE_TYPE
    }

    /// Creates a claimable mission attempt identified by `id`.
    pub fn new(id: &str) -> (r: Self)
        ensures
            r@ == (MissionAttemptView {
                id: id@,
                events: Seq::empty(),
                first_clear_reward_claimed: false,
                prologue_predecessor_cleared: true,
                reprise_rotation_eligible: true,
                scripted_points_satisfied: true,
                scripted_state_step: 0,
            }),
    {
        MissionAttempt {
            id: id.to_owned(),
            root: AggregateRoot::new(),
            first_clear_reward_claimed: false,
            prologue_predecessor_cleared: true,
            reprise_rotation_eligible: true,
            scripted_points_satisfied: true,
            scripted_state_step: 0,
        }
    }

    /// This aggregate's identity.
    pub fn id(&self) -> (r: &str)
        ensures
            r@ == self@.id,
    {
        self.id.as_str()
    }

    /// The version: the number of events recorded.
    pub fn version(&self) -> (r: u64)
        ensures
            r == self@.events.len(),
    {
        self.root.version()
    }

    /// The events recorded and not yet persisted.
    pub fn uncommitted_events(&self) -> (r: &[Event])
        ensures
            shared::views(r@) == self@.events,
    {
        self.root.uncommitted_events()
    }

    /// First-clear invariant: the fixed $MADE reward is granted only once.
    fn ensure_first_clear_reward_available(&self) -> (r: Result<(), DomainError>)
        ensures
            shared::broken(r) == shared::owed(self@.reward_fault()),
    {
        if self.first_clear_reward_claimed {
            return shared::refuse(
                text::cat3(
                    "mission attempt '", &self.id,
                    "' has already claimed the fixed $MADE first-clear reward; the fixed $MADE reward for a mission is granted only on the player's first clear, ever",
                ),
            );
        }
        Ok(())
    }

    /// Prologue invariant: missions unlock only after their predecessor is cleared.
    fn ensure_prologue_predecessor_cleared(&self) -> (r: Result<(), DomainError>)
        ensures
            shared::broken(r) == shared::owed(self@.sequence_fault()),
    {
        if !self.prologue_predecessor_cleared {
            return shared::refuse(
                text::cat3(
                    "mission attempt '", &self.id,
                    "' is locked behind an uncleared predecessor; prologue missions are gated in sequence",
                ),
            );
        }
        Ok(())
    }

    /// Reprise invariant: reward eligibility follows today's Reprise rotation.
    fn ensure_reprise_rotation_eligible(&self) -> (r: Result<(), DomainError>)
        ensures
            shared::broken(r) == shared::owed(self@.rotation_fault()),
    {
        if !self.reprise_rotation_eligible {
            return shared::refuse(
                text::cat3(
                    "mission attempt '", &self.id,
                    "' is not in today's Reprise rotation; only missions in today's Reprise rotation are eligible for repeat rewards",
                ),
            );
        }
        Ok(())
    }

    /// Scripted-rules invariant: special rules and boss HP-threshold barks fired
    /// exactly at their scripted points.
    fn ensure_scripted_points_satisfied(&self) -> (r: Result<(), DomainError>)
        ensures
            shared::broken(r) == shared::owed(self@.script_fault()),
    {
        if !self.scripted_points_satisfied {
            return shared::refuse(
                text::cat3(
                    "mission attempt '", &self.id,
                    "' did not satisfy scripted mission points; per-mission special rules and boss HP-threshold barks fire exactly at their scripted points",
                ),
            );
        }
        Ok(())
    }

    /// Applies an event to the state.
    fn apply(&mut self, event: &Event)
        ensures
            final(self)@ == old(self)@.apply(event@),
    {
        match event {
            Event::FirstClearRewardClaimed(_) => {
                self.first_clear_reward_claimed = true;
            },
            Event::MissionStateAdvanced(advanced) => {
                self.scripted_state_step = advanced.scripted_state_step;
            },
        }
    }

    /// Handles a claim: the command must carry a player and a mission, and the four
    /// invariants must hold.
    fn claim_first_clear_reward(&mut self, cmd: ClaimFirstClearReward) -> (r: Result<
        Vec<Event>,
        DomainError,
    >)
        ensures
            final(self)@ == old(self)@.claim_first_clear_reward(cmd@).0,
            shared::reply(r) == old(self)@.claim_first_clear_reward(cmd@).1,
    {
        if text::is_blank(&cmd.player_id) {
            return shared::refuse(
                text::cat3(
                    "mission attempt '", &self.id,
                    "' requires a valid playerId to claim the first-clear reward",
                ),
            );
        }
        if text::is_blank(&cmd.mission_id) {
            return shared::refuse(
                text::cat3(
                    "mission attempt '", &self.id,
                    "' requires a valid missionId to claim the first-clear reward",
                ),
            );
        }
        if let Err(error) = self.ensure_first_clear_reward_available() {
            return Err(error);
        }
        if let Err(error) = self.ensure_prologue_predecessor_cleared() {
            return Err(error);
        }
        if let Err(error) = self.ensure_reprise_rotation_eligible() {
            return Err(error);
        }
        if let Err(error) = self.ensure_scripted_points_satisfied() {
            return Err(error);
        }
        let event = Event::FirstClearRewardClaimed(
            FirstClearRewardClaimed {
                player_id: cmd.player_id,
                mission_id: cmd.mission_id,
            },
        );
        self.apply(&event);
        self.root.record(event.clone());
        Ok(shared::only(event))
    }

    /// The scripted state has a further step.
    fn ensure_step_left(&self) -> (r: Result<(), DomainError>)
        ensures
            shared::broken(r) == shared::owed(self@.step_fault()),
    {
        if self.scripted_state_step == u64::MAX {
            return shared::refuse(
                text::cat3(
                    "mission attempt '", &self.id,
                    "' cannot advance scripted state beyond u64::MAX",
                ),
            );
        }
        Ok(())
    }

    /// Handles an advance: the command must carry this attempt and a trigger, and
    /// the four invariants must hold. The scripted state moves forward by one.
    fn advance_mission_state(&mut self, cmd: AdvanceMissionState) -> (r: Result<
        Vec<Event>,
        DomainError,
    >)
        ensures
            final(self)@ == old(self)@.advance_mission_state(cmd@).0,
            shared::reply(r) == old(self)@.advance_mission_state(cmd@).1,
    {
        if text::is_blank(&cmd.mission_attempt_id) {
            return shared::refuse(
                text::cat3(
                    "mission attempt '", &self.id,
                    "' requires a valid missionAttemptId to advance mission state",
                ),
            );
        }
        if text::is_blank(&cmd.trigger) {
            return shared::refuse(
                text::cat3(
                    "mission attempt '", &self.id,
                    "' requires a valid trigger to advance mission state",
                ),
            );
        }
        if !text::same(&cmd.mission_attempt_id, &self.id) {
            return shared::refuse(
                text::cat5(
                    "command targets mission attempt '", &cmd.mission_attempt_id,
                    "' but this aggregate is mission attempt '", &self.id, "'",
                ),
            );
        }
        if let Err(error) = self.ensure_first_clear_reward_available() {
            return Err(error);
        }
        if let Err(error) = self.ensure_prologue_predecessor_cleared() {
            return Err(error);
        }
        if let Err(error) = self.ensure_reprise_rotation_eligible() {
            return Err(error);
        }
        if let Err(error) = self.ensure_scripted_points_satisfied() {
            return Err(error);
        }
        if let Err(error) = self.ensure_step_left() {
            return Err(error);
        }
        let event = Event::MissionStateAdvanced(
            MissionStateAdvanced {
                mission_attempt_id: cmd.mission_attempt_id,
                trigger: cmd.trigger,
                scripted_state_step: self.scripted_state_step + 1,
            },
        );
        self.apply(&event);
        self.root.record(event.clone());
        Ok(shared::only(event))
    }

    /// Carries out a command, or says why it is refused.
    pub fn execute(&mut self, command: Command<Payload<Request>>) -> (r: Result<
        Vec<Event>,
        DomainError,
    >)
        ensures
            final(self)@ == old(self)@.execute(command@).0,
            shared::reply(r) == old(self)@.execute(command@).1,
    {
        if text::same(&command.name, ClaimFirstClearReward::COMMAND) {
            match command.payload {
                Payload::Decoded(Request::ClaimFirstClearReward(cmd)) => {
                    self.claim_first_clear_reward(cmd)
                },
                Payload::Decoded(_) => {
                    shared::malformed(ClaimFirstClearReward::COMMAND, OTHER_COMMAND)
                },
                Payload::Malformed(complaint) => {
                    shared::malformed(ClaimFirstClearReward::COMMAND, &complaint)
                },
            }
        } else if text::same(&command.name, AdvanceMissionState::COMMAND) {
            match command.payload {
                Payload::Decoded(Request::AdvanceMissionState(cmd)) => {
                    self.advance_mission_state(cmd)
                },
                Payload::Decoded(_) => {
                    shared::malformed(AdvanceMissionState::COMMAND, OTHER_COMMAND)
                },
                Payload::Malformed(complaint) => {
                    shared::malformed(AdvanceMissionState::COMMAND, &complaint)
                },
            }
        } else {
            Err(DomainError::unknown_command(AGGREGATE_TYPE, command.name))
        }
    }

    /// Whether the first-clear reward has been claimed on this attempt.
    pub fn first_clear_reward_claimed(&self) -> (r: bool)
        ensures
            r == self@.first_clear_reward_claimed,
    {
        self.first_clear_reward_claimed
    }

    /// Current scripted mission state step.
    pub fn scripted_state_step(&self) -> (r: u64)
        ensures
            r == self@.scripted_state_step,
    {
        self.scripted_state_step
    }

    /// Records whether the fixed first-clear reward has already been claimed.
    pub fn set_first_clear_reward_claimed(&mut self, claimed: bool)
        ensures
            final(self)@ == (MissionAttemptView {
                first_clear_reward_claimed: claimed,
                ..old(self)@
            }),
    {
        self.first_clear_reward_claimed = claimed;
    }

    /// Records whether a prologue mission's predecessor has been cleared.
    pub fn set_prologue_predecessor_cleared(&mut self, cleared: bool)
        ensures
            final(self)@ == (MissionAttemptView {
                prologue_predecessor_cleared: cleared,
                ..old(self)@
            }),
    {
        self.prologue_predecessor_cleared = cleared;
    }

    /// Records whether the mission is in today's Reprise rotation.
    pub fn set_reprise_rotation_eligible(&mut self, eligible: bool)
        ensures
            final(self)@ == (MissionAttemptView {
                reprise_rotation_eligible: eligible,
                ..old(self)@
            }),
    {
        self.reprise_rotation_eligible = eligible;
    }

    /// Records whether special rules and boss HP-threshold barks fired exactly at
    /// their scripted points.
    pub fn set_scripted_points_satisfied(&mut self, satisfied: bool)
        ensures
            final(self)@ == (MissionAttemptView {
                scripted_points_satisfied: satisfied,
                ..old(self)@
            }),
    {
        self.scripted_points_satisfied = satisfied;
    }
}

/// The repository port of the [`MissionAttempt`] aggregate: an adapter implements
/// [`Repository`] for it and then this marker.
pub trait MissionAttemptRepository: Repository<MissionAttempt> {

}

impl MissionAttemptView {
    /// A refused command changes nothing: neither the state nor the events.
    pub proof fn law_refusal_changes_nothing(
        self,
        command: CommandView<PayloadView<RequestView>>,
    )
        ensures
            self.execute(command).1 is Err ==> self.execute(command).0 == self,
    {
    }

    /// An accepted command records exactly the events it answers with, behind
    /// those recorded before.
    pub proof fn law_events_are_recorded(self, command: CommandView<PayloadView<RequestView>>)
        ensures
            self.execute(command).1 matches Ok(events) ==> {
                &&& events.len() == 1
                &&& self.execute(command).0.events == self.events + events
            },
    {
        if let Ok(events) = self.execute(command).1 {
            assert(self.execute(command).0.events =~= self.events + events);
        }
    }

    /// The state after a sequence of commands, accepted and refused ones alike.
    pub open spec fn after(
        self,
        commands: Seq<CommandView<PayloadView<RequestView>>>,
    ) -> MissionAttemptView
        decreases commands.len(),
    {
        if commands.len() == 0 {
            self
        } else {
            self.after(commands.drop_last()).execute(commands.last()).0
        }
    }

    /// No command undoes a claim, and once the reward is claimed every claim is
    /// refused.
    pub proof fn law_claim_is_kept(
        self,
        command: CommandView<PayloadView<RequestView>>,
        claim: ClaimFirstClearRewardView,
    )
        requires
            self.first_clear_reward_claimed,
        ensures
            self.execute(command).0.first_clear_reward_claimed,
            self.claim_first_clear_reward(claim).1 is Err,
    {
    }

    /// No sequence of commands undoes a claim.
    pub proof fn law_claim_is_never_undone(
        self,
        commands: Seq<CommandView<PayloadView<RequestView>>>,
    )
        requires
            self.first_clear_reward_claimed,
        ensures
            self.after(commands).first_clear_reward_claimed,
        decreases commands.len(),
    {
        if commands.len() > 0 {
            self.law_claim_is_never_undone(commands.drop_last());
        }
    }

    /// The first-clear reward is granted once, ever: after an accepted claim every
    /// further claim is refused, whatever commands came between.
    pub proof fn law_reward_is_granted_once(
        self,
        first: ClaimFirstClearRewardView,
        between: Seq<CommandView<PayloadView<RequestView>>>,
        second: ClaimFirstClearRewardView,
    )
        requires
            self.claim_first_clear_reward(first).1 is Ok,
        ensures
            self.claim_first_clear_reward(first).0.after(between).claim_first_clear_reward(
                second,
            ).1 is Err,
    {
        self.claim_first_clear_reward(first).0.law_claim_is_never_undone(between);
    }

    /// The reward is claimed exactly where the command names a player and a
    /// mission, and the invariants hold.
    pub proof fn law_claim_is_owed(self, cmd: ClaimFirstClearRewardView)
        ensures
            self.claim_first_clear_reward(cmd).1 is Ok <==> {
                &&& !text::is_blank_text(cmd.player_id)
                &&& !text::is_blank_text(cmd.mission_id)
                &&& !self.first_clear_reward_claimed
                &&& self.prologue_predecessor_cleared
                &&& self.reprise_rotation_eligible
                &&& self.scripted_points_satisfied
            },
    {
    }

    /// The scripted state advances exactly where the command names the attempt and
    /// a trigger, the invariants hold and a step is left.
    pub proof fn law_advance_is_owed(self, cmd: AdvanceMissionStateView)
        ensures
            self.advance_mission_state(cmd).1 is Ok <==> {
                &&& cmd.mission_attempt_id == self.id
                &&& !text::is_blank_text(cmd.mission_attempt_id)
                &&& !text::is_blank_text(cmd.trigger)
                &&& !self.first_clear_reward_claimed
                &&& self.prologue_predecessor_cleared
                &&& self.reprise_rotation_eligible
                &&& self.scripted_points_satisfied
                &&& self.scripted_state_step < u64::MAX
            },
    {
    }

    /// Each accepted advance moves the scripted state forward by exactly one, and no
    /// other command moves it.
    pub proof fn law_steps_are_single(
        self,
        command: CommandView<PayloadView<RequestView>>,
        advance: AdvanceMissionStateView,
        claim: ClaimFirstClearRewardView,
    )
        ensures
            self.advance_mission_state(advance).1 is Ok ==> self.advance_mission_state(
                advance,
            ).0.scripted_state_step == self.scripted_state_step + 1,
            self.claim_first_clear_reward(claim).0.scripted_state_step
                == self.scripted_state_step,
            self.scripted_state_step <= self.execute(command).0.scripted_state_step
                <= self.scripted_state_step + 1,
    {
    }
}

impl MissionAttemptView {
    /// Every command goes to its own handler, a payload that does not read is
    /// refused with the complaint about it, and a name that is none of these is
    /// unknown; what is refused otherwise is refused for a broken rule.
    pub proof fn law_commands_are_routed(self, command: CommandView<PayloadView<RequestView>>)
        ensures
            command.name == "ClaimFirstClearRewardCmd"@ ==> match command.payload {
                PayloadView::Decoded(RequestView::ClaimFirstClearReward(cmd)) =>
                    self.execute(command)
                    == self.claim_first_clear_reward(cmd),
                PayloadView::Decoded(_) => self.execute(command).1 is Err,
                PayloadView::Malformed(complaint) => self.execute(command).1 == shared::violation::<
                    EventView,
                >("malformed "@ + "ClaimFirstClearRewardCmd"@ + " payload: "@ + complaint),
            },
            command.name == "AdvanceMissionStateCmd"@ ==> match command.payload {
                PayloadView::Decoded(RequestView::AdvanceMissionState(cmd)) => self.execute(command)
                    == self.advance_mission_state(cmd),
                PayloadView::Decoded(_) => self.execute(command).1 is Err,
                PayloadView::Malformed(complaint) => self.execute(command).1 == shared::violation::<
                    EventView,
                >("malformed "@ + "AdvanceMissionStateCmd"@ + " payload: "@ + complaint),
            },
            ({
                &&& command.name != "ClaimFirstClearRewardCmd"@
                &&& command.name != "AdvanceMissionStateCmd"@
            }) ==> self.execute(command).1 == Err::<
                Seq<EventView>,
                shared::DomainErrorView,
            >(
                shared::DomainErrorView::UnknownCommand {
                    aggregate: "MissionAttempt"@,
                    command: command.name,
                },
            ),
            self.execute(command).1 matches Err(error) ==> (error is InvariantViolation <==> {
                ||| command.name == "ClaimFirstClearRewardCmd"@
                ||| command.name == "AdvanceMissionStateCmd"@
            }),
    {
        reveal_strlit("ClaimFirstClearRewardCmd");
        reveal_strlit("AdvanceMissionStateCmd");
        assert("ClaimFirstClearRewardCmd"@.len() == 24);
        assert("AdvanceMissionStateCmd"@.len() == 22);
    }

    /// A claim records the player and the mission that were submitted and marks the
    /// reward claimed; nothing else changes.
    pub proof fn law_claim_records_the_reward(self, cmd: ClaimFirstClearRewardView)
        requires
            self.claim_first_clear_reward(cmd).1 is Ok,
        ensures
            ({
                let after = self.claim_first_clear_reward(cmd).0;
                &&& self.claim_first_clear_reward(cmd).1 matches Ok(events)
                &&& events.len() == 1
                &&& events[0].event_type() == "first.clear.reward.claimed"@
                &&& events[0] matches EventView::FirstClearRewardClaimed(said)
                &&& said.player_id == cmd.player_id
                &&& said.mission_id == cmd.mission_id
                &&& after.first_clear_reward_claimed
                &&& after == (MissionAttemptView {
                    first_clear_reward_claimed: after.first_clear_reward_claimed,
                    events: self.events.push(events[0]),
                    ..self
                })
            }),
    {
    }

    /// An advance records the attempt and the trigger that were submitted with the
    /// step reached, which is one further than before; nothing else changes.
    pub proof fn law_advance_records_the_step(self, cmd: AdvanceMissionStateView)
        requires
            self.advance_mission_state(cmd).1 is Ok,
        ensures
            ({
                let after = self.advance_mission_state(cmd).0;
                &&& self.advance_mission_state(cmd).1 matches Ok(events)
                &&& events.len() == 1
                &&& events[0].event_type() == "mission.state.advanced"@
                &&& events[0] matches EventView::MissionStateAdvanced(said)
                &&& said.mission_attempt_id == cmd.mission_attempt_id
                &&& said.trigger == cmd.trigger
                &&& said.scripted_state_step == after.scripted_state_step
                &&& after.scripted_state_step == self.scripted_state_step + 1
                &&& after == (MissionAttemptView {
                    scripted_state_step: after.scripted_state_step,
                    events: self.events.push(events[0]),
                    ..self
                })
            }),
    {
    }
}

impl ClaimFirstClearReward {
    /// The view leaves nothing out: where two views agree, so does every field.
    pub proof fn law_view_leaves_nothing_out(self, other: ClaimFirstClearReward)
        requires
            self@ == other@,
        ensures
            self.player_id@ == other.player_id@,
            self.mission_id@ == other.mission_id@,
    {
    }
}

impl AdvanceMissionState {
    /// The view leaves nothing out: where two views agree, so does every field.
    pub proof fn law_view_leaves_nothing_out(self, other: AdvanceMissionState)
        requires
            self@ == other@,
        ensures
            self.mission_attempt_id@ == other.mission_attempt_id@,
            self.trigger@ == other.trigger@,
    {
    }
}

impl FirstClearRewardClaimed {
    /// The view leaves nothing out: where two views agree, so does every field.
    pub proof fn law_view_leaves_nothing_out(self, other: FirstClearRewardClaimed)
        requires
            self@ == other@,
        ensures
            self.player_id@ == other.player_id@,
            self.mission_id@ == other.mission_id@,
    {
    }
}

impl MissionStateAdvanced {
    /// The view leaves nothing out: where two views agree, so does every field.
    pub proof fn law_view_leaves_nothing_out(self, other: MissionStateAdvanced)
        requires
            self@ == other@,
        ensures
            self.mission_attempt_id@ == other.mission_attempt_id@,
            self.trigger@ == other.trigger@,
            self.scripted_state_step == other.scripted_state_step,
    {
    }
}

impl Event {
    /// The view leaves nothing out: where two views agree, so do the variants and
    /// what they carry.
    pub proof fn law_view_leaves_nothing_out(self, other: Event)
        requires
            self@ == other@,
        ensures
            match (self, other) {
                (Event::FirstClearRewardClaimed(a), Event::FirstClearRewardClaimed(b)) => a@ == b@,
                (Event::MissionStateAdvanced(a), Event::MissionStateAdvanced(b)) => a@ == b@,
                _ => false,
            },
    {
    }
}

impl Request {
    /// The view leaves nothing out: where two views agree, so do the variants and
    /// what they carry.
    pub proof fn law_view_leaves_nothing_out(self, other: Request)
        requires
            self@ == other@,
        ensures
            match (self, other) {
                (Request::ClaimFirstClearReward(a), Request::ClaimFirstClearReward(b)) => a@ == b@,
                (Request::AdvanceMissionState(a), Request::AdvanceMissionState(b)) => a@ == b@,
                _ => false,
            },
    {
    }
}

} // verus!
