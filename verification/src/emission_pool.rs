//! The $MADE reward pool that seasons draw down, and its low-pool early warning.
//!
//! An [`EmissionPool`] holds the season's $MADE reward budget, emits rewards to
//! recipients within its remaining balance, and raises a low-pool warning ahead
//! of exhaustion. Four invariants govern both:
//!
//! 1. **Emission schedule** - Season 1 opens with a 30M pool and each subsequent
//!    season's pool follows the mandated halving schedule.
//! 2. **Balance ceiling** - the pool can never emit more than its remaining
//!    balance.
//! 3. **Low-pool warning** - the 50% low-pool warning must be raised at 80%
//!    depletion (advance notice), not at exhaustion.
//! 4. **Governance gating** - pool size is a governance-adjustable parameter and
//!    a later season cannot open until the prior season's drain is understood.
use crate::shared;
use crate::shared::AggregateRoot;
use crate::shared::Command;
use crate::shared::CommandView;
use crate::shared::DomainError;
use crate::shared::DomainErrorView;
use crate::shared::Payload;
use crate::shared::PayloadView;
use crate::shared::Reply;
use crate::shared::Repository;
use crate::shared::OTHER_COMMAND;
use crate::text;
use vstd::prelude::*;

verus! {

/// The name of the aggregate type, as errors show it.
pub const AGGREGATE_TYPE: &'static str = "EmissionPool";

/// The $MADE balance Season 1's pool opens with (30M base units).
pub const SEASON_ONE_POOL: u64 = 30_000_000;

/// The `EmitRewardCmd` payload: which pool to draw from, who receives the
/// reward, and how much $MADE to emit. Field names use the token marketplace's
/// `camelCase` schema.
#[derive(Debug, PartialEq, Eq)]
pub struct EmitRewardCmd {
    /// The pool being drawn from; must name this EmissionPool.
    pub pool_id: String,
    /// The recipient receiving the emitted reward; must be a valid identifier.
    pub recipient_id: String,
    /// The amount of $MADE to emit, in base units; must be positive and within the
    /// pool's remaining balance.
    pub amount: u64,
}

/// What an [`EmitRewardCmd`] says.
#[verifier::ext_equal]
pub struct EmitRewardCmdView {
    pub pool_id: Seq<char>,
    pub recipient_id: Seq<char>,
    pub amount: u64,
}

impl View for EmitRewardCmd {
    type V = EmitRewardCmdView;

    open spec fn view(&self) -> EmitRewardCmdView {
        EmitRewardCmdView {
            pool_id: self.pool_id@,
            recipient_id: self.recipient_id@,
            amount: self.amount,
        }
    }
}

impl Clone for EmitRewardCmd {
    fn clone(&self) -> (r: Self)
        ensures
            r@ == self@,
    {
        EmitRewardCmd {
            pool_id: self.pool_id.clone(),
            recipient_id: self.recipient_id.clone(),
            amount: self.amount,
        }
    }
}

impl EmitRewardCmd {
    /// The name of the command.
    pub const COMMAND: &'static str = "EmitRewardCmd";

    /// Builds a command emitting `amount` $MADE from `pool_id` to
    /// `recipient_id`.
    pub fn new(pool_id: &str, recipient_id: &str, amount: u64) -> (r: Self)
        ensures
            r@ == (EmitRewardCmdView {
                pool_id: pool_id@,
                recipient_id: recipient_id@,
                amount: amount,
            }),
    {
        EmitRewardCmd {
            pool_id: pool_id.to_owned(),
            recipient_id: recipient_id.to_owned(),
            amount: amount,
        }
    }

    /// This request as a command, ready to be executed.
    pub fn into_command(&self) -> (r: Command<Payload<Request>>)
        ensures
            r@ == (CommandView {
                name: Self::COMMAND@,
                payload: PayloadView::Decoded(RequestView::EmitRewardCmd(self@)),
            }),
    {
        let request = Request::EmitRewardCmd(self.clone());
        Command::with_payload(Self::COMMAND, Payload::Decoded(request))
    }
}

/// The `RaiseLowPoolWarningCmd` payload: which pool to warn on and the
/// depletion percentage the warning is raised at. Field names use the token
/// marketplace's `camelCase` schema.
#[derive(Debug, PartialEq, Eq)]
pub struct RaiseLowPoolWarningCmd {
    /// The emission pool being warned on; must name this EmissionPool.
    pub pool_id: String,
    /// The depletion percentage the warning is raised at; must be in `0..=100`.
    pub depletion_pct: u8,
}

/// What a [`RaiseLowPoolWarningCmd`] says.
#[verifier::ext_equal]
pub struct RaiseLowPoolWarningCmdView {
    pub pool_id: Seq<char>,
    pub depletion_pct: u8,
}

impl View for RaiseLowPoolWarningCmd {
    type V = RaiseLowPoolWarningCmdView;

    open spec fn view(&self) -> RaiseLowPoolWarningCmdView {
        RaiseLowPoolWarningCmdView {
            pool_id: self.pool_id@,
            depletion_pct: self.depletion_pct,
        }
    }
}

impl Clone for RaiseLowPoolWarningCmd {
    fn clone(&self) -> (r: Self)
        ensures
            r@ == self@,
    {
        RaiseLowPoolWarningCmd {
            pool_id: self.pool_id.clone(),
            depletion_pct: self.depletion_pct,
        }
    }
}

impl RaiseLowPoolWarningCmd {
    /// The name of the command.
    pub const COMMAND: &'static str = "RaiseLowPoolWarningCmd";

    /// Builds a command raising a low-pool warning on `pool_id` at
    /// `depletion_pct` percent depletion.
    pub fn new(pool_id: &str, depletion_pct: u8) -> (r: Self)
        ensures
            r@ == (RaiseLowPoolWarningCmdView {
                pool_id: pool_id@,
                depletion_pct: depletion_pct,
            }),
    {
        RaiseLowPoolWarningCmd {
            pool_id: pool_id.to_owned(),
            depletion_pct: depletion_pct,
        }
    }

    /// This request as a command, ready to be executed.
    pub fn into_command(&self) -> (r: Command<Payload<Request>>)
        ensures
            r@ == (CommandView {
                name: Self::COMMAND@,
                payload: PayloadView::Decoded(RequestView::RaiseLowPoolWarningCmd(self@)),
            }),
    {
        let request = Request::RaiseLowPoolWarningCmd(self.clone());
        Command::with_payload(Self::COMMAND, Payload::Decoded(request))
    }
}

/// The reward that was emitted, carried by [`Event::RewardEmitted`] and thus by
/// the emitted `reward.emitted` event.
#[derive(Debug, PartialEq, Eq)]
pub struct RewardEmitted {
    /// The pool the reward was drawn from.
    pub pool_id: String,
    /// The recipient that received the emitted reward.
    pub recipient_id: String,
    /// The amount of $MADE emitted, in base units.
    pub amount: u64,
    /// The pool's remaining balance after the emission was applied.
    pub remaining_balance: u64,
}

/// What a [`RewardEmitted`] says.
#[verifier::ext_equal]
pub struct RewardEmittedView {
    pub pool_id: Seq<char>,
    pub recipient_id: Seq<char>,
    pub amount: u64,
    pub remaining_balance: u64,
}

impl View for RewardEmitted {
    type V = RewardEmittedView;

    open spec fn view(&self) -> RewardEmittedView {
        RewardEmittedView {
            pool_id: self.pool_id@,
            recipient_id: self.recipient_id@,
            amount: self.amount,
            remaining_balance: self.remaining_balance,
        }
    }
}

impl Clone for RewardEmitted {
    fn clone(&self) -> (r: Self)
        ensures
            r@ == self@,
    {
        RewardEmitted {
            pool_id: self.pool_id.clone(),
            recipient_id: self.recipient_id.clone(),
            amount: self.amount,
            remaining_balance: self.remaining_balance,
        }
    }
}

/// The low-pool warning that was raised, carried by
/// [`Event::LowPoolWarningRaised`] and thus by the emitted
/// `low.pool.warning.raised` event.
#[derive(Debug, PartialEq, Eq)]
pub struct LowPoolWarningRaised {
    /// The emission pool the warning was raised on.
    pub pool_id: String,
    /// The depletion percentage the warning was raised at.
    pub depletion_pct: u8,
}

/// What a [`LowPoolWarningRaised`] says.
#[verifier::ext_equal]
pub struct LowPoolWarningRaisedView {
    pub pool_id: Seq<char>,
    pub depletion_pct: u8,
}

impl View for LowPoolWarningRaised {
    type V = LowPoolWarningRaisedView;

    open spec fn view(&self) -> LowPoolWarningRaisedView {
        LowPoolWarningRaisedView {
            pool_id: self.pool_id@,
            depletion_pct: self.depletion_pct,
        }
    }
}

impl Clone for LowPoolWarningRaised {
    fn clone(&self) -> (r: Self)
        ensures
            r@ == self@,
    {
        LowPoolWarningRaised {
            pool_id: self.pool_id.clone(),
            depletion_pct: self.depletion_pct,
        }
    }
}

/// Domain events emitted by [`EmissionPool`].
#[derive(Debug, PartialEq, Eq)]
pub enum Event {
    /// $MADE was emitted from the pool to a recipient.
    RewardEmitted(RewardEmitted),
    /// The 50% low-pool warning was raised at 80% depletion.
    LowPoolWarningRaised(LowPoolWarningRaised),
}

/// What an [`Event`] says.
#[verifier::ext_equal]
pub enum EventView {
    RewardEmitted(RewardEmittedView),
    LowPoolWarningRaised(LowPoolWarningRaisedView),
}

impl View for Event {
    type V = EventView;

    open spec fn view(&self) -> EventView {
        match self {
            Event::RewardEmitted(body) => EventView::RewardEmitted(body@),
            Event::LowPoolWarningRaised(body) => EventView::LowPoolWarningRaised(body@),
        }
    }
}

impl Clone for Event {
    fn clone(&self) -> (r: Self)
        ensures
            r@ == self@,
    {
        match self {
            Event::RewardEmitted(body) => Event::RewardEmitted(body.clone()),
            Event::LowPoolWarningRaised(body) => Event::LowPoolWarningRaised(body.clone()),
        }
    }
}

impl EventView {
    /// The name under which the event is published.
    pub open spec fn event_type(self) -> Seq<char> {
        match self {
            EventView::RewardEmitted(_) => "reward.emitted"@,
            EventView::LowPoolWarningRaised(_) => "low.pool.warning.raised"@,
        }
    }
}

impl Event {
    /// The name under which the event is published.
    pub fn event_type(&self) -> (r: &'static str)
        ensures
            r@ == self@.event_type(),
    {
        match self {
            Event::RewardEmitted(_) => "reward.emitted",
            Event::LowPoolWarningRaised(_) => "low.pool.warning.raised",
        }
    }
}

/// A command of this context, with its payload read.
pub enum Request {
    /// An [`EmitRewardCmd`].
    EmitRewardCmd(EmitRewardCmd),
    /// A [`RaiseLowPoolWarningCmd`].
    RaiseLowPoolWarningCmd(RaiseLowPoolWarningCmd),
}

/// What a [`Request`] says.
#[verifier::ext_equal]
pub enum RequestView {
    EmitRewardCmd(EmitRewardCmdView),
    RaiseLowPoolWarningCmd(RaiseLowPoolWarningCmdView),
}

impl View for Request {
    type V = RequestView;

    open spec fn view(&self) -> RequestView {
        match self {
            Request::EmitRewardCmd(body) => RequestView::EmitRewardCmd(body@),
            Request::RaiseLowPoolWarningCmd(body) => RequestView::RaiseLowPoolWarningCmd(body@),
        }
    }
}

/// The EmissionPool aggregate: the $MADE reward budget a season draws down, and
/// its low-pool early-warning signal.
#[derive(Debug)]
pub struct EmissionPool {
    id: String,
    root: AggregateRoot<Event>,
    /// The $MADE remaining in the pool; an emission may never exceed it.
    remaining_balance: u64,
    /// Whether the pool's emission schedule matches the mandated season schedule
    /// (Season 1 = 30M, each later season halved per schedule).
    emission_schedule_valid: bool,
    /// Whether the low-pool warning is configured to raise at 80% depletion
    /// (advance notice), rather than at exhaustion.
    low_pool_warning_valid: bool,
    /// Whether the governance gate is resolved: a later season cannot open until
    /// the prior season's drain is understood.
    governance_schedule_valid: bool,
}

/// What an [`EmissionPool`] says.
#[verifier::ext_equal]
pub struct EmissionPoolView {
    pub id: Seq<char>,
    pub events: Seq<EventView>,
    pub remaining_balance: u64,
    pub emission_schedule_valid: bool,
    pub low_pool_warning_valid: bool,
    pub governance_schedule_valid: bool,
}

impl View for EmissionPool {
    type V = EmissionPoolView;

    closed spec fn view(&self) -> EmissionPoolView {
        EmissionPoolView {
            id: self.id@,
            events: self.root@,
            remaining_balance: self.remaining_balance,
            emission_schedule_valid: self.emission_schedule_valid,
            low_pool_warning_valid: self.low_pool_warning_valid,
            governance_schedule_valid: self.governance_schedule_valid,
        }
    }
}

impl EmissionPoolView {
    /// The message where the emission schedule is not the mandated one.
    pub open spec fn schedule_fault(self) -> Option<Seq<char>> {
        if !self.emission_schedule_valid {
            Some(
                "emission pool '"@ + self.id
                    + "' emission schedule does not match the mandated season schedule (Season 1 opens with a 30M pool; each subsequent season halves per the prior schedule)"@,
            )
        } else {
            None
        }
    }

    /// The message where an amount exceeds the remaining balance.
    pub open spec fn balance_fault(self, amount: u64) -> Option<Seq<char>> {
        if amount > self.remaining_balance {
            Some(
                "emission pool '"@ + self.id + "' cannot emit "@ + text::decimal(amount as int)
                    + " $MADE; the pool can never emit more than its remaining balance of "@
                    + text::decimal(self.remaining_balance as int),
            )
        } else {
            None
        }
    }

    /// The message where nothing is left in the pool.
    pub open spec fn solvency_fault(self) -> Option<Seq<char>> {
        if self.remaining_balance == 0 {
            Some(
                "emission pool '"@ + self.id
                    + "' has no remaining balance; the pool can never emit more than its remaining balance"@,
            )
        } else {
            None
        }
    }

    /// The message where the low-pool warning is misconfigured.
    pub open spec fn warning_fault(self) -> Option<Seq<char>> {
        if !self.low_pool_warning_valid {
            Some(
                "emission pool '"@ + self.id
                    + "' low-pool warning is misconfigured; the 50% low-pool warning must be raised at 80% depletion (advance notice), not at exhaustion"@,
            )
        } else {
            None
        }
    }

    /// The message where the governance gate is unresolved.
    pub open spec fn governance_fault(self) -> Option<Seq<char>> {
        if !self.governance_schedule_valid {
            Some(
                "emission pool '"@ + self.id
                    + "' governance gate is unresolved; pool size is a governance-adjustable parameter and a later season cannot open until the prior season's drain is understood"@,
            )
        } else {
            None
        }
    }

    /// The message of the first rule that refuses an [`EmitRewardCmd`], if one does.
    pub open spec fn emit_reward_fault(
        self,
        cmd: EmitRewardCmdView,
    ) -> Option<Seq<char>> {
        if text::is_blank_text(cmd.pool_id) {
            Some("emission pool '"@ + self.id + "' requires a valid poolId to emit a reward"@)
        } else if text::is_blank_text(cmd.recipient_id) {
            Some(
                "emission pool '"@ + self.id + "' requires a valid recipientId to emit a reward"@,
            )
        } else if cmd.amount == 0 {
            Some("emission pool '"@ + self.id + "' requires a positive amount to emit a reward"@)
        } else if cmd.pool_id != self.id {
            Some(
                "command targets emission pool '"@ + cmd.pool_id
                    + "' but this aggregate is emission pool '"@ + self.id + "'"@,
            )
        } else {
            shared::first(
                self.schedule_fault(),
                shared::first(
                    self.balance_fault(cmd.amount),
                    shared::first(self.warning_fault(), self.governance_fault()),
                ),
            )
        }
    }

    /// The state after an [`EmitRewardCmd`], and the answer to it.
    pub open spec fn emit_reward(self, cmd: EmitRewardCmdView) -> (
        EmissionPoolView,
        Reply<EventView>,
    ) {
        match self.emit_reward_fault(cmd) {
            Some(message) => (self, shared::violation(message)),
            None => {
                let event = EventView::RewardEmitted(RewardEmittedView {
                    pool_id: cmd.pool_id,
                    recipient_id: cmd.recipient_id,
                    amount: cmd.amount,
                    remaining_balance: (self.remaining_balance - cmd.amount) as u64,
                });
                (
                    EmissionPoolView {
                        remaining_balance: (self.remaining_balance - cmd.amount) as u64,
                        events: self.events.push(event),
                        ..self
                    },
                    Ok(seq![event]),
                )
            },
        }
    }

    /// The message of the first rule that refuses a [`RaiseLowPoolWarningCmd`], if one does.
    pub open spec fn raise_low_pool_warning_fault(
        self,
        cmd: RaiseLowPoolWarningCmdView,
    ) -> Option<Seq<char>> {
        if text::is_blank_text(cmd.pool_id) {
            Some(
                "emission pool '"@ + self.id
                    + "' requires a valid poolId to raise a low-pool warning"@,
            )
        } else if cmd.depletion_pct > 100 {
            Some(
                "emission pool '"@ + self.id
                    + "' requires a depletionPct in the range 0..=100 to raise a low-pool warning, got "@
                    + text::decimal(cmd.depletion_pct as int),
            )
        } else if cmd.pool_id != self.id {
            Some(
                "command targets emission pool '"@ + cmd.pool_id
                    + "' but this aggregate is emission pool '"@ + self.id + "'"@,
            )
        } else {
            shared::first(
                self.schedule_fault(),
                shared::first(
                    self.solvency_fault(),
                    shared::first(self.warning_fault(), self.governance_fault()),
                ),
            )
        }
    }

    /// The state after a [`RaiseLowPoolWarningCmd`], and the answer to it.
    pub open spec fn raise_low_pool_warning(self, cmd: RaiseLowPoolWarningCmdView) -> (
        EmissionPoolView,
        Reply<EventView>,
    ) {
        match self.raise_low_pool_warning_fault(cmd) {
            Some(message) => (self, shared::violation(message)),
            None => {
                let event = EventView::LowPoolWarningRaised(LowPoolWarningRaisedView {
                    pool_id: cmd.pool_id,
                    depletion_pct: cmd.depletion_pct,
                });
                (EmissionPoolView { events: self.events.push(event), ..self }, Ok(seq![event]))
            },
        }
    }

    /// The state after a command, and the answer to it.
    pub open spec fn execute(self, command: CommandView<PayloadView<RequestView>>) -> (
        EmissionPoolView,
        Reply<EventView>,
    ) {
        if command.name == EmitRewardCmd::COMMAND@ {
            match command.payload {
                PayloadView::Decoded(RequestView::EmitRewardCmd(cmd)) => self.emit_reward(cmd),
                PayloadView::Decoded(_) => (
                    self,
                    shared::malformed_reply(EmitRewardCmd::COMMAND@, OTHER_COMMAND@),
                ),
                PayloadView::Malformed(complaint) => (
                    self,
                    shared::malformed_reply(EmitRewardCmd::COMMAND@, complaint),
                ),
            }
        } else if command.name == RaiseLowPoolWarningCmd::COMMAND@ {
            match command.payload {
                PayloadView::Decoded(RequestView::RaiseLowPoolWarningCmd(cmd)) => {
                    self.raise_low_pool_warning(cmd)
                },
                PayloadView::Decoded(_) => (
                    self,
                    shared::malformed_reply(RaiseLowPoolWarningCmd::COMMAND@, OTHER_COMMAND@),
                ),
                PayloadView::Malformed(complaint) => (
                    self,
                    shared::malformed_reply(RaiseLowPoolWarningCmd::COMMAND@, complaint),
                ),
            }
        } else {
            (self, shared::unknown(AGGREGATE_TYPE@, command.name))
        }
    }
}

impl EmissionPool {
    /// The name of the aggregate type.
    pub fn aggregate_type() -> (r: &'static str)
        ensures
            r@ == AGGREGATE_TYPE@,
    {
        AGGREGATE_TYPE
    }

    /// Creates an emission-ready pool identified by `id`: fully funded at the
    /// Season 1 pool of 30M $MADE, with a valid emission schedule, a correctly
    /// configured low-pool warning, and a resolved governance gate.
    pub fn new(id: &str) -> (r: Self)
        ensures
            r@ == (EmissionPoolView {
                id: id@,
                events: Seq::empty(),
                remaining_balance: SEASON_ONE_POOL,
                emission_schedule_valid: true,
                low_pool_warning_valid: true,
                governance_schedule_valid: true,
            }),
    {
        EmissionPool {
            id: id.to_owned(),
            root: AggregateRoot::new(),
            remaining_balance: SEASON_ONE_POOL,
            emission_schedule_valid: true,
            low_pool_warning_valid: true,
            governance_schedule_valid: true,
        }
    }

    /// This aggregate's identity.
    pub fn id(&self) -> (r: &str)
        ensures
            r@ == self@.id,
    {
        self.id.as_str()
    }

    /// The version: the number of events recorded.
    pub fn version(&self) -> (r: u64)
        ensures
            r == self@.events.len(),
    {
        self.root.version()
    }

    /// The events recorded and not yet persisted.
    pub fn uncommitted_events(&self) -> (r: &[Event])
        ensures
            shared::views(r@) == self@.events,
    {
        self.root.uncommitted_events()
    }

    /// Emission-schedule invariant: Season 1 opens with a 30M pool and each
    /// subsequent season's pool follows the mandated halving schedule.
    fn ensure_emission_schedule_valid(&self) -> (r: Result<(), DomainError>)
        ensures
            shared::broken(r) == shared::owed(self@.schedule_fault()),
    {
        if !self.emission_schedule_valid {
            return shared::refuse(
                text::cat3(
                    "emission pool '", &self.id,
                    "' emission schedule does not match the mandated season schedule (Season 1 opens with a 30M pool; each subsequent season halves per the prior schedule)",
                ),
            );
        }
        Ok(())
    }

    /// Balance invariant: the pool can never emit more than its remaining balance.
    fn ensure_within_remaining_balance(&self, amount: u64) -> (r: Result<(), DomainError>)
        ensures
            shared::broken(r) == shared::owed(self@.balance_fault(amount)),
    {
        if amount > self.remaining_balance {
            return shared::refuse(
                text::cat6(
                    "emission pool '", &self.id, "' cannot emit ", &text::show(amount),
                    " $MADE; the pool can never emit more than its remaining balance of ",
                    &text::show(self.remaining_balance),
                ),
            );
        }
        Ok(())
    }

    /// Balance invariant for a low-pool warning: the pool can never emit more than
    /// its remaining balance, so a warning raised on an insolvent pool (no
    /// remaining balance to back further emissions) is rejected.
    fn ensure_pool_solvent(&self) -> (r: Result<(), DomainError>)
        ensures
            shared::broken(r) == shared::owed(self@.solvency_fault()),
    {
        if self.remaining_balance == 0 {
            return shared::refuse(
                text::cat3(
                    "emission pool '", &self.id,
                    "' has no remaining balance; the pool can never emit more than its remaining balance",
                ),
            );
        }
        Ok(())
    }

    /// Low-pool-warning invariant: the 50% warning must be raised at 80% depletion
    /// (advance notice), not at exhaustion.
    fn ensure_low_pool_warning_valid(&self) -> (r: Result<(), DomainError>)
        ensures
            shared::broken(r) == shared::owed(self@.warning_fault()),
    {
        if !self.low_pool_warning_valid {
            return shared::refuse(
                text::cat3(
                    "emission pool '", &self.id,
                    "' low-pool warning is misconfigured; the 50% low-pool warning must be raised at 80% depletion (advance notice), not at exhaustion",
                ),
            );
        }
        Ok(())
    }

    /// Governance invariant: pool size is a governance-adjustable parameter and a
    /// later season cannot open until the prior season's drain is understood.
    fn ensure_governance_schedule_valid(&self) -> (r: Result<(), DomainError>)
        ensures
            shared::broken(r) == shared::owed(self@.governance_fault()),
    {
        if !self.governance_schedule_valid {
            return shared::refuse(
                text::cat3(
                    "emission pool '", &self.id,
                    "' governance gate is unresolved; pool size is a governance-adjustable parameter and a later season cannot open until the prior season's drain is understood",
                ),
            );
        }
        Ok(())
    }

    /// Handles an emission: the command must carry this pool, a recipient and a
    /// positive amount, and every invariant must hold. The amount is deducted from
    /// the remaining balance.
    fn emit_reward(&mut self, cmd: EmitRewardCmd) -> (r: Result<
        Vec<Event>,
        DomainError,
    >)
        ensures
            final(self)@ == old(self)@.emit_reward(cmd@).0,
            shared::reply(r) == old(self)@.emit_reward(cmd@).1,
    {
        if text::is_blank(&cmd.pool_id) {
            return shared::refuse(
                text::cat3(
                    "emission pool '", &self.id, "' requires a valid poolId to emit a reward",
                ),
            );
        }
        if text::is_blank(&cmd.recipient_id) {
            return shared::refuse(
                text::cat3(
                    "emission pool '", &self.id, "' requires a valid recipientId to emit a reward",
                ),
            );
        }
        if cmd.amount == 0 {
            return shared::refuse(
                text::cat3(
                    "emission pool '", &self.id, "' requires a positive amount to emit a reward",
                ),
            );
        }
        if !text::same(&cmd.pool_id, &self.id) {
            return shared::refuse(
                text::cat5(
                    "command targets emission pool '", &cmd.pool_id,
                    "' but this aggregate is emission pool '", &self.id, "'",
                ),
            );
        }
        if let Err(error) = self.ensure_emission_schedule_valid() {
            return Err(error);
        }
        if let Err(error) = self.ensure_within_remaining_balance(cmd.amount) {
            return Err(error);
        }
        if let Err(error) = self.ensure_low_pool_warning_valid() {
            return Err(error);
        }
        if let Err(error) = self.ensure_governance_schedule_valid() {
            return Err(error);
        }
        // The ceiling check above guarantees this never underflows.
        self.remaining_balance -= cmd.amount;
        let event = Event::RewardEmitted(
            RewardEmitted {
                pool_id: cmd.pool_id,
                recipient_id: cmd.recipient_id,
                amount: cmd.amount,
                remaining_balance: self.remaining_balance,
            },
        );
        self.root.record(event.clone());
        Ok(shared::only(event))
    }

    /// Handles a warning: the command must carry this pool and a depletion in
    /// range, and every invariant must hold.
    fn raise_low_pool_warning(&mut self, cmd: RaiseLowPoolWarningCmd) -> (r: Result<
        Vec<Event>,
        DomainError,
    >)
        ensures
            final(self)@ == old(self)@.raise_low_pool_warning(cmd@).0,
            shared::reply(r) == old(self)@.raise_low_pool_warning(cmd@).1,
    {
        if text::is_blank(&cmd.pool_id) {
            return shared::refuse(
                text::cat3(
                    "emission pool '", &self.id,
                    "' requires a valid poolId to raise a low-pool warning",
                ),
            );
        }
        if cmd.depletion_pct > 100 {
            return shared::refuse(
                text::cat4(
                    "emission pool '", &self.id,
                    "' requires a depletionPct in the range 0..=100 to raise a low-pool warning, got ",
                    &text::show(cmd.depletion_pct as u64),
                ),
            );
        }
        if !text::same(&cmd.pool_id, &self.id) {
            return shared::refuse(
                text::cat5(
                    "command targets emission pool '", &cmd.pool_id,
                    "' but this aggregate is emission pool '", &self.id, "'",
                ),
            );
        }
        if let Err(error) = self.ensure_emission_schedule_valid() {
            return Err(error);
        }
        if let Err(error) = self.ensure_pool_solvent() {
            return Err(error);
        }
        if let Err(error) = self.ensure_low_pool_warning_valid() {
            return Err(error);
        }
        if let Err(error) = self.ensure_governance_schedule_valid() {
            return Err(error);
        }
        let event = Event::LowPoolWarningRaised(
            LowPoolWarningRaised {
                pool_id: cmd.pool_id,
                depletion_pct: cmd.depletion_pct,
            },
        );
        self.root.record(event.clone());
        Ok(shared::only(event))
    }

    /// Carries out a command, or says why it is refused.
    pub fn execute(&mut self, command: Command<Payload<Request>>) -> (r: Result<
        Vec<Event>,
        DomainError,
    >)
        ensures
            final(self)@ == old(self)@.execute(command@).0,
            shared::reply(r) == old(self)@.execute(command@).1,
    {
        if text::same(&command.name, EmitRewardCmd::COMMAND) {
            match command.payload {
                Payload::Decoded(Request::EmitRewardCmd(cmd)) => self.emit_reward(cmd),
                Payload::Decoded(_) => shared::malformed(EmitRewardCmd::COMMAND, OTHER_COMMAND),
                Payload::Malformed(complaint) => {
                    shared::malformed(EmitRewardCmd::COMMAND, &complaint)
                },
            }
        } else if text::same(&command.name, RaiseLowPoolWarningCmd::COMMAND) {
            match command.payload {
                Payload::Decoded(Request::RaiseLowPoolWarningCmd(cmd)) => {
                    self.raise_low_pool_warning(cmd)
                },
                Payload::Decoded(_) => {
                    shared::malformed(RaiseLowPoolWarningCmd::COMMAND, OTHER_COMMAND)
                },
                Payload::Malformed(complaint) => {
                    shared::malformed(RaiseLowPoolWarningCmd::COMMAND, &complaint)
                },
            }
        } else {
            Err(DomainError::unknown_command(AGGREGATE_TYPE, command.name))
        }
    }

    /// The $MADE remaining in the pool.
    pub fn remaining_balance(&self) -> (r: u64)
        ensures
            r == self@.remaining_balance,
    {
        self.remaining_balance
    }

    /// Sets the pool's remaining balance (used to model a depleted or partially
    /// drained pool).
    pub fn set_remaining_balance(&mut self, balance: u64)
        ensures
            final(self)@ == (EmissionPoolView {
                remaining_balance: balance,
                ..old(self)@
            }),
    {
        self.remaining_balance = balance;
    }

    /// Records whether the pool's emission schedule matches the mandated season
    /// schedule (`false` models a pool whose schedule diverges from the 30M Season
    /// 1 / halving progression).
    pub fn set_emission_schedule_valid(&mut self, valid: bool)
        ensures
            final(self)@ == (EmissionPoolView {
                emission_schedule_valid: valid,
                ..old(self)@
            }),
    {
        self.emission_schedule_valid = valid;
    }

    /// Records whether the low-pool warning threshold is configured correctly
    /// (`false` models a warning raised at exhaustion instead of at 80% depletion).
    pub fn set_low_pool_warning_valid(&mut self, valid: bool)
        ensures
            final(self)@ == (EmissionPoolView {
                low_pool_warning_valid: valid,
                ..old(self)@
            }),
    {
        self.low_pool_warning_valid = valid;
    }

    /// Records whether the governance gate is resolved (`false` models a pool whose
    /// next season cannot open because the prior drain is not understood).
    pub fn set_governance_schedule_valid(&mut self, valid: bool)
        ensures
            final(self)@ == (EmissionPoolView {
                governance_schedule_valid: valid,
                ..old(self)@
            }),
    {
        self.governance_schedule_valid = valid;
    }
}

/// The repository port of the [`EmissionPool`] aggregate: an adapter implements
/// [`Repository`] for it and then this marker.
pub trait EmissionPoolRepository: Repository<EmissionPool> {

}

impl EmissionPoolView {
    /// A refused command changes nothing: neither the state nor the events.
    pub proof fn law_refusal_changes_nothing(
        self,
        command: CommandView<PayloadView<RequestView>>,
    )
        ensures
            self.execute(command).1 is Err ==> self.execute(command).0 == self,
    {
    }

    /// An accepted command records exactly the events it answers with, behind
    /// those recorded before.
    pub proof fn law_events_are_recorded(self, command: CommandView<PayloadView<RequestView>>)
        ensures
            self.execute(command).1 matches Ok(events) ==> {
                &&& events.len() == 1
                &&& self.execute(command).0.events == self.events + events
            },
    {
        if let Ok(events) = self.execute(command).1 {
            assert(self.execute(command).0.events =~= self.events + events);
        }
    }

    /// What an emission gives out it takes from the pool, and the pool never emits
    /// more than it holds.
    pub proof fn law_emission_conserves(self, cmd: EmitRewardCmdView)
        requires
            self.emit_reward(cmd).1 is Ok,
        ensures
            0 < cmd.amount <= self.remaining_balance,
            self.emit_reward(cmd).0.remaining_balance + cmd.amount == self.remaining_balance,
            self.emit_reward(cmd).1 == Ok::<Seq<EventView>, DomainErrorView>(
                seq![
                    EventView::RewardEmitted(
                        RewardEmittedView {
                            pool_id: self.id,
                            recipient_id: cmd.recipient_id,
                            amount: cmd.amount,
                            remaining_balance: self.emit_reward(cmd).0.remaining_balance,
                        },
                    ),
                ],
            ),
    {
    }

    /// A reward is emitted exactly where the command names the pool, a recipient
    /// and an amount from one up to what is left, and the invariants hold.
    pub proof fn law_emission_is_owed(self, cmd: EmitRewardCmdView)
        ensures
            self.emit_reward(cmd).1 is Ok <==> {
                &&& cmd.pool_id == self.id
                &&& !text::is_blank_text(cmd.pool_id)
                &&& !text::is_blank_text(cmd.recipient_id)
                &&& 0 < cmd.amount <= self.remaining_balance
                &&& self.emission_schedule_valid
                &&& self.low_pool_warning_valid
                &&& self.governance_schedule_valid
            },
    {
    }

    /// A warning is raised exactly where the command names the pool and a
    /// percentage, something is left and the invariants hold.
    pub proof fn law_warning_is_owed(self, cmd: RaiseLowPoolWarningCmdView)
        ensures
            self.raise_low_pool_warning(cmd).1 is Ok <==> {
                &&& cmd.pool_id == self.id
                &&& !text::is_blank_text(cmd.pool_id)
                &&& cmd.depletion_pct <= 100
                &&& self.remaining_balance > 0
                &&& self.emission_schedule_valid
                &&& self.low_pool_warning_valid
                &&& self.governance_schedule_valid
            },
    {
    }

    /// No command adds to the pool, and a warning takes nothing from it.
    pub proof fn law_balance_never_grows(
        self,
        command: CommandView<PayloadView<RequestView>>,
        warning: RaiseLowPoolWarningCmdView,
    )
        ensures
            self.execute(command).0.remaining_balance <= self.remaining_balance,
            self.raise_low_pool_warning(warning).0.remaining_balance == self.remaining_balance,
    {
    }

    /// The state after a sequence of commands, accepted and refused ones alike.
    pub open spec fn after(
        self,
        commands: Seq<CommandView<PayloadView<RequestView>>>,
    ) -> EmissionPoolView
        decreases commands.len(),
    {
        if commands.len() == 0 {
            self
        } else {
            self.after(commands.drop_last()).execute(commands.last()).0
        }
    }

    /// What an accepted command gives out: the amount of a reward, and nothing for
    /// any other command.
    pub open spec fn given_out(self, command: CommandView<PayloadView<RequestView>>) -> nat {
        match (self.execute(command).1, command.payload) {
            (Ok(_), PayloadView::Decoded(RequestView::EmitRewardCmd(cmd))) => cmd.amount as nat,
            _ => 0,
        }
    }

    /// What the accepted commands of a sequence give out together.
    pub open spec fn total_given_out(
        self,
        commands: Seq<CommandView<PayloadView<RequestView>>>,
    ) -> nat
        decreases commands.len(),
    {
        if commands.len() == 0 {
            0
        } else {
            self.total_given_out(commands.drop_last()) + self.after(
                commands.drop_last(),
            ).given_out(commands.last())
        }
    }

    /// Emissions add up: whatever sequence of commands comes, what it gives out is
    /// what the pool loses, so it never gives out more than the pool held.
    pub proof fn law_emissions_add_up(self, commands: Seq<CommandView<PayloadView<RequestView>>>)
        ensures
            self.after(commands).remaining_balance + self.total_given_out(commands)
                == self.remaining_balance,
            self.total_given_out(commands) <= self.remaining_balance,
        decreases commands.len(),
    {
        if commands.len() > 0 {
            self.law_emissions_add_up(commands.drop_last());
        }
    }

    /// The amount that an event gives out.
    pub open spec fn amount_of(event: EventView) -> nat {
        match event {
            EventView::RewardEmitted(emitted) => emitted.amount as nat,
            _ => 0,
        }
    }

    /// The amount that a log of events gives out.
    pub open spec fn emitted(events: Seq<EventView>) -> nat
        decreases events.len(),
    {
        if events.len() == 0 {
            0
        } else {
            Self::emitted(events.drop_last()) + Self::amount_of(events.last())
        }
    }

    /// The recorded events account for the balance: under every command the balance
    /// and what the recorded events gave out keep their sum.
    pub proof fn law_events_account_for_balance(
        self,
        command: CommandView<PayloadView<RequestView>>,
    )
        ensures
            self.execute(command).0.remaining_balance + Self::emitted(
                self.execute(command).0.events,
            ) == self.remaining_balance + Self::emitted(self.events),
    {
        let after = self.execute(command).0;
        if self.execute(command).1 is Ok {
            assert(after.events.drop_last() =~= self.events);
        }
    }
}

impl EmissionPoolView {
    /// Every command goes to its own handler, a payload that does not read is
    /// refused with the complaint about it, and a name that is none of these is
    /// unknown; what is refused otherwise is refused for a broken rule.
    pub proof fn law_commands_are_routed(self, command: CommandView<PayloadView<RequestView>>)
        ensures
            command.name == "EmitRewardCmd"@ ==> match command.payload {
                PayloadView::Decoded(RequestView::EmitRewardCmd(cmd)) => self.execute(command)
                    == self.emit_reward(cmd),
                PayloadView::Decoded(_) => self.execute(command).1 is Err,
                PayloadView::Malformed(complaint) => self.execute(command).1 == shared::violation::<
                    EventView,
                >("malformed "@ + "EmitRewardCmd"@ + " payload: "@ + complaint),
            },
            command.name == "RaiseLowPoolWarningCmd"@ ==> match command.payload {
                PayloadView::Decoded(RequestView::RaiseLowPoolWarningCmd(cmd)) =>
                    self.execute(command)
                    == self.raise_low_pool_warning(cmd),
                PayloadView::Decoded(_) => self.execute(command).1 is Err,
                PayloadView::Malformed(complaint) => self.execute(command).1 == shared::violation::<
                    EventView,
                >("malformed "@ + "RaiseLowPoolWarningCmd"@ + " payload: "@ + complaint),
            },
            ({
                &&& command.name != "EmitRewardCmd"@
                &&& command.name != "RaiseLowPoolWarningCmd"@
            }) ==> self.execute(command).1 == Err::<
                Seq<EventView>,
                shared::DomainErrorView,
            >(
                shared::DomainErrorView::UnknownCommand {
                    aggregate: "EmissionPool"@,
                    command: command.name,
                },
            ),
            self.execute(command).1 matches Err(error) ==> (error is InvariantViolation <==> {
                ||| command.name == "EmitRewardCmd"@
                ||| command.name == "RaiseLowPoolWarningCmd"@
            }),
    {
        reveal_strlit("EmitRewardCmd");
        reveal_strlit("RaiseLowPoolWarningCmd");
        assert("EmitRewardCmd"@.len() == 13);
        assert("RaiseLowPoolWarningCmd"@.len() == 22);
    }

    /// An emission records the pool, the recipient and the amount that were
    /// submitted with what is left, which is the amount less than before; nothing
    /// else changes.
    pub proof fn law_emission_records_the_reward(self, cmd: EmitRewardCmdView)
        requires
            self.emit_reward(cmd).1 is Ok,
        ensures
            ({
                let after = self.emit_reward(cmd).0;
                &&& self.emit_reward(cmd).1 matches Ok(events)
                &&& events.len() == 1
                &&& events[0].event_type() == "reward.emitted"@
                &&& events[0] matches EventView::RewardEmitted(said)
                &&& said.pool_id == cmd.pool_id
                &&& said.recipient_id == cmd.recipient_id
                &&& said.amount == cmd.amount
                &&& said.remaining_balance == after.remaining_balance
                &&& after.remaining_balance + cmd.amount == self.remaining_balance
                &&& after == (EmissionPoolView {
                    remaining_balance: after.remaining_balance,
                    events: self.events.push(events[0]),
                    ..self
                })
            }),
    {
    }

    /// A warning records the pool and the percentage that were submitted; nothing
    /// else changes.
    pub proof fn law_warning_records_the_depletion(self, cmd: RaiseLowPoolWarningCmdView)
        requires
            self.raise_low_pool_warning(cmd).1 is Ok,
        ensures
            ({
                let after = self.raise_low_pool_warning(cmd).0;
                &&& self.raise_low_pool_warning(cmd).1 matches Ok(events)
                &&& events.len() == 1
                &&& events[0].event_type() == "low.pool.warning.raised"@
                &&& events[0] matches EventView::LowPoolWarningRaised(said)
                &&& said.pool_id == cmd.pool_id
                &&& said.depletion_pct == cmd.depletion_pct
                &&& after == (EmissionPoolView {
                    events: self.events.push(events[0]),
                    ..self
                })
            }),
    {
    }
}

impl EmitRewardCmd {
    /// The view leaves nothing out: where two views agree, so does every field.
    pub proof fn law_view_leaves_nothing_out(self, other: EmitRewardCmd)
        requires
            self@ == other@,
        ensures
            self.pool_id@ == other.pool_id@,
            self.recipient_id@ == other.recipient_id@,
            self.amount == other.amount,
    {
    }
}

impl RaiseLowPoolWarningCmd {
    /// The view leaves nothing out: where two views agree, so does every field.
    pub proof fn law_view_leaves_nothing_out(self, other: RaiseLowPoolWarningCmd)
        requires
            self@ == other@,
        ensures
            self.pool_id@ == other.pool_id@,
            self.depletion_pct == other.depletion_pct,
    {
    }
}

impl RewardEmitted {
    /// The view leaves nothing out: where two views agree, so does every field.
    pub proof fn law_view_leaves_nothing_out(self, other: RewardEmitted)
        requires
            self@ == other@,
        ensures
            self.pool_id@ == other.pool_id@,
            self.recipient_id@ == other.recipient_id@,
            self.amount == other.amount,
            self.remaining_balance == other.remaining_balance,
    {
    }
}

impl LowPoolWarningRaised {
    /// The view leaves nothing out: where two views agree, so does every field.
    pub proof fn law_view_leaves_nothing_out(self, other: LowPoolWarningRaised)
        requires
            self@ == other@,
        ensures
            self.pool_id@ == other.pool_id@,
            self.depletion_pct == other.depletion_pct,
    {
    }
}

impl Event {
    /// The view leaves nothing out: where two views agree, so do the variants and
    /// what they carry.
    pub proof fn law_view_leaves_nothing_out(self, other: Event)
        requires
            self@ == other@,
        ensures
            match (self, other) {
                (Event::RewardEmitted(a), Event::RewardEmitted(b)) => a@ == b@,
                (Event::LowPoolWarningRaised(a), Event::LowPoolWarningRaised(b)) => a@ == b@,
                _ => false,
            },
    {
    }
}

impl Request {
    /// The view leaves nothing out: where two views agree, so do the variants and
    /// what they carry.
    pub proof fn law_view_leaves_nothing_out(self, other: Request)
        requires
            self@ == other@,
        ensures
            match (self, other) {
                (Request::EmitRewardCmd(a), Request::EmitRewardCmd(b)) => a@ == b@,
                (Request::RaiseLowPoolWarningCmd(a), Request::RaiseLowPoolWarningCmd(b)) => {
                    a@ == b@
                },
                _ => false,
            },
    {
    }
}

} // verus!
