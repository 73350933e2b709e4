//! A seasonal reward track.
//!
//! A [`BattlePass`] is a single player's seasonal pass whose reward nodes unlock
//! tier by tier as XP is earned. Five invariants govern whether a reward node may
//! be claimed:
//!
//! 1. **XP thresholds monotonic** — XP thresholds are monotonically increasing
//!    across tiers.
//! 2. **Unlock in track order** — reward nodes unlock strictly in track order.
//! 3. **Premium after purchase** — the premium track is claimable only after
//!    purchase.
//! 4. **Cosmetics / credits only** — the pass awards cosmetics and $MADE credits
//!    only, never gameplay power.
//! 5. **Bound to one season** — a pass is bound to a single season and expires
//!    with it.
use crate::shared;
use crate::shared::AggregateRoot;
use crate::shared::Command;
use crate::shared::CommandView;
use crate::shared::DomainError;
use crate::shared::Payload;
use crate::shared::PayloadView;
use crate::shared::Reply;
use crate::shared::Repository;
use crate::text;
use vstd::prelude::*;

verus! {

/// The name of the aggregate type, as errors show it.
pub const AGGREGATE_TYPE: &'static str = "BattlePass";

/// The `ClaimPassRewardCmd` payload: which player is claiming, the season the
/// pass is bound to, and the tier whose reward node is claimed. Field names use
/// the shop service's `camelCase` schema.
#[derive(Debug, PartialEq, Eq)]
pub struct ClaimPassReward {
    /// The player claiming the reward; must be non-empty.
    pub player_id: String,
    /// The season the pass is bound to; must be non-empty and must name this pass's
    /// season.
    pub season_id: String,
    /// The tier whose reward node is being claimed; must be a valid (non-zero)
    /// tier.
    pub tier: u32,
}

/// What a [`ClaimPassReward`] says.
#[verifier::ext_equal]
pub struct ClaimPassRewardView {
    pub player_id: Seq<char>,
    pub season_id: Seq<char>,
    pub tier: u32,
}

impl View for ClaimPassReward {
    type V = ClaimPassRewardView;

    open spec fn view(&self) -> ClaimPassRewardView {
        ClaimPassRewardView {
            player_id: self.player_id@,
            season_id: self.season_id@,
            tier: self.tier,
        }
    }
}

impl Clone for ClaimPassReward {
    fn clone(&self) -> (r: Self)
        ensures
            r@ == self@,
    {
        ClaimPassReward {
            player_id: self.player_id.clone(),
            season_id: self.season_id.clone(),
            tier: self.tier,
        }
    }
}

impl ClaimPassReward {
    /// The name of the command.
    pub const COMMAND: &'static str = "ClaimPassRewardCmd";

    /// Builds a command claiming the reward at `tier` for `player_id` on
    /// `season_id`.
    pub fn new(player_id: &str, season_id: &str, tier: u32) -> (r: Self)
        ensures
            r@ == (ClaimPassRewardView {
                player_id: player_id@,
                season_id: season_id@,
                tier: tier,
            }),
    {
        ClaimPassReward {
            player_id: player_id.to_owned(),
            season_id: season_id.to_owned(),
            tier: tier,
        }
    }

    /// This request as a command, ready to be executed.
    pub fn into_command(&self) -> (r: Command<Payload<ClaimPassReward>>)
        ensures
            r@ == (CommandView {
                name: Self::COMMAND@,
                payload: PayloadView::Decoded(self@),
            }),
    {
        let request = self.clone();
        Command::with_payload(Self::COMMAND, Payload::Decoded(request))
    }
}

/// The reward node that was claimed, carried by [`Event::PassRewardClaimed`]
/// and thus by the emitted `pass.reward.claimed` event.
#[derive(Debug, PartialEq, Eq)]
pub struct PassRewardClaimed {
    /// The player that claimed the reward.
    pub player_id: String,
    /// The season the pass is bound to.
    pub season_id: String,
    /// The tier whose reward node was claimed.
    pub tier: u32,
}

/// What a [`PassRewardClaimed`] says.
#[verifier::ext_equal]
pub struct PassRewardClaimedView {
    pub player_id: Seq<char>,
    pub season_id: Seq<char>,
    pub tier: u32,
}

impl View for PassRewardClaimed {
    type V = PassRewardClaimedView;

    open spec fn view(&self) -> PassRewardClaimedView {
        PassRewardClaimedView {
            player_id: self.player_id@,
            season_id: self.season_id@,
            tier: self.tier,
        }
    }
}

impl Clone for PassRewardClaimed {
    fn clone(&self) -> (r: Self)
        ensures
            r@ == self@,
    {
        PassRewardClaimed {
            player_id: self.player_id.clone(),
            season_id: self.season_id.clone(),
            tier: self.tier,
        }
    }
}

/// Domain events emitted by [`BattlePass`].
#[derive(Debug, PartialEq, Eq)]
pub enum Event {
    /// A reward node was claimed at a tier for a player.
    PassRewardClaimed(PassRewardClaimed),
}

/// What an [`Event`] says.
#[verifier::ext_equal]
pub enum EventView {
    PassRewardClaimed(PassRewardClaimedView),
}

impl View for Event {
    type V = EventView;

    open spec fn view(&self) -> EventView {
        match self {
            Event::PassRewardClaimed(body) => EventView::PassRewardClaimed(body@),
        }
    }
}

impl Clone for Event {
    fn clone(&self) -> (r: Self)
        ensures
            r@ == self@,
    {
        match self {
            Event::PassRewardClaimed(body) => Event::PassRewardClaimed(body.clone()),
        }
    }
}

impl EventView {
    /// The name under which the event is published.
    pub open spec fn event_type(self) -> Seq<char> {
        match self {
            EventView::PassRewardClaimed(_) => "pass.reward.claimed"@,
        }
    }
}

impl Event {
    /// The name under which the event is published.
    pub fn event_type(&self) -> (r: &'static str)
        ensures
            r@ == self@.event_type(),
    {
        match self {
            Event::PassRewardClaimed(_) => "pass.reward.claimed",
        }
    }
}

/// The BattlePass aggregate: one player's seasonal reward track whose nodes are
/// claimed tier by tier.
///
/// A fresh BattlePass from [`BattlePass::new`] is claimable at its next tier:
/// its XP ladder is monotonic, the premium track is purchased, its rewards are
/// cosmetics / credits only, and its season is active. The configuration
/// methods below drive it to a state a command rejects, exactly as
/// [`CardPack`](crate::card_pack) is built up before a command validates it.
#[derive(Debug)]
pub struct BattlePass {
    id: String,
    root: AggregateRoot<Event>,
    /// The season this pass is bound to. A claim naming a different season is
    /// rejected; the pass is bound to a single season and expires with it.
    season_id: String,
    /// Whether the XP thresholds are monotonically increasing across tiers. `false`
    /// models a tier ladder whose thresholds are out of order.
    xp_thresholds_monotonic: bool,
    /// The next tier eligible to be claimed. Reward nodes unlock strictly in track
    /// order, so a claim must name exactly this tier.
    next_claimable_tier: u32,
    /// Whether the premium track has been purchased. A premium-tier claim on an
    /// unpurchased pass is rejected.
    premium_purchased: bool,
    /// Whether the reward node awards cosmetics / $MADE credits only. `false`
    /// models a node wired to grant gameplay power, which is never allowed.
    awards_cosmetics_or_credits_only: bool,
    /// Whether the bound season is still active (not expired). A claim against an
    /// expired season is rejected.
    season_active: bool,
    /// The first tier that belongs to the premium track. Claims at or above this
    /// tier require [`Self::premium_purchased`].
    premium_track_start: u32,
}

/// What a [`BattlePass`] says.
#[verifier::ext_equal]
pub struct BattlePassView {
    pub id: Seq<char>,
    pub events: Seq<EventView>,
    pub season_id: Seq<char>,
    pub xp_thresholds_monotonic: bool,
    pub next_claimable_tier: u32,
    pub premium_purchased: bool,
    pub awards_cosmetics_or_credits_only: bool,
    pub season_active: bool,
    pub premium_track_start: u32,
}

impl View for BattlePass {
    type V = BattlePassView;

    closed spec fn view(&self) -> BattlePassView {
        BattlePassView {
            id: self.id@,
            events: self.root@,
            season_id: self.season_id@,
            xp_thresholds_monotonic: self.xp_thresholds_monotonic,
            next_claimable_tier: self.next_claimable_tier,
            premium_purchased: self.premium_purchased,
            awards_cosmetics_or_credits_only: self.awards_cosmetics_or_credits_only,
            season_active: self.season_active,
            premium_track_start: self.premium_track_start,
        }
    }
}

impl BattlePassView {
    /// The message where the XP thresholds are out of order.
    pub open spec fn threshold_fault(self) -> Option<Seq<char>> {
        if !self.xp_thresholds_monotonic {
            Some(
                "battle pass '"@ + self.id
                    + "' has non-monotonic XP thresholds; XP thresholds are monotonically increasing across tiers"@,
            )
        } else {
            None
        }
    }

    /// The message where a claim is not for the next tier.
    pub open spec fn order_fault(self, tier: u32) -> Option<Seq<char>> {
        if tier != self.next_claimable_tier {
            Some(
                "battle pass '"@ + self.id + "' cannot claim tier "@ + text::decimal(tier as int)
                    + "; the next claimable tier is "@
                    + text::decimal(self.next_claimable_tier as int)
                    + ", and reward nodes unlock strictly in track order"@,
            )
        } else {
            None
        }
    }

    /// The message where a premium tier is claimed without a purchase.
    pub open spec fn premium_fault(self, tier: u32) -> Option<Seq<char>> {
        if tier >= self.premium_track_start && !self.premium_purchased {
            Some(
                "battle pass '"@ + self.id + "' cannot claim premium tier "@
                    + text::decimal(tier as int)
                    + "; the premium track is claimable only after purchase"@,
            )
        } else {
            None
        }
    }

    /// The message where a node grants gameplay power.
    pub open spec fn payout_fault(self) -> Option<Seq<char>> {
        if !self.awards_cosmetics_or_credits_only {
            Some(
                "battle pass '"@ + self.id
                    + "' reward node grants gameplay power; the pass awards cosmetics and $MADE credits only — never gameplay power"@,
            )
        } else {
            None
        }
    }

    /// The message where the season has expired.
    pub open spec fn season_fault(self) -> Option<Seq<char>> {
        if !self.season_active {
            Some(
                "battle pass '"@ + self.id + "' season '"@ + self.season_id
                    + "' has expired; a pass is bound to a single season and expires with it"@,
            )
        } else {
            None
        }
    }

    /// The message of the first rule that refuses a [`ClaimPassReward`], if one does.
    pub open spec fn claim_pass_reward_fault(
        self,
        cmd: ClaimPassRewardView,
    ) -> Option<Seq<char>> {
        if text::is_blank_text(cmd.player_id) {
            Some("battle pass '"@ + self.id + "' requires a valid playerId to claim a reward"@)
        } else if text::is_blank_text(cmd.season_id) {
            Some("battle pass '"@ + self.id + "' requires a valid seasonId to claim a reward"@)
        } else if cmd.season_id != self.season_id {
            Some(
                "command targets season '"@ + cmd.season_id + "' but battle pass '"@ + self.id
                    + "' is bound to season '"@ + self.season_id
                    + "'; a pass is bound to a single season and expires with it"@,
            )
        } else if cmd.tier == 0 {
            Some(
                "battle pass '"@ + self.id
                    + "' requires a valid (non-zero) tier to claim a reward"@,
            )
        } else {
            shared::first(
                self.threshold_fault(),
                shared::first(
                    self.order_fault(cmd.tier),
                    shared::first(
                        self.premium_fault(cmd.tier),
                        shared::first(self.payout_fault(), self.season_fault()),
                    ),
                ),
            )
        }
    }

    /// The state after a [`ClaimPassReward`], and the answer to it.
    pub open spec fn claim_pass_reward(self, cmd: ClaimPassRewardView) -> (
        BattlePassView,
        Reply<EventView>,
    ) {
        match self.claim_pass_reward_fault(cmd) {
            Some(message) => (self, shared::violation(message)),
            None => {
                let event = EventView::PassRewardClaimed(PassRewardClaimedView {
                    player_id: cmd.player_id,
                    season_id: cmd.season_id,
                    tier: cmd.tier,
                });
                (
                    BattlePassView {
                        next_claimable_tier: (cmd.tier + 1) as u32,
                        events: self.events.push(event),
                        ..self
                    },
                    Ok(seq![event]),
                )
            },
        }
    }

    /// The state after a command, and the answer to it.
    pub open spec fn execute(self, command: CommandView<PayloadView<ClaimPassRewardView>>) -> (
        BattlePassView,
        Reply<EventView>,
    ) {
        if command.name == ClaimPassReward::COMMAND@ {
            match command.payload {
                PayloadView::Decoded(cmd) => self.claim_pass_reward(cmd),
                PayloadView::Malformed(complaint) => (
                    self,
                    shared::malformed_reply(ClaimPassReward::COMMAND@, complaint),
                ),
            }
        } else {
            (self, shared::unknown(AGGREGATE_TYPE@, command.name))
        }
    }

    /// Whether a tier follows the next claimable one.
    pub open spec fn has_tier_left(self) -> bool {
        self.next_claimable_tier < u32::MAX
    }

    /// Whether the track can take the command: only a claim that is not refused
    /// makes it advance.
    pub open spec fn admits(self, command: CommandView<PayloadView<ClaimPassRewardView>>) -> bool {
        command.name == ClaimPassReward::COMMAND@ ==> match command.payload {
            PayloadView::Decoded(cmd) => self.claim_pass_reward_fault(cmd) is None
                ==> self.has_tier_left(),
            _ => true,
        }
    }
}

impl BattlePass {
    /// The name of the aggregate type.
    pub fn aggregate_type() -> (r: &'static str)
        ensures
            r@ == AGGREGATE_TYPE@,
    {
        AGGREGATE_TYPE
    }

    /// Creates a claimable pass identified by `id` and bound to `season_id`: its XP
    /// ladder is monotonic, its next claimable tier is 1, its premium track is
    /// purchased, its rewards are cosmetics / credits only, and its season is
    /// active.
    pub fn new(id: &str, season_id: &str) -> (r: Self)
        ensures
            r@ == (BattlePassView {
                id: id@,
                events: Seq::empty(),
                season_id: season_id@,
                xp_thresholds_monotonic: true,
                next_claimable_tier: 1,
                premium_purchased: true,
                awards_cosmetics_or_credits_only: true,
                season_active: true,
                premium_track_start: 1,
            }),
    {
        BattlePass {
            id: id.to_owned(),
            root: AggregateRoot::new(),
            season_id: season_id.to_owned(),
            xp_thresholds_monotonic: true,
            next_claimable_tier: 1,
            premium_purchased: true,
            awards_cosmetics_or_credits_only: true,
            season_active: true,
            premium_track_start: 1,
        }
    }

    /// This aggregate's identity.
    pub fn id(&self) -> (r: &str)
        ensures
            r@ == self@.id,
    {
        self.id.as_str()
    }

    /// The version: the number of events recorded.
    pub fn version(&self) -> (r: u64)
        ensures
            r == self@.events.len(),
    {
        self.root.version()
    }

    /// The events recorded and not yet persisted.
    pub fn uncommitted_events(&self) -> (r: &[Event])
        ensures
            shared::views(r@) == self@.events,
    {
        self.root.uncommitted_events()
    }

    /// Monotonicity invariant: XP thresholds are monotonically increasing across
    /// tiers.
    fn ensure_xp_thresholds_monotonic(&self) -> (r: Result<(), DomainError>)
        ensures
            shared::broken(r) == shared::owed(self@.threshold_fault()),
    {
        if !self.xp_thresholds_monotonic {
            return shared::refuse(
                text::cat3(
                    "battle pass '", &self.id,
                    "' has non-monotonic XP thresholds; XP thresholds are monotonically increasing across tiers",
                ),
            );
        }
        Ok(())
    }

    /// Track-order invariant: reward nodes unlock strictly in track order, so the
    /// claim must name exactly the next unclaimed tier.
    fn ensure_unlocks_in_track_order(&self, tier: u32) -> (r: Result<(), DomainError>)
        ensures
            shared::broken(r) == shared::owed(self@.order_fault(tier)),
    {
        if tier != self.next_claimable_tier {
            return shared::refuse(
                text::cat7(
                    "battle pass '", &self.id, "' cannot claim tier ", &text::show(tier as u64),
                    "; the next claimable tier is ", &text::show(self.next_claimable_tier as u64),
                    ", and reward nodes unlock strictly in track order",
                ),
            );
        }
        Ok(())
    }

    /// Premium invariant: the premium track is claimable only after purchase.
    fn ensure_premium_claimable(&self, tier: u32) -> (r: Result<(), DomainError>)
        ensures
            shared::broken(r) == shared::owed(self@.premium_fault(tier)),
    {
        if tier >= self.premium_track_start && !self.premium_purchased {
            return shared::refuse(
                text::cat5(
                    "battle pass '", &self.id, "' cannot claim premium tier ",
                    &text::show(tier as u64),
                    "; the premium track is claimable only after purchase",
                ),
            );
        }
        Ok(())
    }

    /// Payout invariant: the pass awards cosmetics and $MADE credits only — never
    /// gameplay power.
    fn ensure_awards_cosmetics_or_credits_only(&self) -> (r: Result<(), DomainError>)
        ensures
            shared::broken(r) == shared::owed(self@.payout_fault()),
    {
        if !self.awards_cosmetics_or_credits_only {
            return shared::refuse(
                text::cat3(
                    "battle pass '", &self.id,
                    "' reward node grants gameplay power; the pass awards cosmetics and $MADE credits only — never gameplay power",
                ),
            );
        }
        Ok(())
    }

    /// Season-binding invariant: a pass is bound to a single season and expires
    /// with it.
    fn ensure_season_active(&self) -> (r: Result<(), DomainError>)
        ensures
            shared::broken(r) == shared::owed(self@.season_fault()),
    {
        if !self.season_active {
            return shared::refuse(
                text::cat5(
                    "battle pass '", &self.id, "' season '", &self.season_id,
                    "' has expired; a pass is bound to a single season and expires with it",
                ),
            );
        }
        Ok(())
    }

    /// Handles a claim: the command must carry a player, this pass's season and a
    /// tier, and the five invariants must hold. The next claimable tier advances.
    fn claim_pass_reward(&mut self, cmd: ClaimPassReward) -> (r: Result<
        Vec<Event>,
        DomainError,
    >)
        requires
            old(self)@.claim_pass_reward_fault(cmd@) is None ==> old(self)@.has_tier_left(),
        ensures
            final(self)@ == old(self)@.claim_pass_reward(cmd@).0,
            shared::reply(r) == old(self)@.claim_pass_reward(cmd@).1,
    {
        if let Err(error) = self.check_claim(&cmd) {
            return Err(error);
        }
        // The next claim must name the following node.
        self.next_claimable_tier = cmd.tier + 1;
        let event = Event::PassRewardClaimed(
            PassRewardClaimed {
                player_id: cmd.player_id,
                season_id: cmd.season_id,
                tier: cmd.tier,
            },
        );
        self.root.record(event.clone());
        Ok(shared::only(event))
    }

    /// Whether a claim would be accepted, or else why it is refused.
    pub fn check_claim(&self, cmd: &ClaimPassReward) -> (r: Result<(), DomainError>)
        ensures
            shared::broken(r) == shared::owed(self@.claim_pass_reward_fault(cmd@)),
    {
        if text::is_blank(&cmd.player_id) {
            return shared::refuse(
                text::cat3(
                    "battle pass '", &self.id, "' requires a valid playerId to claim a reward",
                ),
            );
        }
        if text::is_blank(&cmd.season_id) {
            return shared::refuse(
                text::cat3(
                    "battle pass '", &self.id, "' requires a valid seasonId to claim a reward",
                ),
            );
        }
        if !text::same(&cmd.season_id, &self.season_id) {
            return shared::refuse(
                text::cat7(
                    "command targets season '", &cmd.season_id, "' but battle pass '", &self.id,
                    "' is bound to season '", &self.season_id,
                    "'; a pass is bound to a single season and expires with it",
                ),
            );
        }
        if cmd.tier == 0 {
            return shared::refuse(
                text::cat3(
                    "battle pass '", &self.id,
                    "' requires a valid (non-zero) tier to claim a reward",
                ),
            );
        }
        if let Err(error) = self.ensure_xp_thresholds_monotonic() {
            return Err(error);
        }
        if let Err(error) = self.ensure_unlocks_in_track_order(cmd.tier) {
            return Err(error);
        }
        if let Err(error) = self.ensure_premium_claimable(cmd.tier) {
            return Err(error);
        }
        if let Err(error) = self.ensure_awards_cosmetics_or_credits_only() {
            return Err(error);
        }
        if let Err(error) = self.ensure_season_active() {
            return Err(error);
        }
        Ok(())
    }

    /// Carries out a command, or says why it is refused.
    pub fn execute(&mut self, command: Command<Payload<ClaimPassReward>>) -> (r: Result<
        Vec<Event>,
        DomainError,
    >)
        requires
            old(self)@.admits(command@),
        ensures
            final(self)@ == old(self)@.execute(command@).0,
            shared::reply(r) == old(self)@.execute(command@).1,
    {
        if text::same(&command.name, ClaimPassReward::COMMAND) {
            match command.payload {
                Payload::Decoded(cmd) => self.claim_pass_reward(cmd),
                Payload::Malformed(complaint) => {
                    shared::malformed(ClaimPassReward::COMMAND, &complaint)
                },
            }
        } else {
            Err(DomainError::unknown_command(AGGREGATE_TYPE, command.name))
        }
    }

    /// Whether a tier follows the next claimable one.
    pub fn has_tier_left(&self) -> (r: bool)
        ensures
            r == self@.has_tier_left(),
    {
        self.next_claimable_tier < u32::MAX
    }

    /// The season this pass is bound to.
    pub fn season_id(&self) -> (r: &str)
        ensures
            r@ == self@.season_id,
    {
        self.season_id.as_str()
    }

    /// Records whether the XP thresholds are monotonically increasing across tiers
    /// (`false` models an out-of-order tier ladder).
    pub fn set_xp_thresholds_monotonic(&mut self, ok: bool)
        ensures
            final(self)@ == (BattlePassView {
                xp_thresholds_monotonic: ok,
                ..old(self)@
            }),
    {
        self.xp_thresholds_monotonic = ok;
    }

    /// Sets the next tier eligible to be claimed in track order.
    pub fn set_next_claimable_tier(&mut self, tier: u32)
        ensures
            final(self)@ == (BattlePassView {
                next_claimable_tier: tier,
                ..old(self)@
            }),
    {
        self.next_claimable_tier = tier;
    }

    /// Records whether the premium track has been purchased.
    pub fn set_premium_purchased(&mut self, purchased: bool)
        ensures
            final(self)@ == (BattlePassView {
                premium_purchased: purchased,
                ..old(self)@
            }),
    {
        self.premium_purchased = purchased;
    }

    /// Sets the first tier belonging to the premium track.
    pub fn set_premium_track_start(&mut self, tier: u32)
        ensures
            final(self)@ == (BattlePassView {
                premium_track_start: tier,
                ..old(self)@
            }),
    {
        self.premium_track_start = tier;
    }

    /// Records whether the reward node awards cosmetics / $MADE credits only
    /// (`false` models a node wired to grant gameplay power).
    pub fn set_awards_cosmetics_or_credits_only(&mut self, ok: bool)
        ensures
            final(self)@ == (BattlePassView {
                awards_cosmetics_or_credits_only: ok,
                ..old(self)@
            }),
    {
        self.awards_cosmetics_or_credits_only = ok;
    }

    /// Records whether the bound season is still active (`false` models an expired
    /// season).
    pub fn set_season_active(&mut self, active: bool)
        ensures
            final(self)@ == (BattlePassView {
                season_active: active,
                ..old(self)@
            }),
    {
        self.season_active = active;
    }
}

/// The repository port of the [`BattlePass`] aggregate: an adapter implements
/// [`Repository`] for it and then this marker.
pub trait BattlePassRepository: Repository<BattlePass> {

}

impl BattlePassView {
    /// A refused command changes nothing: neither the state nor the events.
    pub proof fn law_refusal_changes_nothing(
        self,
        command: CommandView<PayloadView<ClaimPassRewardView>>,
    )
        ensures
            self.execute(command).1 is Err ==> self.execute(command).0 == self,
    {
    }

    /// An accepted command records exactly the events it answers with, behind
    /// those recorded before.
    pub proof fn law_events_are_recorded(
        self,
        command: CommandView<PayloadView<ClaimPassRewardView>>,
    )
        ensures
            self.execute(command).1 matches Ok(events) ==> {
                &&& events.len() == 1
                &&& self.execute(command).0.events == self.events + events
            },
    {
        if let Ok(events) = self.execute(command).1 {
            assert(self.execute(command).0.events =~= self.events + events);
        }
    }

    /// Reward nodes unlock strictly in track order: a claim is accepted only for
    /// the next tier, and then the one after it is next.
    pub proof fn law_claims_follow_the_track(self, cmd: ClaimPassRewardView)
        requires
            self.has_tier_left(),
            self.claim_pass_reward(cmd).1 is Ok,
        ensures
            cmd.tier == self.next_claimable_tier,
            self.claim_pass_reward(cmd).0.next_claimable_tier == self.next_claimable_tier + 1,
    {
    }

    /// A reward is claimed exactly where the command names a player, the season and
    /// the next tier, and the invariants hold.
    pub proof fn law_claim_is_owed(self, cmd: ClaimPassRewardView)
        ensures
            self.claim_pass_reward(cmd).1 is Ok <==> {
                &&& !text::is_blank_text(cmd.player_id)
                &&& !text::is_blank_text(cmd.season_id)
                &&& cmd.season_id == self.season_id
                &&& cmd.tier != 0
                &&& self.xp_thresholds_monotonic
                &&& cmd.tier == self.next_claimable_tier
                &&& cmd.tier >= self.premium_track_start ==> self.premium_purchased
                &&& self.awards_cosmetics_or_credits_only
                &&& self.season_active
            },
    {
    }

    /// The state after a sequence of commands, accepted and refused ones alike.
    pub open spec fn after(
        self,
        commands: Seq<CommandView<PayloadView<ClaimPassRewardView>>>,
    ) -> BattlePassView
        decreases commands.len(),
    {
        if commands.len() == 0 {
            self
        } else {
            self.after(commands.drop_last()).execute(commands.last()).0
        }
    }

    /// Whether the track has room for every command of a sequence as it comes.
    pub open spec fn admits_all(
        self,
        commands: Seq<CommandView<PayloadView<ClaimPassRewardView>>>,
    ) -> bool
        decreases commands.len(),
    {
        commands.len() > 0 ==> self.admits_all(commands.drop_last()) && self.after(
            commands.drop_last(),
        ).admits(commands.last())
    }

    /// The next claimable tier never falls, and a tier below it is refused.
    pub proof fn law_track_never_goes_back(
        self,
        command: CommandView<PayloadView<ClaimPassRewardView>>,
        claim: ClaimPassRewardView,
    )
        requires
            self.admits(command),
        ensures
            self.next_claimable_tier <= self.execute(command).0.next_claimable_tier,
            claim.tier < self.next_claimable_tier ==> self.claim_pass_reward(claim).1 is Err,
    {
    }

    /// No sequence of commands makes the next claimable tier fall.
    pub proof fn law_track_is_never_undone(
        self,
        commands: Seq<CommandView<PayloadView<ClaimPassRewardView>>>,
    )
        requires
            self.admits_all(commands),
        ensures
            self.next_claimable_tier <= self.after(commands).next_claimable_tier,
        decreases commands.len(),
    {
        if commands.len() > 0 {
            self.law_track_is_never_undone(commands.drop_last());
        }
    }

    /// No tier is claimed twice, whatever commands came between.
    pub proof fn law_tier_is_claimed_once(
        self,
        first: ClaimPassRewardView,
        between: Seq<CommandView<PayloadView<ClaimPassRewardView>>>,
        second: ClaimPassRewardView,
    )
        requires
            self.has_tier_left(),
            self.claim_pass_reward(first).1 is Ok,
            self.claim_pass_reward(first).0.admits_all(between),
            second.tier == first.tier,
        ensures
            self.claim_pass_reward(first).0.after(between).claim_pass_reward(second).1 is Err,
    {
        self.claim_pass_reward(first).0.law_track_is_never_undone(between);
    }

    /// A premium tier is claimed only after purchase, and any tier only while the
    /// season is active.
    pub proof fn law_claims_are_lawful(self, cmd: ClaimPassRewardView)
        requires
            self.claim_pass_reward(cmd).1 is Ok,
        ensures
            cmd.tier >= self.premium_track_start ==> self.premium_purchased,
            self.season_active,
            cmd.season_id == self.season_id,
            self.xp_thresholds_monotonic,
            self.awards_cosmetics_or_credits_only,
    {
    }

    /// After an accepted claim the following tier can be claimed, in the same
    /// season, where the premium track is purchased.
    pub proof fn law_track_goes_on(self, first: ClaimPassRewardView, second: ClaimPassRewardView)
        requires
            self.has_tier_left(),
            self.claim_pass_reward(first).1 is Ok,
            self.premium_purchased,
            second.tier == first.tier + 1,
            second.season_id == first.season_id,
            !text::is_blank_text(second.player_id),
        ensures
            self.claim_pass_reward(first).0.claim_pass_reward(second).1 is Ok,
    {
    }
}

impl BattlePassView {
    /// Every command goes to its own handler, a payload that does not read is
    /// refused with the complaint about it, and a name that is none of these is
    /// unknown; what is refused otherwise is refused for a broken rule.
    pub proof fn law_commands_are_routed(
        self,
        command: CommandView<PayloadView<ClaimPassRewardView>>,
    )
        ensures
            command.name == "ClaimPassRewardCmd"@ ==> match command.payload {
                PayloadView::Decoded(cmd) => self.execute(command)
                    == self.claim_pass_reward(cmd),
                PayloadView::Malformed(complaint) => self.execute(command).1 == shared::violation::<
                    EventView,
                >("malformed "@ + "ClaimPassRewardCmd"@ + " payload: "@ + complaint),
            },
            command.name != "ClaimPassRewardCmd"@ ==> self.execute(command).1 == Err::<
                Seq<EventView>,
                shared::DomainErrorView,
            >(
                shared::DomainErrorView::UnknownCommand {
                    aggregate: "BattlePass"@,
                    command: command.name,
                },
            ),
            self.execute(command).1 matches Err(error) ==> (error is InvariantViolation <==> {
                ||| command.name == "ClaimPassRewardCmd"@
            }),
    {
    }

    /// A claim records the player, the season and the tier that were submitted and
    /// makes the following tier the next; nothing else changes.
    pub proof fn law_claim_records_the_reward(self, cmd: ClaimPassRewardView)
        requires
            self.claim_pass_reward(cmd).1 is Ok,
            self.has_tier_left(),
        ensures
            ({
                let after = self.claim_pass_reward(cmd).0;
                &&& self.claim_pass_reward(cmd).1 matches Ok(events)
                &&& events.len() == 1
                &&& events[0].event_type() == "pass.reward.claimed"@
                &&& events[0] matches EventView::PassRewardClaimed(said)
                &&& said.player_id == cmd.player_id
                &&& said.season_id == cmd.season_id
                &&& said.tier == cmd.tier
                &&& after.next_claimable_tier == cmd.tier + 1
                &&& after == (BattlePassView {
                    next_claimable_tier: after.next_claimable_tier,
                    events: self.events.push(events[0]),
                    ..self
                })
            }),
    {
    }
}

impl BattlePassView {
    /// Only a claim of the very last tier that a `u32` holds finds no room: every
    /// command is admitted where the next tier is another, and so is every command
    /// that is refused.
    pub proof fn law_room_for_commands(
        self,
        command: CommandView<PayloadView<ClaimPassRewardView>>,
    )
        ensures
            self.has_tier_left() <==> self.next_claimable_tier != u32::MAX,
            self.next_claimable_tier != u32::MAX ==> self.admits(command),
            self.execute(command).1 is Err ==> self.admits(command),
    {
    }
}

impl ClaimPassReward {
    /// The view leaves nothing out: where two views agree, so does every field.
    pub proof fn law_view_leaves_nothing_out(self, other: ClaimPassReward)
        requires
            self@ == other@,
        ensures
            self.player_id@ == other.player_id@,
            self.season_id@ == other.season_id@,
            self.tier == other.tier,
    {
    }
}

impl PassRewardClaimed {
    /// The view leaves nothing out: where two views agree, so does every field.
    pub proof fn law_view_leaves_nothing_out(self, other: PassRewardClaimed)
        requires
            self@ == other@,
        ensures
            self.player_id@ == other.player_id@,
            self.season_id@ == other.season_id@,
            self.tier == other.tier,
    {
    }
}

impl Event {
    /// The view leaves nothing out: where two views agree, so do the variants and
    /// what they carry.
    pub proof fn law_view_leaves_nothing_out(self, other: Event)
        requires
            self@ == other@,
        ensures
            match (self, other) {
                (Event::PassRewardClaimed(a), Event::PassRewardClaimed(b)) => a@ == b@,
            },
    {
    }
}

} // verus!
