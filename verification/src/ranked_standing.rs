//! A player's competitive rank and rating over a season.
//!
//! A [`RankedStanding`] is one player's competitive record for a season: a
//! hidden Glicko-2 skill estimate (rating, RD, volatility) plus a *visible* rank
//! (a tier and its stars) that climbs the ladder and is protected from
//! tilt-driven demotion. Five invariants govern a standing:
//!
//! 1. **Ratings freshness** — the Glicko-2 rating, RD, and volatility are
//!    recalculated after *every* rated match.
//! 2. **Visible rank shape** — the visible rank advances through tiers
//!    Block→Legend with [`STARS_PER_TIER`] stars per tier; a win streak may
//!    grant at most one *bonus* star, and only while a streak is live.
//! 3. **Rank-floor protection** — protection prevents demotion below a reached
//!    tier floor; it applies to the lower brackets (Block/Corner).
//! 4. **Smurf elevation** — a suspected smurf is auto-elevated to a higher
//!    bracket after [`SMURF_ELEVATION_MATCHES`] matches.
//! 5. **Disconnect escalation** — disconnect penalties escalate by *doubling* on
//!    repeated abandonment.
//!
//! The skill estimate is floating point. The library keeps it by its bits and
//! takes the recomputed one as an argument of the command that records a match.
use crate::shared;
use crate::shared::AggregateRoot;
use crate::shared::Command;
use crate::shared::CommandView;
use crate::shared::DomainError;
use crate::shared::Payload;
use crate::shared::PayloadView;
use crate::shared::Reply;
use crate::shared::Repository;
use crate::shared::OTHER_COMMAND;
use crate::text;
use vstd::arithmetic::power2::pow2;
use vstd::prelude::*;

verus! {

/// The name of the aggregate type, as errors show it.
pub const AGGREGATE_TYPE: &'static str = "RankedStanding";

/// Stars per tier: the visible rank advances through each tier with three stars,
/// after which the player promotes to the next tier. A live win streak may add
/// at most one *bonus* star on top of these.
pub const STARS_PER_TIER: u8 = 3;

/// Matches after which a *suspected smurf* is auto-elevated to a higher bracket.
pub const SMURF_ELEVATION_MATCHES: u32 = 20;

/// The base disconnect penalty (in rating points) charged for a first
/// abandonment. Each further abandonment *doubles* the penalty.
pub const BASE_DISCONNECT_PENALTY: u32 = 5;

/// The bits of the rating of an unrated player, 1500.
pub const DEFAULT_RATING: u64 = 0x4097_7000_0000_0000;

/// The bits of the rating deviation of an unrated player, 350.
pub const DEFAULT_RATING_DEVIATION: u64 = 0x4075_e000_0000_0000;

/// The bits of the volatility of an unrated player, 0.06.
pub const DEFAULT_VOLATILITY: u64 = 0x3fae_b851_eb85_1eb8;

/// The bits of positive infinity: above those of every positive finite number.
pub const INFINITY: u64 = 0x7ff0_0000_0000_0000;

/// Visible rank tiers, ordered lowest → highest along the competitive ladder.
///
/// The visible rank climbs Block→Legend, three stars at a time. The two lowest
/// tiers — [`Tier::Block`] and [`Tier::Corner`] — are the *anti-tilt* brackets
/// where rank-floor protection is guaranteed.
#[derive(Debug, Clone, Copy, PartialEq, Eq, Structural)]
pub enum Tier {
    /// Entry bracket; anti-tilt floor protection applies here.
    Block,
    /// Second bracket; the highest tier anti-tilt floor protection applies to.
    Corner,
    /// Mid-ladder bracket.
    Contender,
    /// High-ladder bracket.
    Champion,
    /// Apex bracket.
    Legend,
}

impl Tier {
    /// The name that messages show.
    pub open spec fn name_text(self) -> Seq<char> {
        match self {
            Tier::Block => "Block"@,
            Tier::Corner => "Corner"@,
            Tier::Contender => "Contender"@,
            Tier::Champion => "Champion"@,
            Tier::Legend => "Legend"@,
        }
    }

    /// The name that messages show.
    pub fn name(self) -> (r: &'static str)
        ensures
            r@ == self.name_text(),
    {
        match self {
            Tier::Block => "Block",
            Tier::Corner => "Corner",
            Tier::Contender => "Contender",
            Tier::Champion => "Champion",
            Tier::Legend => "Legend",
        }
    }
}

impl Tier {
    /// The tier's position on the ladder (Block = 0 … Legend = 4).
    pub open spec fn spec_rank(self) -> u8 {
        match self {
            Tier::Block => 0,
            Tier::Corner => 1,
            Tier::Contender => 2,
            Tier::Champion => 3,
            Tier::Legend => 4,
        }
    }

    /// The tier one step up the ladder; the apex stays where it is.
    pub open spec fn above(self) -> Tier {
        match self {
            Tier::Block => Tier::Corner,
            Tier::Corner => Tier::Contender,
            Tier::Contender => Tier::Champion,
            Tier::Champion => Tier::Legend,
            Tier::Legend => Tier::Legend,
        }
    }

    /// The higher of two tiers.
    pub open spec fn higher(self, other: Tier) -> Tier {
        if self.spec_rank() >= other.spec_rank() {
            self
        } else {
            other
        }
    }

    /// The tier's position on the ladder (Block = 0 … Legend = 4). Higher is a
    /// stronger rank; used to compare a standing against its reached floor.
    #[verifier::when_used_as_spec(spec_rank)]
    pub fn rank(self) -> (r: u8)
        ensures
            r == self.spec_rank(),
    {
        match self {
            Tier::Block => 0,
            Tier::Corner => 1,
            Tier::Contender => 2,
            Tier::Champion => 3,
            Tier::Legend => 4,
        }
    }

    /// Whether this tier lies in the anti-tilt brackets (Block/Corner) where
    /// rank-floor protection is guaranteed.
    pub open spec fn spec_is_anti_tilt(self) -> bool {
        self is Block || self is Corner
    }

    /// Whether this tier lies in the anti-tilt brackets (Block/Corner) where
    /// rank-floor protection is guaranteed.
    #[verifier::when_used_as_spec(spec_is_anti_tilt)]
    pub fn is_anti_tilt(self) -> (r: bool)
        ensures
            r == self.spec_is_anti_tilt(),
    {
        self.rank() <= Tier::Corner.rank()
    }

    /// The next tier up the ladder, or `None` at the apex ([`Tier::Legend`]).
    pub fn next(self) -> (r: Option<Tier>)
        ensures
            r == if self is Legend {
                None::<Tier>
            } else {
                Some(self.above())
            },
    {
        match self {
            Tier::Block => Some(Tier::Corner),
            Tier::Corner => Some(Tier::Contender),
            Tier::Contender => Some(Tier::Champion),
            Tier::Champion => Some(Tier::Legend),
            Tier::Legend => None,
        }
    }

    /// The higher-ranked of two tiers (used to hold the current tier at or above
    /// the reached floor when protection is applied).
    pub fn max_rank(self, other: Tier) -> (r: Tier)
        ensures
            r == self.higher(other),
    {
        if self.rank() >= other.rank() {
            self
        } else {
            other
        }
    }

    /// The next bracket up the ladder — the tier a suspected smurf is elevated
    /// into. [`Tier::Legend`], already the apex, elevates to itself.
    pub fn elevated_bracket(self) -> (r: Tier)
        ensures
            r == self.above(),
    {
        match self {
            Tier::Block => Tier::Corner,
            Tier::Corner => Tier::Contender,
            Tier::Contender => Tier::Champion,
            Tier::Champion => Tier::Legend,
            Tier::Legend => Tier::Legend,
        }
    }
}

/// The outcome of a completed rated match, from the perspective of the standing
/// whose rating is being recomputed. Maps to the Glicko-2 score `s`: a win
/// scores `1.0`, a draw `0.5`, and a loss `0.0`.
#[derive(Debug, Clone, Copy, PartialEq, Eq, Structural)]
pub enum MatchOutcome {
    /// The player won the match.
    Win,
    /// The match was drawn.
    Draw,
    /// The player lost the match.
    Loss,
}

/// A binary floating-point number of 64 bits. The library does no arithmetic on
/// it: it carries the number's bits, by which it is judged, and the text that
/// shows it in messages.
#[derive(Debug, PartialEq, Eq)]
pub struct Real {
    /// The bits, as IEEE 754 lays them out.
    pub bits: u64,
    /// The number as text.
    pub shown: String,
}

/// What a [`Real`] says.
#[verifier::ext_equal]
pub struct RealView {
    pub bits: u64,
    pub shown: Seq<char>,
}

impl View for Real {
    type V = RealView;

    open spec fn view(&self) -> RealView {
        RealView {
            bits: self.bits,
            shown: self.shown@,
        }
    }
}

impl Clone for Real {
    fn clone(&self) -> (r: Self)
        ensures
            r@ == self@,
    {
        Real {
            bits: self.bits,
            shown: self.shown.clone(),
        }
    }
}

impl RealView {
    /// Whether the number is finite and greater than zero: its sign bit is clear,
    /// and its bits lie between those of zero and those of infinity.
    pub open spec fn is_positive_finite(self) -> bool {
        0 < self.bits < INFINITY
    }
}

impl Real {
    /// The number with these bits, shown as `shown`.
    pub fn new(bits: u64, shown: &str) -> (r: Self)
        ensures
            r@ == (RealView { bits, shown: shown@ }),
    {
        Real { bits, shown: shown.to_owned() }
    }

    /// Whether the number is finite and greater than zero.
    pub fn is_positive_finite(&self) -> (r: bool)
        ensures
            r == self@.is_positive_finite(),
    {
        0 < self.bits && self.bits < INFINITY
    }
}

/// A Glicko-2 skill estimate: the bits of a rating, of its deviation and of its
/// volatility.
#[derive(Debug, Clone, Copy, PartialEq, Eq, Structural)]
pub struct Estimate {
    /// The bits of the rating.
    pub rating: u64,
    /// The bits of the rating deviation (RD).
    pub rating_deviation: u64,
    /// The bits of the volatility.
    pub volatility: u64,
}

/// The `ApplyRankFloorProtectionCmd` payload: the standing to protect and the
/// player it belongs to.
#[derive(Debug, PartialEq, Eq)]
pub struct ApplyRankFloorProtection {
    /// Identity of the standing being protected; must name the standing this
    /// aggregate records.
    pub standing_id: String,
    /// The player this standing belongs to. Must be non-empty and must match the
    /// standing's own player.
    pub player_id: String,
}

/// What an [`ApplyRankFloorProtection`] says.
#[verifier::ext_equal]
pub struct ApplyRankFloorProtectionView {
    pub standing_id: Seq<char>,
    pub player_id: Seq<char>,
}

impl View for ApplyRankFloorProtection {
    type V = ApplyRankFloorProtectionView;

    open spec fn view(&self) -> ApplyRankFloorProtectionView {
        ApplyRankFloorProtectionView {
            standing_id: self.standing_id@,
            player_id: self.player_id@,
        }
    }
}

impl Clone for ApplyRankFloorProtection {
    fn clone(&self) -> (r: Self)
        ensures
            r@ == self@,
    {
        ApplyRankFloorProtection {
            standing_id: self.standing_id.clone(),
            player_id: self.player_id.clone(),
        }
    }
}

impl ApplyRankFloorProtection {
    /// The name of the command.
    pub const COMMAND: &'static str = "ApplyRankFloorProtectionCmd";

    /// Builds a command applying rank-floor protection to `standing_id` for
    /// `player_id`.
    pub fn new(standing_id: &str, player_id: &str) -> (r: Self)
        ensures
            r@ == (ApplyRankFloorProtectionView {
                standing_id: standing_id@,
                player_id: player_id@,
            }),
    {
        ApplyRankFloorProtection {
            standing_id: standing_id.to_owned(),
            player_id: player_id.to_owned(),
        }
    }

    /// This request as a command, ready to be executed.
    pub fn into_command(&self) -> (r: Command<Payload<Request>>)
        ensures
            r@ == (CommandView {
                name: Self::COMMAND@,
                payload: PayloadView::Decoded(RequestView::ApplyRankFloorProtection(self@)),
            }),
    {
        let request = Request::ApplyRankFloorProtection(self.clone());
        Command::with_payload(Self::COMMAND, Payload::Decoded(request))
    }
}

/// The `AwardStarCmd` payload: the standing to credit, the player it belongs
/// to, and whether a live win streak grants a bonus star.
#[derive(Debug, PartialEq, Eq)]
pub struct AwardStar {
    /// Identity of the standing being credited; must name the standing this
    /// aggregate records.
    pub standing_id: String,
    /// The player this standing belongs to. Must be non-empty and must match the
    /// standing's own player.
    pub player_id: String,
    /// Whether the win extends a streak and so grants an extra *bonus* star on top
    /// of the base star. Only valid while a win streak is live.
    pub streak_bonus: bool,
}

/// What an [`AwardStar`] says.
#[verifier::ext_equal]
pub struct AwardStarView {
    pub standing_id: Seq<char>,
    pub player_id: Seq<char>,
    pub streak_bonus: bool,
}

impl View for AwardStar {
    type V = AwardStarView;

    open spec fn view(&self) -> AwardStarView {
        AwardStarView {
            standing_id: self.standing_id@,
            player_id: self.player_id@,
            streak_bonus: self.streak_bonus,
        }
    }
}

impl Clone for AwardStar {
    fn clone(&self) -> (r: Self)
        ensures
            r@ == self@,
    {
        AwardStar {
            standing_id: self.standing_id.clone(),
            player_id: self.player_id.clone(),
            streak_bonus: self.streak_bonus,
        }
    }
}

impl AwardStar {
    /// The name of the command.
    pub const COMMAND: &'static str = "AwardStarCmd";

    /// Builds a command awarding a star to `standing_id` for `player_id`, granting
    /// a bonus star when `streak_bonus` is set.
    pub fn new(standing_id: &str, player_id: &str, streak_bonus: bool) -> (r: Self)
        ensures
            r@ == (AwardStarView {
                standing_id: standing_id@,
                player_id: player_id@,
                streak_bonus: streak_bonus,
            }),
    {
        AwardStar {
            standing_id: standing_id.to_owned(),
            player_id: player_id.to_owned(),
            streak_bonus: streak_bonus,
        }
    }

    /// This request as a command, ready to be executed.
    pub fn into_command(&self) -> (r: Command<Payload<Request>>)
        ensures
            r@ == (CommandView {
                name: Self::COMMAND@,
                payload: PayloadView::Decoded(RequestView::AwardStar(self@)),
            }),
    {
        let request = Request::AwardStar(self.clone());
        Command::with_payload(Self::COMMAND, Payload::Decoded(request))
    }
}

/// The `ElevateSmurfCmd` payload: the standing to elevate, its player, and the
/// match count that tripped smurf detection.
#[derive(Debug, PartialEq, Eq)]
pub struct ElevateSmurf {
    /// Identity of the standing being elevated; must name the standing this
    /// aggregate records.
    pub standing_id: String,
    /// The player this standing belongs to. Must be non-empty and must match the
    /// standing's own player.
    pub player_id: String,
    /// The observed match count that tripped smurf detection. Must match the
    /// standing's recorded matches played, and reach [`SMURF_ELEVATION_MATCHES`].
    pub match_count: u32,
}

/// What an [`ElevateSmurf`] says.
#[verifier::ext_equal]
pub struct ElevateSmurfView {
    pub standing_id: Seq<char>,
    pub player_id: Seq<char>,
    pub match_count: u32,
}

impl View for ElevateSmurf {
    type V = ElevateSmurfView;

    open spec fn view(&self) -> ElevateSmurfView {
        ElevateSmurfView {
            standing_id: self.standing_id@,
            player_id: self.player_id@,
            match_count: self.match_count,
        }
    }
}

impl Clone for ElevateSmurf {
    fn clone(&self) -> (r: Self)
        ensures
            r@ == self@,
    {
        ElevateSmurf {
            standing_id: self.standing_id.clone(),
            player_id: self.player_id.clone(),
            match_count: self.match_count,
        }
    }
}

impl ElevateSmurf {
    /// The name of the command.
    pub const COMMAND: &'static str = "ElevateSmurfCmd";

    /// Builds a command elevating `standing_id` (for `player_id`) after
    /// `match_count` matches.
    pub fn new(standing_id: &str, player_id: &str, match_count: u32) -> (r: Self)
        ensures
            r@ == (ElevateSmurfView {
                standing_id: standing_id@,
                player_id: player_id@,
                match_count: match_count,
            }),
    {
        ElevateSmurf {
            standing_id: standing_id.to_owned(),
            player_id: player_id.to_owned(),
            match_count: match_count,
        }
    }

    /// This request as a command, ready to be executed.
    pub fn into_command(&self) -> (r: Command<Payload<Request>>)
        ensures
            r@ == (CommandView {
                name: Self::COMMAND@,
                payload: PayloadView::Decoded(RequestView::ElevateSmurf(self@)),
            }),
    {
        let request = Request::ElevateSmurf(self.clone());
        Command::with_payload(Self::COMMAND, Payload::Decoded(request))
    }
}

/// The `RecordMatchResultCmd` payload: a completed rated match to ingest into a
/// standing.
#[derive(Debug, PartialEq, Eq)]
pub struct RecordMatchResult {
    /// Identity of the standing recording the result; must name the standing this
    /// aggregate records.
    pub standing_id: String,
    /// The player this standing belongs to. Must be non-empty and must match the
    /// standing's own player.
    pub player_id: String,
    /// Identity of the completed match. Must be non-empty.
    pub match_id: String,
    /// The outcome of the match for this player (win / draw / loss).
    pub outcome: MatchOutcome,
    /// The opponent's (human-scale) Glicko-2 rating. Must be a finite, positive
    /// number so the recompute is well-defined.
    pub opponent_rating: Real,
}

/// What a [`RecordMatchResult`] says.
#[verifier::ext_equal]
pub struct RecordMatchResultView {
    pub standing_id: Seq<char>,
    pub player_id: Seq<char>,
    pub match_id: Seq<char>,
    pub outcome: MatchOutcome,
    pub opponent_rating: RealView,
}

impl View for RecordMatchResult {
    type V = RecordMatchResultView;

    open spec fn view(&self) -> RecordMatchResultView {
        RecordMatchResultView {
            standing_id: self.standing_id@,
            player_id: self.player_id@,
            match_id: self.match_id@,
            outcome: self.outcome,
            opponent_rating: self.opponent_rating@,
        }
    }
}

impl Clone for RecordMatchResult {
    fn clone(&self) -> (r: Self)
        ensures
            r@ == self@,
    {
        RecordMatchResult {
            standing_id: self.standing_id.clone(),
            player_id: self.player_id.clone(),
            match_id: self.match_id.clone(),
            outcome: self.outcome,
            opponent_rating: self.opponent_rating.clone(),
        }
    }
}

impl RecordMatchResult {
    /// The name of the command.
    pub const COMMAND: &'static str = "RecordMatchResultCmd";

    /// Builds a command recording `outcome` against an opponent rated
    /// `opponent_rating` for `match_id`, on `standing_id` for `player_id`.
    pub fn new(
        standing_id: &str,
        player_id: &str,
        match_id: &str,
        outcome: MatchOutcome,
        opponent_rating: Real,
    ) -> (r: Self)
        ensures
            r@ == (RecordMatchResultView {
                standing_id: standing_id@,
                player_id: player_id@,
                match_id: match_id@,
                outcome: outcome,
                opponent_rating: opponent_rating@,
            }),
    {
        RecordMatchResult {
            standing_id: standing_id.to_owned(),
            player_id: player_id.to_owned(),
            match_id: match_id.to_owned(),
            outcome: outcome,
            opponent_rating: opponent_rating,
        }
    }

    /// This request as a command, ready to be executed. `estimate` is what the
    /// Glicko-2 update makes of the standing's skill estimate for this match.
    pub fn into_command(&self, estimate: Estimate) -> (r: Command<Payload<Request>>)
        ensures
            r@ == (CommandView {
                name: Self::COMMAND@,
                payload: PayloadView::Decoded(RequestView::RecordMatchResult(self@, estimate)),
            }),
    {
        let request = Request::RecordMatchResult(self.clone(), estimate);
        Command::with_payload(Self::COMMAND, Payload::Decoded(request))
    }
}

/// The `ApplyDisconnectPenaltyCmd` payload: the standing to penalize, its
/// player, and the count of penalties already charged.
#[derive(Debug, PartialEq, Eq)]
pub struct ApplyDisconnectPenalty {
    /// Identity of the standing being penalized; must name the standing this
    /// aggregate records.
    pub standing_id: String,
    /// The player this standing belongs to. Must be non-empty and must match the
    /// standing's own player.
    pub player_id: String,
    /// The number of disconnect penalties already charged (i.e. prior
    /// abandonments). Must agree with the standing's recorded abandonment count, so
    /// the escalation continues the doubling schedule from the right place.
    pub prior_penalties: u32,
}

/// What an [`ApplyDisconnectPenalty`] says.
#[verifier::ext_equal]
pub struct ApplyDisconnectPenaltyView {
    pub standing_id: Seq<char>,
    pub player_id: Seq<char>,
    pub prior_penalties: u32,
}

impl View for ApplyDisconnectPenalty {
    type V = ApplyDisconnectPenaltyView;

    open spec fn view(&self) -> ApplyDisconnectPenaltyView {
        ApplyDisconnectPenaltyView {
            standing_id: self.standing_id@,
            player_id: self.player_id@,
            prior_penalties: self.prior_penalties,
        }
    }
}

impl Clone for ApplyDisconnectPenalty {
    fn clone(&self) -> (r: Self)
        ensures
            r@ == self@,
    {
        ApplyDisconnectPenalty {
            standing_id: self.standing_id.clone(),
            player_id: self.player_id.clone(),
            prior_penalties: self.prior_penalties,
        }
    }
}

impl ApplyDisconnectPenalty {
    /// The name of the command.
    pub const COMMAND: &'static str = "ApplyDisconnectPenaltyCmd";

    /// Builds a command charging a disconnect penalty to `standing_id` (for
    /// `player_id`) after `prior_penalties` prior abandonments.
    pub fn new(standing_id: &str, player_id: &str, prior_penalties: u32) -> (r: Self)
        ensures
            r@ == (ApplyDisconnectPenaltyView {
                standing_id: standing_id@,
                player_id: player_id@,
                prior_penalties: prior_penalties,
            }),
    {
        ApplyDisconnectPenalty {
            standing_id: standing_id.to_owned(),
            player_id: player_id.to_owned(),
            prior_penalties: prior_penalties,
        }
    }

    /// This request as a command, ready to be executed.
    pub fn into_command(&self) -> (r: Command<Payload<Request>>)
        ensures
            r@ == (CommandView {
                name: Self::COMMAND@,
                payload: PayloadView::Decoded(RequestView::ApplyDisconnectPenalty(self@)),
            }),
    {
        let request = Request::ApplyDisconnectPenalty(self.clone());
        Command::with_payload(Self::COMMAND, Payload::Decoded(request))
    }
}

/// The protected floor, carried by [`Event::RankFloorProtected`] and thus by
/// the emitted `ranked.rank.floor.protected` event.
#[derive(Debug, PartialEq, Eq)]
pub struct RankFloorProtected {
    /// The standing whose floor was pinned.
    pub standing_id: String,
    /// The player the standing belongs to.
    pub player_id: String,
    /// The tier floor a loss can no longer demote the player below.
    pub tier_floor: Tier,
}

/// What a [`RankFloorProtected`] says.
#[verifier::ext_equal]
pub struct RankFloorProtectedView {
    pub standing_id: Seq<char>,
    pub player_id: Seq<char>,
    pub tier_floor: Tier,
}

impl View for RankFloorProtected {
    type V = RankFloorProtectedView;

    open spec fn view(&self) -> RankFloorProtectedView {
        RankFloorProtectedView {
            standing_id: self.standing_id@,
            player_id: self.player_id@,
            tier_floor: self.tier_floor,
        }
    }
}

impl Clone for RankFloorProtected {
    fn clone(&self) -> (r: Self)
        ensures
            r@ == self@,
    {
        RankFloorProtected {
            standing_id: self.standing_id.clone(),
            player_id: self.player_id.clone(),
            tier_floor: self.tier_floor,
        }
    }
}

/// A star (and, when a streak is live, a bonus star) awarded on a win; carried
/// by [`Event::StarAwarded`] and thus by the emitted `star.awarded` event.
#[derive(Debug, PartialEq, Eq)]
pub struct StarAwarded {
    /// The standing credited with the star(s).
    pub standing_id: String,
    /// The player the standing belongs to.
    pub player_id: String,
    /// The tier the star was awarded in.
    pub tier: Tier,
    /// How many stars this win granted: one, or two with a streak bonus.
    pub stars_awarded: u8,
    /// Whether a streak bonus star was included.
    pub streak_bonus: bool,
}

/// What a [`StarAwarded`] says.
#[verifier::ext_equal]
pub struct StarAwardedView {
    pub standing_id: Seq<char>,
    pub player_id: Seq<char>,
    pub tier: Tier,
    pub stars_awarded: u8,
    pub streak_bonus: bool,
}

impl View for StarAwarded {
    type V = StarAwardedView;

    open spec fn view(&self) -> StarAwardedView {
        StarAwardedView {
            standing_id: self.standing_id@,
            player_id: self.player_id@,
            tier: self.tier,
            stars_awarded: self.stars_awarded,
            streak_bonus: self.streak_bonus,
        }
    }
}

impl Clone for StarAwarded {
    fn clone(&self) -> (r: Self)
        ensures
            r@ == self@,
    {
        StarAwarded {
            standing_id: self.standing_id.clone(),
            player_id: self.player_id.clone(),
            tier: self.tier,
            stars_awarded: self.stars_awarded,
            streak_bonus: self.streak_bonus,
        }
    }
}

/// A promotion to the next tier, triggered when awarded stars fill the current
/// tier; carried by [`Event::RankPromoted`] and thus by the emitted
/// `rank.promoted` event.
#[derive(Debug, PartialEq, Eq)]
pub struct RankPromoted {
    /// The standing that was promoted.
    pub standing_id: String,
    /// The player the standing belongs to.
    pub player_id: String,
    /// The tier the player promoted out of.
    pub from_tier: Tier,
    /// The tier the player promoted into.
    pub to_tier: Tier,
}

/// What a [`RankPromoted`] says.
#[verifier::ext_equal]
pub struct RankPromotedView {
    pub standing_id: Seq<char>,
    pub player_id: Seq<char>,
    pub from_tier: Tier,
    pub to_tier: Tier,
}

impl View for RankPromoted {
    type V = RankPromotedView;

    open spec fn view(&self) -> RankPromotedView {
        RankPromotedView {
            standing_id: self.standing_id@,
            player_id: self.player_id@,
            from_tier: self.from_tier,
            to_tier: self.to_tier,
        }
    }
}

impl Clone for RankPromoted {
    fn clone(&self) -> (r: Self)
        ensures
            r@ == self@,
    {
        RankPromoted {
            standing_id: self.standing_id.clone(),
            player_id: self.player_id.clone(),
            from_tier: self.from_tier,
            to_tier: self.to_tier,
        }
    }
}

/// The elevation, carried by [`Event::SmurfElevated`] and thus by the emitted
/// `smurf.elevated` event.
#[derive(Debug, PartialEq, Eq)]
pub struct SmurfElevated {
    /// The standing that was elevated.
    pub standing_id: String,
    /// The player the standing belongs to.
    pub player_id: String,
    /// The match count that tripped smurf detection.
    pub match_count: u32,
    /// The higher bracket the suspected smurf was elevated into.
    pub elevated_to: Tier,
}

/// What a [`SmurfElevated`] says.
#[verifier::ext_equal]
pub struct SmurfElevatedView {
    pub standing_id: Seq<char>,
    pub player_id: Seq<char>,
    pub match_count: u32,
    pub elevated_to: Tier,
}

impl View for SmurfElevated {
    type V = SmurfElevatedView;

    open spec fn view(&self) -> SmurfElevatedView {
        SmurfElevatedView {
            standing_id: self.standing_id@,
            player_id: self.player_id@,
            match_count: self.match_count,
            elevated_to: self.elevated_to,
        }
    }
}

impl Clone for SmurfElevated {
    fn clone(&self) -> (r: Self)
        ensures
            r@ == self@,
    {
        SmurfElevated {
            standing_id: self.standing_id.clone(),
            player_id: self.player_id.clone(),
            match_count: self.match_count,
            elevated_to: self.elevated_to,
        }
    }
}

/// The charged penalty, carried by [`Event::DisconnectPenaltyApplied`] and thus
/// by the emitted `disconnect.penalty.applied` event.
#[derive(Debug, PartialEq, Eq)]
pub struct DisconnectPenaltyApplied {
    /// The standing that was penalized.
    pub standing_id: String,
    /// The player the standing belongs to.
    pub player_id: String,
    /// The number of penalties charged before this one.
    pub prior_penalties: u32,
    /// The penalty (rating points) charged for this abandonment, doubled from the
    /// prior charge under the escalation schedule.
    pub penalty: u32,
    /// The standing's abandonment count after recording this penalty.
    pub abandonments: u32,
}

/// What a [`DisconnectPenaltyApplied`] says.
#[verifier::ext_equal]
pub struct DisconnectPenaltyAppliedView {
    pub standing_id: Seq<char>,
    pub player_id: Seq<char>,
    pub prior_penalties: u32,
    pub penalty: u32,
    pub abandonments: u32,
}

impl View for DisconnectPenaltyApplied {
    type V = DisconnectPenaltyAppliedView;

    open spec fn view(&self) -> DisconnectPenaltyAppliedView {
        DisconnectPenaltyAppliedView {
            standing_id: self.standing_id@,
            player_id: self.player_id@,
            prior_penalties: self.prior_penalties,
            penalty: self.penalty,
            abandonments: self.abandonments,
        }
    }
}

impl Clone for DisconnectPenaltyApplied {
    fn clone(&self) -> (r: Self)
        ensures
            r@ == self@,
    {
        DisconnectPenaltyApplied {
            standing_id: self.standing_id.clone(),
            player_id: self.player_id.clone(),
            prior_penalties: self.prior_penalties,
            penalty: self.penalty,
            abandonments: self.abandonments,
        }
    }
}

/// A completed rated match ingested into a standing, carried by
/// [`Event::MatchResultRecorded`] and thus by the emitted
/// `match.result.recorded` event.
#[derive(Debug, PartialEq, Eq)]
pub struct MatchResultRecorded {
    /// The standing the result was recorded on.
    pub standing_id: String,
    /// The player the standing belongs to.
    pub player_id: String,
    /// The completed match this result came from.
    pub match_id: String,
    /// The outcome recorded for the player.
    pub outcome: MatchOutcome,
}

/// What a [`MatchResultRecorded`] says.
#[verifier::ext_equal]
pub struct MatchResultRecordedView {
    pub standing_id: Seq<char>,
    pub player_id: Seq<char>,
    pub match_id: Seq<char>,
    pub outcome: MatchOutcome,
}

impl View for MatchResultRecorded {
    type V = MatchResultRecordedView;

    open spec fn view(&self) -> MatchResultRecordedView {
        MatchResultRecordedView {
            standing_id: self.standing_id@,
            player_id: self.player_id@,
            match_id: self.match_id@,
            outcome: self.outcome,
        }
    }
}

impl Clone for MatchResultRecorded {
    fn clone(&self) -> (r: Self)
        ensures
            r@ == self@,
    {
        MatchResultRecorded {
            standing_id: self.standing_id.clone(),
            player_id: self.player_id.clone(),
            match_id: self.match_id.clone(),
            outcome: self.outcome,
        }
    }
}

/// The recomputed Glicko-2 estimate, carried by [`Event::RatingRecalculated`]
/// and thus by the emitted `rating.recalculated` event.
#[derive(Debug, PartialEq, Eq)]
pub struct RatingRecalculated {
    /// The standing whose rating was recomputed.
    pub standing_id: String,
    /// The player the standing belongs to.
    pub player_id: String,
    /// The new hidden Glicko-2 rating.
    pub rating: u64,
    /// The new hidden Glicko-2 rating deviation (RD).
    pub rating_deviation: u64,
    /// The new hidden Glicko-2 volatility.
    pub volatility: u64,
    /// The rated-match count the new estimate reflects (it is now fresh).
    pub rated_matches: u32,
}

/// What a [`RatingRecalculated`] says.
#[verifier::ext_equal]
pub struct RatingRecalculatedView {
    pub standing_id: Seq<char>,
    pub player_id: Seq<char>,
    pub rating: u64,
    pub rating_deviation: u64,
    pub volatility: u64,
    pub rated_matches: u32,
}

impl View for RatingRecalculated {
    type V = RatingRecalculatedView;

    open spec fn view(&self) -> RatingRecalculatedView {
        RatingRecalculatedView {
            standing_id: self.standing_id@,
            player_id: self.player_id@,
            rating: self.rating,
            rating_deviation: self.rating_deviation,
            volatility: self.volatility,
            rated_matches: self.rated_matches,
        }
    }
}

impl Clone for RatingRecalculated {
    fn clone(&self) -> (r: Self)
        ensures
            r@ == self@,
    {
        RatingRecalculated {
            standing_id: self.standing_id.clone(),
            player_id: self.player_id.clone(),
            rating: self.rating,
            rating_deviation: self.rating_deviation,
            volatility: self.volatility,
            rated_matches: self.rated_matches,
        }
    }
}

/// Domain events emitted by [`RankedStanding`].
#[derive(Debug, PartialEq, Eq)]
pub enum Event {
    /// The visible rank was pinned at the reached tier floor: a subsequent loss
    /// cannot demote the player below it.
    RankFloorProtected(RankFloorProtected),
    /// A star (plus optional streak bonus) was awarded on a win.
    StarAwarded(StarAwarded),
    /// Awarded stars filled the tier and the visible rank promoted upward.
    RankPromoted(RankPromoted),
    /// A suspected smurf was auto-elevated to a higher bracket after reaching the
    /// match threshold.
    SmurfElevated(SmurfElevated),
    /// An escalating disconnect penalty was charged for an abandonment.
    DisconnectPenaltyApplied(DisconnectPenaltyApplied),
    /// A completed rated match was recorded on the standing.
    MatchResultRecorded(MatchResultRecorded),
    /// The hidden Glicko-2 estimate (rating, RD, volatility) was recomputed.
    RatingRecalculated(RatingRecalculated),
}

/// What an [`Event`] says.
#[verifier::ext_equal]
pub enum EventView {
    RankFloorProtected(RankFloorProtectedView),
    StarAwarded(StarAwardedView),
    RankPromoted(RankPromotedView),
    SmurfElevated(SmurfElevatedView),
    DisconnectPenaltyApplied(DisconnectPenaltyAppliedView),
    MatchResultRecorded(MatchResultRecordedView),
    RatingRecalculated(RatingRecalculatedView),
}

impl View for Event {
    type V = EventView;

    open spec fn view(&self) -> EventView {
        match self {
            Event::RankFloorProtected(body) => EventView::RankFloorProtected(body@),
            Event::StarAwarded(body) => EventView::StarAwarded(body@),
            Event::RankPromoted(body) => EventView::RankPromoted(body@),
            Event::SmurfElevated(body) => EventView::SmurfElevated(body@),
            Event::DisconnectPenaltyApplied(body) => EventView::DisconnectPenaltyApplied(body@),
            Event::MatchResultRecorded(body) => EventView::MatchResultRecorded(body@),
            Event::RatingRecalculated(body) => EventView::RatingRecalculated(body@),
        }
    }
}

impl Clone for Event {
    fn clone(&self) -> (r: Self)
        ensures
            r@ == self@,
    {
        match self {
            Event::RankFloorProtected(body) => Event::RankFloorProtected(body.clone()),
            Event::StarAwarded(body) => Event::StarAwarded(body.clone()),
            Event::RankPromoted(body) => Event::RankPromoted(body.clone()),
            Event::SmurfElevated(body) => Event::SmurfElevated(body.clone()),
            Event::DisconnectPenaltyApplied(body) => Event::DisconnectPenaltyApplied(body.clone()),
            Event::MatchResultRecorded(body) => Event::MatchResultRecorded(body.clone()),
            Event::RatingRecalculated(body) => Event::RatingRecalculated(body.clone()),
        }
    }
}

impl EventView {
    /// The name under which the event is published.
    pub open spec fn event_type(self) -> Seq<char> {
        match self {
            EventView::RankFloorProtected(_) => "ranked.rank.floor.protected"@,
            EventView::StarAwarded(_) => "star.awarded"@,
            EventView::RankPromoted(_) => "rank.promoted"@,
            EventView::SmurfElevated(_) => "smurf.elevated"@,
            EventView::DisconnectPenaltyApplied(_) => "disconnect.penalty.applied"@,
            EventView::MatchResultRecorded(_) => "match.result.recorded"@,
            EventView::RatingRecalculated(_) => "rating.recalculated"@,
        }
    }
}

impl Event {
    /// The name under which the event is published.
    pub fn event_type(&self) -> (r: &'static str)
        ensures
            r@ == self@.event_type(),
    {
        match self {
            Event::RankFloorProtected(_) => "ranked.rank.floor.protected",
            Event::StarAwarded(_) => "star.awarded",
            Event::RankPromoted(_) => "rank.promoted",
            Event::SmurfElevated(_) => "smurf.elevated",
            Event::DisconnectPenaltyApplied(_) => "disconnect.penalty.applied",
            Event::MatchResultRecorded(_) => "match.result.recorded",
            Event::RatingRecalculated(_) => "rating.recalculated",
        }
    }
}

/// A command of this context, with its payload read.
pub enum Request {
    /// An [`ApplyRankFloorProtection`].
    ApplyRankFloorProtection(ApplyRankFloorProtection),
    /// An [`AwardStar`].
    AwardStar(AwardStar),
    /// An [`ElevateSmurf`].
    ElevateSmurf(ElevateSmurf),
    /// A [`RecordMatchResult`], with the estimate recomputed for it.
    RecordMatchResult(RecordMatchResult, Estimate),
    /// An [`ApplyDisconnectPenalty`].
    ApplyDisconnectPenalty(ApplyDisconnectPenalty),
}

/// What a [`Request`] says.
#[verifier::ext_equal]
pub enum RequestView {
    ApplyRankFloorProtection(ApplyRankFloorProtectionView),
    AwardStar(AwardStarView),
    ElevateSmurf(ElevateSmurfView),
    RecordMatchResult(RecordMatchResultView, Estimate),
    ApplyDisconnectPenalty(ApplyDisconnectPenaltyView),
}

impl View for Request {
    type V = RequestView;

    open spec fn view(&self) -> RequestView {
        match self {
            Request::ApplyRankFloorProtection(body) => RequestView::ApplyRankFloorProtection(body@),
            Request::AwardStar(body) => RequestView::AwardStar(body@),
            Request::ElevateSmurf(body) => RequestView::ElevateSmurf(body@),
            Request::RecordMatchResult(body, estimate) => RequestView::RecordMatchResult(
                body@,
                *estimate,
            ),
            Request::ApplyDisconnectPenalty(body) => RequestView::ApplyDisconnectPenalty(body@),
        }
    }
}

/// The RankedStanding aggregate: one player's competitive rank/rating for a
/// season.
///
/// A fresh standing from [`RankedStanding::new`] sits at the ladder's entry
/// (Block, no stars) with a default, freshly-synced Glicko-2 estimate; the
/// configuration methods below drive it to the state a command validates,
/// exactly as [`MatchmakingTicket`](crate::matchmaking_ticket) is built up
/// before a command validates it.
#[derive(Debug)]
pub struct RankedStanding {
    id: String,
    root: AggregateRoot<Event>,
    /// The player who owns this standing.
    player_id: String,
    /// Hidden Glicko-2 rating estimate.
    rating: u64,
    /// Hidden Glicko-2 rating deviation (RD).
    rating_deviation: u64,
    /// Hidden Glicko-2 volatility.
    volatility: u64,
    /// Total rated matches this standing has played.
    rated_matches: u32,
    /// The rated-match count at which the Glicko-2 estimate was last recalculated.
    /// Ratings are fresh only when this equals `rated_matches`.
    ratings_synced_at: u32,
    /// Current visible tier.
    tier: Tier,
    /// Stars earned within the current tier (0..=[`STARS_PER_TIER`]).
    stars: u8,
    /// Whether a live win streak has granted the bonus star.
    bonus_star: bool,
    /// Length of the current win streak; a bonus star requires a live streak.
    win_streak: u32,
    /// The highest tier the player has reached — the floor a loss may not demote
    /// them below.
    tier_floor: Tier,
    /// Total matches played (rated or not), used for smurf elevation.
    matches_played: u32,
    /// Whether matchmaking flags this account as a suspected smurf.
    suspected_smurf: bool,
    /// Whether a suspected smurf has been elevated to a higher bracket.
    elevated: bool,
    /// Number of games abandoned via disconnect.
    abandonments: u32,
    /// The currently-charged disconnect penalty (rating points); must follow the
    /// doubling schedule for `abandonments`.
    disconnect_penalty: u32,
}

/// What a [`RankedStanding`] says.
#[verifier::ext_equal]
pub struct RankedStandingView {
    pub id: Seq<char>,
    pub events: Seq<EventView>,
    pub player_id: Seq<char>,
    pub rating: u64,
    pub rating_deviation: u64,
    pub volatility: u64,
    pub rated_matches: u32,
    pub ratings_synced_at: u32,
    pub tier: Tier,
    pub stars: u8,
    pub bonus_star: bool,
    pub win_streak: u32,
    pub tier_floor: Tier,
    pub matches_played: u32,
    pub suspected_smurf: bool,
    pub elevated: bool,
    pub abandonments: u32,
    pub disconnect_penalty: u32,
}

impl View for RankedStanding {
    type V = RankedStandingView;

    closed spec fn view(&self) -> RankedStandingView {
        RankedStandingView {
            id: self.id@,
            events: self.root@,
            player_id: self.player_id@,
            rating: self.rating,
            rating_deviation: self.rating_deviation,
            volatility: self.volatility,
            rated_matches: self.rated_matches,
            ratings_synced_at: self.ratings_synced_at,
            tier: self.tier,
            stars: self.stars,
            bonus_star: self.bonus_star,
            win_streak: self.win_streak,
            tier_floor: self.tier_floor,
            matches_played: self.matches_played,
            suspected_smurf: self.suspected_smurf,
            elevated: self.elevated,
            abandonments: self.abandonments,
            disconnect_penalty: self.disconnect_penalty,
        }
    }
}

/// The disconnect penalty owed for a number of abandonments: nothing for none,
/// then the base penalty, doubled with each further one, up to what a `u32`
/// holds.
pub open spec fn disconnect_penalty_owed(abandonments: nat) -> nat {
    if abandonments == 0 {
        0
    } else {
        let due = BASE_DISCONNECT_PENALTY as nat * pow2((abandonments - 1) as nat);
        if due <= u32::MAX {
            due
        } else {
            u32::MAX as nat
        }
    }
}

impl RankedStandingView {
    /// The message where the skill estimate lags behind the rated matches.
    pub open spec fn ratings_fault(self) -> Option<Seq<char>> {
        if self.ratings_synced_at != self.rated_matches {
            Some(
                "standing '"@ + self.id + "' has a Glicko-2 estimate synced at match "@
                    + text::decimal(self.ratings_synced_at as int) + " but has played "@
                    + text::decimal(self.rated_matches as int)
                    + " rated matches; rating, RD, and volatility are recalculated after every rated match"@,
            )
        } else {
            None
        }
    }

    /// The message where the visible rank has too many stars, or a bonus star without a streak.
    pub open spec fn rank_fault(self) -> Option<Seq<char>> {
        if self.stars > STARS_PER_TIER {
            Some(
                "standing '"@ + self.id + "' shows "@ + text::decimal(self.stars as int)
                    + " stars in tier "@ + self.tier.name_text() + " but a tier holds at most "@
                    + text::decimal(STARS_PER_TIER as int) + " stars before promotion"@,
            )
        } else if self.bonus_star && self.win_streak == 0 {
            Some(
                "standing '"@ + self.id
                    + "' carries a bonus star without a live win streak; the bonus star is granted only by a win streak"@,
            )
        } else {
            None
        }
    }

    /// The message where the floor is not in the anti-tilt brackets, or the tier is below it.
    pub open spec fn floor_fault(self) -> Option<Seq<char>> {
        if !self.tier_floor.is_anti_tilt() {
            Some(
                "standing '"@ + self.id + "' asks to protect a "@ + self.tier_floor.name_text()
                    + " floor, but rank-floor (anti-tilt) protection applies only to the Block/Corner brackets"@,
            )
        } else if self.tier.rank() < self.tier_floor.rank() {
            Some(
                "standing '"@ + self.id + "' sits at "@ + self.tier.name_text()
                    + " below its reached "@ + self.tier_floor.name_text()
                    + " floor; rank-floor protection prevents demotion below the floor"@,
            )
        } else {
            None
        }
    }

    /// The message where a suspected smurf past the threshold has not been elevated.
    pub open spec fn smurf_fault(self) -> Option<Seq<char>> {
        if self.suspected_smurf && self.matches_played >= SMURF_ELEVATION_MATCHES && !self.elevated {
            Some(
                "standing '"@ + self.id + "' is a suspected smurf with "@
                    + text::decimal(self.matches_played as int) + " matches (≥"@
                    + text::decimal(SMURF_ELEVATION_MATCHES as int)
                    + ") but has not been elevated to a higher bracket"@,
            )
        } else {
            None
        }
    }

    /// The message where the recorded penalty is not the one the doubling schedule owes.
    pub open spec fn ledger_fault(self) -> Option<Seq<char>> {
        if self.disconnect_penalty != disconnect_penalty_owed(self.abandonments as nat) {
            Some(
                "standing '"@ + self.id + "' charges a "@
                    + text::decimal(self.disconnect_penalty as int)
                    + "-point disconnect penalty for "@ + text::decimal(self.abandonments as int)
                    + " abandonments but the doubling schedule owes "@
                    + text::decimal(disconnect_penalty_owed(self.abandonments as nat) as int)
                    + "; penalties escalate by doubling on repeated abandonment"@,
            )
        } else {
            None
        }
    }

    /// The message where the standing was elevated already, or is no smurf to elevate.
    pub open spec fn elevation_fault(self) -> Option<Seq<char>> {
        if self.elevated {
            Some(
                "standing '"@ + self.id
                    + "' has already been elevated to a higher bracket; a smurf is elevated at most once"@,
            )
        } else if !(self.suspected_smurf && self.matches_played >= SMURF_ELEVATION_MATCHES) {
            Some(
                "standing '"@ + self.id
                    + "' is not eligible for smurf elevation: only a suspected smurf is auto-elevated to a higher bracket, and only after "@
                    + text::decimal(SMURF_ELEVATION_MATCHES as int) + " matches (has "@
                    + text::decimal(self.matches_played as int) + ", suspected: "@
                    + text::truth(self.suspected_smurf) + ")"@,
            )
        } else {
            None
        }
    }

    /// The message of the first of the five rest invariants that does not hold.
    pub open spec fn rest_fault(self) -> Option<Seq<char>> {
        shared::first(
            self.ratings_fault(),
            shared::first(
                self.rank_fault(),
                shared::first(
                    self.floor_fault(),
                    shared::first(self.smurf_fault(), self.ledger_fault()),
                ),
            ),
        )
    }

    /// The message of the first rule that refuses an [`ElevateSmurf`], if one does.
    pub open spec fn elevate_smurf_fault(
        self,
        cmd: ElevateSmurfView,
    ) -> Option<Seq<char>> {
        if cmd.standing_id != self.id {
            Some(
                "command targets standing '"@ + cmd.standing_id
                    + "' but this aggregate records '"@ + self.id + "'"@,
            )
        } else if text::is_blank_text(cmd.player_id) {
            Some("standing '"@ + self.id + "' requires a valid playerId to elevate a smurf"@)
        } else if cmd.player_id != self.player_id {
            Some(
                "command names player '"@ + cmd.player_id + "' but standing '"@ + self.id
                    + "' belongs to '"@ + self.player_id + "'"@,
            )
        } else if cmd.match_count != self.matches_played {
            Some(
                "command reports "@ + text::decimal(cmd.match_count as int)
                    + " matches but standing '"@ + self.id + "' has recorded "@
                    + text::decimal(self.matches_played as int)
                    + "; the elevation match count must match the standing's record"@,
            )
        } else {
            shared::first(
                self.ratings_fault(),
                shared::first(
                    self.rank_fault(),
                    shared::first(
                        self.floor_fault(),
                        shared::first(self.ledger_fault(), self.elevation_fault()),
                    ),
                ),
            )
        }
    }

    /// The state after an [`ElevateSmurf`], and the answer to it.
    pub open spec fn elevate_smurf(self, cmd: ElevateSmurfView) -> (
        RankedStandingView,
        Reply<EventView>,
    ) {
        match self.elevate_smurf_fault(cmd) {
            Some(message) => (self, shared::violation(message)),
            None => {
                let event = EventView::SmurfElevated(SmurfElevatedView {
                    standing_id: cmd.standing_id,
                    player_id: cmd.player_id,
                    match_count: cmd.match_count,
                    elevated_to: self.tier.above(),
                });
                (
                    RankedStandingView {
                        tier: self.tier.above(),
                        elevated: true,
                        events: self.events.push(event),
                        ..self
                    },
                    Ok(seq![event]),
                )
            },
        }
    }

    /// The message of the first rule that refuses an [`ApplyRankFloorProtection`], if one does.
    pub open spec fn apply_rank_floor_protection_fault(
        self,
        cmd: ApplyRankFloorProtectionView,
    ) -> Option<Seq<char>> {
        if cmd.standing_id != self.id {
            Some(
                "command targets standing '"@ + cmd.standing_id
                    + "' but this aggregate records '"@ + self.id + "'"@,
            )
        } else if text::is_blank_text(cmd.player_id) {
            Some(
                "standing '"@ + self.id
                    + "' requires a valid playerId to apply rank-floor protection"@,
            )
        } else if cmd.player_id != self.player_id {
            Some(
                "command names player '"@ + cmd.player_id + "' but standing '"@ + self.id
                    + "' belongs to '"@ + self.player_id + "'"@,
            )
        } else {
            self.rest_fault()
        }
    }

    /// The state after an [`ApplyRankFloorProtection`], and the answer to it.
    pub open spec fn apply_rank_floor_protection(self, cmd: ApplyRankFloorProtectionView) -> (
        RankedStandingView,
        Reply<EventView>,
    ) {
        match self.apply_rank_floor_protection_fault(cmd) {
            Some(message) => (self, shared::violation(message)),
            None => {
                let event = EventView::RankFloorProtected(RankFloorProtectedView {
                    standing_id: cmd.standing_id,
                    player_id: cmd.player_id,
                    tier_floor: self.tier_floor,
                });
                (
                    RankedStandingView {
                        tier: self.tier_floor.higher(self.tier),
                        events: self.events.push(event),
                        ..self
                    },
                    Ok(seq![event]),
                )
            },
        }
    }

    /// The message of the first rule that refuses an [`AwardStar`], if one does.
    pub open spec fn award_star_fault(
        self,
        cmd: AwardStarView,
    ) -> Option<Seq<char>> {
        if cmd.standing_id != self.id {
            Some(
                "command targets standing '"@ + cmd.standing_id
                    + "' but this aggregate records '"@ + self.id + "'"@,
            )
        } else if text::is_blank_text(cmd.player_id) {
            Some("standing '"@ + self.id + "' requires a valid playerId to award a star"@)
        } else if cmd.player_id != self.player_id {
            Some(
                "command names player '"@ + cmd.player_id + "' but standing '"@ + self.id
                    + "' belongs to '"@ + self.player_id + "'"@,
            )
        } else if cmd.streak_bonus && self.win_streak == 0 {
            Some(
                "standing '"@ + self.id
                    + "' claims a streak bonus star without a live win streak; the bonus star is granted only by a win streak"@,
            )
        } else {
            self.rest_fault()
        }
    }

    /// The state after an [`AwardStar`], and the answer to it.
    pub open spec fn award_star(self, cmd: AwardStarView) -> (
        RankedStandingView,
        Reply<EventView>,
    ) {
        match self.award_star_fault(cmd) {
            Some(message) => (self, shared::violation(message)),
            None => {
                let granted: u8 = if cmd.streak_bonus {
                    2
                } else {
                    1
                };
                let total = self.stars + granted;
                let awarded = EventView::StarAwarded(StarAwardedView {
                    standing_id: cmd.standing_id,
                    player_id: cmd.player_id,
                    tier: self.tier,
                    stars_awarded: granted,
                    streak_bonus: cmd.streak_bonus,
                });
                if total < STARS_PER_TIER {
                    (
                        RankedStandingView {
                            stars: total as u8,
                            bonus_star: cmd.streak_bonus,
                            events: self.events.push(awarded),
                            ..self
                        },
                        Ok(seq![awarded]),
                    )
                } else if self.tier is Legend {
                    (
                        RankedStandingView {
                            stars: STARS_PER_TIER,
                            events: self.events.push(awarded),
                            ..self
                        },
                        Ok(seq![awarded]),
                    )
                } else {
                    let promoted = EventView::RankPromoted(RankPromotedView {
                        standing_id: cmd.standing_id,
                        player_id: cmd.player_id,
                        from_tier: self.tier,
                        to_tier: self.tier.above(),
                    });
                    (
                        RankedStandingView {
                            tier: self.tier.above(),
                            stars: (total - STARS_PER_TIER) as u8,
                            bonus_star: false,
                            tier_floor: if self.tier.above().is_anti_tilt() {
                                self.tier_floor.higher(self.tier.above())
                            } else {
                                self.tier_floor
                            },
                            events: self.events.push(awarded).push(promoted),
                            ..self
                        },
                        Ok(seq![awarded, promoted]),
                    )
                }
            },
        }
    }

    /// The message of the first rule that refuses an [`ApplyDisconnectPenalty`], if one does.
    pub open spec fn apply_disconnect_penalty_fault(
        self,
        cmd: ApplyDisconnectPenaltyView,
    ) -> Option<Seq<char>> {
        if cmd.standing_id != self.id {
            Some(
                "command targets standing '"@ + cmd.standing_id
                    + "' but this aggregate records '"@ + self.id + "'"@,
            )
        } else if text::is_blank_text(cmd.player_id) {
            Some(
                "standing '"@ + self.id
                    + "' requires a valid playerId to apply a disconnect penalty"@,
            )
        } else if cmd.player_id != self.player_id {
            Some(
                "command names player '"@ + cmd.player_id + "' but standing '"@ + self.id
                    + "' belongs to '"@ + self.player_id + "'"@,
            )
        } else if cmd.prior_penalties != self.abandonments {
            Some(
                "command reports "@ + text::decimal(cmd.prior_penalties as int)
                    + " prior penalties but standing '"@ + self.id + "' has recorded "@
                    + text::decimal(self.abandonments as int)
                    + " abandonments; the prior-penalty count must match the standing's record"@,
            )
        } else {
            self.rest_fault()
        }
    }

    /// The state after an [`ApplyDisconnectPenalty`], and the answer to it.
    pub open spec fn apply_disconnect_penalty(self, cmd: ApplyDisconnectPenaltyView) -> (
        RankedStandingView,
        Reply<EventView>,
    ) {
        match self.apply_disconnect_penalty_fault(cmd) {
            Some(message) => (self, shared::violation(message)),
            None => {
                let abandonments: u32 = if self.abandonments < u32::MAX {
                    (self.abandonments + 1) as u32
                } else {
                    u32::MAX
                };
                let penalty = disconnect_penalty_owed(abandonments as nat) as u32;
                let event = EventView::DisconnectPenaltyApplied(DisconnectPenaltyAppliedView {
                    standing_id: cmd.standing_id,
                    player_id: cmd.player_id,
                    prior_penalties: cmd.prior_penalties,
                    penalty,
                    abandonments,
                });
                (
                    RankedStandingView {
                        abandonments,
                        disconnect_penalty: penalty,
                        events: self.events.push(event),
                        ..self
                    },
                    Ok(seq![event]),
                )
            },
        }
    }

    /// The message of the first rule that refuses a [`RecordMatchResult`], if one does.
    pub open spec fn record_match_result_fault(
        self,
        cmd: RecordMatchResultView,
    ) -> Option<Seq<char>> {
        if cmd.standing_id != self.id {
            Some(
                "command targets standing '"@ + cmd.standing_id
                    + "' but this aggregate records '"@ + self.id + "'"@,
            )
        } else if text::is_blank_text(cmd.player_id) {
            Some(
                "standing '"@ + self.id + "' requires a valid playerId to record a match result"@,
            )
        } else if cmd.player_id != self.player_id {
            Some(
                "command names player '"@ + cmd.player_id + "' but standing '"@ + self.id
                    + "' belongs to '"@ + self.player_id + "'"@,
            )
        } else if text::is_blank_text(cmd.match_id) {
            Some("standing '"@ + self.id + "' requires a valid matchId to record a match result"@)
        } else if !cmd.opponent_rating.is_positive_finite() {
            Some(
                "standing '"@ + self.id + "' requires a finite, positive opponentRating but got "@
                    + cmd.opponent_rating.shown,
            )
        } else {
            self.rest_fault()
        }
    }

    /// The state after a [`RecordMatchResult`], and the answer to it.
    pub open spec fn record_match_result(self, cmd: RecordMatchResultView, estimate: Estimate) -> (
        RankedStandingView,
        Reply<EventView>,
    ) {
        match self.record_match_result_fault(cmd) {
            Some(message) => (self, shared::violation(message)),
            None => {
                let recorded = EventView::MatchResultRecorded(MatchResultRecordedView {
                    standing_id: cmd.standing_id,
                    player_id: cmd.player_id,
                    match_id: cmd.match_id,
                    outcome: cmd.outcome,
                });
                let recalculated = EventView::RatingRecalculated(RatingRecalculatedView {
                    standing_id: cmd.standing_id,
                    player_id: cmd.player_id,
                    rating: estimate.rating,
                    rating_deviation: estimate.rating_deviation,
                    volatility: estimate.volatility,
                    rated_matches: (self.rated_matches + 1) as u32,
                });
                (
                    RankedStandingView {
                        rating: estimate.rating,
                        rating_deviation: estimate.rating_deviation,
                        volatility: estimate.volatility,
                        rated_matches: (self.rated_matches + 1) as u32,
                        ratings_synced_at: (self.rated_matches + 1) as u32,
                        matches_played: (self.matches_played + 1) as u32,
                        events: self.events.push(recorded).push(recalculated),
                        ..self
                    },
                    Ok(seq![recorded, recalculated]),
                )
            },
        }
    }

    /// Whether the match counters have room for one more match.
    pub open spec fn can_count_a_match(self) -> bool {
        self.rated_matches < u32::MAX && self.matches_played < u32::MAX
    }

    /// The state after a command, and the answer to it.
    pub open spec fn execute(self, command: CommandView<PayloadView<RequestView>>) -> (
        RankedStandingView,
        Reply<EventView>,
    ) {
        if command.name == ApplyRankFloorProtection::COMMAND@ {
            match command.payload {
                PayloadView::Decoded(RequestView::ApplyRankFloorProtection(cmd)) => {
                    self.apply_rank_floor_protection(cmd)
                },
                PayloadView::Decoded(_) => (
                    self,
                    shared::malformed_reply(ApplyRankFloorProtection::COMMAND@, OTHER_COMMAND@),
                ),
                PayloadView::Malformed(complaint) => (
                    self,
                    shared::malformed_reply(ApplyRankFloorProtection::COMMAND@, complaint),
                ),
            }
        } else if command.name == AwardStar::COMMAND@ {
            match command.payload {
                PayloadView::Decoded(RequestView::AwardStar(cmd)) => self.award_star(cmd),
                PayloadView::Decoded(_) => (
                    self,
                    shared::malformed_reply(AwardStar::COMMAND@, OTHER_COMMAND@),
                ),
                PayloadView::Malformed(complaint) => (
                    self,
                    shared::malformed_reply(AwardStar::COMMAND@, complaint),
                ),
            }
        } else if command.name == ElevateSmurf::COMMAND@ {
            match command.payload {
                PayloadView::Decoded(RequestView::ElevateSmurf(cmd)) => self.elevate_smurf(cmd),
                PayloadView::Decoded(_) => (
                    self,
                    shared::malformed_reply(ElevateSmurf::COMMAND@, OTHER_COMMAND@),
                ),
                PayloadView::Malformed(complaint) => (
                    self,
                    shared::malformed_reply(ElevateSmurf::COMMAND@, complaint),
                ),
            }
        } else if command.name == RecordMatchResult::COMMAND@ {
            match command.payload {
                PayloadView::Decoded(RequestView::RecordMatchResult(cmd, estimate)) =>
                    self.record_match_result(cmd, estimate),
                PayloadView::Decoded(_) => (
                    self,
                    shared::malformed_reply(RecordMatchResult::COMMAND@, OTHER_COMMAND@),
                ),
                PayloadView::Malformed(complaint) => (
                    self,
                    shared::malformed_reply(RecordMatchResult::COMMAND@, complaint),
                ),
            }
        } else if command.name == ApplyDisconnectPenalty::COMMAND@ {
            match command.payload {
                PayloadView::Decoded(RequestView::ApplyDisconnectPenalty(cmd)) => {
                    self.apply_disconnect_penalty(cmd)
                },
                PayloadView::Decoded(_) => (
                    self,
                    shared::malformed_reply(ApplyDisconnectPenalty::COMMAND@, OTHER_COMMAND@),
                ),
                PayloadView::Malformed(complaint) => (
                    self,
                    shared::malformed_reply(ApplyDisconnectPenalty::COMMAND@, complaint),
                ),
            }
        } else {
            (self, shared::unknown(AGGREGATE_TYPE@, command.name))
        }
    }

    /// Whether the match counters can take the command: only a match result that
    /// is not refused makes them advance.
    pub open spec fn admits(self, command: CommandView<PayloadView<RequestView>>) -> bool {
        command.name == RecordMatchResult::COMMAND@ ==> match command.payload {
            PayloadView::Decoded(RequestView::RecordMatchResult(cmd, _)) =>
                self.record_match_result_fault(cmd) is None ==> self.can_count_a_match(),
            _ => true,
        }
    }
}

impl RankedStanding {
    /// The name of the aggregate type.
    pub fn aggregate_type() -> (r: &'static str)
        ensures
            r@ == AGGREGATE_TYPE@,
    {
        AGGREGATE_TYPE
    }

    /// Creates a standing identified by `id`, at the ladder entry (Block, no stars)
    /// with the default, freshly synced skill estimate and no penalties.
    pub fn new(id: &str) -> (r: Self)
        ensures
            r@ == (RankedStandingView {
                id: id@,
                events: Seq::empty(),
                player_id: Seq::empty(),
                rating: DEFAULT_RATING,
                rating_deviation: DEFAULT_RATING_DEVIATION,
                volatility: DEFAULT_VOLATILITY,
                rated_matches: 0,
                ratings_synced_at: 0,
                tier: Tier::Block,
                stars: 0,
                bonus_star: false,
                win_streak: 0,
                tier_floor: Tier::Block,
                matches_played: 0,
                suspected_smurf: false,
                elevated: false,
                abandonments: 0,
                disconnect_penalty: 0,
            }),
    {
        RankedStanding {
            id: id.to_owned(),
            root: AggregateRoot::new(),
            player_id: String::new(),
            rating: DEFAULT_RATING,
            rating_deviation: DEFAULT_RATING_DEVIATION,
            volatility: DEFAULT_VOLATILITY,
            rated_matches: 0,
            ratings_synced_at: 0,
            tier: Tier::Block,
            stars: 0,
            bonus_star: false,
            win_streak: 0,
            tier_floor: Tier::Block,
            matches_played: 0,
            suspected_smurf: false,
            elevated: false,
            abandonments: 0,
            disconnect_penalty: 0,
        }
    }

    /// This aggregate's identity.
    pub fn id(&self) -> (r: &str)
        ensures
            r@ == self@.id,
    {
        self.id.as_str()
    }

    /// The version: the number of events recorded.
    pub fn version(&self) -> (r: u64)
        ensures
            r == self@.events.len(),
    {
        self.root.version()
    }

    /// The events recorded and not yet persisted.
    pub fn uncommitted_events(&self) -> (r: &[Event])
        ensures
            shared::views(r@) == self@.events,
    {
        self.root.uncommitted_events()
    }

    /// Ratings-freshness invariant: the Glicko-2 rating, RD, and volatility are
    /// recalculated after every rated match, so the estimate may not lag the
    /// matches played.
    pub fn ensure_ratings_recalculated(&self) -> (r: Result<(), DomainError>)
        ensures
            shared::broken(r) == shared::owed(self@.ratings_fault()),
    {
        if self.ratings_synced_at != self.rated_matches {
            return shared::refuse(
                text::cat7(
                    "standing '", &self.id, "' has a Glicko-2 estimate synced at match ",
                    &text::show(self.ratings_synced_at as u64), " but has played ",
                    &text::show(self.rated_matches as u64),
                    " rated matches; rating, RD, and volatility are recalculated after every rated match",
                ),
            );
        }
        Ok(())
    }

    /// Visible-rank invariant: the rank advances through tiers Block→Legend with
    /// [`STARS_PER_TIER`] stars per tier; a win streak grants at most one bonus
    /// star, and only while a streak is live.
    fn ensure_visible_rank_wellformed(&self) -> (r: Result<(), DomainError>)
        ensures
            shared::broken(r) == shared::owed(self@.rank_fault()),
    {
        if self.stars > STARS_PER_TIER {
            return shared::refuse(
                text::cat9(
                    "standing '", &self.id, "' shows ", &text::show(self.stars as u64),
                    " stars in tier ", self.tier.name(), " but a tier holds at most ",
                    &text::show(STARS_PER_TIER as u64), " stars before promotion",
                ),
            );
        }
        if self.bonus_star && self.win_streak == 0 {
            return shared::refuse(
                text::cat3(
                    "standing '", &self.id,
                    "' carries a bonus star without a live win streak; the bonus star is granted only by a win streak",
                ),
            );
        }
        Ok(())
    }

    /// Rank-floor invariant: rank-floor protection prevents demotion below a
    /// reached tier floor. The anti-tilt guarantee applies to the Block/Corner
    /// brackets, and a standing may never already sit below its own floor.
    fn ensure_floor_protection_valid(&self) -> (r: Result<(), DomainError>)
        ensures
            shared::broken(r) == shared::owed(self@.floor_fault()),
    {
        if !self.tier_floor.is_anti_tilt() {
            return shared::refuse(
                text::cat5(
                    "standing '", &self.id, "' asks to protect a ", self.tier_floor.name(),
                    " floor, but rank-floor (anti-tilt) protection applies only to the Block/Corner brackets",
                ),
            );
        }
        if self.tier.rank() < self.tier_floor.rank() {
            return shared::refuse(
                text::cat7(
                    "standing '", &self.id, "' sits at ", self.tier.name(), " below its reached ",
                    self.tier_floor.name(),
                    " floor; rank-floor protection prevents demotion below the floor",
                ),
            );
        }
        Ok(())
    }

    /// Smurf-elevation invariant: a suspected smurf is auto-elevated to a higher
    /// bracket after [`SMURF_ELEVATION_MATCHES`] matches, so a suspected smurf past
    /// that threshold must already be elevated.
    fn ensure_smurf_elevated(&self) -> (r: Result<(), DomainError>)
        ensures
            shared::broken(r) == shared::owed(self@.smurf_fault()),
    {
        if self.suspected_smurf && self.matches_played >= SMURF_ELEVATION_MATCHES && !self.elevated {
            return shared::refuse(
                text::cat7(
                    "standing '", &self.id, "' is a suspected smurf with ",
                    &text::show(self.matches_played as u64), " matches (≥",
                    &text::show(SMURF_ELEVATION_MATCHES as u64),
                    ") but has not been elevated to a higher bracket",
                ),
            );
        }
        Ok(())
    }

    /// Disconnect-escalation invariant: penalties escalate by doubling on repeated
    /// abandonment, so the recorded penalty must match the doubling schedule for
    /// the number of abandonments.
    fn ensure_disconnect_penalty_escalates(&self) -> (r: Result<(), DomainError>)
        ensures
            shared::broken(r) == shared::owed(self@.ledger_fault()),
    {
        let expected: u32 = Self::expected_disconnect_penalty(self.abandonments);
        if self.disconnect_penalty != expected {
            return shared::refuse(
                text::cat9(
                    "standing '", &self.id, "' charges a ",
                    &text::show(self.disconnect_penalty as u64), "-point disconnect penalty for ",
                    &text::show(self.abandonments as u64),
                    " abandonments but the doubling schedule owes ", &text::show(expected as u64),
                    "; penalties escalate by doubling on repeated abandonment",
                ),
            );
        }
        Ok(())
    }

    /// Smurf-elevation eligibility: a standing may be elevated only when it is a
    /// *suspected smurf* that has reached [`SMURF_ELEVATION_MATCHES`] matches and
    /// has not already been elevated. This is the transition that *establishes* the
    /// smurf-elevation rest invariant, so it gates on eligibility rather than on
    /// that invariant, which the state before it violates.
    fn ensure_smurf_elevation_warranted(&self) -> (r: Result<(), DomainError>)
        ensures
            shared::broken(r) == shared::owed(self@.elevation_fault()),
    {
        if self.elevated {
            return shared::refuse(
                text::cat3(
                    "standing '", &self.id,
                    "' has already been elevated to a higher bracket; a smurf is elevated at most once",
                ),
            );
        }
        if !(self.suspected_smurf && self.matches_played >= SMURF_ELEVATION_MATCHES) {
            return shared::refuse(
                text::cat9(
                    "standing '", &self.id,
                    "' is not eligible for smurf elevation: only a suspected smurf is auto-elevated to a higher bracket, and only after ",
                    &text::show(SMURF_ELEVATION_MATCHES as u64), " matches (has ",
                    &text::show(self.matches_played as u64), ", suspected: ",
                    text::show_truth(self.suspected_smurf), ")",
                ),
            );
        }
        Ok(())
    }

    /// Checks the five rest invariants, in order.
    fn ensure_at_rest(&self) -> (r: Result<(), DomainError>)
        ensures
            shared::broken(r) == shared::owed(self@.rest_fault()),
    {
        if let Err(error) = self.ensure_ratings_recalculated() {
            return Err(error);
        }
        if let Err(error) = self.ensure_visible_rank_wellformed() {
            return Err(error);
        }
        if let Err(error) = self.ensure_floor_protection_valid() {
            return Err(error);
        }
        if let Err(error) = self.ensure_smurf_elevated() {
            return Err(error);
        }
        self.ensure_disconnect_penalty_escalates()
    }

    /// The disconnect penalty owed for `abandonments` losses under the doubling
    /// schedule: `0` for none, then `BASE`, `2·BASE`, `4·BASE`, … Saturates
    /// rather than overflowing on an implausibly long abandonment history.
    pub fn expected_disconnect_penalty(abandonments: u32) -> (r: u32)
        ensures
            r == disconnect_penalty_owed(abandonments as nat),
    {
        let mut owed: u32 = BASE_DISCONNECT_PENALTY;
        if abandonments == 0 {
            return 0;
        }
        proof {
            vstd::arithmetic::power2::lemma2_to64();
        }
        let mut n: u32 = 1;
        while n < abandonments
            invariant
                1 <= n <= abandonments,
                owed == disconnect_penalty_owed(n as nat),
            decreases abandonments - n,
        {
            if owed == u32::MAX {
                proof {
                    law_penalty_is_monotone(n as nat, abandonments as nat);
                }
                return u32::MAX;
            }
            proof {
                law_penalty_doubles(n as nat);
            }
            owed = if owed <= u32::MAX / 2 {
                owed * 2
            } else {
                u32::MAX
            };
            n += 1;
        }
        owed
    }

    /// Handles a smurf elevation: the command must name this standing, its player
    /// and the matches it has recorded; the rest invariants other than smurf
    /// elevation must hold and elevation must be warranted. The standing is
    /// promoted to the next bracket.
    fn elevate_smurf(&mut self, cmd: ElevateSmurf) -> (r: Result<
        Vec<Event>,
        DomainError,
    >)
        ensures
            final(self)@ == old(self)@.elevate_smurf(cmd@).0,
            shared::reply(r) == old(self)@.elevate_smurf(cmd@).1,
    {
        if !text::same(&cmd.standing_id, &self.id) {
            return shared::refuse(
                text::cat5(
                    "command targets standing '", &cmd.standing_id,
                    "' but this aggregate records '", &self.id, "'",
                ),
            );
        }
        if text::is_blank(&cmd.player_id) {
            return shared::refuse(
                text::cat3(
                    "standing '", &self.id, "' requires a valid playerId to elevate a smurf",
                ),
            );
        }
        if !text::same(&cmd.player_id, &self.player_id) {
            return shared::refuse(
                text::cat7(
                    "command names player '", &cmd.player_id, "' but standing '", &self.id,
                    "' belongs to '", &self.player_id, "'",
                ),
            );
        }
        if cmd.match_count != self.matches_played {
            return shared::refuse(
                text::cat7(
                    "command reports ", &text::show(cmd.match_count as u64),
                    " matches but standing '", &self.id, "' has recorded ",
                    &text::show(self.matches_played as u64),
                    "; the elevation match count must match the standing's record",
                ),
            );
        }
        if let Err(error) = self.ensure_ratings_recalculated() {
            return Err(error);
        }
        if let Err(error) = self.ensure_visible_rank_wellformed() {
            return Err(error);
        }
        if let Err(error) = self.ensure_floor_protection_valid() {
            return Err(error);
        }
        if let Err(error) = self.ensure_disconnect_penalty_escalates() {
            return Err(error);
        }
        if let Err(error) = self.ensure_smurf_elevation_warranted() {
            return Err(error);
        }
        let elevated_to = self.tier.elevated_bracket();
        let event = Event::SmurfElevated(
            SmurfElevated {
                standing_id: cmd.standing_id,
                player_id: cmd.player_id,
                match_count: cmd.match_count,
                elevated_to,
            },
        );
        // Promote to the higher bracket and record that this smurf is now elevated.
        self.tier = elevated_to;
        self.elevated = true;
        self.root.record(event.clone());
        Ok(shared::only(event))
    }

    /// Handles a rank-floor protection: the command must name this standing and its
    /// player, and every rest invariant must hold. The visible rank is pinned at or
    /// above the reached floor.
    fn apply_rank_floor_protection(&mut self, cmd: ApplyRankFloorProtection) -> (r: Result<
        Vec<Event>,
        DomainError,
    >)
        ensures
            final(self)@ == old(self)@.apply_rank_floor_protection(cmd@).0,
            shared::reply(r) == old(self)@.apply_rank_floor_protection(cmd@).1,
    {
        if !text::same(&cmd.standing_id, &self.id) {
            return shared::refuse(
                text::cat5(
                    "command targets standing '", &cmd.standing_id,
                    "' but this aggregate records '", &self.id, "'",
                ),
            );
        }
        if text::is_blank(&cmd.player_id) {
            return shared::refuse(
                text::cat3(
                    "standing '", &self.id,
                    "' requires a valid playerId to apply rank-floor protection",
                ),
            );
        }
        if !text::same(&cmd.player_id, &self.player_id) {
            return shared::refuse(
                text::cat7(
                    "command names player '", &cmd.player_id, "' but standing '", &self.id,
                    "' belongs to '", &self.player_id, "'",
                ),
            );
        }
        if let Err(error) = self.ensure_at_rest() {
            return Err(error);
        }
        let event = Event::RankFloorProtected(
            RankFloorProtected {
                standing_id: cmd.standing_id,
                player_id: cmd.player_id,
                tier_floor: self.tier_floor,
            },
        );
        // A loss can no longer demote below the floor, so the current tier is held at
        // or above it.
        self.tier = self.tier_floor.max_rank(self.tier);
        self.root.record(event.clone());
        Ok(shared::only(event))
    }

    /// Handles a star: the command must name this standing and its player, a streak
    /// bonus needs a live streak, and every rest invariant must hold. One star is
    /// granted, or two with the bonus; where they fill the tier the visible rank
    /// promotes, the surplus is carried over and a newly reached anti-tilt tier
    /// becomes the floor.
    fn award_star(&mut self, cmd: AwardStar) -> (r: Result<
        Vec<Event>,
        DomainError,
    >)
        ensures
            final(self)@ == old(self)@.award_star(cmd@).0,
            shared::reply(r) == old(self)@.award_star(cmd@).1,
    {
        if !text::same(&cmd.standing_id, &self.id) {
            return shared::refuse(
                text::cat5(
                    "command targets standing '", &cmd.standing_id,
                    "' but this aggregate records '", &self.id, "'",
                ),
            );
        }
        if text::is_blank(&cmd.player_id) {
            return shared::refuse(
                text::cat3(
                    "standing '", &self.id, "' requires a valid playerId to award a star",
                ),
            );
        }
        if !text::same(&cmd.player_id, &self.player_id) {
            return shared::refuse(
                text::cat7(
                    "command names player '", &cmd.player_id, "' but standing '", &self.id,
                    "' belongs to '", &self.player_id, "'",
                ),
            );
        }
        if cmd.streak_bonus && self.win_streak == 0 {
            return shared::refuse(
                text::cat3(
                    "standing '", &self.id,
                    "' claims a streak bonus star without a live win streak; the bonus star is granted only by a win streak",
                ),
            );
        }
        if let Err(error) = self.ensure_at_rest() {
            return Err(error);
        }
        // One base star, plus a bonus star when the win extends a live streak.
        let stars_awarded: u8 = if cmd.streak_bonus {
            2
        } else {
            1
        };
        let total: u8 = self.stars + stars_awarded;
        let awarded = Event::StarAwarded(
            StarAwarded {
                standing_id: cmd.standing_id.clone(),
                player_id: cmd.player_id.clone(),
                tier: self.tier,
                stars_awarded,
                streak_bonus: cmd.streak_bonus,
            },
        );
        self.root.record(awarded.clone());
        if total < STARS_PER_TIER {
            self.stars = total;
            self.bonus_star = cmd.streak_bonus;
            return Ok(shared::only(awarded));
        }
        // Filling the tier's star cap promotes to the next tier (if one exists),
        // carrying any surplus stars into it and raising the anti-tilt floor.
        if let Some(next) = self.tier.next() {
            let from_tier = self.tier;
            self.tier = next;
            self.stars = total - STARS_PER_TIER;
            self.bonus_star = false;
            // A newly-reached anti-tilt bracket becomes the protected floor.
            if next.is_anti_tilt() {
                self.tier_floor = self.tier_floor.max_rank(next);
            }
            let promoted = Event::RankPromoted(
                RankPromoted {
                    standing_id: cmd.standing_id,
                    player_id: cmd.player_id,
                    from_tier,
                    to_tier: next,
                },
            );
            self.root.record(promoted.clone());
            Ok(shared::both(awarded, promoted))
        } else {
            // Already at the apex: hold at the star cap, no promotion.
            self.stars = STARS_PER_TIER;
            Ok(shared::only(awarded))
        }
    }

    /// Handles a disconnect penalty: the command must name this standing, its
    /// player and the abandonments it has recorded, and every rest invariant must
    /// hold. One more abandonment is recorded and the next penalty of the doubling
    /// schedule is charged.
    fn apply_disconnect_penalty(&mut self, cmd: ApplyDisconnectPenalty) -> (r: Result<
        Vec<Event>,
        DomainError,
    >)
        ensures
            final(self)@ == old(self)@.apply_disconnect_penalty(cmd@).0,
            shared::reply(r) == old(self)@.apply_disconnect_penalty(cmd@).1,
    {
        if !text::same(&cmd.standing_id, &self.id) {
            return shared::refuse(
                text::cat5(
                    "command targets standing '", &cmd.standing_id,
                    "' but this aggregate records '", &self.id, "'",
                ),
            );
        }
        if text::is_blank(&cmd.player_id) {
            return shared::refuse(
                text::cat3(
                    "standing '", &self.id,
                    "' requires a valid playerId to apply a disconnect penalty",
                ),
            );
        }
        if !text::same(&cmd.player_id, &self.player_id) {
            return shared::refuse(
                text::cat7(
                    "command names player '", &cmd.player_id, "' but standing '", &self.id,
                    "' belongs to '", &self.player_id, "'",
                ),
            );
        }
        if cmd.prior_penalties != self.abandonments {
            return shared::refuse(
                text::cat7(
                    "command reports ", &text::show(cmd.prior_penalties as u64),
                    " prior penalties but standing '", &self.id, "' has recorded ",
                    &text::show(self.abandonments as u64),
                    " abandonments; the prior-penalty count must match the standing's record",
                ),
            );
        }
        if let Err(error) = self.ensure_at_rest() {
            return Err(error);
        }
        // Charge the next abandonment: the penalty doubles from the prior charge.
        let abandonments: u32 = self.abandonments.saturating_add(1);
        let penalty: u32 = Self::expected_disconnect_penalty(abandonments);
        let event = Event::DisconnectPenaltyApplied(
            DisconnectPenaltyApplied {
                standing_id: cmd.standing_id,
                player_id: cmd.player_id,
                prior_penalties: cmd.prior_penalties,
                penalty,
                abandonments,
            },
        );
        // Record the escalated penalty, keeping the ledger on the doubling schedule.
        self.abandonments = abandonments;
        self.disconnect_penalty = penalty;
        self.root.record(event.clone());
        Ok(shared::only(event))
    }

    /// Handles a match result: the command must name this standing, its player, a
    /// match and a finite, positive opponent rating, and every rest invariant must
    /// hold. The counters advance and `estimate`, the recomputed Glicko-2 estimate,
    /// takes the place of the former one.
    fn record_match_result(&mut self, cmd: RecordMatchResult, estimate: Estimate) -> (r: Result<
        Vec<Event>,
        DomainError,
    >)
        requires
            old(self)@.record_match_result_fault(cmd@) is None ==> old(self)@.can_count_a_match(),
        ensures
            final(self)@ == old(self)@.record_match_result(cmd@, estimate).0,
            shared::reply(r) == old(self)@.record_match_result(cmd@, estimate).1,
    {
        if let Err(error) = self.check_match_result(&cmd) {
            return Err(error);
        }
        // Ingest the rated match: the counters advance and the fresh estimate is
        // synced to the new count, upholding the ratings-freshness invariant.
        self.rated_matches += 1;
        self.matches_played += 1;
        self.rating = estimate.rating;
        self.rating_deviation = estimate.rating_deviation;
        self.volatility = estimate.volatility;
        self.ratings_synced_at = self.rated_matches;
        let recorded = Event::MatchResultRecorded(
            MatchResultRecorded {
                standing_id: cmd.standing_id.clone(),
                player_id: cmd.player_id.clone(),
                match_id: cmd.match_id,
                outcome: cmd.outcome,
            },
        );
        let recalculated = Event::RatingRecalculated(
            RatingRecalculated {
                standing_id: cmd.standing_id,
                player_id: cmd.player_id,
                rating: estimate.rating,
                rating_deviation: estimate.rating_deviation,
                volatility: estimate.volatility,
                rated_matches: self.rated_matches,
            },
        );
        self.root.record(recorded.clone());
        self.root.record(recalculated.clone());
        Ok(shared::both(recorded, recalculated))
    }

    /// Whether a match result would be recorded, or else why it is refused. The
    /// Glicko-2 update is worth computing only where this says `Ok`.
    pub fn check_match_result(&self, cmd: &RecordMatchResult) -> (r: Result<(), DomainError>)
        ensures
            shared::broken(r) == shared::owed(self@.record_match_result_fault(cmd@)),
    {
        if !text::same(&cmd.standing_id, &self.id) {
            return shared::refuse(
                text::cat5(
                    "command targets standing '", &cmd.standing_id,
                    "' but this aggregate records '", &self.id, "'",
                ),
            );
        }
        if text::is_blank(&cmd.player_id) {
            return shared::refuse(
                text::cat3(
                    "standing '", &self.id, "' requires a valid playerId to record a match result",
                ),
            );
        }
        if !text::same(&cmd.player_id, &self.player_id) {
            return shared::refuse(
                text::cat7(
                    "command names player '", &cmd.player_id, "' but standing '", &self.id,
                    "' belongs to '", &self.player_id, "'",
                ),
            );
        }
        if text::is_blank(&cmd.match_id) {
            return shared::refuse(
                text::cat3(
                    "standing '", &self.id, "' requires a valid matchId to record a match result",
                ),
            );
        }
        if !cmd.opponent_rating.is_positive_finite() {
            return shared::refuse(
                text::cat4(
                    "standing '", &self.id,
                    "' requires a finite, positive opponentRating but got ",
                    &cmd.opponent_rating.shown,
                ),
            );
        }
        if let Err(error) = self.ensure_at_rest() {
            return Err(error);
        }
        Ok(())
    }

    /// Whether the match counters have room for one more match.
    pub fn can_count_a_match(&self) -> (r: bool)
        ensures
            r == self@.can_count_a_match(),
    {
        self.rated_matches < u32::MAX && self.matches_played < u32::MAX
    }

    /// Carries out a command, or says why it is refused.
    pub fn execute(&mut self, command: Command<Payload<Request>>) -> (r: Result<
        Vec<Event>,
        DomainError,
    >)
        requires
            old(self)@.admits(command@),
        ensures
            final(self)@ == old(self)@.execute(command@).0,
            shared::reply(r) == old(self)@.execute(command@).1,
    {
        if text::same(&command.name, ApplyRankFloorProtection::COMMAND) {
            match command.payload {
                Payload::Decoded(Request::ApplyRankFloorProtection(cmd)) => {
                    self.apply_rank_floor_protection(cmd)
                },
                Payload::Decoded(_) => {
                    shared::malformed(ApplyRankFloorProtection::COMMAND, OTHER_COMMAND)
                },
                Payload::Malformed(complaint) => {
                    shared::malformed(ApplyRankFloorProtection::COMMAND, &complaint)
                },
            }
        } else if text::same(&command.name, AwardStar::COMMAND) {
            match command.payload {
                Payload::Decoded(Request::AwardStar(cmd)) => self.award_star(cmd),
                Payload::Decoded(_) => shared::malformed(AwardStar::COMMAND, OTHER_COMMAND),
                Payload::Malformed(complaint) => shared::malformed(AwardStar::COMMAND, &complaint),
            }
        } else if text::same(&command.name, ElevateSmurf::COMMAND) {
            match command.payload {
                Payload::Decoded(Request::ElevateSmurf(cmd)) => self.elevate_smurf(cmd),
                Payload::Decoded(_) => shared::malformed(ElevateSmurf::COMMAND, OTHER_COMMAND),
                Payload::Malformed(complaint) => {
                    shared::malformed(ElevateSmurf::COMMAND, &complaint)
                },
            }
        } else if text::same(&command.name, RecordMatchResult::COMMAND) {
            match command.payload {
                Payload::Decoded(Request::RecordMatchResult(cmd, estimate)) =>
                    self.record_match_result(cmd, estimate),
                Payload::Decoded(_) => shared::malformed(RecordMatchResult::COMMAND, OTHER_COMMAND),
                Payload::Malformed(complaint) => {
                    shared::malformed(RecordMatchResult::COMMAND, &complaint)
                },
            }
        } else if text::same(&command.name, ApplyDisconnectPenalty::COMMAND) {
            match command.payload {
                Payload::Decoded(Request::ApplyDisconnectPenalty(cmd)) => {
                    self.apply_disconnect_penalty(cmd)
                },
                Payload::Decoded(_) => {
                    shared::malformed(ApplyDisconnectPenalty::COMMAND, OTHER_COMMAND)
                },
                Payload::Malformed(complaint) => {
                    shared::malformed(ApplyDisconnectPenalty::COMMAND, &complaint)
                },
            }
        } else {
            Err(DomainError::unknown_command(AGGREGATE_TYPE, command.name))
        }
    }

    /// The player who owns this standing.
    pub fn player_id(&self) -> (r: &str)
        ensures
            r@ == self@.player_id,
    {
        self.player_id.as_str()
    }

    /// The current visible tier.
    pub fn tier(&self) -> (r: Tier)
        ensures
            r == self@.tier,
    {
        self.tier
    }

    /// The reached tier floor a loss may not demote the player below.
    pub fn tier_floor(&self) -> (r: Tier)
        ensures
            r == self@.tier_floor,
    {
        self.tier_floor
    }

    /// The bits of the hidden Glicko-2 rating estimate.
    pub fn rating(&self) -> (r: u64)
        ensures
            r == self@.rating,
    {
        self.rating
    }

    /// The bits of the hidden Glicko-2 rating deviation (RD).
    pub fn rating_deviation(&self) -> (r: u64)
        ensures
            r == self@.rating_deviation,
    {
        self.rating_deviation
    }

    /// The rated matches this standing has played.
    pub fn rated_matches(&self) -> (r: u32)
        ensures
            r == self@.rated_matches,
    {
        self.rated_matches
    }

    /// The bits of the hidden Glicko-2 volatility.
    pub fn volatility(&self) -> (r: u64)
        ensures
            r == self@.volatility,
    {
        self.volatility
    }

    /// Sets the player who owns this standing.
    pub fn set_player(&mut self, player_id: &str)
        ensures
            final(self)@ == (RankedStandingView {
                player_id: player_id@,
                ..old(self)@
            }),
    {
        self.player_id = player_id.to_owned();
    }

    /// Sets the hidden Glicko-2 estimate, by its bits, and how many rated matches
    /// it reflects. Passing `synced_at == rated` marks the estimate fresh.
    pub fn set_ratings(
        &mut self,
        rating: u64,
        rating_deviation: u64,
        volatility: u64,
        rated: u32,
        synced_at: u32,
    )
        ensures
            final(self)@ == (RankedStandingView {
                rating: rating,
                rating_deviation: rating_deviation,
                volatility: volatility,
                rated_matches: rated,
                ratings_synced_at: synced_at,
                ..old(self)@
            }),
    {
        self.rating = rating;
        self.rating_deviation = rating_deviation;
        self.volatility = volatility;
        self.rated_matches = rated;
        self.ratings_synced_at = synced_at;
    }

    /// Sets the visible rank: the tier, its stars, and whether a live win streak
    /// granted the bonus star.
    pub fn set_visible_rank(&mut self, tier: Tier, stars: u8, bonus_star: bool, win_streak: u32)
        ensures
            final(self)@ == (RankedStandingView {
                tier: tier,
                stars: stars,
                bonus_star: bonus_star,
                win_streak: win_streak,
                ..old(self)@
            }),
    {
        self.tier = tier;
        self.stars = stars;
        self.bonus_star = bonus_star;
        self.win_streak = win_streak;
    }

    /// Sets the reached tier floor a loss may not demote the player below.
    pub fn set_tier_floor(&mut self, tier_floor: Tier)
        ensures
            final(self)@ == (RankedStandingView {
                tier_floor: tier_floor,
                ..old(self)@
            }),
    {
        self.tier_floor = tier_floor;
    }

    /// Records the smurf-elevation state: total matches, whether the account is a
    /// suspected smurf, and whether it has been elevated.
    pub fn set_smurf_state(&mut self, matches_played: u32, suspected_smurf: bool, elevated: bool)
        ensures
            final(self)@ == (RankedStandingView {
                matches_played: matches_played,
                suspected_smurf: suspected_smurf,
                elevated: elevated,
                ..old(self)@
            }),
    {
        self.matches_played = matches_played;
        self.suspected_smurf = suspected_smurf;
        self.elevated = elevated;
    }

    /// Records the disconnect ledger: number of abandonments and the currently
    /// charged penalty.
    pub fn set_disconnect_ledger(&mut self, abandonments: u32, disconnect_penalty: u32)
        ensures
            final(self)@ == (RankedStandingView {
                abandonments: abandonments,
                disconnect_penalty: disconnect_penalty,
                ..old(self)@
            }),
    {
        self.abandonments = abandonments;
        self.disconnect_penalty = disconnect_penalty;
    }
}

/// The repository port of the [`RankedStanding`] aggregate: an adapter implements
/// [`Repository`] for it and then this marker.
pub trait RankedStandingRepository: Repository<RankedStanding> {

}

/// The penalty for one more abandonment is twice the penalty before it, up to
/// what a `u32` holds.
pub proof fn law_penalty_doubles(n: nat)
    requires
        n > 0,
    ensures
        disconnect_penalty_owed(n + 1) == if 2 * disconnect_penalty_owed(n) <= u32::MAX {
            2 * disconnect_penalty_owed(n)
        } else {
            u32::MAX as nat
        },
{
    vstd::arithmetic::power2::lemma_pow2_unfold(n);
    let half = pow2((n - 1) as nat);
    assert(BASE_DISCONNECT_PENALTY as nat * (2 * half) == 2 * (BASE_DISCONNECT_PENALTY as nat
        * half)) by (nonlinear_arith);
}

/// More abandonments never owe a smaller penalty.
pub proof fn law_penalty_is_monotone(m: nat, n: nat)
    requires
        m <= n,
    ensures
        disconnect_penalty_owed(m) <= disconnect_penalty_owed(n),
    decreases n - m,
{
    if 0 < m && m < n {
        law_penalty_is_monotone(m, (n - 1) as nat);
        law_penalty_doubles((n - 1) as nat);
    }
}

impl RankedStandingView {
    /// A refused command changes nothing: neither the state nor the events.
    pub proof fn law_refusal_changes_nothing(
        self,
        command: CommandView<PayloadView<RequestView>>,
    )
        ensures
            self.execute(command).1 is Err ==> self.execute(command).0 == self,
    {
    }

    /// An accepted command records exactly the events it answers with, at least
    /// one, behind those recorded before.
    pub proof fn law_events_are_recorded(self, command: CommandView<PayloadView<RequestView>>)
        ensures
            self.execute(command).1 matches Ok(events) ==> {
                &&& events.len() > 0
                &&& self.execute(command).0.events == self.events + events
            },
    {
        if let Ok(events) = self.execute(command).1 {
            assert(self.execute(command).0.events =~= self.events + events);
        }
    }

    /// No command changes whose standing it is.
    pub proof fn law_identity_is_kept(self, command: CommandView<PayloadView<RequestView>>)
        ensures
            self.execute(command).0.id == self.id,
            self.execute(command).0.player_id == self.player_id,
    {
    }

    /// Whether the skill estimate reflects every rated match.
    pub open spec fn ratings_are_fresh(self) -> bool {
        self.ratings_synced_at == self.rated_matches
    }

    /// Whether the stars are within the cap, and a bonus star has a live streak.
    pub open spec fn rank_is_well_formed(self) -> bool {
        self.stars <= STARS_PER_TIER && (self.bonus_star ==> self.win_streak > 0)
    }

    /// Whether the floor is in the anti-tilt brackets and the tier not below it.
    pub open spec fn floor_is_valid(self) -> bool {
        self.tier_floor.is_anti_tilt() && self.tier_floor.rank() <= self.tier.rank()
    }

    /// Whether a suspected smurf past the threshold has been elevated.
    pub open spec fn smurf_is_settled(self) -> bool {
        self.suspected_smurf && self.matches_played >= SMURF_ELEVATION_MATCHES ==> self.elevated
    }

    /// Whether the penalty is the one that the doubling schedule owes.
    pub open spec fn ledger_is_on_schedule(self) -> bool {
        self.disconnect_penalty == disconnect_penalty_owed(self.abandonments as nat)
    }

    /// Whether all five rest invariants hold.
    pub open spec fn is_at_rest(self) -> bool {
        &&& self.ratings_are_fresh()
        &&& self.rank_is_well_formed()
        &&& self.floor_is_valid()
        &&& self.smurf_is_settled()
        &&& self.ledger_is_on_schedule()
    }

    /// A smurf is elevated exactly where the command names the standing, its player
    /// and its match count, the standing is a suspected smurf past the threshold
    /// that has not been elevated, and the other rest invariants hold.
    pub proof fn law_elevation_is_owed(self, cmd: ElevateSmurfView)
        ensures
            self.elevate_smurf(cmd).1 is Ok <==> {
                &&& cmd.standing_id == self.id
                &&& !text::is_blank_text(cmd.player_id)
                &&& cmd.player_id == self.player_id
                &&& cmd.match_count == self.matches_played
                &&& self.ratings_are_fresh()
                &&& self.rank_is_well_formed()
                &&& self.floor_is_valid()
                &&& self.ledger_is_on_schedule()
                &&& self.suspected_smurf
                &&& self.matches_played >= SMURF_ELEVATION_MATCHES
                &&& !self.elevated
            },
    {
    }

    /// The floor is protected exactly where the command names the standing and its
    /// player, and the standing is at rest.
    pub proof fn law_protection_is_owed(self, cmd: ApplyRankFloorProtectionView)
        ensures
            self.apply_rank_floor_protection(cmd).1 is Ok <==> {
                &&& cmd.standing_id == self.id
                &&& !text::is_blank_text(cmd.player_id)
                &&& cmd.player_id == self.player_id
                &&& self.is_at_rest()
            },
    {
    }

    /// A star is awarded exactly where the command names the standing and its
    /// player, a bonus has a live streak, and the standing is at rest.
    pub proof fn law_star_is_owed(self, cmd: AwardStarView)
        ensures
            self.award_star(cmd).1 is Ok <==> {
                &&& cmd.standing_id == self.id
                &&& !text::is_blank_text(cmd.player_id)
                &&& cmd.player_id == self.player_id
                &&& cmd.streak_bonus ==> self.win_streak > 0
                &&& self.is_at_rest()
            },
    {
    }

    /// A penalty is charged exactly where the command names the standing, its
    /// player and its abandonments, and the standing is at rest.
    pub proof fn law_penalty_is_owed(self, cmd: ApplyDisconnectPenaltyView)
        ensures
            self.apply_disconnect_penalty(cmd).1 is Ok <==> {
                &&& cmd.standing_id == self.id
                &&& !text::is_blank_text(cmd.player_id)
                &&& cmd.player_id == self.player_id
                &&& cmd.prior_penalties == self.abandonments
                &&& self.is_at_rest()
            },
    {
    }

    /// A match is recorded exactly where the command names the standing, its
    /// player, a match and a finite, positive opponent rating, and the standing is
    /// at rest.
    pub proof fn law_recording_is_owed(self, cmd: RecordMatchResultView, estimate: Estimate)
        ensures
            self.record_match_result(cmd, estimate).1 is Ok <==> {
                &&& cmd.standing_id == self.id
                &&& !text::is_blank_text(cmd.player_id)
                &&& cmd.player_id == self.player_id
                &&& !text::is_blank_text(cmd.match_id)
                &&& 0 < cmd.opponent_rating.bits < 0x7ff0_0000_0000_0000
                &&& self.is_at_rest()
            },
    {
    }

    /// Nothing but the match count of a suspected smurf can break a rest
    /// invariant: a command that is accepted leaves a standing in which all five
    /// hold, unless it records the match by which an unelevated suspected smurf
    /// reaches the threshold, and then only smurf elevation is due.
    pub proof fn law_invariants_are_kept(self, command: CommandView<PayloadView<RequestView>>)
        requires
            self.admits(command),
            self.execute(command).1 is Ok,
        ensures
            ({
                let after = self.execute(command).0;
                &&& after.ratings_fault() is None
                &&& after.rank_fault() is None
                &&& after.floor_fault() is None
                &&& after.ledger_fault() is None
                &&& after.smurf_fault() is Some <==> {
                    &&& command.name == RecordMatchResult::COMMAND@
                    &&& after.suspected_smurf
                    &&& !after.elevated
                    &&& after.matches_played == SMURF_ELEVATION_MATCHES
                }
            }),
    {
        lemma_command_names_differ();
        law_penalty_is_monotone(0, self.abandonments as nat);
        law_penalty_is_monotone(0, self.abandonments as nat + 1);
    }

    /// The visible tier and the floor never fall, and an accepted command leaves
    /// the tier at or above the floor.
    pub proof fn law_rank_never_falls(self, command: CommandView<PayloadView<RequestView>>)
        ensures
            self.tier.rank() <= self.execute(command).0.tier.rank(),
            self.tier_floor.rank() <= self.execute(command).0.tier_floor.rank(),
            self.execute(command).1 is Ok ==> self.execute(command).0.tier_floor.rank()
                <= self.execute(command).0.tier.rank(),
    {
    }

    /// The state after a sequence of commands, accepted and refused ones alike.
    pub open spec fn after(
        self,
        commands: Seq<CommandView<PayloadView<RequestView>>>,
    ) -> RankedStandingView
        decreases commands.len(),
    {
        if commands.len() == 0 {
            self
        } else {
            self.after(commands.drop_last()).execute(commands.last()).0
        }
    }

    /// No command undoes an elevation, and an elevated standing is not elevated
    /// again.
    pub proof fn law_elevation_is_kept(
        self,
        command: CommandView<PayloadView<RequestView>>,
        elevate: ElevateSmurfView,
    )
        requires
            self.elevated,
        ensures
            self.execute(command).0.elevated,
            self.elevate_smurf(elevate).1 is Err,
    {
    }

    /// No sequence of commands undoes an elevation.
    pub proof fn law_elevation_is_never_undone(
        self,
        commands: Seq<CommandView<PayloadView<RequestView>>>,
    )
        requires
            self.elevated,
        ensures
            self.after(commands).elevated,
        decreases commands.len(),
    {
        if commands.len() > 0 {
            self.law_elevation_is_never_undone(commands.drop_last());
        }
    }

    /// A smurf is elevated at most once: after an accepted elevation every further
    /// one is refused, whatever commands came between.
    pub proof fn law_elevation_happens_once(
        self,
        first: ElevateSmurfView,
        between: Seq<CommandView<PayloadView<RequestView>>>,
        second: ElevateSmurfView,
    )
        requires
            self.elevate_smurf(first).1 is Ok,
        ensures
            self.elevate_smurf(first).0.after(between).elevate_smurf(second).1 is Err,
    {
        self.elevate_smurf(first).0.law_elevation_is_never_undone(between);
    }

    /// Elevation establishes the invariant it is gated on the lack of.
    pub proof fn law_elevation_settles_smurf(self, cmd: ElevateSmurfView)
        requires
            self.elevate_smurf(cmd).1 is Ok,
        ensures
            self.smurf_fault() is Some,
            self.elevate_smurf(cmd).0.smurf_fault() is None,
            self.elevate_smurf(cmd).0.tier == self.tier.above(),
    {
    }

    /// Whether the command is a disconnect penalty that is charged.
    pub open spec fn is_charged(self, command: CommandView<PayloadView<RequestView>>) -> bool {
        command.name == ApplyDisconnectPenalty::COMMAND@ && self.execute(command).1 is Ok
    }

    /// How many penalties a sequence of commands charges.
    pub open spec fn penalties(
        self,
        commands: Seq<CommandView<PayloadView<RequestView>>>,
    ) -> nat
        decreases commands.len(),
    {
        if commands.len() == 0 {
            0
        } else {
            self.penalties(commands.drop_last()) + if self.after(commands.drop_last()).is_charged(
                commands.last(),
            ) {
                1nat
            } else {
                0
            }
        }
    }

    /// A charged penalty counts one abandonment more, as far as a `u32` holds it;
    /// no other command changes the ledger.
    pub proof fn law_only_penalties_touch_the_ledger(
        self,
        command: CommandView<PayloadView<RequestView>>,
    )
        ensures
            ({
                let after = self.execute(command).0;
                if self.is_charged(command) {
                    &&& after.abandonments == if self.abandonments < u32::MAX {
                        self.abandonments + 1
                    } else {
                        u32::MAX as int
                    }
                    &&& after.ledger_is_on_schedule()
                } else {
                    &&& after.abandonments == self.abandonments
                    &&& after.disconnect_penalty == self.disconnect_penalty
                }
            }),
    {
        lemma_command_names_differ();
    }

    /// A sequence of commands counts the abandonments that it charges, as far as a
    /// `u32` holds them, and keeps the penalty on the doubling schedule; one that
    /// charges none leaves the ledger alone.
    pub proof fn law_ledger_counts_penalties(
        self,
        commands: Seq<CommandView<PayloadView<RequestView>>>,
    )
        ensures
            self.after(commands).abandonments == if self.abandonments + self.penalties(commands)
                <= u32::MAX {
                self.abandonments + self.penalties(commands)
            } else {
                u32::MAX as int
            },
            self.ledger_is_on_schedule() ==> self.after(commands).ledger_is_on_schedule(),
            self.penalties(commands) == 0 ==> self.after(commands).disconnect_penalty
                == self.disconnect_penalty,
        decreases commands.len(),
    {
        if commands.len() > 0 {
            self.law_ledger_counts_penalties(commands.drop_last());
            self.after(commands.drop_last()).law_only_penalties_touch_the_ledger(commands.last());
        }
    }

    /// Each abandonment costs twice the one before: of two penalties accepted one
    /// after the other, with any commands between that charge none, the second is
    /// twice the first, up to what a `u32` holds.
    pub proof fn law_penalties_escalate(
        self,
        first: ApplyDisconnectPenaltyView,
        between: Seq<CommandView<PayloadView<RequestView>>>,
        second: ApplyDisconnectPenaltyView,
    )
        requires
            self.apply_disconnect_penalty(first).1 is Ok,
            self.apply_disconnect_penalty(first).0.penalties(between) == 0,
            self.apply_disconnect_penalty(first).0.after(between).apply_disconnect_penalty(
                second,
            ).1 is Ok,
        ensures
            ({
                let once = self.apply_disconnect_penalty(first).0;
                let twice = once.after(between).apply_disconnect_penalty(second).0;
                &&& once.disconnect_penalty > 0
                &&& twice.disconnect_penalty == if 2 * once.disconnect_penalty <= u32::MAX {
                    2 * once.disconnect_penalty
                } else {
                    u32::MAX as int
                }
            }),
    {
        let once = self.apply_disconnect_penalty(first).0;
        once.law_ledger_counts_penalties(between);
        law_penalty_doubles(once.abandonments as nat);
        law_penalty_is_monotone(1, once.abandonments as nat);
        vstd::arithmetic::power2::lemma2_to64();
        if once.abandonments == u32::MAX {
            lemma_long_history_owes_the_most(u32::MAX as nat);
        }
    }

    /// A star award promotes by exactly one tier where the stars fill the tier and
    /// there is a tier above, and leaves the tier alone otherwise; at the apex the
    /// stars stay at the cap.
    pub proof fn law_full_tier_promotes(self, cmd: AwardStarView)
        requires
            self.award_star(cmd).1 is Ok,
        ensures
            ({
                let after = self.award_star(cmd).0;
                let granted = if cmd.streak_bonus {
                    2int
                } else {
                    1int
                };
                let full = self.stars + granted >= STARS_PER_TIER;
                &&& after.stars <= STARS_PER_TIER
                &&& (full && !(self.tier is Legend) <==> after.tier != self.tier)
                &&& after.tier != self.tier ==> after.tier.rank() == self.tier.rank() + 1
                    && after.stars == self.stars + granted - STARS_PER_TIER
                &&& full && self.tier is Legend ==> after.stars == STARS_PER_TIER
            }),
    {
    }

    /// A recorded match leaves the estimate fresh and counts one match.
    pub proof fn law_estimate_stays_fresh(self, cmd: RecordMatchResultView, estimate: Estimate)
        requires
            self.can_count_a_match(),
            self.record_match_result(cmd, estimate).1 is Ok,
        ensures
            ({
                let after = self.record_match_result(cmd, estimate).0;
                &&& after.ratings_synced_at == after.rated_matches
                &&& after.rated_matches == self.rated_matches + 1
                &&& after.matches_played == self.matches_played + 1
            }),
    {
    }
}

/// From the 31st abandonment on the penalty is as large as a `u32` holds.
proof fn lemma_long_history_owes_the_most(n: nat)
    requires
        n >= 31,
    ensures
        disconnect_penalty_owed(n) == u32::MAX,
{
    vstd::arithmetic::power2::lemma2_to64();
    law_penalty_is_monotone(31, n);
}

/// The five commands have five names.
proof fn lemma_command_names_differ()
    ensures
        RecordMatchResult::COMMAND@ != ApplyRankFloorProtection::COMMAND@,
        RecordMatchResult::COMMAND@ != AwardStar::COMMAND@,
        RecordMatchResult::COMMAND@ != ElevateSmurf::COMMAND@,
        RecordMatchResult::COMMAND@ != ApplyDisconnectPenalty::COMMAND@,
        ApplyDisconnectPenalty::COMMAND@ != ApplyRankFloorProtection::COMMAND@,
        ApplyDisconnectPenalty::COMMAND@ != AwardStar::COMMAND@,
        ApplyDisconnectPenalty::COMMAND@ != ElevateSmurf::COMMAND@,
{
    reveal_strlit("RecordMatchResultCmd");
    reveal_strlit("ApplyRankFloorProtectionCmd");
    reveal_strlit("AwardStarCmd");
    reveal_strlit("ElevateSmurfCmd");
    reveal_strlit("ApplyDisconnectPenaltyCmd");
    assert(RecordMatchResult::COMMAND@.len() == 20);
    assert(ApplyRankFloorProtection::COMMAND@.len() == 27);
    assert(AwardStar::COMMAND@.len() == 12);
    assert(ElevateSmurf::COMMAND@.len() == 15);
    assert(ApplyDisconnectPenalty::COMMAND@.len() == 25);
}

/// The ladder has five tiers of different rank; the tier above is one higher, but
/// for the apex, which is its own; the higher of two tiers is one of them and not
/// below the other; the anti-tilt brackets are the two lowest.
pub proof fn law_ladder(tier: Tier, other: Tier)
    ensures
        tier.rank() <= 4,
        tier.rank() == other.rank() ==> tier == other,
        tier is Block <==> tier.rank() == 0,
        tier is Legend <==> tier.rank() == 4,
        tier.above().rank() == if tier is Legend {
            4
        } else {
            tier.rank() + 1
        },
        tier.higher(other) == tier || tier.higher(other) == other,
        tier.higher(other).rank() >= tier.rank(),
        tier.higher(other).rank() >= other.rank(),
        tier.is_anti_tilt() <==> tier.rank() <= 1,
{
}

/// Nothing is owed for no abandonment and five points for the first; what is owed
/// for every further one, [`law_penalty_doubles`] says.
pub proof fn law_penalty_starts_at_the_base(n: nat)
    ensures
        disconnect_penalty_owed(n) == 0 <==> n == 0,
        n == 1 ==> disconnect_penalty_owed(n) == 5,
{
    vstd::arithmetic::power2::lemma2_to64();
    if n > 0 {
        law_penalty_is_monotone(1, n);
    }
}

impl RankedStandingView {
    /// Every command goes to its own handler, a payload that does not read is
    /// refused with the complaint about it, and a name that is none of these is
    /// unknown; what is refused otherwise is refused for a broken rule.
    pub proof fn law_commands_are_routed(self, command: CommandView<PayloadView<RequestView>>)
        ensures
            command.name == "ApplyRankFloorProtectionCmd"@ ==> match command.payload {
                PayloadView::Decoded(RequestView::ApplyRankFloorProtection(cmd)) =>
                    self.execute(command)
                    == self.apply_rank_floor_protection(cmd),
                PayloadView::Decoded(_) => self.execute(command).1 is Err,
                PayloadView::Malformed(complaint) => self.execute(command).1 == shared::violation::<
                    EventView,
                >("malformed "@ + "ApplyRankFloorProtectionCmd"@ + " payload: "@ + complaint),
            },
            command.name == "AwardStarCmd"@ ==> match command.payload {
                PayloadView::Decoded(RequestView::AwardStar(cmd)) => self.execute(command)
                    == self.award_star(cmd),
                PayloadView::Decoded(_) => self.execute(command).1 is Err,
                PayloadView::Malformed(complaint) => self.execute(command).1 == shared::violation::<
                    EventView,
                >("malformed "@ + "AwardStarCmd"@ + " payload: "@ + complaint),
            },
            command.name == "ElevateSmurfCmd"@ ==> match command.payload {
                PayloadView::Decoded(RequestView::ElevateSmurf(cmd)) => self.execute(command)
                    == self.elevate_smurf(cmd),
                PayloadView::Decoded(_) => self.execute(command).1 is Err,
                PayloadView::Malformed(complaint) => self.execute(command).1 == shared::violation::<
                    EventView,
                >("malformed "@ + "ElevateSmurfCmd"@ + " payload: "@ + complaint),
            },
            command.name == "RecordMatchResultCmd"@ ==> match command.payload {
                PayloadView::Decoded(RequestView::RecordMatchResult(cmd, estimate)) =>
                    self.execute(command)
                    == self.record_match_result(cmd, estimate),
                PayloadView::Decoded(_) => self.execute(command).1 is Err,
                PayloadView::Malformed(complaint) => self.execute(command).1 == shared::violation::<
                    EventView,
                >("malformed "@ + "RecordMatchResultCmd"@ + " payload: "@ + complaint),
            },
            command.name == "ApplyDisconnectPenaltyCmd"@ ==> match command.payload {
                PayloadView::Decoded(RequestView::ApplyDisconnectPenalty(cmd)) =>
                    self.execute(command)
                    == self.apply_disconnect_penalty(cmd),
                PayloadView::Decoded(_) => self.execute(command).1 is Err,
                PayloadView::Malformed(complaint) => self.execute(command).1 == shared::violation::<
                    EventView,
                >("malformed "@ + "ApplyDisconnectPenaltyCmd"@ + " payload: "@ + complaint),
            },
            ({
                &&& command.name != "ApplyRankFloorProtectionCmd"@
                &&& command.name != "AwardStarCmd"@
                &&& command.name != "ElevateSmurfCmd"@
                &&& command.name != "RecordMatchResultCmd"@
                &&& command.name != "ApplyDisconnectPenaltyCmd"@
            }) ==> self.execute(command).1 == Err::<
                Seq<EventView>,
                shared::DomainErrorView,
            >(
                shared::DomainErrorView::UnknownCommand {
                    aggregate: "RankedStanding"@,
                    command: command.name,
                },
            ),
            self.execute(command).1 matches Err(error) ==> (error is InvariantViolation <==> {
                ||| command.name == "ApplyRankFloorProtectionCmd"@
                ||| command.name == "AwardStarCmd"@
                ||| command.name == "ElevateSmurfCmd"@
                ||| command.name == "RecordMatchResultCmd"@
                ||| command.name == "ApplyDisconnectPenaltyCmd"@
            }),
    {
        reveal_strlit("ApplyRankFloorProtectionCmd");
        reveal_strlit("AwardStarCmd");
        reveal_strlit("ElevateSmurfCmd");
        reveal_strlit("RecordMatchResultCmd");
        reveal_strlit("ApplyDisconnectPenaltyCmd");
        assert("ApplyRankFloorProtectionCmd"@.len() == 27);
        assert("AwardStarCmd"@.len() == 12);
        assert("ElevateSmurfCmd"@.len() == 15);
        assert("RecordMatchResultCmd"@.len() == 20);
        assert("ApplyDisconnectPenaltyCmd"@.len() == 25);
    }

    /// Every accepted match is rated, whatever its outcome: the standing takes over
    /// the estimate supplied, the first event carries the match and the outcome that
    /// were submitted, the second carries the estimate, and both counters advance by
    /// one; nothing else changes.
    pub proof fn law_every_match_is_rated(self, cmd: RecordMatchResultView, estimate: Estimate)
        requires
            self.can_count_a_match(),
            self.record_match_result(cmd, estimate).1 is Ok,
        ensures
            ({
                let after = self.record_match_result(cmd, estimate).0;
                &&& self.record_match_result(cmd, estimate).1 matches Ok(events)
                &&& events.len() == 2
                &&& events[0].event_type() == "match.result.recorded"@
                &&& events[0] matches EventView::MatchResultRecorded(recorded)
                &&& recorded.standing_id == cmd.standing_id
                &&& recorded.player_id == cmd.player_id
                &&& recorded.match_id == cmd.match_id
                &&& recorded.outcome == cmd.outcome
                &&& events[1].event_type() == "rating.recalculated"@
                &&& events[1] matches EventView::RatingRecalculated(rated)
                &&& rated.standing_id == cmd.standing_id
                &&& rated.player_id == cmd.player_id
                &&& rated.rating == estimate.rating
                &&& rated.rating_deviation == estimate.rating_deviation
                &&& rated.volatility == estimate.volatility
                &&& rated.rated_matches == after.rated_matches
                &&& after.rating == estimate.rating
                &&& after.rating_deviation == estimate.rating_deviation
                &&& after.volatility == estimate.volatility
                &&& after.rated_matches == self.rated_matches + 1
                &&& after.ratings_synced_at == self.rated_matches + 1
                &&& after.matches_played == self.matches_played + 1
                &&& after == (RankedStandingView {
                    rating: after.rating,
                    rating_deviation: after.rating_deviation,
                    volatility: after.volatility,
                    rated_matches: after.rated_matches,
                    ratings_synced_at: after.ratings_synced_at,
                    matches_played: after.matches_played,
                    events: self.events.push(events[0]).push(events[1]),
                    ..self
                })
            }),
    {
    }

    /// The outcome of a match weighs only through the estimate: with the same
    /// estimate, matches of any two outcomes leave the same rating.
    pub proof fn law_outcomes_are_rated_alike(
        self,
        one: RecordMatchResultView,
        other: RecordMatchResultView,
        estimate: Estimate,
    )
        requires
            self.can_count_a_match(),
            self.record_match_result(one, estimate).1 is Ok,
            self.record_match_result(other, estimate).1 is Ok,
        ensures
            ({
                let a = self.record_match_result(one, estimate).0;
                let b = self.record_match_result(other, estimate).0;
                &&& a.rating == b.rating
                &&& a.rating_deviation == b.rating_deviation
                &&& a.volatility == b.volatility
                &&& a.rated_matches == b.rated_matches
                &&& a.matches_played == b.matches_played
            }),
    {
    }

    /// Stars are conserved: with three stars to a tier, an award below the apex adds
    /// exactly the stars it grants, one or two with the bonus, to the stars and the
    /// tiers climbed; at the apex it adds them up to the cap.
    pub proof fn law_stars_are_conserved(self, cmd: AwardStarView)
        requires
            self.award_star(cmd).1 is Ok,
        ensures
            ({
                let after = self.award_star(cmd).0;
                let granted = if cmd.streak_bonus {
                    2int
                } else {
                    1int
                };
                &&& !(self.tier is Legend) ==> 3 * after.tier.rank() + after.stars == 3
                    * self.tier.rank() + self.stars + granted
                &&& !(self.tier is Legend) ==> after.stars < 3
                &&& self.tier is Legend ==> after.tier is Legend && after.stars == if self.stars
                    + granted <= 3 {
                    self.stars + granted
                } else {
                    3
                }
            }),
    {
    }

    /// An award records the standing, the player, the tier it was won in, the stars
    /// granted and the bonus that was submitted; where the tier changes, a second
    /// event records the climb from the one to the other, the bonus star is gone,
    /// and a climb to Corner makes Corner the floor. The bonus star is the one
    /// submitted where the tier is not filled; nothing else changes.
    pub proof fn law_award_records_the_stars(self, cmd: AwardStarView)
        requires
            self.award_star(cmd).1 is Ok,
        ensures
            ({
                let after = self.award_star(cmd).0;
                let climbs = after.tier != self.tier;
                &&& self.award_star(cmd).1 matches Ok(events)
                &&& events[0].event_type() == "star.awarded"@
                &&& events[0] matches EventView::StarAwarded(awarded)
                &&& awarded.standing_id == cmd.standing_id
                &&& awarded.player_id == cmd.player_id
                &&& awarded.tier == self.tier
                &&& awarded.streak_bonus == cmd.streak_bonus
                &&& awarded.stars_awarded == if cmd.streak_bonus {
                    2int
                } else {
                    1int
                }
                &&& events.len() == if climbs {
                    2nat
                } else {
                    1nat
                }
                &&& climbs ==> {
                    &&& events[1].event_type() == "rank.promoted"@
                    &&& events[1] matches EventView::RankPromoted(promoted)
                    &&& promoted.standing_id == cmd.standing_id
                    &&& promoted.player_id == cmd.player_id
                    &&& promoted.from_tier == self.tier
                    &&& promoted.to_tier == after.tier
                    &&& !after.bonus_star
                }
                &&& !climbs && self.stars + awarded.stars_awarded < 3 ==> after.bonus_star
                    == cmd.streak_bonus
                &&& !climbs && self.stars + awarded.stars_awarded >= 3 ==> after.bonus_star
                    == self.bonus_star
                &&& after.tier_floor == if climbs && after.tier is Corner {
                    Tier::Corner
                } else {
                    self.tier_floor
                }
                &&& after == (RankedStandingView {
                    tier: after.tier,
                    stars: after.stars,
                    bonus_star: after.bonus_star,
                    tier_floor: after.tier_floor,
                    events: self.events + events,
                    ..self
                })
            }),
    {
        let events = self.award_star(cmd).1->Ok_0;
        assert(self.award_star(cmd).0.events =~= self.events + events);
    }

    /// An elevation records the standing, the player and the match count that were
    /// submitted with the tier the standing has from then on, one above the tier it
    /// had, but for the apex; nothing else changes.
    pub proof fn law_elevation_records_the_bracket(self, cmd: ElevateSmurfView)
        requires
            self.elevate_smurf(cmd).1 is Ok,
        ensures
            ({
                let after = self.elevate_smurf(cmd).0;
                &&& self.elevate_smurf(cmd).1 matches Ok(events)
                &&& events.len() == 1
                &&& events[0].event_type() == "smurf.elevated"@
                &&& events[0] matches EventView::SmurfElevated(said)
                &&& said.standing_id == cmd.standing_id
                &&& said.player_id == cmd.player_id
                &&& said.match_count == cmd.match_count
                &&& said.elevated_to == after.tier
                &&& after.tier.rank() == if self.tier is Legend {
                    4
                } else {
                    self.tier.rank() + 1
                }
                &&& after.elevated
                &&& after == (RankedStandingView {
                    tier: after.tier,
                    elevated: after.elevated,
                    events: self.events.push(events[0]),
                    ..self
                })
            }),
    {
    }

    /// A protection records the standing and the player that were submitted with
    /// the floor of the standing; nothing else changes, for a standing at rest is
    /// not below its floor.
    pub proof fn law_protection_records_the_floor(self, cmd: ApplyRankFloorProtectionView)
        requires
            self.apply_rank_floor_protection(cmd).1 is Ok,
        ensures
            ({
                let after = self.apply_rank_floor_protection(cmd).0;
                &&& self.apply_rank_floor_protection(cmd).1 matches Ok(events)
                &&& events.len() == 1
                &&& events[0].event_type() == "ranked.rank.floor.protected"@
                &&& events[0] matches EventView::RankFloorProtected(said)
                &&& said.standing_id == cmd.standing_id
                &&& said.player_id == cmd.player_id
                &&& said.tier_floor == self.tier_floor
                &&& after == (RankedStandingView {
                    events: self.events.push(events[0]),
                    ..self
                })
            }),
    {
    }

    /// A penalty records the standing, the player and the prior penalties that were
    /// submitted with the charge and the abandonments that the ledger has from then
    /// on: one abandonment more, and five points for the first and twice the charge
    /// before for every other, up to what a `u32` holds; nothing else changes.
    pub proof fn law_penalty_records_the_charge(self, cmd: ApplyDisconnectPenaltyView)
        requires
            self.apply_disconnect_penalty(cmd).1 is Ok,
        ensures
            ({
                let after = self.apply_disconnect_penalty(cmd).0;
                &&& self.apply_disconnect_penalty(cmd).1 matches Ok(events)
                &&& events.len() == 1
                &&& events[0].event_type() == "disconnect.penalty.applied"@
                &&& events[0] matches EventView::DisconnectPenaltyApplied(said)
                &&& said.standing_id == cmd.standing_id
                &&& said.player_id == cmd.player_id
                &&& said.prior_penalties == cmd.prior_penalties
                &&& said.penalty == after.disconnect_penalty
                &&& said.abandonments == after.abandonments
                &&& after.abandonments == if self.abandonments + 1 <= u32::MAX {
                    self.abandonments + 1
                } else {
                    u32::MAX as int
                }
                &&& after.disconnect_penalty == if self.abandonments == 0 {
                    5
                } else if 2 * self.disconnect_penalty <= u32::MAX {
                    2 * self.disconnect_penalty
                } else {
                    u32::MAX as int
                }
                &&& after == (RankedStandingView {
                    abandonments: after.abandonments,
                    disconnect_penalty: after.disconnect_penalty,
                    events: self.events.push(events[0]),
                    ..self
                })
            }),
    {
        vstd::arithmetic::power2::lemma2_to64();
        if self.abandonments > 0 {
            law_penalty_doubles(self.abandonments as nat);
        }
        if self.abandonments == u32::MAX {
            lemma_long_history_owes_the_most(u32::MAX as nat);
        }
    }
}

impl RankedStandingView {
    /// Only a match beyond what the two counters hold finds no room: every command
    /// is admitted where both are below the greatest `u32`, and so is every command
    /// that is refused.
    pub proof fn law_room_for_commands(self, command: CommandView<PayloadView<RequestView>>)
        ensures
            self.can_count_a_match() <==> self.rated_matches != u32::MAX && self.matches_played
                != u32::MAX,
            self.rated_matches != u32::MAX && self.matches_played != u32::MAX ==> self.admits(
                command,
            ),
            self.execute(command).1 is Err ==> self.admits(command),
    {
        lemma_command_names_differ();
    }
}

impl Real {
    /// The view leaves nothing out: where two views agree, so does every field.
    pub proof fn law_view_leaves_nothing_out(self, other: Real)
        requires
            self@ == other@,
        ensures
            self.bits == other.bits,
            self.shown@ == other.shown@,
    {
    }
}

impl ApplyRankFloorProtection {
    /// The view leaves nothing out: where two views agree, so does every field.
    pub proof fn law_view_leaves_nothing_out(self, other: ApplyRankFloorProtection)
        requires
            self@ == other@,
        ensures
            self.standing_id@ == other.standing_id@,
            self.player_id@ == other.player_id@,
    {
    }
}

impl AwardStar {
    /// The view leaves nothing out: where two views agree, so does every field.
    pub proof fn law_view_leaves_nothing_out(self, other: AwardStar)
        requires
            self@ == other@,
        ensures
            self.standing_id@ == other.standing_id@,
            self.player_id@ == other.player_id@,
            self.streak_bonus == other.streak_bonus,
    {
    }
}

impl ElevateSmurf {
    /// The view leaves nothing out: where two views agree, so does every field.
    pub proof fn law_view_leaves_nothing_out(self, other: ElevateSmurf)
        requires
            self@ == other@,
        ensures
            self.standing_id@ == other.standing_id@,
            self.player_id@ == other.player_id@,
            self.match_count == other.match_count,
    {
    }
}

impl RecordMatchResult {
    /// The view leaves nothing out: where two views agree, so does every field.
    pub proof fn law_view_leaves_nothing_out(self, other: RecordMatchResult)
        requires
            self@ == other@,
        ensures
            self.standing_id@ == other.standing_id@,
            self.player_id@ == other.player_id@,
            self.match_id@ == other.match_id@,
            self.outcome == other.outcome,
            self.opponent_rating@ == other.opponent_rating@,
    {
    }
}

impl ApplyDisconnectPenalty {
    /// The view leaves nothing out: where two views agree, so does every field.
    pub proof fn law_view_leaves_nothing_out(self, other: ApplyDisconnectPenalty)
        requires
            self@ == other@,
        ensures
            self.standing_id@ == other.standing_id@,
            self.player_id@ == other.player_id@,
            self.prior_penalties == other.prior_penalties,
    {
    }
}

impl RankFloorProtected {
    /// The view leaves nothing out: where two views agree, so does every field.
    pub proof fn law_view_leaves_nothing_out(self, other: RankFloorProtected)
        requires
            self@ == other@,
        ensures
            self.standing_id@ == other.standing_id@,
            self.player_id@ == other.player_id@,
            self.tier_floor == other.tier_floor,
    {
    }
}

impl StarAwarded {
    /// The view leaves nothing out: where two views agree, so does every field.
    pub proof fn law_view_leaves_nothing_out(self, other: StarAwarded)
        requires
            self@ == other@,
        ensures
            self.standing_id@ == other.standing_id@,
            self.player_id@ == other.player_id@,
            self.tier == other.tier,
            self.stars_awarded == other.stars_awarded,
            self.streak_bonus == other.streak_bonus,
    {
    }
}

impl RankPromoted {
    /// The view leaves nothing out: where two views agree, so does every field.
    pub proof fn law_view_leaves_nothing_out(self, other: RankPromoted)
        requires
            self@ == other@,
        ensures
            self.standing_id@ == other.standing_id@,
            self.player_id@ == other.player_id@,
            self.from_tier == other.from_tier,
            self.to_tier == other.to_tier,
    {
    }
}

impl SmurfElevated {
    /// The view leaves nothing out: where two views agree, so does every field.
    pub proof fn law_view_leaves_nothing_out(self, other: SmurfElevated)
        requires
            self@ == other@,
        ensures
            self.standing_id@ == other.standing_id@,
            self.player_id@ == other.player_id@,
            self.match_count == other.match_count,
            self.elevated_to == other.elevated_to,
    {
    }
}

impl DisconnectPenaltyApplied {
    /// The view leaves nothing out: where two views agree, so does every field.
    pub proof fn law_view_leaves_nothing_out(self, other: DisconnectPenaltyApplied)
        requires
            self@ == other@,
        ensures
            self.standing_id@ == other.standing_id@,
            self.player_id@ == other.player_id@,
            self.prior_penalties == other.prior_penalties,
            self.penalty == other.penalty,
            self.abandonments == other.abandonments,
    {
    }
}

impl MatchResultRecorded {
    /// The view leaves nothing out: where two views agree, so does every field.
    pub proof fn law_view_leaves_nothing_out(self, other: MatchResultRecorded)
        requires
            self@ == other@,
        ensures
            self.standing_id@ == other.standing_id@,
            self.player_id@ == other.player_id@,
            self.match_id@ == other.match_id@,
            self.outcome == other.outcome,
    {
    }
}

impl RatingRecalculated {
    /// The view leaves nothing out: where two views agree, so does every field.
    pub proof fn law_view_leaves_nothing_out(self, other: RatingRecalculated)
        requires
            self@ == other@,
        ensures
            self.standing_id@ == other.standing_id@,
            self.player_id@ == other.player_id@,
            self.rating == other.rating,
            self.rating_deviation == other.rating_deviation,
            self.volatility == other.volatility,
            self.rated_matches == other.rated_matches,
    {
    }
}

impl Event {
    /// The view leaves nothing out: where two views agree, so do the variants and
    /// what they carry.
    pub proof fn law_view_leaves_nothing_out(self, other: Event)
        requires
            self@ == other@,
        ensures
            match (self, other) {
                (Event::RankFloorProtected(a), Event::RankFloorProtected(b)) => a@ == b@,
                (Event::StarAwarded(a), Event::StarAwarded(b)) => a@ == b@,
                (Event::RankPromoted(a), Event::RankPromoted(b)) => a@ == b@,
                (Event::SmurfElevated(a), Event::SmurfElevated(b)) => a@ == b@,
                (Event::DisconnectPenaltyApplied(a), Event::DisconnectPenaltyApplied(b)) => {
                    a@ == b@
                },
                (Event::MatchResultRecorded(a), Event::MatchResultRecorded(b)) => a@ == b@,
                (Event::RatingRecalculated(a), Event::RatingRecalculated(b)) => a@ == b@,
                _ => false,
            },
    {
    }
}

impl Request {
    /// The view leaves nothing out: where two views agree, so do the variants and
    /// what they carry.
    pub proof fn law_view_leaves_nothing_out(self, other: Request)
        requires
            self@ == other@,
        ensures
            match (self, other) {
                (Request::ApplyRankFloorProtection(a), Request::ApplyRankFloorProtection(b)) => {
                    a@ == b@
                },
                (Request::AwardStar(a), Request::AwardStar(b)) => a@ == b@,
                (Request::ElevateSmurf(a), Request::ElevateSmurf(b)) => a@ == b@,
                (Request::RecordMatchResult(a, x), Request::RecordMatchResult(b, y)) => {
                    a@ == b@ && x == y
                },
                (Request::ApplyDisconnectPenalty(a), Request::ApplyDisconnectPenalty(b)) => {
                    a@ == b@
                },
                _ => false,
            },
    {
    }
}

} // verus!
