//! PvE boss encounters and their rules.
//!
//! A [`BossDefinition`] is the catalog entry for one of the game's authoritative
//! Bosses: its identity, the single hero power and single trademark that make it
//! recognizable, its starting HP, and the set of signature cards it plays. Four
//! invariants keep a Boss well-formed:
//!
//! 1. **Signature shape** — every Boss has *exactly one* hero power and *exactly
//!    one* trademark.
//! 2. **Signature set** — every Boss must be assigned a *non-empty* signature
//!    card set, and every card in it must be in the catalog.
//! 3. **Legal HP** — a Boss's starting HP must fall within [`LEGAL_STARTING_HP`].
//! 4. **Authoritative roster** — the published roster must contain *exactly*
//!    [`AUTHORITATIVE_ROSTER_SIZE`] Bosses before a launch is validated.
use crate::shared;
use crate::shared::AggregateRoot;
use crate::shared::Command;
use crate::shared::CommandView;
use crate::shared::DomainError;
use crate::shared::Payload;
use crate::shared::PayloadView;
use crate::shared::Reply;
use crate::shared::Repository;
use crate::shared::OTHER_COMMAND;
use crate::string_set;
use crate::string_set::StringSet;
use crate::text;
use vstd::prelude::*;

verus! {

/// The name of the aggregate type, as errors show it.
pub const AGGREGATE_TYPE: &'static str = "BossDefinition";

/// The least and the greatest legal starting HP of a Boss. Bosses are beefier
/// than players, but a launch-valid Boss must still sit inside these authored
/// bounds.
pub const LEGAL_STARTING_HP: (i64, i64) = (30, 90);

/// The authoritative roster size: the published roster must contain exactly this
/// many Bosses before a launch is validated.
pub const AUTHORITATIVE_ROSTER_SIZE: usize = 18;

/// The Juice cost of a Boss's hero power where a definition leaves it out.
pub fn default_hero_power_cost() -> (r: u8)
    ensures
        r == 2,
{
    2
}

/// A Boss hero power's typed, resolvable effect — what activating the power
/// actually applies, as opposed to the display strings that name it.
#[derive(Debug, Clone, Copy, PartialEq, Eq, Structural)]
pub enum HeroPowerEffect {
    /// Deal `amount` damage to the target (a Boss or, for `op:` refs, a unit).
    DealDamage { amount: u8 },
    /// Raise the activating seat's own Boss HP by `amount`.
    GainArmor { amount: u8 },
    /// Put a token unit with these stats on the activating seat's board.
    SummonToken { atk: u8, hp: u8 },
    /// Lower the activating seat's own Heat by `amount`.
    Cool { amount: u8 },
}

impl Default for HeroPowerEffect {
    /// Two points of damage.
    fn default() -> (r: Self)
        ensures
            r == (HeroPowerEffect::DealDamage { amount: 2 }),
    {
        HeroPowerEffect::DealDamage { amount: 2 }
    }
}

/// When a [`TrademarkEffect`] fires.
#[derive(Debug, Clone, Copy, PartialEq, Eq, Structural)]
pub enum TrademarkTrigger {
    /// Fires at the start of the Boss's owner's turn.
    StartOfTurn,
    /// Fires when the Boss's owner plays a card.
    OnPlay,
}

/// A Boss's typed, resolvable trademark: a [`TrademarkTrigger`] paired with the
/// [`HeroPowerEffect`] it resolves. A Boss carries at most one; none is a legal,
/// inert trademark.
#[derive(Debug, Clone, Copy, PartialEq, Eq, Structural)]
pub struct TrademarkEffect {
    /// When this trademark fires.
    pub trigger: TrademarkTrigger,
    /// The effect it resolves when triggered.
    pub effect: HeroPowerEffect,
}

/// The `DefineBossCmd` payload: a proposed Boss definition in its raw, as-
/// submitted form.
///
/// The hero powers and trademarks are carried as lists so the "exactly one"
/// signature-shape invariant can reject a definition that supplies none or more
/// than one of either — mirroring the aggregate's own
/// `hero_powers`/`trademarks` modeling. A well-formed definition supplies a
/// single-element list for each.
#[derive(Debug, PartialEq, Eq)]
pub struct DefineBoss {
    /// Identity the Boss is cataloged under; must name the Boss this aggregate
    /// records.
    pub boss_id: String,
    /// Human-readable Boss name.
    pub name: String,
    /// Starting HP; must fall within [`LEGAL_STARTING_HP`].
    pub starting_hp: i64,
    /// The hero powers declared on the Boss. Exactly one is legal.
    pub hero_powers: Vec<String>,
    /// The trademarks declared on the Boss. Exactly one is legal.
    pub trademarks: Vec<String>,
    /// The signature card set to launch the Boss with. Must be non-empty and every
    /// id must resolve to a valid card definition in the catalog.
    pub signature_card_ids: Vec<String>,
    /// The Boss hero power's typed, resolvable effect. Defaults to `DealDamage {
    /// amount: 2 }` so a payload that omits this field still deserializes to a
    /// legal effect.
    pub hero_power_effect: HeroPowerEffect,
    /// The Boss hero power's Juice cost.
    pub hero_power_cost: u8,
    /// The Boss's typed trademark effect, if any; an inert trademark is legal.
    pub trademark_effect: Option<TrademarkEffect>,
}

/// What a [`DefineBoss`] says.
#[verifier::ext_equal]
pub struct DefineBossView {
    pub boss_id: Seq<char>,
    pub name: Seq<char>,
    pub starting_hp: i64,
    pub hero_powers: Seq<Seq<char>>,
    pub trademarks: Seq<Seq<char>>,
    pub signature_card_ids: Seq<Seq<char>>,
    pub hero_power_effect: HeroPowerEffect,
    pub hero_power_cost: u8,
    pub trademark_effect: Option<TrademarkEffect>,
}

impl View for DefineBoss {
    type V = DefineBossView;

    open spec fn view(&self) -> DefineBossView {
        DefineBossView {
            boss_id: self.boss_id@,
            name: self.name@,
            starting_hp: self.starting_hp,
            hero_powers: text::texts(self.hero_powers@),
            trademarks: text::texts(self.trademarks@),
            signature_card_ids: text::texts(self.signature_card_ids@),
            hero_power_effect: self.hero_power_effect,
            hero_power_cost: self.hero_power_cost,
            trademark_effect: self.trademark_effect,
        }
    }
}

impl Clone for DefineBoss {
    fn clone(&self) -> (r: Self)
        ensures
            r@ == self@,
    {
        DefineBoss {
            boss_id: self.boss_id.clone(),
            name: self.name.clone(),
            starting_hp: self.starting_hp,
            hero_powers: text::copy_all(&self.hero_powers),
            trademarks: text::copy_all(&self.trademarks),
            signature_card_ids: text::copy_all(&self.signature_card_ids),
            hero_power_effect: self.hero_power_effect,
            hero_power_cost: self.hero_power_cost,
            trademark_effect: self.trademark_effect,
        }
    }
}

impl DefineBoss {
    /// The name of the command.
    pub const COMMAND: &'static str = "DefineBossCmd";

    /// This request as a command, ready to be executed.
    pub fn into_command(&self) -> (r: Command<Payload<Request>>)
        ensures
            r@ == (CommandView {
                name: Self::COMMAND@,
                payload: PayloadView::Decoded(RequestView::DefineBoss(self@)),
            }),
    {
        let request = Request::DefineBoss(self.clone());
        Command::with_payload(Self::COMMAND, Payload::Decoded(request))
    }
}

/// The `AssignSignatureCardsCmd` payload: the Boss to bind and the signature
/// card set to bind to it.
#[derive(Debug, PartialEq, Eq)]
pub struct AssignSignatureCards {
    /// Identity of the Boss whose signature set is being bound; must name the Boss
    /// this aggregate records.
    pub boss_id: String,
    /// The signature card set to bind. Must be non-empty and every id must resolve
    /// to a valid card definition in the catalog.
    pub signature_card_ids: Vec<String>,
}

/// What an [`AssignSignatureCards`] says.
#[verifier::ext_equal]
pub struct AssignSignatureCardsView {
    pub boss_id: Seq<char>,
    pub signature_card_ids: Seq<Seq<char>>,
}

impl View for AssignSignatureCards {
    type V = AssignSignatureCardsView;

    open spec fn view(&self) -> AssignSignatureCardsView {
        AssignSignatureCardsView {
            boss_id: self.boss_id@,
            signature_card_ids: text::texts(self.signature_card_ids@),
        }
    }
}

impl Clone for AssignSignatureCards {
    fn clone(&self) -> (r: Self)
        ensures
            r@ == self@,
    {
        AssignSignatureCards {
            boss_id: self.boss_id.clone(),
            signature_card_ids: text::copy_all(&self.signature_card_ids),
        }
    }
}

impl AssignSignatureCards {
    /// The name of the command.
    pub const COMMAND: &'static str = "AssignSignatureCardsCmd";

    /// Builds a command binding `signature_card_ids` to Boss `boss_id`.
    pub fn new(boss_id: &str, signature_card_ids: Vec<String>) -> (r: Self)
        ensures
            r@ == (AssignSignatureCardsView {
                boss_id: boss_id@,
                signature_card_ids: text::texts(signature_card_ids@),
            }),
    {
        AssignSignatureCards {
            boss_id: boss_id.to_owned(),
            signature_card_ids: signature_card_ids,
        }
    }

    /// This request as a command, ready to be executed.
    pub fn into_command(&self) -> (r: Command<Payload<Request>>)
        ensures
            r@ == (CommandView {
                name: Self::COMMAND@,
                payload: PayloadView::Decoded(RequestView::AssignSignatureCards(self@)),
            }),
    {
        let request = Request::AssignSignatureCards(self.clone());
        Command::with_payload(Self::COMMAND, Payload::Decoded(request))
    }
}

/// The `ValidateBossRosterCmd` payload: a request to assert that the full
/// published roster is complete and legal before a launch.
///
/// The command carries no Boss shape of its own — it asserts against the Boss's
/// standing state — but it does carry the roster being validated and the count
/// the caller expects on it, so a mismatch between the expectation and the
/// published roster is itself a rejection.
#[derive(Debug, PartialEq, Eq)]
pub struct ValidateBossRoster {
    /// Identity of the roster being validated; must be non-empty.
    pub roster_id: String,
    /// The number of Bosses the caller expects on the roster. Must equal the Boss's
    /// published roster size, which in turn must be [`AUTHORITATIVE_ROSTER_SIZE`].
    pub expected_count: usize,
}

/// What a [`ValidateBossRoster`] says.
#[verifier::ext_equal]
pub struct ValidateBossRosterView {
    pub roster_id: Seq<char>,
    pub expected_count: usize,
}

impl View for ValidateBossRoster {
    type V = ValidateBossRosterView;

    open spec fn view(&self) -> ValidateBossRosterView {
        ValidateBossRosterView {
            roster_id: self.roster_id@,
            expected_count: self.expected_count,
        }
    }
}

impl Clone for ValidateBossRoster {
    fn clone(&self) -> (r: Self)
        ensures
            r@ == self@,
    {
        ValidateBossRoster {
            roster_id: self.roster_id.clone(),
            expected_count: self.expected_count,
        }
    }
}

impl ValidateBossRoster {
    /// The name of the command.
    pub const COMMAND: &'static str = "ValidateBossRosterCmd";

    /// Builds a command validating roster `roster_id` against `expected_count`.
    pub fn new(roster_id: &str, expected_count: usize) -> (r: Self)
        ensures
            r@ == (ValidateBossRosterView {
                roster_id: roster_id@,
                expected_count: expected_count,
            }),
    {
        ValidateBossRoster {
            roster_id: roster_id.to_owned(),
            expected_count: expected_count,
        }
    }

    /// This request as a command, ready to be executed.
    pub fn into_command(&self) -> (r: Command<Payload<Request>>)
        ensures
            r@ == (CommandView {
                name: Self::COMMAND@,
                payload: PayloadView::Decoded(RequestView::ValidateBossRoster(self@)),
            }),
    {
        let request = Request::ValidateBossRoster(self.clone());
        Command::with_payload(Self::COMMAND, Payload::Decoded(request))
    }
}

/// A validated Boss definition, produced once every invariant has been checked.
/// Carried by [`Event::BossDefined`] and thus by the emitted `boss.defined`
/// event; the single hero power and trademark are the proven-legal values.
#[derive(Debug, PartialEq, Eq)]
pub struct BossDefined {
    /// The Boss that was defined.
    pub boss_id: String,
    /// The Boss's name.
    pub name: String,
    /// The Boss's proven-legal starting HP.
    pub starting_hp: i64,
    /// The Boss's single hero power.
    pub hero_power: String,
    /// The Boss's single trademark.
    pub trademark: String,
    /// The signature card set the Boss was defined with.
    pub signature_card_ids: Vec<String>,
    /// The Boss hero power's typed, resolvable effect.
    pub hero_power_effect: HeroPowerEffect,
    /// The Boss hero power's Juice cost.
    pub hero_power_cost: u8,
    /// The Boss's typed trademark effect, if any.
    pub trademark_effect: Option<TrademarkEffect>,
}

/// What a [`BossDefined`] says.
#[verifier::ext_equal]
pub struct BossDefinedView {
    pub boss_id: Seq<char>,
    pub name: Seq<char>,
    pub starting_hp: i64,
    pub hero_power: Seq<char>,
    pub trademark: Seq<char>,
    pub signature_card_ids: Seq<Seq<char>>,
    pub hero_power_effect: HeroPowerEffect,
    pub hero_power_cost: u8,
    pub trademark_effect: Option<TrademarkEffect>,
}

impl View for BossDefined {
    type V = BossDefinedView;

    open spec fn view(&self) -> BossDefinedView {
        BossDefinedView {
            boss_id: self.boss_id@,
            name: self.name@,
            starting_hp: self.starting_hp,
            hero_power: self.hero_power@,
            trademark: self.trademark@,
            signature_card_ids: text::texts(self.signature_card_ids@),
            hero_power_effect: self.hero_power_effect,
            hero_power_cost: self.hero_power_cost,
            trademark_effect: self.trademark_effect,
        }
    }
}

impl Clone for BossDefined {
    fn clone(&self) -> (r: Self)
        ensures
            r@ == self@,
    {
        BossDefined {
            boss_id: self.boss_id.clone(),
            name: self.name.clone(),
            starting_hp: self.starting_hp,
            hero_power: self.hero_power.clone(),
            trademark: self.trademark.clone(),
            signature_card_ids: text::copy_all(&self.signature_card_ids),
            hero_power_effect: self.hero_power_effect,
            hero_power_cost: self.hero_power_cost,
            trademark_effect: self.trademark_effect,
        }
    }
}

/// The signature card set proven-valid for a Boss, carried by
/// [`Event::SignatureAssigned`] and thus by the emitted
/// `boss.signature.assigned` event.
#[derive(Debug, PartialEq, Eq)]
pub struct SignatureAssigned {
    /// The Boss the signature set was bound to.
    pub boss_id: String,
    /// The bound signature card ids, in the order supplied.
    pub signature_card_ids: Vec<String>,
}

/// What a [`SignatureAssigned`] says.
#[verifier::ext_equal]
pub struct SignatureAssignedView {
    pub boss_id: Seq<char>,
    pub signature_card_ids: Seq<Seq<char>>,
}

impl View for SignatureAssigned {
    type V = SignatureAssignedView;

    open spec fn view(&self) -> SignatureAssignedView {
        SignatureAssignedView {
            boss_id: self.boss_id@,
            signature_card_ids: text::texts(self.signature_card_ids@),
        }
    }
}

impl Clone for SignatureAssigned {
    fn clone(&self) -> (r: Self)
        ensures
            r@ == self@,
    {
        SignatureAssigned {
            boss_id: self.boss_id.clone(),
            signature_card_ids: text::copy_all(&self.signature_card_ids),
        }
    }
}

/// The proven-legal outcome of a roster validation, carried by
/// [`Event::RosterValidated`] and thus by the emitted `boss.roster.validated`
/// event.
#[derive(Debug, PartialEq, Eq)]
pub struct RosterValidated {
    /// The Boss whose validation asserted the roster.
    pub boss_id: String,
    /// The roster that was validated.
    pub roster_id: String,
    /// The proven-legal Boss count on the validated roster.
    pub validated_count: usize,
}

/// What a [`RosterValidated`] says.
#[verifier::ext_equal]
pub struct RosterValidatedView {
    pub boss_id: Seq<char>,
    pub roster_id: Seq<char>,
    pub validated_count: usize,
}

impl View for RosterValidated {
    type V = RosterValidatedView;

    open spec fn view(&self) -> RosterValidatedView {
        RosterValidatedView {
            boss_id: self.boss_id@,
            roster_id: self.roster_id@,
            validated_count: self.validated_count,
        }
    }
}

impl Clone for RosterValidated {
    fn clone(&self) -> (r: Self)
        ensures
            r@ == self@,
    {
        RosterValidated {
            boss_id: self.boss_id.clone(),
            roster_id: self.roster_id.clone(),
            validated_count: self.validated_count,
        }
    }
}

/// Domain events emitted by [`BossDefinition`].
#[derive(Debug, PartialEq, Eq)]
pub enum Event {
    /// A Boss definition passed every invariant and was added to the catalog.
    BossDefined(BossDefined),
    /// A Boss's signature card set passed every invariant and was bound.
    SignatureAssigned(SignatureAssigned),
    /// The full published roster passed every invariant and was validated.
    RosterValidated(RosterValidated),
}

/// What an [`Event`] says.
#[verifier::ext_equal]
pub enum EventView {
    BossDefined(BossDefinedView),
    SignatureAssigned(SignatureAssignedView),
    RosterValidated(RosterValidatedView),
}

impl View for Event {
    type V = EventView;

    open spec fn view(&self) -> EventView {
        match self {
            Event::BossDefined(body) => EventView::BossDefined(body@),
            Event::SignatureAssigned(body) => EventView::SignatureAssigned(body@),
            Event::RosterValidated(body) => EventView::RosterValidated(body@),
        }
    }
}

impl Clone for Event {
    fn clone(&self) -> (r: Self)
        ensures
            r@ == self@,
    {
        match self {
            Event::BossDefined(body) => Event::BossDefined(body.clone()),
            Event::SignatureAssigned(body) => Event::SignatureAssigned(body.clone()),
            Event::RosterValidated(body) => Event::RosterValidated(body.clone()),
        }
    }
}

impl EventView {
    /// The name under which the event is published.
    pub open spec fn event_type(self) -> Seq<char> {
        match self {
            EventView::BossDefined(_) => "boss.defined"@,
            EventView::SignatureAssigned(_) => "boss.signature.assigned"@,
            EventView::RosterValidated(_) => "boss.roster.validated"@,
        }
    }
}

impl Event {
    /// The name under which the event is published.
    pub fn event_type(&self) -> (r: &'static str)
        ensures
            r@ == self@.event_type(),
    {
        match self {
            Event::BossDefined(_) => "boss.defined",
            Event::SignatureAssigned(_) => "boss.signature.assigned",
            Event::RosterValidated(_) => "boss.roster.validated",
        }
    }
}

/// A command of this context, with its payload read.
pub enum Request {
    /// A [`DefineBoss`].
    DefineBoss(DefineBoss),
    /// An [`AssignSignatureCards`].
    AssignSignatureCards(AssignSignatureCards),
    /// A [`ValidateBossRoster`].
    ValidateBossRoster(ValidateBossRoster),
}

/// What a [`Request`] says.
#[verifier::ext_equal]
pub enum RequestView {
    DefineBoss(DefineBossView),
    AssignSignatureCards(AssignSignatureCardsView),
    ValidateBossRoster(ValidateBossRosterView),
}

impl View for Request {
    type V = RequestView;

    open spec fn view(&self) -> RequestView {
        match self {
            Request::DefineBoss(body) => RequestView::DefineBoss(body@),
            Request::AssignSignatureCards(body) => RequestView::AssignSignatureCards(body@),
            Request::ValidateBossRoster(body) => RequestView::ValidateBossRoster(body@),
        }
    }
}

/// The BossDefinition aggregate: the catalog entry for a single authoritative
/// Boss.
///
/// A fresh Boss from [`BossDefinition::new`] is intentionally *incomplete* (no
/// hero power, no trademark, zero HP, empty catalog, empty roster); the
/// configuration methods below bring it up to a launch-valid shape, exactly as
/// [`MatchReplay`](crate::match_replay) is built up before a command validates
/// it.
#[derive(Debug)]
pub struct BossDefinition {
    id: String,
    root: AggregateRoot<Event>,
    /// Identity of the Boss this aggregate records. An `AssignSignatureCardsCmd`
    /// must name this same Boss.
    boss_id: String,
    /// The hero powers declared on the Boss. Exactly one is legal.
    hero_powers: Vec<String>,
    /// The trademarks declared on the Boss. Exactly one is legal.
    trademarks: Vec<String>,
    /// The Boss's starting HP; must fall within [`LEGAL_STARTING_HP`].
    starting_hp: i64,
    /// The catalog of valid [`CardDefinition`](crate::card_definition) ids a
    /// signature card must be drawn from.
    valid_card_ids: StringSet,
    /// The Boss's currently-bound signature card set. Empty until a `DefineBossCmd`
    /// or `AssignSignatureCardsCmd` binds one; a `ValidateBossRosterCmd` re-checks
    /// it against the signature-set invariant.
    signature_card_ids: Vec<String>,
    /// The number of Bosses on the published roster; must equal
    /// [`AUTHORITATIVE_ROSTER_SIZE`] for a launch to validate.
    published_roster_size: usize,
}

/// What a [`BossDefinition`] says.
#[verifier::ext_equal]
pub struct BossDefinitionView {
    pub id: Seq<char>,
    pub events: Seq<EventView>,
    pub boss_id: Seq<char>,
    pub hero_powers: Seq<Seq<char>>,
    pub trademarks: Seq<Seq<char>>,
    pub starting_hp: i64,
    pub valid_card_ids: Set<Seq<char>>,
    pub signature_card_ids: Seq<Seq<char>>,
    pub published_roster_size: usize,
}

impl View for BossDefinition {
    type V = BossDefinitionView;

    closed spec fn view(&self) -> BossDefinitionView {
        BossDefinitionView {
            id: self.id@,
            events: self.root@,
            boss_id: self.boss_id@,
            hero_powers: text::texts(self.hero_powers@),
            trademarks: text::texts(self.trademarks@),
            starting_hp: self.starting_hp,
            valid_card_ids: self.valid_card_ids@,
            signature_card_ids: text::texts(self.signature_card_ids@),
            published_roster_size: self.published_roster_size,
        }
    }
}

impl BossDefinitionView {
    /// The message where the Boss has not exactly one hero power and one trademark.
    pub open spec fn shape_fault(self) -> Option<Seq<char>> {
        if self.hero_powers.len() != 1 {
            Some(
                "every Boss has exactly one hero power; Boss '"@ + self.boss_id + "' declares "@
                    + text::decimal(self.hero_powers.len() as int),
            )
        } else if self.trademarks.len() != 1 {
            Some(
                "every Boss has exactly one trademark; Boss '"@ + self.boss_id + "' declares "@
                    + text::decimal(self.trademarks.len() as int),
            )
        } else {
            None
        }
    }

    /// The message where the starting HP is out of bounds.
    pub open spec fn hp_fault(self) -> Option<Seq<char>> {
        if self.starting_hp < LEGAL_STARTING_HP.0 || self.starting_hp > LEGAL_STARTING_HP.1 {
            Some(
                "Boss starting HP must fall within ["@ + text::decimal(LEGAL_STARTING_HP.0 as int)
                    + ", "@ + text::decimal(LEGAL_STARTING_HP.1 as int) + "]; Boss '"@
                    + self.boss_id + "' has "@ + text::decimal(self.starting_hp as int),
            )
        } else {
            None
        }
    }

    /// The message where the published roster has another size.
    pub open spec fn roster_fault(self) -> Option<Seq<char>> {
        if self.published_roster_size != AUTHORITATIVE_ROSTER_SIZE {
            Some(
                "the published roster must contain exactly "@
                    + text::decimal(AUTHORITATIVE_ROSTER_SIZE as int)
                    + " Bosses before a launch is validated; found "@
                    + text::decimal(self.published_roster_size as int),
            )
        } else {
            None
        }
    }

    /// The message where a signature set is empty, or holds a card that is not in
    /// the catalog; of several such cards it names the first.
    pub open spec fn signature_fault(self, ids: Seq<Seq<char>>) -> Option<Seq<char>> {
        if ids.len() == 0 {
            Some(
                "every Boss must be assigned a non-empty signature card set; Boss '"@ + self.boss_id
                    + "' was given none"@,
            )
        } else {
            match string_set::first_missing(self.valid_card_ids, ids) {
                Some(card_id) => Some(
                    "signature card '"@ + card_id + "' is not drawn from a valid CardDefinition"@,
                ),
                None => None,
            }
        }
    }

    /// The message of the first rule that refuses a [`DefineBoss`], if one does.
    pub open spec fn define_boss_fault(
        self,
        cmd: DefineBossView,
    ) -> Option<Seq<char>> {
        if cmd.boss_id != self.boss_id {
            Some(
                "command targets Boss '"@ + cmd.boss_id + "' but this aggregate records '"@
                    + self.boss_id + "'"@,
            )
        } else if text::is_blank_text(cmd.name) {
            Some("a Boss must have a non-empty name"@)
        } else if cmd.hero_powers.len() != 1 {
            Some(
                "every Boss has exactly one hero power; Boss '"@ + cmd.boss_id + "' declares "@
                    + text::decimal(cmd.hero_powers.len() as int),
            )
        } else if cmd.trademarks.len() != 1 {
            Some(
                "every Boss has exactly one trademark; Boss '"@ + cmd.boss_id + "' declares "@
                    + text::decimal(cmd.trademarks.len() as int),
            )
        } else if cmd.starting_hp < LEGAL_STARTING_HP.0 || cmd.starting_hp > LEGAL_STARTING_HP.1 {
            Some(
                "Boss starting HP must fall within ["@ + text::decimal(LEGAL_STARTING_HP.0 as int)
                    + ", "@ + text::decimal(LEGAL_STARTING_HP.1 as int) + "]; Boss '"@
                    + cmd.boss_id + "' has "@ + text::decimal(cmd.starting_hp as int),
            )
        } else {
            shared::first(self.roster_fault(), self.signature_fault(cmd.signature_card_ids))
        }
    }

    /// The state after a [`DefineBoss`], and the answer to it.
    pub open spec fn define_boss(self, cmd: DefineBossView) -> (
        BossDefinitionView,
        Reply<EventView>,
    ) {
        match self.define_boss_fault(cmd) {
            Some(message) => (self, shared::violation(message)),
            None => {
                let event = EventView::BossDefined(BossDefinedView {
                    boss_id: cmd.boss_id,
                    name: cmd.name,
                    starting_hp: cmd.starting_hp,
                    hero_power: cmd.hero_powers[0],
                    trademark: cmd.trademarks[0],
                    signature_card_ids: cmd.signature_card_ids,
                    hero_power_effect: cmd.hero_power_effect,
                    hero_power_cost: cmd.hero_power_cost,
                    trademark_effect: cmd.trademark_effect,
                });
                (
                    BossDefinitionView {
                        hero_powers: cmd.hero_powers,
                        trademarks: cmd.trademarks,
                        starting_hp: cmd.starting_hp,
                        signature_card_ids: cmd.signature_card_ids,
                        events: self.events.push(event),
                        ..self
                    },
                    Ok(seq![event]),
                )
            },
        }
    }

    /// The message of the first rule that refuses an [`AssignSignatureCards`], if one does.
    pub open spec fn assign_signature_cards_fault(
        self,
        cmd: AssignSignatureCardsView,
    ) -> Option<Seq<char>> {
        if cmd.boss_id != self.boss_id {
            Some(
                "command targets Boss '"@ + cmd.boss_id + "' but this aggregate records '"@
                    + self.boss_id + "'"@,
            )
        } else {
            shared::first(
                self.shape_fault(),
                shared::first(
                    self.hp_fault(),
                    shared::first(
                        self.roster_fault(),
                        self.signature_fault(cmd.signature_card_ids),
                    ),
                ),
            )
        }
    }

    /// The state after an [`AssignSignatureCards`], and the answer to it.
    pub open spec fn assign_signature_cards(self, cmd: AssignSignatureCardsView) -> (
        BossDefinitionView,
        Reply<EventView>,
    ) {
        match self.assign_signature_cards_fault(cmd) {
            Some(message) => (self, shared::violation(message)),
            None => {
                let event = EventView::SignatureAssigned(SignatureAssignedView {
                    boss_id: cmd.boss_id,
                    signature_card_ids: cmd.signature_card_ids,
                });
                (
                    BossDefinitionView {
                        signature_card_ids: cmd.signature_card_ids,
                        events: self.events.push(event),
                        ..self
                    },
                    Ok(seq![event]),
                )
            },
        }
    }

    /// The message of the first rule that refuses a [`ValidateBossRoster`], if one does.
    pub open spec fn validate_boss_roster_fault(
        self,
        cmd: ValidateBossRosterView,
    ) -> Option<Seq<char>> {
        if text::is_blank_text(cmd.roster_id) {
            Some("a roster validation must target a non-empty rosterId"@)
        } else {
            self.roster_validation_fault(cmd)
        }
    }

    /// The state after a [`ValidateBossRoster`], and the answer to it.
    pub open spec fn validate_boss_roster(self, cmd: ValidateBossRosterView) -> (
        BossDefinitionView,
        Reply<EventView>,
    ) {
        match self.validate_boss_roster_fault(cmd) {
            Some(message) => (self, shared::violation(message)),
            None => {
                let event = EventView::RosterValidated(RosterValidatedView {
                    boss_id: self.boss_id,
                    roster_id: cmd.roster_id,
                    validated_count: self.published_roster_size,
                });
                (BossDefinitionView { events: self.events.push(event), ..self }, Ok(seq![event]))
            },
        }
    }

    /// The message where the standing state breaks one of the four invariants, or
    /// the roster has not the size the caller expects.
    pub open spec fn roster_validation_fault(
        self,
        cmd: ValidateBossRosterView,
    ) -> Option<Seq<char>> {
        shared::first(
            self.shape_fault(),
            shared::first(
                self.signature_fault(self.signature_card_ids),
                shared::first(
                    self.hp_fault(),
                    shared::first(self.roster_fault(), self.expectation_fault(cmd)),
                ),
            ),
        )
    }

    /// The message where the roster has not the size the caller expects.
    pub open spec fn expectation_fault(self, cmd: ValidateBossRosterView) -> Option<Seq<char>> {
        if cmd.expected_count != self.published_roster_size {
            Some(
                "the published roster must contain exactly "@ + text::decimal(
                    AUTHORITATIVE_ROSTER_SIZE as int,
                ) + " Bosses before a launch is validated; caller expected "@ + text::decimal(
                    cmd.expected_count as int,
                ) + " but the roster holds "@ + text::decimal(self.published_roster_size as int),
            )
        } else {
            None
        }
    }

    /// The state after a command, and the answer to it.
    pub open spec fn execute(self, command: CommandView<PayloadView<RequestView>>) -> (
        BossDefinitionView,
        Reply<EventView>,
    ) {
        if command.name == DefineBoss::COMMAND@ {
            match command.payload {
                PayloadView::Decoded(RequestView::DefineBoss(cmd)) => self.define_boss(cmd),
                PayloadView::Decoded(_) => (
                    self,
                    shared::malformed_reply(DefineBoss::COMMAND@, OTHER_COMMAND@),
                ),
                PayloadView::Malformed(complaint) => (
                    self,
                    shared::malformed_reply(DefineBoss::COMMAND@, complaint),
                ),
            }
        } else if command.name == AssignSignatureCards::COMMAND@ {
            match command.payload {
                PayloadView::Decoded(RequestView::AssignSignatureCards(cmd)) => {
                    self.assign_signature_cards(cmd)
                },
                PayloadView::Decoded(_) => (
                    self,
                    shared::malformed_reply(AssignSignatureCards::COMMAND@, OTHER_COMMAND@),
                ),
                PayloadView::Malformed(complaint) => (
                    self,
                    shared::malformed_reply(AssignSignatureCards::COMMAND@, complaint),
                ),
            }
        } else if command.name == ValidateBossRoster::COMMAND@ {
            match command.payload {
                PayloadView::Decoded(RequestView::ValidateBossRoster(cmd)) => {
                    self.validate_boss_roster(cmd)
                },
                PayloadView::Decoded(_) => (
                    self,
                    shared::malformed_reply(ValidateBossRoster::COMMAND@, OTHER_COMMAND@),
                ),
                PayloadView::Malformed(complaint) => (
                    self,
                    shared::malformed_reply(ValidateBossRoster::COMMAND@, complaint),
                ),
            }
        } else {
            (self, shared::unknown(AGGREGATE_TYPE@, command.name))
        }
    }
}

impl BossDefinition {
    /// The name of the aggregate type.
    pub fn aggregate_type() -> (r: &'static str)
        ensures
            r@ == AGGREGATE_TYPE@,
    {
        AGGREGATE_TYPE
    }

    /// Creates an incomplete Boss identified by `id`: no hero power, no trademark,
    /// no HP, an empty catalog and an empty roster. The configuration methods bring
    /// it to a launch-valid shape.
    pub fn new(id: &str) -> (r: Self)
        ensures
            r@ == (BossDefinitionView {
                id: id@,
                events: Seq::empty(),
                boss_id: id@,
                hero_powers: Seq::empty(),
                trademarks: Seq::empty(),
                starting_hp: 0,
                valid_card_ids: Set::empty(),
                signature_card_ids: Seq::empty(),
                published_roster_size: 0,
            }),
    {
        proof {
            assert(text::texts(Seq::empty()) =~= Seq::<Seq<char>>::empty());
        }
        BossDefinition {
            id: id.to_owned(),
            root: AggregateRoot::new(),
            boss_id: id.to_owned(),
            hero_powers: Vec::new(),
            trademarks: Vec::new(),
            starting_hp: 0,
            valid_card_ids: StringSet::new(),
            signature_card_ids: Vec::new(),
            published_roster_size: 0,
        }
    }

    /// This aggregate's identity.
    pub fn id(&self) -> (r: &str)
        ensures
            r@ == self@.id,
    {
        self.id.as_str()
    }

    /// The version: the number of events recorded.
    pub fn version(&self) -> (r: u64)
        ensures
            r == self@.events.len(),
    {
        self.root.version()
    }

    /// The events recorded and not yet persisted.
    pub fn uncommitted_events(&self) -> (r: &[Event])
        ensures
            shared::views(r@) == self@.events,
    {
        self.root.uncommitted_events()
    }

    /// Signature-shape invariant: exactly one hero power and exactly one trademark.
    fn ensure_signature_shape(&self) -> (r: Result<(), DomainError>)
        ensures
            shared::broken(r) == shared::owed(self@.shape_fault()),
    {
        if self.hero_powers.len() != 1 {
            return shared::refuse(
                text::cat4(
                    "every Boss has exactly one hero power; Boss '", &self.boss_id, "' declares ",
                    &text::show(self.hero_powers.len() as u64),
                ),
            );
        }
        if self.trademarks.len() != 1 {
            return shared::refuse(
                text::cat4(
                    "every Boss has exactly one trademark; Boss '", &self.boss_id, "' declares ",
                    &text::show(self.trademarks.len() as u64),
                ),
            );
        }
        Ok(())
    }

    /// Legal-HP invariant: starting HP falls within [`LEGAL_STARTING_HP`].
    fn ensure_legal_hp(&self) -> (r: Result<(), DomainError>)
        ensures
            shared::broken(r) == shared::owed(self@.hp_fault()),
    {
        if self.starting_hp < LEGAL_STARTING_HP.0 || self.starting_hp > LEGAL_STARTING_HP.1 {
            return shared::refuse(
                text::cat8(
                    "Boss starting HP must fall within [", &text::show_signed(LEGAL_STARTING_HP.0),
                    ", ", &text::show_signed(LEGAL_STARTING_HP.1), "]; Boss '", &self.boss_id,
                    "' has ", &text::show_signed(self.starting_hp),
                ),
            );
        }
        Ok(())
    }

    /// Authoritative-roster invariant: the published roster holds exactly
    /// [`AUTHORITATIVE_ROSTER_SIZE`] Bosses.
    fn ensure_authoritative_roster(&self) -> (r: Result<(), DomainError>)
        ensures
            shared::broken(r) == shared::owed(self@.roster_fault()),
    {
        if self.published_roster_size != AUTHORITATIVE_ROSTER_SIZE {
            return shared::refuse(
                text::cat4(
                    "the published roster must contain exactly ",
                    &text::show(AUTHORITATIVE_ROSTER_SIZE as u64),
                    " Bosses before a launch is validated; found ",
                    &text::show(self.published_roster_size as u64),
                ),
            );
        }
        Ok(())
    }

    /// Signature-set invariant: the set is non-empty and every card id resolves
    /// to a valid card definition in the catalog.
    fn ensure_signature_set(&self, signature_card_ids: &Vec<String>) -> (r: Result<(), DomainError>)
        ensures
            shared::broken(r) == shared::owed(
                self@.signature_fault(text::texts(signature_card_ids@)),
            ),
    {
        if signature_card_ids.len() == 0 {
            return shared::refuse(
                text::cat3(
                    "every Boss must be assigned a non-empty signature card set; Boss '",
                    &self.boss_id, "' was given none",
                ),
            );
        }
        match self.valid_card_ids.first_missing(signature_card_ids) {
            Some(i) => shared::refuse(
                text::cat3(
                    "signature card '", &signature_card_ids[i],
                    "' is not drawn from a valid CardDefinition",
                ),
            ),
            None => Ok(()),
        }
    }

    /// Handles a Boss definition: the command must name this Boss and the four
    /// invariants must hold of the proposed definition. Its fields are committed;
    /// the catalog of valid cards and the published roster size are configuration
    /// and stay.
    fn define_boss(&mut self, cmd: DefineBoss) -> (r: Result<
        Vec<Event>,
        DomainError,
    >)
        ensures
            final(self)@ == old(self)@.define_boss(cmd@).0,
            shared::reply(r) == old(self)@.define_boss(cmd@).1,
    {
        if !text::same(&cmd.boss_id, &self.boss_id) {
            return shared::refuse(
                text::cat5(
                    "command targets Boss '", &cmd.boss_id, "' but this aggregate records '",
                    &self.boss_id, "'",
                ),
            );
        }
        if text::is_blank(&cmd.name) {
            return shared::refuse("a Boss must have a non-empty name".to_owned());
        }
        if cmd.hero_powers.len() != 1 {
            return shared::refuse(
                text::cat4(
                    "every Boss has exactly one hero power; Boss '", &cmd.boss_id, "' declares ",
                    &text::show(cmd.hero_powers.len() as u64),
                ),
            );
        }
        if cmd.trademarks.len() != 1 {
            return shared::refuse(
                text::cat4(
                    "every Boss has exactly one trademark; Boss '", &cmd.boss_id, "' declares ",
                    &text::show(cmd.trademarks.len() as u64),
                ),
            );
        }
        if cmd.starting_hp < LEGAL_STARTING_HP.0 || cmd.starting_hp > LEGAL_STARTING_HP.1 {
            return shared::refuse(
                text::cat8(
                    "Boss starting HP must fall within [", &text::show_signed(LEGAL_STARTING_HP.0),
                    ", ", &text::show_signed(LEGAL_STARTING_HP.1), "]; Boss '", &cmd.boss_id,
                    "' has ", &text::show_signed(cmd.starting_hp),
                ),
            );
        }
        if let Err(error) = self.ensure_authoritative_roster() {
            return Err(error);
        }
        if let Err(error) = self.ensure_signature_set(&cmd.signature_card_ids) {
            return Err(error);
        }
        // All invariants hold: commit the definition to aggregate state.
        let hero_power = cmd.hero_powers[0].clone();
        let trademark = cmd.trademarks[0].clone();
        self.hero_powers = cmd.hero_powers;
        self.trademarks = cmd.trademarks;
        self.starting_hp = cmd.starting_hp;
        self.signature_card_ids = text::copy_all(&cmd.signature_card_ids);
        let event = Event::BossDefined(
            BossDefined {
                boss_id: cmd.boss_id,
                name: cmd.name,
                starting_hp: cmd.starting_hp,
                hero_power,
                trademark,
                signature_card_ids: cmd.signature_card_ids,
                hero_power_effect: cmd.hero_power_effect,
                hero_power_cost: cmd.hero_power_cost,
                trademark_effect: cmd.trademark_effect,
            },
        );
        self.root.record(event.clone());
        Ok(shared::only(event))
    }

    /// Handles a signature assignment: the command must name this Boss, its
    /// standing shape, HP and roster must be legal, and so must the proposed set,
    /// which is then bound.
    fn assign_signature_cards(&mut self, cmd: AssignSignatureCards) -> (r: Result<
        Vec<Event>,
        DomainError,
    >)
        ensures
            final(self)@ == old(self)@.assign_signature_cards(cmd@).0,
            shared::reply(r) == old(self)@.assign_signature_cards(cmd@).1,
    {
        if !text::same(&cmd.boss_id, &self.boss_id) {
            return shared::refuse(
                text::cat5(
                    "command targets Boss '", &cmd.boss_id, "' but this aggregate records '",
                    &self.boss_id, "'",
                ),
            );
        }
        if let Err(error) = self.ensure_signature_shape() {
            return Err(error);
        }
        if let Err(error) = self.ensure_legal_hp() {
            return Err(error);
        }
        if let Err(error) = self.ensure_authoritative_roster() {
            return Err(error);
        }
        if let Err(error) = self.ensure_signature_set(&cmd.signature_card_ids) {
            return Err(error);
        }
        // Bind the set, so that a later roster validation re-checks it.
        self.signature_card_ids = text::copy_all(&cmd.signature_card_ids);
        let event = Event::SignatureAssigned(
            SignatureAssigned {
                boss_id: cmd.boss_id,
                signature_card_ids: cmd.signature_card_ids,
            },
        );
        self.root.record(event.clone());
        Ok(shared::only(event))
    }

    /// Handles a roster validation: the four invariants are re-checked against the
    /// standing state and the caller's expectation against the published roster. No
    /// field changes; only the event is recorded.
    fn validate_boss_roster(&mut self, cmd: ValidateBossRoster) -> (r: Result<
        Vec<Event>,
        DomainError,
    >)
        ensures
            final(self)@ == old(self)@.validate_boss_roster(cmd@).0,
            shared::reply(r) == old(self)@.validate_boss_roster(cmd@).1,
    {
        if text::is_blank(&cmd.roster_id) {
            return shared::refuse(
                "a roster validation must target a non-empty rosterId".to_owned(),
            );
        }
        if let Err(error) = self.ensure_roster_valid(&cmd) {
            return Err(error);
        }
        let event = Event::RosterValidated(
            RosterValidated {
                boss_id: self.boss_id.clone(),
                roster_id: cmd.roster_id,
                validated_count: self.published_roster_size,
            },
        );
        self.root.record(event.clone());
        Ok(shared::only(event))
    }

    /// Re-checks the four launch invariants against the standing state and the
    /// caller's expectation against the published roster.
    fn ensure_roster_valid(&self, cmd: &ValidateBossRoster) -> (r: Result<(), DomainError>)
        ensures
            shared::broken(r) == shared::owed(self@.roster_validation_fault(cmd@)),
    {
        if let Err(error) = self.ensure_signature_shape() {
            return Err(error);
        }
        if let Err(error) = self.ensure_signature_set(&self.signature_card_ids) {
            return Err(error);
        }
        if let Err(error) = self.ensure_legal_hp() {
            return Err(error);
        }
        if let Err(error) = self.ensure_authoritative_roster() {
            return Err(error);
        }
        if cmd.expected_count != self.published_roster_size {
            return shared::refuse(
                text::cat6(
                    "the published roster must contain exactly ",
                    &text::show(AUTHORITATIVE_ROSTER_SIZE as u64),
                    " Bosses before a launch is validated; caller expected ",
                    &text::show(cmd.expected_count as u64), " but the roster holds ",
                    &text::show(self.published_roster_size as u64),
                ),
            );
        }
        Ok(())
    }

    /// Carries out a command, or says why it is refused.
    pub fn execute(&mut self, command: Command<Payload<Request>>) -> (r: Result<
        Vec<Event>,
        DomainError,
    >)
        ensures
            final(self)@ == old(self)@.execute(command@).0,
            shared::reply(r) == old(self)@.execute(command@).1,
    {
        if text::same(&command.name, DefineBoss::COMMAND) {
            match command.payload {
                Payload::Decoded(Request::DefineBoss(cmd)) => self.define_boss(cmd),
                Payload::Decoded(_) => shared::malformed(DefineBoss::COMMAND, OTHER_COMMAND),
                Payload::Malformed(complaint) => shared::malformed(DefineBoss::COMMAND, &complaint),
            }
        } else if text::same(&command.name, AssignSignatureCards::COMMAND) {
            match command.payload {
                Payload::Decoded(Request::AssignSignatureCards(cmd)) => {
                    self.assign_signature_cards(cmd)
                },
                Payload::Decoded(_) => {
                    shared::malformed(AssignSignatureCards::COMMAND, OTHER_COMMAND)
                },
                Payload::Malformed(complaint) => {
                    shared::malformed(AssignSignatureCards::COMMAND, &complaint)
                },
            }
        } else if text::same(&command.name, ValidateBossRoster::COMMAND) {
            match command.payload {
                Payload::Decoded(Request::ValidateBossRoster(cmd)) => {
                    self.validate_boss_roster(cmd)
                },
                Payload::Decoded(_) => {
                    shared::malformed(ValidateBossRoster::COMMAND, OTHER_COMMAND)
                },
                Payload::Malformed(complaint) => {
                    shared::malformed(ValidateBossRoster::COMMAND, &complaint)
                },
            }
        } else {
            Err(DomainError::unknown_command(AGGREGATE_TYPE, command.name))
        }
    }

    /// The Boss this aggregate records.
    pub fn boss_id(&self) -> (r: &str)
        ensures
            r@ == self@.boss_id,
    {
        self.boss_id.as_str()
    }

    /// Declares the Boss's single hero power. Calling this more than once leaves the
    /// Boss with several, which the signature-shape invariant rejects.
    pub fn declare_hero_power(&mut self, name: &str)
        ensures
            final(self)@ == (BossDefinitionView {
                hero_powers: old(self)@.hero_powers.push(name@),
                ..old(self)@
            }),
    {
        self.hero_powers.push(name.to_owned());
        assert(self@.hero_powers =~= old(self)@.hero_powers.push(name@));
    }

    /// Declares the Boss's single trademark. Calling this more than once leaves the
    /// Boss with several, which the signature-shape invariant rejects.
    pub fn declare_trademark(&mut self, name: &str)
        ensures
            final(self)@ == (BossDefinitionView {
                trademarks: old(self)@.trademarks.push(name@),
                ..old(self)@
            }),
    {
        self.trademarks.push(name.to_owned());
        assert(self@.trademarks =~= old(self)@.trademarks.push(name@));
    }

    /// Sets the Boss's starting HP.
    pub fn set_starting_hp(&mut self, hp: i64)
        ensures
            final(self)@ == (BossDefinitionView {
                starting_hp: hp,
                ..old(self)@
            }),
    {
        self.starting_hp = hp;
    }

    /// Registers the catalog of valid card ids a signature card may be drawn from.
    pub fn register_valid_cards(&mut self, ids: &[&str])
        ensures
            final(self)@ == (BossDefinitionView {
                valid_card_ids: text::slices(ids@).to_set(),
                ..old(self)@
            }),
    {
        self.valid_card_ids = StringSet::of(ids);
    }

    /// Binds the Boss's currently held signature card set.
    pub fn set_signature_card_ids(&mut self, ids: &[&str])
        ensures
            final(self)@ == (BossDefinitionView {
                signature_card_ids: text::slices(ids@),
                ..old(self)@
            }),
    {
        self.signature_card_ids = text::own_all(ids);
    }

    /// Sets the size of the published roster this Boss belongs to.
    pub fn set_published_roster_size(&mut self, size: usize)
        ensures
            final(self)@ == (BossDefinitionView {
                published_roster_size: size,
                ..old(self)@
            }),
    {
        self.published_roster_size = size;
    }
}

/// The repository port of the [`BossDefinition`] aggregate: an adapter implements
/// [`Repository`] for it and then this marker.
pub trait BossDefinitionRepository: Repository<BossDefinition> {

}

impl BossDefinitionView {
    /// A refused command changes nothing: neither the state nor the events.
    pub proof fn law_refusal_changes_nothing(
        self,
        command: CommandView<PayloadView<RequestView>>,
    )
        ensures
            self.execute(command).1 is Err ==> self.execute(command).0 == self,
    {
    }

    /// An accepted command records exactly the events it answers with, behind
    /// those recorded before.
    pub proof fn law_events_are_recorded(self, command: CommandView<PayloadView<RequestView>>)
        ensures
            self.execute(command).1 matches Ok(events) ==> {
                &&& events.len() == 1
                &&& self.execute(command).0.events == self.events + events
            },
    {
        if let Ok(events) = self.execute(command).1 {
            assert(self.execute(command).0.events =~= self.events + events);
        }
    }

    /// A Boss that was defined is launch-valid: validating its roster with the
    /// published size is accepted.
    pub proof fn law_defined_boss_validates(
        self,
        cmd: DefineBossView,
        check: ValidateBossRosterView,
    )
        requires
            self.define_boss(cmd).1 is Ok,
            !text::is_blank_text(check.roster_id),
            check.expected_count == self.published_roster_size,
        ensures
            self.define_boss(cmd).0.validate_boss_roster(check).1 is Ok,
    {
    }

    /// A Boss whose signature set was assigned is launch-valid.
    pub proof fn law_assigned_boss_validates(
        self,
        cmd: AssignSignatureCardsView,
        check: ValidateBossRosterView,
    )
        requires
            self.assign_signature_cards(cmd).1 is Ok,
            !text::is_blank_text(check.roster_id),
            check.expected_count == self.published_roster_size,
        ensures
            self.assign_signature_cards(cmd).0.validate_boss_roster(check).1 is Ok,
    {
    }

    /// A validated roster holds exactly the authoritative number of Bosses, and
    /// validating changes nothing but the events.
    pub proof fn law_validation_only_asserts(self, cmd: ValidateBossRosterView)
        requires
            self.validate_boss_roster(cmd).1 is Ok,
        ensures
            cmd.expected_count == AUTHORITATIVE_ROSTER_SIZE,
            self.published_roster_size == AUTHORITATIVE_ROSTER_SIZE,
            self.validate_boss_roster(cmd).0 == (BossDefinitionView {
                events: self.validate_boss_roster(cmd).0.events,
                ..self
            }),
    {
    }

    /// A Boss is defined exactly where the command names it, the proposal has a
    /// name, one hero power, one trademark, legal HP and a catalogued signature
    /// set, and the roster is complete.
    pub proof fn law_definition_is_owed(self, cmd: DefineBossView)
        ensures
            self.define_boss(cmd).1 is Ok <==> {
                &&& cmd.boss_id == self.boss_id
                &&& !text::is_blank_text(cmd.name)
                &&& cmd.hero_powers.len() == 1
                &&& cmd.trademarks.len() == 1
                &&& LEGAL_STARTING_HP.0 <= cmd.starting_hp <= LEGAL_STARTING_HP.1
                &&& self.published_roster_size == AUTHORITATIVE_ROSTER_SIZE
                &&& cmd.signature_card_ids.len() > 0
                &&& forall|i: int|
                    0 <= i < cmd.signature_card_ids.len() ==> self.valid_card_ids.contains(
                        #[trigger] cmd.signature_card_ids[i],
                    )
            },
    {
        string_set::lemma_none_missing(self.valid_card_ids, cmd.signature_card_ids);
    }

    /// A signature set is assigned exactly where the command names the Boss, which
    /// is well-formed, and every card of the set is in the catalog.
    pub proof fn law_assignment_is_owed(self, cmd: AssignSignatureCardsView)
        ensures
            self.assign_signature_cards(cmd).1 is Ok <==> {
                &&& cmd.boss_id == self.boss_id
                &&& self.hero_powers.len() == 1
                &&& self.trademarks.len() == 1
                &&& LEGAL_STARTING_HP.0 <= self.starting_hp <= LEGAL_STARTING_HP.1
                &&& self.published_roster_size == AUTHORITATIVE_ROSTER_SIZE
                &&& cmd.signature_card_ids.len() > 0
                &&& forall|i: int|
                    0 <= i < cmd.signature_card_ids.len() ==> self.valid_card_ids.contains(
                        #[trigger] cmd.signature_card_ids[i],
                    )
            },
    {
        string_set::lemma_none_missing(self.valid_card_ids, cmd.signature_card_ids);
    }

    /// A roster is validated exactly where the command names one, the Boss is well-
    /// formed with a catalogued signature set, and the caller expects the size that
    /// the roster has.
    pub proof fn law_validation_is_owed(self, cmd: ValidateBossRosterView)
        ensures
            self.validate_boss_roster(cmd).1 is Ok <==> {
                &&& !text::is_blank_text(cmd.roster_id)
                &&& self.hero_powers.len() == 1
                &&& self.trademarks.len() == 1
                &&& LEGAL_STARTING_HP.0 <= self.starting_hp <= LEGAL_STARTING_HP.1
                &&& self.published_roster_size == AUTHORITATIVE_ROSTER_SIZE
                &&& self.signature_card_ids.len() > 0
                &&& forall|i: int|
                    0 <= i < self.signature_card_ids.len() ==> self.valid_card_ids.contains(
                        #[trigger] self.signature_card_ids[i],
                    )
                &&& cmd.expected_count == self.published_roster_size
            },
    {
        string_set::lemma_none_missing(self.valid_card_ids, self.signature_card_ids);
    }

    /// Every signature card of a Boss that was defined is in the catalog.
    pub proof fn law_signature_cards_are_catalogued(self, cmd: DefineBossView)
        requires
            self.define_boss(cmd).1 is Ok,
        ensures
            ({
                let bound = self.define_boss(cmd).0.signature_card_ids;
                &&& bound.len() > 0
                &&& forall|i: int|
                    0 <= i < bound.len() ==> self.valid_card_ids.contains(#[trigger] bound[i])
            }),
    {
        string_set::lemma_none_missing(self.valid_card_ids, cmd.signature_card_ids);
    }
}

impl BossDefinitionView {
    /// Every command goes to its own handler, a payload that does not read is
    /// refused with the complaint about it, and a name that is none of these is
    /// unknown; what is refused otherwise is refused for a broken rule.
    pub proof fn law_commands_are_routed(self, command: CommandView<PayloadView<RequestView>>)
        ensures
            command.name == "DefineBossCmd"@ ==> match command.payload {
                PayloadView::Decoded(RequestView::DefineBoss(cmd)) => self.execute(command)
                    == self.define_boss(cmd),
                PayloadView::Decoded(_) => self.execute(command).1 is Err,
                PayloadView::Malformed(complaint) => self.execute(command).1 == shared::violation::<
                    EventView,
                >("malformed "@ + "DefineBossCmd"@ + " payload: "@ + complaint),
            },
            command.name == "AssignSignatureCardsCmd"@ ==> match command.payload {
                PayloadView::Decoded(RequestView::AssignSignatureCards(cmd)) =>
                    self.execute(command)
                    == self.assign_signature_cards(cmd),
                PayloadView::Decoded(_) => self.execute(command).1 is Err,
                PayloadView::Malformed(complaint) => self.execute(command).1 == shared::violation::<
                    EventView,
                >("malformed "@ + "AssignSignatureCardsCmd"@ + " payload: "@ + complaint),
            },
            command.name == "ValidateBossRosterCmd"@ ==> match command.payload {
                PayloadView::Decoded(RequestView::ValidateBossRoster(cmd)) => self.execute(command)
                    == self.validate_boss_roster(cmd),
                PayloadView::Decoded(_) => self.execute(command).1 is Err,
                PayloadView::Malformed(complaint) => self.execute(command).1 == shared::violation::<
                    EventView,
                >("malformed "@ + "ValidateBossRosterCmd"@ + " payload: "@ + complaint),
            },
            ({
                &&& command.name != "DefineBossCmd"@
                &&& command.name != "AssignSignatureCardsCmd"@
                &&& command.name != "ValidateBossRosterCmd"@
            }) ==> self.execute(command).1 == Err::<
                Seq<EventView>,
                shared::DomainErrorView,
            >(
                shared::DomainErrorView::UnknownCommand {
                    aggregate: "BossDefinition"@,
                    command: command.name,
                },
            ),
            self.execute(command).1 matches Err(error) ==> (error is InvariantViolation <==> {
                ||| command.name == "DefineBossCmd"@
                ||| command.name == "AssignSignatureCardsCmd"@
                ||| command.name == "ValidateBossRosterCmd"@
            }),
    {
        reveal_strlit("DefineBossCmd");
        reveal_strlit("AssignSignatureCardsCmd");
        reveal_strlit("ValidateBossRosterCmd");
        assert("DefineBossCmd"@.len() == 13);
        assert("AssignSignatureCardsCmd"@.len() == 23);
        assert("ValidateBossRosterCmd"@.len() == 21);
    }

    /// A definition records the Boss that was submitted, field by field, with its
    /// one hero power and its one trademark, and the Boss has what was submitted
    /// from then on; nothing else changes.
    pub proof fn law_definition_records_the_boss(self, cmd: DefineBossView)
        requires
            self.define_boss(cmd).1 is Ok,
        ensures
            ({
                let after = self.define_boss(cmd).0;
                &&& self.define_boss(cmd).1 matches Ok(events)
                &&& events.len() == 1
                &&& events[0].event_type() == "boss.defined"@
                &&& events[0] matches EventView::BossDefined(said)
                &&& said.boss_id == cmd.boss_id
                &&& said.name == cmd.name
                &&& said.starting_hp == cmd.starting_hp
                &&& said.signature_card_ids == cmd.signature_card_ids
                &&& said.hero_power_effect == cmd.hero_power_effect
                &&& said.hero_power_cost == cmd.hero_power_cost
                &&& said.trademark_effect == cmd.trademark_effect
                &&& cmd.hero_powers == seq![said.hero_power]
                &&& cmd.trademarks == seq![said.trademark]
                &&& after.starting_hp == cmd.starting_hp
                &&& after.signature_card_ids == cmd.signature_card_ids
                &&& after.hero_powers == cmd.hero_powers
                &&& after.trademarks == cmd.trademarks
                &&& after == (BossDefinitionView {
                    hero_powers: after.hero_powers,
                    trademarks: after.trademarks,
                    starting_hp: after.starting_hp,
                    signature_card_ids: after.signature_card_ids,
                    events: self.events.push(events[0]),
                    ..self
                })
            }),
    {
        assert(cmd.hero_powers =~= seq![cmd.hero_powers[0]]);
        assert(cmd.trademarks =~= seq![cmd.trademarks[0]]);
    }

    /// An assignment records the Boss and the signature cards that were submitted,
    /// and they are the signature cards of the Boss from then on; nothing else
    /// changes.
    pub proof fn law_assignment_records_the_cards(self, cmd: AssignSignatureCardsView)
        requires
            self.assign_signature_cards(cmd).1 is Ok,
        ensures
            ({
                let after = self.assign_signature_cards(cmd).0;
                &&& self.assign_signature_cards(cmd).1 matches Ok(events)
                &&& events.len() == 1
                &&& events[0].event_type() == "boss.signature.assigned"@
                &&& events[0] matches EventView::SignatureAssigned(said)
                &&& said.boss_id == cmd.boss_id
                &&& said.signature_card_ids == cmd.signature_card_ids
                &&& after.signature_card_ids == cmd.signature_card_ids
                &&& after == (BossDefinitionView {
                    signature_card_ids: after.signature_card_ids,
                    events: self.events.push(events[0]),
                    ..self
                })
            }),
    {
    }

    /// A validation records this Boss, the roster that was submitted and the size
    /// that the caller expected and the roster has; nothing else changes.
    pub proof fn law_validation_records_the_roster(self, cmd: ValidateBossRosterView)
        requires
            self.validate_boss_roster(cmd).1 is Ok,
        ensures
            ({
                let after = self.validate_boss_roster(cmd).0;
                &&& self.validate_boss_roster(cmd).1 matches Ok(events)
                &&& events.len() == 1
                &&& events[0].event_type() == "boss.roster.validated"@
                &&& events[0] matches EventView::RosterValidated(said)
                &&& said.boss_id == self.boss_id
                &&& said.roster_id == cmd.roster_id
                &&& said.validated_count == cmd.expected_count
                &&& said.validated_count == self.published_roster_size
                &&& after == (BossDefinitionView {
                    events: self.events.push(events[0]),
                    ..self
                })
            }),
    {
    }
}

impl DefineBoss {
    /// The view leaves nothing out: where two views agree, so does every field.
    pub proof fn law_view_leaves_nothing_out(self, other: DefineBoss)
        requires
            self@ == other@,
        ensures
            self.boss_id@ == other.boss_id@,
            self.name@ == other.name@,
            self.starting_hp == other.starting_hp,
            text::texts(self.hero_powers@) == text::texts(other.hero_powers@),
            text::texts(self.trademarks@) == text::texts(other.trademarks@),
            text::texts(self.signature_card_ids@) == text::texts(other.signature_card_ids@),
            self.hero_power_effect == other.hero_power_effect,
            self.hero_power_cost == other.hero_power_cost,
            self.trademark_effect == other.trademark_effect,
    {
    }
}

impl AssignSignatureCards {
    /// The view leaves nothing out: where two views agree, so does every field.
    pub proof fn law_view_leaves_nothing_out(self, other: AssignSignatureCards)
        requires
            self@ == other@,
        ensures
            self.boss_id@ == other.boss_id@,
            text::texts(self.signature_card_ids@) == text::texts(other.signature_card_ids@),
    {
    }
}

impl ValidateBossRoster {
    /// The view leaves nothing out: where two views agree, so does every field.
    pub proof fn law_view_leaves_nothing_out(self, other: ValidateBossRoster)
        requires
            self@ == other@,
        ensures
            self.roster_id@ == other.roster_id@,
            self.expected_count == other.expected_count,
    {
    }
}

impl BossDefined {
    /// The view leaves nothing out: where two views agree, so does every field.
    pub proof fn law_view_leaves_nothing_out(self, other: BossDefined)
        requires
            self@ == other@,
        ensures
            self.boss_id@ == other.boss_id@,
            self.name@ == other.name@,
            self.starting_hp == other.starting_hp,
            self.hero_power@ == other.hero_power@,
            self.trademark@ == other.trademark@,
            text::texts(self.signature_card_ids@) == text::texts(other.signature_card_ids@),
            self.hero_power_effect == other.hero_power_effect,
            self.hero_power_cost == other.hero_power_cost,
            self.trademark_effect == other.trademark_effect,
    {
    }
}

impl SignatureAssigned {
    /// The view leaves nothing out: where two views agree, so does every field.
    pub proof fn law_view_leaves_nothing_out(self, other: SignatureAssigned)
        requires
            self@ == other@,
        ensures
            self.boss_id@ == other.boss_id@,
            text::texts(self.signature_card_ids@) == text::texts(other.signature_card_ids@),
    {
    }
}

impl RosterValidated {
    /// The view leaves nothing out: where two views agree, so does every field.
    pub proof fn law_view_leaves_nothing_out(self, other: RosterValidated)
        requires
            self@ == other@,
        ensures
            self.boss_id@ == other.boss_id@,
            self.roster_id@ == other.roster_id@,
            self.validated_count == other.validated_count,
    {
    }
}

impl Event {
    /// The view leaves nothing out: where two views agree, so do the variants and
    /// what they carry.
    pub proof fn law_view_leaves_nothing_out(self, other: Event)
        requires
            self@ == other@,
        ensures
            match (self, other) {
                (Event::BossDefined(a), Event::BossDefined(b)) => a@ == b@,
                (Event::SignatureAssigned(a), Event::SignatureAssigned(b)) => a@ == b@,
                (Event::RosterValidated(a), Event::RosterValidated(b)) => a@ == b@,
                _ => false,
            },
    {
    }
}

impl Request {
    /// The view leaves nothing out: where two views agree, so do the variants and
    /// what they carry.
    pub proof fn law_view_leaves_nothing_out(self, other: Request)
        requires
            self@ == other@,
        ensures
            match (self, other) {
                (Request::DefineBoss(a), Request::DefineBoss(b)) => a@ == b@,
                (Request::AssignSignatureCards(a), Request::AssignSignatureCards(b)) => a@ == b@,
                (Request::ValidateBossRoster(a), Request::ValidateBossRoster(b)) => a@ == b@,
                _ => false,
            },
    {
    }
}

} // verus!
