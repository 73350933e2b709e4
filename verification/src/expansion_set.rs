//! Released card sets and their cards.
//!
//! An [`ExpansionSet`] is the catalog entry for one draft expansion: its set
//! code, the cards it ships, the keywords it introduces, and the classes and
//! keywords that are legal. Before a set can be released it must be *validated*,
//! and three invariants keep a draft releasable:
//!
//! 1. **Validator** — every draft card must be schema-well-formed (a non-empty id
//!    and class), its cost and class must be legal, and it must respect the copy
//!    cap.
//! 2. **Keyword registration** — any new keyword introduced by the set must be
//!    registered and implemented in the engine before release.
//! 3. **Card count** — the set's card count must fall within the declared
//!    [`EXPANSION_CARD_COUNT_BOUNDS`].
use crate::shared;
use crate::shared::AggregateRoot;
use crate::shared::Command;
use crate::shared::CommandView;
use crate::shared::DomainError;
use crate::shared::Payload;
use crate::shared::PayloadView;
use crate::shared::Reply;
use crate::shared::Repository;
use crate::string_set;
use crate::string_set::StringSet;
use crate::text;
use vstd::prelude::*;

verus! {

/// The name of the aggregate type, as errors show it.
pub const AGGREGATE_TYPE: &'static str = "ExpansionSet";

/// The least and the greatest legal mana cost of a draft card.
pub const LEGAL_CARD_COST: (i64, i64) = (0, 12);

/// The copy cap: no single card may ship more than this many copies in a set.
pub const MAX_COPIES_PER_CARD: u32 = 2;

/// The least and the greatest number of cards in an expansion. A draft whose card
/// count falls outside this range cannot be released.
pub const EXPANSION_CARD_COUNT_BOUNDS: (usize, usize) = (100, 250);

/// A single draft card in an expansion, in its raw as-submitted form. The
/// validator checks each of these against schema, cost/class legality, and the
/// copy cap.
#[derive(Debug, PartialEq, Eq)]
pub struct DraftCard {
    /// The card's identity within the set; must be non-empty (schema).
    pub card_id: String,
    /// The card's class; must be non-empty (schema) and one of the registered legal
    /// classes (class legality).
    pub class: String,
    /// The card's mana cost; must fall within [`LEGAL_CARD_COST`].
    pub cost: i64,
    /// How many copies of the card ship in the set; must be within the copy cap
    /// `1..=`[`MAX_COPIES_PER_CARD`].
    pub copies: u32,
}

/// What a [`DraftCard`] says.
#[verifier::ext_equal]
pub struct DraftCardView {
    pub card_id: Seq<char>,
    pub class: Seq<char>,
    pub cost: i64,
    pub copies: u32,
}

impl View for DraftCard {
    type V = DraftCardView;

    open spec fn view(&self) -> DraftCardView {
        DraftCardView {
            card_id: self.card_id@,
            class: self.class@,
            cost: self.cost,
            copies: self.copies,
        }
    }
}

impl Clone for DraftCard {
    fn clone(&self) -> (r: Self)
        ensures
            r@ == self@,
    {
        DraftCard {
            card_id: self.card_id.clone(),
            class: self.class.clone(),
            cost: self.cost,
            copies: self.copies,
        }
    }
}

/// The `ValidateExpansionCmd` payload: the set code to validate.
#[derive(Debug, PartialEq, Eq)]
pub struct ValidateExpansion {
    /// The set code being validated; must name the set this aggregate records.
    pub set_code: String,
}

/// What a [`ValidateExpansion`] says.
#[verifier::ext_equal]
pub struct ValidateExpansionView {
    pub set_code: Seq<char>,
}

impl View for ValidateExpansion {
    type V = ValidateExpansionView;

    open spec fn view(&self) -> ValidateExpansionView {
        ValidateExpansionView {
            set_code: self.set_code@,
        }
    }
}

impl Clone for ValidateExpansion {
    fn clone(&self) -> (r: Self)
        ensures
            r@ == self@,
    {
        ValidateExpansion {
            set_code: self.set_code.clone(),
        }
    }
}

impl ValidateExpansion {
    /// The name of the command.
    pub const COMMAND: &'static str = "ValidateExpansionCmd";

    /// Builds a command validating the set `set_code`.
    pub fn new(set_code: &str) -> (r: Self)
        ensures
            r@ == (ValidateExpansionView {
                set_code: set_code@,
            }),
    {
        ValidateExpansion {
            set_code: set_code.to_owned(),
        }
    }

    /// This request as a command, ready to be executed.
    pub fn into_command(&self) -> (r: Command<Payload<ValidateExpansion>>)
        ensures
            r@ == (CommandView {
                name: Self::COMMAND@,
                payload: PayloadView::Decoded(self@),
            }),
    {
        let request = self.clone();
        Command::with_payload(Self::COMMAND, Payload::Decoded(request))
    }
}

/// A validated expansion, produced once every invariant has been checked.
/// Carried by [`Event::ExpansionValidated`] and thus by the emitted
/// `expansion.validated` event.
#[derive(Debug, PartialEq, Eq)]
pub struct ExpansionValidated {
    /// The set that was validated.
    pub set_code: String,
    /// The proven-legal card count of the set.
    pub card_count: usize,
}

/// What an [`ExpansionValidated`] says.
#[verifier::ext_equal]
pub struct ExpansionValidatedView {
    pub set_code: Seq<char>,
    pub card_count: usize,
}

impl View for ExpansionValidated {
    type V = ExpansionValidatedView;

    open spec fn view(&self) -> ExpansionValidatedView {
        ExpansionValidatedView {
            set_code: self.set_code@,
            card_count: self.card_count,
        }
    }
}

impl Clone for ExpansionValidated {
    fn clone(&self) -> (r: Self)
        ensures
            r@ == self@,
    {
        ExpansionValidated {
            set_code: self.set_code.clone(),
            card_count: self.card_count,
        }
    }
}

/// Domain events emitted by [`ExpansionSet`].
#[derive(Debug, PartialEq, Eq)]
pub enum Event {
    /// A draft set passed every invariant and is cleared for release.
    ExpansionValidated(ExpansionValidated),
}

/// What an [`Event`] says.
#[verifier::ext_equal]
pub enum EventView {
    ExpansionValidated(ExpansionValidatedView),
}

impl View for Event {
    type V = EventView;

    open spec fn view(&self) -> EventView {
        match self {
            Event::ExpansionValidated(body) => EventView::ExpansionValidated(body@),
        }
    }
}

impl Clone for Event {
    fn clone(&self) -> (r: Self)
        ensures
            r@ == self@,
    {
        match self {
            Event::ExpansionValidated(body) => Event::ExpansionValidated(body.clone()),
        }
    }
}

impl EventView {
    /// The name under which the event is published.
    pub open spec fn event_type(self) -> Seq<char> {
        match self {
            EventView::ExpansionValidated(_) => "expansion.validated"@,
        }
    }
}

impl Event {
    /// The name under which the event is published.
    pub fn event_type(&self) -> (r: &'static str)
        ensures
            r@ == self@.event_type(),
    {
        match self {
            Event::ExpansionValidated(_) => "expansion.validated",
        }
    }
}

/// The ExpansionSet aggregate: the catalog entry for a single draft expansion.
///
/// A fresh set from [`ExpansionSet::new`] is intentionally *empty* (no cards,
/// no keywords, no legal classes); the configuration methods below build it up
/// to a releasable shape before a command validates it, exactly as
/// [`BossDefinition`](crate::boss_definition) is configured before a command
/// validates it.
#[derive(Debug)]
pub struct ExpansionSet {
    id: String,
    root: AggregateRoot<Event>,
    /// The set code this aggregate records. A `ValidateExpansionCmd` must name this
    /// same set.
    set_code: String,
    /// The draft cards the set ships; validated against schema, cost/class
    /// legality, and the copy cap.
    draft_cards: Vec<DraftCard>,
    /// The keywords this set introduces; each must be registered in the engine.
    introduced_keywords: Vec<String>,
    /// The keywords registered and implemented in the engine.
    registered_keywords: StringSet,
    /// The legal classes a draft card's class must be drawn from.
    legal_classes: StringSet,
}

/// What an [`ExpansionSet`] says.
#[verifier::ext_equal]
pub struct ExpansionSetView {
    pub id: Seq<char>,
    pub events: Seq<EventView>,
    pub set_code: Seq<char>,
    pub draft_cards: Seq<DraftCardView>,
    pub introduced_keywords: Seq<Seq<char>>,
    pub registered_keywords: Set<Seq<char>>,
    pub legal_classes: Set<Seq<char>>,
}

impl View for ExpansionSet {
    type V = ExpansionSetView;

    closed spec fn view(&self) -> ExpansionSetView {
        ExpansionSetView {
            id: self.id@,
            events: self.root@,
            set_code: self.set_code@,
            draft_cards: shared::views(self.draft_cards@),
            introduced_keywords: text::texts(self.introduced_keywords@),
            registered_keywords: self.registered_keywords@,
            legal_classes: self.legal_classes@,
        }
    }
}

/// The message of the first check that a draft card fails, if it fails one.
pub open spec fn card_fault(
    legal_classes: Set<Seq<char>>,
    card: DraftCardView,
) -> Option<Seq<char>> {
    if text::is_blank_text(card.card_id) {
        Some("draft card fails schema: empty card id"@)
    } else if text::is_blank_text(card.class) {
        Some("draft card '"@ + card.card_id + "' fails schema: empty class"@)
    } else if card.cost < LEGAL_CARD_COST.0 || card.cost > LEGAL_CARD_COST.1 {
        Some(
            "draft card '"@ + card.card_id + "' cost "@ + text::decimal(card.cost as int)
                + " is outside the legal range ["@ + text::decimal(LEGAL_CARD_COST.0 as int)
                + ", "@ + text::decimal(LEGAL_CARD_COST.1 as int) + "]"@,
        )
    } else if !legal_classes.contains(card.class) {
        Some(
            "draft card '"@ + card.card_id + "' class '"@ + card.class + "' is not a legal class"@,
        )
    } else if card.copies == 0 || card.copies > MAX_COPIES_PER_CARD {
        Some(
            "draft card '"@ + card.card_id + "' ships "@ + text::decimal(card.copies as int)
                + " copies, outside the copy cap [1, "@
                + text::decimal(MAX_COPIES_PER_CARD as int) + "]"@,
        )
    } else {
        None
    }
}

/// The message about the first draft card that fails a check.
pub open spec fn cards_fault(
    legal_classes: Set<Seq<char>>,
    cards: Seq<DraftCardView>,
) -> Option<Seq<char>>
    decreases cards.len(),
{
    if cards.len() == 0 {
        None
    } else {
        shared::first(
            card_fault(legal_classes, cards[0]),
            cards_fault(legal_classes, cards.drop_first()),
        )
    }
}

impl ExpansionSetView {
    /// The message about the first draft card that fails the validator.
    pub open spec fn validator_fault(self) -> Option<Seq<char>> {
        cards_fault(self.legal_classes, self.draft_cards)
    }

    /// The message about the first keyword that the engine does not know.
    pub open spec fn keyword_fault(self) -> Option<Seq<char>> {
        match string_set::first_missing(self.registered_keywords, self.introduced_keywords) {
            Some(keyword) => Some(
                "keyword '"@ + keyword
                    + "' introduced by the set is not registered and implemented in the engine"@,
            ),
            None => None,
        }
    }

    /// The message where the set has too few or too many cards.
    pub open spec fn count_fault(self) -> Option<Seq<char>> {
        if self.draft_cards.len() < EXPANSION_CARD_COUNT_BOUNDS.0
            || self.draft_cards.len() > EXPANSION_CARD_COUNT_BOUNDS.1 {
            Some(
                "set card count must fall within the declared bounds ["@
                    + text::decimal(EXPANSION_CARD_COUNT_BOUNDS.0 as int) + ", "@
                    + text::decimal(EXPANSION_CARD_COUNT_BOUNDS.1 as int) + "]; set '"@
                    + self.set_code + "' has "@ + text::decimal(self.draft_cards.len() as int),
            )
        } else {
            None
        }
    }

    /// The message of the first rule that refuses a [`ValidateExpansion`], if one does.
    pub open spec fn validate_expansion_fault(
        self,
        cmd: ValidateExpansionView,
    ) -> Option<Seq<char>> {
        if cmd.set_code != self.set_code {
            Some(
                "command targets set '"@ + cmd.set_code + "' but this aggregate records '"@
                    + self.set_code + "'"@,
            )
        } else {
            shared::first(
                self.validator_fault(),
                shared::first(self.keyword_fault(), self.count_fault()),
            )
        }
    }

    /// The state after a [`ValidateExpansion`], and the answer to it.
    pub open spec fn validate_expansion(self, cmd: ValidateExpansionView) -> (
        ExpansionSetView,
        Reply<EventView>,
    ) {
        match self.validate_expansion_fault(cmd) {
            Some(message) => (self, shared::violation(message)),
            None => {
                let event = EventView::ExpansionValidated(ExpansionValidatedView {
                    set_code: cmd.set_code,
                    card_count: self.draft_cards.len() as usize,
                });
                (ExpansionSetView { events: self.events.push(event), ..self }, Ok(seq![event]))
            },
        }
    }

    /// The state after a command, and the answer to it.
    pub open spec fn execute(self, command: CommandView<PayloadView<ValidateExpansionView>>) -> (
        ExpansionSetView,
        Reply<EventView>,
    ) {
        if command.name == ValidateExpansion::COMMAND@ {
            match command.payload {
                PayloadView::Decoded(cmd) => self.validate_expansion(cmd),
                PayloadView::Malformed(complaint) => (
                    self,
                    shared::malformed_reply(ValidateExpansion::COMMAND@, complaint),
                ),
            }
        } else {
            (self, shared::unknown(AGGREGATE_TYPE@, command.name))
        }
    }
}

impl ExpansionSet {
    /// The name of the aggregate type.
    pub fn aggregate_type() -> (r: &'static str)
        ensures
            r@ == AGGREGATE_TYPE@,
    {
        AGGREGATE_TYPE
    }

    /// Creates an empty expansion identified by `id`: no cards, no keywords, no
    /// legal classes.
    pub fn new(id: &str) -> (r: Self)
        ensures
            r@ == (ExpansionSetView {
                id: id@,
                events: Seq::empty(),
                set_code: id@,
                draft_cards: Seq::empty(),
                introduced_keywords: Seq::empty(),
                registered_keywords: Set::empty(),
                legal_classes: Set::empty(),
            }),
    {
        proof {
            assert(text::texts(Seq::empty()) =~= Seq::<Seq<char>>::empty());
            assert(shared::views(Seq::<DraftCard>::empty()) =~= Seq::<DraftCardView>::empty());
        }
        ExpansionSet {
            id: id.to_owned(),
            root: AggregateRoot::new(),
            set_code: id.to_owned(),
            draft_cards: Vec::new(),
            introduced_keywords: Vec::new(),
            registered_keywords: StringSet::new(),
            legal_classes: StringSet::new(),
        }
    }

    /// This aggregate's identity.
    pub fn id(&self) -> (r: &str)
        ensures
            r@ == self@.id,
    {
        self.id.as_str()
    }

    /// The version: the number of events recorded.
    pub fn version(&self) -> (r: u64)
        ensures
            r == self@.events.len(),
    {
        self.root.version()
    }

    /// The events recorded and not yet persisted.
    pub fn uncommitted_events(&self) -> (r: &[Event])
        ensures
            shared::views(r@) == self@.events,
    {
        self.root.uncommitted_events()
    }

    /// Checks one draft card: schema, cost and class legality, and copy cap.
    fn ensure_card_passes(&self, card: &DraftCard) -> (r: Result<(), DomainError>)
        ensures
            shared::broken(r) == shared::owed(card_fault(self@.legal_classes, card@)),
    {
        if text::is_blank(&card.card_id) {
            return shared::refuse("draft card fails schema: empty card id".to_owned());
        }
        if text::is_blank(&card.class) {
            return shared::refuse(
                text::cat3(
                    "draft card '", &card.card_id, "' fails schema: empty class",
                ),
            );
        }
        if card.cost < LEGAL_CARD_COST.0 || card.cost > LEGAL_CARD_COST.1 {
            return shared::refuse(
                text::cat9(
                    "draft card '", &card.card_id, "' cost ", &text::show_signed(card.cost),
                    " is outside the legal range [", &text::show_signed(LEGAL_CARD_COST.0), ", ",
                    &text::show_signed(LEGAL_CARD_COST.1), "]",
                ),
            );
        }
        if !self.legal_classes.contains(card.class.as_str()) {
            return shared::refuse(
                text::cat5(
                    "draft card '", &card.card_id, "' class '", &card.class,
                    "' is not a legal class",
                ),
            );
        }
        if card.copies == 0 || card.copies > MAX_COPIES_PER_CARD {
            return shared::refuse(
                text::cat7(
                    "draft card '", &card.card_id, "' ships ", &text::show(card.copies as u64),
                    " copies, outside the copy cap [1, ", &text::show(MAX_COPIES_PER_CARD as u64),
                    "]",
                ),
            );
        }
        Ok(())
    }

    /// Validator invariant: every draft card is schema-well-formed and passes
    /// cost/class legality and the copy cap.
    fn ensure_passes_validator(&self) -> (r: Result<(), DomainError>)
        ensures
            shared::broken(r) == shared::owed(self@.validator_fault()),
    {
        let mut i: usize = 0;
        let ghost all = self@.draft_cards;
        let ghost classes = self@.legal_classes;
        assert(all.skip(0) =~= all);
        while i < self.draft_cards.len()
            invariant
                i <= self.draft_cards@.len(),
                all == self@.draft_cards,
                classes == self@.legal_classes,
                cards_fault(classes, all) == cards_fault(classes, all.skip(i as int)),
            decreases self.draft_cards@.len() - i,
        {
            assert(all.skip(i as int)[0] == self.draft_cards@[i as int]@);
            if let Err(error) = self.ensure_card_passes(&self.draft_cards[i]) {
                return Err(error);
            }
            assert(all.skip(i as int).drop_first() =~= all.skip(i + 1));
            i += 1;
        }
        Ok(())
    }

    /// Keyword-registration invariant: every keyword the set introduces is
    /// registered and implemented in the engine.
    fn ensure_keywords_registered(&self) -> (r: Result<(), DomainError>)
        ensures
            shared::broken(r) == shared::owed(self@.keyword_fault()),
    {
        match self.registered_keywords.first_missing(&self.introduced_keywords) {
            Some(i) => shared::refuse(
                text::cat3(
                    "keyword '", &self.introduced_keywords[i],
                    "' introduced by the set is not registered and implemented in the engine",
                ),
            ),
            None => Ok(()),
        }
    }

    /// Card-count invariant: the set's card count falls within the declared
    /// [`EXPANSION_CARD_COUNT_BOUNDS`].
    fn ensure_card_count(&self) -> (r: Result<(), DomainError>)
        ensures
            shared::broken(r) == shared::owed(self@.count_fault()),
    {
        if self.draft_cards.len() < EXPANSION_CARD_COUNT_BOUNDS.0
            || self.draft_cards.len() > EXPANSION_CARD_COUNT_BOUNDS.1 {
            return shared::refuse(
                text::cat8(
                    "set card count must fall within the declared bounds [",
                    &text::show(EXPANSION_CARD_COUNT_BOUNDS.0 as u64), ", ",
                    &text::show(EXPANSION_CARD_COUNT_BOUNDS.1 as u64), "]; set '", &self.set_code,
                    "' has ", &text::show(self.draft_cards.len() as u64),
                ),
            );
        }
        Ok(())
    }

    /// Handles a validation: the command must name this set, and the three
    /// invariants must hold of the draft. No field changes; only the event is
    /// recorded.
    fn validate_expansion(&mut self, cmd: ValidateExpansion) -> (r: Result<
        Vec<Event>,
        DomainError,
    >)
        ensures
            final(self)@ == old(self)@.validate_expansion(cmd@).0,
            shared::reply(r) == old(self)@.validate_expansion(cmd@).1,
    {
        if !text::same(&cmd.set_code, &self.set_code) {
            return shared::refuse(
                text::cat5(
                    "command targets set '", &cmd.set_code, "' but this aggregate records '",
                    &self.set_code, "'",
                ),
            );
        }
        if let Err(error) = self.ensure_passes_validator() {
            return Err(error);
        }
        if let Err(error) = self.ensure_keywords_registered() {
            return Err(error);
        }
        if let Err(error) = self.ensure_card_count() {
            return Err(error);
        }
        let event = Event::ExpansionValidated(
            ExpansionValidated { set_code: cmd.set_code, card_count: self.draft_cards.len() },
        );
        self.root.record(event.clone());
        Ok(shared::only(event))
    }

    /// Carries out a command, or says why it is refused.
    pub fn execute(&mut self, command: Command<Payload<ValidateExpansion>>) -> (r: Result<
        Vec<Event>,
        DomainError,
    >)
        ensures
            final(self)@ == old(self)@.execute(command@).0,
            shared::reply(r) == old(self)@.execute(command@).1,
    {
        if text::same(&command.name, ValidateExpansion::COMMAND) {
            match command.payload {
                Payload::Decoded(cmd) => self.validate_expansion(cmd),
                Payload::Malformed(complaint) => {
                    shared::malformed(ValidateExpansion::COMMAND, &complaint)
                },
            }
        } else {
            Err(DomainError::unknown_command(AGGREGATE_TYPE, command.name))
        }
    }

    /// The set this aggregate records.
    pub fn set_code(&self) -> (r: &str)
        ensures
            r@ == self@.set_code,
    {
        self.set_code.as_str()
    }

    /// Adds a draft card to the set.
    pub fn add_draft_card(&mut self, card: DraftCard)
        ensures
            final(self)@ == (ExpansionSetView {
                draft_cards: old(self)@.draft_cards.push(card@),
                ..old(self)@
            }),
    {
        self.draft_cards.push(card);
        assert(self@.draft_cards =~= old(self)@.draft_cards.push(card@));
    }

    /// Declares a keyword the set introduces. Each introduced keyword must be
    /// registered in the engine for validation to pass.
    pub fn introduce_keyword(&mut self, keyword: &str)
        ensures
            final(self)@ == (ExpansionSetView {
                introduced_keywords: old(self)@.introduced_keywords.push(keyword@),
                ..old(self)@
            }),
    {
        self.introduced_keywords.push(keyword.to_owned());
        assert(self@.introduced_keywords =~= old(self)@.introduced_keywords.push(keyword@));
    }

    /// Registers the keywords implemented in the engine that introduced keywords
    /// may resolve to.
    pub fn register_engine_keywords(&mut self, keywords: &[&str])
        ensures
            final(self)@ == (ExpansionSetView {
                registered_keywords: text::slices(keywords@).to_set(),
                ..old(self)@
            }),
    {
        self.registered_keywords = StringSet::of(keywords);
    }

    /// Registers the legal classes a draft card's class must be drawn from.
    pub fn register_legal_classes(&mut self, classes: &[&str])
        ensures
            final(self)@ == (ExpansionSetView {
                legal_classes: text::slices(classes@).to_set(),
                ..old(self)@
            }),
    {
        self.legal_classes = StringSet::of(classes);
    }
}

/// The repository port of the [`ExpansionSet`] aggregate: an adapter implements
/// [`Repository`] for it and then this marker.
pub trait ExpansionSetRepository: Repository<ExpansionSet> {

}

/// No card fails exactly where each card passes.
proof fn lemma_all_cards_pass(legal_classes: Set<Seq<char>>, cards: Seq<DraftCardView>)
    ensures
        cards_fault(legal_classes, cards) is None <==> forall|i: int|
            0 <= i < cards.len() ==> card_fault(legal_classes, #[trigger] cards[i]) is None,
    decreases cards.len(),
{
    if cards.len() > 0 {
        let rest = cards.drop_first();
        lemma_all_cards_pass(legal_classes, rest);
        if cards_fault(legal_classes, cards) is None {
            assert forall|i: int| 0 <= i < cards.len() implies card_fault(
                legal_classes,
                #[trigger] cards[i],
            ) is None by {
                if i > 0 {
                    assert(cards[i] == rest[i - 1]);
                }
            }
        }
        if forall|i: int|
            0 <= i < cards.len() ==> card_fault(legal_classes, #[trigger] cards[i]) is None {
            assert(card_fault(legal_classes, cards[0]) is None);
            assert forall|i: int| 0 <= i < rest.len() implies card_fault(
                legal_classes,
                #[trigger] rest[i],
            ) is None by {
                assert(rest[i] == cards[i + 1]);
            }
        }
    }
}

impl ExpansionSetView {
    /// A refused command changes nothing: neither the state nor the events.
    pub proof fn law_refusal_changes_nothing(
        self,
        command: CommandView<PayloadView<ValidateExpansionView>>,
    )
        ensures
            self.execute(command).1 is Err ==> self.execute(command).0 == self,
    {
    }

    /// An accepted command records exactly the events it answers with, behind
    /// those recorded before.
    pub proof fn law_events_are_recorded(
        self,
        command: CommandView<PayloadView<ValidateExpansionView>>,
    )
        ensures
            self.execute(command).1 matches Ok(events) ==> {
                &&& events.len() == 1
                &&& self.execute(command).0.events == self.events + events
            },
    {
        if let Ok(events) = self.execute(command).1 {
            assert(self.execute(command).0.events =~= self.events + events);
        }
    }

    /// A set is cleared for release exactly where it is the one named, every card
    /// passes the validator, every keyword is registered and the card count is
    /// within bounds.
    pub proof fn law_release_is_owed(self, cmd: ValidateExpansionView)
        ensures
            self.validate_expansion(cmd).1 is Ok <==> {
                &&& cmd.set_code == self.set_code
                &&& forall|i: int|
                    0 <= i < self.draft_cards.len() ==> {
                        let card = #[trigger] self.draft_cards[i];
                        &&& !text::is_blank_text(card.card_id)
                        &&& !text::is_blank_text(card.class)
                        &&& LEGAL_CARD_COST.0 <= card.cost <= LEGAL_CARD_COST.1
                        &&& self.legal_classes.contains(card.class)
                        &&& 1 <= card.copies <= MAX_COPIES_PER_CARD
                    }
                &&& forall|i: int|
                    0 <= i < self.introduced_keywords.len() ==> self.registered_keywords.contains(
                        #[trigger] self.introduced_keywords[i],
                    )
                &&& EXPANSION_CARD_COUNT_BOUNDS.0 <= self.draft_cards.len()
                    <= EXPANSION_CARD_COUNT_BOUNDS.1
            },
    {
        lemma_all_cards_pass(self.legal_classes, self.draft_cards);
        string_set::lemma_none_missing(self.registered_keywords, self.introduced_keywords);
    }

    /// Validation changes nothing but the events.
    pub proof fn law_validation_only_asserts(self, cmd: ValidateExpansionView)
        ensures
            self.validate_expansion(cmd).0 == (ExpansionSetView {
                events: self.validate_expansion(cmd).0.events,
                ..self
            }),
    {
    }
}

impl ExpansionSetView {
    /// Every command goes to its own handler, a payload that does not read is
    /// refused with the complaint about it, and a name that is none of these is
    /// unknown; what is refused otherwise is refused for a broken rule.
    pub proof fn law_commands_are_routed(
        self,
        command: CommandView<PayloadView<ValidateExpansionView>>,
    )
        ensures
            command.name == "ValidateExpansionCmd"@ ==> match command.payload {
                PayloadView::Decoded(cmd) => self.execute(command)
                    == self.validate_expansion(cmd),
                PayloadView::Malformed(complaint) => self.execute(command).1 == shared::violation::<
                    EventView,
                >("malformed "@ + "ValidateExpansionCmd"@ + " payload: "@ + complaint),
            },
            command.name != "ValidateExpansionCmd"@ ==> self.execute(command).1 == Err::<
                Seq<EventView>,
                shared::DomainErrorView,
            >(
                shared::DomainErrorView::UnknownCommand {
                    aggregate: "ExpansionSet"@,
                    command: command.name,
                },
            ),
            self.execute(command).1 matches Err(error) ==> (error is InvariantViolation <==> {
                ||| command.name == "ValidateExpansionCmd"@
            }),
    {
    }

    /// A validation records the set that was named and how many cards it has;
    /// nothing else changes.
    pub proof fn law_validation_records_the_set(self, cmd: ValidateExpansionView)
        requires
            self.validate_expansion(cmd).1 is Ok,
        ensures
            ({
                let after = self.validate_expansion(cmd).0;
                &&& self.validate_expansion(cmd).1 matches Ok(events)
                &&& events.len() == 1
                &&& events[0].event_type() == "expansion.validated"@
                &&& events[0] matches EventView::ExpansionValidated(said)
                &&& said.set_code == cmd.set_code
                &&& said.card_count == self.draft_cards.len()
                &&& after == (ExpansionSetView {
                    events: self.events.push(events[0]),
                    ..self
                })
            }),
    {
    }
}

impl DraftCard {
    /// The view leaves nothing out: where two views agree, so does every field.
    pub proof fn law_view_leaves_nothing_out(self, other: DraftCard)
        requires
            self@ == other@,
        ensures
            self.card_id@ == other.card_id@,
            self.class@ == other.class@,
            self.cost == other.cost,
            self.copies == other.copies,
    {
    }
}

impl ValidateExpansion {
    /// The view leaves nothing out: where two views agree, so does every field.
    pub proof fn law_view_leaves_nothing_out(self, other: ValidateExpansion)
        requires
            self@ == other@,
        ensures
            self.set_code@ == other.set_code@,
    {
    }
}

impl ExpansionValidated {
    /// The view leaves nothing out: where two views agree, so does every field.
    pub proof fn law_view_leaves_nothing_out(self, other: ExpansionValidated)
        requires
            self@ == other@,
        ensures
            self.set_code@ == other.set_code@,
            self.card_count == other.card_count,
    {
    }
}

impl Event {
    /// The view leaves nothing out: where two views agree, so do the variants and
    /// what they carry.
    pub proof fn law_view_leaves_nothing_out(self, other: Event)
        requires
            self@ == other@,
        ensures
            match (self, other) {
                (Event::ExpansionValidated(a), Event::ExpansionValidated(b)) => a@ == b@,
            },
    {
    }
}

} // verus!
