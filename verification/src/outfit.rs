//! A player's constructed deck of cards.
//!
//! An [`Outfit`] is a single player's deck. Four invariants govern whether it is
//! legal for saving/play, and every one of them is re-checked by each command:
//!
//! 1. **Exactly 30 cards** — a deck of any other size cannot be saved or played.
//! 2. **Own class or Neutral only** — a card of a foreign class is illegal.
//! 3. **Copy caps** — at most 2 copies of any card (1 copy for a Legendary) may
//!    be included.
//! 4. **Owned at validation time** — every card in the Outfit must be owned in
//!    the player's collection.
use crate::shared;
use crate::shared::AggregateRoot;
use crate::shared::Command;
use crate::shared::CommandView;
use crate::shared::DomainError;
use crate::shared::Payload;
use crate::shared::PayloadView;
use crate::shared::Reply;
use crate::shared::Repository;
use crate::shared::OTHER_COMMAND;
use crate::text;
use vstd::prelude::*;

verus! {

/// The name of the aggregate type, as errors show it.
pub const AGGREGATE_TYPE: &'static str = "Outfit";

/// The number of cards an Outfit must hold, exactly, to be legal for saving/play.
pub const LEGAL_OUTFIT_SIZE: i64 = 30;

/// The `AddCardToOutfitCmd` payload: which card is added to which Outfit. Field
/// names use the deckbuilding service's `camelCase` schema.
#[derive(Debug, PartialEq, Eq)]
pub struct AddCardToOutfit {
    /// The Outfit the card is added to; must name this Outfit, and must be non-
    /// empty.
    pub outfit_id: String,
    /// The card being added; must be non-empty.
    pub card_id: String,
}

/// What an [`AddCardToOutfit`] says.
#[verifier::ext_equal]
pub struct AddCardToOutfitView {
    pub outfit_id: Seq<char>,
    pub card_id: Seq<char>,
}

impl View for AddCardToOutfit {
    type V = AddCardToOutfitView;

    open spec fn view(&self) -> AddCardToOutfitView {
        AddCardToOutfitView {
            outfit_id: self.outfit_id@,
            card_id: self.card_id@,
        }
    }
}

impl Clone for AddCardToOutfit {
    fn clone(&self) -> (r: Self)
        ensures
            r@ == self@,
    {
        AddCardToOutfit {
            outfit_id: self.outfit_id.clone(),
            card_id: self.card_id.clone(),
        }
    }
}

impl AddCardToOutfit {
    /// The name of the command.
    pub const COMMAND: &'static str = "AddCardToOutfitCmd";

    /// Builds a command adding `card_id` to `outfit_id`.
    pub fn new(outfit_id: &str, card_id: &str) -> (r: Self)
        ensures
            r@ == (AddCardToOutfitView {
                outfit_id: outfit_id@,
                card_id: card_id@,
            }),
    {
        AddCardToOutfit {
            outfit_id: outfit_id.to_owned(),
            card_id: card_id.to_owned(),
        }
    }

    /// This request as a command, ready to be executed.
    pub fn into_command(&self) -> (r: Command<Payload<Request>>)
        ensures
            r@ == (CommandView {
                name: Self::COMMAND@,
                payload: PayloadView::Decoded(RequestView::AddCardToOutfit(self@)),
            }),
    {
        let request = Request::AddCardToOutfit(self.clone());
        Command::with_payload(Self::COMMAND, Payload::Decoded(request))
    }
}

/// The `RemoveCardFromOutfitCmd` payload: which card is removed from which
/// Outfit. Field names use the deckbuilding service's `camelCase` schema.
#[derive(Debug, PartialEq, Eq)]
pub struct RemoveCardFromOutfit {
    /// The Outfit the card is removed from; must name this Outfit, and must be non-
    /// empty.
    pub outfit_id: String,
    /// The card being removed; must be non-empty.
    pub card_id: String,
}

/// What a [`RemoveCardFromOutfit`] says.
#[verifier::ext_equal]
pub struct RemoveCardFromOutfitView {
    pub outfit_id: Seq<char>,
    pub card_id: Seq<char>,
}

impl View for RemoveCardFromOutfit {
    type V = RemoveCardFromOutfitView;

    open spec fn view(&self) -> RemoveCardFromOutfitView {
        RemoveCardFromOutfitView {
            outfit_id: self.outfit_id@,
            card_id: self.card_id@,
        }
    }
}

impl Clone for RemoveCardFromOutfit {
    fn clone(&self) -> (r: Self)
        ensures
            r@ == self@,
    {
        RemoveCardFromOutfit {
            outfit_id: self.outfit_id.clone(),
            card_id: self.card_id.clone(),
        }
    }
}

impl RemoveCardFromOutfit {
    /// The name of the command.
    pub const COMMAND: &'static str = "RemoveCardFromOutfitCmd";

    /// Builds a command removing `card_id` from `outfit_id`.
    pub fn new(outfit_id: &str, card_id: &str) -> (r: Self)
        ensures
            r@ == (RemoveCardFromOutfitView {
                outfit_id: outfit_id@,
                card_id: card_id@,
            }),
    {
        RemoveCardFromOutfit {
            outfit_id: outfit_id.to_owned(),
            card_id: card_id.to_owned(),
        }
    }

    /// This request as a command, ready to be executed.
    pub fn into_command(&self) -> (r: Command<Payload<Request>>)
        ensures
            r@ == (CommandView {
                name: Self::COMMAND@,
                payload: PayloadView::Decoded(RequestView::RemoveCardFromOutfit(self@)),
            }),
    {
        let request = Request::RemoveCardFromOutfit(self.clone());
        Command::with_payload(Self::COMMAND, Payload::Decoded(request))
    }
}

/// The `ValidateOutfitCmd` payload: which Outfit is being validated. Field
/// names use the deckbuilding service's `camelCase` schema.
#[derive(Debug, PartialEq, Eq)]
pub struct ValidateOutfit {
    /// The Outfit being validated; must name this Outfit, and must be non-empty.
    pub outfit_id: String,
}

/// What a [`ValidateOutfit`] says.
#[verifier::ext_equal]
pub struct ValidateOutfitView {
    pub outfit_id: Seq<char>,
}

impl View for ValidateOutfit {
    type V = ValidateOutfitView;

    open spec fn view(&self) -> ValidateOutfitView {
        ValidateOutfitView {
            outfit_id: self.outfit_id@,
        }
    }
}

impl Clone for ValidateOutfit {
    fn clone(&self) -> (r: Self)
        ensures
            r@ == self@,
    {
        ValidateOutfit {
            outfit_id: self.outfit_id.clone(),
        }
    }
}

impl ValidateOutfit {
    /// The name of the command.
    pub const COMMAND: &'static str = "ValidateOutfitCmd";

    /// Builds a command validating `outfit_id`.
    pub fn new(outfit_id: &str) -> (r: Self)
        ensures
            r@ == (ValidateOutfitView {
                outfit_id: outfit_id@,
            }),
    {
        ValidateOutfit {
            outfit_id: outfit_id.to_owned(),
        }
    }

    /// This request as a command, ready to be executed.
    pub fn into_command(&self) -> (r: Command<Payload<Request>>)
        ensures
            r@ == (CommandView {
                name: Self::COMMAND@,
                payload: PayloadView::Decoded(RequestView::ValidateOutfit(self@)),
            }),
    {
        let request = Request::ValidateOutfit(self.clone());
        Command::with_payload(Self::COMMAND, Payload::Decoded(request))
    }
}

/// The card that was added, carried by [`Event::CardAddedToOutfit`] and thus by
/// the emitted `card.added.to.outfit` event.
#[derive(Debug, PartialEq, Eq)]
pub struct CardAddedToOutfit {
    /// The Outfit the card was added to.
    pub outfit_id: String,
    /// The card that was added.
    pub card_id: String,
}

/// What a [`CardAddedToOutfit`] says.
#[verifier::ext_equal]
pub struct CardAddedToOutfitView {
    pub outfit_id: Seq<char>,
    pub card_id: Seq<char>,
}

impl View for CardAddedToOutfit {
    type V = CardAddedToOutfitView;

    open spec fn view(&self) -> CardAddedToOutfitView {
        CardAddedToOutfitView {
            outfit_id: self.outfit_id@,
            card_id: self.card_id@,
        }
    }
}

impl Clone for CardAddedToOutfit {
    fn clone(&self) -> (r: Self)
        ensures
            r@ == self@,
    {
        CardAddedToOutfit {
            outfit_id: self.outfit_id.clone(),
            card_id: self.card_id.clone(),
        }
    }
}

/// The card that was removed, carried by [`Event::CardRemovedFromOutfit`] and
/// thus by the emitted `card.removed.from.outfit` event.
#[derive(Debug, PartialEq, Eq)]
pub struct CardRemovedFromOutfit {
    /// The Outfit the card was removed from.
    pub outfit_id: String,
    /// The card that was removed.
    pub card_id: String,
}

/// What a [`CardRemovedFromOutfit`] says.
#[verifier::ext_equal]
pub struct CardRemovedFromOutfitView {
    pub outfit_id: Seq<char>,
    pub card_id: Seq<char>,
}

impl View for CardRemovedFromOutfit {
    type V = CardRemovedFromOutfitView;

    open spec fn view(&self) -> CardRemovedFromOutfitView {
        CardRemovedFromOutfitView {
            outfit_id: self.outfit_id@,
            card_id: self.card_id@,
        }
    }
}

impl Clone for CardRemovedFromOutfit {
    fn clone(&self) -> (r: Self)
        ensures
            r@ == self@,
    {
        CardRemovedFromOutfit {
            outfit_id: self.outfit_id.clone(),
            card_id: self.card_id.clone(),
        }
    }
}

/// The Outfit that passed full legality validation, carried by
/// [`Event::OutfitValidated`] and thus by the emitted `outfit.validated` event.
#[derive(Debug, PartialEq, Eq)]
pub struct OutfitValidated {
    /// The Outfit that was validated.
    pub outfit_id: String,
}

/// What an [`OutfitValidated`] says.
#[verifier::ext_equal]
pub struct OutfitValidatedView {
    pub outfit_id: Seq<char>,
}

impl View for OutfitValidated {
    type V = OutfitValidatedView;

    open spec fn view(&self) -> OutfitValidatedView {
        OutfitValidatedView {
            outfit_id: self.outfit_id@,
        }
    }
}

impl Clone for OutfitValidated {
    fn clone(&self) -> (r: Self)
        ensures
            r@ == self@,
    {
        OutfitValidated {
            outfit_id: self.outfit_id.clone(),
        }
    }
}

/// Domain events emitted by [`Outfit`].
#[derive(Debug, PartialEq, Eq)]
pub enum Event {
    /// A card was added to the Outfit.
    CardAddedToOutfit(CardAddedToOutfit),
    /// A card was removed from the Outfit.
    CardRemovedFromOutfit(CardRemovedFromOutfit),
    /// The Outfit passed full 30-card legality validation.
    OutfitValidated(OutfitValidated),
}

/// What an [`Event`] says.
#[verifier::ext_equal]
pub enum EventView {
    CardAddedToOutfit(CardAddedToOutfitView),
    CardRemovedFromOutfit(CardRemovedFromOutfitView),
    OutfitValidated(OutfitValidatedView),
}

impl View for Event {
    type V = EventView;

    open spec fn view(&self) -> EventView {
        match self {
            Event::CardAddedToOutfit(body) => EventView::CardAddedToOutfit(body@),
            Event::CardRemovedFromOutfit(body) => EventView::CardRemovedFromOutfit(body@),
            Event::OutfitValidated(body) => EventView::OutfitValidated(body@),
        }
    }
}

impl Clone for Event {
    fn clone(&self) -> (r: Self)
        ensures
            r@ == self@,
    {
        match self {
            Event::CardAddedToOutfit(body) => Event::CardAddedToOutfit(body.clone()),
            Event::CardRemovedFromOutfit(body) => Event::CardRemovedFromOutfit(body.clone()),
            Event::OutfitValidated(body) => Event::OutfitValidated(body.clone()),
        }
    }
}

impl EventView {
    /// The name under which the event is published.
    pub open spec fn event_type(self) -> Seq<char> {
        match self {
            EventView::CardAddedToOutfit(_) => "card.added.to.outfit"@,
            EventView::CardRemovedFromOutfit(_) => "card.removed.from.outfit"@,
            EventView::OutfitValidated(_) => "outfit.validated"@,
        }
    }
}

impl Event {
    /// The name under which the event is published.
    pub fn event_type(&self) -> (r: &'static str)
        ensures
            r@ == self@.event_type(),
    {
        match self {
            Event::CardAddedToOutfit(_) => "card.added.to.outfit",
            Event::CardRemovedFromOutfit(_) => "card.removed.from.outfit",
            Event::OutfitValidated(_) => "outfit.validated",
        }
    }
}

/// A command of this context, with its payload read.
pub enum Request {
    /// An [`AddCardToOutfit`].
    AddCardToOutfit(AddCardToOutfit),
    /// A [`RemoveCardFromOutfit`].
    RemoveCardFromOutfit(RemoveCardFromOutfit),
    /// A [`ValidateOutfit`].
    ValidateOutfit(ValidateOutfit),
}

/// What a [`Request`] says.
#[verifier::ext_equal]
pub enum RequestView {
    AddCardToOutfit(AddCardToOutfitView),
    RemoveCardFromOutfit(RemoveCardFromOutfitView),
    ValidateOutfit(ValidateOutfitView),
}

impl View for Request {
    type V = RequestView;

    open spec fn view(&self) -> RequestView {
        match self {
            Request::AddCardToOutfit(body) => RequestView::AddCardToOutfit(body@),
            Request::RemoveCardFromOutfit(body) => RequestView::RemoveCardFromOutfit(body@),
            Request::ValidateOutfit(body) => RequestView::ValidateOutfit(body@),
        }
    }
}

/// The Outfit aggregate: one player's constructed deck.
///
/// A fresh Outfit from [`Outfit::new`] is legal and removal-ready: it holds
/// exactly [`LEGAL_OUTFIT_SIZE`] cards, all of its own class or Neutral, all
/// within copy caps, and all owned. The configuration methods below drive it to
/// a state a command rejects, exactly as
/// [`PlayerCollection`](crate::player_collection) is built up before a command
/// validates it.
///
/// The card count is deliberately an `i64` rather than an unsigned type so an
/// *illegal* size (including a negative one) is representable — that is the
/// only way the "exactly 30 cards" invariant can be exercised rather than made
/// vacuous by the type system.
#[derive(Debug)]
pub struct Outfit {
    id: String,
    root: AggregateRoot<Event>,
    /// The player who owns this Outfit.
    player_id: String,
    /// The number of cards currently in the deck. Must equal [`LEGAL_OUTFIT_SIZE`]
    /// for the Outfit to be legal for saving/play.
    card_count: i64,
    /// Whether every card in the deck is of the Outfit's own class or Neutral.
    only_own_class_or_neutral: bool,
    /// Whether every card respects its copy cap (≤ 2 copies, ≤ 1 for Legendary).
    within_copy_limits: bool,
    /// Whether every card in the deck is owned in the player's collection at
    /// validation time.
    all_cards_owned: bool,
}

/// What an [`Outfit`] says.
#[verifier::ext_equal]
pub struct OutfitView {
    pub id: Seq<char>,
    pub events: Seq<EventView>,
    pub player_id: Seq<char>,
    pub card_count: i64,
    pub only_own_class_or_neutral: bool,
    pub within_copy_limits: bool,
    pub all_cards_owned: bool,
}

impl View for Outfit {
    type V = OutfitView;

    closed spec fn view(&self) -> OutfitView {
        OutfitView {
            id: self.id@,
            events: self.root@,
            player_id: self.player_id@,
            card_count: self.card_count,
            only_own_class_or_neutral: self.only_own_class_or_neutral,
            within_copy_limits: self.within_copy_limits,
            all_cards_owned: self.all_cards_owned,
        }
    }
}

impl OutfitView {
    /// The message where the deck has another size.
    pub open spec fn size_fault(self) -> Option<Seq<char>> {
        if self.card_count != LEGAL_OUTFIT_SIZE {
            Some(
                "outfit '"@ + self.id + "' holds "@ + text::decimal(self.card_count as int)
                    + " cards; an Outfit contains exactly "@
                    + text::decimal(LEGAL_OUTFIT_SIZE as int)
                    + " cards to be legal for saving/play"@,
            )
        } else {
            None
        }
    }

    /// The message where a card is of a foreign class.
    pub open spec fn class_fault(self) -> Option<Seq<char>> {
        if !self.only_own_class_or_neutral {
            Some(
                "outfit '"@ + self.id
                    + "' includes a card outside its own class; an Outfit may include only cards of its own class plus Neutral cards"@,
            )
        } else {
            None
        }
    }

    /// The message where a copy cap is exceeded.
    pub open spec fn copies_fault(self) -> Option<Seq<char>> {
        if !self.within_copy_limits {
            Some(
                "outfit '"@ + self.id
                    + "' exceeds a card's copy cap; at most 2 copies of any card (1 copy for a Legendary) may be included"@,
            )
        } else {
            None
        }
    }

    /// The message where a card is not owned.
    pub open spec fn ownership_fault(self) -> Option<Seq<char>> {
        if !self.all_cards_owned {
            Some(
                "outfit '"@ + self.id + "' references a card not owned by player '"@
                    + self.player_id
                    + "'; every card in the Outfit must be owned in the player's collection at validation time"@,
            )
        } else {
            None
        }
    }

    /// The message of the first rule that refuses an [`AddCardToOutfit`], if one does.
    pub open spec fn add_card_fault(
        self,
        cmd: AddCardToOutfitView,
    ) -> Option<Seq<char>> {
        if text::is_blank_text(cmd.outfit_id) {
            Some("outfit '"@ + self.id + "' requires a valid outfitId to add a card"@)
        } else if text::is_blank_text(cmd.card_id) {
            Some("outfit '"@ + self.id + "' requires a valid cardId to add a card"@)
        } else if cmd.outfit_id != self.id {
            Some(
                "command targets outfit '"@ + cmd.outfit_id + "' but this aggregate is outfit '"@
                    + self.id + "'"@,
            )
        } else {
            shared::first(
                self.size_fault(),
                shared::first(
                    self.class_fault(),
                    shared::first(self.copies_fault(), self.ownership_fault()),
                ),
            )
        }
    }

    /// The state after an [`AddCardToOutfit`], and the answer to it.
    pub open spec fn add_card(self, cmd: AddCardToOutfitView) -> (
        OutfitView,
        Reply<EventView>,
    ) {
        match self.add_card_fault(cmd) {
            Some(message) => (self, shared::violation(message)),
            None => {
                let event = EventView::CardAddedToOutfit(CardAddedToOutfitView {
                    outfit_id: cmd.outfit_id,
                    card_id: cmd.card_id,
                });
                (OutfitView { events: self.events.push(event), ..self }, Ok(seq![event]))
            },
        }
    }

    /// The message of the first rule that refuses a [`RemoveCardFromOutfit`], if one does.
    pub open spec fn remove_card_fault(
        self,
        cmd: RemoveCardFromOutfitView,
    ) -> Option<Seq<char>> {
        if text::is_blank_text(cmd.outfit_id) {
            Some("outfit '"@ + self.id + "' requires a valid outfitId to remove a card"@)
        } else if text::is_blank_text(cmd.card_id) {
            Some("outfit '"@ + self.id + "' requires a valid cardId to remove a card"@)
        } else if cmd.outfit_id != self.id {
            Some(
                "command targets outfit '"@ + cmd.outfit_id + "' but this aggregate is outfit '"@
                    + self.id + "'"@,
            )
        } else {
            shared::first(
                self.size_fault(),
                shared::first(
                    self.class_fault(),
                    shared::first(self.copies_fault(), self.ownership_fault()),
                ),
            )
        }
    }

    /// The state after a [`RemoveCardFromOutfit`], and the answer to it.
    pub open spec fn remove_card(self, cmd: RemoveCardFromOutfitView) -> (
        OutfitView,
        Reply<EventView>,
    ) {
        match self.remove_card_fault(cmd) {
            Some(message) => (self, shared::violation(message)),
            None => {
                let event = EventView::CardRemovedFromOutfit(CardRemovedFromOutfitView {
                    outfit_id: cmd.outfit_id,
                    card_id: cmd.card_id,
                });
                (OutfitView { events: self.events.push(event), ..self }, Ok(seq![event]))
            },
        }
    }

    /// The message of the first rule that refuses a [`ValidateOutfit`], if one does.
    pub open spec fn validate_fault(
        self,
        cmd: ValidateOutfitView,
    ) -> Option<Seq<char>> {
        if text::is_blank_text(cmd.outfit_id) {
            Some("outfit '"@ + self.id + "' requires a valid outfitId to validate"@)
        } else if cmd.outfit_id != self.id {
            Some(
                "command targets outfit '"@ + cmd.outfit_id + "' but this aggregate is outfit '"@
                    + self.id + "'"@,
            )
        } else {
            shared::first(
                self.size_fault(),
                shared::first(
                    self.class_fault(),
                    shared::first(self.copies_fault(), self.ownership_fault()),
                ),
            )
        }
    }

    /// The state after a [`ValidateOutfit`], and the answer to it.
    pub open spec fn validate(self, cmd: ValidateOutfitView) -> (
        OutfitView,
        Reply<EventView>,
    ) {
        match self.validate_fault(cmd) {
            Some(message) => (self, shared::violation(message)),
            None => {
                let event = EventView::OutfitValidated(OutfitValidatedView {
                    outfit_id: cmd.outfit_id,
                });
                (OutfitView { events: self.events.push(event), ..self }, Ok(seq![event]))
            },
        }
    }

    /// The state after a command, and the answer to it.
    pub open spec fn execute(self, command: CommandView<PayloadView<RequestView>>) -> (
        OutfitView,
        Reply<EventView>,
    ) {
        if command.name == AddCardToOutfit::COMMAND@ {
            match command.payload {
                PayloadView::Decoded(RequestView::AddCardToOutfit(cmd)) => self.add_card(cmd),
                PayloadView::Decoded(_) => (
                    self,
                    shared::malformed_reply(AddCardToOutfit::COMMAND@, OTHER_COMMAND@),
                ),
                PayloadView::Malformed(complaint) => (
                    self,
                    shared::malformed_reply(AddCardToOutfit::COMMAND@, complaint),
                ),
            }
        } else if command.name == RemoveCardFromOutfit::COMMAND@ {
            match command.payload {
                PayloadView::Decoded(RequestView::RemoveCardFromOutfit(cmd)) => {
                    self.remove_card(cmd)
                },
                PayloadView::Decoded(_) => (
                    self,
                    shared::malformed_reply(RemoveCardFromOutfit::COMMAND@, OTHER_COMMAND@),
                ),
                PayloadView::Malformed(complaint) => (
                    self,
                    shared::malformed_reply(RemoveCardFromOutfit::COMMAND@, complaint),
                ),
            }
        } else if command.name == ValidateOutfit::COMMAND@ {
            match command.payload {
                PayloadView::Decoded(RequestView::ValidateOutfit(cmd)) => self.validate(cmd),
                PayloadView::Decoded(_) => (
                    self,
                    shared::malformed_reply(ValidateOutfit::COMMAND@, OTHER_COMMAND@),
                ),
                PayloadView::Malformed(complaint) => (
                    self,
                    shared::malformed_reply(ValidateOutfit::COMMAND@, complaint),
                ),
            }
        } else {
            (self, shared::unknown(AGGREGATE_TYPE@, command.name))
        }
    }
}

impl Outfit {
    /// The name of the aggregate type.
    pub fn aggregate_type() -> (r: &'static str)
        ensures
            r@ == AGGREGATE_TYPE@,
    {
        AGGREGATE_TYPE
    }

    /// Creates a legal Outfit identified by `id` and owned by the same player id:
    /// it holds exactly [`LEGAL_OUTFIT_SIZE`] cards, all of its own class or
    /// Neutral, all within copy caps, and all owned.
    pub fn new(id: &str) -> (r: Self)
        ensures
            r@ == (OutfitView {
                id: id@,
                events: Seq::empty(),
                player_id: id@,
                card_count: LEGAL_OUTFIT_SIZE,
                only_own_class_or_neutral: true,
                within_copy_limits: true,
                all_cards_owned: true,
            }),
    {
        Outfit {
            id: id.to_owned(),
            root: AggregateRoot::new(),
            player_id: id.to_owned(),
            card_count: LEGAL_OUTFIT_SIZE,
            only_own_class_or_neutral: true,
            within_copy_limits: true,
            all_cards_owned: true,
        }
    }

    /// This aggregate's identity.
    pub fn id(&self) -> (r: &str)
        ensures
            r@ == self@.id,
    {
        self.id.as_str()
    }

    /// The version: the number of events recorded.
    pub fn version(&self) -> (r: u64)
        ensures
            r == self@.events.len(),
    {
        self.root.version()
    }

    /// The events recorded and not yet persisted.
    pub fn uncommitted_events(&self) -> (r: &[Event])
        ensures
            shared::views(r@) == self@.events,
    {
        self.root.uncommitted_events()
    }

    /// Legal-size invariant: an Outfit contains exactly 30 cards to be legal for
    /// saving/play.
    fn ensure_exactly_thirty(&self) -> (r: Result<(), DomainError>)
        ensures
            shared::broken(r) == shared::owed(self@.size_fault()),
    {
        if self.card_count != LEGAL_OUTFIT_SIZE {
            return shared::refuse(
                text::cat7(
                    "outfit '", &self.id, "' holds ", &text::show_signed(self.card_count),
                    " cards; an Outfit contains exactly ", &text::show_signed(LEGAL_OUTFIT_SIZE),
                    " cards to be legal for saving/play",
                ),
            );
        }
        Ok(())
    }

    /// Class invariant: an Outfit may include only cards of its own class plus
    /// Neutral cards.
    fn ensure_only_own_class_or_neutral(&self) -> (r: Result<(), DomainError>)
        ensures
            shared::broken(r) == shared::owed(self@.class_fault()),
    {
        if !self.only_own_class_or_neutral {
            return shared::refuse(
                text::cat3(
                    "outfit '", &self.id,
                    "' includes a card outside its own class; an Outfit may include only cards of its own class plus Neutral cards",
                ),
            );
        }
        Ok(())
    }

    /// Copy-cap invariant: at most 2 copies of any card (1 copy for a Legendary)
    /// may be included.
    fn ensure_within_copy_limits(&self) -> (r: Result<(), DomainError>)
        ensures
            shared::broken(r) == shared::owed(self@.copies_fault()),
    {
        if !self.within_copy_limits {
            return shared::refuse(
                text::cat3(
                    "outfit '", &self.id,
                    "' exceeds a card's copy cap; at most 2 copies of any card (1 copy for a Legendary) may be included",
                ),
            );
        }
        Ok(())
    }

    /// Ownership invariant: every card in the Outfit must be owned in the player's
    /// collection at validation time.
    fn ensure_all_cards_owned(&self) -> (r: Result<(), DomainError>)
        ensures
            shared::broken(r) == shared::owed(self@.ownership_fault()),
    {
        if !self.all_cards_owned {
            return shared::refuse(
                text::cat5(
                    "outfit '", &self.id, "' references a card not owned by player '",
                    &self.player_id,
                    "'; every card in the Outfit must be owned in the player's collection at validation time",
                ),
            );
        }
        Ok(())
    }

    /// Handles an addition: the command must carry this Outfit and a card, and the
    /// four invariants must hold.
    fn add_card(&mut self, cmd: AddCardToOutfit) -> (r: Result<
        Vec<Event>,
        DomainError,
    >)
        ensures
            final(self)@ == old(self)@.add_card(cmd@).0,
            shared::reply(r) == old(self)@.add_card(cmd@).1,
    {
        if text::is_blank(&cmd.outfit_id) {
            return shared::refuse(
                text::cat3(
                    "outfit '", &self.id, "' requires a valid outfitId to add a card",
                ),
            );
        }
        if text::is_blank(&cmd.card_id) {
            return shared::refuse(
                text::cat3(
                    "outfit '", &self.id, "' requires a valid cardId to add a card",
                ),
            );
        }
        if !text::same(&cmd.outfit_id, &self.id) {
            return shared::refuse(
                text::cat5(
                    "command targets outfit '", &cmd.outfit_id, "' but this aggregate is outfit '",
                    &self.id, "'",
                ),
            );
        }
        if let Err(error) = self.ensure_exactly_thirty() {
            return Err(error);
        }
        if let Err(error) = self.ensure_only_own_class_or_neutral() {
            return Err(error);
        }
        if let Err(error) = self.ensure_within_copy_limits() {
            return Err(error);
        }
        if let Err(error) = self.ensure_all_cards_owned() {
            return Err(error);
        }
        let event = Event::CardAddedToOutfit(
            CardAddedToOutfit {
                outfit_id: cmd.outfit_id,
                card_id: cmd.card_id,
            },
        );
        self.root.record(event.clone());
        Ok(shared::only(event))
    }

    /// Handles a removal: the command must carry this Outfit and a card, and the
    /// four invariants must hold.
    fn remove_card(&mut self, cmd: RemoveCardFromOutfit) -> (r: Result<
        Vec<Event>,
        DomainError,
    >)
        ensures
            final(self)@ == old(self)@.remove_card(cmd@).0,
            shared::reply(r) == old(self)@.remove_card(cmd@).1,
    {
        if text::is_blank(&cmd.outfit_id) {
            return shared::refuse(
                text::cat3(
                    "outfit '", &self.id, "' requires a valid outfitId to remove a card",
                ),
            );
        }
        if text::is_blank(&cmd.card_id) {
            return shared::refuse(
                text::cat3(
                    "outfit '", &self.id, "' requires a valid cardId to remove a card",
                ),
            );
        }
        if !text::same(&cmd.outfit_id, &self.id) {
            return shared::refuse(
                text::cat5(
                    "command targets outfit '", &cmd.outfit_id, "' but this aggregate is outfit '",
                    &self.id, "'",
                ),
            );
        }
        if let Err(error) = self.ensure_exactly_thirty() {
            return Err(error);
        }
        if let Err(error) = self.ensure_only_own_class_or_neutral() {
            return Err(error);
        }
        if let Err(error) = self.ensure_within_copy_limits() {
            return Err(error);
        }
        if let Err(error) = self.ensure_all_cards_owned() {
            return Err(error);
        }
        let event = Event::CardRemovedFromOutfit(
            CardRemovedFromOutfit {
                outfit_id: cmd.outfit_id,
                card_id: cmd.card_id,
            },
        );
        self.root.record(event.clone());
        Ok(shared::only(event))
    }

    /// Handles a validation: the command must carry this Outfit, and the four
    /// invariants must hold. The deck stays as it is; the event certifies that it
    /// is legal.
    fn validate(&mut self, cmd: ValidateOutfit) -> (r: Result<
        Vec<Event>,
        DomainError,
    >)
        ensures
            final(self)@ == old(self)@.validate(cmd@).0,
            shared::reply(r) == old(self)@.validate(cmd@).1,
    {
        if text::is_blank(&cmd.outfit_id) {
            return shared::refuse(
                text::cat3(
                    "outfit '", &self.id, "' requires a valid outfitId to validate",
                ),
            );
        }
        if !text::same(&cmd.outfit_id, &self.id) {
            return shared::refuse(
                text::cat5(
                    "command targets outfit '", &cmd.outfit_id, "' but this aggregate is outfit '",
                    &self.id, "'",
                ),
            );
        }
        if let Err(error) = self.ensure_exactly_thirty() {
            return Err(error);
        }
        if let Err(error) = self.ensure_only_own_class_or_neutral() {
            return Err(error);
        }
        if let Err(error) = self.ensure_within_copy_limits() {
            return Err(error);
        }
        if let Err(error) = self.ensure_all_cards_owned() {
            return Err(error);
        }
        let event = Event::OutfitValidated(
            OutfitValidated {
                outfit_id: cmd.outfit_id,
            },
        );
        self.root.record(event.clone());
        Ok(shared::only(event))
    }

    /// Carries out a command, or says why it is refused.
    pub fn execute(&mut self, command: Command<Payload<Request>>) -> (r: Result<
        Vec<Event>,
        DomainError,
    >)
        ensures
            final(self)@ == old(self)@.execute(command@).0,
            shared::reply(r) == old(self)@.execute(command@).1,
    {
        if text::same(&command.name, AddCardToOutfit::COMMAND) {
            match command.payload {
                Payload::Decoded(Request::AddCardToOutfit(cmd)) => self.add_card(cmd),
                Payload::Decoded(_) => shared::malformed(AddCardToOutfit::COMMAND, OTHER_COMMAND),
                Payload::Malformed(complaint) => {
                    shared::malformed(AddCardToOutfit::COMMAND, &complaint)
                },
            }
        } else if text::same(&command.name, RemoveCardFromOutfit::COMMAND) {
            match command.payload {
                Payload::Decoded(Request::RemoveCardFromOutfit(cmd)) => self.remove_card(cmd),
                Payload::Decoded(_) => {
                    shared::malformed(RemoveCardFromOutfit::COMMAND, OTHER_COMMAND)
                },
                Payload::Malformed(complaint) => {
                    shared::malformed(RemoveCardFromOutfit::COMMAND, &complaint)
                },
            }
        } else if text::same(&command.name, ValidateOutfit::COMMAND) {
            match command.payload {
                Payload::Decoded(Request::ValidateOutfit(cmd)) => self.validate(cmd),
                Payload::Decoded(_) => shared::malformed(ValidateOutfit::COMMAND, OTHER_COMMAND),
                Payload::Malformed(complaint) => {
                    shared::malformed(ValidateOutfit::COMMAND, &complaint)
                },
            }
        } else {
            Err(DomainError::unknown_command(AGGREGATE_TYPE, command.name))
        }
    }

    /// The player who owns this Outfit.
    pub fn player_id(&self) -> (r: &str)
        ensures
            r@ == self@.player_id,
    {
        self.player_id.as_str()
    }

    /// The number of cards currently in the deck.
    pub fn card_count(&self) -> (r: i64)
        ensures
            r == self@.card_count,
    {
        self.card_count
    }

    /// Sets the owning player id.
    pub fn set_player_id(&mut self, player_id: &str)
        ensures
            final(self)@ == (OutfitView {
                player_id: player_id@,
                ..old(self)@
            }),
    {
        self.player_id = player_id.to_owned();
    }

    /// Sets the number of cards in the deck.
    pub fn set_card_count(&mut self, card_count: i64)
        ensures
            final(self)@ == (OutfitView {
                card_count: card_count,
                ..old(self)@
            }),
    {
        self.card_count = card_count;
    }

    /// Records whether every card is of the Outfit's own class or Neutral.
    pub fn set_only_own_class_or_neutral(&mut self, ok: bool)
        ensures
            final(self)@ == (OutfitView {
                only_own_class_or_neutral: ok,
                ..old(self)@
            }),
    {
        self.only_own_class_or_neutral = ok;
    }

    /// Records whether every card respects its copy cap.
    pub fn set_within_copy_limits(&mut self, ok: bool)
        ensures
            final(self)@ == (OutfitView {
                within_copy_limits: ok,
                ..old(self)@
            }),
    {
        self.within_copy_limits = ok;
    }

    /// Records whether every card in the deck is owned in the player's collection.
    pub fn set_all_cards_owned(&mut self, ok: bool)
        ensures
            final(self)@ == (OutfitView {
                all_cards_owned: ok,
                ..old(self)@
            }),
    {
        self.all_cards_owned = ok;
    }
}

/// The repository port of the [`Outfit`] aggregate: an adapter implements
/// [`Repository`] for it and then this marker.
pub trait OutfitRepository: Repository<Outfit> {

}

impl OutfitView {
    /// A refused command changes nothing: neither the state nor the events.
    pub proof fn law_refusal_changes_nothing(
        self,
        command: CommandView<PayloadView<RequestView>>,
    )
        ensures
            self.execute(command).1 is Err ==> self.execute(command).0 == self,
    {
    }

    /// An accepted command records exactly the events it answers with, behind
    /// those recorded before.
    pub proof fn law_events_are_recorded(self, command: CommandView<PayloadView<RequestView>>)
        ensures
            self.execute(command).1 matches Ok(events) ==> {
                &&& events.len() == 1
                &&& self.execute(command).0.events == self.events + events
            },
    {
        if let Ok(events) = self.execute(command).1 {
            assert(self.execute(command).0.events =~= self.events + events);
        }
    }

    /// Whether the deck is legal for saving and play.
    pub open spec fn is_legal(self) -> bool {
        &&& self.card_count == LEGAL_OUTFIT_SIZE
        &&& self.only_own_class_or_neutral
        &&& self.within_copy_limits
        &&& self.all_cards_owned
    }

    /// A card is added exactly where the command names the Outfit and a card, and
    /// the deck is legal.
    pub proof fn law_addition_is_owed(self, cmd: AddCardToOutfitView)
        ensures
            self.add_card(cmd).1 is Ok <==> {
                &&& cmd.outfit_id == self.id
                &&& !text::is_blank_text(cmd.outfit_id)
                &&& !text::is_blank_text(cmd.card_id)
                &&& self.is_legal()
            },
    {
    }

    /// A card is removed exactly where the command names the Outfit and a card, and
    /// the deck is legal.
    pub proof fn law_removal_is_owed(self, cmd: RemoveCardFromOutfitView)
        ensures
            self.remove_card(cmd).1 is Ok <==> {
                &&& cmd.outfit_id == self.id
                &&& !text::is_blank_text(cmd.outfit_id)
                &&& !text::is_blank_text(cmd.card_id)
                &&& self.is_legal()
            },
    {
    }

    /// The deck is certified exactly where the command names the Outfit, and the
    /// deck is legal.
    pub proof fn law_validation_is_owed(self, cmd: ValidateOutfitView)
        ensures
            self.validate(cmd).1 is Ok <==> {
                &&& cmd.outfit_id == self.id
                &&& !text::is_blank_text(cmd.outfit_id)
                &&& self.is_legal()
            },
    {
    }

    /// No command changes the deck: only the events grow.
    pub proof fn law_deck_is_kept(self, command: CommandView<PayloadView<RequestView>>)
        ensures
            self.execute(command).0 == (OutfitView {
                events: self.execute(command).0.events,
                ..self
            }),
    {
    }
}

impl OutfitView {
    /// Every command goes to its own handler, a payload that does not read is
    /// refused with the complaint about it, and a name that is none of these is
    /// unknown; what is refused otherwise is refused for a broken rule.
    pub proof fn law_commands_are_routed(self, command: CommandView<PayloadView<RequestView>>)
        ensures
            command.name == "AddCardToOutfitCmd"@ ==> match command.payload {
                PayloadView::Decoded(RequestView::AddCardToOutfit(cmd)) => self.execute(command)
                    == self.add_card(cmd),
                PayloadView::Decoded(_) => self.execute(command).1 is Err,
                PayloadView::Malformed(complaint) => self.execute(command).1 == shared::violation::<
                    EventView,
                >("malformed "@ + "AddCardToOutfitCmd"@ + " payload: "@ + complaint),
            },
            command.name == "RemoveCardFromOutfitCmd"@ ==> match command.payload {
                PayloadView::Decoded(RequestView::RemoveCardFromOutfit(cmd)) =>
                    self.execute(command)
                    == self.remove_card(cmd),
                PayloadView::Decoded(_) => self.execute(command).1 is Err,
                PayloadView::Malformed(complaint) => self.execute(command).1 == shared::violation::<
                    EventView,
                >("malformed "@ + "RemoveCardFromOutfitCmd"@ + " payload: "@ + complaint),
            },
            command.name == "ValidateOutfitCmd"@ ==> match command.payload {
                PayloadView::Decoded(RequestView::ValidateOutfit(cmd)) => self.execute(command)
                    == self.validate(cmd),
                PayloadView::Decoded(_) => self.execute(command).1 is Err,
                PayloadView::Malformed(complaint) => self.execute(command).1 == shared::violation::<
                    EventView,
                >("malformed "@ + "ValidateOutfitCmd"@ + " payload: "@ + complaint),
            },
            ({
                &&& command.name != "AddCardToOutfitCmd"@
                &&& command.name != "RemoveCardFromOutfitCmd"@
                &&& command.name != "ValidateOutfitCmd"@
            }) ==> self.execute(command).1 == Err::<
                Seq<EventView>,
                shared::DomainErrorView,
            >(
                shared::DomainErrorView::UnknownCommand {
                    aggregate: "Outfit"@,
                    command: command.name,
                },
            ),
            self.execute(command).1 matches Err(error) ==> (error is InvariantViolation <==> {
                ||| command.name == "AddCardToOutfitCmd"@
                ||| command.name == "RemoveCardFromOutfitCmd"@
                ||| command.name == "ValidateOutfitCmd"@
            }),
    {
        reveal_strlit("AddCardToOutfitCmd");
        reveal_strlit("RemoveCardFromOutfitCmd");
        reveal_strlit("ValidateOutfitCmd");
        assert("AddCardToOutfitCmd"@.len() == 18);
        assert("RemoveCardFromOutfitCmd"@.len() == 23);
        assert("ValidateOutfitCmd"@.len() == 17);
    }

    /// An addition records the outfit and the card that were submitted; nothing
    /// else changes.
    pub proof fn law_addition_records_the_card(self, cmd: AddCardToOutfitView)
        requires
            self.add_card(cmd).1 is Ok,
        ensures
            ({
                let after = self.add_card(cmd).0;
                &&& self.add_card(cmd).1 matches Ok(events)
                &&& events.len() == 1
                &&& events[0].event_type() == "card.added.to.outfit"@
                &&& events[0] matches EventView::CardAddedToOutfit(said)
                &&& said.outfit_id == cmd.outfit_id
                &&& said.card_id == cmd.card_id
                &&& after == (OutfitView {
                    events: self.events.push(events[0]),
                    ..self
                })
            }),
    {
    }

    /// A removal records the outfit and the card that were submitted; nothing else
    /// changes.
    pub proof fn law_removal_records_the_card(self, cmd: RemoveCardFromOutfitView)
        requires
            self.remove_card(cmd).1 is Ok,
        ensures
            ({
                let after = self.remove_card(cmd).0;
                &&& self.remove_card(cmd).1 matches Ok(events)
                &&& events.len() == 1
                &&& events[0].event_type() == "card.removed.from.outfit"@
                &&& events[0] matches EventView::CardRemovedFromOutfit(said)
                &&& said.outfit_id == cmd.outfit_id
                &&& said.card_id == cmd.card_id
                &&& after == (OutfitView {
                    events: self.events.push(events[0]),
                    ..self
                })
            }),
    {
    }

    /// A validation records the outfit that was named; nothing else changes.
    pub proof fn law_validation_records_the_outfit(self, cmd: ValidateOutfitView)
        requires
            self.validate(cmd).1 is Ok,
        ensures
            ({
                let after = self.validate(cmd).0;
                &&& self.validate(cmd).1 matches Ok(events)
                &&& events.len() == 1
                &&& events[0].event_type() == "outfit.validated"@
                &&& events[0] matches EventView::OutfitValidated(said)
                &&& said.outfit_id == cmd.outfit_id
                &&& after == (OutfitView {
                    events: self.events.push(events[0]),
                    ..self
                })
            }),
    {
    }
}

impl AddCardToOutfit {
    /// The view leaves nothing out: where two views agree, so does every field.
    pub proof fn law_view_leaves_nothing_out(self, other: AddCardToOutfit)
        requires
            self@ == other@,
        ensures
            self.outfit_id@ == other.outfit_id@,
            self.card_id@ == other.card_id@,
    {
    }
}

impl RemoveCardFromOutfit {
    /// The view leaves nothing out: where two views agree, so does every field.
    pub proof fn law_view_leaves_nothing_out(self, other: RemoveCardFromOutfit)
        requires
            self@ == other@,
        ensures
            self.outfit_id@ == other.outfit_id@,
            self.card_id@ == other.card_id@,
    {
    }
}

impl ValidateOutfit {
    /// The view leaves nothing out: where two views agree, so does every field.
    pub proof fn law_view_leaves_nothing_out(self, other: ValidateOutfit)
        requires
            self@ == other@,
        ensures
            self.outfit_id@ == other.outfit_id@,
    {
    }
}

impl CardAddedToOutfit {
    /// The view leaves nothing out: where two views agree, so does every field.
    pub proof fn law_view_leaves_nothing_out(self, other: CardAddedToOutfit)
        requires
            self@ == other@,
        ensures
            self.outfit_id@ == other.outfit_id@,
            self.card_id@ == other.card_id@,
    {
    }
}

impl CardRemovedFromOutfit {
    /// The view leaves nothing out: where two views agree, so does every field.
    pub proof fn law_view_leaves_nothing_out(self, other: CardRemovedFromOutfit)
        requires
            self@ == other@,
        ensures
            self.outfit_id@ == other.outfit_id@,
            self.card_id@ == other.card_id@,
    {
    }
}

impl OutfitValidated {
    /// The view leaves nothing out: where two views agree, so does every field.
    pub proof fn law_view_leaves_nothing_out(self, other: OutfitValidated)
        requires
            self@ == other@,
        ensures
            self.outfit_id@ == other.outfit_id@,
    {
    }
}

impl Event {
    /// The view leaves nothing out: where two views agree, so do the variants and
    /// what they carry.
    pub proof fn law_view_leaves_nothing_out(self, other: Event)
        requires
            self@ == other@,
        ensures
            match (self, other) {
                (Event::CardAddedToOutfit(a), Event::CardAddedToOutfit(b)) => a@ == b@,
                (Event::CardRemovedFromOutfit(a), Event::CardRemovedFromOutfit(b)) => a@ == b@,
                (Event::OutfitValidated(a), Event::OutfitValidated(b)) => a@ == b@,
                _ => false,
            },
    {
    }
}

impl Request {
    /// The view leaves nothing out: where two views agree, so do the variants and
    /// what they carry.
    pub proof fn law_view_leaves_nothing_out(self, other: Request)
        requires
            self@ == other@,
        ensures
            match (self, other) {
                (Request::AddCardToOutfit(a), Request::AddCardToOutfit(b)) => a@ == b@,
                (Request::RemoveCardFromOutfit(a), Request::RemoveCardFromOutfit(b)) => a@ == b@,
                (Request::ValidateOutfit(a), Request::ValidateOutfit(b)) => a@ == b@,
                _ => false,
            },
    {
    }
}

} // verus!
