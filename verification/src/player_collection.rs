//! A player's owned cards and the cosmetic skins equipped onto them.
//!
//! A [`PlayerCollection`] is the set of cards a single player owns, together with
//! the cosmetic skins the player has equipped onto those cards. Four invariants
//! govern it:
//!
//! 1. **Server-authoritative equips** — cosmetic equips are resolved server-side
//!    and are *never trusted from the client*.
//! 2. **Owned base card** — a cosmetic skin may only be equipped onto a base card
//!    the player actually owns.
//! 3. **Non-negative quantities** — owned card quantities are always
//!    non-negative.
//! 4. **Present for inclusion (qty ≥ 1)** — a base card at quantity zero cannot
//!    carry a cosmetic.
use crate::shared;
use crate::shared::AggregateRoot;
use crate::shared::Command;
use crate::shared::CommandView;
use crate::shared::DomainError;
use crate::shared::Payload;
use crate::shared::PayloadView;
use crate::shared::Reply;
use crate::shared::Repository;
use crate::shared::OTHER_COMMAND;
use crate::text;
use vstd::prelude::*;

verus! {

/// The name of the aggregate type, as errors show it.
pub const AGGREGATE_TYPE: &'static str = "PlayerCollection";

/// The `EquipCosmeticCmd` payload: which player equips which cosmetic skin onto
/// which owned base card. Field names use the collection service's `camelCase`
/// schema.
#[derive(Debug, PartialEq, Eq)]
pub struct EquipCosmetic {
    /// Identity of the player equipping the skin; must name the player this
    /// collection belongs to, and must be non-empty.
    pub player_id: String,
    /// The owned base card the cosmetic skin is equipped onto; must be non-empty.
    pub base_card_id: String,
    /// Reference to the cosmetic skin being equipped; must be non-empty.
    pub cosmetic_skin_ref: String,
}

/// What an [`EquipCosmetic`] says.
#[verifier::ext_equal]
pub struct EquipCosmeticView {
    pub player_id: Seq<char>,
    pub base_card_id: Seq<char>,
    pub cosmetic_skin_ref: Seq<char>,
}

impl View for EquipCosmetic {
    type V = EquipCosmeticView;

    open spec fn view(&self) -> EquipCosmeticView {
        EquipCosmeticView {
            player_id: self.player_id@,
            base_card_id: self.base_card_id@,
            cosmetic_skin_ref: self.cosmetic_skin_ref@,
        }
    }
}

impl Clone for EquipCosmetic {
    fn clone(&self) -> (r: Self)
        ensures
            r@ == self@,
    {
        EquipCosmetic {
            player_id: self.player_id.clone(),
            base_card_id: self.base_card_id.clone(),
            cosmetic_skin_ref: self.cosmetic_skin_ref.clone(),
        }
    }
}

impl EquipCosmetic {
    /// The name of the command.
    pub const COMMAND: &'static str = "EquipCosmeticCmd";

    /// Builds a command equipping `cosmetic_skin_ref` onto `base_card_id` for
    /// `player_id`.
    pub fn new(player_id: &str, base_card_id: &str, cosmetic_skin_ref: &str) -> (r: Self)
        ensures
            r@ == (EquipCosmeticView {
                player_id: player_id@,
                base_card_id: base_card_id@,
                cosmetic_skin_ref: cosmetic_skin_ref@,
            }),
    {
        EquipCosmetic {
            player_id: player_id.to_owned(),
            base_card_id: base_card_id.to_owned(),
            cosmetic_skin_ref: cosmetic_skin_ref.to_owned(),
        }
    }

    /// This request as a command, ready to be executed.
    pub fn into_command(&self) -> (r: Command<Payload<Request>>)
        ensures
            r@ == (CommandView {
                name: Self::COMMAND@,
                payload: PayloadView::Decoded(RequestView::EquipCosmetic(self@)),
            }),
    {
        let request = Request::EquipCosmetic(self.clone());
        Command::with_payload(Self::COMMAND, Payload::Decoded(request))
    }
}

/// The `UnequipCosmeticCmd` payload: which player removes the equipped cosmetic
/// skin from which owned base card. Field names use the collection service's
/// `camelCase` schema.
///
/// Unlike [`EquipCosmetic`] there is no `cosmeticSkinRef`: unequipping clears
/// whatever cosmetic the base card currently carries, so only the owning player
/// and the target base card need to be named.
#[derive(Debug, PartialEq, Eq)]
pub struct UnequipCosmetic {
    /// Identity of the player removing the skin; must name the player this
    /// collection belongs to, and must be non-empty.
    pub player_id: String,
    /// The owned base card the cosmetic skin is removed from; must be non-empty.
    pub base_card_id: String,
}

/// What an [`UnequipCosmetic`] says.
#[verifier::ext_equal]
pub struct UnequipCosmeticView {
    pub player_id: Seq<char>,
    pub base_card_id: Seq<char>,
}

impl View for UnequipCosmetic {
    type V = UnequipCosmeticView;

    open spec fn view(&self) -> UnequipCosmeticView {
        UnequipCosmeticView {
            player_id: self.player_id@,
            base_card_id: self.base_card_id@,
        }
    }
}

impl Clone for UnequipCosmetic {
    fn clone(&self) -> (r: Self)
        ensures
            r@ == self@,
    {
        UnequipCosmetic {
            player_id: self.player_id.clone(),
            base_card_id: self.base_card_id.clone(),
        }
    }
}

impl UnequipCosmetic {
    /// The name of the command.
    pub const COMMAND: &'static str = "UnequipCosmeticCmd";

    /// Builds a command removing the equipped cosmetic from `base_card_id` for
    /// `player_id`.
    pub fn new(player_id: &str, base_card_id: &str) -> (r: Self)
        ensures
            r@ == (UnequipCosmeticView {
                player_id: player_id@,
                base_card_id: base_card_id@,
            }),
    {
        UnequipCosmetic {
            player_id: player_id.to_owned(),
            base_card_id: base_card_id.to_owned(),
        }
    }

    /// This request as a command, ready to be executed.
    pub fn into_command(&self) -> (r: Command<Payload<Request>>)
        ensures
            r@ == (CommandView {
                name: Self::COMMAND@,
                payload: PayloadView::Decoded(RequestView::UnequipCosmetic(self@)),
            }),
    {
        let request = Request::UnequipCosmetic(self.clone());
        Command::with_payload(Self::COMMAND, Payload::Decoded(request))
    }
}

/// A single line item in a [`GrantCards`] command: how many copies of one card
/// are being added to the collection. Field names use the collection service's
/// `camelCase` schema.
///
/// The quantity is an `i64` rather than an unsigned type for the same reason
/// the aggregate's owned quantity is: so a *negative* granted quantity is
/// representable and the "owned card quantities are always non-negative"
/// invariant can be exercised rather than made vacuous by the type system.
#[derive(Debug, PartialEq, Eq)]
pub struct CardGrant {
    /// The card being granted; must be non-empty.
    pub card_id: String,
    /// How many copies are granted; must be non-negative.
    pub quantity: i64,
}

/// What a [`CardGrant`] says.
#[verifier::ext_equal]
pub struct CardGrantView {
    pub card_id: Seq<char>,
    pub quantity: i64,
}

impl View for CardGrant {
    type V = CardGrantView;

    open spec fn view(&self) -> CardGrantView {
        CardGrantView {
            card_id: self.card_id@,
            quantity: self.quantity,
        }
    }
}

impl Clone for CardGrant {
    fn clone(&self) -> (r: Self)
        ensures
            r@ == self@,
    {
        CardGrant {
            card_id: self.card_id.clone(),
            quantity: self.quantity,
        }
    }
}

impl CardGrant {
    /// Builds a grant of `quantity` copies of `card_id`.
    pub fn new(card_id: &str, quantity: i64) -> (r: Self)
        ensures
            r@ == (CardGrantView {
                card_id: card_id@,
                quantity: quantity,
            }),
    {
        CardGrant {
            card_id: card_id.to_owned(),
            quantity: quantity,
        }
    }
}

/// Copies a list of grants.
fn copy_grants(grants: &Vec<CardGrant>) -> (r: Vec<CardGrant>)
    ensures
        shared::views(r@) == shared::views(grants@),
{
    let mut r: Vec<CardGrant> = Vec::new();
    let mut i: usize = 0;
    while i < grants.len()
        invariant
            i <= grants@.len(),
            r@.len() == i,
            forall|k: int| 0 <= k < i ==> #[trigger] r@[k]@ == grants@[k]@,
        decreases grants@.len() - i,
    {
        r.push(grants[i].clone());
        i += 1;
    }
    assert(shared::views(r@) =~= shared::views(grants@));
    r
}

/// The `GrantCardsCmd` payload: which player receives which cards, and the
/// source the grant was resolved from (a pack opening, a reward, or a
/// fulfillment). Field names use the collection service's `camelCase` schema.
#[derive(Debug, PartialEq, Eq)]
pub struct GrantCards {
    /// Identity of the player receiving the cards; must name the player this
    /// collection belongs to, and must be non-empty.
    pub player_id: String,
    /// The cards being added to the collection; must be non-empty, and every grant
    /// must carry a non-empty card id and a non-negative quantity.
    pub card_grants: Vec<CardGrant>,
    /// Where the grant came from (e.g. `"pack"`, `"reward"`, `"fulfillment"`); must
    /// be non-empty.
    pub source: String,
}

/// What a [`GrantCards`] says.
#[verifier::ext_equal]
pub struct GrantCardsView {
    pub player_id: Seq<char>,
    pub card_grants: Seq<CardGrantView>,
    pub source: Seq<char>,
}

impl View for GrantCards {
    type V = GrantCardsView;

    open spec fn view(&self) -> GrantCardsView {
        GrantCardsView {
            player_id: self.player_id@,
            card_grants: shared::views(self.card_grants@),
            source: self.source@,
        }
    }
}

impl Clone for GrantCards {
    fn clone(&self) -> (r: Self)
        ensures
            r@ == self@,
    {
        GrantCards {
            player_id: self.player_id.clone(),
            card_grants: copy_grants(&self.card_grants),
            source: self.source.clone(),
        }
    }
}

impl GrantCards {
    /// The name of the command.
    pub const COMMAND: &'static str = "GrantCardsCmd";

    /// Builds a command granting `card_grants` to `player_id` from `source`.
    pub fn new(player_id: &str, card_grants: Vec<CardGrant>, source: &str) -> (r: Self)
        ensures
            r@ == (GrantCardsView {
                player_id: player_id@,
                card_grants: shared::views(card_grants@),
                source: source@,
            }),
    {
        GrantCards {
            player_id: player_id.to_owned(),
            card_grants: card_grants,
            source: source.to_owned(),
        }
    }

    /// This request as a command, ready to be executed.
    pub fn into_command(&self) -> (r: Command<Payload<Request>>)
        ensures
            r@ == (CommandView {
                name: Self::COMMAND@,
                payload: PayloadView::Decoded(RequestView::GrantCards(self@)),
            }),
    {
        let request = Request::GrantCards(self.clone());
        Command::with_payload(Self::COMMAND, Payload::Decoded(request))
    }
}

/// The cosmetic that was equipped, carried by [`Event::CosmeticEquipped`] and
/// thus by the emitted `cosmetic.equipped` event.
#[derive(Debug, PartialEq, Eq)]
pub struct CosmeticEquipped {
    /// The player who equipped the skin.
    pub player_id: String,
    /// The owned base card the skin was equipped onto.
    pub base_card_id: String,
    /// Reference to the cosmetic skin that was equipped.
    pub cosmetic_skin_ref: String,
}

/// What a [`CosmeticEquipped`] says.
#[verifier::ext_equal]
pub struct CosmeticEquippedView {
    pub player_id: Seq<char>,
    pub base_card_id: Seq<char>,
    pub cosmetic_skin_ref: Seq<char>,
}

impl View for CosmeticEquipped {
    type V = CosmeticEquippedView;

    open spec fn view(&self) -> CosmeticEquippedView {
        CosmeticEquippedView {
            player_id: self.player_id@,
            base_card_id: self.base_card_id@,
            cosmetic_skin_ref: self.cosmetic_skin_ref@,
        }
    }
}

impl Clone for CosmeticEquipped {
    fn clone(&self) -> (r: Self)
        ensures
            r@ == self@,
    {
        CosmeticEquipped {
            player_id: self.player_id.clone(),
            base_card_id: self.base_card_id.clone(),
            cosmetic_skin_ref: self.cosmetic_skin_ref.clone(),
        }
    }
}

/// The cosmetic that was removed, carried by [`Event::CosmeticUnequipped`] and
/// thus by the emitted `cosmetic.unequipped` event.
#[derive(Debug, PartialEq, Eq)]
pub struct CosmeticUnequipped {
    /// The player who removed the skin.
    pub player_id: String,
    /// The owned base card the skin was removed from.
    pub base_card_id: String,
}

/// What a [`CosmeticUnequipped`] says.
#[verifier::ext_equal]
pub struct CosmeticUnequippedView {
    pub player_id: Seq<char>,
    pub base_card_id: Seq<char>,
}

impl View for CosmeticUnequipped {
    type V = CosmeticUnequippedView;

    open spec fn view(&self) -> CosmeticUnequippedView {
        CosmeticUnequippedView {
            player_id: self.player_id@,
            base_card_id: self.base_card_id@,
        }
    }
}

impl Clone for CosmeticUnequipped {
    fn clone(&self) -> (r: Self)
        ensures
            r@ == self@,
    {
        CosmeticUnequipped {
            player_id: self.player_id.clone(),
            base_card_id: self.base_card_id.clone(),
        }
    }
}

/// The cards that were granted, carried by [`Event::CardsGranted`] and thus by
/// the emitted `cards.granted` event.
#[derive(Debug, PartialEq, Eq)]
pub struct CardsGranted {
    /// The player who received the cards.
    pub player_id: String,
    /// The cards that were added to the collection.
    pub card_grants: Vec<CardGrant>,
    /// Where the grant came from (e.g. `"pack"`, `"reward"`, `"fulfillment"`).
    pub source: String,
}

/// What a [`CardsGranted`] says.
#[verifier::ext_equal]
pub struct CardsGrantedView {
    pub player_id: Seq<char>,
    pub card_grants: Seq<CardGrantView>,
    pub source: Seq<char>,
}

impl View for CardsGranted {
    type V = CardsGrantedView;

    open spec fn view(&self) -> CardsGrantedView {
        CardsGrantedView {
            player_id: self.player_id@,
            card_grants: shared::views(self.card_grants@),
            source: self.source@,
        }
    }
}

impl Clone for CardsGranted {
    fn clone(&self) -> (r: Self)
        ensures
            r@ == self@,
    {
        CardsGranted {
            player_id: self.player_id.clone(),
            card_grants: copy_grants(&self.card_grants),
            source: self.source.clone(),
        }
    }
}

/// Domain events emitted by [`PlayerCollection`].
#[derive(Debug, PartialEq, Eq)]
pub enum Event {
    /// A cosmetic skin was equipped onto an owned base card.
    CosmeticEquipped(CosmeticEquipped),
    /// The equipped cosmetic skin was removed from an owned base card.
    CosmeticUnequipped(CosmeticUnequipped),
    /// Cards were granted to the collection from a pack, reward, or fulfillment.
    CardsGranted(CardsGranted),
}

/// What an [`Event`] says.
#[verifier::ext_equal]
pub enum EventView {
    CosmeticEquipped(CosmeticEquippedView),
    CosmeticUnequipped(CosmeticUnequippedView),
    CardsGranted(CardsGrantedView),
}

impl View for Event {
    type V = EventView;

    open spec fn view(&self) -> EventView {
        match self {
            Event::CosmeticEquipped(body) => EventView::CosmeticEquipped(body@),
            Event::CosmeticUnequipped(body) => EventView::CosmeticUnequipped(body@),
            Event::CardsGranted(body) => EventView::CardsGranted(body@),
        }
    }
}

impl Clone for Event {
    fn clone(&self) -> (r: Self)
        ensures
            r@ == self@,
    {
        match self {
            Event::CosmeticEquipped(body) => Event::CosmeticEquipped(body.clone()),
            Event::CosmeticUnequipped(body) => Event::CosmeticUnequipped(body.clone()),
            Event::CardsGranted(body) => Event::CardsGranted(body.clone()),
        }
    }
}

impl EventView {
    /// The name under which the event is published.
    pub open spec fn event_type(self) -> Seq<char> {
        match self {
            EventView::CosmeticEquipped(_) => "cosmetic.equipped"@,
            EventView::CosmeticUnequipped(_) => "cosmetic.unequipped"@,
            EventView::CardsGranted(_) => "cards.granted"@,
        }
    }
}

impl Event {
    /// The name under which the event is published.
    pub fn event_type(&self) -> (r: &'static str)
        ensures
            r@ == self@.event_type(),
    {
        match self {
            Event::CosmeticEquipped(_) => "cosmetic.equipped",
            Event::CosmeticUnequipped(_) => "cosmetic.unequipped",
            Event::CardsGranted(_) => "cards.granted",
        }
    }
}

/// A command of this context, with its payload read.
pub enum Request {
    /// An [`EquipCosmetic`].
    EquipCosmetic(EquipCosmetic),
    /// An [`UnequipCosmetic`].
    UnequipCosmetic(UnequipCosmetic),
    /// A [`GrantCards`].
    GrantCards(GrantCards),
}

/// What a [`Request`] says.
#[verifier::ext_equal]
pub enum RequestView {
    EquipCosmetic(EquipCosmeticView),
    UnequipCosmetic(UnequipCosmeticView),
    GrantCards(GrantCardsView),
}

impl View for Request {
    type V = RequestView;

    open spec fn view(&self) -> RequestView {
        match self {
            Request::EquipCosmetic(body) => RequestView::EquipCosmetic(body@),
            Request::UnequipCosmetic(body) => RequestView::UnequipCosmetic(body@),
            Request::GrantCards(body) => RequestView::GrantCards(body@),
        }
    }
}

/// The PlayerCollection aggregate: one player's owned cards and equipped skins.
///
/// A fresh collection from [`PlayerCollection::new`] is equip-ready: the equip
/// is server-resolved, the targeted base card is in the collection, and it is
/// owned at quantity one. The configuration methods below drive it to a state a
/// command rejects, exactly as [`Outfit`](crate::outfit) is built up before a
/// command validates it.
///
/// The owned quantity is deliberately an `i64` rather than an unsigned type so
/// a *negative* quantity is representable — that is the only way the
/// "quantities are always non-negative" invariant can be exercised rather than
/// made vacuous by the type system.
#[derive(Debug)]
pub struct PlayerCollection {
    id: String,
    root: AggregateRoot<Event>,
    /// The player who owns this collection; an equip must name this player.
    player_id: String,
    /// Whether the base card an equip targets is present in the collection at all
    /// (an entry exists for it). The player must own the base card being skinned.
    base_card_in_collection: bool,
    /// The owned quantity of the base card an equip targets. Must be non-negative,
    /// and ≥ 1 for the card to carry a cosmetic.
    base_card_quantity: i64,
    /// Whether the equip was resolved by the authoritative server. Client- asserted
    /// equips are never trusted.
    server_resolved: bool,
}

/// What a [`PlayerCollection`] says.
#[verifier::ext_equal]
pub struct PlayerCollectionView {
    pub id: Seq<char>,
    pub events: Seq<EventView>,
    pub player_id: Seq<char>,
    pub base_card_in_collection: bool,
    pub base_card_quantity: i64,
    pub server_resolved: bool,
}

impl View for PlayerCollection {
    type V = PlayerCollectionView;

    closed spec fn view(&self) -> PlayerCollectionView {
        PlayerCollectionView {
            id: self.id@,
            events: self.root@,
            player_id: self.player_id@,
            base_card_in_collection: self.base_card_in_collection,
            base_card_quantity: self.base_card_quantity,
            server_resolved: self.server_resolved,
        }
    }
}

impl PlayerCollectionView {
    /// The message where the client asserted the equip.
    pub open spec fn resolution_fault(self) -> Option<Seq<char>> {
        if !self.server_resolved {
            Some(
                "collection '"@ + self.id
                    + "' received a client-asserted cosmetic equip; equips are resolved server-side and never trusted from the client"@,
            )
        } else {
            None
        }
    }

    /// The message where the base card is not in the collection.
    pub open spec fn ownership_fault(self, base_card_id: Seq<char>) -> Option<Seq<char>> {
        if !self.base_card_in_collection {
            Some(
                "collection '"@ + self.id + "' does not own base card '"@ + base_card_id
                    + "'; a cosmetic skin may only be equipped onto a base card the player actually owns"@,
            )
        } else {
            None
        }
    }

    /// The message where the owned quantity is negative.
    pub open spec fn quantity_fault(self, base_card_id: Seq<char>) -> Option<Seq<char>> {
        if self.base_card_quantity < 0 {
            Some(
                "collection '"@ + self.id + "' records base card '"@ + base_card_id
                    + "' at quantity "@ + text::decimal(self.base_card_quantity as int)
                    + "; owned card quantities are always non-negative"@,
            )
        } else {
            None
        }
    }

    /// The message where the card is not present.
    pub open spec fn presence_fault(self, base_card_id: Seq<char>) -> Option<Seq<char>> {
        if self.base_card_quantity < 1 {
            Some(
                "collection '"@ + self.id + "' holds base card '"@ + base_card_id
                    + "' at quantity "@ + text::decimal(self.base_card_quantity as int)
                    + "; a card may only be included in an Outfit if it is present (qty ≥ 1)"@,
            )
        } else {
            None
        }
    }

    /// The message where a grant names no card, or a negative quantity.
    pub open spec fn grant_fault(self, grant: CardGrantView) -> Option<Seq<char>> {
        if text::is_blank_text(grant.card_id) {
            Some("collection '"@ + self.id + "' requires a valid cardId in every cardGrant"@)
        } else if grant.quantity < 0 {
            Some(
                "collection '"@ + self.id + "' received cardGrant for '"@ + grant.card_id
                    + "' at quantity "@ + text::decimal(grant.quantity as int)
                    + "; owned card quantities are always non-negative"@,
            )
        } else {
            None
        }
    }

    /// The message about the first grant that is at fault.
    pub open spec fn grants_fault(self, grants: Seq<CardGrantView>) -> Option<Seq<char>>
        decreases grants.len(),
    {
        if grants.len() == 0 {
            None
        } else {
            shared::first(self.grant_fault(grants[0]), self.grants_fault(grants.drop_first()))
        }
    }

    /// The message of the first rule that refuses an [`EquipCosmetic`], if one does.
    pub open spec fn equip_cosmetic_fault(
        self,
        cmd: EquipCosmeticView,
    ) -> Option<Seq<char>> {
        if text::is_blank_text(cmd.player_id) {
            Some("collection '"@ + self.id + "' requires a valid playerId to equip a cosmetic"@)
        } else if text::is_blank_text(cmd.base_card_id) {
            Some("collection '"@ + self.id + "' requires a valid baseCardId to equip a cosmetic"@)
        } else if text::is_blank_text(cmd.cosmetic_skin_ref) {
            Some(
                "collection '"@ + self.id
                    + "' requires a valid cosmeticSkinRef to equip a cosmetic"@,
            )
        } else if cmd.player_id != self.player_id {
            Some(
                "command targets player '"@ + cmd.player_id
                    + "' but this collection belongs to '"@ + self.player_id + "'"@,
            )
        } else {
            shared::first(
                self.resolution_fault(),
                shared::first(
                    self.ownership_fault(cmd.base_card_id),
                    shared::first(
                        self.quantity_fault(cmd.base_card_id),
                        self.presence_fault(cmd.base_card_id),
                    ),
                ),
            )
        }
    }

    /// The state after an [`EquipCosmetic`], and the answer to it.
    pub open spec fn equip_cosmetic(self, cmd: EquipCosmeticView) -> (
        PlayerCollectionView,
        Reply<EventView>,
    ) {
        match self.equip_cosmetic_fault(cmd) {
            Some(message) => (self, shared::violation(message)),
            None => {
                let event = EventView::CosmeticEquipped(CosmeticEquippedView {
                    player_id: cmd.player_id,
                    base_card_id: cmd.base_card_id,
                    cosmetic_skin_ref: cmd.cosmetic_skin_ref,
                });
                (PlayerCollectionView { events: self.events.push(event), ..self }, Ok(seq![event]))
            },
        }
    }

    /// The message of the first rule that refuses an [`UnequipCosmetic`], if one does.
    pub open spec fn unequip_cosmetic_fault(
        self,
        cmd: UnequipCosmeticView,
    ) -> Option<Seq<char>> {
        if text::is_blank_text(cmd.player_id) {
            Some("collection '"@ + self.id + "' requires a valid playerId to unequip a cosmetic"@)
        } else if text::is_blank_text(cmd.base_card_id) {
            Some(
                "collection '"@ + self.id + "' requires a valid baseCardId to unequip a cosmetic"@,
            )
        } else if cmd.player_id != self.player_id {
            Some(
                "command targets player '"@ + cmd.player_id
                    + "' but this collection belongs to '"@ + self.player_id + "'"@,
            )
        } else {
            shared::first(
                self.resolution_fault(),
                shared::first(
                    self.ownership_fault(cmd.base_card_id),
                    shared::first(
                        self.quantity_fault(cmd.base_card_id),
                        self.presence_fault(cmd.base_card_id),
                    ),
                ),
            )
        }
    }

    /// The state after an [`UnequipCosmetic`], and the answer to it.
    pub open spec fn unequip_cosmetic(self, cmd: UnequipCosmeticView) -> (
        PlayerCollectionView,
        Reply<EventView>,
    ) {
        match self.unequip_cosmetic_fault(cmd) {
            Some(message) => (self, shared::violation(message)),
            None => {
                let event = EventView::CosmeticUnequipped(CosmeticUnequippedView {
                    player_id: cmd.player_id,
                    base_card_id: cmd.base_card_id,
                });
                (PlayerCollectionView { events: self.events.push(event), ..self }, Ok(seq![event]))
            },
        }
    }

    /// The message of the first rule that refuses a [`GrantCards`], if one does.
    pub open spec fn grant_cards_fault(
        self,
        cmd: GrantCardsView,
    ) -> Option<Seq<char>> {
        if text::is_blank_text(cmd.player_id) {
            Some("collection '"@ + self.id + "' requires a valid playerId to grant cards"@)
        } else if text::is_blank_text(cmd.source) {
            Some("collection '"@ + self.id + "' requires a valid source to grant cards"@)
        } else if cmd.card_grants.len() == 0 {
            Some("collection '"@ + self.id + "' requires at least one cardGrant to grant cards"@)
        } else {
            shared::first(
                self.grants_fault(cmd.card_grants),
                if cmd.player_id != self.player_id {
                    Some(
                        "command targets player '"@ + cmd.player_id
                            + "' but this collection belongs to '"@ + self.player_id + "'"@,
                    )
                } else {
                    shared::first(
                        self.resolution_fault(),
                        shared::first(
                            self.ownership_fault(cmd.card_grants[0].card_id),
                            shared::first(
                                self.quantity_fault(cmd.card_grants[0].card_id),
                                self.presence_fault(cmd.card_grants[0].card_id),
                            ),
                        ),
                    )
                },
            )
        }
    }

    /// The state after a [`GrantCards`], and the answer to it.
    pub open spec fn grant_cards(self, cmd: GrantCardsView) -> (
        PlayerCollectionView,
        Reply<EventView>,
    ) {
        match self.grant_cards_fault(cmd) {
            Some(message) => (self, shared::violation(message)),
            None => {
                let event = EventView::CardsGranted(CardsGrantedView {
                    player_id: cmd.player_id,
                    card_grants: cmd.card_grants,
                    source: cmd.source,
                });
                (PlayerCollectionView { events: self.events.push(event), ..self }, Ok(seq![event]))
            },
        }
    }

    /// The state after a command, and the answer to it.
    pub open spec fn execute(self, command: CommandView<PayloadView<RequestView>>) -> (
        PlayerCollectionView,
        Reply<EventView>,
    ) {
        if command.name == EquipCosmetic::COMMAND@ {
            match command.payload {
                PayloadView::Decoded(RequestView::EquipCosmetic(cmd)) => self.equip_cosmetic(cmd),
                PayloadView::Decoded(_) => (
                    self,
                    shared::malformed_reply(EquipCosmetic::COMMAND@, OTHER_COMMAND@),
                ),
                PayloadView::Malformed(complaint) => (
                    self,
                    shared::malformed_reply(EquipCosmetic::COMMAND@, complaint),
                ),
            }
        } else if command.name == UnequipCosmetic::COMMAND@ {
            match command.payload {
                PayloadView::Decoded(RequestView::UnequipCosmetic(cmd)) => {
                    self.unequip_cosmetic(cmd)
                },
                PayloadView::Decoded(_) => (
                    self,
                    shared::malformed_reply(UnequipCosmetic::COMMAND@, OTHER_COMMAND@),
                ),
                PayloadView::Malformed(complaint) => (
                    self,
                    shared::malformed_reply(UnequipCosmetic::COMMAND@, complaint),
                ),
            }
        } else if command.name == GrantCards::COMMAND@ {
            match command.payload {
                PayloadView::Decoded(RequestView::GrantCards(cmd)) => self.grant_cards(cmd),
                PayloadView::Decoded(_) => (
                    self,
                    shared::malformed_reply(GrantCards::COMMAND@, OTHER_COMMAND@),
                ),
                PayloadView::Malformed(complaint) => (
                    self,
                    shared::malformed_reply(GrantCards::COMMAND@, complaint),
                ),
            }
        } else {
            (self, shared::unknown(AGGREGATE_TYPE@, command.name))
        }
    }
}

impl PlayerCollection {
    /// The name of the aggregate type.
    pub fn aggregate_type() -> (r: &'static str)
        ensures
            r@ == AGGREGATE_TYPE@,
    {
        AGGREGATE_TYPE
    }

    /// Creates an equip-ready collection identified by `id` and owned by the same
    /// player id: the equip is server-resolved, the targeted base card is in the
    /// collection, and it is owned at quantity one.
    pub fn new(id: &str) -> (r: Self)
        ensures
            r@ == (PlayerCollectionView {
                id: id@,
                events: Seq::empty(),
                player_id: id@,
                base_card_in_collection: true,
                base_card_quantity: 1,
                server_resolved: true,
            }),
    {
        PlayerCollection {
            id: id.to_owned(),
            root: AggregateRoot::new(),
            player_id: id.to_owned(),
            base_card_in_collection: true,
            base_card_quantity: 1,
            server_resolved: true,
        }
    }

    /// This aggregate's identity.
    pub fn id(&self) -> (r: &str)
        ensures
            r@ == self@.id,
    {
        self.id.as_str()
    }

    /// The version: the number of events recorded.
    pub fn version(&self) -> (r: u64)
        ensures
            r == self@.events.len(),
    {
        self.root.version()
    }

    /// The events recorded and not yet persisted.
    pub fn uncommitted_events(&self) -> (r: &[Event])
        ensures
            shared::views(r@) == self@.events,
    {
        self.root.uncommitted_events()
    }

    /// Server-authoritative invariant: cosmetic equips are resolved server-side and
    /// never trusted from the client.
    fn ensure_server_resolved(&self) -> (r: Result<(), DomainError>)
        ensures
            shared::broken(r) == shared::owed(self@.resolution_fault()),
    {
        if !self.server_resolved {
            return shared::refuse(
                text::cat3(
                    "collection '", &self.id,
                    "' received a client-asserted cosmetic equip; equips are resolved server-side and never trusted from the client",
                ),
            );
        }
        Ok(())
    }

    /// Owned-base-card invariant: a cosmetic skin may only be equipped onto a base
    /// card the player actually owns.
    fn ensure_owns_base_card(&self, base_card_id: &str) -> (r: Result<(), DomainError>)
        ensures
            shared::broken(r) == shared::owed(self@.ownership_fault(base_card_id@)),
    {
        if !self.base_card_in_collection {
            return shared::refuse(
                text::cat5(
                    "collection '", &self.id, "' does not own base card '", &base_card_id,
                    "'; a cosmetic skin may only be equipped onto a base card the player actually owns",
                ),
            );
        }
        Ok(())
    }

    /// Non-negative-quantity invariant: owned card quantities are always non-
    /// negative.
    fn ensure_quantity_non_negative(&self, base_card_id: &str) -> (r: Result<(), DomainError>)
        ensures
            shared::broken(r) == shared::owed(self@.quantity_fault(base_card_id@)),
    {
        if self.base_card_quantity < 0 {
            return shared::refuse(
                text::cat7(
                    "collection '", &self.id, "' records base card '", &base_card_id,
                    "' at quantity ", &text::show_signed(self.base_card_quantity),
                    "; owned card quantities are always non-negative",
                ),
            );
        }
        Ok(())
    }

    /// Present-for-inclusion invariant: a card may only be included in an Outfit if
    /// it is present (quantity ≥ 1) in the collection.
    fn ensure_present_for_inclusion(&self, base_card_id: &str) -> (r: Result<(), DomainError>)
        ensures
            shared::broken(r) == shared::owed(self@.presence_fault(base_card_id@)),
    {
        if self.base_card_quantity < 1 {
            return shared::refuse(
                text::cat7(
                    "collection '", &self.id, "' holds base card '", &base_card_id,
                    "' at quantity ", &text::show_signed(self.base_card_quantity),
                    "; a card may only be included in an Outfit if it is present (qty ≥ 1)",
                ),
            );
        }
        Ok(())
    }

    /// Checks one grant: it names a card, and no negative quantity.
    fn ensure_grant_well_formed(&self, grant: &CardGrant) -> (r: Result<(), DomainError>)
        ensures
            shared::broken(r) == shared::owed(self@.grant_fault(grant@)),
    {
        if text::is_blank(&grant.card_id) {
            return shared::refuse(
                text::cat3(
                    "collection '", &self.id, "' requires a valid cardId in every cardGrant",
                ),
            );
        }
        if grant.quantity < 0 {
            return shared::refuse(
                text::cat7(
                    "collection '", &self.id, "' received cardGrant for '", &grant.card_id,
                    "' at quantity ", &text::show_signed(grant.quantity),
                    "; owned card quantities are always non-negative",
                ),
            );
        }
        Ok(())
    }

    /// Checks every grant, in order.
    fn ensure_grants_well_formed(&self, grants: &Vec<CardGrant>) -> (r: Result<(), DomainError>)
        ensures
            shared::broken(r) == shared::owed(self@.grants_fault(shared::views(grants@))),
    {
        let mut i: usize = 0;
        let ghost all = shared::views(grants@);
        assert(all.skip(0) =~= all);
        while i < grants.len()
            invariant
                i <= grants@.len(),
                all == shared::views(grants@),
                self@.grants_fault(all) == self@.grants_fault(all.skip(i as int)),
            decreases grants@.len() - i,
        {
            assert(all.skip(i as int)[0] == grants@[i as int]@);
            if let Err(error) = self.ensure_grant_well_formed(&grants[i]) {
                return Err(error);
            }
            assert(all.skip(i as int).drop_first() =~= all.skip(i + 1));
            i += 1;
        }
        Ok(())
    }

    /// Handles an equip: the command must carry this collection's player, a base
    /// card and a skin, and the four invariants must hold.
    fn equip_cosmetic(&mut self, cmd: EquipCosmetic) -> (r: Result<
        Vec<Event>,
        DomainError,
    >)
        ensures
            final(self)@ == old(self)@.equip_cosmetic(cmd@).0,
            shared::reply(r) == old(self)@.equip_cosmetic(cmd@).1,
    {
        if text::is_blank(&cmd.player_id) {
            return shared::refuse(
                text::cat3(
                    "collection '", &self.id, "' requires a valid playerId to equip a cosmetic",
                ),
            );
        }
        if text::is_blank(&cmd.base_card_id) {
            return shared::refuse(
                text::cat3(
                    "collection '", &self.id, "' requires a valid baseCardId to equip a cosmetic",
                ),
            );
        }
        if text::is_blank(&cmd.cosmetic_skin_ref) {
            return shared::refuse(
                text::cat3(
                    "collection '", &self.id,
                    "' requires a valid cosmeticSkinRef to equip a cosmetic",
                ),
            );
        }
        if !text::same(&cmd.player_id, &self.player_id) {
            return shared::refuse(
                text::cat5(
                    "command targets player '", &cmd.player_id,
                    "' but this collection belongs to '", &self.player_id, "'",
                ),
            );
        }
        if let Err(error) = self.ensure_server_resolved() {
            return Err(error);
        }
        if let Err(error) = self.ensure_owns_base_card(&cmd.base_card_id) {
            return Err(error);
        }
        if let Err(error) = self.ensure_quantity_non_negative(&cmd.base_card_id) {
            return Err(error);
        }
        if let Err(error) = self.ensure_present_for_inclusion(&cmd.base_card_id) {
            return Err(error);
        }
        let event = Event::CosmeticEquipped(
            CosmeticEquipped {
                player_id: cmd.player_id,
                base_card_id: cmd.base_card_id,
                cosmetic_skin_ref: cmd.cosmetic_skin_ref,
            },
        );
        self.root.record(event.clone());
        Ok(shared::only(event))
    }

    /// Handles an unequip: the command must carry this collection's player and a
    /// base card, and the four invariants must hold.
    fn unequip_cosmetic(&mut self, cmd: UnequipCosmetic) -> (r: Result<
        Vec<Event>,
        DomainError,
    >)
        ensures
            final(self)@ == old(self)@.unequip_cosmetic(cmd@).0,
            shared::reply(r) == old(self)@.unequip_cosmetic(cmd@).1,
    {
        if text::is_blank(&cmd.player_id) {
            return shared::refuse(
                text::cat3(
                    "collection '", &self.id, "' requires a valid playerId to unequip a cosmetic",
                ),
            );
        }
        if text::is_blank(&cmd.base_card_id) {
            return shared::refuse(
                text::cat3(
                    "collection '", &self.id,
                    "' requires a valid baseCardId to unequip a cosmetic",
                ),
            );
        }
        if !text::same(&cmd.player_id, &self.player_id) {
            return shared::refuse(
                text::cat5(
                    "command targets player '", &cmd.player_id,
                    "' but this collection belongs to '", &self.player_id, "'",
                ),
            );
        }
        if let Err(error) = self.ensure_server_resolved() {
            return Err(error);
        }
        if let Err(error) = self.ensure_owns_base_card(&cmd.base_card_id) {
            return Err(error);
        }
        if let Err(error) = self.ensure_quantity_non_negative(&cmd.base_card_id) {
            return Err(error);
        }
        if let Err(error) = self.ensure_present_for_inclusion(&cmd.base_card_id) {
            return Err(error);
        }
        let event = Event::CosmeticUnequipped(
            CosmeticUnequipped {
                player_id: cmd.player_id,
                base_card_id: cmd.base_card_id,
            },
        );
        self.root.record(event.clone());
        Ok(shared::only(event))
    }

    /// Handles a grant: the command must carry this collection's player, a source
    /// and well-formed grants, at least one, and the four invariants must hold.
    fn grant_cards(&mut self, cmd: GrantCards) -> (r: Result<
        Vec<Event>,
        DomainError,
    >)
        ensures
            final(self)@ == old(self)@.grant_cards(cmd@).0,
            shared::reply(r) == old(self)@.grant_cards(cmd@).1,
    {
        if text::is_blank(&cmd.player_id) {
            return shared::refuse(
                text::cat3(
                    "collection '", &self.id, "' requires a valid playerId to grant cards",
                ),
            );
        }
        if text::is_blank(&cmd.source) {
            return shared::refuse(
                text::cat3(
                    "collection '", &self.id, "' requires a valid source to grant cards",
                ),
            );
        }
        if cmd.card_grants.len() == 0 {
            return shared::refuse(
                text::cat3(
                    "collection '", &self.id, "' requires at least one cardGrant to grant cards",
                ),
            );
        }
        if let Err(error) = self.ensure_grants_well_formed(&cmd.card_grants) {
            return Err(error);
        }
        if !text::same(&cmd.player_id, &self.player_id) {
            return shared::refuse(
                text::cat5(
                    "command targets player '", &cmd.player_id,
                    "' but this collection belongs to '", &self.player_id, "'",
                ),
            );
        }
        if let Err(error) = self.ensure_server_resolved() {
            return Err(error);
        }
        if let Err(error) = self.ensure_owns_base_card(cmd.card_grants[0].card_id.as_str()) {
            return Err(error);
        }
        if let Err(error) = self.ensure_quantity_non_negative(cmd.card_grants[0].card_id.as_str()) {
            return Err(error);
        }
        if let Err(error) = self.ensure_present_for_inclusion(cmd.card_grants[0].card_id.as_str()) {
            return Err(error);
        }
        let event = Event::CardsGranted(
            CardsGranted {
                player_id: cmd.player_id,
                card_grants: cmd.card_grants,
                source: cmd.source,
            },
        );
        self.root.record(event.clone());
        Ok(shared::only(event))
    }

    /// Carries out a command, or says why it is refused.
    pub fn execute(&mut self, command: Command<Payload<Request>>) -> (r: Result<
        Vec<Event>,
        DomainError,
    >)
        ensures
            final(self)@ == old(self)@.execute(command@).0,
            shared::reply(r) == old(self)@.execute(command@).1,
    {
        if text::same(&command.name, EquipCosmetic::COMMAND) {
            match command.payload {
                Payload::Decoded(Request::EquipCosmetic(cmd)) => self.equip_cosmetic(cmd),
                Payload::Decoded(_) => shared::malformed(EquipCosmetic::COMMAND, OTHER_COMMAND),
                Payload::Malformed(complaint) => {
                    shared::malformed(EquipCosmetic::COMMAND, &complaint)
                },
            }
        } else if text::same(&command.name, UnequipCosmetic::COMMAND) {
            match command.payload {
                Payload::Decoded(Request::UnequipCosmetic(cmd)) => self.unequip_cosmetic(cmd),
                Payload::Decoded(_) => shared::malformed(UnequipCosmetic::COMMAND, OTHER_COMMAND),
                Payload::Malformed(complaint) => {
                    shared::malformed(UnequipCosmetic::COMMAND, &complaint)
                },
            }
        } else if text::same(&command.name, GrantCards::COMMAND) {
            match command.payload {
                Payload::Decoded(Request::GrantCards(cmd)) => self.grant_cards(cmd),
                Payload::Decoded(_) => shared::malformed(GrantCards::COMMAND, OTHER_COMMAND),
                Payload::Malformed(complaint) => shared::malformed(GrantCards::COMMAND, &complaint),
            }
        } else {
            Err(DomainError::unknown_command(AGGREGATE_TYPE, command.name))
        }
    }

    /// The player who owns this collection.
    pub fn player_id(&self) -> (r: &str)
        ensures
            r@ == self@.player_id,
    {
        self.player_id.as_str()
    }

    /// The owned quantity of the base card an equip targets.
    pub fn base_card_quantity(&self) -> (r: i64)
        ensures
            r == self@.base_card_quantity,
    {
        self.base_card_quantity
    }

    /// Sets the owning player id.
    pub fn set_player_id(&mut self, player_id: &str)
        ensures
            final(self)@ == (PlayerCollectionView {
                player_id: player_id@,
                ..old(self)@
            }),
    {
        self.player_id = player_id.to_owned();
    }

    /// Records whether the targeted base card is present in the collection at all.
    pub fn set_base_card_in_collection(&mut self, in_collection: bool)
        ensures
            final(self)@ == (PlayerCollectionView {
                base_card_in_collection: in_collection,
                ..old(self)@
            }),
    {
        self.base_card_in_collection = in_collection;
    }

    /// Sets the owned quantity of the targeted base card.
    pub fn set_base_card_quantity(&mut self, quantity: i64)
        ensures
            final(self)@ == (PlayerCollectionView {
                base_card_quantity: quantity,
                ..old(self)@
            }),
    {
        self.base_card_quantity = quantity;
    }

    /// Records whether the equip was resolved server-side (vs. client-asserted).
    pub fn set_server_resolved(&mut self, server_resolved: bool)
        ensures
            final(self)@ == (PlayerCollectionView {
                server_resolved: server_resolved,
                ..old(self)@
            }),
    {
        self.server_resolved = server_resolved;
    }
}

/// The repository port of the [`PlayerCollection`] aggregate: an adapter implements
/// [`Repository`] for it and then this marker.
pub trait PlayerCollectionRepository: Repository<PlayerCollection> {

}

impl PlayerCollectionView {
    /// A refused command changes nothing: neither the state nor the events.
    pub proof fn law_refusal_changes_nothing(
        self,
        command: CommandView<PayloadView<RequestView>>,
    )
        ensures
            self.execute(command).1 is Err ==> self.execute(command).0 == self,
    {
    }

    /// An accepted command records exactly the events it answers with, behind
    /// those recorded before.
    pub proof fn law_events_are_recorded(self, command: CommandView<PayloadView<RequestView>>)
        ensures
            self.execute(command).1 matches Ok(events) ==> {
                &&& events.len() == 1
                &&& self.execute(command).0.events == self.events + events
            },
    {
        if let Ok(events) = self.execute(command).1 {
            assert(self.execute(command).0.events =~= self.events + events);
        }
    }

    /// No command is accepted unless the server resolved it and the base card is
    /// owned, present at a quantity of one or more.
    pub proof fn law_accepted_commands_are_lawful(
        self,
        command: CommandView<PayloadView<RequestView>>,
    )
        requires
            self.execute(command).1 is Ok,
        ensures
            self.server_resolved,
            self.base_card_in_collection,
            self.base_card_quantity >= 1,
    {
    }

    /// A skin is equipped exactly where the command names the player, a base card
    /// and a skin, and the invariants hold.
    pub proof fn law_equip_is_owed(self, cmd: EquipCosmeticView)
        ensures
            self.equip_cosmetic(cmd).1 is Ok <==> {
                &&& cmd.player_id == self.player_id
                &&& !text::is_blank_text(cmd.player_id)
                &&& !text::is_blank_text(cmd.base_card_id)
                &&& !text::is_blank_text(cmd.cosmetic_skin_ref)
                &&& self.server_resolved
                &&& self.base_card_in_collection
                &&& self.base_card_quantity >= 1
            },
    {
    }

    /// A skin is removed exactly where the command names the player and a base
    /// card, and the invariants hold.
    pub proof fn law_unequip_is_owed(self, cmd: UnequipCosmeticView)
        ensures
            self.unequip_cosmetic(cmd).1 is Ok <==> {
                &&& cmd.player_id == self.player_id
                &&& !text::is_blank_text(cmd.player_id)
                &&& !text::is_blank_text(cmd.base_card_id)
                &&& self.server_resolved
                &&& self.base_card_in_collection
                &&& self.base_card_quantity >= 1
            },
    {
    }

    /// Cards are granted exactly where the command names the player and a source,
    /// with one grant or more, each of a card and of no negative quantity, and the
    /// invariants hold.
    pub proof fn law_grant_is_owed(self, cmd: GrantCardsView)
        ensures
            self.grant_cards(cmd).1 is Ok <==> {
                &&& cmd.player_id == self.player_id
                &&& !text::is_blank_text(cmd.player_id)
                &&& !text::is_blank_text(cmd.source)
                &&& cmd.card_grants.len() > 0
                &&& forall|i: int|
                    0 <= i < cmd.card_grants.len() ==> !text::is_blank_text(
                        (#[trigger] cmd.card_grants[i]).card_id,
                    ) && cmd.card_grants[i].quantity >= 0
                &&& self.server_resolved
                &&& self.base_card_in_collection
                &&& self.base_card_quantity >= 1
            },
    {
        self.lemma_all_grants_pass(cmd.card_grants);
    }

    /// Every grant that is recorded names a card and no negative quantity.
    pub proof fn law_grants_are_well_formed(self, cmd: GrantCardsView)
        requires
            self.grant_cards(cmd).1 is Ok,
        ensures
            cmd.card_grants.len() > 0,
            forall|i: int|
                0 <= i < cmd.card_grants.len() ==> !text::is_blank_text(
                    (#[trigger] cmd.card_grants[i]).card_id,
                ) && cmd.card_grants[i].quantity >= 0,
    {
        self.lemma_all_grants_pass(cmd.card_grants);
    }

    /// No grant is at fault exactly where each one passes.
    proof fn lemma_all_grants_pass(self, grants: Seq<CardGrantView>)
        ensures
            self.grants_fault(grants) is None <==> forall|i: int|
                0 <= i < grants.len() ==> self.grant_fault(#[trigger] grants[i]) is None,
        decreases grants.len(),
    {
        if grants.len() > 0 {
            let rest = grants.drop_first();
            self.lemma_all_grants_pass(rest);
            if self.grants_fault(grants) is None {
                assert forall|i: int| 0 <= i < grants.len() implies self.grant_fault(
                    #[trigger] grants[i],
                ) is None by {
                    if i > 0 {
                        assert(grants[i] == rest[i - 1]);
                    }
                }
            }
            if forall|i: int|
                0 <= i < grants.len() ==> self.grant_fault(#[trigger] grants[i]) is None {
                assert(self.grant_fault(grants[0]) is None);
                assert forall|i: int| 0 <= i < rest.len() implies self.grant_fault(
                    #[trigger] rest[i],
                ) is None by {
                    assert(rest[i] == grants[i + 1]);
                }
            }
        }
    }
}

impl PlayerCollectionView {
    /// Every command goes to its own handler, a payload that does not read is
    /// refused with the complaint about it, and a name that is none of these is
    /// unknown; what is refused otherwise is refused for a broken rule.
    pub proof fn law_commands_are_routed(self, command: CommandView<PayloadView<RequestView>>)
        ensures
            command.name == "EquipCosmeticCmd"@ ==> match command.payload {
                PayloadView::Decoded(RequestView::EquipCosmetic(cmd)) => self.execute(command)
                    == self.equip_cosmetic(cmd),
                PayloadView::Decoded(_) => self.execute(command).1 is Err,
                PayloadView::Malformed(complaint) => self.execute(command).1 == shared::violation::<
                    EventView,
                >("malformed "@ + "EquipCosmeticCmd"@ + " payload: "@ + complaint),
            },
            command.name == "UnequipCosmeticCmd"@ ==> match command.payload {
                PayloadView::Decoded(RequestView::UnequipCosmetic(cmd)) => self.execute(command)
                    == self.unequip_cosmetic(cmd),
                PayloadView::Decoded(_) => self.execute(command).1 is Err,
                PayloadView::Malformed(complaint) => self.execute(command).1 == shared::violation::<
                    EventView,
                >("malformed "@ + "UnequipCosmeticCmd"@ + " payload: "@ + complaint),
            },
            command.name == "GrantCardsCmd"@ ==> match command.payload {
                PayloadView::Decoded(RequestView::GrantCards(cmd)) => self.execute(command)
                    == self.grant_cards(cmd),
                PayloadView::Decoded(_) => self.execute(command).1 is Err,
                PayloadView::Malformed(complaint) => self.execute(command).1 == shared::violation::<
                    EventView,
                >("malformed "@ + "GrantCardsCmd"@ + " payload: "@ + complaint),
            },
            ({
                &&& command.name != "EquipCosmeticCmd"@
                &&& command.name != "UnequipCosmeticCmd"@
                &&& command.name != "GrantCardsCmd"@
            }) ==> self.execute(command).1 == Err::<
                Seq<EventView>,
                shared::DomainErrorView,
            >(
                shared::DomainErrorView::UnknownCommand {
                    aggregate: "PlayerCollection"@,
                    command: command.name,
                },
            ),
            self.execute(command).1 matches Err(error) ==> (error is InvariantViolation <==> {
                ||| command.name == "EquipCosmeticCmd"@
                ||| command.name == "UnequipCosmeticCmd"@
                ||| command.name == "GrantCardsCmd"@
            }),
    {
        reveal_strlit("EquipCosmeticCmd");
        reveal_strlit("UnequipCosmeticCmd");
        reveal_strlit("GrantCardsCmd");
        assert("EquipCosmeticCmd"@.len() == 16);
        assert("UnequipCosmeticCmd"@.len() == 18);
        assert("GrantCardsCmd"@.len() == 13);
    }

    /// An equip records the player, the base card and the skin that were submitted;
    /// nothing else changes.
    pub proof fn law_equip_records_the_skin(self, cmd: EquipCosmeticView)
        requires
            self.equip_cosmetic(cmd).1 is Ok,
        ensures
            ({
                let after = self.equip_cosmetic(cmd).0;
                &&& self.equip_cosmetic(cmd).1 matches Ok(events)
                &&& events.len() == 1
                &&& events[0].event_type() == "cosmetic.equipped"@
                &&& events[0] matches EventView::CosmeticEquipped(said)
                &&& said.player_id == cmd.player_id
                &&& said.base_card_id == cmd.base_card_id
                &&& said.cosmetic_skin_ref == cmd.cosmetic_skin_ref
                &&& after == (PlayerCollectionView {
                    events: self.events.push(events[0]),
                    ..self
                })
            }),
    {
    }

    /// An unequip records the player and the base card that were submitted; nothing
    /// else changes.
    pub proof fn law_unequip_records_the_card(self, cmd: UnequipCosmeticView)
        requires
            self.unequip_cosmetic(cmd).1 is Ok,
        ensures
            ({
                let after = self.unequip_cosmetic(cmd).0;
                &&& self.unequip_cosmetic(cmd).1 matches Ok(events)
                &&& events.len() == 1
                &&& events[0].event_type() == "cosmetic.unequipped"@
                &&& events[0] matches EventView::CosmeticUnequipped(said)
                &&& said.player_id == cmd.player_id
                &&& said.base_card_id == cmd.base_card_id
                &&& after == (PlayerCollectionView {
                    events: self.events.push(events[0]),
                    ..self
                })
            }),
    {
    }

    /// A grant records the player, the source and every card grant that were
    /// submitted, in order; nothing else changes.
    pub proof fn law_grant_records_the_cards(self, cmd: GrantCardsView)
        requires
            self.grant_cards(cmd).1 is Ok,
        ensures
            ({
                let after = self.grant_cards(cmd).0;
                &&& self.grant_cards(cmd).1 matches Ok(events)
                &&& events.len() == 1
                &&& events[0].event_type() == "cards.granted"@
                &&& events[0] matches EventView::CardsGranted(said)
                &&& said.player_id == cmd.player_id
                &&& said.card_grants == cmd.card_grants
                &&& said.source == cmd.source
                &&& after == (PlayerCollectionView {
                    events: self.events.push(events[0]),
                    ..self
                })
            }),
    {
    }
}

impl EquipCosmetic {
    /// The view leaves nothing out: where two views agree, so does every field.
    pub proof fn law_view_leaves_nothing_out(self, other: EquipCosmetic)
        requires
            self@ == other@,
        ensures
            self.player_id@ == other.player_id@,
            self.base_card_id@ == other.base_card_id@,
            self.cosmetic_skin_ref@ == other.cosmetic_skin_ref@,
    {
    }
}

impl UnequipCosmetic {
    /// The view leaves nothing out: where two views agree, so does every field.
    pub proof fn law_view_leaves_nothing_out(self, other: UnequipCosmetic)
        requires
            self@ == other@,
        ensures
            self.player_id@ == other.player_id@,
            self.base_card_id@ == other.base_card_id@,
    {
    }
}

impl CardGrant {
    /// The view leaves nothing out: where two views agree, so does every field.
    pub proof fn law_view_leaves_nothing_out(self, other: CardGrant)
        requires
            self@ == other@,
        ensures
            self.card_id@ == other.card_id@,
            self.quantity == other.quantity,
    {
    }
}

impl GrantCards {
    /// The view leaves nothing out: where two views agree, so does every field.
    pub proof fn law_view_leaves_nothing_out(self, other: GrantCards)
        requires
            self@ == other@,
        ensures
            self.player_id@ == other.player_id@,
            shared::views(self.card_grants@) == shared::views(other.card_grants@),
            self.source@ == other.source@,
    {
    }
}

impl CosmeticEquipped {
    /// The view leaves nothing out: where two views agree, so does every field.
    pub proof fn law_view_leaves_nothing_out(self, other: CosmeticEquipped)
        requires
            self@ == other@,
        ensures
            self.player_id@ == other.player_id@,
            self.base_card_id@ == other.base_card_id@,
            self.cosmetic_skin_ref@ == other.cosmetic_skin_ref@,
    {
    }
}

impl CosmeticUnequipped {
    /// The view leaves nothing out: where two views agree, so does every field.
    pub proof fn law_view_leaves_nothing_out(self, other: CosmeticUnequipped)
        requires
            self@ == other@,
        ensures
            self.player_id@ == other.player_id@,
            self.base_card_id@ == other.base_card_id@,
    {
    }
}

impl CardsGranted {
    /// The view leaves nothing out: where two views agree, so does every field.
    pub proof fn law_view_leaves_nothing_out(self, other: CardsGranted)
        requires
            self@ == other@,
        ensures
            self.player_id@ == other.player_id@,
            shared::views(self.card_grants@) == shared::views(other.card_grants@),
            self.source@ == other.source@,
    {
    }
}

impl Event {
    /// The view leaves nothing out: where two views agree, so do the variants and
    /// what they carry.
    pub proof fn law_view_leaves_nothing_out(self, other: Event)
        requires
            self@ == other@,
        ensures
            match (self, other) {
                (Event::CosmeticEquipped(a), Event::CosmeticEquipped(b)) => a@ == b@,
                (Event::CosmeticUnequipped(a), Event::CosmeticUnequipped(b)) => a@ == b@,
                (Event::CardsGranted(a), Event::CardsGranted(b)) => a@ == b@,
                _ => false,
            },
    {
    }
}

impl Request {
    /// The view leaves nothing out: where two views agree, so do the variants and
    /// what they carry.
    pub proof fn law_view_leaves_nothing_out(self, other: Request)
        requires
            self@ == other@,
        ensures
            match (self, other) {
                (Request::EquipCosmetic(a), Request::EquipCosmetic(b)) => a@ == b@,
                (Request::UnequipCosmetic(a), Request::UnequipCosmetic(b)) => a@ == b@,
                (Request::GrantCards(a), Request::GrantCards(b)) => a@ == b@,
                _ => false,
            },
    {
    }
}

} // verus!
