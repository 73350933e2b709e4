//! Peer-to-peer $MADE listings of owned card tokens.
//!
//! A [`MarketplaceListing`] lists a single owned token for sale in $MADE. Four
//! invariants govern a listing:
//!
//! 1. **Seller ownership** - the seller must own the listed token at listing and
//!    at settlement.
//! 2. **Canonical fee split** - every settled trade applies the 5% fee split:
//!    2.5% treasury / 1.5% reward pool / 1% burn.
//! 3. **Atomic settlement** - token transfer and fee split succeed or fail
//!    together, never partially.
//! 4. **Jurisdiction gating** - listings and purchases are blocked for
//!    geo-restricted jurisdictions.
use crate::shared;
use crate::shared::AggregateRoot;
use crate::shared::Command;
use crate::shared::CommandView;
use crate::shared::DomainError;
use crate::shared::Payload;
use crate::shared::PayloadView;
use crate::shared::Reply;
use crate::shared::Repository;
use crate::shared::OTHER_COMMAND;
use crate::text;
use vstd::prelude::*;

verus! {

/// The name of the aggregate type, as errors show it.
pub const AGGREGATE_TYPE: &'static str = "MarketplaceListing";

/// Basis points (1 bp = 0.01%) of a settled trade that go to the treasury.
pub const TREASURY_BPS: u32 = 250;

/// Basis points of a settled trade that go to the reward pool.
pub const REWARD_POOL_BPS: u32 = 150;

/// Basis points of a settled trade that are burned.
pub const BURN_BPS: u32 = 100;

/// The fee schedule a settled trade applies.
///
/// The canonical split is 2.5% treasury / 1.5% reward pool / 1% burn (a 5%
/// total).
#[derive(Debug, Clone, Copy, PartialEq, Eq, Structural)]
pub struct FeeSchedule {
    /// Basis points routed to the treasury.
    pub treasury_bps: u32,
    /// Basis points routed to the reward pool.
    pub reward_pool_bps: u32,
    /// Basis points burned.
    pub burn_bps: u32,
}

impl FeeSchedule {
    /// The canonical 5% split: 2.5% treasury / 1.5% reward pool / 1% burn.
    pub open spec fn spec_canonical() -> FeeSchedule {
        FeeSchedule {
            treasury_bps: TREASURY_BPS,
            reward_pool_bps: REWARD_POOL_BPS,
            burn_bps: BURN_BPS,
        }
    }

    /// The canonical 5% split: 2.5% treasury / 1.5% reward pool / 1% burn.
    #[verifier::when_used_as_spec(spec_canonical)]
    pub fn canonical() -> (r: Self)
        ensures
            r == FeeSchedule::spec_canonical(),
    {
        FeeSchedule {
            treasury_bps: TREASURY_BPS,
            reward_pool_bps: REWARD_POOL_BPS,
            burn_bps: BURN_BPS,
        }
    }

    /// Builds a fee schedule from explicit basis points.
    pub fn new(treasury_bps: u32, reward_pool_bps: u32, burn_bps: u32) -> (r: Self)
        ensures
            r == (FeeSchedule { treasury_bps, reward_pool_bps, burn_bps }),
    {
        FeeSchedule { treasury_bps, reward_pool_bps, burn_bps }
    }

    /// Whether this schedule encodes exactly the mandated 5% fee split.
    pub open spec fn spec_is_canonical(&self) -> bool {
        *self == FeeSchedule::spec_canonical()
    }

    /// Whether this schedule encodes exactly the mandated 5% fee split.
    #[verifier::when_used_as_spec(spec_is_canonical)]
    pub fn is_canonical(&self) -> (r: bool)
        ensures
            r == self.spec_is_canonical(),
    {
        *self == FeeSchedule::canonical()
    }
}

impl Default for FeeSchedule {
    /// The canonical split.
    fn default() -> (r: Self)
        ensures
            r == FeeSchedule::spec_canonical(),
    {
        FeeSchedule::canonical()
    }
}

/// The `CreateListingCmd` payload: who is listing, which token, the ask price
/// in $MADE, and the jurisdiction the listing originates from. Field names use
/// the token marketplace's `camelCase` schema.
#[derive(Debug, PartialEq, Eq)]
pub struct CreateListingCmd {
    /// The seller listing the token; must own the token being listed.
    pub seller_id: String,
    /// The token being listed for sale.
    pub token_id: String,
    /// The ask price, denominated in $MADE base units; must be positive.
    pub price: u64,
    /// The jurisdiction the listing originates from; must not be geo-restricted.
    pub jurisdiction: String,
}

/// What a [`CreateListingCmd`] says.
#[verifier::ext_equal]
pub struct CreateListingCmdView {
    pub seller_id: Seq<char>,
    pub token_id: Seq<char>,
    pub price: u64,
    pub jurisdiction: Seq<char>,
}

impl View for CreateListingCmd {
    type V = CreateListingCmdView;

    open spec fn view(&self) -> CreateListingCmdView {
        CreateListingCmdView {
            seller_id: self.seller_id@,
            token_id: self.token_id@,
            price: self.price,
            jurisdiction: self.jurisdiction@,
        }
    }
}

impl Clone for CreateListingCmd {
    fn clone(&self) -> (r: Self)
        ensures
            r@ == self@,
    {
        CreateListingCmd {
            seller_id: self.seller_id.clone(),
            token_id: self.token_id.clone(),
            price: self.price,
            jurisdiction: self.jurisdiction.clone(),
        }
    }
}

impl CreateListingCmd {
    /// The name of the command.
    pub const COMMAND: &'static str = "CreateListingCmd";

    /// Builds a command listing `token_id` from `seller_id` at `price` in
    /// `jurisdiction`.
    pub fn new(seller_id: &str, token_id: &str, price: u64, jurisdiction: &str) -> (r: Self)
        ensures
            r@ == (CreateListingCmdView {
                seller_id: seller_id@,
                token_id: token_id@,
                price: price,
                jurisdiction: jurisdiction@,
            }),
    {
        CreateListingCmd {
            seller_id: seller_id.to_owned(),
            token_id: token_id.to_owned(),
            price: price,
            jurisdiction: jurisdiction.to_owned(),
        }
    }

    /// This request as a command, ready to be executed.
    pub fn into_command(&self) -> (r: Command<Payload<Request>>)
        ensures
            r@ == (CommandView {
                name: Self::COMMAND@,
                payload: PayloadView::Decoded(RequestView::CreateListingCmd(self@)),
            }),
    {
        let request = Request::CreateListingCmd(self.clone());
        Command::with_payload(Self::COMMAND, Payload::Decoded(request))
    }
}

/// The `CancelListingCmd` payload: which listing to withdraw and the
/// jurisdiction the cancellation originates from. Field names use the token
/// marketplace's `camelCase` schema.
#[derive(Debug, PartialEq, Eq)]
pub struct CancelListingCmd {
    /// The listing being withdrawn; must be a valid, non-empty identifier.
    pub listing_id: String,
    /// The jurisdiction the cancellation originates from; must not be geo-
    /// restricted.
    pub jurisdiction: String,
}

/// What a [`CancelListingCmd`] says.
#[verifier::ext_equal]
pub struct CancelListingCmdView {
    pub listing_id: Seq<char>,
    pub jurisdiction: Seq<char>,
}

impl View for CancelListingCmd {
    type V = CancelListingCmdView;

    open spec fn view(&self) -> CancelListingCmdView {
        CancelListingCmdView {
            listing_id: self.listing_id@,
            jurisdiction: self.jurisdiction@,
        }
    }
}

impl Clone for CancelListingCmd {
    fn clone(&self) -> (r: Self)
        ensures
            r@ == self@,
    {
        CancelListingCmd {
            listing_id: self.listing_id.clone(),
            jurisdiction: self.jurisdiction.clone(),
        }
    }
}

impl CancelListingCmd {
    /// The name of the command.
    pub const COMMAND: &'static str = "CancelListingCmd";

    /// Builds a command withdrawing `listing_id` from `jurisdiction`.
    pub fn new(listing_id: &str, jurisdiction: &str) -> (r: Self)
        ensures
            r@ == (CancelListingCmdView {
                listing_id: listing_id@,
                jurisdiction: jurisdiction@,
            }),
    {
        CancelListingCmd {
            listing_id: listing_id.to_owned(),
            jurisdiction: jurisdiction.to_owned(),
        }
    }

    /// This request as a command, ready to be executed.
    pub fn into_command(&self) -> (r: Command<Payload<Request>>)
        ensures
            r@ == (CommandView {
                name: Self::COMMAND@,
                payload: PayloadView::Decoded(RequestView::CancelListingCmd(self@)),
            }),
    {
        let request = Request::CancelListingCmd(self.clone());
        Command::with_payload(Self::COMMAND, Payload::Decoded(request))
    }
}

/// The `PurchaseListingCmd` payload: which listing to buy, the buyer making the
/// purchase, and the jurisdiction the purchase is geo-checked against. Field
/// names use the token marketplace's `camelCase` schema.
#[derive(Debug, PartialEq, Eq)]
pub struct PurchaseListingCmd {
    /// The listing being purchased; must name this MarketplaceListing.
    pub listing_id: String,
    /// The buyer purchasing the listed token; must be a valid identifier.
    pub buyer_id: String,
    /// The jurisdiction the purchase is geo-checked against; must not be geo-
    /// restricted.
    pub jurisdiction: String,
}

/// What a [`PurchaseListingCmd`] says.
#[verifier::ext_equal]
pub struct PurchaseListingCmdView {
    pub listing_id: Seq<char>,
    pub buyer_id: Seq<char>,
    pub jurisdiction: Seq<char>,
}

impl View for PurchaseListingCmd {
    type V = PurchaseListingCmdView;

    open spec fn view(&self) -> PurchaseListingCmdView {
        PurchaseListingCmdView {
            listing_id: self.listing_id@,
            buyer_id: self.buyer_id@,
            jurisdiction: self.jurisdiction@,
        }
    }
}

impl Clone for PurchaseListingCmd {
    fn clone(&self) -> (r: Self)
        ensures
            r@ == self@,
    {
        PurchaseListingCmd {
            listing_id: self.listing_id.clone(),
            buyer_id: self.buyer_id.clone(),
            jurisdiction: self.jurisdiction.clone(),
        }
    }
}

impl PurchaseListingCmd {
    /// The name of the command.
    pub const COMMAND: &'static str = "PurchaseListingCmd";

    /// Builds a command purchasing `listing_id` for `buyer_id`, geo-checked
    /// against `jurisdiction`.
    pub fn new(listing_id: &str, buyer_id: &str, jurisdiction: &str) -> (r: Self)
        ensures
            r@ == (PurchaseListingCmdView {
                listing_id: listing_id@,
                buyer_id: buyer_id@,
                jurisdiction: jurisdiction@,
            }),
    {
        PurchaseListingCmd {
            listing_id: listing_id.to_owned(),
            buyer_id: buyer_id.to_owned(),
            jurisdiction: jurisdiction.to_owned(),
        }
    }

    /// This request as a command, ready to be executed.
    pub fn into_command(&self) -> (r: Command<Payload<Request>>)
        ensures
            r@ == (CommandView {
                name: Self::COMMAND@,
                payload: PayloadView::Decoded(RequestView::PurchaseListingCmd(self@)),
            }),
    {
        let request = Request::PurchaseListingCmd(self.clone());
        Command::with_payload(Self::COMMAND, Payload::Decoded(request))
    }
}

/// The listing that was created, carried by [`Event::ListingCreated`] and thus
/// by the emitted `listing.created` event.
#[derive(Debug, PartialEq, Eq)]
pub struct ListingCreated {
    /// The seller who created the listing.
    pub seller_id: String,
    /// The token that was listed.
    pub token_id: String,
    /// The ask price, in $MADE base units.
    pub price: u64,
    /// The jurisdiction the listing originates from.
    pub jurisdiction: String,
    /// The fee split that will apply when the trade settles.
    pub fee_schedule: FeeSchedule,
}

/// What a [`ListingCreated`] says.
#[verifier::ext_equal]
pub struct ListingCreatedView {
    pub seller_id: Seq<char>,
    pub token_id: Seq<char>,
    pub price: u64,
    pub jurisdiction: Seq<char>,
    pub fee_schedule: FeeSchedule,
}

impl View for ListingCreated {
    type V = ListingCreatedView;

    open spec fn view(&self) -> ListingCreatedView {
        ListingCreatedView {
            seller_id: self.seller_id@,
            token_id: self.token_id@,
            price: self.price,
            jurisdiction: self.jurisdiction@,
            fee_schedule: self.fee_schedule,
        }
    }
}

impl Clone for ListingCreated {
    fn clone(&self) -> (r: Self)
        ensures
            r@ == self@,
    {
        ListingCreated {
            seller_id: self.seller_id.clone(),
            token_id: self.token_id.clone(),
            price: self.price,
            jurisdiction: self.jurisdiction.clone(),
            fee_schedule: self.fee_schedule,
        }
    }
}

/// The listing that was withdrawn, carried by [`Event::ListingCancelled`] and
/// thus by the emitted `listing.cancelled` event.
#[derive(Debug, PartialEq, Eq)]
pub struct ListingCancelled {
    /// The listing that was withdrawn.
    pub listing_id: String,
    /// The jurisdiction the cancellation originated from.
    pub jurisdiction: String,
}

/// What a [`ListingCancelled`] says.
#[verifier::ext_equal]
pub struct ListingCancelledView {
    pub listing_id: Seq<char>,
    pub jurisdiction: Seq<char>,
}

impl View for ListingCancelled {
    type V = ListingCancelledView;

    open spec fn view(&self) -> ListingCancelledView {
        ListingCancelledView {
            listing_id: self.listing_id@,
            jurisdiction: self.jurisdiction@,
        }
    }
}

impl Clone for ListingCancelled {
    fn clone(&self) -> (r: Self)
        ensures
            r@ == self@,
    {
        ListingCancelled {
            listing_id: self.listing_id.clone(),
            jurisdiction: self.jurisdiction.clone(),
        }
    }
}

/// The purchase that settled, carried by [`Event::ListingPurchased`] and thus
/// by the emitted `listing.purchased` event.
#[derive(Debug, PartialEq, Eq)]
pub struct ListingPurchased {
    /// The listing that was purchased.
    pub listing_id: String,
    /// The buyer that purchased the listed token.
    pub buyer_id: String,
    /// The jurisdiction the purchase was geo-checked against.
    pub jurisdiction: String,
    /// The fee schedule applied to the settled trade.
    pub fee_schedule: FeeSchedule,
}

/// What a [`ListingPurchased`] says.
#[verifier::ext_equal]
pub struct ListingPurchasedView {
    pub listing_id: Seq<char>,
    pub buyer_id: Seq<char>,
    pub jurisdiction: Seq<char>,
    pub fee_schedule: FeeSchedule,
}

impl View for ListingPurchased {
    type V = ListingPurchasedView;

    open spec fn view(&self) -> ListingPurchasedView {
        ListingPurchasedView {
            listing_id: self.listing_id@,
            buyer_id: self.buyer_id@,
            jurisdiction: self.jurisdiction@,
            fee_schedule: self.fee_schedule,
        }
    }
}

impl Clone for ListingPurchased {
    fn clone(&self) -> (r: Self)
        ensures
            r@ == self@,
    {
        ListingPurchased {
            listing_id: self.listing_id.clone(),
            buyer_id: self.buyer_id.clone(),
            jurisdiction: self.jurisdiction.clone(),
            fee_schedule: self.fee_schedule,
        }
    }
}

/// Domain events emitted by [`MarketplaceListing`].
#[derive(Debug, PartialEq, Eq)]
pub enum Event {
    /// An owned token was listed for sale in $MADE.
    ListingCreated(ListingCreated),
    /// An open listing was withdrawn from $MADE.
    ListingCancelled(ListingCancelled),
    /// A listed token was purchased and the trade settled in $MADE.
    ListingPurchased(ListingPurchased),
}

/// What an [`Event`] says.
#[verifier::ext_equal]
pub enum EventView {
    ListingCreated(ListingCreatedView),
    ListingCancelled(ListingCancelledView),
    ListingPurchased(ListingPurchasedView),
}

impl View for Event {
    type V = EventView;

    open spec fn view(&self) -> EventView {
        match self {
            Event::ListingCreated(body) => EventView::ListingCreated(body@),
            Event::ListingCancelled(body) => EventView::ListingCancelled(body@),
            Event::ListingPurchased(body) => EventView::ListingPurchased(body@),
        }
    }
}

impl Clone for Event {
    fn clone(&self) -> (r: Self)
        ensures
            r@ == self@,
    {
        match self {
            Event::ListingCreated(body) => Event::ListingCreated(body.clone()),
            Event::ListingCancelled(body) => Event::ListingCancelled(body.clone()),
            Event::ListingPurchased(body) => Event::ListingPurchased(body.clone()),
        }
    }
}

impl EventView {
    /// The name under which the event is published.
    pub open spec fn event_type(self) -> Seq<char> {
        match self {
            EventView::ListingCreated(_) => "listing.created"@,
            EventView::ListingCancelled(_) => "listing.cancelled"@,
            EventView::ListingPurchased(_) => "listing.purchased"@,
        }
    }
}

impl Event {
    /// The name under which the event is published.
    pub fn event_type(&self) -> (r: &'static str)
        ensures
            r@ == self@.event_type(),
    {
        match self {
            Event::ListingCreated(_) => "listing.created",
            Event::ListingCancelled(_) => "listing.cancelled",
            Event::ListingPurchased(_) => "listing.purchased",
        }
    }
}

/// A command of this context, with its payload read.
pub enum Request {
    /// A [`CreateListingCmd`].
    CreateListingCmd(CreateListingCmd),
    /// A [`CancelListingCmd`].
    CancelListingCmd(CancelListingCmd),
    /// A [`PurchaseListingCmd`].
    PurchaseListingCmd(PurchaseListingCmd),
}

/// What a [`Request`] says.
#[verifier::ext_equal]
pub enum RequestView {
    CreateListingCmd(CreateListingCmdView),
    CancelListingCmd(CancelListingCmdView),
    PurchaseListingCmd(PurchaseListingCmdView),
}

impl View for Request {
    type V = RequestView;

    open spec fn view(&self) -> RequestView {
        match self {
            Request::CreateListingCmd(body) => RequestView::CreateListingCmd(body@),
            Request::CancelListingCmd(body) => RequestView::CancelListingCmd(body@),
            Request::PurchaseListingCmd(body) => RequestView::PurchaseListingCmd(body@),
        }
    }
}

/// The MarketplaceListing aggregate: one owned token listed for sale in $MADE.
#[derive(Debug)]
pub struct MarketplaceListing {
    id: String,
    root: AggregateRoot<Event>,
    /// Whether the seller owns the listed token at listing (and at settlement).
    seller_owns_listed_token: bool,
    /// The fee split a settled trade applies; must be the canonical 5% split.
    fee_schedule: FeeSchedule,
    /// Whether settlement is atomic (token transfer and fee split together).
    settlement_atomic: bool,
    /// Jurisdictions for which listings and purchases are blocked.
    geo_restricted_jurisdictions: Vec<String>,
}

/// What a [`MarketplaceListing`] says.
#[verifier::ext_equal]
pub struct MarketplaceListingView {
    pub id: Seq<char>,
    pub events: Seq<EventView>,
    pub seller_owns_listed_token: bool,
    pub fee_schedule: FeeSchedule,
    pub settlement_atomic: bool,
    pub geo_restricted_jurisdictions: Seq<Seq<char>>,
}

impl View for MarketplaceListing {
    type V = MarketplaceListingView;

    closed spec fn view(&self) -> MarketplaceListingView {
        MarketplaceListingView {
            id: self.id@,
            events: self.root@,
            seller_owns_listed_token: self.seller_owns_listed_token,
            fee_schedule: self.fee_schedule,
            settlement_atomic: self.settlement_atomic,
            geo_restricted_jurisdictions: text::texts(self.geo_restricted_jurisdictions@),
        }
    }
}

impl MarketplaceListingView {
    /// The message where the seller does not own the token.
    pub open spec fn ownership_fault(self) -> Option<Seq<char>> {
        if !self.seller_owns_listed_token {
            Some(
                "marketplace listing '"@ + self.id
                    + "' seller does not own the listed token; the seller must own the listed token at listing and at settlement"@,
            )
        } else {
            None
        }
    }

    /// The message where the fee split is not the mandated one.
    pub open spec fn fee_fault(self) -> Option<Seq<char>> {
        if !self.fee_schedule.is_canonical() {
            Some(
                "marketplace listing '"@ + self.id
                    + "' fee schedule does not apply the mandated 5% split (2.5% treasury / 1.5% reward pool / 1% burn)"@,
            )
        } else {
            None
        }
    }

    /// The message where settlement is not atomic.
    pub open spec fn atomicity_fault(self) -> Option<Seq<char>> {
        if !self.settlement_atomic {
            Some(
                "marketplace listing '"@ + self.id
                    + "' settlement is not atomic; a trade settles atomically - token transfer and fee split succeed or fail together"@,
            )
        } else {
            None
        }
    }

    /// The message where a jurisdiction is restricted.
    pub open spec fn jurisdiction_fault(self, jurisdiction: Seq<char>) -> Option<Seq<char>> {
        if self.geo_restricted_jurisdictions.contains(jurisdiction) {
            Some(
                "marketplace listing '"@ + self.id + "' jurisdiction '"@ + jurisdiction
                    + "' is geo-restricted; listings and purchases are blocked for geo-restricted jurisdictions"@,
            )
        } else {
            None
        }
    }

    /// The message of the first rule that refuses a [`CreateListingCmd`], if one does.
    pub open spec fn create_listing_fault(
        self,
        cmd: CreateListingCmdView,
    ) -> Option<Seq<char>> {
        if text::is_blank_text(cmd.seller_id) {
            Some(
                "marketplace listing '"@ + self.id
                    + "' requires a valid sellerId to create a listing"@,
            )
        } else if text::is_blank_text(cmd.token_id) {
            Some(
                "marketplace listing '"@ + self.id
                    + "' requires a valid tokenId to create a listing"@,
            )
        } else if cmd.price == 0 {
            Some(
                "marketplace listing '"@ + self.id
                    + "' requires a positive price to create a listing"@,
            )
        } else if text::is_blank_text(cmd.jurisdiction) {
            Some(
                "marketplace listing '"@ + self.id
                    + "' requires a valid jurisdiction to create a listing"@,
            )
        } else {
            shared::first(
                self.ownership_fault(),
                shared::first(
                    self.fee_fault(),
                    shared::first(
                        self.atomicity_fault(),
                        self.jurisdiction_fault(cmd.jurisdiction),
                    ),
                ),
            )
        }
    }

    /// The state after a [`CreateListingCmd`], and the answer to it.
    pub open spec fn create_listing(self, cmd: CreateListingCmdView) -> (
        MarketplaceListingView,
        Reply<EventView>,
    ) {
        match self.create_listing_fault(cmd) {
            Some(message) => (self, shared::violation(message)),
            None => {
                let event = EventView::ListingCreated(ListingCreatedView {
                    seller_id: cmd.seller_id,
                    token_id: cmd.token_id,
                    price: cmd.price,
                    jurisdiction: cmd.jurisdiction,
                    fee_schedule: self.fee_schedule,
                });
                (MarketplaceListingView { events: self.events.push(event), ..self }, Ok(seq![event]))
            },
        }
    }

    /// The message of the first rule that refuses a [`CancelListingCmd`], if one does.
    pub open spec fn cancel_listing_fault(
        self,
        cmd: CancelListingCmdView,
    ) -> Option<Seq<char>> {
        if text::is_blank_text(cmd.listing_id) {
            Some(
                "marketplace listing '"@ + self.id
                    + "' requires a valid listingId to cancel a listing"@,
            )
        } else if text::is_blank_text(cmd.jurisdiction) {
            Some(
                "marketplace listing '"@ + self.id
                    + "' requires a valid jurisdiction to cancel a listing"@,
            )
        } else {
            shared::first(
                self.ownership_fault(),
                shared::first(
                    self.fee_fault(),
                    shared::first(
                        self.atomicity_fault(),
                        self.jurisdiction_fault(cmd.jurisdiction),
                    ),
                ),
            )
        }
    }

    /// The state after a [`CancelListingCmd`], and the answer to it.
    pub open spec fn cancel_listing(self, cmd: CancelListingCmdView) -> (
        MarketplaceListingView,
        Reply<EventView>,
    ) {
        match self.cancel_listing_fault(cmd) {
            Some(message) => (self, shared::violation(message)),
            None => {
                let event = EventView::ListingCancelled(ListingCancelledView {
                    listing_id: cmd.listing_id,
                    jurisdiction: cmd.jurisdiction,
                });
                (MarketplaceListingView { events: self.events.push(event), ..self }, Ok(seq![event]))
            },
        }
    }

    /// The message of the first rule that refuses a [`PurchaseListingCmd`], if one does.
    pub open spec fn purchase_listing_fault(
        self,
        cmd: PurchaseListingCmdView,
    ) -> Option<Seq<char>> {
        if text::is_blank_text(cmd.listing_id) {
            Some(
                "marketplace listing '"@ + self.id
                    + "' requires a valid listingId to purchase a listing"@,
            )
        } else if text::is_blank_text(cmd.buyer_id) {
            Some(
                "marketplace listing '"@ + self.id
                    + "' requires a valid buyerId to purchase a listing"@,
            )
        } else if text::is_blank_text(cmd.jurisdiction) {
            Some(
                "marketplace listing '"@ + self.id
                    + "' requires a valid jurisdiction to purchase a listing"@,
            )
        } else if cmd.listing_id != self.id {
            Some(
                "command targets marketplace listing '"@ + cmd.listing_id
                    + "' but this aggregate is marketplace listing '"@ + self.id + "'"@,
            )
        } else {
            shared::first(
                self.ownership_fault(),
                shared::first(
                    self.fee_fault(),
                    shared::first(
                        self.atomicity_fault(),
                        self.jurisdiction_fault(cmd.jurisdiction),
                    ),
                ),
            )
        }
    }

    /// The state after a [`PurchaseListingCmd`], and the answer to it.
    pub open spec fn purchase_listing(self, cmd: PurchaseListingCmdView) -> (
        MarketplaceListingView,
        Reply<EventView>,
    ) {
        match self.purchase_listing_fault(cmd) {
            Some(message) => (self, shared::violation(message)),
            None => {
                let event = EventView::ListingPurchased(ListingPurchasedView {
                    listing_id: cmd.listing_id,
                    buyer_id: cmd.buyer_id,
                    jurisdiction: cmd.jurisdiction,
                    fee_schedule: self.fee_schedule,
                });
                (MarketplaceListingView { events: self.events.push(event), ..self }, Ok(seq![event]))
            },
        }
    }

    /// The state after a command, and the answer to it.
    pub open spec fn execute(self, command: CommandView<PayloadView<RequestView>>) -> (
        MarketplaceListingView,
        Reply<EventView>,
    ) {
        if command.name == CreateListingCmd::COMMAND@ {
            match command.payload {
                PayloadView::Decoded(RequestView::CreateListingCmd(cmd)) => {
                    self.create_listing(cmd)
                },
                PayloadView::Decoded(_) => (
                    self,
                    shared::malformed_reply(CreateListingCmd::COMMAND@, OTHER_COMMAND@),
                ),
                PayloadView::Malformed(complaint) => (
                    self,
                    shared::malformed_reply(CreateListingCmd::COMMAND@, complaint),
                ),
            }
        } else if command.name == CancelListingCmd::COMMAND@ {
            match command.payload {
                PayloadView::Decoded(RequestView::CancelListingCmd(cmd)) => {
                    self.cancel_listing(cmd)
                },
                PayloadView::Decoded(_) => (
                    self,
                    shared::malformed_reply(CancelListingCmd::COMMAND@, OTHER_COMMAND@),
                ),
                PayloadView::Malformed(complaint) => (
                    self,
                    shared::malformed_reply(CancelListingCmd::COMMAND@, complaint),
                ),
            }
        } else if command.name == PurchaseListingCmd::COMMAND@ {
            match command.payload {
                PayloadView::Decoded(RequestView::PurchaseListingCmd(cmd)) => {
                    self.purchase_listing(cmd)
                },
                PayloadView::Decoded(_) => (
                    self,
                    shared::malformed_reply(PurchaseListingCmd::COMMAND@, OTHER_COMMAND@),
                ),
                PayloadView::Malformed(complaint) => (
                    self,
                    shared::malformed_reply(PurchaseListingCmd::COMMAND@, complaint),
                ),
            }
        } else {
            (self, shared::unknown(AGGREGATE_TYPE@, command.name))
        }
    }
}

impl MarketplaceListing {
    /// The name of the aggregate type.
    pub fn aggregate_type() -> (r: &'static str)
        ensures
            r@ == AGGREGATE_TYPE@,
    {
        AGGREGATE_TYPE
    }

    /// Creates a listing-ready aggregate identified by `id`: the seller owns the
    /// listed token, the canonical 5% fee split applies, settlement is atomic, and
    /// no jurisdictions are geo-restricted.
    pub fn new(id: &str) -> (r: Self)
        ensures
            r@ == (MarketplaceListingView {
                id: id@,
                events: Seq::empty(),
                seller_owns_listed_token: true,
                fee_schedule: FeeSchedule::spec_canonical(),
                settlement_atomic: true,
                geo_restricted_jurisdictions: Seq::empty(),
            }),
    {
        proof {
            assert(text::texts(Seq::empty()) =~= Seq::<Seq<char>>::empty());
        }
        MarketplaceListing {
            id: id.to_owned(),
            root: AggregateRoot::new(),
            seller_owns_listed_token: true,
            fee_schedule: FeeSchedule::canonical(),
            settlement_atomic: true,
            geo_restricted_jurisdictions: Vec::new(),
        }
    }

    /// This aggregate's identity.
    pub fn id(&self) -> (r: &str)
        ensures
            r@ == self@.id,
    {
        self.id.as_str()
    }

    /// The version: the number of events recorded.
    pub fn version(&self) -> (r: u64)
        ensures
            r == self@.events.len(),
    {
        self.root.version()
    }

    /// The events recorded and not yet persisted.
    pub fn uncommitted_events(&self) -> (r: &[Event])
        ensures
            shared::views(r@) == self@.events,
    {
        self.root.uncommitted_events()
    }

    /// Ownership invariant: the seller must own the listed token at listing and at
    /// settlement.
    fn ensure_seller_owns_listed_token(&self) -> (r: Result<(), DomainError>)
        ensures
            shared::broken(r) == shared::owed(self@.ownership_fault()),
    {
        if !self.seller_owns_listed_token {
            return shared::refuse(
                text::cat3(
                    "marketplace listing '", &self.id,
                    "' seller does not own the listed token; the seller must own the listed token at listing and at settlement",
                ),
            );
        }
        Ok(())
    }

    /// Fee-split invariant: every settled trade applies the 5% fee split of 2.5%
    /// treasury / 1.5% reward pool / 1% burn.
    fn ensure_canonical_fee_split(&self) -> (r: Result<(), DomainError>)
        ensures
            shared::broken(r) == shared::owed(self@.fee_fault()),
    {
        if !self.fee_schedule.is_canonical() {
            return shared::refuse(
                text::cat3(
                    "marketplace listing '", &self.id,
                    "' fee schedule does not apply the mandated 5% split (2.5% treasury / 1.5% reward pool / 1% burn)",
                ),
            );
        }
        Ok(())
    }

    /// Atomicity invariant: a trade settles atomically - token transfer and fee
    /// split succeed or fail together.
    fn ensure_settlement_atomic(&self) -> (r: Result<(), DomainError>)
        ensures
            shared::broken(r) == shared::owed(self@.atomicity_fault()),
    {
        if !self.settlement_atomic {
            return shared::refuse(
                text::cat3(
                    "marketplace listing '", &self.id,
                    "' settlement is not atomic; a trade settles atomically - token transfer and fee split succeed or fail together",
                ),
            );
        }
        Ok(())
    }

    /// Jurisdiction invariant: listings and purchases are blocked for
    /// geo-restricted jurisdictions.
    fn ensure_jurisdiction_allowed(&self, jurisdiction: &str) -> (r: Result<(), DomainError>)
        ensures
            shared::broken(r) == shared::owed(self@.jurisdiction_fault(jurisdiction@)),
    {
        if text::holds(&self.geo_restricted_jurisdictions, jurisdiction) {
            return shared::refuse(
                text::cat5(
                    "marketplace listing '", &self.id, "' jurisdiction '", jurisdiction,
                    "' is geo-restricted; listings and purchases are blocked for geo-restricted jurisdictions",
                ),
            );
        }
        Ok(())
    }

    /// Handles a listing: the command must carry a seller, a token, a positive
    /// price and a jurisdiction, and the four invariants must hold.
    fn create_listing(&mut self, cmd: CreateListingCmd) -> (r: Result<
        Vec<Event>,
        DomainError,
    >)
        ensures
            final(self)@ == old(self)@.create_listing(cmd@).0,
            shared::reply(r) == old(self)@.create_listing(cmd@).1,
    {
        if text::is_blank(&cmd.seller_id) {
            return shared::refuse(
                text::cat3(
                    "marketplace listing '", &self.id,
                    "' requires a valid sellerId to create a listing",
                ),
            );
        }
        if text::is_blank(&cmd.token_id) {
            return shared::refuse(
                text::cat3(
                    "marketplace listing '", &self.id,
                    "' requires a valid tokenId to create a listing",
                ),
            );
        }
        if cmd.price == 0 {
            return shared::refuse(
                text::cat3(
                    "marketplace listing '", &self.id,
                    "' requires a positive price to create a listing",
                ),
            );
        }
        if text::is_blank(&cmd.jurisdiction) {
            return shared::refuse(
                text::cat3(
                    "marketplace listing '", &self.id,
                    "' requires a valid jurisdiction to create a listing",
                ),
            );
        }
        if let Err(error) = self.ensure_seller_owns_listed_token() {
            return Err(error);
        }
        if let Err(error) = self.ensure_canonical_fee_split() {
            return Err(error);
        }
        if let Err(error) = self.ensure_settlement_atomic() {
            return Err(error);
        }
        if let Err(error) = self.ensure_jurisdiction_allowed(cmd.jurisdiction.as_str()) {
            return Err(error);
        }
        let event = Event::ListingCreated(
            ListingCreated {
                seller_id: cmd.seller_id,
                token_id: cmd.token_id,
                price: cmd.price,
                jurisdiction: cmd.jurisdiction,
                fee_schedule: self.fee_schedule,
            },
        );
        self.root.record(event.clone());
        Ok(shared::only(event))
    }

    /// Handles a cancellation: the command must carry a listing and a jurisdiction,
    /// and the four invariants must hold.
    fn cancel_listing(&mut self, cmd: CancelListingCmd) -> (r: Result<
        Vec<Event>,
        DomainError,
    >)
        ensures
            final(self)@ == old(self)@.cancel_listing(cmd@).0,
            shared::reply(r) == old(self)@.cancel_listing(cmd@).1,
    {
        if text::is_blank(&cmd.listing_id) {
            return shared::refuse(
                text::cat3(
                    "marketplace listing '", &self.id,
                    "' requires a valid listingId to cancel a listing",
                ),
            );
        }
        if text::is_blank(&cmd.jurisdiction) {
            return shared::refuse(
                text::cat3(
                    "marketplace listing '", &self.id,
                    "' requires a valid jurisdiction to cancel a listing",
                ),
            );
        }
        if let Err(error) = self.ensure_seller_owns_listed_token() {
            return Err(error);
        }
        if let Err(error) = self.ensure_canonical_fee_split() {
            return Err(error);
        }
        if let Err(error) = self.ensure_settlement_atomic() {
            return Err(error);
        }
        if let Err(error) = self.ensure_jurisdiction_allowed(cmd.jurisdiction.as_str()) {
            return Err(error);
        }
        let event = Event::ListingCancelled(
            ListingCancelled {
                listing_id: cmd.listing_id,
                jurisdiction: cmd.jurisdiction,
            },
        );
        self.root.record(event.clone());
        Ok(shared::only(event))
    }

    /// Handles a purchase: the command must carry this listing, a buyer and a
    /// jurisdiction, and the four invariants must hold at settlement.
    fn purchase_listing(&mut self, cmd: PurchaseListingCmd) -> (r: Result<
        Vec<Event>,
        DomainError,
    >)
        ensures
            final(self)@ == old(self)@.purchase_listing(cmd@).0,
            shared::reply(r) == old(self)@.purchase_listing(cmd@).1,
    {
        if text::is_blank(&cmd.listing_id) {
            return shared::refuse(
                text::cat3(
                    "marketplace listing '", &self.id,
                    "' requires a valid listingId to purchase a listing",
                ),
            );
        }
        if text::is_blank(&cmd.buyer_id) {
            return shared::refuse(
                text::cat3(
                    "marketplace listing '", &self.id,
                    "' requires a valid buyerId to purchase a listing",
                ),
            );
        }
        if text::is_blank(&cmd.jurisdiction) {
            return shared::refuse(
                text::cat3(
                    "marketplace listing '", &self.id,
                    "' requires a valid jurisdiction to purchase a listing",
                ),
            );
        }
        if !text::same(&cmd.listing_id, &self.id) {
            return shared::refuse(
                text::cat5(
                    "command targets marketplace listing '", &cmd.listing_id,
                    "' but this aggregate is marketplace listing '", &self.id, "'",
                ),
            );
        }
        if let Err(error) = self.ensure_seller_owns_listed_token() {
            return Err(error);
        }
        if let Err(error) = self.ensure_canonical_fee_split() {
            return Err(error);
        }
        if let Err(error) = self.ensure_settlement_atomic() {
            return Err(error);
        }
        if let Err(error) = self.ensure_jurisdiction_allowed(cmd.jurisdiction.as_str()) {
            return Err(error);
        }
        let event = Event::ListingPurchased(
            ListingPurchased {
                listing_id: cmd.listing_id,
                buyer_id: cmd.buyer_id,
                jurisdiction: cmd.jurisdiction,
                fee_schedule: self.fee_schedule,
            },
        );
        self.root.record(event.clone());
        Ok(shared::only(event))
    }

    /// Carries out a command, or says why it is refused.
    pub fn execute(&mut self, command: Command<Payload<Request>>) -> (r: Result<
        Vec<Event>,
        DomainError,
    >)
        ensures
            final(self)@ == old(self)@.execute(command@).0,
            shared::reply(r) == old(self)@.execute(command@).1,
    {
        if text::same(&command.name, CreateListingCmd::COMMAND) {
            match command.payload {
                Payload::Decoded(Request::CreateListingCmd(cmd)) => self.create_listing(cmd),
                Payload::Decoded(_) => shared::malformed(CreateListingCmd::COMMAND, OTHER_COMMAND),
                Payload::Malformed(complaint) => {
                    shared::malformed(CreateListingCmd::COMMAND, &complaint)
                },
            }
        } else if text::same(&command.name, CancelListingCmd::COMMAND) {
            match command.payload {
                Payload::Decoded(Request::CancelListingCmd(cmd)) => self.cancel_listing(cmd),
                Payload::Decoded(_) => shared::malformed(CancelListingCmd::COMMAND, OTHER_COMMAND),
                Payload::Malformed(complaint) => {
                    shared::malformed(CancelListingCmd::COMMAND, &complaint)
                },
            }
        } else if text::same(&command.name, PurchaseListingCmd::COMMAND) {
            match command.payload {
                Payload::Decoded(Request::PurchaseListingCmd(cmd)) => self.purchase_listing(cmd),
                Payload::Decoded(_) => {
                    shared::malformed(PurchaseListingCmd::COMMAND, OTHER_COMMAND)
                },
                Payload::Malformed(complaint) => {
                    shared::malformed(PurchaseListingCmd::COMMAND, &complaint)
                },
            }
        } else {
            Err(DomainError::unknown_command(AGGREGATE_TYPE, command.name))
        }
    }

    /// Records whether the seller owns the listed token.
    pub fn set_seller_owns_listed_token(&mut self, owns: bool)
        ensures
            final(self)@ == (MarketplaceListingView {
                seller_owns_listed_token: owns,
                ..old(self)@
            }),
    {
        self.seller_owns_listed_token = owns;
    }

    /// Sets the fee schedule a settled trade applies.
    pub fn set_fee_schedule(&mut self, fee_schedule: FeeSchedule)
        ensures
            final(self)@ == (MarketplaceListingView {
                fee_schedule: fee_schedule,
                ..old(self)@
            }),
    {
        self.fee_schedule = fee_schedule;
    }

    /// Records whether settlement is atomic.
    pub fn set_settlement_atomic(&mut self, atomic: bool)
        ensures
            final(self)@ == (MarketplaceListingView {
                settlement_atomic: atomic,
                ..old(self)@
            }),
    {
        self.settlement_atomic = atomic;
    }

    /// Marks a jurisdiction as geo-restricted, blocking listings and purchases
    /// that originate from it.
    pub fn restrict_jurisdiction(&mut self, jurisdiction: &str)
        ensures
            final(self)@ == (MarketplaceListingView {
                geo_restricted_jurisdictions: old(self)@.geo_restricted_jurisdictions.push(
                    jurisdiction@,
                ),
                ..old(self)@
            }),
    {
        self.geo_restricted_jurisdictions.push(jurisdiction.to_owned());
        assert(self@.geo_restricted_jurisdictions
            =~= old(self)@.geo_restricted_jurisdictions.push(jurisdiction@));
    }
}

/// The repository port of the [`MarketplaceListing`] aggregate: an adapter implements
/// [`Repository`] for it and then this marker.
pub trait MarketplaceListingRepository: Repository<MarketplaceListing> {

}

/// The canonical fees add up to 5% of the price, and they are what a schedule has
/// to be to be canonical.
pub proof fn law_canonical_fees(fees: FeeSchedule)
    requires
        fees.spec_is_canonical(),
    ensures
        fees.treasury_bps == 250,
        fees.reward_pool_bps == 150,
        fees.burn_bps == 100,
        fees.treasury_bps + fees.reward_pool_bps + fees.burn_bps == 500,
{
}

impl MarketplaceListingView {
    /// A refused command changes nothing: neither the state nor the events.
    pub proof fn law_refusal_changes_nothing(
        self,
        command: CommandView<PayloadView<RequestView>>,
    )
        ensures
            self.execute(command).1 is Err ==> self.execute(command).0 == self,
    {
    }

    /// An accepted command records exactly the events it answers with, behind
    /// those recorded before.
    pub proof fn law_events_are_recorded(self, command: CommandView<PayloadView<RequestView>>)
        ensures
            self.execute(command).1 matches Ok(events) ==> {
                &&& events.len() == 1
                &&& self.execute(command).0.events == self.events + events
            },
    {
        if let Ok(events) = self.execute(command).1 {
            assert(self.execute(command).0.events =~= self.events + events);
        }
    }

    /// Every settled trade applies the canonical fee split, from a jurisdiction
    /// that is not restricted, for a token that its seller owns, atomically.
    pub proof fn law_settled_trades_are_lawful(self, cmd: PurchaseListingCmdView)
        ensures
            self.purchase_listing(cmd).1 matches Ok(events) ==> {
                &&& events[0] matches EventView::ListingPurchased(trade)
                &&& trade.fee_schedule.spec_is_canonical()
                &&& trade.listing_id == self.id
                &&& !self.geo_restricted_jurisdictions.contains(trade.jurisdiction)
                &&& self.seller_owns_listed_token
                &&& self.settlement_atomic
            },
    {
    }

    /// A token is listed exactly where the command names a seller, a token, a
    /// positive price and a jurisdiction, and the invariants hold.
    pub proof fn law_listing_is_owed(self, cmd: CreateListingCmdView)
        ensures
            self.create_listing(cmd).1 is Ok <==> {
                &&& !text::is_blank_text(cmd.seller_id)
                &&& !text::is_blank_text(cmd.token_id)
                &&& !text::is_blank_text(cmd.jurisdiction)
                &&& cmd.price > 0
                &&& self.seller_owns_listed_token
                &&& self.fee_schedule.spec_is_canonical()
                &&& self.settlement_atomic
                &&& !self.geo_restricted_jurisdictions.contains(cmd.jurisdiction)
            },
    {
    }

    /// A listing is withdrawn exactly where the command names a listing and a
    /// jurisdiction, and the invariants hold.
    pub proof fn law_cancellation_is_owed(self, cmd: CancelListingCmdView)
        ensures
            self.cancel_listing(cmd).1 is Ok <==> {
                &&& !text::is_blank_text(cmd.listing_id)
                &&& !text::is_blank_text(cmd.jurisdiction)
                &&& self.seller_owns_listed_token
                &&& self.fee_schedule.spec_is_canonical()
                &&& self.settlement_atomic
                &&& !self.geo_restricted_jurisdictions.contains(cmd.jurisdiction)
            },
    {
    }

    /// A token is bought exactly where the command names this listing, a buyer and
    /// a jurisdiction, and the invariants hold.
    pub proof fn law_purchase_is_owed(self, cmd: PurchaseListingCmdView)
        ensures
            self.purchase_listing(cmd).1 is Ok <==> {
                &&& cmd.listing_id == self.id
                &&& !text::is_blank_text(cmd.listing_id)
                &&& !text::is_blank_text(cmd.buyer_id)
                &&& !text::is_blank_text(cmd.jurisdiction)
                &&& self.seller_owns_listed_token
                &&& self.fee_schedule.spec_is_canonical()
                &&& self.settlement_atomic
                &&& !self.geo_restricted_jurisdictions.contains(cmd.jurisdiction)
            },
    {
    }

    /// A restricted jurisdiction blocks every command that comes from it.
    pub proof fn law_restriction_blocks(
        self,
        create: CreateListingCmdView,
        cancel: CancelListingCmdView,
        purchase: PurchaseListingCmdView,
    )
        ensures
            self.geo_restricted_jurisdictions.contains(create.jurisdiction)
                ==> self.create_listing(create).1 is Err,
            self.geo_restricted_jurisdictions.contains(cancel.jurisdiction)
                ==> self.cancel_listing(cancel).1 is Err,
            self.geo_restricted_jurisdictions.contains(purchase.jurisdiction)
                ==> self.purchase_listing(purchase).1 is Err,
    {
    }
}

impl MarketplaceListingView {
    /// Every command goes to its own handler, a payload that does not read is
    /// refused with the complaint about it, and a name that is none of these is
    /// unknown; what is refused otherwise is refused for a broken rule.
    pub proof fn law_commands_are_routed(self, command: CommandView<PayloadView<RequestView>>)
        ensures
            command.name == "CreateListingCmd"@ ==> match command.payload {
                PayloadView::Decoded(RequestView::CreateListingCmd(cmd)) => self.execute(command)
                    == self.create_listing(cmd),
                PayloadView::Decoded(_) => self.execute(command).1 is Err,
                PayloadView::Malformed(complaint) => self.execute(command).1 == shared::violation::<
                    EventView,
                >("malformed "@ + "CreateListingCmd"@ + " payload: "@ + complaint),
            },
            command.name == "CancelListingCmd"@ ==> match command.payload {
                PayloadView::Decoded(RequestView::CancelListingCmd(cmd)) => self.execute(command)
                    == self.cancel_listing(cmd),
                PayloadView::Decoded(_) => self.execute(command).1 is Err,
                PayloadView::Malformed(complaint) => self.execute(command).1 == shared::violation::<
                    EventView,
                >("malformed "@ + "CancelListingCmd"@ + " payload: "@ + complaint),
            },
            command.name == "PurchaseListingCmd"@ ==> match command.payload {
                PayloadView::Decoded(RequestView::PurchaseListingCmd(cmd)) => self.execute(command)
                    == self.purchase_listing(cmd),
                PayloadView::Decoded(_) => self.execute(command).1 is Err,
                PayloadView::Malformed(complaint) => self.execute(command).1 == shared::violation::<
                    EventView,
                >("malformed "@ + "PurchaseListingCmd"@ + " payload: "@ + complaint),
            },
            ({
                &&& command.name != "CreateListingCmd"@
                &&& command.name != "CancelListingCmd"@
                &&& command.name != "PurchaseListingCmd"@
            }) ==> self.execute(command).1 == Err::<
                Seq<EventView>,
                shared::DomainErrorView,
            >(
                shared::DomainErrorView::UnknownCommand {
                    aggregate: "MarketplaceListing"@,
                    command: command.name,
                },
            ),
            self.execute(command).1 matches Err(error) ==> (error is InvariantViolation <==> {
                ||| command.name == "CreateListingCmd"@
                ||| command.name == "CancelListingCmd"@
                ||| command.name == "PurchaseListingCmd"@
            }),
    {
        reveal_strlit("CreateListingCmd");
        reveal_strlit("CancelListingCmd");
        reveal_strlit("PurchaseListingCmd");
        assert("CreateListingCmd"@[1] == 'r');
        assert("CancelListingCmd"@[1] == 'a');
        assert("CreateListingCmd"@.len() == 16);
        assert("PurchaseListingCmd"@.len() == 18);
        assert("CancelListingCmd"@.len() == 16);
    }

    /// A listing records the seller, the token, the price and the jurisdiction that
    /// were submitted, with the fees of the listing; nothing else changes.
    pub proof fn law_listing_records_the_offer(self, cmd: CreateListingCmdView)
        requires
            self.create_listing(cmd).1 is Ok,
        ensures
            ({
                let after = self.create_listing(cmd).0;
                &&& self.create_listing(cmd).1 matches Ok(events)
                &&& events.len() == 1
                &&& events[0].event_type() == "listing.created"@
                &&& events[0] matches EventView::ListingCreated(said)
                &&& said.seller_id == cmd.seller_id
                &&& said.token_id == cmd.token_id
                &&& said.price == cmd.price
                &&& said.jurisdiction == cmd.jurisdiction
                &&& said.fee_schedule == self.fee_schedule
                &&& said.fee_schedule.treasury_bps == 250
                &&& said.fee_schedule.reward_pool_bps == 150
                &&& said.fee_schedule.burn_bps == 100
                &&& after == (MarketplaceListingView {
                    events: self.events.push(events[0]),
                    ..self
                })
            }),
    {
    }

    /// A cancellation records the listing and the jurisdiction that were submitted;
    /// nothing else changes.
    pub proof fn law_cancellation_records_the_listing(self, cmd: CancelListingCmdView)
        requires
            self.cancel_listing(cmd).1 is Ok,
        ensures
            ({
                let after = self.cancel_listing(cmd).0;
                &&& self.cancel_listing(cmd).1 matches Ok(events)
                &&& events.len() == 1
                &&& events[0].event_type() == "listing.cancelled"@
                &&& events[0] matches EventView::ListingCancelled(said)
                &&& said.listing_id == cmd.listing_id
                &&& said.jurisdiction == cmd.jurisdiction
                &&& after == (MarketplaceListingView {
                    events: self.events.push(events[0]),
                    ..self
                })
            }),
    {
    }

    /// A purchase records the listing, the buyer and the jurisdiction that were
    /// submitted, with the fees of the listing; nothing else changes.
    pub proof fn law_purchase_records_the_trade(self, cmd: PurchaseListingCmdView)
        requires
            self.purchase_listing(cmd).1 is Ok,
        ensures
            ({
                let after = self.purchase_listing(cmd).0;
                &&& self.purchase_listing(cmd).1 matches Ok(events)
                &&& events.len() == 1
                &&& events[0].event_type() == "listing.purchased"@
                &&& events[0] matches EventView::ListingPurchased(said)
                &&& said.listing_id == cmd.listing_id
                &&& said.buyer_id == cmd.buyer_id
                &&& said.jurisdiction == cmd.jurisdiction
                &&& said.fee_schedule == self.fee_schedule
                &&& said.fee_schedule.treasury_bps == 250
                &&& said.fee_schedule.reward_pool_bps == 150
                &&& said.fee_schedule.burn_bps == 100
                &&& after == (MarketplaceListingView {
                    events: self.events.push(events[0]),
                    ..self
                })
            }),
    {
    }
}

impl CreateListingCmd {
    /// The view leaves nothing out: where two views agree, so does every field.
    pub proof fn law_view_leaves_nothing_out(self, other: CreateListingCmd)
        requires
            self@ == other@,
        ensures
            self.seller_id@ == other.seller_id@,
            self.token_id@ == other.token_id@,
            self.price == other.price,
            self.jurisdiction@ == other.jurisdiction@,
    {
    }
}

impl CancelListingCmd {
    /// The view leaves nothing out: where two views agree, so does every field.
    pub proof fn law_view_leaves_nothing_out(self, other: CancelListingCmd)
        requires
            self@ == other@,
        ensures
            self.listing_id@ == other.listing_id@,
            self.jurisdiction@ == other.jurisdiction@,
    {
    }
}

impl PurchaseListingCmd {
    /// The view leaves nothing out: where two views agree, so does every field.
    pub proof fn law_view_leaves_nothing_out(self, other: PurchaseListingCmd)
        requires
            self@ == other@,
        ensures
            self.listing_id@ == other.listing_id@,
            self.buyer_id@ == other.buyer_id@,
            self.jurisdiction@ == other.jurisdiction@,
    {
    }
}

impl ListingCreated {
    /// The view leaves nothing out: where two views agree, so does every field.
    pub proof fn law_view_leaves_nothing_out(self, other: ListingCreated)
        requires
            self@ == other@,
        ensures
            self.seller_id@ == other.seller_id@,
            self.token_id@ == other.token_id@,
            self.price == other.price,
            self.jurisdiction@ == other.jurisdiction@,
            self.fee_schedule == other.fee_schedule,
    {
    }
}

impl ListingCancelled {
    /// The view leaves nothing out: where two views agree, so does every field.
    pub proof fn law_view_leaves_nothing_out(self, other: ListingCancelled)
        requires
            self@ == other@,
        ensures
            self.listing_id@ == other.listing_id@,
            self.jurisdiction@ == other.jurisdiction@,
    {
    }
}

impl ListingPurchased {
    /// The view leaves nothing out: where two views agree, so does every field.
    pub proof fn law_view_leaves_nothing_out(self, other: ListingPurchased)
        requires
            self@ == other@,
        ensures
            self.listing_id@ == other.listing_id@,
            self.buyer_id@ == other.buyer_id@,
            self.jurisdiction@ == other.jurisdiction@,
            self.fee_schedule == other.fee_schedule,
    {
    }
}

impl Event {
    /// The view leaves nothing out: where two views agree, so do the variants and
    /// what they carry.
    pub proof fn law_view_leaves_nothing_out(self, other: Event)
        requires
            self@ == other@,
        ensures
            match (self, other) {
                (Event::ListingCreated(a), Event::ListingCreated(b)) => a@ == b@,
                (Event::ListingCancelled(a), Event::ListingCancelled(b)) => a@ == b@,
                (Event::ListingPurchased(a), Event::ListingPurchased(b)) => a@ == b@,
                _ => false,
            },
    {
    }
}

impl Request {
    /// The view leaves nothing out: where two views agree, so do the variants and
    /// what they carry.
    pub proof fn law_view_leaves_nothing_out(self, other: Request)
        requires
            self@ == other@,
        ensures
            match (self, other) {
                (Request::CreateListingCmd(a), Request::CreateListingCmd(b)) => a@ == b@,
                (Request::CancelListingCmd(a), Request::CancelListingCmd(b)) => a@ == b@,
                (Request::PurchaseListingCmd(a), Request::PurchaseListingCmd(b)) => a@ == b@,
                _ => false,
            },
    {
    }
}

} // verus!
