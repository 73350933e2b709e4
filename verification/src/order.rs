//! Purchases in the shop.
//!
//! An [`Order`] is a single storefront purchase whose payment settles through
//! Stripe. Five invariants govern an order:
//!
//! 1. **Fiat via Stripe only** — an Order may never settle in the in-game `$MADE`
//!    soft currency.
//! 2. **Total equals line items** — the order total must equal the sum of its
//!    line items.
//! 3. **HMAC-verified webhook** — fulfillment occurs only after payment is
//!    confirmed via an HMAC-verified Stripe webhook.
//! 4. **Idempotent per payment intent** — a payment intent already processed may
//!    not be confirmed a second time (no double-fulfillment).
//! 5. **Refund reverses exactly** — a refund reverses exactly the entitlements
//!    the order granted.
use crate::shared;
use crate::shared::AggregateRoot;
use crate::shared::Command;
use crate::shared::CommandView;
use crate::shared::DomainError;
use crate::shared::DomainErrorView;
use crate::shared::Payload;
use crate::shared::PayloadView;
use crate::shared::Reply;
use crate::shared::Repository;
use crate::shared::OTHER_COMMAND;
use crate::text;
use vstd::prelude::*;

verus! {

/// The name of the aggregate type, as errors show it.
pub const AGGREGATE_TYPE: &'static str = "Order";

/// The in-game currency, in which an order may never settle.
pub const MADE: &'static str = "$MADE";

/// The `CreateOrderCmd` payload: opens a fiat order for `player_id` from a cart
/// of SKUs (`line_items`) settling in `currency`. Field names use the payments
/// service's `camelCase` schema.
#[derive(Debug, PartialEq, Eq)]
pub struct CreateOrder {
    /// The Order being opened; must name this Order, and must be non-empty.
    pub order_id: String,
    /// The player the order is opened for; must be non-empty.
    pub player_id: String,
    /// The cart of SKUs the order is composed of; must be non-empty.
    pub line_items: Vec<String>,
    /// The settlement currency; must be non-empty (and, per the invariants, fiat
    /// via Stripe rather than the in-game `$MADE` currency).
    pub currency: String,
}

/// What a [`CreateOrder`] says.
#[verifier::ext_equal]
pub struct CreateOrderView {
    pub order_id: Seq<char>,
    pub player_id: Seq<char>,
    pub line_items: Seq<Seq<char>>,
    pub currency: Seq<char>,
}

impl View for CreateOrder {
    type V = CreateOrderView;

    open spec fn view(&self) -> CreateOrderView {
        CreateOrderView {
            order_id: self.order_id@,
            player_id: self.player_id@,
            line_items: text::texts(self.line_items@),
            currency: self.currency@,
        }
    }
}

impl Clone for CreateOrder {
    fn clone(&self) -> (r: Self)
        ensures
            r@ == self@,
    {
        CreateOrder {
            order_id: self.order_id.clone(),
            player_id: self.player_id.clone(),
            line_items: text::copy_all(&self.line_items),
            currency: self.currency.clone(),
        }
    }
}

impl CreateOrder {
    /// The name of the command.
    pub const COMMAND: &'static str = "CreateOrderCmd";

    /// Builds a command opening `order_id` for `player_id` from `line_items`
    /// settling in `currency`.
    pub fn new(
        order_id: &str,
        player_id: &str,
        line_items: Vec<String>,
        currency: &str,
    ) -> (r: Self)
        ensures
            r@ == (CreateOrderView {
                order_id: order_id@,
                player_id: player_id@,
                line_items: text::texts(line_items@),
                currency: currency@,
            }),
    {
        CreateOrder {
            order_id: order_id.to_owned(),
            player_id: player_id.to_owned(),
            line_items: line_items,
            currency: currency.to_owned(),
        }
    }

    /// This request as a command, ready to be executed.
    pub fn into_command(&self) -> (r: Command<Payload<Request>>)
        ensures
            r@ == (CommandView {
                name: Self::COMMAND@,
                payload: PayloadView::Decoded(RequestView::CreateOrder(self@)),
            }),
    {
        let request = Request::CreateOrder(self.clone());
        Command::with_payload(Self::COMMAND, Payload::Decoded(request))
    }
}

/// The `ConfirmPaymentCmd` payload: which Order is being confirmed and the
/// Stripe payment intent reference the confirmation is for. Field names use the
/// payments service's `camelCase` schema.
#[derive(Debug, PartialEq, Eq)]
pub struct ConfirmPayment {
    /// The Order the payment is confirmed for; must name this Order, and must be
    /// non-empty.
    pub order_id: String,
    /// The Stripe payment intent the confirmation is for; must be non-empty.
    pub payment_intent_ref: String,
}

/// What a [`ConfirmPayment`] says.
#[verifier::ext_equal]
pub struct ConfirmPaymentView {
    pub order_id: Seq<char>,
    pub payment_intent_ref: Seq<char>,
}

impl View for ConfirmPayment {
    type V = ConfirmPaymentView;

    open spec fn view(&self) -> ConfirmPaymentView {
        ConfirmPaymentView {
            order_id: self.order_id@,
            payment_intent_ref: self.payment_intent_ref@,
        }
    }
}

impl Clone for ConfirmPayment {
    fn clone(&self) -> (r: Self)
        ensures
            r@ == self@,
    {
        ConfirmPayment {
            order_id: self.order_id.clone(),
            payment_intent_ref: self.payment_intent_ref.clone(),
        }
    }
}

impl ConfirmPayment {
    /// The name of the command.
    pub const COMMAND: &'static str = "ConfirmPaymentCmd";

    /// Builds a command confirming payment for `order_id` via
    /// `payment_intent_ref`.
    pub fn new(order_id: &str, payment_intent_ref: &str) -> (r: Self)
        ensures
            r@ == (ConfirmPaymentView {
                order_id: order_id@,
                payment_intent_ref: payment_intent_ref@,
            }),
    {
        ConfirmPayment {
            order_id: order_id.to_owned(),
            payment_intent_ref: payment_intent_ref.to_owned(),
        }
    }

    /// This request as a command, ready to be executed.
    pub fn into_command(&self) -> (r: Command<Payload<Request>>)
        ensures
            r@ == (CommandView {
                name: Self::COMMAND@,
                payload: PayloadView::Decoded(RequestView::ConfirmPayment(self@)),
            }),
    {
        let request = Request::ConfirmPayment(self.clone());
        Command::with_payload(Self::COMMAND, Payload::Decoded(request))
    }
}

/// The `FulfillOrderCmd` payload: which Order is being fulfilled. Field names
/// use the shop-and-payments service's `camelCase` schema.
#[derive(Debug, PartialEq, Eq)]
pub struct FulfillOrder {
    /// The Order being fulfilled; must name this Order, and must be non-empty.
    pub order_id: String,
}

/// What a [`FulfillOrder`] says.
#[verifier::ext_equal]
pub struct FulfillOrderView {
    pub order_id: Seq<char>,
}

impl View for FulfillOrder {
    type V = FulfillOrderView;

    open spec fn view(&self) -> FulfillOrderView {
        FulfillOrderView {
            order_id: self.order_id@,
        }
    }
}

impl Clone for FulfillOrder {
    fn clone(&self) -> (r: Self)
        ensures
            r@ == self@,
    {
        FulfillOrder {
            order_id: self.order_id.clone(),
        }
    }
}

impl FulfillOrder {
    /// The name of the command.
    pub const COMMAND: &'static str = "FulfillOrderCmd";

    /// Builds a command fulfilling `order_id`.
    pub fn new(order_id: &str) -> (r: Self)
        ensures
            r@ == (FulfillOrderView {
                order_id: order_id@,
            }),
    {
        FulfillOrder {
            order_id: order_id.to_owned(),
        }
    }

    /// This request as a command, ready to be executed.
    pub fn into_command(&self) -> (r: Command<Payload<Request>>)
        ensures
            r@ == (CommandView {
                name: Self::COMMAND@,
                payload: PayloadView::Decoded(RequestView::FulfillOrder(self@)),
            }),
    {
        let request = Request::FulfillOrder(self.clone());
        Command::with_payload(Self::COMMAND, Payload::Decoded(request))
    }
}

/// The `RefundOrderCmd` payload: which Order is being refunded and why the
/// refund is being requested. Field names use the payments service's
/// `camelCase` schema.
#[derive(Debug, PartialEq, Eq)]
pub struct RefundOrder {
    /// The Order being refunded; must name this Order, and must be non-empty.
    pub order_id: String,
    /// The reason for the refund; must be non-empty.
    pub reason: String,
}

/// What a [`RefundOrder`] says.
#[verifier::ext_equal]
pub struct RefundOrderView {
    pub order_id: Seq<char>,
    pub reason: Seq<char>,
}

impl View for RefundOrder {
    type V = RefundOrderView;

    open spec fn view(&self) -> RefundOrderView {
        RefundOrderView {
            order_id: self.order_id@,
            reason: self.reason@,
        }
    }
}

impl Clone for RefundOrder {
    fn clone(&self) -> (r: Self)
        ensures
            r@ == self@,
    {
        RefundOrder {
            order_id: self.order_id.clone(),
            reason: self.reason.clone(),
        }
    }
}

impl RefundOrder {
    /// The name of the command.
    pub const COMMAND: &'static str = "RefundOrderCmd";

    /// Builds a command refunding `order_id` for `reason`.
    pub fn new(order_id: &str, reason: &str) -> (r: Self)
        ensures
            r@ == (RefundOrderView {
                order_id: order_id@,
                reason: reason@,
            }),
    {
        RefundOrder {
            order_id: order_id.to_owned(),
            reason: reason.to_owned(),
        }
    }

    /// This request as a command, ready to be executed.
    pub fn into_command(&self) -> (r: Command<Payload<Request>>)
        ensures
            r@ == (CommandView {
                name: Self::COMMAND@,
                payload: PayloadView::Decoded(RequestView::RefundOrder(self@)),
            }),
    {
        let request = Request::RefundOrder(self.clone());
        Command::with_payload(Self::COMMAND, Payload::Decoded(request))
    }
}

/// The order that was opened, carried by [`Event::OrderCreated`] and thus by
/// the emitted `order.created` event.
#[derive(Debug, PartialEq, Eq)]
pub struct OrderCreated {
    /// The Order that was opened.
    pub order_id: String,
    /// The player the order was opened for.
    pub player_id: String,
    /// The cart of SKUs the order was opened from.
    pub line_items: Vec<String>,
    /// The settlement currency the order was opened in.
    pub currency: String,
}

/// What an [`OrderCreated`] says.
#[verifier::ext_equal]
pub struct OrderCreatedView {
    pub order_id: Seq<char>,
    pub player_id: Seq<char>,
    pub line_items: Seq<Seq<char>>,
    pub currency: Seq<char>,
}

impl View for OrderCreated {
    type V = OrderCreatedView;

    open spec fn view(&self) -> OrderCreatedView {
        OrderCreatedView {
            order_id: self.order_id@,
            player_id: self.player_id@,
            line_items: text::texts(self.line_items@),
            currency: self.currency@,
        }
    }
}

impl Clone for OrderCreated {
    fn clone(&self) -> (r: Self)
        ensures
            r@ == self@,
    {
        OrderCreated {
            order_id: self.order_id.clone(),
            player_id: self.player_id.clone(),
            line_items: text::copy_all(&self.line_items),
            currency: self.currency.clone(),
        }
    }
}

/// The payment that was confirmed, carried by [`Event::PaymentConfirmed`] and
/// thus by the emitted `payment.confirmed` event.
#[derive(Debug, PartialEq, Eq)]
pub struct PaymentConfirmed {
    /// The Order whose payment was confirmed.
    pub order_id: String,
    /// The Stripe payment intent that settled the Order.
    pub payment_intent_ref: String,
}

/// What a [`PaymentConfirmed`] says.
#[verifier::ext_equal]
pub struct PaymentConfirmedView {
    pub order_id: Seq<char>,
    pub payment_intent_ref: Seq<char>,
}

impl View for PaymentConfirmed {
    type V = PaymentConfirmedView;

    open spec fn view(&self) -> PaymentConfirmedView {
        PaymentConfirmedView {
            order_id: self.order_id@,
            payment_intent_ref: self.payment_intent_ref@,
        }
    }
}

impl Clone for PaymentConfirmed {
    fn clone(&self) -> (r: Self)
        ensures
            r@ == self@,
    {
        PaymentConfirmed {
            order_id: self.order_id.clone(),
            payment_intent_ref: self.payment_intent_ref.clone(),
        }
    }
}

/// The Order that was fulfilled, carried by [`Event::OrderFulfilled`] and thus
/// by the emitted `order.fulfilled` event.
#[derive(Debug, PartialEq, Eq)]
pub struct OrderFulfilled {
    /// The Order whose entitlements were granted.
    pub order_id: String,
    /// The Stripe payment intent the fulfillment was recorded against; the
    /// idempotency key that guards against double-fulfillment.
    pub payment_intent_id: String,
}

/// What an [`OrderFulfilled`] says.
#[verifier::ext_equal]
pub struct OrderFulfilledView {
    pub order_id: Seq<char>,
    pub payment_intent_id: Seq<char>,
}

impl View for OrderFulfilled {
    type V = OrderFulfilledView;

    open spec fn view(&self) -> OrderFulfilledView {
        OrderFulfilledView {
            order_id: self.order_id@,
            payment_intent_id: self.payment_intent_id@,
        }
    }
}

impl Clone for OrderFulfilled {
    fn clone(&self) -> (r: Self)
        ensures
            r@ == self@,
    {
        OrderFulfilled {
            order_id: self.order_id.clone(),
            payment_intent_id: self.payment_intent_id.clone(),
        }
    }
}

/// The order that was refunded, carried by [`Event::OrderRefunded`] and thus by
/// the emitted `order.refunded` event.
#[derive(Debug, PartialEq, Eq)]
pub struct OrderRefunded {
    /// The Order whose entitlements were reversed.
    pub order_id: String,
    /// The reason supplied for the refund.
    pub reason: String,
}

/// What an [`OrderRefunded`] says.
#[verifier::ext_equal]
pub struct OrderRefundedView {
    pub order_id: Seq<char>,
    pub reason: Seq<char>,
}

impl View for OrderRefunded {
    type V = OrderRefundedView;

    open spec fn view(&self) -> OrderRefundedView {
        OrderRefundedView {
            order_id: self.order_id@,
            reason: self.reason@,
        }
    }
}

impl Clone for OrderRefunded {
    fn clone(&self) -> (r: Self)
        ensures
            r@ == self@,
    {
        OrderRefunded {
            order_id: self.order_id.clone(),
            reason: self.reason.clone(),
        }
    }
}

/// Domain events emitted by [`Order`].
#[derive(Debug, PartialEq, Eq)]
pub enum Event {
    /// A fiat Order was opened from a cart of SKUs.
    OrderCreated(OrderCreated),
    /// Payment for the Order was confirmed from a verified Stripe webhook.
    PaymentConfirmed(PaymentConfirmed),
    /// The Order's purchased entitlements were granted.
    OrderFulfilled(OrderFulfilled),
    /// The Order was refunded and its granted entitlements were reversed.
    OrderRefunded(OrderRefunded),
}

/// What an [`Event`] says.
#[verifier::ext_equal]
pub enum EventView {
    OrderCreated(OrderCreatedView),
    PaymentConfirmed(PaymentConfirmedView),
    OrderFulfilled(OrderFulfilledView),
    OrderRefunded(OrderRefundedView),
}

impl View for Event {
    type V = EventView;

    open spec fn view(&self) -> EventView {
        match self {
            Event::OrderCreated(body) => EventView::OrderCreated(body@),
            Event::PaymentConfirmed(body) => EventView::PaymentConfirmed(body@),
            Event::OrderFulfilled(body) => EventView::OrderFulfilled(body@),
            Event::OrderRefunded(body) => EventView::OrderRefunded(body@),
        }
    }
}

impl Clone for Event {
    fn clone(&self) -> (r: Self)
        ensures
            r@ == self@,
    {
        match self {
            Event::OrderCreated(body) => Event::OrderCreated(body.clone()),
            Event::PaymentConfirmed(body) => Event::PaymentConfirmed(body.clone()),
            Event::OrderFulfilled(body) => Event::OrderFulfilled(body.clone()),
            Event::OrderRefunded(body) => Event::OrderRefunded(body.clone()),
        }
    }
}

impl EventView {
    /// The name under which the event is published.
    pub open spec fn event_type(self) -> Seq<char> {
        match self {
            EventView::OrderCreated(_) => "order.created"@,
            EventView::PaymentConfirmed(_) => "payment.confirmed"@,
            EventView::OrderFulfilled(_) => "order.fulfilled"@,
            EventView::OrderRefunded(_) => "order.refunded"@,
        }
    }
}

impl Event {
    /// The name under which the event is published.
    pub fn event_type(&self) -> (r: &'static str)
        ensures
            r@ == self@.event_type(),
    {
        match self {
            Event::OrderCreated(_) => "order.created",
            Event::PaymentConfirmed(_) => "payment.confirmed",
            Event::OrderFulfilled(_) => "order.fulfilled",
            Event::OrderRefunded(_) => "order.refunded",
        }
    }
}

/// A command of this context, with its payload read.
pub enum Request {
    /// A [`CreateOrder`].
    CreateOrder(CreateOrder),
    /// A [`ConfirmPayment`].
    ConfirmPayment(ConfirmPayment),
    /// A [`FulfillOrder`].
    FulfillOrder(FulfillOrder),
    /// A [`RefundOrder`].
    RefundOrder(RefundOrder),
}

/// What a [`Request`] says.
#[verifier::ext_equal]
pub enum RequestView {
    CreateOrder(CreateOrderView),
    ConfirmPayment(ConfirmPaymentView),
    FulfillOrder(FulfillOrderView),
    RefundOrder(RefundOrderView),
}

impl View for Request {
    type V = RequestView;

    open spec fn view(&self) -> RequestView {
        match self {
            Request::CreateOrder(body) => RequestView::CreateOrder(body@),
            Request::ConfirmPayment(body) => RequestView::ConfirmPayment(body@),
            Request::FulfillOrder(body) => RequestView::FulfillOrder(body@),
            Request::RefundOrder(body) => RequestView::RefundOrder(body@),
        }
    }
}

/// The Order aggregate: one storefront purchase settled through Stripe.
///
/// A fresh Order from [`Order::new`] is confirmable and fulfillment-ready: it
/// settles in fiat via Stripe, its total matches its line items, its payment is
/// confirmed by an HMAC-verified webhook, its payment intent has not yet been
/// fulfilled, and its refunds reverse exactly the entitlements granted. The
/// configuration methods below drive it to a state a command rejects, exactly
/// as [`Outfit`](crate::outfit) is built up before a command validates it.
#[derive(Debug)]
pub struct Order {
    id: String,
    root: AggregateRoot<Event>,
    /// The Stripe payment intent that pays for this Order; the idempotency key for
    /// fulfillment.
    payment_intent_id: String,
    /// Whether the payment currency is fiat settled via Stripe. `false` means it
    /// would settle in the in-game `$MADE` currency, which is never allowed.
    currency_is_fiat_via_stripe: bool,
    /// The order total, in the currency's minor units.
    order_total: i64,
    /// The sum of the Order's line items, in the currency's minor units. Must equal
    /// [`Order::order_total`] for the Order to be legal.
    line_items_total: i64,
    /// Whether the confirming Stripe webhook's signature was HMAC-verified.
    webhook_hmac_verified: bool,
    /// Whether payment has been confirmed by that HMAC-verified webhook.
    payment_confirmed: bool,
    /// Whether this Stripe payment intent has already been processed. Confirming an
    /// already-processed intent would double-fulfill, so it is rejected.
    payment_intent_already_processed: bool,
    /// Whether the Order has already granted entitlements for its payment intent.
    /// Fulfilling again would double-fulfill.
    already_fulfilled: bool,
    /// Whether every refund reverses exactly the entitlements the order granted
    /// (the refund/entitlement ledger balances).
    refund_reverses_exactly: bool,
}

/// What an [`Order`] says.
#[verifier::ext_equal]
pub struct OrderView {
    pub id: Seq<char>,
    pub events: Seq<EventView>,
    pub payment_intent_id: Seq<char>,
    pub currency_is_fiat_via_stripe: bool,
    pub order_total: i64,
    pub line_items_total: i64,
    pub webhook_hmac_verified: bool,
    pub payment_confirmed: bool,
    pub payment_intent_already_processed: bool,
    pub already_fulfilled: bool,
    pub refund_reverses_exactly: bool,
}

impl View for Order {
    type V = OrderView;

    closed spec fn view(&self) -> OrderView {
        OrderView {
            id: self.id@,
            events: self.root@,
            payment_intent_id: self.payment_intent_id@,
            currency_is_fiat_via_stripe: self.currency_is_fiat_via_stripe,
            order_total: self.order_total,
            line_items_total: self.line_items_total,
            webhook_hmac_verified: self.webhook_hmac_verified,
            payment_confirmed: self.payment_confirmed,
            payment_intent_already_processed: self.payment_intent_already_processed,
            already_fulfilled: self.already_fulfilled,
            refund_reverses_exactly: self.refund_reverses_exactly,
        }
    }
}

impl OrderView {
    /// The message about an order that would settle in the in-game currency.
    pub open spec fn made_text(self) -> Seq<char> {
        "order '"@ + self.id
            + "' would settle in $MADE; payment currency is fiat via Stripe only — an Order may never settle in $MADE"@
    }

    /// The message where the order would settle in the in-game currency.
    pub open spec fn currency_fault(self) -> Option<Seq<char>> {
        if !self.currency_is_fiat_via_stripe {
            Some(self.made_text())
        } else {
            None
        }
    }

    /// The message where the total is not the sum of the line items.
    pub open spec fn total_fault(self) -> Option<Seq<char>> {
        if self.order_total != self.line_items_total {
            Some(
                "order '"@ + self.id + "' total "@ + text::decimal(self.order_total as int)
                    + " does not equal its line-item sum "@
                    + text::decimal(self.line_items_total as int)
                    + "; the order total must equal the sum of its line items"@,
            )
        } else {
            None
        }
    }

    /// The message where the webhook was not verified.
    pub open spec fn webhook_fault(self) -> Option<Seq<char>> {
        if !self.webhook_hmac_verified {
            Some(
                "order '"@ + self.id
                    + "' payment was not confirmed via an HMAC-verified Stripe webhook; fulfillment occurs only after payment is confirmed via an HMAC-verified Stripe webhook"@,
            )
        } else {
            None
        }
    }

    /// The message where no verified webhook has confirmed the payment.
    pub open spec fn confirmation_fault(self) -> Option<Seq<char>> {
        shared::first(
            self.webhook_fault(),
            if !self.payment_confirmed {
                Some(
                    "order '"@ + self.id
                        + "' has no confirmed payment; fulfillment occurs only after payment is confirmed via an HMAC-verified Stripe webhook"@,
                )
            } else {
                None
            },
        )
    }

    /// The message where the payment intent was processed already.
    pub open spec fn replay_fault(self) -> Option<Seq<char>> {
        if self.payment_intent_already_processed {
            Some(
                "order '"@ + self.id
                    + "' payment intent was already processed; processing is idempotent per Stripe payment intent (no double-fulfillment)"@,
            )
        } else {
            None
        }
    }

    /// The message where the order is fulfilled already.
    pub open spec fn fulfillment_fault(self) -> Option<Seq<char>> {
        if self.already_fulfilled {
            Some(
                "order '"@ + self.id + "' is already fulfilled for payment intent '"@
                    + self.payment_intent_id
                    + "'; processing is idempotent per Stripe payment intent (no double-fulfillment)"@,
            )
        } else {
            None
        }
    }

    /// The message where the intent was processed outside this order.
    pub open spec fn foreign_intent_fault(self) -> Option<Seq<char>> {
        if self.payment_intent_already_processed && !self.payment_confirmed {
            Some(
                "order '"@ + self.id
                    + "' payment intent was already processed outside this Order; processing is idempotent per Stripe payment intent (no double-fulfillment)"@,
            )
        } else {
            None
        }
    }

    /// The message where the refund ledger is out of balance.
    pub open spec fn refund_fault(self) -> Option<Seq<char>> {
        if !self.refund_reverses_exactly {
            Some(
                "order '"@ + self.id
                    + "' refund/entitlement ledger is out of balance; a refund reverses exactly the entitlements the order granted"@,
            )
        } else {
            None
        }
    }

    /// The message of the first rule that refuses a [`CreateOrder`], if one does.
    pub open spec fn create_order_fault(
        self,
        cmd: CreateOrderView,
    ) -> Option<Seq<char>> {
        if text::is_blank_text(cmd.order_id) {
            Some("order '"@ + self.id + "' requires a valid orderId to be created"@)
        } else if text::is_blank_text(cmd.player_id) {
            Some("order '"@ + self.id + "' requires a valid playerId to be created"@)
        } else if cmd.line_items.len() == 0 || text::has_blank(cmd.line_items) {
            Some("order '"@ + self.id + "' requires a non-empty cart of lineItems to be created"@)
        } else if text::is_blank_text(cmd.currency) {
            Some("order '"@ + self.id + "' requires a valid currency to be created"@)
        } else if cmd.order_id != self.id {
            Some(
                "command targets order '"@ + cmd.order_id + "' but this aggregate is order '"@
                    + self.id + "'"@,
            )
        } else if cmd.currency == MADE@ {
            Some(self.made_text())
        } else {
            shared::first(
                self.currency_fault(),
                shared::first(
                    self.total_fault(),
                    shared::first(
                        self.webhook_fault(),
                        shared::first(self.replay_fault(), self.refund_fault()),
                    ),
                ),
            )
        }
    }

    /// The state after a [`CreateOrder`], and the answer to it.
    pub open spec fn create_order(self, cmd: CreateOrderView) -> (
        OrderView,
        Reply<EventView>,
    ) {
        match self.create_order_fault(cmd) {
            Some(message) => (self, shared::violation(message)),
            None => {
                let event = EventView::OrderCreated(OrderCreatedView {
                    order_id: cmd.order_id,
                    player_id: cmd.player_id,
                    line_items: cmd.line_items,
                    currency: cmd.currency,
                });
                (OrderView { events: self.events.push(event), ..self }, Ok(seq![event]))
            },
        }
    }

    /// The message of the first rule that refuses a [`ConfirmPayment`], if one does.
    pub open spec fn confirm_payment_fault(
        self,
        cmd: ConfirmPaymentView,
    ) -> Option<Seq<char>> {
        if text::is_blank_text(cmd.order_id) {
            Some("order '"@ + self.id + "' requires a valid orderId to confirm payment"@)
        } else if text::is_blank_text(cmd.payment_intent_ref) {
            Some("order '"@ + self.id + "' requires a valid paymentIntentRef to confirm payment"@)
        } else if cmd.order_id != self.id {
            Some(
                "command targets order '"@ + cmd.order_id + "' but this aggregate is order '"@
                    + self.id + "'"@,
            )
        } else {
            shared::first(
                self.currency_fault(),
                shared::first(
                    self.total_fault(),
                    shared::first(
                        self.webhook_fault(),
                        shared::first(self.replay_fault(), self.refund_fault()),
                    ),
                ),
            )
        }
    }

    /// The state after a [`ConfirmPayment`], and the answer to it.
    pub open spec fn confirm_payment(self, cmd: ConfirmPaymentView) -> (
        OrderView,
        Reply<EventView>,
    ) {
        match self.confirm_payment_fault(cmd) {
            Some(message) => (self, shared::violation(message)),
            None => {
                let event = EventView::PaymentConfirmed(PaymentConfirmedView {
                    order_id: cmd.order_id,
                    payment_intent_ref: cmd.payment_intent_ref,
                });
                (
                    OrderView {
                        payment_intent_id: cmd.payment_intent_ref,
                        payment_confirmed: true,
                        payment_intent_already_processed: true,
                        events: self.events.push(event),
                        ..self
                    },
                    Ok(seq![event]),
                )
            },
        }
    }

    /// The message of the first rule that refuses a [`FulfillOrder`], if one does.
    pub open spec fn fulfill_order_fault(
        self,
        cmd: FulfillOrderView,
    ) -> Option<Seq<char>> {
        if text::is_blank_text(cmd.order_id) {
            Some("order '"@ + self.id + "' requires a valid orderId to fulfill"@)
        } else if cmd.order_id != self.id {
            Some(
                "command targets order '"@ + cmd.order_id + "' but this aggregate is order '"@
                    + self.id + "'"@,
            )
        } else {
            shared::first(
                self.currency_fault(),
                shared::first(
                    self.total_fault(),
                    shared::first(
                        self.confirmation_fault(),
                        shared::first(self.fulfillment_fault(), self.refund_fault()),
                    ),
                ),
            )
        }
    }

    /// The state after a [`FulfillOrder`], and the answer to it.
    pub open spec fn fulfill_order(self, cmd: FulfillOrderView) -> (
        OrderView,
        Reply<EventView>,
    ) {
        match self.fulfill_order_fault(cmd) {
            Some(message) => (self, shared::violation(message)),
            None => {
                let event = EventView::OrderFulfilled(OrderFulfilledView {
                    order_id: cmd.order_id,
                    payment_intent_id: self.payment_intent_id,
                });
                (
                    OrderView {
                        already_fulfilled: true,
                        events: self.events.push(event),
                        ..self
                    },
                    Ok(seq![event]),
                )
            },
        }
    }

    /// The message of the first rule that refuses a [`RefundOrder`], if one does.
    pub open spec fn refund_order_fault(
        self,
        cmd: RefundOrderView,
    ) -> Option<Seq<char>> {
        if text::is_blank_text(cmd.order_id) {
            Some("order '"@ + self.id + "' requires a valid orderId to refund"@)
        } else if text::is_blank_text(cmd.reason) {
            Some("order '"@ + self.id + "' requires a valid reason to refund"@)
        } else if cmd.order_id != self.id {
            Some(
                "command targets order '"@ + cmd.order_id + "' but this aggregate is order '"@
                    + self.id + "'"@,
            )
        } else {
            shared::first(
                self.currency_fault(),
                shared::first(
                    self.total_fault(),
                    shared::first(
                        self.webhook_fault(),
                        shared::first(self.foreign_intent_fault(), self.refund_fault()),
                    ),
                ),
            )
        }
    }

    /// The state after a [`RefundOrder`], and the answer to it.
    pub open spec fn refund_order(self, cmd: RefundOrderView) -> (
        OrderView,
        Reply<EventView>,
    ) {
        match self.refund_order_fault(cmd) {
            Some(message) => (self, shared::violation(message)),
            None => {
                let event = EventView::OrderRefunded(OrderRefundedView {
                    order_id: cmd.order_id,
                    reason: cmd.reason,
                });
                (OrderView { events: self.events.push(event), ..self }, Ok(seq![event]))
            },
        }
    }

    /// The state after a command, and the answer to it.
    pub open spec fn execute(self, command: CommandView<PayloadView<RequestView>>) -> (
        OrderView,
        Reply<EventView>,
    ) {
        if command.name == CreateOrder::COMMAND@ {
            match command.payload {
                PayloadView::Decoded(RequestView::CreateOrder(cmd)) => self.create_order(cmd),
                PayloadView::Decoded(_) => (
                    self,
                    shared::malformed_reply(CreateOrder::COMMAND@, OTHER_COMMAND@),
                ),
                PayloadView::Malformed(complaint) => (
                    self,
                    shared::malformed_reply(CreateOrder::COMMAND@, complaint),
                ),
            }
        } else if command.name == ConfirmPayment::COMMAND@ {
            match command.payload {
                PayloadView::Decoded(RequestView::ConfirmPayment(cmd)) => self.confirm_payment(cmd),
                PayloadView::Decoded(_) => (
                    self,
                    shared::malformed_reply(ConfirmPayment::COMMAND@, OTHER_COMMAND@),
                ),
                PayloadView::Malformed(complaint) => (
                    self,
                    shared::malformed_reply(ConfirmPayment::COMMAND@, complaint),
                ),
            }
        } else if command.name == FulfillOrder::COMMAND@ {
            match command.payload {
                PayloadView::Decoded(RequestView::FulfillOrder(cmd)) => self.fulfill_order(cmd),
                PayloadView::Decoded(_) => (
                    self,
                    shared::malformed_reply(FulfillOrder::COMMAND@, OTHER_COMMAND@),
                ),
                PayloadView::Malformed(complaint) => (
                    self,
                    shared::malformed_reply(FulfillOrder::COMMAND@, complaint),
                ),
            }
        } else if command.name == RefundOrder::COMMAND@ {
            match command.payload {
                PayloadView::Decoded(RequestView::RefundOrder(cmd)) => self.refund_order(cmd),
                PayloadView::Decoded(_) => (
                    self,
                    shared::malformed_reply(RefundOrder::COMMAND@, OTHER_COMMAND@),
                ),
                PayloadView::Malformed(complaint) => (
                    self,
                    shared::malformed_reply(RefundOrder::COMMAND@, complaint),
                ),
            }
        } else {
            (self, shared::unknown(AGGREGATE_TYPE@, command.name))
        }
    }
}

impl Order {
    /// The name of the aggregate type.
    pub fn aggregate_type() -> (r: &'static str)
        ensures
            r@ == AGGREGATE_TYPE@,
    {
        AGGREGATE_TYPE
    }

    /// Creates a confirmable and fulfillment-ready order identified by `id`. It
    /// settles in fiat via Stripe, its total matches its line items, its payment is
    /// confirmed by an HMAC-verified webhook, its payment intent has not been
    /// processed or fulfilled, and its refunds reverse exactly the entitlements
    /// granted.
    pub fn new(id: &str) -> (r: Self)
        ensures
            r@ == (OrderView {
                id: id@,
                events: Seq::empty(),
                payment_intent_id: "pi_"@ + id@,
                currency_is_fiat_via_stripe: true,
                order_total: 0,
                line_items_total: 0,
                webhook_hmac_verified: true,
                payment_confirmed: true,
                payment_intent_already_processed: false,
                already_fulfilled: false,
                refund_reverses_exactly: true,
            }),
    {
        Order {
            id: id.to_owned(),
            root: AggregateRoot::new(),
            payment_intent_id: text::cat2("pi_", id),
            currency_is_fiat_via_stripe: true,
            order_total: 0,
            line_items_total: 0,
            webhook_hmac_verified: true,
            payment_confirmed: true,
            payment_intent_already_processed: false,
            already_fulfilled: false,
            refund_reverses_exactly: true,
        }
    }

    /// This aggregate's identity.
    pub fn id(&self) -> (r: &str)
        ensures
            r@ == self@.id,
    {
        self.id.as_str()
    }

    /// The version: the number of events recorded.
    pub fn version(&self) -> (r: u64)
        ensures
            r == self@.events.len(),
    {
        self.root.version()
    }

    /// The events recorded and not yet persisted.
    pub fn uncommitted_events(&self) -> (r: &[Event])
        ensures
            shared::views(r@) == self@.events,
    {
        self.root.uncommitted_events()
    }

    /// The refusal of an order that would settle in the in-game currency.
    fn refuse_made<T>(&self) -> (r: Result<T, DomainError>)
        ensures
            r matches Err(error) && error@ == DomainErrorView::InvariantViolation(
                self@.made_text(),
            ),
    {
        shared::refuse(
            text::cat3(
                "order '", &self.id,
                "' would settle in $MADE; payment currency is fiat via Stripe only — an Order may never settle in $MADE",
            ),
        )
    }

    /// Currency invariant: payment currency is fiat via Stripe only — an Order may
    /// never settle in `$MADE`.
    fn ensure_fiat_via_stripe(&self) -> (r: Result<(), DomainError>)
        ensures
            shared::broken(r) == shared::owed(self@.currency_fault()),
    {
        if !self.currency_is_fiat_via_stripe {
            return self.refuse_made();
        }
        Ok(())
    }

    /// Total invariant: the order total must equal the sum of its line items.
    fn ensure_total_matches_line_items(&self) -> (r: Result<(), DomainError>)
        ensures
            shared::broken(r) == shared::owed(self@.total_fault()),
    {
        if self.order_total != self.line_items_total {
            return shared::refuse(
                text::cat7(
                    "order '", &self.id, "' total ", &text::show_signed(self.order_total),
                    " does not equal its line-item sum ",
                    &text::show_signed(self.line_items_total),
                    "; the order total must equal the sum of its line items",
                ),
            );
        }
        Ok(())
    }

    /// Webhook invariant: fulfillment occurs only after payment is confirmed via an
    /// HMAC-verified Stripe webhook.
    fn ensure_webhook_hmac_verified(&self) -> (r: Result<(), DomainError>)
        ensures
            shared::broken(r) == shared::owed(self@.webhook_fault()),
    {
        if !self.webhook_hmac_verified {
            return shared::refuse(
                text::cat3(
                    "order '", &self.id,
                    "' payment was not confirmed via an HMAC-verified Stripe webhook; fulfillment occurs only after payment is confirmed via an HMAC-verified Stripe webhook",
                ),
            );
        }
        Ok(())
    }

    /// Confirmation invariant: fulfillment occurs only after payment is confirmed
    /// via an HMAC-verified Stripe webhook.
    fn ensure_payment_confirmed_via_webhook(&self) -> (r: Result<(), DomainError>)
        ensures
            shared::broken(r) == shared::owed(self@.confirmation_fault()),
    {
        if let Err(error) = self.ensure_webhook_hmac_verified() {
            return Err(error);
        }
        if !self.payment_confirmed {
            return shared::refuse(
                text::cat3(
                    "order '", &self.id,
                    "' has no confirmed payment; fulfillment occurs only after payment is confirmed via an HMAC-verified Stripe webhook",
                ),
            );
        }
        Ok(())
    }

    /// Idempotency invariant: processing is idempotent per Stripe payment intent —
    /// an already-processed intent must not be confirmed again (no double-
    /// fulfillment).
    fn ensure_not_already_processed(&self) -> (r: Result<(), DomainError>)
        ensures
            shared::broken(r) == shared::owed(self@.replay_fault()),
    {
        if self.payment_intent_already_processed {
            return shared::refuse(
                text::cat3(
                    "order '", &self.id,
                    "' payment intent was already processed; processing is idempotent per Stripe payment intent (no double-fulfillment)",
                ),
            );
        }
        Ok(())
    }

    /// Fulfillment idempotency invariant: an Order already fulfilled for its
    /// payment intent may not be fulfilled again.
    fn ensure_not_already_fulfilled(&self) -> (r: Result<(), DomainError>)
        ensures
            shared::broken(r) == shared::owed(self@.fulfillment_fault()),
    {
        if self.already_fulfilled {
            return shared::refuse(
                text::cat5(
                    "order '", &self.id, "' is already fulfilled for payment intent '",
                    &self.payment_intent_id,
                    "'; processing is idempotent per Stripe payment intent (no double-fulfillment)",
                ),
            );
        }
        Ok(())
    }

    /// Refund idempotency invariant: a processed intent is valid for refund only
    /// when this Order's own successful confirmation produced that processed state.
    /// Otherwise refunding would operate on an externally pre-processed intent and
    /// risk double-fulfillment.
    fn ensure_refund_intent_state_is_consistent(&self) -> (r: Result<(), DomainError>)
        ensures
            shared::broken(r) == shared::owed(self@.foreign_intent_fault()),
    {
        if self.payment_intent_already_processed && !self.payment_confirmed {
            return shared::refuse(
                text::cat3(
                    "order '", &self.id,
                    "' payment intent was already processed outside this Order; processing is idempotent per Stripe payment intent (no double-fulfillment)",
                ),
            );
        }
        Ok(())
    }

    /// Refund invariant: a refund reverses exactly the entitlements the order
    /// granted.
    fn ensure_refund_reverses_exactly(&self) -> (r: Result<(), DomainError>)
        ensures
            shared::broken(r) == shared::owed(self@.refund_fault()),
    {
        if !self.refund_reverses_exactly {
            return shared::refuse(
                text::cat3(
                    "order '", &self.id,
                    "' refund/entitlement ledger is out of balance; a refund reverses exactly the entitlements the order granted",
                ),
            );
        }
        Ok(())
    }

    /// Handles an order being opened: the command must carry this order, a player,
    /// a cart without blanks and a currency other than `$MADE`, and every invariant
    /// must hold.
    fn create_order(&mut self, cmd: CreateOrder) -> (r: Result<
        Vec<Event>,
        DomainError,
    >)
        ensures
            final(self)@ == old(self)@.create_order(cmd@).0,
            shared::reply(r) == old(self)@.create_order(cmd@).1,
    {
        if text::is_blank(&cmd.order_id) {
            return shared::refuse(
                text::cat3(
                    "order '", &self.id, "' requires a valid orderId to be created",
                ),
            );
        }
        if text::is_blank(&cmd.player_id) {
            return shared::refuse(
                text::cat3(
                    "order '", &self.id, "' requires a valid playerId to be created",
                ),
            );
        }
        if cmd.line_items.len() == 0 || text::any_blank(&cmd.line_items) {
            return shared::refuse(
                text::cat3(
                    "order '", &self.id, "' requires a non-empty cart of lineItems to be created",
                ),
            );
        }
        if text::is_blank(&cmd.currency) {
            return shared::refuse(
                text::cat3(
                    "order '", &self.id, "' requires a valid currency to be created",
                ),
            );
        }
        if !text::same(&cmd.order_id, &self.id) {
            return shared::refuse(
                text::cat5(
                    "command targets order '", &cmd.order_id, "' but this aggregate is order '",
                    &self.id, "'",
                ),
            );
        }
        // The in-game currency is no settlement currency.
        if text::same(&cmd.currency, MADE) {
            return self.refuse_made();
        }
        if let Err(error) = self.ensure_fiat_via_stripe() {
            return Err(error);
        }
        if let Err(error) = self.ensure_total_matches_line_items() {
            return Err(error);
        }
        if let Err(error) = self.ensure_webhook_hmac_verified() {
            return Err(error);
        }
        if let Err(error) = self.ensure_not_already_processed() {
            return Err(error);
        }
        if let Err(error) = self.ensure_refund_reverses_exactly() {
            return Err(error);
        }
        let event = Event::OrderCreated(
            OrderCreated {
                order_id: cmd.order_id,
                player_id: cmd.player_id,
                line_items: cmd.line_items,
                currency: cmd.currency,
            },
        );
        self.root.record(event.clone());
        Ok(shared::only(event))
    }

    /// Handles a payment confirmation: the command must carry this order and a
    /// payment intent, and every invariant must hold. The intent is marked
    /// processed.
    fn confirm_payment(&mut self, cmd: ConfirmPayment) -> (r: Result<
        Vec<Event>,
        DomainError,
    >)
        ensures
            final(self)@ == old(self)@.confirm_payment(cmd@).0,
            shared::reply(r) == old(self)@.confirm_payment(cmd@).1,
    {
        if text::is_blank(&cmd.order_id) {
            return shared::refuse(
                text::cat3(
                    "order '", &self.id, "' requires a valid orderId to confirm payment",
                ),
            );
        }
        if text::is_blank(&cmd.payment_intent_ref) {
            return shared::refuse(
                text::cat3(
                    "order '", &self.id, "' requires a valid paymentIntentRef to confirm payment",
                ),
            );
        }
        if !text::same(&cmd.order_id, &self.id) {
            return shared::refuse(
                text::cat5(
                    "command targets order '", &cmd.order_id, "' but this aggregate is order '",
                    &self.id, "'",
                ),
            );
        }
        if let Err(error) = self.ensure_fiat_via_stripe() {
            return Err(error);
        }
        if let Err(error) = self.ensure_total_matches_line_items() {
            return Err(error);
        }
        if let Err(error) = self.ensure_webhook_hmac_verified() {
            return Err(error);
        }
        if let Err(error) = self.ensure_not_already_processed() {
            return Err(error);
        }
        if let Err(error) = self.ensure_refund_reverses_exactly() {
            return Err(error);
        }
        // Mark the payment intent processed so a replayed webhook for the same intent
        // is rejected — no double-fulfillment.
        self.payment_intent_id = cmd.payment_intent_ref.clone();
        self.payment_confirmed = true;
        self.payment_intent_already_processed = true;
        let event = Event::PaymentConfirmed(
            PaymentConfirmed {
                order_id: cmd.order_id,
                payment_intent_ref: cmd.payment_intent_ref,
            },
        );
        self.root.record(event.clone());
        Ok(shared::only(event))
    }

    /// Handles a fulfillment: the command must carry this order, and every
    /// invariant must hold, with the payment confirmed by a verified webhook. The
    /// entitlements are granted once.
    fn fulfill_order(&mut self, cmd: FulfillOrder) -> (r: Result<
        Vec<Event>,
        DomainError,
    >)
        ensures
            final(self)@ == old(self)@.fulfill_order(cmd@).0,
            shared::reply(r) == old(self)@.fulfill_order(cmd@).1,
    {
        if text::is_blank(&cmd.order_id) {
            return shared::refuse(
                text::cat3(
                    "order '", &self.id, "' requires a valid orderId to fulfill",
                ),
            );
        }
        if !text::same(&cmd.order_id, &self.id) {
            return shared::refuse(
                text::cat5(
                    "command targets order '", &cmd.order_id, "' but this aggregate is order '",
                    &self.id, "'",
                ),
            );
        }
        if let Err(error) = self.ensure_fiat_via_stripe() {
            return Err(error);
        }
        if let Err(error) = self.ensure_total_matches_line_items() {
            return Err(error);
        }
        if let Err(error) = self.ensure_payment_confirmed_via_webhook() {
            return Err(error);
        }
        if let Err(error) = self.ensure_not_already_fulfilled() {
            return Err(error);
        }
        if let Err(error) = self.ensure_refund_reverses_exactly() {
            return Err(error);
        }
        // Once granted, a second fulfillment for the same intent is rejected.
        self.already_fulfilled = true;
        let event = Event::OrderFulfilled(
            OrderFulfilled {
                order_id: cmd.order_id,
                payment_intent_id: self.payment_intent_id.clone(),
            },
        );
        self.root.record(event.clone());
        Ok(shared::only(event))
    }

    /// Handles a refund: the command must carry this order and a reason, and every
    /// invariant must hold. The event stands for the reversal of the entitlements.
    fn refund_order(&mut self, cmd: RefundOrder) -> (r: Result<
        Vec<Event>,
        DomainError,
    >)
        ensures
            final(self)@ == old(self)@.refund_order(cmd@).0,
            shared::reply(r) == old(self)@.refund_order(cmd@).1,
    {
        if text::is_blank(&cmd.order_id) {
            return shared::refuse(
                text::cat3(
                    "order '", &self.id, "' requires a valid orderId to refund",
                ),
            );
        }
        if text::is_blank(&cmd.reason) {
            return shared::refuse(
                text::cat3(
                    "order '", &self.id, "' requires a valid reason to refund",
                ),
            );
        }
        if !text::same(&cmd.order_id, &self.id) {
            return shared::refuse(
                text::cat5(
                    "command targets order '", &cmd.order_id, "' but this aggregate is order '",
                    &self.id, "'",
                ),
            );
        }
        if let Err(error) = self.ensure_fiat_via_stripe() {
            return Err(error);
        }
        if let Err(error) = self.ensure_total_matches_line_items() {
            return Err(error);
        }
        if let Err(error) = self.ensure_webhook_hmac_verified() {
            return Err(error);
        }
        if let Err(error) = self.ensure_refund_intent_state_is_consistent() {
            return Err(error);
        }
        if let Err(error) = self.ensure_refund_reverses_exactly() {
            return Err(error);
        }
        let event = Event::OrderRefunded(
            OrderRefunded {
                order_id: cmd.order_id,
                reason: cmd.reason,
            },
        );
        self.root.record(event.clone());
        Ok(shared::only(event))
    }

    /// Carries out a command, or says why it is refused.
    pub fn execute(&mut self, command: Command<Payload<Request>>) -> (r: Result<
        Vec<Event>,
        DomainError,
    >)
        ensures
            final(self)@ == old(self)@.execute(command@).0,
            shared::reply(r) == old(self)@.execute(command@).1,
    {
        if text::same(&command.name, CreateOrder::COMMAND) {
            match command.payload {
                Payload::Decoded(Request::CreateOrder(cmd)) => self.create_order(cmd),
                Payload::Decoded(_) => shared::malformed(CreateOrder::COMMAND, OTHER_COMMAND),
                Payload::Malformed(complaint) => {
                    shared::malformed(CreateOrder::COMMAND, &complaint)
                },
            }
        } else if text::same(&command.name, ConfirmPayment::COMMAND) {
            match command.payload {
                Payload::Decoded(Request::ConfirmPayment(cmd)) => self.confirm_payment(cmd),
                Payload::Decoded(_) => shared::malformed(ConfirmPayment::COMMAND, OTHER_COMMAND),
                Payload::Malformed(complaint) => {
                    shared::malformed(ConfirmPayment::COMMAND, &complaint)
                },
            }
        } else if text::same(&command.name, FulfillOrder::COMMAND) {
            match command.payload {
                Payload::Decoded(Request::FulfillOrder(cmd)) => self.fulfill_order(cmd),
                Payload::Decoded(_) => shared::malformed(FulfillOrder::COMMAND, OTHER_COMMAND),
                Payload::Malformed(complaint) => {
                    shared::malformed(FulfillOrder::COMMAND, &complaint)
                },
            }
        } else if text::same(&command.name, RefundOrder::COMMAND) {
            match command.payload {
                Payload::Decoded(Request::RefundOrder(cmd)) => self.refund_order(cmd),
                Payload::Decoded(_) => shared::malformed(RefundOrder::COMMAND, OTHER_COMMAND),
                Payload::Malformed(complaint) => {
                    shared::malformed(RefundOrder::COMMAND, &complaint)
                },
            }
        } else {
            Err(DomainError::unknown_command(AGGREGATE_TYPE, command.name))
        }
    }

    /// The Stripe payment intent that pays for this Order.
    pub fn payment_intent_id(&self) -> (r: &str)
        ensures
            r@ == self@.payment_intent_id,
    {
        self.payment_intent_id.as_str()
    }

    /// The order total, in the currency's minor units.
    pub fn order_total(&self) -> (r: i64)
        ensures
            r == self@.order_total,
    {
        self.order_total
    }

    /// The sum of the Order's line items, in the currency's minor units.
    pub fn line_items_total(&self) -> (r: i64)
        ensures
            r == self@.line_items_total,
    {
        self.line_items_total
    }

    /// Records whether the payment currency is fiat settled via Stripe (`false`
    /// models an attempt to settle in `$MADE`).
    pub fn set_currency_is_fiat_via_stripe(&mut self, ok: bool)
        ensures
            final(self)@ == (OrderView {
                currency_is_fiat_via_stripe: ok,
                ..old(self)@
            }),
    {
        self.currency_is_fiat_via_stripe = ok;
    }

    /// Sets the order total, in the currency's minor units.
    pub fn set_order_total(&mut self, total: i64)
        ensures
            final(self)@ == (OrderView {
                order_total: total,
                ..old(self)@
            }),
    {
        self.order_total = total;
    }

    /// Sets the sum of the Order's line items, in the currency's minor units.
    pub fn set_line_items_total(&mut self, total: i64)
        ensures
            final(self)@ == (OrderView {
                line_items_total: total,
                ..old(self)@
            }),
    {
        self.line_items_total = total;
    }

    /// Records whether the confirming Stripe webhook was HMAC-verified.
    pub fn set_webhook_hmac_verified(&mut self, ok: bool)
        ensures
            final(self)@ == (OrderView {
                webhook_hmac_verified: ok,
                ..old(self)@
            }),
    {
        self.webhook_hmac_verified = ok;
    }

    /// Sets the Stripe payment intent that pays for this Order.
    pub fn set_payment_intent_id(&mut self, payment_intent_id: &str)
        ensures
            final(self)@ == (OrderView {
                payment_intent_id: payment_intent_id@,
                ..old(self)@
            }),
    {
        self.payment_intent_id = payment_intent_id.to_owned();
    }

    /// Records whether payment has been confirmed via an HMAC-verified Stripe
    /// webhook.
    pub fn set_payment_confirmed(&mut self, confirmed: bool)
        ensures
            final(self)@ == (OrderView {
                payment_confirmed: confirmed,
                ..old(self)@
            }),
    {
        self.payment_confirmed = confirmed;
    }

    /// Records whether this Stripe payment intent has already been processed.
    pub fn set_payment_intent_already_processed(&mut self, already: bool)
        ensures
            final(self)@ == (OrderView {
                payment_intent_already_processed: already,
                already_fulfilled: already,
                ..old(self)@
            }),
    {
        self.payment_intent_already_processed = already;
        self.already_fulfilled = already;
    }

    /// Records whether the Order has already been fulfilled for its payment intent.
    pub fn set_already_fulfilled(&mut self, fulfilled: bool)
        ensures
            final(self)@ == (OrderView {
                already_fulfilled: fulfilled,
                ..old(self)@
            }),
    {
        self.already_fulfilled = fulfilled;
    }

    /// Records whether every refund reverses exactly the entitlements granted.
    pub fn set_refund_reverses_exactly(&mut self, ok: bool)
        ensures
            final(self)@ == (OrderView {
                refund_reverses_exactly: ok,
                ..old(self)@
            }),
    {
        self.refund_reverses_exactly = ok;
    }

    /// Records whether the order settles in fiat via Stripe (`true`) rather than
    /// in the in-game `$MADE` token (`false`).
    pub fn set_currency_is_fiat(&mut self, ok: bool)
        ensures
            final(self)@ == (OrderView { currency_is_fiat_via_stripe: ok, ..old(self)@ }),
    {
        self.set_currency_is_fiat_via_stripe(ok);
    }

    /// Records whether the order total equals the sum of its line items. Where it
    /// does not, the line items come to one more than the total, or to one less
    /// where an `i64` holds no more.
    pub fn set_total_matches_line_items(&mut self, ok: bool)
        ensures
            final(self)@ == (OrderView {
                line_items_total: if ok {
                    old(self)@.order_total
                } else if old(self)@.order_total < i64::MAX {
                    (old(self)@.order_total + 1) as i64
                } else {
                    (old(self)@.order_total - 1) as i64
                },
                ..old(self)@
            }),
            (final(self)@.order_total == final(self)@.line_items_total) == ok,
    {
        if ok {
            self.line_items_total = self.order_total;
        } else if self.order_total < i64::MAX {
            self.line_items_total = self.order_total + 1;
        } else {
            self.line_items_total = self.order_total - 1;
        }
    }
}

/// The repository port of the [`Order`] aggregate: an adapter implements
/// [`Repository`] for it and then this marker.
pub trait OrderRepository: Repository<Order> {

}

impl OrderView {
    /// A refused command changes nothing: neither the state nor the events.
    pub proof fn law_refusal_changes_nothing(
        self,
        command: CommandView<PayloadView<RequestView>>,
    )
        ensures
            self.execute(command).1 is Err ==> self.execute(command).0 == self,
    {
    }

    /// An accepted command records exactly the events it answers with, behind
    /// those recorded before.
    pub proof fn law_events_are_recorded(self, command: CommandView<PayloadView<RequestView>>)
        ensures
            self.execute(command).1 matches Ok(events) ==> {
                &&& events.len() == 1
                &&& self.execute(command).0.events == self.events + events
            },
    {
        if let Ok(events) = self.execute(command).1 {
            assert(self.execute(command).0.events =~= self.events + events);
        }
    }

    /// No command is accepted from an order that breaks one of the invariants that
    /// all four share.
    pub proof fn law_accepted_orders_are_lawful(
        self,
        command: CommandView<PayloadView<RequestView>>,
    )
        requires
            self.execute(command).1 is Ok,
        ensures
            self.currency_is_fiat_via_stripe,
            self.order_total == self.line_items_total,
            self.webhook_hmac_verified,
            self.refund_reverses_exactly,
    {
    }

    /// The state after a sequence of commands, accepted and refused ones alike.
    pub open spec fn after(
        self,
        commands: Seq<CommandView<PayloadView<RequestView>>>,
    ) -> OrderView
        decreases commands.len(),
    {
        if commands.len() == 0 {
            self
        } else {
            self.after(commands.drop_last()).execute(commands.last()).0
        }
    }

    /// No command undoes a fulfillment, a confirmation or the processing of a
    /// payment intent; a fulfilled order is not fulfilled again, and a payment
    /// intent that was processed is not confirmed again.
    pub proof fn law_processing_is_kept(
        self,
        command: CommandView<PayloadView<RequestView>>,
        fulfill: FulfillOrderView,
        confirm: ConfirmPaymentView,
    )
        ensures
            self.already_fulfilled ==> self.execute(command).0.already_fulfilled,
            self.payment_confirmed ==> self.execute(command).0.payment_confirmed,
            self.payment_intent_already_processed ==> self.execute(
                command,
            ).0.payment_intent_already_processed,
            self.already_fulfilled ==> self.fulfill_order(fulfill).1 is Err,
            self.payment_intent_already_processed ==> self.confirm_payment(confirm).1 is Err,
    {
    }

    /// What no command undoes no sequence of commands undoes.
    pub proof fn law_processing_is_never_undone(
        self,
        commands: Seq<CommandView<PayloadView<RequestView>>>,
    )
        ensures
            self.already_fulfilled ==> self.after(commands).already_fulfilled,
            self.payment_confirmed ==> self.after(commands).payment_confirmed,
            self.payment_intent_already_processed ==> self.after(
                commands,
            ).payment_intent_already_processed,
        decreases commands.len(),
    {
        if commands.len() > 0 {
            self.law_processing_is_never_undone(commands.drop_last());
        }
    }

    /// No double fulfillment: once an order is fulfilled, every further fulfillment
    /// is refused, whatever commands came between.
    pub proof fn law_fulfilled_once(
        self,
        first: FulfillOrderView,
        between: Seq<CommandView<PayloadView<RequestView>>>,
        second: FulfillOrderView,
    )
        requires
            self.fulfill_order(first).1 is Ok,
        ensures
            self.fulfill_order(first).0.after(between).fulfill_order(second).1 is Err,
    {
        self.fulfill_order(first).0.law_processing_is_never_undone(between);
    }

    /// A payment intent is confirmed at most once: a replayed confirmation is
    /// refused, whatever commands came between.
    pub proof fn law_confirmed_once(
        self,
        first: ConfirmPaymentView,
        between: Seq<CommandView<PayloadView<RequestView>>>,
        second: ConfirmPaymentView,
    )
        requires
            self.confirm_payment(first).1 is Ok,
        ensures
            self.confirm_payment(first).0.after(between).confirm_payment(second).1 is Err,
    {
        self.confirm_payment(first).0.law_processing_is_never_undone(between);
    }

    /// After a confirmation the order can be fulfilled, unless it is already, with
    /// the intent that was confirmed; and it can be refunded.
    pub proof fn law_confirmation_opens_the_rest(
        self,
        confirm: ConfirmPaymentView,
        fulfill: FulfillOrderView,
        refund: RefundOrderView,
    )
        requires
            self.confirm_payment(confirm).1 is Ok,
            !self.already_fulfilled,
            fulfill.order_id == self.id,
            refund.order_id == self.id,
            !text::is_blank_text(refund.reason),
        ensures
            ({
                let confirmed = self.confirm_payment(confirm).0;
                &&& confirmed.fulfill_order(fulfill).1 == Ok::<Seq<EventView>, DomainErrorView>(
                    seq![
                        EventView::OrderFulfilled(
                            OrderFulfilledView {
                                order_id: self.id,
                                payment_intent_id: confirm.payment_intent_ref,
                            },
                        ),
                    ],
                )
                &&& confirmed.refund_order(refund).1 is Ok
            }),
    {
    }

    /// No order is opened in the in-game currency: every order that a command opens
    /// settles in another.
    pub proof fn law_orders_settle_in_fiat(self, command: CommandView<PayloadView<RequestView>>)
        ensures
            self.execute(command).1 matches Ok(events) ==> (events[0] matches EventView::OrderCreated(
                opened,
            ) ==> opened.currency != MADE@),
    {
    }

    /// An order is opened exactly where the command names it, with a player, a cart
    /// of items none of which is blank and a currency other than `$MADE`, and the
    /// invariants hold.
    pub proof fn law_creation_is_owed(self, cmd: CreateOrderView)
        ensures
            self.create_order(cmd).1 is Ok <==> {
                &&& cmd.order_id == self.id
                &&& !text::is_blank_text(cmd.order_id)
                &&& !text::is_blank_text(cmd.player_id)
                &&& !text::is_blank_text(cmd.currency)
                &&& cmd.currency != MADE@
                &&& cmd.line_items.len() > 0
                &&& forall|i: int|
                    0 <= i < cmd.line_items.len() ==> !text::is_blank_text(
                        #[trigger] cmd.line_items[i],
                    )
                &&& self.currency_is_fiat_via_stripe
                &&& self.order_total == self.line_items_total
                &&& self.webhook_hmac_verified
                &&& !self.payment_intent_already_processed
                &&& self.refund_reverses_exactly
            },
    {
    }

    /// A payment is confirmed exactly where the command names the order and a
    /// payment intent, and the invariants hold.
    pub proof fn law_payment_is_owed(self, cmd: ConfirmPaymentView)
        ensures
            self.confirm_payment(cmd).1 is Ok <==> {
                &&& cmd.order_id == self.id
                &&& !text::is_blank_text(cmd.order_id)
                &&& !text::is_blank_text(cmd.payment_intent_ref)
                &&& self.currency_is_fiat_via_stripe
                &&& self.order_total == self.line_items_total
                &&& self.webhook_hmac_verified
                &&& !self.payment_intent_already_processed
                &&& self.refund_reverses_exactly
            },
    {
    }

    /// An order is fulfilled exactly where the command names it, its payment is
    /// confirmed, it is not fulfilled yet and the other invariants hold.
    pub proof fn law_fulfillment_is_owed(self, cmd: FulfillOrderView)
        ensures
            self.fulfill_order(cmd).1 is Ok <==> {
                &&& cmd.order_id == self.id
                &&& !text::is_blank_text(cmd.order_id)
                &&& self.currency_is_fiat_via_stripe
                &&& self.order_total == self.line_items_total
                &&& self.webhook_hmac_verified
                &&& self.payment_confirmed
                &&& !self.already_fulfilled
                &&& self.refund_reverses_exactly
            },
    {
    }

    /// An order is refunded exactly where the command names it and a reason, its
    /// intent was not processed elsewhere and the other invariants hold.
    pub proof fn law_refund_is_owed(self, cmd: RefundOrderView)
        ensures
            self.refund_order(cmd).1 is Ok <==> {
                &&& cmd.order_id == self.id
                &&& !text::is_blank_text(cmd.order_id)
                &&& !text::is_blank_text(cmd.reason)
                &&& self.currency_is_fiat_via_stripe
                &&& self.order_total == self.line_items_total
                &&& self.webhook_hmac_verified
                &&& self.payment_intent_already_processed ==> self.payment_confirmed
                &&& self.refund_reverses_exactly
            },
    {
    }

    /// Fulfillment occurs only after payment is confirmed by a verified webhook.
    pub proof fn law_fulfillment_needs_confirmation(self, cmd: FulfillOrderView)
        ensures
            self.fulfill_order(cmd).1 is Ok ==> self.webhook_hmac_verified
                && self.payment_confirmed && !self.already_fulfilled,
    {
    }
}

impl OrderView {
    /// Every command goes to its own handler, a payload that does not read is
    /// refused with the complaint about it, and a name that is none of these is
    /// unknown; what is refused otherwise is refused for a broken rule.
    pub proof fn law_commands_are_routed(self, command: CommandView<PayloadView<RequestView>>)
        ensures
            command.name == "CreateOrderCmd"@ ==> match command.payload {
                PayloadView::Decoded(RequestView::CreateOrder(cmd)) => self.execute(command)
                    == self.create_order(cmd),
                PayloadView::Decoded(_) => self.execute(command).1 is Err,
                PayloadView::Malformed(complaint) => self.execute(command).1 == shared::violation::<
                    EventView,
                >("malformed "@ + "CreateOrderCmd"@ + " payload: "@ + complaint),
            },
            command.name == "ConfirmPaymentCmd"@ ==> match command.payload {
                PayloadView::Decoded(RequestView::ConfirmPayment(cmd)) => self.execute(command)
                    == self.confirm_payment(cmd),
                PayloadView::Decoded(_) => self.execute(command).1 is Err,
                PayloadView::Malformed(complaint) => self.execute(command).1 == shared::violation::<
                    EventView,
                >("malformed "@ + "ConfirmPaymentCmd"@ + " payload: "@ + complaint),
            },
            command.name == "FulfillOrderCmd"@ ==> match command.payload {
                PayloadView::Decoded(RequestView::FulfillOrder(cmd)) => self.execute(command)
                    == self.fulfill_order(cmd),
                PayloadView::Decoded(_) => self.execute(command).1 is Err,
                PayloadView::Malformed(complaint) => self.execute(command).1 == shared::violation::<
                    EventView,
                >("malformed "@ + "FulfillOrderCmd"@ + " payload: "@ + complaint),
            },
            command.name == "RefundOrderCmd"@ ==> match command.payload {
                PayloadView::Decoded(RequestView::RefundOrder(cmd)) => self.execute(command)
                    == self.refund_order(cmd),
                PayloadView::Decoded(_) => self.execute(command).1 is Err,
                PayloadView::Malformed(complaint) => self.execute(command).1 == shared::violation::<
                    EventView,
                >("malformed "@ + "RefundOrderCmd"@ + " payload: "@ + complaint),
            },
            ({
                &&& command.name != "CreateOrderCmd"@
                &&& command.name != "ConfirmPaymentCmd"@
                &&& command.name != "FulfillOrderCmd"@
                &&& command.name != "RefundOrderCmd"@
            }) ==> self.execute(command).1 == Err::<
                Seq<EventView>,
                shared::DomainErrorView,
            >(
                shared::DomainErrorView::UnknownCommand {
                    aggregate: "Order"@,
                    command: command.name,
                },
            ),
            self.execute(command).1 matches Err(error) ==> (error is InvariantViolation <==> {
                ||| command.name == "CreateOrderCmd"@
                ||| command.name == "ConfirmPaymentCmd"@
                ||| command.name == "FulfillOrderCmd"@
                ||| command.name == "RefundOrderCmd"@
            }),
    {
        reveal_strlit("CreateOrderCmd");
        reveal_strlit("ConfirmPaymentCmd");
        reveal_strlit("FulfillOrderCmd");
        reveal_strlit("RefundOrderCmd");
        assert("CreateOrderCmd"@.len() == 14);
        assert("ConfirmPaymentCmd"@.len() == 17);
        assert("FulfillOrderCmd"@.len() == 15);
        assert("CreateOrderCmd"@[0] == 'C');
        assert("RefundOrderCmd"@[0] == 'R');
        assert("RefundOrderCmd"@.len() == 14);
    }

    /// An opened order records the order, the player, the cart and the currency
    /// that were submitted; nothing else changes.
    pub proof fn law_creation_records_the_cart(self, cmd: CreateOrderView)
        requires
            self.create_order(cmd).1 is Ok,
        ensures
            ({
                let after = self.create_order(cmd).0;
                &&& self.create_order(cmd).1 matches Ok(events)
                &&& events.len() == 1
                &&& events[0].event_type() == "order.created"@
                &&& events[0] matches EventView::OrderCreated(said)
                &&& said.order_id == cmd.order_id
                &&& said.player_id == cmd.player_id
                &&& said.line_items == cmd.line_items
                &&& said.currency == cmd.currency
                &&& after == (OrderView {
                    events: self.events.push(events[0]),
                    ..self
                })
            }),
    {
    }

    /// A confirmation records the order and the payment intent that were submitted;
    /// the order keeps the intent and is confirmed and processed from then on;
    /// nothing else changes.
    pub proof fn law_confirmation_records_the_intent(self, cmd: ConfirmPaymentView)
        requires
            self.confirm_payment(cmd).1 is Ok,
        ensures
            ({
                let after = self.confirm_payment(cmd).0;
                &&& self.confirm_payment(cmd).1 matches Ok(events)
                &&& events.len() == 1
                &&& events[0].event_type() == "payment.confirmed"@
                &&& events[0] matches EventView::PaymentConfirmed(said)
                &&& said.order_id == cmd.order_id
                &&& said.payment_intent_ref == cmd.payment_intent_ref
                &&& after.payment_intent_id == cmd.payment_intent_ref
                &&& after.payment_confirmed
                &&& after.payment_intent_already_processed
                &&& after == (OrderView {
                    payment_intent_id: after.payment_intent_id,
                    payment_confirmed: after.payment_confirmed,
                    payment_intent_already_processed: after.payment_intent_already_processed,
                    events: self.events.push(events[0]),
                    ..self
                })
            }),
    {
    }

    /// A fulfillment records the order that was named with the payment intent it
    /// keeps and marks it fulfilled; nothing else changes.
    pub proof fn law_fulfillment_records_the_order(self, cmd: FulfillOrderView)
        requires
            self.fulfill_order(cmd).1 is Ok,
        ensures
            ({
                let after = self.fulfill_order(cmd).0;
                &&& self.fulfill_order(cmd).1 matches Ok(events)
                &&& events.len() == 1
                &&& events[0].event_type() == "order.fulfilled"@
                &&& events[0] matches EventView::OrderFulfilled(said)
                &&& said.order_id == cmd.order_id
                &&& said.payment_intent_id == self.payment_intent_id
                &&& after.already_fulfilled
                &&& after == (OrderView {
                    already_fulfilled: after.already_fulfilled,
                    events: self.events.push(events[0]),
                    ..self
                })
            }),
    {
    }

    /// A refund records the order and the reason that were submitted; nothing else
    /// changes.
    pub proof fn law_refund_records_the_reason(self, cmd: RefundOrderView)
        requires
            self.refund_order(cmd).1 is Ok,
        ensures
            ({
                let after = self.refund_order(cmd).0;
                &&& self.refund_order(cmd).1 matches Ok(events)
                &&& events.len() == 1
                &&& events[0].event_type() == "order.refunded"@
                &&& events[0] matches EventView::OrderRefunded(said)
                &&& said.order_id == cmd.order_id
                &&& said.reason == cmd.reason
                &&& after == (OrderView {
                    events: self.events.push(events[0]),
                    ..self
                })
            }),
    {
    }
}

impl CreateOrder {
    /// The view leaves nothing out: where two views agree, so does every field.
    pub proof fn law_view_leaves_nothing_out(self, other: CreateOrder)
        requires
            self@ == other@,
        ensures
            self.order_id@ == other.order_id@,
            self.player_id@ == other.player_id@,
            text::texts(self.line_items@) == text::texts(other.line_items@),
            self.currency@ == other.currency@,
    {
    }
}

impl ConfirmPayment {
    /// The view leaves nothing out: where two views agree, so does every field.
    pub proof fn law_view_leaves_nothing_out(self, other: ConfirmPayment)
        requires
            self@ == other@,
        ensures
            self.order_id@ == other.order_id@,
            self.payment_intent_ref@ == other.payment_intent_ref@,
    {
    }
}

impl FulfillOrder {
    /// The view leaves nothing out: where two views agree, so does every field.
    pub proof fn law_view_leaves_nothing_out(self, other: FulfillOrder)
        requires
            self@ == other@,
        ensures
            self.order_id@ == other.order_id@,
    {
    }
}

impl RefundOrder {
    /// The view leaves nothing out: where two views agree, so does every field.
    pub proof fn law_view_leaves_nothing_out(self, other: RefundOrder)
        requires
            self@ == other@,
        ensures
            self.order_id@ == other.order_id@,
            self.reason@ == other.reason@,
    {
    }
}

impl OrderCreated {
    /// The view leaves nothing out: where two views agree, so does every field.
    pub proof fn law_view_leaves_nothing_out(self, other: OrderCreated)
        requires
            self@ == other@,
        ensures
            self.order_id@ == other.order_id@,
            self.player_id@ == other.player_id@,
            text::texts(self.line_items@) == text::texts(other.line_items@),
            self.currency@ == other.currency@,
    {
    }
}

impl PaymentConfirmed {
    /// The view leaves nothing out: where two views agree, so does every field.
    pub proof fn law_view_leaves_nothing_out(self, other: PaymentConfirmed)
        requires
            self@ == other@,
        ensures
            self.order_id@ == other.order_id@,
            self.payment_intent_ref@ == other.payment_intent_ref@,
    {
    }
}

impl OrderFulfilled {
    /// The view leaves nothing out: where two views agree, so does every field.
    pub proof fn law_view_leaves_nothing_out(self, other: OrderFulfilled)
        requires
            self@ == other@,
        ensures
            self.order_id@ == other.order_id@,
            self.payment_intent_id@ == other.payment_intent_id@,
    {
    }
}

impl OrderRefunded {
    /// The view leaves nothing out: where two views agree, so does every field.
    pub proof fn law_view_leaves_nothing_out(self, other: OrderRefunded)
        requires
            self@ == other@,
        ensures
            self.order_id@ == other.order_id@,
            self.reason@ == other.reason@,
    {
    }
}

impl Event {
    /// The view leaves nothing out: where two views agree, so do the variants and
    /// what they carry.
    pub proof fn law_view_leaves_nothing_out(self, other: Event)
        requires
            self@ == other@,
        ensures
            match (self, other) {
                (Event::OrderCreated(a), Event::OrderCreated(b)) => a@ == b@,
                (Event::PaymentConfirmed(a), Event::PaymentConfirmed(b)) => a@ == b@,
                (Event::OrderFulfilled(a), Event::OrderFulfilled(b)) => a@ == b@,
                (Event::OrderRefunded(a), Event::OrderRefunded(b)) => a@ == b@,
                _ => false,
            },
    {
    }
}

impl Request {
    /// The view leaves nothing out: where two views agree, so do the variants and
    /// what they carry.
    pub proof fn law_view_leaves_nothing_out(self, other: Request)
        requires
            self@ == other@,
        ensures
            match (self, other) {
                (Request::CreateOrder(a), Request::CreateOrder(b)) => a@ == b@,
                (Request::ConfirmPayment(a), Request::ConfirmPayment(b)) => a@ == b@,
                (Request::FulfillOrder(a), Request::FulfillOrder(b)) => a@ == b@,
                (Request::RefundOrder(a), Request::RefundOrder(b)) => a@ == b@,
                _ => false,
            },
    {
    }
}

} // verus!
