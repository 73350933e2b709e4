use domain::order::ConfirmPayment;
use domain::order::CreateOrder;
use domain::order::Event;
use domain::order::FulfillOrder;
use domain::order::Order;
use domain::order::OrderCreated;
use domain::order::OrderFulfilled;
use domain::order::OrderRefunded;
use domain::order::PaymentConfirmed;
use domain::order::RefundOrder;
use domain::order::Request;
use domain::shared::Command;
use domain::shared::DomainError;
use domain::shared::Payload;

/// A confirmable and fulfillment-ready Order `o-01`: fiat via Stripe, total
/// matches line items, HMAC-verified webhook, payment confirmed, payment
/// intent not yet processed or fulfilled, refunds reverse exactly. Tests
/// mutate one aspect at a time to drive a specific rejection.
fn ready_order() -> Order {
    let mut order = Order::new("o-01");
    order.set_currency_is_fiat_via_stripe(true);
    order.set_order_total(4200);
    order.set_line_items_total(4200);
    order.set_total_matches_line_items(true);
    order.set_webhook_hmac_verified(true);
    order.set_payment_confirmed(true);
    order.set_payment_intent_already_processed(false);
    order.set_already_fulfilled(false);
    order.set_refund_reverses_exactly(true);
    order
}

/// A command confirming payment intent `pi_123` for order `o-01`.
fn valid_cmd() -> ConfirmPayment {
    ConfirmPayment::new("o-01", "pi_123")
}

/// A command refunding order `o-01` because the buyer requested it.
fn valid_refund_cmd() -> RefundOrder {
    RefundOrder::new("o-01", "buyer requested refund")
}

/// A command opening order `o-01` for player `p-01` from a two-SKU cart
/// settling in USD.
fn valid_create_cmd() -> CreateOrder {
    CreateOrder::new(
        "o-01",
        "p-01",
        vec!["sku-hoodie".to_string(), "sku-cap".to_string()],
        "USD",
    )
}

/// A command fulfilling order `o-01`.
fn valid_fulfill_cmd() -> FulfillOrder {
    FulfillOrder::new("o-01")
}

// Scenario: Successfully execute CreateOrderCmd.
#[test]
fn creates_and_emits_order_created_event() {
    let mut order = ready_order();

    let events = order
        .execute(valid_create_cmd().into_command())
        .expect("valid creation should succeed");

    assert_eq!(events.len(), 1);
    assert_eq!(events[0].event_type(), "order.created");
    match &events[0] {
        Event::OrderCreated(created) => {
            assert_eq!(created.order_id, "o-01");
            assert_eq!(created.player_id, "p-01");
            assert_eq!(created.line_items, vec!["sku-hoodie", "sku-cap"]);
            assert_eq!(created.currency, "USD");
        }
        other => panic!("expected OrderCreated, got {other:?}"),
    }
    // The Order recorded the event.
    assert_eq!(order.version(), 1);
    assert_eq!(order.uncommitted_events().len(), 1);
    assert_eq!(order.uncommitted_events()[0].event_type(), "order.created");
}

// Scenario: rejected — Payment currency is fiat via Stripe only — an Order
// may never settle in $MADE.
#[test]
fn create_rejects_when_currency_is_not_fiat_via_stripe() {
    let mut order = ready_order();
    // The Order attempts to settle in $MADE rather than fiat via Stripe.
    order.set_currency_is_fiat_via_stripe(false);

    let err = order
        .execute(valid_create_cmd().into_command())
        .expect_err("an Order settling in $MADE must be rejected");
    assert!(matches!(err, DomainError::InvariantViolation(_)));
    assert_eq!(order.version(), 0);
}

// Scenario: rejected — The order total must equal the sum of its line items.
#[test]
fn create_rejects_when_total_does_not_match_line_items() {
    let mut order = ready_order();
    // The order total no longer equals the sum of its line items.
    order.set_total_matches_line_items(false);

    let err = order
        .execute(valid_create_cmd().into_command())
        .expect_err("an Order whose total mismatches its line items must be rejected");
    assert!(matches!(err, DomainError::InvariantViolation(_)));
    assert_eq!(order.version(), 0);
}

// Scenario: rejected — Fulfillment occurs only after payment is confirmed via
// an HMAC-verified Stripe webhook.
#[test]
fn create_rejects_when_webhook_not_hmac_verified() {
    let mut order = ready_order();
    // The confirming webhook's HMAC signature was not verified.
    order.set_webhook_hmac_verified(false);

    let err = order
        .execute(valid_create_cmd().into_command())
        .expect_err("an unverified Stripe webhook must be rejected");
    assert!(matches!(err, DomainError::InvariantViolation(_)));
    assert_eq!(order.version(), 0);
}

// Scenario: rejected — Processing is idempotent per Stripe payment intent (no
// double-fulfillment).
#[test]
fn create_rejects_when_payment_intent_already_processed() {
    let mut order = ready_order();
    // This payment intent has already been processed once.
    order.set_payment_intent_already_processed(true);

    let err = order
        .execute(valid_create_cmd().into_command())
        .expect_err("an already-processed payment intent must be rejected");
    assert!(matches!(err, DomainError::InvariantViolation(_)));
    assert_eq!(order.version(), 0);
}

// Scenario: rejected — A refund reverses exactly the entitlements the order
// granted.
#[test]
fn create_rejects_when_refund_does_not_reverse_exactly() {
    let mut order = ready_order();
    // The refund/entitlement ledger is out of balance.
    order.set_refund_reverses_exactly(false);

    let err = order
        .execute(valid_create_cmd().into_command())
        .expect_err("an out-of-balance refund ledger must be rejected");
    assert!(matches!(err, DomainError::InvariantViolation(_)));
    assert_eq!(order.version(), 0);
}

// A CreateOrderCmd naming a different Order is rejected before any invariant
// runs.
#[test]
fn create_rejects_command_for_a_different_order() {
    let mut order = ready_order();
    let cmd = CreateOrder::new("o-99", "p-01", vec!["sku-cap".to_string()], "USD");

    let err = order
        .execute(cmd.into_command())
        .expect_err("a command for another order must be rejected");
    assert!(matches!(err, DomainError::InvariantViolation(_)));
    assert_eq!(order.version(), 0);
}

// CreateOrderCmd missing any required field (playerId, lineItems, currency,
// or an empty SKU) is rejected.
#[test]
fn create_rejects_command_with_missing_fields() {
    for cmd in [
        CreateOrder::new("o-01", "   ", vec!["sku-cap".to_string()], "USD"),
        CreateOrder::new("o-01", "p-01", Vec::<String>::new(), "USD"),
        CreateOrder::new("o-01", "p-01", vec!["   ".to_string()], "USD"),
        CreateOrder::new("o-01", "p-01", vec!["sku-cap".to_string()], "   "),
    ] {
        let mut order = ready_order();
        let err = order
            .execute(cmd.into_command())
            .expect_err("a command with a missing field must be rejected");
        assert!(matches!(err, DomainError::InvariantViolation(_)));
        assert_eq!(order.version(), 0);
    }
}

#[test]
fn create_command_payload_round_trips() {
    let cmd = valid_create_cmd();
    let command = cmd.into_command();
    assert_eq!(command.name, CreateOrder::COMMAND);
    let decoded: CreateOrder = match command.payload {
        Payload::Decoded(Request::CreateOrder(decoded)) => decoded,
        _ => panic!("expected the payload of CreateOrder"),
    };
    assert_eq!(decoded, valid_create_cmd());
}

// Scenario: Successfully execute FulfillOrderCmd.
#[test]
fn fulfills_and_emits_order_fulfilled_event() {
    let mut order = ready_order();

    let events = order
        .execute(valid_fulfill_cmd().into_command())
        .expect("valid fulfillment should succeed");

    assert_eq!(events.len(), 1);
    assert_eq!(events[0].event_type(), "order.fulfilled");
    match &events[0] {
        Event::OrderFulfilled(fulfilled) => {
            assert_eq!(fulfilled.order_id, "o-01");
            assert_eq!(fulfilled.payment_intent_id, "pi_o-01");
        }
        other => panic!("expected OrderFulfilled, got {other:?}"),
    }
    // The Order recorded the event.
    assert_eq!(order.version(), 1);
    assert_eq!(order.uncommitted_events().len(), 1);
    assert_eq!(
        order.uncommitted_events()[0].event_type(),
        "order.fulfilled"
    );
}

// Scenario: FulfillOrderCmd rejected — Payment currency is fiat via Stripe
// only — an Order may never settle in $MADE.
#[test]
fn fulfill_rejects_when_currency_is_not_fiat_via_stripe() {
    let mut order = ready_order();
    // The Order attempts to settle in $MADE rather than fiat via Stripe.
    order.set_currency_is_fiat(false);

    let err = order
        .execute(valid_fulfill_cmd().into_command())
        .expect_err("an Order settling in $MADE must be rejected");
    assert!(matches!(err, DomainError::InvariantViolation(_)));
    assert_eq!(order.version(), 0);
}

// Scenario: FulfillOrderCmd rejected — The order total must equal the sum of
// its line items.
#[test]
fn fulfill_rejects_when_total_does_not_match_line_items() {
    let mut order = ready_order();
    // The recorded total no longer equals the sum of the line items.
    order.set_line_items_total(4199);

    let err = order
        .execute(valid_fulfill_cmd().into_command())
        .expect_err("an Order whose total mismatches its line items must be rejected");
    assert!(matches!(err, DomainError::InvariantViolation(_)));
    assert_eq!(order.version(), 0);
}

// Scenario: FulfillOrderCmd rejected — Fulfillment occurs only after payment
// is confirmed via an HMAC-verified Stripe webhook.
#[test]
fn fulfill_rejects_when_payment_not_confirmed() {
    let mut order = ready_order();
    // Payment has not been confirmed by an HMAC-verified Stripe webhook.
    order.set_payment_confirmed(false);

    let err = order
        .execute(valid_fulfill_cmd().into_command())
        .expect_err("an unconfirmed payment must be rejected");
    assert!(matches!(err, DomainError::InvariantViolation(_)));
    assert_eq!(order.version(), 0);
}

// Scenario: FulfillOrderCmd rejected — Fulfillment occurs only after payment
// is confirmed via an HMAC-verified Stripe webhook.
#[test]
fn fulfill_rejects_when_webhook_not_hmac_verified() {
    let mut order = ready_order();
    // The confirming webhook's HMAC signature was not verified.
    order.set_webhook_hmac_verified(false);

    let err = order
        .execute(valid_fulfill_cmd().into_command())
        .expect_err("an unverified Stripe webhook must be rejected");
    assert!(matches!(err, DomainError::InvariantViolation(_)));
    assert_eq!(order.version(), 0);
}

// Scenario: FulfillOrderCmd rejected — Processing is idempotent per Stripe
// payment intent (no double-fulfillment).
#[test]
fn fulfill_rejects_when_already_fulfilled() {
    let mut order = ready_order();
    // The Order was already fulfilled for its payment intent.
    order.set_already_fulfilled(true);

    let err = order
        .execute(valid_fulfill_cmd().into_command())
        .expect_err("a double-fulfillment must be rejected");
    assert!(matches!(err, DomainError::InvariantViolation(_)));
    assert_eq!(order.version(), 0);
}

// Scenario: FulfillOrderCmd rejected — A refund reverses exactly the
// entitlements the order granted.
#[test]
fn fulfill_rejects_when_refund_does_not_reverse_exactly() {
    let mut order = ready_order();
    // The refund/entitlement ledger is out of balance.
    order.set_refund_reverses_exactly(false);

    let err = order
        .execute(valid_fulfill_cmd().into_command())
        .expect_err("an out-of-balance refund ledger must be rejected");
    assert!(matches!(err, DomainError::InvariantViolation(_)));
    assert_eq!(order.version(), 0);
}

// Fulfillment is idempotent per payment intent: a second FulfillOrderCmd is
// rejected once the first has granted the entitlements.
#[test]
fn second_fulfillment_is_rejected() {
    let mut order = ready_order();

    order
        .execute(valid_fulfill_cmd().into_command())
        .expect("first fulfillment should succeed");

    let err = order
        .execute(valid_fulfill_cmd().into_command())
        .expect_err("a second fulfillment for the same payment intent must be rejected");
    assert!(matches!(err, DomainError::InvariantViolation(_)));
    // No second event was recorded.
    assert_eq!(order.version(), 1);
    assert_eq!(order.uncommitted_events().len(), 1);
}

// A confirmed payment intent is the idempotency key carried by fulfillment.
#[test]
fn fulfillment_uses_confirmed_payment_intent() {
    let mut order = ready_order();

    order
        .execute(valid_cmd().into_command())
        .expect("payment confirmation should succeed");
    let events = order
        .execute(valid_fulfill_cmd().into_command())
        .expect("fulfillment after confirmation should succeed");

    match &events[0] {
        Event::OrderFulfilled(fulfilled) => {
            assert_eq!(fulfilled.order_id, "o-01");
            assert_eq!(fulfilled.payment_intent_id, "pi_123");
        }
        other => panic!("expected OrderFulfilled, got {other:?}"),
    }
    assert_eq!(order.version(), 2);
    assert_eq!(order.uncommitted_events().len(), 2);
}

// A FulfillOrderCmd naming a different Order is rejected before any
// invariant runs.
#[test]
fn fulfill_rejects_command_for_a_different_order() {
    let mut order = ready_order();
    let cmd = FulfillOrder::new("o-99");

    let err = order
        .execute(cmd.into_command())
        .expect_err("a command for another order must be rejected");
    assert!(matches!(err, DomainError::InvariantViolation(_)));
    assert_eq!(order.version(), 0);
}

// FulfillOrderCmd missing orderId is rejected.
#[test]
fn fulfill_rejects_command_with_missing_order_id() {
    let mut order = ready_order();
    let err = order
        .execute(FulfillOrder::new("   ").into_command())
        .expect_err("a command with a missing orderId must be rejected");
    assert!(matches!(err, DomainError::InvariantViolation(_)));
    assert_eq!(order.version(), 0);
}

#[test]
fn fulfill_command_payload_round_trips() {
    let cmd = valid_fulfill_cmd();
    let command = cmd.into_command();
    assert_eq!(command.name, FulfillOrder::COMMAND);
    let decoded: FulfillOrder = match command.payload {
        Payload::Decoded(Request::FulfillOrder(decoded)) => decoded,
        _ => panic!("expected the payload of FulfillOrder"),
    };
    assert_eq!(decoded, valid_fulfill_cmd());
}

// Scenario: Successfully execute ConfirmPaymentCmd.
#[test]
fn confirms_and_emits_payment_confirmed_event() {
    let mut order = ready_order();

    let events = order
        .execute(valid_cmd().into_command())
        .expect("valid confirmation should succeed");

    assert_eq!(events.len(), 1);
    assert_eq!(events[0].event_type(), "payment.confirmed");
    match &events[0] {
        Event::PaymentConfirmed(confirmed) => {
            assert_eq!(confirmed.order_id, "o-01");
            assert_eq!(confirmed.payment_intent_ref, "pi_123");
        }
        other => panic!("expected PaymentConfirmed, got {other:?}"),
    }
    // The Order recorded the event.
    assert_eq!(order.version(), 1);
    assert_eq!(order.uncommitted_events().len(), 1);
    assert_eq!(
        order.uncommitted_events()[0].event_type(),
        "payment.confirmed"
    );
}

// Scenario: rejected — Payment currency is fiat via Stripe only — an Order
// may never settle in $MADE.
#[test]
fn rejects_when_currency_is_not_fiat_via_stripe() {
    let mut order = ready_order();
    // The Order attempts to settle in $MADE rather than fiat via Stripe.
    order.set_currency_is_fiat_via_stripe(false);

    let err = order
        .execute(valid_cmd().into_command())
        .expect_err("an Order settling in $MADE must be rejected");
    assert!(matches!(err, DomainError::InvariantViolation(_)));
    assert_eq!(order.version(), 0);
}

// Scenario: rejected — The order total must equal the sum of its line items.
#[test]
fn rejects_when_total_does_not_match_line_items() {
    let mut order = ready_order();
    // The order total no longer equals the sum of its line items.
    order.set_total_matches_line_items(false);

    let err = order
        .execute(valid_cmd().into_command())
        .expect_err("an Order whose total mismatches its line items must be rejected");
    assert!(matches!(err, DomainError::InvariantViolation(_)));
    assert_eq!(order.version(), 0);
}

// Scenario: rejected — Fulfillment occurs only after payment is confirmed via
// an HMAC-verified Stripe webhook.
#[test]
fn rejects_when_webhook_not_hmac_verified() {
    let mut order = ready_order();
    // The confirming webhook's HMAC signature was not verified.
    order.set_webhook_hmac_verified(false);

    let err = order
        .execute(valid_cmd().into_command())
        .expect_err("an unverified Stripe webhook must be rejected");
    assert!(matches!(err, DomainError::InvariantViolation(_)));
    assert_eq!(order.version(), 0);
}

// Scenario: rejected — Processing is idempotent per Stripe payment intent (no
// double-fulfillment).
#[test]
fn rejects_when_payment_intent_already_processed() {
    let mut order = ready_order();
    // This payment intent has already been processed once.
    order.set_payment_intent_already_processed(true);

    let err = order
        .execute(valid_cmd().into_command())
        .expect_err("an already-processed payment intent must be rejected");
    assert!(matches!(err, DomainError::InvariantViolation(_)));
    assert_eq!(order.version(), 0);
}

// Idempotency in practice: a second confirmation of the same payment intent
// is rejected because the first marked it processed (no double-fulfillment).
#[test]
fn rejects_a_replayed_confirmation_of_the_same_intent() {
    let mut order = ready_order();

    order
        .execute(valid_cmd().into_command())
        .expect("first confirmation should succeed");
    // The webhook is redelivered for the same intent.
    let err = order
        .execute(valid_cmd().into_command())
        .expect_err("a replayed confirmation must be rejected");
    assert!(matches!(err, DomainError::InvariantViolation(_)));
    // Still exactly one recorded event — no double-fulfillment.
    assert_eq!(order.version(), 1);
    assert_eq!(order.uncommitted_events().len(), 1);
}

// Scenario: rejected — A refund reverses exactly the entitlements the order
// granted.
#[test]
fn rejects_when_refund_does_not_reverse_exactly() {
    let mut order = ready_order();
    // The refund/entitlement ledger is out of balance.
    order.set_refund_reverses_exactly(false);

    let err = order
        .execute(valid_cmd().into_command())
        .expect_err("an out-of-balance refund ledger must be rejected");
    assert!(matches!(err, DomainError::InvariantViolation(_)));
    assert_eq!(order.version(), 0);
}

// A command naming a different Order is rejected before any invariant runs.
#[test]
fn rejects_command_for_a_different_order() {
    let mut order = ready_order();
    let cmd = ConfirmPayment::new("o-99", "pi_123");

    let err = order
        .execute(cmd.into_command())
        .expect_err("a command for another order must be rejected");
    assert!(matches!(err, DomainError::InvariantViolation(_)));
    assert_eq!(order.version(), 0);
}

// Commands missing any required field are rejected.
#[test]
fn order_rejects_command_with_missing_fields() {
    for cmd in [
        ConfirmPayment::new("   ", "pi_123"),
        ConfirmPayment::new("o-01", "   "),
    ] {
        let mut order = ready_order();
        let err = order
            .execute(cmd.into_command())
            .expect_err("a command with a missing field must be rejected");
        assert!(matches!(err, DomainError::InvariantViolation(_)));
        assert_eq!(order.version(), 0);
    }
}

// An unrecognized command is still an UnknownCommand for this aggregate,
// preserving the contract the mock adapters rely on.
#[test]
fn order_rejects_unknown_command() {
    let mut order = Order::new("o-01");
    let err = order.execute(Command::new("NoSuchCommand")).unwrap_err();
    match err {
        DomainError::UnknownCommand { aggregate, command } => {
            assert_eq!(aggregate, "Order");
            assert_eq!(command, "NoSuchCommand");
        }
        other => panic!("expected UnknownCommand, got {other:?}"),
    }
}

#[test]
fn order_command_payload_round_trips() {
    let cmd = valid_cmd();
    let command = cmd.into_command();
    assert_eq!(command.name, ConfirmPayment::COMMAND);
    let decoded: ConfirmPayment = match command.payload {
        Payload::Decoded(Request::ConfirmPayment(decoded)) => decoded,
        _ => panic!("expected the payload of ConfirmPayment"),
    };
    assert_eq!(decoded, valid_cmd());
}

// Scenario: Successfully execute RefundOrderCmd.
#[test]
fn refunds_and_emits_order_refunded_event() {
    let mut order = ready_order();

    let events = order
        .execute(valid_refund_cmd().into_command())
        .expect("valid refund should succeed");

    assert_eq!(events.len(), 1);
    assert_eq!(events[0].event_type(), "order.refunded");
    match &events[0] {
        Event::OrderRefunded(refunded) => {
            assert_eq!(refunded.order_id, "o-01");
            assert_eq!(refunded.reason, "buyer requested refund");
        }
        other => panic!("expected OrderRefunded, got {other:?}"),
    }
    // The Order recorded the refund event.
    assert_eq!(order.version(), 1);
    assert_eq!(order.uncommitted_events().len(), 1);
    assert_eq!(order.uncommitted_events()[0].event_type(), "order.refunded");
}

#[test]
fn refunds_after_successful_payment_confirmation() {
    let mut order = ready_order();

    order
        .execute(valid_cmd().into_command())
        .expect("payment confirmation should succeed");
    let events = order
        .execute(valid_refund_cmd().into_command())
        .expect("a confirmed order should be refundable");

    assert_eq!(events.len(), 1);
    assert_eq!(events[0].event_type(), "order.refunded");
    assert_eq!(order.version(), 2);
    assert_eq!(order.uncommitted_events().len(), 2);
    assert_eq!(
        order.uncommitted_events()[0].event_type(),
        "payment.confirmed"
    );
    assert_eq!(order.uncommitted_events()[1].event_type(), "order.refunded");
}

// Scenario: RefundOrderCmd rejected — Payment currency is fiat via Stripe
// only — an Order may never settle in $MADE.
#[test]
fn refund_rejects_when_currency_is_not_fiat_via_stripe() {
    let mut order = ready_order();
    // The Order attempts to settle in $MADE rather than fiat via Stripe.
    order.set_currency_is_fiat_via_stripe(false);

    let err = order
        .execute(valid_refund_cmd().into_command())
        .expect_err("an Order settling in $MADE must be rejected");
    assert!(matches!(err, DomainError::InvariantViolation(_)));
    assert_eq!(order.version(), 0);
}

// Scenario: RefundOrderCmd rejected — The order total must equal the sum of
// its line items.
#[test]
fn refund_rejects_when_total_does_not_match_line_items() {
    let mut order = ready_order();
    // The order total no longer equals the sum of its line items.
    order.set_total_matches_line_items(false);

    let err = order
        .execute(valid_refund_cmd().into_command())
        .expect_err("an Order whose total mismatches its line items must be rejected");
    assert!(matches!(err, DomainError::InvariantViolation(_)));
    assert_eq!(order.version(), 0);
}

// Scenario: RefundOrderCmd rejected — Fulfillment occurs only after payment
// is confirmed via an HMAC-verified Stripe webhook.
#[test]
fn refund_rejects_when_webhook_not_hmac_verified() {
    let mut order = ready_order();
    // The confirming webhook's HMAC signature was not verified.
    order.set_webhook_hmac_verified(false);

    let err = order
        .execute(valid_refund_cmd().into_command())
        .expect_err("an unverified Stripe webhook must be rejected");
    assert!(matches!(err, DomainError::InvariantViolation(_)));
    assert_eq!(order.version(), 0);
}

// Scenario: RefundOrderCmd rejected — Processing is idempotent per Stripe
// payment intent (no double-fulfillment).
#[test]
fn refund_rejects_when_payment_intent_already_processed() {
    let mut order = ready_order();
    // This payment intent was processed outside this Order (processed with no
    // confirmation of our own), so a refund against it is rejected.
    order.set_payment_intent_already_processed(true);
    order.set_payment_confirmed(false);

    let err = order
        .execute(valid_refund_cmd().into_command())
        .expect_err("an already-processed payment intent must be rejected");
    assert!(matches!(err, DomainError::InvariantViolation(_)));
    assert_eq!(order.version(), 0);
}

// Scenario: RefundOrderCmd rejected — A refund reverses exactly the
// entitlements the order granted.
#[test]
fn refund_rejects_when_refund_does_not_reverse_exactly() {
    let mut order = ready_order();
    // The refund/entitlement ledger is out of balance.
    order.set_refund_reverses_exactly(false);

    let err = order
        .execute(valid_refund_cmd().into_command())
        .expect_err("an out-of-balance refund ledger must be rejected");
    assert!(matches!(err, DomainError::InvariantViolation(_)));
    assert_eq!(order.version(), 0);
}

// RefundOrderCmd naming a different Order is rejected before any invariant
// runs.
#[test]
fn refund_rejects_command_for_a_different_order() {
    let mut order = ready_order();
    let cmd = RefundOrder::new("o-99", "buyer requested refund");

    let err = order
        .execute(cmd.into_command())
        .expect_err("a refund for another order must be rejected");
    assert!(matches!(err, DomainError::InvariantViolation(_)));
    assert_eq!(order.version(), 0);
}

// RefundOrderCmd missing any required field is rejected.
#[test]
fn refund_rejects_command_with_missing_fields() {
    for cmd in [
        RefundOrder::new("   ", "buyer requested refund"),
        RefundOrder::new("o-01", "   "),
    ] {
        let mut order = ready_order();
        let err = order
            .execute(cmd.into_command())
            .expect_err("a refund command with a missing field must be rejected");
        assert!(matches!(err, DomainError::InvariantViolation(_)));
        assert_eq!(order.version(), 0);
    }
}

#[test]
fn refund_command_payload_round_trips() {
    let cmd = valid_refund_cmd();
    let command = cmd.into_command();
    assert_eq!(command.name, RefundOrder::COMMAND);
    let decoded: RefundOrder = match command.payload {
        Payload::Decoded(Request::RefundOrder(decoded)) => decoded,
        _ => panic!("expected the payload of RefundOrder"),
    };
    assert_eq!(decoded, valid_refund_cmd());
}

fn message(err: DomainError) -> String {
    match err {
        DomainError::InvariantViolation(message) => message,
        other => panic!("expected InvariantViolation, got {other:?}"),
    }
}

fn create_refusal(change: fn(&mut Order, &mut CreateOrder)) -> String {
    let mut order = ready_order();
    let mut cmd = valid_create_cmd();
    change(&mut order, &mut cmd);
    let err = order.execute(cmd.into_command()).unwrap_err();
    assert_eq!(order.version(), 0);
    message(err)
}

#[test]
fn order_refusals_are_exact() {
    assert_eq!(
        create_refusal(|_, cmd| cmd.order_id = " ".to_string()),
        "order 'o-01' requires a valid orderId to be created"
    );
    assert_eq!(
        create_refusal(|_, cmd| cmd.player_id = " ".to_string()),
        "order 'o-01' requires a valid playerId to be created"
    );
    assert_eq!(
        create_refusal(|_, cmd| cmd.line_items[1] = "\t".to_string()),
        "order 'o-01' requires a non-empty cart of lineItems to be created"
    );
    assert_eq!(
        create_refusal(|_, cmd| cmd.line_items.clear()),
        "order 'o-01' requires a non-empty cart of lineItems to be created"
    );
    assert_eq!(
        create_refusal(|_, cmd| cmd.currency = " ".to_string()),
        "order 'o-01' requires a valid currency to be created"
    );
    assert_eq!(
        create_refusal(|_, cmd| cmd.order_id = "o-02".to_string()),
        "command targets order 'o-02' but this aggregate is order 'o-01'"
    );
    assert_eq!(
        create_refusal(|order, _| order.set_currency_is_fiat(false)),
        "order 'o-01' would settle in $MADE; payment currency is fiat via Stripe only — an Order \
         may never settle in $MADE"
    );
    assert_eq!(
        create_refusal(|order, _| order.set_line_items_total(-1)),
        "order 'o-01' total 4200 does not equal its line-item sum -1; the order total must equal \
         the sum of its line items"
    );
    assert_eq!(
        create_refusal(|order, _| order.set_webhook_hmac_verified(false)),
        "order 'o-01' payment was not confirmed via an HMAC-verified Stripe webhook; fulfillment \
         occurs only after payment is confirmed via an HMAC-verified Stripe webhook"
    );
    assert_eq!(
        create_refusal(|order, _| order.set_payment_intent_already_processed(true)),
        "order 'o-01' payment intent was already processed; processing is idempotent per Stripe \
         payment intent (no double-fulfillment)"
    );
    assert_eq!(
        create_refusal(|order, _| order.set_refund_reverses_exactly(false)),
        "order 'o-01' refund/entitlement ledger is out of balance; a refund reverses exactly the \
         entitlements the order granted"
    );
}

#[test]
fn fulfillment_refusals_are_exact() {
    let mut order = ready_order();
    order.set_payment_confirmed(false);
    assert_eq!(
        message(order.execute(valid_fulfill_cmd().into_command()).unwrap_err()),
        "order 'o-01' has no confirmed payment; fulfillment occurs only after payment is confirmed \
         via an HMAC-verified Stripe webhook"
    );
    order.execute(valid_cmd().into_command()).unwrap();
    order.execute(valid_fulfill_cmd().into_command()).unwrap();
    assert_eq!(
        message(order.execute(valid_fulfill_cmd().into_command()).unwrap_err()),
        "order 'o-01' is already fulfilled for payment intent 'pi_123'; processing is idempotent \
         per Stripe payment intent (no double-fulfillment)"
    );
    assert_eq!(order.version(), 2);
}

#[test]
fn a_payment_processed_elsewhere_cannot_be_refunded() {
    let mut order = ready_order();
    order.set_payment_confirmed(false);
    order.set_payment_intent_already_processed(true);
    assert_eq!(
        message(order.execute(valid_refund_cmd().into_command()).unwrap_err()),
        "order 'o-01' payment intent was already processed outside this Order; processing is \
         idempotent per Stripe payment intent (no double-fulfillment)"
    );
}

#[test]
fn a_confirmed_order_goes_its_whole_way() {
    let mut order = ready_order();
    order.set_payment_confirmed(false);
    order.execute(valid_create_cmd().into_command()).unwrap();
    order.execute(valid_cmd().into_command()).unwrap();
    assert_eq!(order.payment_intent_id(), "pi_123");
    assert!(order.execute(valid_cmd().into_command()).is_err());
    assert!(order.execute(valid_create_cmd().into_command()).is_err());
    order.execute(valid_fulfill_cmd().into_command()).unwrap();
    order.execute(valid_refund_cmd().into_command()).unwrap();
    let types: Vec<&str> = order.uncommitted_events().iter().map(|e| e.event_type()).collect();
    assert_eq!(
        types,
        ["order.created", "payment.confirmed", "order.fulfilled", "order.refunded"]
    );
}

#[test]
fn totals_are_told_apart_up_to_the_bounds() {
    let mut order = ready_order();
    order.set_total_matches_line_items(false);
    assert_eq!(order.line_items_total(), 4201);
    order.set_total_matches_line_items(true);
    assert_eq!(order.line_items_total(), 4200);
    order.set_order_total(i64::MIN);
    order.set_total_matches_line_items(false);
    assert_eq!(order.line_items_total(), i64::MIN + 1);
    order.set_order_total(i64::MAX);
    order.set_total_matches_line_items(false);
    assert_eq!(order.line_items_total(), i64::MAX - 1);
    assert_eq!(order.order_total(), i64::MAX);
    order.set_total_matches_line_items(true);
    assert_eq!(order.line_items_total(), i64::MAX);
}

#[test]
fn an_order_is_never_opened_in_the_in_game_currency() {
    let mut order = Order::new("o-01");
    let cmd = CreateOrder::new("o-01", "p-01", vec!["sku-cap".to_string()], "$MADE");
    let err = order.execute(cmd.into_command()).unwrap_err();
    assert_eq!(
        message(err),
        "order 'o-01' would settle in $MADE; payment currency is fiat via Stripe only — an Order \
         may never settle in $MADE"
    );
    assert_eq!(order.version(), 0);
    // The order that is named comes first.
    let cmd = CreateOrder::new("o-02", "p-01", vec!["sku-cap".to_string()], "$MADE");
    assert_eq!(
        message(order.execute(cmd.into_command()).unwrap_err()),
        "command targets order 'o-02' but this aggregate is order 'o-01'"
    );
    let cmd = CreateOrder::new("o-01", "p-01", vec!["sku-cap".to_string()], "USD");
    assert!(order.execute(cmd.into_command()).is_ok());
}

#[test]
fn nothing_that_comes_between_opens_an_order_again() {
    let mut order = ready_order();
    order.set_payment_confirmed(false);
    order.execute(valid_cmd().into_command()).unwrap();
    order.execute(valid_fulfill_cmd().into_command()).unwrap();
    for _ in 0..3 {
        order.execute(valid_refund_cmd().into_command()).unwrap();
        assert!(order.execute(valid_create_cmd().into_command()).is_err());
        assert!(order.execute(Command::new("PingCmd")).is_err());
        assert!(order.execute(valid_cmd().into_command()).is_err());
        assert!(order.execute(valid_fulfill_cmd().into_command()).is_err());
    }
}
