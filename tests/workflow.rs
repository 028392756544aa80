use order_taking::events::{
    AcknowledgmentSent, BillableOrderPlaced, PlaceOrderEvent, ShippableOrderPlaced,
};
use order_taking::order_types::{
    Letter, PricedOrder, PricedOrderWithShipping, SendResult, ShippingMethod, UnvalidatedOrder,
    UnvalidatedOrderLine,
};
use order_taking::simple_types::{OrderId, Price, ProductCode};
use order_taking::workflow::{
    place_order, CollaboratorAnswer, PlaceOrder, PlaceOrderAction, PlaceOrderError,
};

/// Stand-ins for the six collaborators, answering synchronously.
struct Collaborators {
    check_product_exists: fn(&ProductCode) -> Result<(), String>,
    check_address_exists: fn(&OrderId) -> Result<(), String>,
    get_product_price: fn(&ProductCode) -> Result<Price, String>,
    calculate_shipping_cost: fn(&PricedOrder) -> Result<Price, String>,
    create_acknowledgment_letter: fn(&PricedOrderWithShipping) -> Result<Letter, String>,
    send_order_acknowledgement: fn(&Letter) -> Result<SendResult, String>,
}

fn standard() -> Collaborators {
    Collaborators {
        check_product_exists: |_| Ok(()),
        check_address_exists: |_| Ok(()),
        get_product_price: |code| match code.as_str() {
            "P1" => Ok(Price::new(500)),
            "P2" => Ok(Price::new(300)),
            _ => Err(String::from("unknown product")),
        },
        calculate_shipping_cost: |_| Ok(Price::new(200)),
        create_acknowledgment_letter: |_| Ok(Letter { content: String::from("Foo") }),
        send_order_acknowledgement: |_| Ok(SendResult::Sent),
    }
}

/// Runs the workflow to its end; also returns the collaborators asked, in
/// order, and the shipped order that the letter was created for.
fn run(
    order: UnvalidatedOrder,
    c: &Collaborators,
) -> (
    Result<Vec<PlaceOrderEvent>, PlaceOrderError<String>>,
    Vec<&'static str>,
    Option<PricedOrderWithShipping>,
) {
    let mut asked = Vec::new();
    let mut shipped = None;
    let (mut state, mut action): (PlaceOrder, PlaceOrderAction<String>) = place_order(order);
    loop {
        let answer = match action {
            PlaceOrderAction::CheckOrder { order_id, product_codes } => {
                asked.push("check");
                CollaboratorAnswer::OrderChecked {
                    product_checks: product_codes
                        .iter()
                        .map(|code| (c.check_product_exists)(code))
                        .collect(),
                    address_check: (c.check_address_exists)(&order_id),
                }
            },
            PlaceOrderAction::GetProductPrices { product_codes } => {
                asked.push("price");
                CollaboratorAnswer::PricesFound {
                    prices: product_codes.iter().map(|code| (c.get_product_price)(code)).collect(),
                }
            },
            PlaceOrderAction::CalculateShippingCost { priced_order } => {
                asked.push("shipping");
                CollaboratorAnswer::ShippingCostCalculated((c.calculate_shipping_cost)(
                    &priced_order,
                ))
            },
            PlaceOrderAction::CreateAcknowledgmentLetter { shipped_order } => {
                asked.push("letter");
                let letter = (c.create_acknowledgment_letter)(&shipped_order);
                shipped = Some(shipped_order);
                CollaboratorAnswer::LetterCreated(letter)
            },
            PlaceOrderAction::SendOrderAcknowledgement { acknowledgment } => {
                asked.push("send");
                CollaboratorAnswer::AcknowledgmentSendResult((c.send_order_acknowledgement)(
                    &acknowledgment.letter,
                ))
            },
            PlaceOrderAction::Complete(result) => return (result, asked, shipped),
        };
        assert!(state.accepts(&answer));
        let next = state.step(answer);
        state = next.0;
        action = next.1;
    }
}

fn two_line_order() -> UnvalidatedOrder {
    UnvalidatedOrder {
        id: String::from("O1"),
        lines: vec![
            UnvalidatedOrderLine {
                order_line_id: String::from("L1"),
                product_code: String::from("P1"),
            },
            UnvalidatedOrderLine {
                order_line_id: String::from("L2"),
                product_code: String::from("P2"),
            },
        ],
    }
}

fn o1() -> OrderId {
    OrderId::new(String::from("O1"))
}

#[test]
fn places_an_order_end_to_end() {
    let (result, asked, shipped) = run(two_line_order(), &standard());
    let shipped = shipped.unwrap();
    assert_eq!(shipped.priced_order.amount_to_bill().value(), 800);
    assert_eq!(shipped.shipping.price, Price::new(200));
    assert_eq!(shipped.shipping.method, ShippingMethod::Postal);
    assert_eq!(asked, vec!["check", "price", "shipping", "letter", "send"]);
    assert_eq!(
        result,
        Ok(vec![
            PlaceOrderEvent::AcknowledgmentSent(AcknowledgmentSent { order_id: o1() }),
            PlaceOrderEvent::BillableOrderPlaced(BillableOrderPlaced {
                order_id: o1(),
                amount_to_bill: shipped.priced_order.amount_to_bill(),
            }),
            PlaceOrderEvent::ShippableOrderPlaced(ShippableOrderPlaced { order_id: o1() }),
        ])
    );
}

#[test]
fn pricing_failure_short_circuits() {
    let mut c = standard();
    c.get_product_price = |code| match code.as_str() {
        "P1" => Ok(Price::new(500)),
        _ => Err(String::from("price unavailable")),
    };
    let (result, asked, shipped) = run(two_line_order(), &c);
    assert_eq!(result, Err(PlaceOrderError::Pricing(String::from("price unavailable"))));
    assert_eq!(asked, vec!["check", "price"]);
    assert!(shipped.is_none());
}

#[test]
fn unsent_acknowledgement_still_bills_and_ships() {
    let mut c = standard();
    c.send_order_acknowledgement = |_| Ok(SendResult::NotSent);
    let (result, _, _) = run(two_line_order(), &c);
    let events = result.unwrap();
    assert_eq!(events.len(), 2);
    assert!(matches!(events[0], PlaceOrderEvent::BillableOrderPlaced(_)));
    assert_eq!(
        events[1],
        PlaceOrderEvent::ShippableOrderPlaced(ShippableOrderPlaced { order_id: o1() })
    );
}

#[test]
fn unknown_product_fails_validation() {
    let mut c = standard();
    c.check_product_exists = |code| {
        if code.as_str() == "P2" {
            Err(String::from("Product does not exist"))
        } else {
            Ok(())
        }
    };
    let (result, asked, _) = run(two_line_order(), &c);
    assert_eq!(result, Err(PlaceOrderError::Validation(String::from("Product does not exist"))));
    assert_eq!(asked, vec!["check"]);
}

#[test]
fn unknown_address_fails_validation() {
    let mut c = standard();
    c.check_address_exists = |_| Err(String::from("address unknown"));
    let (result, asked, _) = run(two_line_order(), &c);
    assert_eq!(result, Err(PlaceOrderError::Validation(String::from("address unknown"))));
    assert_eq!(asked, vec!["check"]);
}

#[test]
fn shipping_failure_ends_the_workflow() {
    let mut c = standard();
    c.calculate_shipping_cost = |_| Err(String::from("no route"));
    let (result, asked, _) = run(two_line_order(), &c);
    assert_eq!(result, Err(PlaceOrderError::Shipping(String::from("no route"))));
    assert_eq!(asked, vec!["check", "price", "shipping"]);
}

#[test]
fn letter_failure_ends_the_workflow() {
    let mut c = standard();
    c.create_acknowledgment_letter = |_| Err(String::from("template missing"));
    let (result, asked, _) = run(two_line_order(), &c);
    assert_eq!(result, Err(PlaceOrderError::LetterCreation(String::from("template missing"))));
    assert_eq!(asked, vec!["check", "price", "shipping", "letter"]);
}

#[test]
fn send_failure_ends_the_workflow() {
    let mut c = standard();
    c.send_order_acknowledgement = |_| Err(String::from("transport down"));
    let (result, asked, _) = run(two_line_order(), &c);
    assert_eq!(result, Err(PlaceOrderError::Send(String::from("transport down"))));
    assert_eq!(asked, vec!["check", "price", "shipping", "letter", "send"]);
}

#[test]
fn first_action_checks_every_line_and_the_order() {
    let (state, action): (PlaceOrder, PlaceOrderAction<String>) = place_order(two_line_order());
    assert_eq!(state, PlaceOrder::Validating(two_line_order()));
    assert_eq!(
        action,
        PlaceOrderAction::CheckOrder {
            order_id: o1(),
            product_codes: vec![
                ProductCode::new(String::from("P1")),
                ProductCode::new(String::from("P2")),
            ],
        }
    );
}

#[test]
fn answers_out_of_turn_are_not_accepted() {
    let (state, _): (PlaceOrder, PlaceOrderAction<String>) = place_order(two_line_order());
    let wrong_kind: CollaboratorAnswer<String> =
        CollaboratorAnswer::ShippingCostCalculated(Ok(Price::new(1)));
    assert!(!state.accepts(&wrong_kind));
    let too_few: CollaboratorAnswer<String> =
        CollaboratorAnswer::OrderChecked { product_checks: vec![Ok(())], address_check: Ok(()) };
    assert!(!state.accepts(&too_few));
    let completed: CollaboratorAnswer<String> =
        CollaboratorAnswer::AcknowledgmentSendResult(Ok(SendResult::Sent));
    assert!(!PlaceOrder::Completed.accepts(&completed));
}
