use order_taking::events::{
    create_acknowledgment_event, create_billing_event, create_events, create_shipping_event,
    AcknowledgmentSent, BillableOrderPlaced, PlaceOrderEvent, ShippableOrderPlaced,
};
use order_taking::order_types::{
    PricedOrder, PricedOrderLine, PricedOrderWithShipping, ShippingInfo, ShippingMethod,
};
use order_taking::simple_types::{OrderId, OrderLineId, Price};

fn id(s: &str) -> OrderId {
    OrderId::new(String::from(s))
}

fn shipped() -> PricedOrderWithShipping {
    let lines = vec![
        PricedOrderLine {
            order_line_id: OrderLineId::new(String::from("L1")),
            line_price: Price::new(500),
        },
        PricedOrderLine {
            order_line_id: OrderLineId::new(String::from("L2")),
            line_price: Price::new(300),
        },
    ];
    PricedOrderWithShipping {
        priced_order: PricedOrder::new(id("O1"), lines),
        shipping: ShippingInfo { method: ShippingMethod::Postal, price: Price::new(200) },
    }
}

fn billing(order_id: &str, amount: u128) -> PlaceOrderEvent {
    let event = create_billing_event(&shipped().priced_order);
    match &event {
        PlaceOrderEvent::BillableOrderPlaced(b) => {
            assert_eq!(b.order_id, id(order_id));
            assert_eq!(b.amount_to_bill.value(), amount);
        },
        _ => panic!("not a billing event"),
    }
    event
}

fn count(events: &[PlaceOrderEvent], kind: fn(&PlaceOrderEvent) -> bool) -> usize {
    events.iter().filter(|e| kind(e)).count()
}

#[test]
fn events_with_acknowledgement_come_in_order() {
    let events = create_events(&shipped(), Some(id("O1")));
    assert_eq!(
        events,
        vec![
            PlaceOrderEvent::AcknowledgmentSent(AcknowledgmentSent { order_id: id("O1") }),
            billing("O1", 800),
            PlaceOrderEvent::ShippableOrderPlaced(ShippableOrderPlaced { order_id: id("O1") }),
        ]
    );
}

#[test]
fn events_without_acknowledgement() {
    let events = create_events(&shipped(), None);
    assert_eq!(events.len(), 2);
    assert!(matches!(events[0], PlaceOrderEvent::BillableOrderPlaced(_)));
    assert!(matches!(events[1], PlaceOrderEvent::ShippableOrderPlaced(_)));
    assert_eq!(count(&events, |e| matches!(e, PlaceOrderEvent::AcknowledgmentSent(_))), 0);
}

#[test]
fn exactly_one_billing_and_one_shipping_event() {
    for ack in [Some(id("O1")), None] {
        let events = create_events(&shipped(), ack);
        assert_eq!(count(&events, |e| matches!(e, PlaceOrderEvent::BillableOrderPlaced(_))), 1);
        assert_eq!(count(&events, |e| matches!(e, PlaceOrderEvent::ShippableOrderPlaced(_))), 1);
    }
}

#[test]
fn billing_event_carries_the_amount_to_bill() {
    let event = create_billing_event(&shipped().priced_order);
    assert_eq!(
        event,
        PlaceOrderEvent::BillableOrderPlaced(BillableOrderPlaced {
            order_id: id("O1"),
            amount_to_bill: shipped().priced_order.amount_to_bill(),
        })
    );
    assert_eq!(shipped().priced_order.amount_to_bill().value(), 800);
}

#[test]
fn shipping_and_acknowledgement_events_name_the_order() {
    assert_eq!(
        create_shipping_event(&shipped().priced_order),
        PlaceOrderEvent::ShippableOrderPlaced(ShippableOrderPlaced { order_id: id("O1") })
    );
    assert_eq!(
        create_acknowledgment_event(id("O7")),
        PlaceOrderEvent::AcknowledgmentSent(AcknowledgmentSent { order_id: id("O7") })
    );
}
