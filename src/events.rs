//! The domain events a placed order produces, and how they are built.

use vstd::prelude::*;

use crate::order_types::{PricedOrder, PricedOrderWithShipping, SendResult};
use crate::simple_types::{BillingAmount, OrderId};
use crate::steps::acknowledgment_outcome;

verus! {

/// The customer was sent an acknowledgement of the order.
#[derive(Debug, PartialEq, Eq)]
pub struct AcknowledgmentSent {
    pub order_id: OrderId,
}

/// The order is ready to be shipped.
#[derive(Debug, PartialEq, Eq)]
pub struct ShippableOrderPlaced {
    pub order_id: OrderId,
}

/// The order is ready to be billed for the given amount.
#[derive(Debug, PartialEq, Eq)]
pub struct BillableOrderPlaced {
    pub order_id: OrderId,
    pub amount_to_bill: BillingAmount,
}

/// What placing an order produces; one of exactly three kinds.
#[derive(Debug, PartialEq, Eq)]
pub enum PlaceOrderEvent {
    AcknowledgmentSent(AcknowledgmentSent),
    ShippableOrderPlaced(ShippableOrderPlaced),
    BillableOrderPlaced(BillableOrderPlaced),
}

pub open spec fn shipping_event(order: PricedOrder) -> PlaceOrderEvent {
    PlaceOrderEvent::ShippableOrderPlaced(ShippableOrderPlaced { order_id: order.spec_order_id() })
}

pub open spec fn billing_event(order: PricedOrder) -> PlaceOrderEvent {
    PlaceOrderEvent::BillableOrderPlaced(
        BillableOrderPlaced {
            order_id: order.spec_order_id(),
            amount_to_bill: order.spec_amount_to_bill(),
        },
    )
}

pub open spec fn acknowledgment_event(order_id: OrderId) -> PlaceOrderEvent {
    PlaceOrderEvent::AcknowledgmentSent(AcknowledgmentSent { order_id })
}

/// The events of a placed order, in this order: the acknowledgement if
/// there was one, then billing, then shipping.
pub open spec fn place_order_events(
    order: PricedOrderWithShipping,
    acknowledgment: Option<OrderId>,
) -> Seq<PlaceOrderEvent> {
    let acknowledgments = match acknowledgment {
        Some(order_id) => seq![acknowledgment_event(order_id)],
        None => Seq::empty(),
    };
    acknowledgments + seq![billing_event(order.priced_order), shipping_event(order.priced_order)]
}

pub fn create_shipping_event(placed_order: &PricedOrder) -> (r: PlaceOrderEvent)
    ensures
        r == shipping_event(*placed_order),
{
    PlaceOrderEvent::ShippableOrderPlaced(
        ShippableOrderPlaced { order_id: placed_order.order_id().clone() },
    )
}

pub fn create_billing_event(placed_order: &PricedOrder) -> (r: PlaceOrderEvent)
    ensures
        r == billing_event(*placed_order),
{
    PlaceOrderEvent::BillableOrderPlaced(
        BillableOrderPlaced {
            order_id: placed_order.order_id().clone(),
            amount_to_bill: placed_order.amount_to_bill(),
        },
    )
}

pub fn create_acknowledgment_event(order_id: OrderId) -> (r: PlaceOrderEvent)
    ensures
        r == acknowledgment_event(order_id),
{
    PlaceOrderEvent::AcknowledgmentSent(AcknowledgmentSent { order_id })
}

/// Builds the events of a placed order: an acknowledgement event only when
/// the acknowledgement went out, then exactly one billing and one shipping
/// event.
pub fn create_events(
    priced_order: &PricedOrderWithShipping,
    acknowledgment_option: Option<OrderId>,
) -> (r: Vec<PlaceOrderEvent>)
    ensures
        r@ == place_order_events(*priced_order, acknowledgment_option),
{
    let mut events: Vec<PlaceOrderEvent> = Vec::new();
    match acknowledgment_option {
        Some(order_id) => events.push(create_acknowledgment_event(order_id)),
        None => {},
    }
    events.push(create_billing_event(&priced_order.priced_order));
    events.push(create_shipping_event(&priced_order.priced_order));
    assert(events@ =~= place_order_events(*priced_order, acknowledgment_option));
    events
}

/// How many of the events satisfy `kind`.
pub open spec fn count_events(events: Seq<PlaceOrderEvent>, kind: spec_fn(PlaceOrderEvent) -> bool) -> nat
    decreases events.len(),
{
    if events.len() == 0 {
        0
    } else {
        count_events(events.drop_last(), kind) + if kind(events.last()) {
            1nat
        } else {
            0nat
        }
    }
}

/// A sent acknowledgement yields exactly one acknowledgement event, naming
/// the order; an acknowledgement that was not sent yields none. Either way
/// there is exactly one billing and exactly one shipping event.
pub proof fn acknowledgement_gating(order: PricedOrderWithShipping, sent: SendResult)
    ensures
        ({
            let events = place_order_events(order, acknowledgment_outcome(order, sent));
            &&& count_events(events, |e: PlaceOrderEvent| e is AcknowledgmentSent) == if sent
                is Sent {
                1nat
            } else {
                0nat
            }
            &&& forall|i: int|
                0 <= i < events.len() && (#[trigger] events[i]) is AcknowledgmentSent
                    ==> events[i]->AcknowledgmentSent_0.order_id
                    == order.priced_order.spec_order_id()
            &&& count_events(events, |e: PlaceOrderEvent| e is BillableOrderPlaced) == 1
            &&& count_events(events, |e: PlaceOrderEvent| e is ShippableOrderPlaced) == 1
        }),
{
    reveal_with_fuel(count_events, 4);
    let events = place_order_events(order, acknowledgment_outcome(order, sent));
    let billing = billing_event(order.priced_order);
    let shipping = shipping_event(order.priced_order);
    let tail = seq![billing, shipping];
    assert(tail.drop_last() =~= seq![billing]);
    assert(seq![billing].drop_last() =~= Seq::<PlaceOrderEvent>::empty());
    match sent {
        SendResult::Sent => {
            let ack = acknowledgment_event(order.priced_order.spec_order_id());
            assert(events =~= seq![ack, billing, shipping]);
            assert(events.drop_last() =~= seq![ack, billing]);
            assert(events.drop_last().drop_last() =~= seq![ack]);
            assert(seq![ack].drop_last() =~= Seq::<PlaceOrderEvent>::empty());
        },
        SendResult::NotSent => {
            assert(events =~= tail);
        },
    }
}

} // verus!
