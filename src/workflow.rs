//! The "place order" workflow as a state machine. Every collaborator call is
//! an action that the machine hands out; the caller performs it (concurrently
//! over lines where there are several calls), hands back the answer, and gets
//! the next action. The workflow stops at the first failure: no further
//! collaborator is asked and no event is produced.

use vstd::prelude::*;

use crate::events::{create_events, place_order_events, PlaceOrderEvent};
use crate::fan_in::first_failure;
use crate::order_types::{
    Acknowledgment, Letter, PricedOrder, PricedOrderWithShipping, SendResult, ShippingInfo,
    ShippingMethod, UnvalidatedOrder, ValidatedOrder, ValidatedOrderLine,
};
use crate::simple_types::{OrderId, Price, ProductCode};
use crate::steps::{
    acknowledge_order, acknowledgment_outcome, add_shipping_info_to_order, price_order,
    priced_from, validate_order, validated_from, validation_failure,
};

verus! {

/// Why placing an order failed, with the collaborator's error unchanged.
#[derive(Debug, PartialEq, Eq)]
pub enum PlaceOrderError<E> {
    /// A product was not found, or the address check failed.
    Validation(E),
    /// A price could not be found.
    Pricing(E),
    /// The shipping cost could not be calculated.
    Shipping(E),
    /// The acknowledgement letter could not be created.
    LetterCreation(E),
    /// The acknowledgement could not be handed over for sending.
    Send(E),
}

/// What the workflow asks of its caller next.
#[derive(Debug, PartialEq, Eq)]
pub enum PlaceOrderAction<E> {
    /// Check that each product exists and that the order's address does.
    CheckOrder { order_id: OrderId, product_codes: Vec<ProductCode> },
    /// Look up the price of each product.
    GetProductPrices { product_codes: Vec<ProductCode> },
    /// Calculate the shipping cost of the order.
    CalculateShippingCost { priced_order: PricedOrder },
    /// Create the acknowledgement letter for the order.
    CreateAcknowledgmentLetter { shipped_order: PricedOrderWithShipping },
    /// Send the acknowledgement.
    SendOrderAcknowledgement { acknowledgment: Acknowledgment },
    /// The workflow is over: its events, or why it failed.
    Complete(Result<Vec<PlaceOrderEvent>, PlaceOrderError<E>>),
}

/// What a collaborator answered to an action.
#[derive(Debug, PartialEq, Eq)]
pub enum CollaboratorAnswer<E> {
    /// One product check per line, in line order, and the address check.
    OrderChecked { product_checks: Vec<Result<(), E>>, address_check: Result<(), E> },
    /// One price per line, in line order.
    PricesFound { prices: Vec<Result<Price, E>> },
    ShippingCostCalculated(Result<Price, E>),
    LetterCreated(Result<Letter, E>),
    AcknowledgmentSendResult(Result<SendResult, E>),
}

/// Where the workflow stands, holding the order in its current form.
#[derive(Debug, PartialEq, Eq)]
pub enum PlaceOrder {
    Validating(UnvalidatedOrder),
    Pricing(ValidatedOrder),
    Shipping(PricedOrder),
    CreatingLetter(PricedOrderWithShipping),
    SendingAcknowledgment(PricedOrderWithShipping),
    Completed,
}

/// The product codes of the lines, in line order.
pub open spec fn product_codes_of(lines: Seq<ValidatedOrderLine>) -> Seq<ProductCode> {
    lines.map_values(|l: ValidatedOrderLine| l.product_code)
}

/// `action` asks to check the order `order`: its id, and the code of each
/// line in line order.
pub open spec fn checks_order<E>(action: PlaceOrderAction<E>, order: UnvalidatedOrder) -> bool {
    &&& action matches PlaceOrderAction::CheckOrder { order_id, product_codes }
    &&& order_id@ == order.id@
    &&& product_codes@.len() == order.lines@.len()
    &&& forall|i: int|
        0 <= i < product_codes@.len() ==> (#[trigger] product_codes@[i])@
            == order.lines@[i].product_code@
}

/// The workflow is over with the given failure.
pub open spec fn failed_with<E>(
    r: (PlaceOrder, PlaceOrderAction<E>),
    error: PlaceOrderError<E>,
) -> bool {
    &&& r.0 is Completed
    &&& r.1 == PlaceOrderAction::Complete(Err::<Vec<PlaceOrderEvent>, PlaceOrderError<E>>(error))
}

fn codes_to_check(order: &UnvalidatedOrder) -> (r: Vec<ProductCode>)
    ensures
        r@.len() == order.lines@.len(),
        forall|i: int| 0 <= i < r@.len() ==> (#[trigger] r@[i])@ == order.lines@[i].product_code@,
{
    let mut codes: Vec<ProductCode> = Vec::new();
    for i in 0..order.lines.len()
        invariant
            codes@.len() == i,
            forall|j: int|
                0 <= j < i ==> (#[trigger] codes@[j])@ == order.lines@[j].product_code@,
    {
        codes.push(ProductCode::new(order.lines[i].product_code.clone()));
    }
    codes
}

fn codes_to_price(order: &ValidatedOrder) -> (r: Vec<ProductCode>)
    ensures
        r@ == product_codes_of(order.lines@),
{
    let mut codes: Vec<ProductCode> = Vec::new();
    for i in 0..order.lines.len()
        invariant
            codes@ == product_codes_of(order.lines@).take(i as int),
    {
        codes.push(order.lines[i].product_code.clone());
        assert(codes@ =~= product_codes_of(order.lines@).take(i + 1));
    }
    assert(codes@ =~= product_codes_of(order.lines@));
    codes
}

/// Starts placing an order: the first action checks its products and its
/// address.
pub fn place_order<E>(unvalidated_order: UnvalidatedOrder) -> (r: (PlaceOrder, PlaceOrderAction<E>))
    ensures
        r.0 == PlaceOrder::Validating(unvalidated_order),
        checks_order(r.1, unvalidated_order),
{
    let order_id = OrderId::new(unvalidated_order.id.clone());
    let product_codes = codes_to_check(&unvalidated_order);
    (PlaceOrder::Validating(unvalidated_order), PlaceOrderAction::CheckOrder { order_id, product_codes })
}

impl PlaceOrder {
    /// The workflow is waiting for this answer: the one to the action it
    /// handed out last, with one outcome per line where there are lines.
    pub open spec fn awaits<E>(self, answer: CollaboratorAnswer<E>) -> bool {
        match self {
            PlaceOrder::Validating(order) => answer matches CollaboratorAnswer::OrderChecked {
                product_checks,
                ..
            } && product_checks@.len() == order.lines@.len(),
            PlaceOrder::Pricing(order) => answer matches CollaboratorAnswer::PricesFound { prices }
                && prices@.len() == order.lines@.len(),
            PlaceOrder::Shipping(_) => answer is ShippingCostCalculated,
            PlaceOrder::CreatingLetter(_) => answer is LetterCreated,
            PlaceOrder::SendingAcknowledgment(_) => answer is AcknowledgmentSendResult,
            PlaceOrder::Completed => false,
        }
    }

    /// Whether the workflow is waiting for this answer.
    pub fn accepts<E>(&self, answer: &CollaboratorAnswer<E>) -> (r: bool)
        ensures
            r == self.awaits(*answer),
    {
        match (self, answer) {
            (
                PlaceOrder::Validating(order),
                CollaboratorAnswer::OrderChecked { product_checks, .. },
            ) => product_checks.len() == order.lines.len(),
            (PlaceOrder::Pricing(order), CollaboratorAnswer::PricesFound { prices }) => prices.len()
                == order.lines.len(),
            (PlaceOrder::Shipping(_), CollaboratorAnswer::ShippingCostCalculated(_)) => true,
            (PlaceOrder::CreatingLetter(_), CollaboratorAnswer::LetterCreated(_)) => true,
            (
                PlaceOrder::SendingAcknowledgment(_),
                CollaboratorAnswer::AcknowledgmentSendResult(_),
            ) => true,
            _ => false,
        }
    }

    /// Takes the answer to the last action and decides the next one.
    pub fn step<E>(self, answer: CollaboratorAnswer<E>) -> (r: (PlaceOrder, PlaceOrderAction<E>))
        requires
            self.awaits(answer),
        ensures
            match (self, answer) {
                (
                    PlaceOrder::Validating(order),
                    CollaboratorAnswer::OrderChecked { product_checks, address_check },
                ) => match validation_failure(product_checks@, address_check) {
                    Some(e) => failed_with(r, PlaceOrderError::Validation(e)),
                    None => {
                        &&& r.0 matches PlaceOrder::Pricing(v)
                        &&& validated_from(v, order)
                        &&& r.1 matches PlaceOrderAction::GetProductPrices { product_codes }
                        &&& product_codes@ == product_codes_of(v.lines@)
                    },
                },
                (PlaceOrder::Pricing(order), CollaboratorAnswer::PricesFound { prices }) => match first_failure(
                    prices@,
                ) {
                    Some(e) => failed_with(r, PlaceOrderError::Pricing(e)),
                    None => {
                        &&& r.0 matches PlaceOrder::Shipping(p)
                        &&& priced_from(p, order, prices@)
                        &&& r.1 matches PlaceOrderAction::CalculateShippingCost { priced_order }
                        &&& priced_order.same_as(p)
                    },
                },
                (PlaceOrder::Shipping(order), CollaboratorAnswer::ShippingCostCalculated(cost)) => match cost {
                    Err(e) => failed_with(r, PlaceOrderError::Shipping(e)),
                    Ok(price) => {
                        &&& r.0 == PlaceOrder::CreatingLetter(
                            PricedOrderWithShipping {
                                priced_order: order,
                                shipping: ShippingInfo { method: ShippingMethod::Postal, price },
                            },
                        )
                        &&& r.1 matches PlaceOrderAction::CreateAcknowledgmentLetter {
                            shipped_order,
                        }
                        &&& shipped_order.same_as(r.0->CreatingLetter_0)
                    },
                },
                (PlaceOrder::CreatingLetter(order), CollaboratorAnswer::LetterCreated(letter)) => match letter {
                    Err(e) => failed_with(r, PlaceOrderError::LetterCreation(e)),
                    Ok(letter) => {
                        &&& r.0 == PlaceOrder::SendingAcknowledgment(order)
                        &&& r.1 == PlaceOrderAction::<E>::SendOrderAcknowledgement {
                            acknowledgment: Acknowledgment { letter },
                        }
                    },
                },
                (
                    PlaceOrder::SendingAcknowledgment(order),
                    CollaboratorAnswer::AcknowledgmentSendResult(sent),
                ) => match sent {
                    Err(e) => failed_with(r, PlaceOrderError::Send(e)),
                    Ok(sent) => {
                        &&& r.0 is Completed
                        &&& r.1 matches PlaceOrderAction::Complete(Ok(events))
                        &&& events@ == place_order_events(order, acknowledgment_outcome(order, sent))
                    },
                },
                _ => false,
            },
    {
        match self {
            PlaceOrder::Validating(order) => match answer {
                CollaboratorAnswer::OrderChecked { product_checks, address_check } => {
                    match validate_order(order, product_checks, address_check) {
                        Ok(validated) => {
                            let product_codes = codes_to_price(&validated);
                            (
                                PlaceOrder::Pricing(validated),
                                PlaceOrderAction::GetProductPrices { product_codes },
                            )
                        },
                        Err(e) => complete_with(PlaceOrderError::Validation(e)),
                    }
                },
                _ => unreached(),
            },
            PlaceOrder::Pricing(order) => match answer {
                CollaboratorAnswer::PricesFound { prices } => match price_order(order, prices) {
                    Ok(priced) => {
                        let priced_order = priced.clone();
                        (
                            PlaceOrder::Shipping(priced),
                            PlaceOrderAction::CalculateShippingCost { priced_order },
                        )
                    },
                    Err(e) => complete_with(PlaceOrderError::Pricing(e)),
                },
                _ => unreached(),
            },
            PlaceOrder::Shipping(order) => match answer {
                CollaboratorAnswer::ShippingCostCalculated(cost) => match add_shipping_info_to_order(
                    order,
                    cost,
                ) {
                    Ok(shipped) => {
                        let shipped_order = shipped.clone();
                        (
                            PlaceOrder::CreatingLetter(shipped),
                            PlaceOrderAction::CreateAcknowledgmentLetter { shipped_order },
                        )
                    },
                    Err(e) => complete_with(PlaceOrderError::Shipping(e)),
                },
                _ => unreached(),
            },
            PlaceOrder::CreatingLetter(order) => match answer {
                CollaboratorAnswer::LetterCreated(Ok(letter)) => (
                    PlaceOrder::SendingAcknowledgment(order),
                    PlaceOrderAction::SendOrderAcknowledgement {
                        acknowledgment: Acknowledgment { letter },
                    },
                ),
                CollaboratorAnswer::LetterCreated(Err(e)) => complete_with(
                    PlaceOrderError::LetterCreation(e),
                ),
                _ => unreached(),
            },
            PlaceOrder::SendingAcknowledgment(order) => match answer {
                CollaboratorAnswer::AcknowledgmentSendResult(sent) => match acknowledge_order(
                    &order,
                    sent,
                ) {
                    Ok(acknowledgment) => {
                        let events = create_events(&order, acknowledgment);
                        (PlaceOrder::Completed, PlaceOrderAction::Complete(Ok(events)))
                    },
                    Err(e) => complete_with(PlaceOrderError::Send(e)),
                },
                _ => unreached(),
            },
            PlaceOrder::Completed => unreached(),
        }
    }
}

fn complete_with<E>(error: PlaceOrderError<E>) -> (r: (PlaceOrder, PlaceOrderAction<E>))
    ensures
        failed_with(r, error),
{
    (PlaceOrder::Completed, PlaceOrderAction::Complete(Err(error)))
}

} // verus!
