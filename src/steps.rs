//! The steps of the workflow. Each takes what its collaborators answered as
//! arguments and decides what follows from it.

use vstd::prelude::*;

use std::collections::VecDeque;

use crate::fan_in::{first_failure, lemma_first_failure_at, lemma_first_failure_prefix, queue_of};
use crate::order_types::{
    line_prices, PricedOrder, PricedOrderLine, PricedOrderWithShipping, SendResult, ShippingInfo,
    ShippingMethod, UnvalidatedOrder, UnvalidatedOrderLine, ValidatedOrder, ValidatedOrderLine,
};
use crate::simple_types::{total_of, OrderId, OrderLineId, Price, ProductCode};

verus! {

// ---------------------------------------------------------------------
// Validation
// ---------------------------------------------------------------------

/// `v` is `u` with its identifiers checked, line for line and in order.
pub open spec fn validated_line_from(v: ValidatedOrderLine, u: UnvalidatedOrderLine) -> bool {
    &&& v.order_line_id@ == u.order_line_id@
    &&& v.product_code@ == u.product_code@
}

/// `v` is the order `u` validated: same id, same lines in the same order.
pub open spec fn validated_from(v: ValidatedOrder, u: UnvalidatedOrder) -> bool {
    &&& v.id@ == u.id@
    &&& v.lines@.len() == u.lines@.len()
    &&& forall|i: int|
        0 <= i < v.lines@.len() ==> validated_line_from(#[trigger] v.lines@[i], u.lines@[i])
}

/// Why validation fails, if it does: the earliest line whose product was
/// not found, else a failed address check.
pub open spec fn validation_failure<E>(
    product_checks: Seq<Result<(), E>>,
    address_check: Result<(), E>,
) -> Option<E> {
    match first_failure(product_checks) {
        Some(e) => Some(e),
        None => match address_check {
            Ok(_) => None,
            Err(e) => Some(e),
        },
    }
}

/// Turns one line into a validated line, given what the product check
/// answered for its code.
pub fn to_valid_order_line<E>(
    unvalidated_line: UnvalidatedOrderLine,
    product_check: Result<(), E>,
) -> (r: Result<ValidatedOrderLine, E>)
    ensures
        match product_check {
            Ok(_) => r matches Ok(v) && validated_line_from(v, unvalidated_line),
            Err(e) => r == Err::<ValidatedOrderLine, E>(e),
        },
{
    let product_code = ProductCode::new(unvalidated_line.product_code);
    let order_line_id = OrderLineId::new(unvalidated_line.order_line_id);
    match product_check {
        Ok(()) => Ok(ValidatedOrderLine { order_line_id, product_code }),
        Err(e) => Err(e),
    }
}

/// Validates an order, all or nothing, from what the product check
/// answered for each line (in line order) and what the address check
/// answered for the order.
pub fn validate_order<E>(
    unvalidated_order: UnvalidatedOrder,
    product_checks: Vec<Result<(), E>>,
    address_check: Result<(), E>,
) -> (r: Result<ValidatedOrder, E>)
    requires
        product_checks@.len() == unvalidated_order.lines@.len(),
    ensures
        match validation_failure(product_checks@, address_check) {
            Some(e) => r == Err::<ValidatedOrder, E>(e),
            None => r matches Ok(v) && validated_from(v, unvalidated_order),
        },
{
    let ghost order = unvalidated_order;
    let id = OrderId::new(unvalidated_order.id);
    let mut pending: VecDeque<UnvalidatedOrderLine> = queue_of(unvalidated_order.lines);
    let mut lines: Vec<ValidatedOrderLine> = Vec::new();
    for check in it: product_checks.into_iter()
        invariant
            it.seq() == product_checks@,
            product_checks@.len() == order.lines@.len(),
            pending@ == order.lines@.skip(it.index() as int),
            first_failure(product_checks@.take(it.index() as int)) is None,
            lines@.len() == it.index(),
            forall|i: int|
                0 <= i < lines@.len() ==> validated_line_from(
                    #[trigger] lines@[i],
                    order.lines@[i],
                ),
    {
        let ghost k = it.index() as int;
        proof {
            assert(product_checks@.take(k + 1).drop_last() =~= product_checks@.take(k));
        }
        let line = pending.pop_front().unwrap();
        match to_valid_order_line(line, check) {
            Ok(valid_line) => {
                lines.push(valid_line);
                assert(pending@ =~= order.lines@.skip(k + 1));
            },
            Err(e) => {
                proof {
                    lemma_first_failure_prefix(product_checks@, k + 1);
                }
                return Err(e);
            },
        }
    }
    assert(product_checks@.take(product_checks@.len() as int) =~= product_checks@);
    match address_check {
        Ok(()) => Ok(ValidatedOrder { id, lines }),
        Err(e) => Err(e),
    }
}

/// Validation is all or nothing: when line `k` fails its product check and
/// every other line passes, validation fails with the error of line `k`,
/// whichever line that is and whatever the address check answered.
pub proof fn all_or_nothing_validation<E>(
    product_checks: Seq<Result<(), E>>,
    address_check: Result<(), E>,
    k: int,
)
    requires
        0 <= k < product_checks.len(),
        product_checks[k] is Err,
        forall|j: int| 0 <= j < product_checks.len() && j != k ==> (#[trigger] product_checks[j]) is Ok,
    ensures
        validation_failure(product_checks, address_check) == Some(product_checks[k]->Err_0),
{
    lemma_first_failure_at(product_checks, k);
}

// ---------------------------------------------------------------------
// Pricing
// ---------------------------------------------------------------------

/// `p` is `v` with the price found for its product.
pub open spec fn priced_line_from(p: PricedOrderLine, v: ValidatedOrderLine, price: Price) -> bool {
    &&& p.order_line_id == v.order_line_id
    &&& p.line_price == price
}

/// `p` is the order `v` priced line for line with the given prices, and
/// billed for their sum.
pub open spec fn priced_from<E>(
    p: PricedOrder,
    v: ValidatedOrder,
    prices: Seq<Result<Price, E>>,
) -> bool {
    &&& p.spec_order_id() == v.id
    &&& p.spec_lines().len() == v.lines@.len()
    &&& forall|i: int|
        0 <= i < p.spec_lines().len() ==> priced_line_from(
            #[trigger] p.spec_lines()[i],
            v.lines@[i],
            prices[i]->Ok_0,
        )
    &&& p.spec_amount_to_bill()@ == total_of(line_prices(p.spec_lines()))
}

/// Prices one line, given what the price lookup answered for its product.
pub fn to_priced_order_line<E>(
    validated_order_line: ValidatedOrderLine,
    price: Result<Price, E>,
) -> (r: Result<PricedOrderLine, E>)
    ensures
        match price {
            Ok(p) => r matches Ok(l) && priced_line_from(l, validated_order_line, p),
            Err(e) => r == Err::<PricedOrderLine, E>(e),
        },
{
    match price {
        Ok(line_price) => Ok(
            PricedOrderLine { order_line_id: validated_order_line.order_line_id, line_price },
        ),
        Err(e) => Err(e),
    }
}

/// Prices a validated order, all or nothing, from what the price lookup
/// answered for each line (in line order). The amount to bill is the sum of
/// the line prices.
pub fn price_order<E>(validated_order: ValidatedOrder, prices: Vec<Result<Price, E>>) -> (r: Result<
    PricedOrder,
    E,
>)
    requires
        prices@.len() == validated_order.lines@.len(),
    ensures
        match first_failure(prices@) {
            Some(e) => r == Err::<PricedOrder, E>(e),
            None => r matches Ok(p) && priced_from(p, validated_order, prices@),
        },
{
    let ghost order = validated_order;
    let mut pending: VecDeque<ValidatedOrderLine> = queue_of(validated_order.lines);
    let mut lines: Vec<PricedOrderLine> = Vec::new();
    for price in it: prices.into_iter()
        invariant
            it.seq() == prices@,
            prices@.len() == order.lines@.len(),
            pending@ == order.lines@.skip(it.index() as int),
            first_failure(prices@.take(it.index() as int)) is None,
            lines@.len() == it.index(),
            forall|i: int|
                0 <= i < lines@.len() ==> priced_line_from(
                    #[trigger] lines@[i],
                    order.lines@[i],
                    prices@[i]->Ok_0,
                ),
    {
        let ghost k = it.index() as int;
        proof {
            assert(prices@.take(k + 1).drop_last() =~= prices@.take(k));
        }
        let line = pending.pop_front().unwrap();
        match to_priced_order_line(line, price) {
            Ok(priced_line) => {
                lines.push(priced_line);
                assert(pending@ =~= order.lines@.skip(k + 1));
            },
            Err(e) => {
                proof {
                    lemma_first_failure_prefix(prices@, k + 1);
                }
                return Err(e);
            },
        }
    }
    assert(prices@.take(prices@.len() as int) =~= prices@);
    Ok(PricedOrder::new(validated_order.id, lines))
}

// ---------------------------------------------------------------------
// Shipping
// ---------------------------------------------------------------------

/// Attaches shipping to a priced order, given what the shipping cost
/// calculation answered for it. The method is always postal.
pub fn add_shipping_info_to_order<E>(
    priced_order: PricedOrder,
    shipping_cost: Result<Price, E>,
) -> (r: Result<PricedOrderWithShipping, E>)
    ensures
        match shipping_cost {
            Ok(price) => r == Ok::<PricedOrderWithShipping, E>(
                PricedOrderWithShipping {
                    priced_order,
                    shipping: ShippingInfo { method: ShippingMethod::Postal, price },
                },
            ),
            Err(e) => r == Err::<PricedOrderWithShipping, E>(e),
        },
{
    match shipping_cost {
        Ok(price) => {
            let shipping = ShippingInfo { method: ShippingMethod::Postal, price };
            Ok(PricedOrderWithShipping { priced_order, shipping })
        },
        Err(e) => Err(e),
    }
}

// ---------------------------------------------------------------------
// Acknowledgement
// ---------------------------------------------------------------------

/// What a send outcome means for the order: the id of the acknowledged
/// order when the letter went out, nothing when it did not.
pub open spec fn acknowledgment_outcome(order: PricedOrderWithShipping, sent: SendResult) -> Option<
    OrderId,
> {
    match sent {
        SendResult::Sent => Some(order.priced_order.spec_order_id()),
        SendResult::NotSent => None,
    }
}

/// Decides the acknowledgement of an order from what sending its letter
/// answered. `NotSent` is no error; a failed send is.
pub fn acknowledge_order<E>(
    priced_order: &PricedOrderWithShipping,
    send_result: Result<SendResult, E>,
) -> (r: Result<Option<OrderId>, E>)
    ensures
        match send_result {
            Ok(sent) => r == Ok::<Option<OrderId>, E>(acknowledgment_outcome(*priced_order, sent)),
            Err(e) => r == Err::<Option<OrderId>, E>(e),
        },
{
    match send_result {
        Ok(SendResult::Sent) => Ok(Some(priced_order.priced_order.order_id().clone())),
        Ok(SendResult::NotSent) => Ok(None),
        Err(e) => Err(e),
    }
}

} // verus!
