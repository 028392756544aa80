//! The order as it moves through the workflow: unvalidated, validated,
//! priced, and priced with shipping.

use vstd::prelude::*;

use crate::simple_types::{total_of, BillingAmount, OrderId, OrderLineId, Price, ProductCode};

verus! {

/// A line as it arrives: no guarantee about either string.
#[derive(Debug, PartialEq, Eq)]
pub struct UnvalidatedOrderLine {
    pub order_line_id: String,
    pub product_code: String,
}

/// An order as it arrives; it owns its lines, in their given order.
#[derive(Debug, PartialEq, Eq)]
pub struct UnvalidatedOrder {
    pub id: String,
    pub lines: Vec<UnvalidatedOrderLine>,
}

/// A line whose product code has been found to exist.
#[derive(Debug, PartialEq, Eq)]
pub struct ValidatedOrderLine {
    pub order_line_id: OrderLineId,
    pub product_code: ProductCode,
}

/// An order all of whose lines passed validation.
#[derive(Debug, PartialEq, Eq)]
pub struct ValidatedOrder {
    pub id: OrderId,
    pub lines: Vec<ValidatedOrderLine>,
}

/// A line with the price found for its product.
#[derive(Debug, PartialEq, Eq)]
pub struct PricedOrderLine {
    pub order_line_id: OrderLineId,
    pub line_price: Price,
}

impl Clone for PricedOrderLine {
    fn clone(&self) -> (r: PricedOrderLine)
        ensures
            r == *self,
    {
        PricedOrderLine { order_line_id: self.order_line_id.clone(), line_price: self.line_price }
    }
}

/// The prices of the lines, in line order.
pub open spec fn line_prices(lines: Seq<PricedOrderLine>) -> Seq<Price> {
    lines.map_values(|l: PricedOrderLine| l.line_price)
}

/// A priced order. Its amount to bill is derived from its lines and is
/// always their sum: it cannot be set on its own.
#[derive(Debug, PartialEq, Eq)]
pub struct PricedOrder {
    order_id: OrderId,
    amount_to_bill: BillingAmount,
    lines: Vec<PricedOrderLine>,
}

impl PricedOrder {
    #[verifier::type_invariant]
    spec fn bills_its_lines(self) -> bool {
        self.amount_to_bill@ == total_of(line_prices(self.lines@))
    }

    pub closed spec fn spec_order_id(self) -> OrderId {
        self.order_id
    }

    pub closed spec fn spec_amount_to_bill(self) -> BillingAmount {
        self.amount_to_bill
    }

    pub closed spec fn spec_lines(self) -> Seq<PricedOrderLine> {
        self.lines@
    }

    /// The two orders hold the same id, amount and lines.
    pub open spec fn same_as(self, other: PricedOrder) -> bool {
        &&& self.spec_order_id() == other.spec_order_id()
        &&& self.spec_amount_to_bill() == other.spec_amount_to_bill()
        &&& self.spec_lines() == other.spec_lines()
    }

    /// A priced order of the given lines, billed for their sum.
    pub fn new(order_id: OrderId, lines: Vec<PricedOrderLine>) -> (r: PricedOrder)
        ensures
            r.spec_order_id() == order_id,
            r.spec_lines() == lines@,
            r.spec_amount_to_bill()@ == total_of(line_prices(lines@)),
    {
        let mut prices: Vec<Price> = Vec::new();
        let mut i: usize = 0;
        while i < lines.len()
            invariant
                i <= lines@.len(),
                prices@ == line_prices(lines@).take(i as int),
            decreases lines@.len() - i,
        {
            prices.push(lines[i].line_price);
            i = i + 1;
            assert(prices@ =~= line_prices(lines@).take(i as int));
        }
        assert(prices@ =~= line_prices(lines@));
        let amount_to_bill = BillingAmount::sum_prices(&prices);
        PricedOrder { order_id, amount_to_bill, lines }
    }

    pub fn order_id(&self) -> (r: &OrderId)
        ensures
            *r == self.spec_order_id(),
    {
        &self.order_id
    }

    pub fn amount_to_bill(&self) -> (r: BillingAmount)
        ensures
            r == self.spec_amount_to_bill(),
            r@ == total_of(line_prices(self.spec_lines())),
    {
        proof {
            use_type_invariant(self);
        }
        self.amount_to_bill
    }

    pub fn lines(&self) -> (r: &Vec<PricedOrderLine>)
        ensures
            r@ == self.spec_lines(),
    {
        &self.lines
    }
}

impl Clone for PricedOrder {
    fn clone(&self) -> (r: PricedOrder)
        ensures
            r.same_as(*self),
    {
        proof {
            use_type_invariant(self);
        }
        let lines = self.lines.clone();
        assert forall|i: int| 0 <= i < lines@.len() implies lines@[i] == self.lines@[i] by {
            assert(cloned(self.lines@[i], lines@[i]));
        }
        assert(lines@ =~= self.lines@);
        PricedOrder {
            order_id: self.order_id.clone(),
            amount_to_bill: self.amount_to_bill,
            lines,
        }
    }
}

/// How an order is shipped.
#[derive(Clone, Copy, Debug, PartialEq, Eq, Structural)]
pub enum ShippingMethod {
    Postal,
    Fedex,
}

/// The shipping method of an order and what the shipping costs.
#[derive(Clone, Copy, Debug, PartialEq, Eq, Structural)]
pub struct ShippingInfo {
    pub method: ShippingMethod,
    pub price: Price,
}

/// A priced order together with its shipping: what is acknowledged and
/// what the events are built from.
#[derive(Debug, PartialEq, Eq)]
pub struct PricedOrderWithShipping {
    pub priced_order: PricedOrder,
    pub shipping: ShippingInfo,
}

impl PricedOrderWithShipping {
    /// The two hold the same priced order and the same shipping.
    pub open spec fn same_as(self, other: PricedOrderWithShipping) -> bool {
        self.priced_order.same_as(other.priced_order) && self.shipping == other.shipping
    }
}

impl Clone for PricedOrderWithShipping {
    fn clone(&self) -> (r: PricedOrderWithShipping)
        ensures
            r.same_as(*self),
    {
        PricedOrderWithShipping { priced_order: self.priced_order.clone(), shipping: self.shipping }
    }
}

/// The content of an acknowledgement; the workflow does not read it.
#[derive(Debug, PartialEq, Eq)]
pub struct Letter {
    pub content: String,
}

impl Clone for Letter {
    fn clone(&self) -> (r: Letter)
        ensures
            r == *self,
    {
        Letter { content: self.content.clone() }
    }
}

/// A letter on its way to the customer.
#[derive(Debug, PartialEq, Eq)]
pub struct Acknowledgment {
    pub letter: Letter,
}

/// Whether an acknowledgement went out. `NotSent` is a business outcome,
/// not an error.
#[derive(Clone, Copy, Debug, PartialEq, Eq, Structural)]
pub enum SendResult {
    Sent,
    NotSent,
}

} // verus!
