//! Identifiers and monetary amounts: immutable values compared by content.

use vstd::prelude::*;

verus! {

/// Identifies one line of an order.
#[derive(Debug, PartialEq, Eq)]
pub struct OrderLineId {
    value: String,
}

impl View for OrderLineId {
    type V = Seq<char>;

    closed spec fn view(&self) -> Seq<char> {
        self.value@
    }
}

impl OrderLineId {
    pub fn new(id: String) -> (r: OrderLineId)
        ensures
            r@ == id@,
    {
        OrderLineId { value: id }
    }

    pub fn as_str(&self) -> (r: &str)
        ensures
            r@ == self@,
    {
        self.value.as_str()
    }
}

impl Clone for OrderLineId {
    fn clone(&self) -> (r: OrderLineId)
        ensures
            r == *self,
    {
        OrderLineId { value: self.value.clone() }
    }
}

/// Identifies an order.
#[derive(Debug, PartialEq, Eq)]
pub struct OrderId {
    value: String,
}

impl View for OrderId {
    type V = Seq<char>;

    closed spec fn view(&self) -> Seq<char> {
        self.value@
    }
}

impl OrderId {
    pub fn new(id: String) -> (r: OrderId)
        ensures
            r@ == id@,
    {
        OrderId { value: id }
    }

    pub fn as_str(&self) -> (r: &str)
        ensures
            r@ == self@,
    {
        self.value.as_str()
    }
}

impl Clone for OrderId {
    fn clone(&self) -> (r: OrderId)
        ensures
            r == *self,
    {
        OrderId { value: self.value.clone() }
    }
}

/// Identifies a product: the key of existence checks and price lookups.
#[derive(Debug, PartialEq, Eq)]
pub struct ProductCode {
    value: String,
}

impl View for ProductCode {
    type V = Seq<char>;

    closed spec fn view(&self) -> Seq<char> {
        self.value@
    }
}

impl ProductCode {
    pub fn new(code: String) -> (r: ProductCode)
        ensures
            r@ == code@,
    {
        ProductCode { value: code }
    }

    pub fn as_str(&self) -> (r: &str)
        ensures
            r@ == self@,
    {
        self.value.as_str()
    }
}

impl Clone for ProductCode {
    fn clone(&self) -> (r: ProductCode)
        ensures
            r == *self,
    {
        ProductCode { value: self.value.clone() }
    }
}

/// A monetary amount in minor units of the currency (cents).
#[derive(Clone, Copy, Debug, PartialEq, Eq, Structural)]
pub struct Price {
    value: u64,
}

impl View for Price {
    type V = nat;

    closed spec fn view(&self) -> nat {
        self.value as nat
    }
}

impl Price {
    pub fn new(value: u64) -> (r: Price)
        ensures
            r@ == value,
    {
        Price { value }
    }

    pub fn value(&self) -> (r: u64)
        ensures
            r == self@,
    {
        self.value
    }

    /// The sum of two prices; zero is its neutral element.
    pub fn add(self, rhs: Price) -> (r: Price)
        requires
            self@ + rhs@ <= u64::MAX,
        ensures
            r@ == self@ + rhs@,
    {
        Price { value: self.value + rhs.value }
    }
}

/// The sum of a sequence of prices, added from the first to the last.
pub open spec fn total_of(prices: Seq<Price>) -> nat
    decreases prices.len(),
{
    if prices.len() == 0 {
        0
    } else {
        total_of(prices.drop_last()) + prices.last()@
    }
}

/// No total exceeds the largest price times the number of prices.
pub proof fn lemma_total_bound(prices: Seq<Price>)
    ensures
        total_of(prices) <= prices.len() * (u64::MAX as nat),
    decreases prices.len(),
{
    if prices.len() > 0 {
        lemma_total_bound(prices.drop_last());
        assert(prices.last()@ <= u64::MAX);
        assert((prices.len() - 1) * (u64::MAX as nat) + (u64::MAX as nat) == prices.len() * (
        u64::MAX as nat)) by (nonlinear_arith);
    }
}

/// The amount to bill for an order, in minor units of the currency.
#[derive(Clone, Copy, Debug, PartialEq, Eq, Structural)]
pub struct BillingAmount {
    value: u128,
}

impl View for BillingAmount {
    type V = nat;

    closed spec fn view(&self) -> nat {
        self.value as nat
    }
}

impl BillingAmount {
    pub fn value(&self) -> (r: u128)
        ensures
            r == self@,
    {
        self.value
    }

    /// Bills the sum of the given prices. The sum is held in 128 bits, so
    /// it cannot overflow for any number of prices that fits in memory.
    pub fn sum_prices(prices: &Vec<Price>) -> (r: BillingAmount)
        ensures
            r@ == total_of(prices@),
    {
        let mut sum: u128 = 0;
        let mut i: usize = 0;
        while i < prices.len()
            invariant
                i <= prices@.len(),
                sum == total_of(prices@.take(i as int)),
            decreases prices@.len() - i,
        {
            proof {
                lemma_total_bound(prices@.take(i as int));
                assert(prices@.take(i as int).len() == i);
                assert(i * (u64::MAX as nat) <= (usize::MAX as nat) * (u64::MAX as nat))
                    by (nonlinear_arith)
                    requires
                        i <= usize::MAX,
                ;
                assert(prices@.take(i + 1).drop_last() =~= prices@.take(i as int));
            }
            sum = sum + prices[i].value as u128;
            i = i + 1;
        }
        assert(prices@.take(prices@.len() as int) =~= prices@);
        BillingAmount { value: sum }
    }
}

} // verus!
