//! The order data model: the status enumeration, the order entity, the
//! request shapes, and the price rounding rule.

use vstd::prelude::*;

verus! {

/// Lifecycle stage of an order. Any status may move to any other.
#[derive(Clone, Copy, PartialEq, Eq, Structural, Debug)]
pub enum OrderStatus {
    Pending,
    Processing,
    Shipped,
    Delivered,
    Cancelled,
}

impl Default for OrderStatus {
    fn default() -> (r: Self)
        ensures
            r == OrderStatus::Pending,
    {
        OrderStatus::Pending
    }
}

/// A single customer purchase record.
///
/// `id` is a 128-bit identifier (the in-memory form of a UUID), the two
/// timestamps count microseconds since the Unix epoch, and `price_cents` is
/// the amount in the minor currency unit.
#[derive(Debug)]
pub struct Order {
    pub id: u128,
    pub customer_name: String,
    pub item: String,
    pub quantity: i32,
    pub price_cents: i64,
    pub status: OrderStatus,
    pub created_at: i64,
    pub updated_at: i64,
}

impl Clone for Order {
    fn clone(&self) -> (r: Self)
        ensures
            r == *self,
    {
        Order {
            id: self.id,
            customer_name: self.customer_name.clone(),
            item: self.item.clone(),
            quantity: self.quantity,
            price_cents: self.price_cents,
            status: self.status,
            created_at: self.created_at,
            updated_at: self.updated_at,
        }
    }
}

impl PartialEq for Order {
    fn eq(&self, other: &Self) -> (r: bool) {
        self.id == other.id && self.customer_name == other.customer_name && self.item
            == other.item && self.quantity == other.quantity && self.price_cents
            == other.price_cents && self.status == other.status && self.created_at
            == other.created_at && self.updated_at == other.updated_at
    }
}

impl vstd::std_specs::cmp::PartialEqSpecImpl for Order {
    open spec fn obeys_eq_spec() -> bool {
        true
    }

    open spec fn eq_spec(&self, other: &Order) -> bool {
        &&& self.id == other.id
        &&& self.customer_name@ == other.customer_name@
        &&& self.item@ == other.item@
        &&& self.quantity == other.quantity
        &&& self.price_cents == other.price_cents
        &&& self.status == other.status
        &&& self.created_at == other.created_at
        &&& self.updated_at == other.updated_at
    }
}

/// Input shape for creating an order.
///
/// `price_e4` carries the decimal major-unit price exactly, scaled by
/// ten thousand (so 83990.00 units arrive as 839_900_000).
#[derive(Debug)]
pub struct CreateOrder {
    pub customer_name: String,
    pub item: String,
    pub quantity: i32,
    pub price_e4: i64,
}

impl CreateOrder {
    /// The creation rule: a positive quantity and a non-negative price.
    pub open spec fn valid(&self) -> bool {
        self.quantity > 0 && self.price_e4 >= 0
    }
}

/// Input shape for updating an order's status.
#[derive(Clone, Copy, PartialEq, Eq, Structural, Debug)]
pub struct UpdateStatus {
    pub status: OrderStatus,
}

/// The amount in cents owed for a non-negative major-unit price scaled by
/// ten thousand: price times one hundred, rounded half away from zero.
pub open spec fn spec_round_cents(price_e4: int) -> int
    recommends
        price_e4 >= 0,
{
    (price_e4 + 50) / 100
}

/// The cents amount is the nearest integer to the scaled price divided by
/// one hundred, with a tie (exactly half a cent) rounded away from zero.
pub proof fn lemma_round_cents_is_nearest(p: int)
    requires
        p >= 0,
    ensures
        spec_round_cents(p) >= 0,
        100 * spec_round_cents(p) <= p + 50,
        p - 50 < 100 * spec_round_cents(p),
{
    vstd::arithmetic::div_mod::lemma_fundamental_div_mod(p + 50, 100);
    vstd::arithmetic::div_mod::lemma_div_is_ordered(0, p + 50, 100);
}

/// Converts a non-negative scaled price to cents, rounding half away from
/// zero.
pub fn round_to_cents(price_e4: i64) -> (r: i64)
    requires
        price_e4 >= 0,
    ensures
        r == spec_round_cents(price_e4 as int),
        r >= 0,
{
    let p: u64 = price_e4 as u64;
    let q: u64 = p / 100;
    let rem: u64 = p % 100;
    let c: u64 = if rem >= 50 {
        q + 1
    } else {
        q
    };
    proof {
        assert(p == 100 * (p as int / 100) + p as int % 100) by (nonlinear_arith);
        assert(c == (p + 50) as int / 100) by (nonlinear_arith)
            requires
                p == 100 * (q as int) + rem,
                0 <= rem < 100,
                c == q + (if rem >= 50 { 1int } else { 0int }),
        ;
    }
    c as i64
}

} // verus!
