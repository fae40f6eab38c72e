//! The verified half of the SQL backend: the status codec used when a
//! status is persisted as its string name, the decoding of a well-typed
//! table row into the order entity, and the affected-row-count rule.
//!
//! Issuing the statements themselves is I/O and lives outside the library;
//! it hands rows back as [`OrderRow`] values.

use vstd::prelude::*;

use crate::errors::ServiceError;
use crate::models::{Order, OrderStatus};

verus! {

/// The name under which a status is persisted.
pub open spec fn spec_status_name(s: OrderStatus) -> Seq<char> {
    match s {
        OrderStatus::Pending => "Pending"@,
        OrderStatus::Processing => "Processing"@,
        OrderStatus::Shipped => "Shipped"@,
        OrderStatus::Delivered => "Delivered"@,
        OrderStatus::Cancelled => "Cancelled"@,
    }
}

/// The status a persisted name decodes to: the matching member of the
/// enumeration, and Pending for any unrecognized name (a defensive
/// compatibility fallback that mirrors the write side's closed set).
pub open spec fn spec_status_of_name(s: Seq<char>) -> OrderStatus {
    if s == "Processing"@ {
        OrderStatus::Processing
    } else if s == "Shipped"@ {
        OrderStatus::Shipped
    } else if s == "Delivered"@ {
        OrderStatus::Delivered
    } else if s == "Cancelled"@ {
        OrderStatus::Cancelled
    } else {
        OrderStatus::Pending
    }
}

/// Encodes a status as the string name it is persisted under.
pub fn status_to_str(s: &OrderStatus) -> (r: &'static str)
    ensures
        r@ == spec_status_name(*s),
{
    match s {
        OrderStatus::Pending => "Pending",
        OrderStatus::Processing => "Processing",
        OrderStatus::Shipped => "Shipped",
        OrderStatus::Delivered => "Delivered",
        OrderStatus::Cancelled => "Cancelled",
    }
}

/// The five persisted status names are pairwise distinct.
pub proof fn lemma_status_names_distinct()
    ensures
        "Pending"@ != "Processing"@,
        "Pending"@ != "Shipped"@,
        "Pending"@ != "Delivered"@,
        "Pending"@ != "Cancelled"@,
        "Processing"@ != "Shipped"@,
        "Processing"@ != "Delivered"@,
        "Processing"@ != "Cancelled"@,
        "Shipped"@ != "Delivered"@,
        "Shipped"@ != "Cancelled"@,
        "Delivered"@ != "Cancelled"@,
{
    reveal_strlit("Pending");
    reveal_strlit("Processing");
    reveal_strlit("Shipped");
    reveal_strlit("Delivered");
    reveal_strlit("Cancelled");
    assert("Pending"@.len() == 7);
    assert("Processing"@.len() == 10);
    assert("Shipped"@.len() == 7);
    assert("Delivered"@.len() == 9);
    assert("Cancelled"@.len() == 9);
    assert("Pending"@[0] == 'P' && "Shipped"@[0] == 'S');
    assert("Delivered"@[0] == 'D' && "Cancelled"@[0] == 'C');
}

/// Decodes a persisted string into a status; an unrecognized string
/// defaults to Pending rather than failing.
pub fn map_status(s: &str) -> (r: OrderStatus)
    ensures
        r == spec_status_of_name(s@),
{
    proof {
        lemma_status_names_distinct();
    }
    let t = s.to_owned();
    if t == String::from_str("Pending") {
        OrderStatus::Pending
    } else if t == String::from_str("Processing") {
        OrderStatus::Processing
    } else if t == String::from_str("Shipped") {
        OrderStatus::Shipped
    } else if t == String::from_str("Delivered") {
        OrderStatus::Delivered
    } else if t == String::from_str("Cancelled") {
        OrderStatus::Cancelled
    } else {
        OrderStatus::Pending
    }
}

/// The status codec round-trips: decoding the persisted name of a status
/// yields that status again.
pub proof fn lemma_status_name_roundtrip(s: OrderStatus)
    ensures
        spec_status_of_name(spec_status_name(s)) == s,
{
    lemma_status_names_distinct();
}

/// One row of the orders table, already carried over into plain values:
/// the id as a 128-bit integer, the timestamps in microseconds since the
/// Unix epoch, and the status under its persisted name. A row with a
/// missing or malformed column never reaches this shape; extraction
/// surfaces a storage error instead.
#[derive(Debug)]
pub struct OrderRow {
    pub id: u128,
    pub customer_name: String,
    pub item: String,
    pub quantity: i32,
    pub price_cents: i64,
    pub status: String,
    pub created_at: i64,
    pub updated_at: i64,
}

/// Decodes a well-typed row into the order entity; the status name goes
/// through the codec fallback.
pub fn row_to_order(row: OrderRow) -> (r: Order)
    ensures
        r.id == row.id,
        r.customer_name == row.customer_name,
        r.item == row.item,
        r.quantity == row.quantity,
        r.price_cents == row.price_cents,
        r.status == spec_status_of_name(row.status@),
        r.created_at == row.created_at,
        r.updated_at == row.updated_at,
{
    let status = map_status(row.status.as_str());
    Order {
        id: row.id,
        customer_name: row.customer_name,
        item: row.item,
        quantity: row.quantity,
        price_cents: row.price_cents,
        status,
        created_at: row.created_at,
        updated_at: row.updated_at,
    }
}

/// The affected-row-count rule shared by the SQL update and delete: a
/// statement that touched no row means the id is absent.
pub fn affected_to_result(rows_affected: u64) -> (r: Result<(), ServiceError>)
    ensures
        rows_affected == 0 ==> (r matches Err(e) && e is NotFound),
        rows_affected != 0 ==> r is Ok,
{
    if rows_affected == 0 {
        Err(ServiceError::NotFound)
    } else {
        Ok(())
    }
}

} // verus!
