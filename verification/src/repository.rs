//! The storage-abstraction interface: five operations, polymorphic over
//! the backend, together with the specification vocabulary the contracts
//! speak in and the laws that relate the operations.

use vstd::prelude::*;

use crate::errors::ServiceError;
use crate::models::{CreateOrder, Order, OrderStatus, round_to_cents, spec_round_cents};

verus! {

/// Whether some order in the store carries the id.
pub open spec fn seq_contains_id(s: Seq<Order>, id: u128) -> bool {
    exists|i: int| 0 <= i < s.len() && s[i].id == id
}

/// The index of the order carrying the id.
pub open spec fn index_of_id(s: Seq<Order>, id: u128) -> int {
    choose|i: int| 0 <= i < s.len() && s[i].id == id
}

/// The order carrying the id.
pub open spec fn order_at(s: Seq<Order>, id: u128) -> Order {
    s[index_of_id(s, id)]
}

/// No two orders share an id.
pub open spec fn unique_ids(s: Seq<Order>) -> bool {
    forall|i: int, j: int| 0 <= i < j < s.len() ==> s[i].id != s[j].id
}

/// A store after an insert keyed by the order's id: an order already under
/// that id is replaced in place, any other order is appended.
pub open spec fn store_insert(s: Seq<Order>, o: Order) -> Seq<Order> {
    if seq_contains_id(s, o.id) {
        s.update(index_of_id(s, o.id), o)
    } else {
        s.push(o)
    }
}

/// A store after removing the order under an id.
pub open spec fn store_remove(s: Seq<Order>, id: u128) -> Seq<Order> {
    if seq_contains_id(s, id) {
        s.remove(index_of_id(s, id))
    } else {
        s
    }
}

/// The entity a valid creation builds: a fresh id, status Pending, the
/// price converted to cents, and both timestamps at the creation instant.
pub open spec fn created_order(input: CreateOrder, id: u128, now: i64) -> Order {
    Order {
        id,
        customer_name: input.customer_name,
        item: input.item,
        quantity: input.quantity,
        price_cents: spec_round_cents(input.price_e4 as int) as i64,
        status: OrderStatus::Pending,
        created_at: now,
        updated_at: now,
    }
}

/// Checks the creation rule, answering the exact error the rule names:
/// a non-positive quantity, then a negative price.
pub fn validate_create(input: &CreateOrder) -> (r: Result<(), ServiceError>)
    ensures
        r is Ok <==> input.valid(),
        input.quantity <= 0 ==> (r matches Err(ServiceError::BadRequest(m)) && m@
            == "quantity must be > 0"@),
        input.quantity > 0 && input.price_e4 < 0 ==> (r matches Err(ServiceError::BadRequest(m))
            && m@ == "price must be >= 0"@),
{
    if input.quantity <= 0 {
        Err(ServiceError::BadRequest(String::from_str("quantity must be > 0")))
    } else if input.price_e4 < 0 {
        Err(ServiceError::BadRequest(String::from_str("price must be >= 0")))
    } else {
        Ok(())
    }
}

/// Builds the entity a valid creation persists and returns.
pub fn make_order(input: CreateOrder, id: u128, now: i64) -> (r: Order)
    requires
        input.valid(),
    ensures
        r == created_order(input, id, now),
{
    let price_cents: i64 = round_to_cents(input.price_e4);
    Order {
        id,
        customer_name: input.customer_name,
        item: input.item,
        quantity: input.quantity,
        price_cents,
        status: OrderStatus::Pending,
        created_at: now,
        updated_at: now,
    }
}

/// The entity after a status update: only the status and the update
/// instant change.
pub open spec fn updated_order(o: Order, status: OrderStatus, now: i64) -> Order {
    Order { status, updated_at: now, ..o }
}

/// Newest first: creation instants never increase along the sequence.
pub open spec fn sorted_desc(s: Seq<Order>) -> bool {
    forall|i: int, j: int| 0 <= i <= j < s.len() ==> s[i].created_at >= s[j].created_at
}

/// The storage capability: create, read, list, update-status and delete,
/// implemented polymorphically by the backends.
///
/// Each backend exposes its contents as a sequence of orders and keeps
/// the ids in it unique.
pub trait OrderRepository: Sized {
    /// The orders the backend holds, in backend order.
    spec fn store(&self) -> Seq<Order>;

    /// The backend's invariant; it implies that ids are unique.
    spec fn wf(&self) -> bool;

    proof fn wf_implies_unique_ids(&self)
        requires
            self.wf(),
        ensures
            unique_ids(self.store()),
    ;

    /// Validates the input, then persists a fresh entity and returns it.
    fn create_order(&mut self, input: CreateOrder) -> (r: Result<Order, ServiceError>)
        requires
            old(self).wf(),
        ensures
            final(self).wf(),
            !input.valid() ==> final(self).store() == old(self).store(),
            input.quantity <= 0 ==> (r matches Err(ServiceError::BadRequest(m)) && m@
                == "quantity must be > 0"@),
            input.quantity > 0 && input.price_e4 < 0 ==> (r matches Err(
                ServiceError::BadRequest(m),
            ) && m@ == "price must be >= 0"@),
            input.valid() ==> (r matches Ok(o) && o == created_order(input, o.id, o.created_at)
                && final(self).store() == store_insert(old(self).store(), o)),
    ;

    /// Returns the entity under the id, or NotFound.
    fn get_order(&self, id: u128) -> (r: Result<Order, ServiceError>)
        requires
            self.wf(),
        ensures
            seq_contains_id(self.store(), id) ==> r == Ok::<Order, ServiceError>(
                order_at(self.store(), id),
            ),
            !seq_contains_id(self.store(), id) ==> r == Err::<Order, ServiceError>(
                ServiceError::NotFound,
            ),
    ;

    /// Returns every entity, most recently created first; an empty store
    /// yields an empty sequence, never an error.
    fn list_orders(&self) -> (r: Result<Vec<Order>, ServiceError>)
        requires
            self.wf(),
        ensures
            (r matches Ok(v) && v@.to_multiset() == self.store().to_multiset() && v@.len()
                == self.store().len() && sorted_desc(v@)),
    ;

    /// Overwrites the status unconditionally, refreshes the update
    /// instant, and returns the updated entity; NotFound if the id is
    /// absent.
    fn update_status(&mut self, id: u128, status: OrderStatus) -> (r: Result<Order, ServiceError>)
        requires
            old(self).wf(),
        ensures
            final(self).wf(),
            !seq_contains_id(old(self).store(), id) ==> r == Err::<Order, ServiceError>(
                ServiceError::NotFound,
            ) && final(self).store() == old(self).store(),
            seq_contains_id(old(self).store(), id) ==> (r matches Ok(o) && o == updated_order(
                order_at(old(self).store(), id),
                status,
                o.updated_at,
            ) && final(self).store() == store_insert(old(self).store(), o)),
    ;

    /// Removes the entity under the id permanently; NotFound if absent.
    fn delete_order(&mut self, id: u128) -> (r: Result<(), ServiceError>)
        requires
            old(self).wf(),
        ensures
            final(self).wf(),
            !seq_contains_id(old(self).store(), id) ==> r == Err::<(), ServiceError>(
                ServiceError::NotFound,
            ) && final(self).store() == old(self).store(),
            seq_contains_id(old(self).store(), id) ==> r == Ok::<(), ServiceError>(())
                && final(self).store() == store_remove(old(self).store(), id),
    ;
}

/// In a store with unique ids, an order found at an index is the order
/// the id-lookup vocabulary speaks of.
pub proof fn lemma_index_of_unique(s: Seq<Order>, id: u128, i: int)
    requires
        unique_ids(s),
        0 <= i < s.len(),
        s[i].id == id,
    ensures
        seq_contains_id(s, id),
        index_of_id(s, id) == i,
        order_at(s, id) == s[i],
{
    assert(seq_contains_id(s, id));
    let j = index_of_id(s, id);
    assert(0 <= j < s.len() && s[j].id == id);
    if i < j {
        assert(s[i].id != s[j].id);
    } else if j < i {
        assert(s[j].id != s[i].id);
    }
}

/// Reading a freshly inserted id returns exactly the inserted entity, and
/// the insert keeps ids unique.
pub proof fn lemma_get_after_insert(s: Seq<Order>, o: Order)
    requires
        unique_ids(s),
    ensures
        seq_contains_id(store_insert(s, o), o.id),
        order_at(store_insert(s, o), o.id) == o,
        unique_ids(store_insert(s, o)),
{
    let t = store_insert(s, o);
    if seq_contains_id(s, o.id) {
        let i = index_of_id(s, o.id);
        assert(0 <= i < s.len() && s[i].id == o.id);
        assert(t == s.update(i, o));
        assert(forall|k: int| 0 <= k < t.len() ==> t[k].id == s[k].id);
        assert(unique_ids(t));
        lemma_index_of_unique(t, o.id, i);
    } else {
        assert(t == s.push(o));
        assert(t[s.len() as int] == o);
        assert(forall|k: int| 0 <= k < s.len() ==> t[k] == s[k]);
        assert(unique_ids(t));
        lemma_index_of_unique(t, o.id, s.len() as int);
    }
}

/// After a delete the id is absent, so a later read misses, and the
/// remaining ids stay unique.
pub proof fn lemma_get_after_delete(s: Seq<Order>, id: u128)
    requires
        unique_ids(s),
    ensures
        !seq_contains_id(store_remove(s, id), id),
        unique_ids(store_remove(s, id)),
{
    if seq_contains_id(s, id) {
        let i = index_of_id(s, id);
        assert(0 <= i < s.len() && s[i].id == id);
        let t = s.remove(i);
        assert(forall|k: int| 0 <= k < i ==> t[k] == s[k]);
        assert(forall|k: int| i <= k < t.len() ==> t[k] == s[k + 1]);
        assert forall|k: int| 0 <= k < t.len() implies t[k].id != id by {
            if k < i {
                assert(s[k].id != s[i].id);
            } else {
                assert(s[i].id != s[k + 1].id);
            }
        }
        assert(unique_ids(t));
    }
}

/// A status update keeps the store's ids: the updated entity sits where
/// the old one sat, under the same id, and ids stay unique.
pub proof fn lemma_update_keeps_ids(s: Seq<Order>, id: u128, o: Order)
    requires
        unique_ids(s),
        seq_contains_id(s, id),
        o.id == id,
    ensures
        store_insert(s, o) == s.update(index_of_id(s, id), o),
        seq_contains_id(store_insert(s, o), id),
        order_at(store_insert(s, o), id) == o,
        unique_ids(store_insert(s, o)),
{
    lemma_get_after_insert(s, o);
}

/// A status update changes only the status and the update instant; every
/// other field is untouched, and an update instant later than the old one
/// strictly increases `updated_at`.
pub proof fn lemma_update_changes_only_status(o: Order, status: OrderStatus, now: i64)
    ensures
        updated_order(o, status, now).id == o.id,
        updated_order(o, status, now).customer_name == o.customer_name,
        updated_order(o, status, now).item == o.item,
        updated_order(o, status, now).quantity == o.quantity,
        updated_order(o, status, now).price_cents == o.price_cents,
        updated_order(o, status, now).created_at == o.created_at,
        updated_order(o, status, now).status == status,
        updated_order(o, status, now).updated_at == now,
        now > o.updated_at ==> updated_order(o, status, now).updated_at > o.updated_at,
{
}

} // verus!
