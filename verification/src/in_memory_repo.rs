//! The map-backed repository used for tests and local runs. The store is a
//! sequence of orders with unique ids; listing copies the orders and hands
//! them out newest first. Callers that share one instance across threads
//! wrap it in a reader/writer lock and never expose the store directly.

use vstd::prelude::*;

use crate::errors::ServiceError;
use crate::models::{CreateOrder, Order, OrderStatus};
use crate::repository::{
    OrderRepository, lemma_get_after_delete, lemma_get_after_insert, lemma_index_of_unique,
    lemma_update_keeps_ids, make_order, order_at, seq_contains_id, sorted_desc, unique_ids,
    updated_order, validate_create,
};

verus! {

/// Relies on uuid::Uuid::new_v4 and Uuid::as_u128: a randomly generated
/// version-4 identifier as a plain 128-bit value; nothing is promised of
/// the value drawn.
#[verifier::external_body]
fn new_uuid_v4() -> u128 {
    uuid::Uuid::new_v4().as_u128()
}

/// Relies on chrono::Utc::now and DateTime::timestamp_micros: the current
/// time as microseconds since the Unix epoch; nothing is promised of the
/// value read.
#[verifier::external_body]
fn now_micros() -> i64 {
    chrono::Utc::now().timestamp_micros()
}

/// The in-memory backend: a keyed store held as a sequence of orders whose
/// ids are unique.
pub struct InMemoryRepo {
    orders: Vec<Order>,
}

impl InMemoryRepo {
    pub fn new() -> (r: Self)
        ensures
            r.store() == Seq::<Order>::empty(),
            r.wf(),
    {
        InMemoryRepo { orders: Vec::new() }
    }

    /// The index holding the id, if any order carries it.
    fn find_index(&self, id: u128) -> (r: Option<usize>)
        ensures
            r matches Some(i) ==> i < self.orders@.len() && self.orders@[i as int].id == id,
            r is None ==> !seq_contains_id(self.orders@, id),
    {
        let mut i: usize = 0;
        while i < self.orders.len()
            invariant
                i <= self.orders@.len(),
                forall|k: int| 0 <= k < i ==> self.orders@[k].id != id,
            decreases self.orders@.len() - i,
        {
            if self.orders[i].id == id {
                return Some(i);
            }
            i += 1;
        }
        None
    }
}

impl Default for InMemoryRepo {
    fn default() -> (r: Self)
        ensures
            r.store() == Seq::<Order>::empty(),
            r.wf(),
    {
        InMemoryRepo::new()
    }
}

/// Places an order into a newest-first sequence, keeping it newest first.
fn insert_sorted(out: &mut Vec<Order>, o: Order)
    requires
        sorted_desc(old(out)@),
    ensures
        final(out)@.to_multiset() == old(out)@.to_multiset().insert(o),
        final(out)@.len() == old(out)@.len() + 1,
        sorted_desc(final(out)@),
{
    let mut j: usize = 0;
    while j < out.len() && out[j].created_at >= o.created_at
        invariant
            j <= out@.len(),
            out@ == old(out)@,
            forall|k: int| 0 <= k < j ==> out@[k].created_at >= o.created_at,
        decreases out@.len() - j,
    {
        j += 1;
    }
    proof {
        let s = out@;
        let t = s.insert(j as int, o);
        assert forall|a: int, b: int| 0 <= a <= b < t.len() implies t[a].created_at
            >= t[b].created_at by {
            if a < j && b >= j + 1 {
                assert(t[a] == s[a] && t[b] == s[b - 1]);
                if j < s.len() {
                    assert(s[a].created_at >= s[j as int].created_at || a == j);
                }
            }
        }
        vstd::seq_lib::to_multiset_insert(s, j as int, o);
    }
    out.insert(j, o);
}

impl OrderRepository for InMemoryRepo {
    closed spec fn store(&self) -> Seq<Order> {
        self.orders@
    }

    closed spec fn wf(&self) -> bool {
        unique_ids(self.orders@)
    }

    proof fn wf_implies_unique_ids(&self) {
    }

    fn create_order(&mut self, input: CreateOrder) -> (r: Result<Order, ServiceError>) {
        match validate_create(&input) {
            Err(e) => {
                return Err(e);
            },
            Ok(_) => {},
        }
        let id = new_uuid_v4();
        let now = now_micros();
        let order = make_order(input, id, now);
        proof {
            lemma_get_after_insert(self.orders@, order);
        }
        let stored = order.clone();
        match self.find_index(id) {
            Some(i) => {
                proof {
                    lemma_index_of_unique(self.orders@, id, i as int);
                }
                self.orders.set(i, stored);
            },
            None => {
                self.orders.push(stored);
            },
        }
        Ok(order)
    }

    fn get_order(&self, id: u128) -> (r: Result<Order, ServiceError>) {
        match self.find_index(id) {
            Some(i) => {
                proof {
                    lemma_index_of_unique(self.orders@, id, i as int);
                }
                Ok(self.orders[i].clone())
            },
            None => Err(ServiceError::NotFound),
        }
    }

    fn list_orders(&self) -> (r: Result<Vec<Order>, ServiceError>) {
        let mut v: Vec<Order> = Vec::new();
        let mut i: usize = 0;
        proof {
            assert(self.orders@.subrange(0, 0) =~= v@);
        }
        while i < self.orders.len()
            invariant
                i <= self.orders@.len(),
                sorted_desc(v@),
                v@.len() == i,
                v@.to_multiset() == self.orders@.subrange(0, i as int).to_multiset(),
            decreases self.orders@.len() - i,
        {
            let o = self.orders[i].clone();
            insert_sorted(&mut v, o);
            proof {
                let pre = self.orders@.subrange(0, i as int);
                assert(self.orders@.subrange(0, i + 1) =~= pre.push(self.orders@[i as int]));
                vstd::seq_lib::to_multiset_build(pre, self.orders@[i as int]);
            }
            i += 1;
        }
        proof {
            assert(self.orders@.subrange(0, self.orders@.len() as int) =~= self.orders@);
        }
        Ok(v)
    }

    fn update_status(&mut self, id: u128, status: OrderStatus) -> (r: Result<
        Order,
        ServiceError,
    >) {
        let now = now_micros();
        match self.find_index(id) {
            Some(i) => {
                proof {
                    lemma_index_of_unique(self.orders@, id, i as int);
                }
                let o = self.orders[i].clone();
                let updated = Order {
                    id: o.id,
                    customer_name: o.customer_name,
                    item: o.item,
                    quantity: o.quantity,
                    price_cents: o.price_cents,
                    status,
                    created_at: o.created_at,
                    updated_at: now,
                };
                proof {
                    assert(updated == updated_order(order_at(self.orders@, id), status, now));
                    lemma_update_keeps_ids(self.orders@, id, updated);
                }
                let stored = updated.clone();
                self.orders.set(i, stored);
                Ok(updated)
            },
            None => Err(ServiceError::NotFound),
        }
    }

    fn delete_order(&mut self, id: u128) -> (r: Result<(), ServiceError>) {
        match self.find_index(id) {
            Some(i) => {
                proof {
                    lemma_index_of_unique(self.orders@, id, i as int);
                    lemma_get_after_delete(self.orders@, id);
                }
                self.orders.remove(i);
                Ok(())
            },
            None => Err(ServiceError::NotFound),
        }
    }
}

} // verus!
