//! Request handlers: each one translates a verb-plus-path into exactly one
//! repository call and maps the outcome to a status code and body. A
//! path-embedded id is parsed before any repository call; a parse failure
//! is InvalidInput and the repository is never invoked.

use vstd::prelude::*;

use crate::errors::ServiceError;
use crate::models::{CreateOrder, Order, UpdateStatus};
use crate::repository::{
    OrderRepository, created_order, order_at, seq_contains_id, sorted_desc, store_insert,
    store_remove, updated_order,
};

verus! {

/// What an id string parses to, if the identifier format accepts it.
pub uninterp spec fn uuid_of_str(s: Seq<char>) -> Option<u128>;

/// Relies on uuid::Uuid::parse_str and Uuid::as_u128: whether a string is
/// accepted as an identifier, and the value it denotes, depend on its
/// characters alone.
#[verifier::external_body]
fn parse_uuid(s: &str) -> (r: Option<u128>)
    ensures
        r == uuid_of_str(s@),
{
    match uuid::Uuid::parse_str(s) {
        Ok(u) => Some(u.as_u128()),
        Err(_) => None,
    }
}

/// The body of a successful response.
#[derive(Debug)]
pub enum ReplyBody {
    /// A single entity, for create, get and update-status.
    Entity(Order),
    /// The whole collection, for list.
    Collection(Vec<Order>),
    /// No body, for delete.
    Empty,
}

/// A successful response: the status code and the body to serialize.
#[derive(Debug)]
pub struct Reply {
    pub status: u16,
    pub body: ReplyBody,
}

/// POST /orders: creates an order and answers 201 with the entity.
pub fn create_order<R: OrderRepository>(repo: &mut R, input: CreateOrder) -> (r: Result<
    Reply,
    ServiceError,
>)
    requires
        old(repo).wf(),
    ensures
        final(repo).wf(),
        !input.valid() ==> final(repo).store() == old(repo).store(),
        input.quantity <= 0 ==> (r matches Err(ServiceError::BadRequest(m)) && m@
            == "quantity must be > 0"@),
        input.quantity > 0 && input.price_e4 < 0 ==> (r matches Err(ServiceError::BadRequest(m))
            && m@ == "price must be >= 0"@),
        input.valid() ==> (r matches Ok(reply) && reply.status == 201 && (reply.body
            matches ReplyBody::Entity(o) && o == created_order(input, o.id, o.created_at)
            && final(repo).store() == store_insert(old(repo).store(), o))),
{
    match repo.create_order(input) {
        Ok(created) => Ok(Reply { status: 201, body: ReplyBody::Entity(created) }),
        Err(e) => Err(e),
    }
}

/// GET /orders/{id}: answers 200 with the entity, 400 on a malformed id,
/// 404 when the id is absent.
pub fn get_order<R: OrderRepository>(repo: &R, path: &str) -> (r: Result<Reply, ServiceError>)
    requires
        repo.wf(),
    ensures
        uuid_of_str(path@) is None ==> (r matches Err(ServiceError::BadRequest(m)) && m@
            == "invalid uuid"@),
        uuid_of_str(path@) matches Some(id) ==> (seq_contains_id(repo.store(), id) ==> (r
            matches Ok(reply) && reply.status == 200 && (reply.body matches ReplyBody::Entity(o)
            && o == order_at(repo.store(), id)))),
        uuid_of_str(path@) matches Some(id) ==> (!seq_contains_id(repo.store(), id) ==> r
            == Err::<Reply, ServiceError>(ServiceError::NotFound)),
{
    let id = match parse_uuid(path) {
        Some(id) => id,
        None => {
            return Err(ServiceError::BadRequest(String::from_str("invalid uuid")));
        },
    };
    match repo.get_order(id) {
        Ok(o) => Ok(Reply { status: 200, body: ReplyBody::Entity(o) }),
        Err(e) => Err(e),
    }
}

/// GET /orders: answers 200 with every order, most recently created first.
pub fn list_orders<R: OrderRepository>(repo: &R) -> (r: Result<Reply, ServiceError>)
    requires
        repo.wf(),
    ensures
        (r matches Ok(reply) && reply.status == 200 && (reply.body matches ReplyBody::Collection(v)
            && v@.to_multiset() == repo.store().to_multiset() && v@.len() == repo.store().len()
            && sorted_desc(v@))),
{
    match repo.list_orders() {
        Ok(v) => Ok(Reply { status: 200, body: ReplyBody::Collection(v) }),
        Err(e) => Err(e),
    }
}

/// PATCH /orders/{id}/status: answers 200 with the updated entity, 400 on
/// a malformed id, 404 when the id is absent.
pub fn update_status<R: OrderRepository>(repo: &mut R, path: &str, body: UpdateStatus) -> (r:
    Result<Reply, ServiceError>)
    requires
        old(repo).wf(),
    ensures
        final(repo).wf(),
        uuid_of_str(path@) is None ==> ((r matches Err(ServiceError::BadRequest(m)) && m@
            == "invalid uuid"@) && final(repo).store() == old(repo).store()),
        uuid_of_str(path@) matches Some(id) ==> (seq_contains_id(old(repo).store(), id) ==> (r
            matches Ok(reply) && reply.status == 200 && (reply.body matches ReplyBody::Entity(o)
            && o == updated_order(order_at(old(repo).store(), id), body.status, o.updated_at)
            && final(repo).store() == store_insert(old(repo).store(), o)))),
        uuid_of_str(path@) matches Some(id) ==> (!seq_contains_id(old(repo).store(), id) ==> r
            == Err::<Reply, ServiceError>(ServiceError::NotFound) && final(repo).store() == old(
            repo,
        ).store()),
{
    let id = match parse_uuid(path) {
        Some(id) => id,
        None => {
            return Err(ServiceError::BadRequest(String::from_str("invalid uuid")));
        },
    };
    match repo.update_status(id, body.status) {
        Ok(o) => Ok(Reply { status: 200, body: ReplyBody::Entity(o) }),
        Err(e) => Err(e),
    }
}

/// DELETE /orders/{id}: answers 204 with no body, 400 on a malformed id,
/// 404 when the id is absent.
pub fn delete_order<R: OrderRepository>(repo: &mut R, path: &str) -> (r: Result<
    Reply,
    ServiceError,
>)
    requires
        old(repo).wf(),
    ensures
        final(repo).wf(),
        uuid_of_str(path@) is None ==> ((r matches Err(ServiceError::BadRequest(m)) && m@
            == "invalid uuid"@) && final(repo).store() == old(repo).store()),
        uuid_of_str(path@) matches Some(id) ==> (seq_contains_id(old(repo).store(), id) ==> (r
            matches Ok(reply) && reply.status == 204 && reply.body is Empty && final(repo).store()
            == store_remove(old(repo).store(), id))),
        uuid_of_str(path@) matches Some(id) ==> (!seq_contains_id(old(repo).store(), id) ==> r
            == Err::<Reply, ServiceError>(ServiceError::NotFound) && final(repo).store() == old(
            repo,
        ).store()),
{
    let id = match parse_uuid(path) {
        Some(id) => id,
        None => {
            return Err(ServiceError::BadRequest(String::from_str("invalid uuid")));
        },
    };
    match repo.delete_order(id) {
        Ok(_) => Ok(Reply { status: 204, body: ReplyBody::Empty }),
        Err(e) => Err(e),
    }
}

} // verus!
