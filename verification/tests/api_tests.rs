use customer_orders::errors::ServiceError;
use customer_orders::handlers::{
    create_order, delete_order, get_order, list_orders, update_status, Reply, ReplyBody,
};
use customer_orders::in_memory_repo::InMemoryRepo;
use customer_orders::models::{CreateOrder, OrderStatus, UpdateStatus};

fn id_path(id: u128) -> String {
    uuid::Uuid::from_u128(id).hyphenated().to_string()
}

fn reply_entity(reply: Reply) -> customer_orders::models::Order {
    match reply.body {
        ReplyBody::Entity(o) => o,
        _ => panic!("expected an entity body"),
    }
}

#[test]
fn test_create_get_update_delete_order() {
    let mut repo = InMemoryRepo::new();

    // 1. CREATE ORDER: price 83990.00 major units
    let input = CreateOrder {
        customer_name: "Varad".to_string(),
        item: "iphone".to_string(),
        quantity: 1,
        price_e4: 839_900_000,
    };
    let reply = create_order(&mut repo, input).unwrap();
    assert_eq!(reply.status, 201);
    let created = reply_entity(reply);
    assert_eq!(created.price_cents, 8399000);
    let id = id_path(created.id);

    // 2. GET ORDER
    let reply = get_order(&repo, &id).unwrap();
    assert_eq!(reply.status, 200);
    let fetched = reply_entity(reply);
    assert_eq!(fetched.customer_name, "Varad");
    assert_eq!(fetched.item, "iphone");

    // 3. UPDATE ORDER STATUS
    let reply = update_status(&mut repo, &id, UpdateStatus { status: OrderStatus::Shipped })
        .unwrap();
    assert_eq!(reply.status, 200);
    let updated = reply_entity(reply);
    assert_eq!(updated.status, OrderStatus::Shipped);

    // 4. DELETE ORDER
    let reply = delete_order(&mut repo, &id).unwrap();
    assert_eq!(reply.status, 204);
    assert!(matches!(reply.body, ReplyBody::Empty));

    // 5. GET after deletion -> 404
    let err = get_order(&repo, &id).unwrap_err();
    assert!(matches!(err, ServiceError::NotFound));
    assert_eq!(err.status_code(), 404);
}

#[test]
fn test_bad_id_is_rejected_before_the_repository() {
    let mut repo = InMemoryRepo::new();
    let err = get_order(&repo, "not-a-uuid").unwrap_err();
    assert!(matches!(err, ServiceError::BadRequest(_)));
    assert_eq!(err.status_code(), 400);
    assert_eq!(err.message(), "Invalid input: invalid uuid");

    let err = update_status(
        &mut repo,
        "also-not-a-uuid",
        UpdateStatus { status: OrderStatus::Cancelled },
    )
    .unwrap_err();
    assert_eq!(err.status_code(), 400);

    let err = delete_order(&mut repo, "").unwrap_err();
    assert_eq!(err.status_code(), 400);
}

#[test]
fn test_well_formed_id_reaches_the_repository() {
    // A well-formed id parses, so the miss is NotFound, not InvalidInput.
    let repo = InMemoryRepo::new();
    let err = get_order(&repo, "67e55044-10b1-426f-9247-bb680e5fe0c8").unwrap_err();
    assert!(matches!(err, ServiceError::NotFound));
}

#[test]
fn test_create_handler_rejects_invalid_input() {
    let mut repo = InMemoryRepo::new();
    let input = CreateOrder {
        customer_name: "a".to_string(),
        item: "b".to_string(),
        quantity: 0,
        price_e4: 1000,
    };
    let err = create_order(&mut repo, input).unwrap_err();
    assert_eq!(err.status_code(), 400);
    assert_eq!(err.message(), "Invalid input: quantity must be > 0");

    // No row was stored by the failed creation.
    let reply = list_orders(&repo).unwrap();
    assert_eq!(reply.status, 200);
    match reply.body {
        ReplyBody::Collection(v) => assert!(v.is_empty()),
        _ => panic!("expected a collection body"),
    }
}

#[test]
fn test_list_handler_returns_every_order_newest_first() {
    let mut repo = InMemoryRepo::new();
    for (name, qty) in [("a", 1), ("b", 2), ("c", 3)] {
        let input = CreateOrder {
            customer_name: name.to_string(),
            item: "thing".to_string(),
            quantity: qty,
            price_e4: 10_000,
        };
        create_order(&mut repo, input).unwrap();
    }
    let reply = list_orders(&repo).unwrap();
    assert_eq!(reply.status, 200);
    match reply.body {
        ReplyBody::Collection(v) => {
            assert_eq!(v.len(), 3);
            for w in v.windows(2) {
                assert!(w[0].created_at >= w[1].created_at);
            }
        },
        _ => panic!("expected a collection body"),
    }
}
