use customer_orders::errors::ServiceError;
use customer_orders::in_memory_repo::InMemoryRepo;
use customer_orders::models::{round_to_cents, CreateOrder, Order, OrderStatus};
use customer_orders::repository::OrderRepository;

fn some_input(name: &str, quantity: i32, price_e4: i64) -> CreateOrder {
    CreateOrder {
        customer_name: name.to_string(),
        item: "widget".to_string(),
        quantity,
        price_e4,
    }
}

fn must_create(repo: &mut InMemoryRepo, name: &str, quantity: i32, price_e4: i64) -> Order {
    repo.create_order(some_input(name, quantity, price_e4)).unwrap()
}

#[test]
fn test_create_rejects_non_positive_quantity() {
    let mut repo = InMemoryRepo::new();
    for quantity in [0, -1, -500] {
        let err = repo.create_order(some_input("x", quantity, 100)).unwrap_err();
        match err {
            ServiceError::BadRequest(m) => assert_eq!(m, "quantity must be > 0"),
            _ => panic!("expected BadRequest"),
        }
    }
    assert!(repo.list_orders().unwrap().is_empty());
}

#[test]
fn test_create_rejects_negative_price() {
    let mut repo = InMemoryRepo::new();
    let err = repo.create_order(some_input("x", 1, -1)).unwrap_err();
    match err {
        ServiceError::BadRequest(m) => assert_eq!(m, "price must be >= 0"),
        _ => panic!("expected BadRequest"),
    }
    assert!(repo.list_orders().unwrap().is_empty());
}

#[test]
fn test_valid_creation_sets_the_derived_fields() {
    let mut repo = InMemoryRepo::new();
    let created = must_create(&mut repo, "Ada", 3, 12_345_678);
    assert_eq!(created.status, OrderStatus::Pending);
    assert_eq!(created.price_cents, 123_457); // rounded half away from zero
    assert_eq!(created.created_at, created.updated_at);
    assert_eq!(created.quantity, 3);
    assert_eq!(created.customer_name, "Ada");
    assert_eq!(created.item, "widget");
}

#[test]
fn test_rounding_half_away_from_zero() {
    assert_eq!(round_to_cents(0), 0);
    assert_eq!(round_to_cents(49), 0);
    assert_eq!(round_to_cents(50), 1);
    assert_eq!(round_to_cents(149), 1);
    assert_eq!(round_to_cents(150), 2);
    assert_eq!(round_to_cents(839_900_000), 8_399_000);
}

#[test]
fn test_get_returns_the_created_entity() {
    let mut repo = InMemoryRepo::new();
    let created = must_create(&mut repo, "Bo", 2, 990_000);
    let fetched = repo.get_order(created.id).unwrap();
    assert_eq!(fetched, created);
}

#[test]
fn test_operations_on_an_unissued_id_fail_with_not_found() {
    let mut repo = InMemoryRepo::new();
    let id: u128 = 42;
    assert!(matches!(repo.get_order(id), Err(ServiceError::NotFound)));
    assert!(matches!(
        repo.update_status(id, OrderStatus::Shipped),
        Err(ServiceError::NotFound)
    ));
    assert!(matches!(repo.delete_order(id), Err(ServiceError::NotFound)));
}

#[test]
fn test_update_changes_only_status_and_updated_at() {
    let mut repo = InMemoryRepo::new();
    let created = must_create(&mut repo, "Cy", 1, 5_000);
    let updated = repo.update_status(created.id, OrderStatus::Delivered).unwrap();
    assert_eq!(updated.status, OrderStatus::Delivered);
    assert_eq!(updated.id, created.id);
    assert_eq!(updated.customer_name, created.customer_name);
    assert_eq!(updated.item, created.item);
    assert_eq!(updated.quantity, created.quantity);
    assert_eq!(updated.price_cents, created.price_cents);
    assert_eq!(updated.created_at, created.created_at);
    assert!(updated.updated_at >= created.updated_at);
    // The update is persisted.
    assert_eq!(repo.get_order(created.id).unwrap().status, OrderStatus::Delivered);
}

#[test]
fn test_any_status_may_move_to_any_other() {
    let mut repo = InMemoryRepo::new();
    let created = must_create(&mut repo, "Di", 1, 100);
    for status in [
        OrderStatus::Shipped,
        OrderStatus::Pending,
        OrderStatus::Cancelled,
        OrderStatus::Processing,
        OrderStatus::Delivered,
    ] {
        let updated = repo.update_status(created.id, status).unwrap();
        assert_eq!(updated.status, status);
    }
}

#[test]
fn test_delete_then_get_fails_with_not_found() {
    let mut repo = InMemoryRepo::new();
    let created = must_create(&mut repo, "Ed", 1, 100);
    repo.delete_order(created.id).unwrap();
    assert!(matches!(repo.get_order(created.id), Err(ServiceError::NotFound)));
    assert!(matches!(repo.delete_order(created.id), Err(ServiceError::NotFound)));
}

#[test]
fn test_list_is_sorted_newest_first_and_complete() {
    let mut repo = InMemoryRepo::new();
    assert!(repo.list_orders().unwrap().is_empty());
    let a = must_create(&mut repo, "a", 1, 100);
    let b = must_create(&mut repo, "b", 1, 100);
    let c = must_create(&mut repo, "c", 1, 100);
    let listed = repo.list_orders().unwrap();
    assert_eq!(listed.len(), 3);
    for w in listed.windows(2) {
        assert!(w[0].created_at >= w[1].created_at);
    }
    for o in [a, b, c] {
        assert!(listed.iter().any(|x| *x == o));
    }
}

#[test]
fn test_default_repository_is_empty() {
    let repo = InMemoryRepo::default();
    assert!(repo.list_orders().unwrap().is_empty());
    assert_eq!(OrderStatus::default(), OrderStatus::Pending);
}
