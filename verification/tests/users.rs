use reviewz::error::CustomError;
use reviewz::model::Violation;
use reviewz::records::{CreateUserPayload, UniqueAttribue, User};
use reviewz::registry::Registry;

fn new_user(email: &str, username: &str, role: &str) -> CreateUserPayload {
    CreateUserPayload {
        email: email.to_string(),
        username: username.to_string(),
        role: role.to_string(),
    }
}

#[test]
fn user_ids_count_up_from_zero() {
    let mut registry = Registry::new();
    for i in 0..5u64 {
        let data = new_user(&format!("user{}@example.com", i), &format!("user{}", i), "Customer");
        let user = registry.create_user(data, 1000 + i).unwrap().unwrap();
        assert_eq!(user.user_id, i);
        assert_eq!(user.joined_at, 1000 + i);
    }
    assert_eq!(registry.next_user_id(), 5);
    let all = registry.view_all_user().unwrap();
    assert_eq!(all.len(), 5);
    for (i, user) in all.iter().enumerate() {
        assert_eq!(user.user_id, i as u64);
        assert_eq!(user.email, format!("user{}@example.com", i));
        assert_eq!(user.username, format!("user{}", i));
        assert_eq!(user.role, "Customer");
        assert_eq!(user.joined_at, 1000 + i as u64);
    }
}

#[test]
fn created_user_holds_the_payload() {
    let mut registry = Registry::new();
    let user = registry
        .create_user(new_user("ann@shop.org", "ann", "StoreOwner"), 42)
        .unwrap()
        .unwrap();
    assert_eq!(
        user,
        User {
            user_id: 0,
            email: "ann@shop.org".to_string(),
            username: "ann".to_string(),
            role: "StoreOwner".to_string(),
            joined_at: 42,
        }
    );
    assert_eq!(registry.get_user_by_id(&0), Some(user.clone()));
    assert_eq!(registry.get_user_by_id(&1), None);
}

#[test]
fn empty_service_lists_nothing() {
    let registry = Registry::new();
    assert_eq!(registry.view_all_user(), Some(vec![]));
    assert_eq!(registry.view_all_product(), Some(vec![]));
    assert_eq!(registry.view_all_review(), Some(vec![]));
    assert_eq!(registry.next_user_id(), 0);
    assert_eq!(registry.next_product_id(), 0);
    assert_eq!(registry.next_review_id(), 0);
}

#[test]
fn same_email_is_turned_down() {
    let mut registry = Registry::new();
    registry.create_user(new_user("ann@shop.org", "ann", "Customer"), 1).unwrap();
    let reply = registry.create_user(new_user("ann@shop.org", "bob", "Customer"), 2);
    match reply {
        Err(CustomError::InvalidPayloadData { msg }) => assert_eq!(
            msg,
            "Invalid data, make sure the email is in valid format, email and username must be unique"
        ),
        other => panic!("unexpected reply: {:?}", other),
    }
    assert_eq!(registry.view_all_user().unwrap().len(), 1);
    assert_eq!(registry.next_user_id(), 1);
}

#[test]
fn same_username_is_turned_down() {
    let mut registry = Registry::new();
    registry.create_user(new_user("ann@shop.org", "ann", "Customer"), 1).unwrap();
    let reply = registry.create_user(new_user("other@shop.org", "ann", "StoreOwner"), 2);
    assert!(matches!(reply, Err(CustomError::InvalidPayloadData { .. })));
    assert_eq!(registry.view_all_user().unwrap().len(), 1);
}

#[test]
fn uniqueness_holds_across_roles() {
    let mut registry = Registry::new();
    registry.create_user(new_user("ann@shop.org", "ann", "StoreOwner"), 1).unwrap();
    let reply = registry.create_user(new_user("ann@shop.org", "ann2", "Customer"), 2);
    assert!(matches!(reply, Err(CustomError::InvalidPayloadData { .. })));
}

#[test]
fn malformed_email_is_turned_down() {
    let mut registry = Registry::new();
    for email in ["", "ann", "ann@", "@shop.org", "ann@shop", "ann@shop.o", "ann shop@x.org", "ann@shop.org "] {
        let reply = registry.create_user(new_user(email, "ann", "Customer"), 1);
        assert!(matches!(reply, Err(CustomError::InvalidPayloadData { .. })), "{}", email);
    }
    assert_eq!(registry.next_user_id(), 0);
    assert_eq!(registry.view_all_user(), Some(vec![]));
}

#[test]
fn unknown_role_is_turned_down() {
    let mut registry = Registry::new();
    for role in ["", "customer", "Admin", "StoreOwner ", "Store Owner"] {
        let reply = registry.create_user(new_user("ann@shop.org", "ann", role), 1);
        assert!(matches!(reply, Err(CustomError::InvalidPayloadData { .. })), "{}", role);
    }
    assert_eq!(registry.next_user_id(), 0);
}

#[test]
fn rejected_request_takes_no_identifier() {
    let mut registry = Registry::new();
    registry.create_user(new_user("a@shop.org", "a", "Customer"), 1).unwrap();
    assert!(registry.create_user(new_user("bad", "b", "Customer"), 2).is_err());
    assert!(registry.create_user(new_user("a@shop.org", "c", "Customer"), 3).is_err());
    let user = registry.create_user(new_user("d@shop.org", "d", "Customer"), 4).unwrap().unwrap();
    assert_eq!(user.user_id, 1);
}

#[test]
fn attribute_unique_validation_scans_all_users() {
    let mut registry = Registry::new();
    registry.create_user(new_user("a@shop.org", "ann", "Customer"), 1).unwrap();
    registry.create_user(new_user("b@shop.org", "bob", "StoreOwner"), 1).unwrap();
    assert!(!registry.attribute_unique_validation("a@shop.org", UniqueAttribue::Email));
    assert!(!registry.attribute_unique_validation("b@shop.org", UniqueAttribue::Email));
    assert!(registry.attribute_unique_validation("c@shop.org", UniqueAttribue::Email));
    assert!(registry.attribute_unique_validation("ann", UniqueAttribue::Email));
    assert!(!registry.attribute_unique_validation("ann", UniqueAttribue::Username));
    assert!(!registry.attribute_unique_validation("bob", UniqueAttribue::Username));
    assert!(registry.attribute_unique_validation("a@shop.org", UniqueAttribue::Username));
    assert!(registry.attribute_unique_validation("Ann", UniqueAttribue::Username));
}

#[test]
fn create_user_validation_agrees_with_create_user() {
    let mut registry = Registry::new();
    let good = new_user("a@shop.org", "ann", "Customer");
    assert!(registry.create_user_validation(&good));
    assert_eq!(registry.create_user_violation(&good), None);
    registry.create_user(good, 1).unwrap();
    let again = new_user("a@shop.org", "ann", "Customer");
    assert!(!registry.create_user_validation(&again));
    assert_eq!(registry.create_user_violation(&again), Some(Violation::Uniqueness));
    assert_eq!(
        registry.create_user_violation(&new_user("nope", "x", "Customer")),
        Some(Violation::Format)
    );
    assert_eq!(
        registry.create_user_violation(&new_user("x@shop.org", "x", "Owner")),
        Some(Violation::Role)
    );
    assert_eq!(
        registry.create_user_violation(&new_user("nope", "ann", "Owner")),
        Some(Violation::Format)
    );
}

#[test]
fn verdict_on_the_format_can_be_handed_in() {
    let mut registry = Registry::new();
    let data = new_user("not an address", "ann", "Customer");
    assert!(registry.create_user_validation_with(&data, true));
    assert!(!registry.create_user_validation_with(&data, false));
    assert_eq!(registry.create_user_violation_with(&data, false), Some(Violation::Format));
    let user = registry.create_user_with(data, 9, true).unwrap().unwrap();
    assert_eq!(user.email, "not an address");
    let reply = registry.create_user_with(new_user("b@shop.org", "bob", "Customer"), 9, false);
    assert!(matches!(reply, Err(CustomError::InvalidPayloadData { .. })));
}

#[test]
fn clearing_users_twice_leaves_nothing_and_keeps_the_allocator() {
    let mut registry = Registry::new();
    for i in 0..4u64 {
        registry
            .create_user(new_user(&format!("u{}@shop.org", i), &format!("u{}", i), "Customer"), i)
            .unwrap();
    }
    registry.clear_all_user();
    assert_eq!(registry.view_all_user(), Some(vec![]));
    assert_eq!(registry.next_user_id(), 4);
    registry.clear_all_user();
    assert_eq!(registry.view_all_user(), Some(vec![]));
    assert_eq!(registry.next_user_id(), 4);
    let user = registry.create_user(new_user("u0@shop.org", "u0", "Customer"), 9).unwrap().unwrap();
    assert_eq!(user.user_id, 4);
    assert_eq!(registry.view_all_user().unwrap().len(), 1);
}

#[test]
fn clearing_an_empty_service_does_nothing() {
    let mut registry = Registry::new();
    registry.clear_all_user();
    registry.clear_all_product();
    assert_eq!(registry.view_all_user(), Some(vec![]));
    assert_eq!(registry.view_all_product(), Some(vec![]));
}

#[test]
fn clearing_passes_over_users_beyond_the_allocator() {
    let mut registry = Registry::new();
    registry.create_user(new_user("a@shop.org", "a", "Customer"), 1).unwrap();
    let stray = User {
        user_id: 7,
        email: "s@shop.org".to_string(),
        username: "s".to_string(),
        role: "Customer".to_string(),
        joined_at: 0,
    };
    assert!(registry.store_user(&stray));
    registry.clear_all_user();
    assert_eq!(registry.view_all_user(), Some(vec![stray]));
}

#[test]
fn store_user_reports_an_overwrite() {
    let mut registry = Registry::new();
    let mut user = User {
        user_id: 3,
        email: "a@shop.org".to_string(),
        username: "a".to_string(),
        role: "Customer".to_string(),
        joined_at: 5,
    };
    assert!(registry.store_user(&user));
    user.username = "b".to_string();
    assert!(!registry.store_user(&user));
    assert_eq!(registry.get_user_by_id(&3), Some(user.clone()));
    user.joined_at = 6;
    registry.do_insert_user(&user);
    assert_eq!(registry.view_all_user(), Some(vec![user]));
    assert_eq!(registry.next_user_id(), 0);
}

#[test]
fn new_user_on_a_taken_identifier_is_an_insertion_error() {
    let mut registry = Registry::new();
    let squatter = User {
        user_id: 0,
        email: "s@shop.org".to_string(),
        username: "s".to_string(),
        role: "Customer".to_string(),
        joined_at: 0,
    };
    registry.do_insert_user(&squatter);
    let reply = registry.create_user(new_user("a@shop.org", "a", "Customer"), 1);
    match reply {
        Err(CustomError::NotFound { msg }) => assert_eq!(msg, "Error while inserting new user"),
        other => panic!("unexpected reply: {:?}", other),
    }
    assert_eq!(registry.next_user_id(), 1);
    assert_eq!(registry.get_user_by_id(&0).unwrap().email, "a@shop.org");
}

#[test]
fn users_are_listed_by_ascending_identifier() {
    let mut registry = Registry::new();
    for id in [9u64, 2, 300, 0, 41] {
        registry.do_insert_user(&User {
            user_id: id,
            email: format!("u{}@shop.org", id),
            username: format!("u{}", id),
            role: "Customer".to_string(),
            joined_at: id,
        });
    }
    let ids: Vec<u64> = registry.view_all_user().unwrap().iter().map(|u| u.user_id).collect();
    assert_eq!(ids, vec![0, 2, 9, 41, 300]);
}

#[test]
fn texts_of_any_length_are_kept() {
    let mut registry = Registry::new();
    let long = "x".repeat(5000);
    let user = User {
        user_id: u64::MAX,
        email: String::new(),
        username: long.clone(),
        role: "Grüße, 世界".to_string(),
        joined_at: u64::MAX,
    };
    registry.do_insert_user(&user);
    assert_eq!(registry.get_user_by_id(&u64::MAX), Some(user));
}

#[test]
fn many_users_are_kept() {
    let mut registry = Registry::new();
    for i in 0..300u64 {
        let user = registry
            .create_user(new_user(&format!("u{}@shop.org", i), &format!("u{}", i), "Customer"), i)
            .unwrap()
            .unwrap();
        assert_eq!(user.user_id, i);
    }
    let all = registry.view_all_user().unwrap();
    assert_eq!(all.len(), 300);
    for (i, user) in all.iter().enumerate() {
        assert_eq!(user.user_id, i as u64);
    }
    assert!(registry.create_user(new_user("u150@shop.org", "fresh", "Customer"), 0).is_err());
}

#[test]
fn restored_service_starts_empty_on_fresh_memory() {
    let mut registry = Registry::restore();
    assert_eq!(registry.view_all_user(), Some(vec![]));
    assert_eq!(registry.next_user_id(), 0);
    let user = registry.create_user(new_user("a@shop.org", "a", "Customer"), 1).unwrap().unwrap();
    assert_eq!(user.user_id, 0);
}

#[test]
fn two_services_do_not_share_records() {
    let mut first = Registry::new();
    let second = Registry::new();
    first.create_user(new_user("a@shop.org", "a", "Customer"), 1).unwrap();
    assert_eq!(first.view_all_user().unwrap().len(), 1);
    assert_eq!(second.view_all_user(), Some(vec![]));
    assert_eq!(second.next_user_id(), 0);
}
