use reviewz::error::CustomError;
use reviewz::model::Violation;
use reviewz::records::{
    AddProductPayload, AddReviewPayload, CreateUserPayload, DeleteProductPayload, ProductReviewz,
    Review, UpdateProductPayload,
};
use reviewz::registry::Registry;

fn person(name: &str, role: &str) -> CreateUserPayload {
    CreateUserPayload {
        email: format!("{}@shop.org", name),
        username: name.to_string(),
        role: role.to_string(),
    }
}

fn offer(name: &str, owner: u64) -> AddProductPayload {
    AddProductPayload {
        product_name: name.to_string(),
        product_description: format!("{} described", name),
        product_link: format!("https://shop.org/{}", name),
        owner_user_id: owner,
    }
}

fn opinion(product: u64, user: u64, rating: u64) -> AddReviewPayload {
    AddReviewPayload {
        product_id: product,
        user_id: user,
        rating,
        review_description: format!("{} stars", rating),
    }
}

/// A service with the store owner 0, the customer 1 and the store owner 2.
fn shop() -> Registry {
    let mut registry = Registry::new();
    registry.create_user(person("olga", "StoreOwner"), 1).unwrap();
    registry.create_user(person("carl", "Customer"), 2).unwrap();
    registry.create_user(person("otto", "StoreOwner"), 3).unwrap();
    registry
}

#[test]
fn product_of_a_store_owner_is_made() {
    let mut registry = shop();
    let product = registry.add_product(offer("lamp", 0)).unwrap().unwrap();
    assert_eq!(
        product,
        ProductReviewz {
            product_id: 0,
            product_name: "lamp".to_string(),
            product_description: "lamp described".to_string(),
            product_link: "https://shop.org/lamp".to_string(),
            owner_user_id: 0,
        }
    );
    assert_eq!(registry.get_product_by_id(&0), Some(product.clone()));
    assert_eq!(registry.view_all_product(), Some(vec![product]));
    let second = registry.add_product(offer("desk", 2)).unwrap().unwrap();
    assert_eq!(second.product_id, 1);
    assert_eq!(registry.next_product_id(), 2);
}

#[test]
fn product_of_a_customer_is_turned_down() {
    let mut registry = shop();
    let reply = registry.add_product(offer("lamp", 1));
    match reply {
        Err(CustomError::InvalidPayloadData { msg }) => assert_eq!(
            msg,
            "Invalid data, user must be valid and must be a store owner, and link must be in a valid format"
        ),
        other => panic!("unexpected reply: {:?}", other),
    }
    assert_eq!(registry.view_all_product(), Some(vec![]));
    assert_eq!(registry.next_product_id(), 0);
    assert_eq!(registry.add_product_violation(&offer("lamp", 1)), Some(Violation::Role));
}

#[test]
fn product_of_nobody_is_turned_down() {
    let mut registry = shop();
    assert!(!registry.add_product_validation(&offer("lamp", 3)));
    assert_eq!(registry.add_product_violation(&offer("lamp", 3)), Some(Violation::Existence));
    let reply = registry.add_product(offer("lamp", 3));
    assert!(matches!(reply, Err(CustomError::InvalidPayloadData { .. })));
    assert_eq!(registry.view_all_product(), Some(vec![]));
}

#[test]
fn product_with_a_malformed_link_is_turned_down() {
    let mut registry = shop();
    for link in ["", "shop.org/lamp", "ftp://shop.org/lamp", "http://", "https:// shop.org", "https://shop.org/a b"] {
        let mut data = offer("lamp", 0);
        data.product_link = link.to_string();
        assert_eq!(registry.add_product_violation(&data), Some(Violation::Format), "{}", link);
        assert!(!registry.add_product_validation(&data), "{}", link);
        let reply = registry.add_product(data);
        assert!(matches!(reply, Err(CustomError::InvalidPayloadData { .. })), "{}", link);
    }
    assert_eq!(registry.next_product_id(), 0);
    let mut plain = offer("lamp", 0);
    plain.product_link = "http://shop.org".to_string();
    assert!(registry.add_product_validation(&plain));
    assert!(registry.add_product(plain).is_ok());
}

#[test]
fn verdict_on_the_link_can_be_handed_in() {
    let mut registry = shop();
    let mut data = offer("lamp", 0);
    data.product_link = "no link".to_string();
    assert!(registry.add_product_validation_with(&data, true));
    assert!(!registry.add_product_validation_with(&data, false));
    assert_eq!(registry.add_product_violation_with(&data, false), Some(Violation::Format));
    assert_eq!(registry.add_product_violation_with(&data, true), None);
    let product = registry.add_product_with(data, true).unwrap().unwrap();
    assert_eq!(product.product_link, "no link");
    assert!(registry.add_product_with(offer("desk", 0), false).is_err());
}

#[test]
fn review_is_made_with_its_rating() {
    let mut registry = shop();
    registry.add_product(offer("lamp", 0)).unwrap();
    for rating in 1..=5u64 {
        let review = registry.add_review(opinion(0, 1, rating)).unwrap().unwrap();
        assert_eq!(
            review,
            Review {
                review_id: rating - 1,
                product_id: 0,
                user_id: 1,
                rating,
                review_description: format!("{} stars", rating),
            }
        );
    }
    let ratings: Vec<u64> = registry.view_all_review().unwrap().iter().map(|r| r.rating).collect();
    assert_eq!(ratings, vec![1, 2, 3, 4, 5]);
    assert_eq!(registry.next_review_id(), 5);
}

#[test]
fn rating_out_of_range_is_turned_down() {
    let mut registry = shop();
    registry.add_product(offer("lamp", 0)).unwrap();
    for rating in [0u64, 6, 7, 255, 256, u64::MAX] {
        assert!(!registry.review_product_validation(&opinion(0, 1, rating)));
        assert_eq!(registry.add_review_violation(&opinion(0, 1, rating)), Some(Violation::Range));
        match registry.add_review(opinion(0, 1, rating)) {
            Err(CustomError::InvalidPayloadData { msg }) => assert_eq!(
                msg,
                "Invalid data, user and product id must be valid, user must be a customer, rating must be in range 1-5 inclusive"
            ),
            other => panic!("unexpected reply: {:?}", other),
        }
    }
    assert_eq!(registry.view_all_review(), Some(vec![]));
    assert_eq!(registry.next_review_id(), 0);
}

#[test]
fn review_needs_a_product_and_a_customer() {
    let mut registry = shop();
    registry.add_product(offer("lamp", 0)).unwrap();
    assert_eq!(registry.add_review_violation(&opinion(1, 1, 3)), Some(Violation::Existence));
    assert_eq!(registry.add_review_violation(&opinion(0, 9, 3)), Some(Violation::Existence));
    assert_eq!(registry.add_review_violation(&opinion(0, 0, 3)), Some(Violation::Role));
    assert_eq!(registry.add_review_violation(&opinion(0, 1, 3)), None);
    assert!(registry.add_review(opinion(1, 1, 3)).is_err());
    assert!(registry.add_review(opinion(0, 9, 3)).is_err());
    assert!(registry.add_review(opinion(0, 0, 3)).is_err());
    assert!(registry.review_product_validation(&opinion(0, 1, 3)));
    assert_eq!(registry.view_all_review(), Some(vec![]));
}

#[test]
fn owner_changes_a_product() {
    let mut registry = shop();
    registry.add_product(offer("lamp", 0)).unwrap();
    let change = UpdateProductPayload {
        product_id: 0,
        user_id: 0,
        product_name: "big lamp".to_string(),
        product_description: "bigger".to_string(),
        product_link: "not checked".to_string(),
    };
    assert!(registry.update_product_validation(&change));
    let updated = registry.update_product(change).unwrap().unwrap();
    assert_eq!(
        updated,
        ProductReviewz {
            product_id: 0,
            product_name: "big lamp".to_string(),
            product_description: "bigger".to_string(),
            product_link: "not checked".to_string(),
            owner_user_id: 0,
        }
    );
    assert_eq!(registry.view_all_product(), Some(vec![updated]));
    assert_eq!(registry.next_product_id(), 1);
}

#[test]
fn stranger_changes_nothing() {
    let mut registry = shop();
    let added = registry.add_product(offer("lamp", 0)).unwrap().unwrap();
    for user_id in [1u64, 2, 77] {
        let change = UpdateProductPayload {
            product_id: 0,
            user_id,
            product_name: "stolen".to_string(),
            product_description: "stolen".to_string(),
            product_link: "https://else.org".to_string(),
        };
        assert!(!registry.update_product_validation(&change));
        match registry.update_product(change) {
            Err(CustomError::InvalidPayloadData { msg }) => assert_eq!(
                msg,
                "Invalid data, user and product id must be valid, user must be the owner of the product"
            ),
            other => panic!("unexpected reply: {:?}", other),
        }
    }
    assert_eq!(registry.get_product_by_id(&0), Some(added));
}

#[test]
fn change_of_a_missing_product_is_turned_down() {
    let mut registry = shop();
    let change = UpdateProductPayload {
        product_id: 4,
        user_id: 0,
        product_name: "n".to_string(),
        product_description: "d".to_string(),
        product_link: "https://shop.org".to_string(),
    };
    assert!(matches!(
        registry.update_product(change),
        Err(CustomError::InvalidPayloadData { .. })
    ));
    assert_eq!(registry.owner_violation(0, 4), Some(Violation::Existence));
    assert_eq!(registry.view_all_product(), Some(vec![]));
}

#[test]
fn owner_removes_a_product_and_its_reviews() {
    let mut registry = shop();
    registry.create_user(person("cleo", "Customer"), 4).unwrap();
    let lamp = registry.add_product(offer("lamp", 0)).unwrap().unwrap();
    let desk = registry.add_product(offer("desk", 2)).unwrap().unwrap();
    registry.add_review(opinion(0, 1, 5)).unwrap();
    let kept = registry.add_review(opinion(1, 1, 2)).unwrap().unwrap();
    registry.add_review(opinion(0, 3, 1)).unwrap();
    registry.add_review(opinion(0, 1, 4)).unwrap();
    assert_eq!(registry.get_reviews_by_product_id(&0).len(), 3);

    let removal = DeleteProductPayload { product_id: 0, user_id: 0 };
    assert!(registry.delete_product_validation(&removal));
    let removed = registry.delete_product(removal).unwrap().unwrap();
    assert_eq!(removed, lamp);
    assert_eq!(registry.view_all_product(), Some(vec![desk]));
    assert_eq!(registry.view_all_review(), Some(vec![kept]));
    assert_eq!(registry.get_reviews_by_product_id(&0), vec![]);
    assert_eq!(registry.get_product_by_id(&0), None);
    assert_eq!(registry.next_product_id(), 2);
    assert_eq!(registry.next_review_id(), 4);
    assert_eq!(registry.view_all_user().unwrap().len(), 4);
}

#[test]
fn product_without_reviews_is_removed() {
    let mut registry = shop();
    let lamp = registry.add_product(offer("lamp", 0)).unwrap().unwrap();
    let removed = registry.delete_product(DeleteProductPayload { product_id: 0, user_id: 0 });
    assert_eq!(removed.unwrap(), Some(lamp));
    assert_eq!(registry.view_all_product(), Some(vec![]));
}

#[test]
fn stranger_removes_nothing() {
    let mut registry = shop();
    let lamp = registry.add_product(offer("lamp", 0)).unwrap().unwrap();
    let first = registry.add_review(opinion(0, 1, 5)).unwrap().unwrap();
    let second = registry.add_review(opinion(0, 1, 3)).unwrap().unwrap();
    for user_id in [1u64, 2, 50] {
        let removal = DeleteProductPayload { product_id: 0, user_id };
        assert!(!registry.delete_product_validation(&removal));
        assert_eq!(registry.owner_violation(user_id, 0), Some(Violation::Ownership));
        match registry.delete_product(removal) {
            Err(CustomError::InvalidPayloadData { msg }) => assert_eq!(
                msg,
                "Invalid data, user and product id must be valid, user must be the owner of the product"
            ),
            other => panic!("unexpected reply: {:?}", other),
        }
    }
    assert_eq!(registry.get_product_by_id(&0), Some(lamp));
    assert_eq!(registry.get_reviews_by_product_id(&0), vec![first.clone(), second.clone()]);
    assert_eq!(registry.view_all_review(), Some(vec![first, second]));
}

#[test]
fn removal_of_a_missing_product_is_turned_down() {
    let mut registry = shop();
    registry.add_product(offer("lamp", 0)).unwrap();
    let reply = registry.delete_product(DeleteProductPayload { product_id: 1, user_id: 0 });
    assert!(matches!(reply, Err(CustomError::InvalidPayloadData { .. })));
    assert_eq!(registry.view_all_product().unwrap().len(), 1);
}

#[test]
fn identifier_of_a_removed_product_is_not_used_again() {
    let mut registry = shop();
    registry.add_product(offer("lamp", 0)).unwrap();
    registry.delete_product(DeleteProductPayload { product_id: 0, user_id: 0 }).unwrap();
    let desk = registry.add_product(offer("desk", 0)).unwrap().unwrap();
    assert_eq!(desk.product_id, 1);
}

#[test]
fn reviews_of_a_product_are_found_in_order() {
    let mut registry = shop();
    registry.add_product(offer("lamp", 0)).unwrap();
    registry.add_product(offer("desk", 0)).unwrap();
    for i in 0..10u64 {
        registry.add_review(opinion(i % 2, 1, 1 + i % 5)).unwrap();
    }
    let of_lamp: Vec<u64> =
        registry.get_reviews_by_product_id(&0).iter().map(|r| r.review_id).collect();
    let of_desk: Vec<u64> =
        registry.get_reviews_by_product_id(&1).iter().map(|r| r.review_id).collect();
    assert_eq!(of_lamp, vec![0, 2, 4, 6, 8]);
    assert_eq!(of_desk, vec![1, 3, 5, 7, 9]);
    assert_eq!(registry.get_reviews_by_product_id(&2), vec![]);
}

#[test]
fn clearing_products_leaves_reviews_and_the_allocator() {
    let mut registry = shop();
    registry.add_product(offer("lamp", 0)).unwrap();
    registry.add_product(offer("desk", 2)).unwrap();
    let review = registry.add_review(opinion(1, 1, 4)).unwrap().unwrap();
    registry.clear_all_product();
    assert_eq!(registry.view_all_product(), Some(vec![]));
    assert_eq!(registry.view_all_review(), Some(vec![review]));
    assert_eq!(registry.next_product_id(), 2);
    registry.clear_all_product();
    assert_eq!(registry.view_all_product(), Some(vec![]));
    let chair = registry.add_product(offer("chair", 0)).unwrap().unwrap();
    assert_eq!(chair.product_id, 2);
}

#[test]
fn clearing_users_leaves_their_products() {
    let mut registry = shop();
    let lamp = registry.add_product(offer("lamp", 0)).unwrap().unwrap();
    registry.clear_all_user();
    assert_eq!(registry.view_all_product(), Some(vec![lamp]));
    assert!(registry.add_product(offer("desk", 0)).is_err());
    assert!(!registry.update_product_validation(&UpdateProductPayload {
        product_id: 0,
        user_id: 1,
        product_name: String::new(),
        product_description: String::new(),
        product_link: String::new(),
    }));
}

#[test]
fn store_product_and_store_review_write_under_the_record_identifier() {
    let mut registry = Registry::new();
    let product = ProductReviewz {
        product_id: 12,
        product_name: "lamp".to_string(),
        product_description: "".to_string(),
        product_link: "anything".to_string(),
        owner_user_id: 99,
    };
    registry.store_product(&product);
    let review = Review {
        review_id: 5,
        product_id: 12,
        user_id: 98,
        rating: 77,
        review_description: "raw".to_string(),
    };
    registry.store_review(&review);
    assert_eq!(registry.get_product_by_id(&12), Some(product.clone()));
    assert_eq!(registry.view_all_product(), Some(vec![product]));
    assert_eq!(registry.view_all_review(), Some(vec![review.clone()]));
    assert_eq!(registry.get_reviews_by_product_id(&12), vec![review]);
    assert_eq!(registry.next_product_id(), 0);
    assert_eq!(registry.next_review_id(), 0);
}
