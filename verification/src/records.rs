//! The records of the three kinds, and the payloads of the requests.

use crate::storage::{Row, RowView};
use crate::store::Record;
use vstd::prelude::*;
use vstd::string::StringExecFns;

verus! {

/// The role of a user who buys and reviews.
pub const CUSTOMER: &'static str = "Customer";

/// The role of a user who offers products.
pub const STORE_OWNER: &'static str = "StoreOwner";

/// `role` is the role of a customer.
pub open spec fn is_customer(role: Seq<char>) -> bool {
    role == CUSTOMER@
}

/// `role` is the role of a store owner.
pub open spec fn is_store_owner(role: Seq<char>) -> bool {
    role == STORE_OWNER@
}

/// `role` is one of the two roles.
pub open spec fn is_role(role: Seq<char>) -> bool {
    is_customer(role) || is_store_owner(role)
}

/// Whether two texts are the same.
pub fn same_text(a: &String, b: &str) -> (same: bool)
    ensures
        same == (a@ == b@),
{
    let other = String::from_str(b);
    *a == other
}

/// Whether `data` names one of the two roles.
pub fn role_validation(data: &String) -> (valid: bool)
    ensures
        valid == is_role(data@),
{
    same_text(data, CUSTOMER) || same_text(data, STORE_OWNER)
}

/// A user.
#[derive(Debug, PartialEq, Eq)]
pub struct User {
    pub user_id: u64,
    pub email: String,
    pub username: String,
    pub role: String,
    pub joined_at: u64,
}

/// What a user record holds.
pub struct UserView {
    pub user_id: u64,
    pub email: Seq<char>,
    pub username: Seq<char>,
    pub role: Seq<char>,
    pub joined_at: u64,
}

impl View for User {
    type V = UserView;

    open spec fn view(&self) -> UserView {
        UserView {
            user_id: self.user_id,
            email: self.email@,
            username: self.username@,
            role: self.role@,
            joined_at: self.joined_at,
        }
    }
}

impl Clone for User {
    fn clone(&self) -> (copy: Self)
        ensures
            copy == *self,
    {
        User {
            user_id: self.user_id,
            email: self.email.clone(),
            username: self.username.clone(),
            role: self.role.clone(),
            joined_at: self.joined_at,
        }
    }
}

impl Record for User {
    open spec fn id_of(record: UserView) -> u64 {
        record.user_id
    }

    open spec fn of_row(id: u64, row: RowView) -> UserView {
        UserView {
            user_id: id,
            email: row.t0,
            username: row.t1,
            role: row.t2,
            joined_at: row.n0,
        }
    }

    proof fn lemma_id_of_row(id: u64, row: RowView) {
    }

    fn id(&self) -> (id: u64) {
        self.user_id
    }

    fn to_row(&self) -> (row: Row) {
        Row {
            t0: self.email.clone(),
            t1: self.username.clone(),
            t2: self.role.clone(),
            n0: self.joined_at,
            n1: 0,
            n2: 0,
        }
    }

    fn from_row(id: u64, row: &Row) -> (record: Self) {
        User {
            user_id: id,
            email: row.t0.clone(),
            username: row.t1.clone(),
            role: row.t2.clone(),
            joined_at: row.n0,
        }
    }
}

/// A product.
#[derive(Debug, PartialEq, Eq)]
pub struct ProductReviewz {
    pub product_id: u64,
    pub product_name: String,
    pub product_description: String,
    pub product_link: String,
    pub owner_user_id: u64,
}

/// What a product record holds.
pub struct ProductView {
    pub product_id: u64,
    pub product_name: Seq<char>,
    pub product_description: Seq<char>,
    pub product_link: Seq<char>,
    pub owner_user_id: u64,
}

impl View for ProductReviewz {
    type V = ProductView;

    open spec fn view(&self) -> ProductView {
        ProductView {
            product_id: self.product_id,
            product_name: self.product_name@,
            product_description: self.product_description@,
            product_link: self.product_link@,
            owner_user_id: self.owner_user_id,
        }
    }
}

impl Clone for ProductReviewz {
    fn clone(&self) -> (copy: Self)
        ensures
            copy == *self,
    {
        ProductReviewz {
            product_id: self.product_id,
            product_name: self.product_name.clone(),
            product_description: self.product_description.clone(),
            product_link: self.product_link.clone(),
            owner_user_id: self.owner_user_id,
        }
    }
}

impl Record for ProductReviewz {
    open spec fn id_of(record: ProductView) -> u64 {
        record.product_id
    }

    open spec fn of_row(id: u64, row: RowView) -> ProductView {
        ProductView {
            product_id: id,
            product_name: row.t0,
            product_description: row.t1,
            product_link: row.t2,
            owner_user_id: row.n0,
        }
    }

    proof fn lemma_id_of_row(id: u64, row: RowView) {
    }

    fn id(&self) -> (id: u64) {
        self.product_id
    }

    fn to_row(&self) -> (row: Row) {
        Row {
            t0: self.product_name.clone(),
            t1: self.product_description.clone(),
            t2: self.product_link.clone(),
            n0: self.owner_user_id,
            n1: 0,
            n2: 0,
        }
    }

    fn from_row(id: u64, row: &Row) -> (record: Self) {
        ProductReviewz {
            product_id: id,
            product_name: row.t0.clone(),
            product_description: row.t1.clone(),
            product_link: row.t2.clone(),
            owner_user_id: row.n0,
        }
    }
}

/// A review of a product by a user.
#[derive(Debug, PartialEq, Eq)]
pub struct Review {
    pub review_id: u64,
    pub product_id: u64,
    pub user_id: u64,
    pub rating: u64,
    pub review_description: String,
}

/// What a review record holds.
pub struct ReviewView {
    pub review_id: u64,
    pub product_id: u64,
    pub user_id: u64,
    pub rating: u64,
    pub review_description: Seq<char>,
}

impl View for Review {
    type V = ReviewView;

    open spec fn view(&self) -> ReviewView {
        ReviewView {
            review_id: self.review_id,
            product_id: self.product_id,
            user_id: self.user_id,
            rating: self.rating,
            review_description: self.review_description@,
        }
    }
}

impl Clone for Review {
    fn clone(&self) -> (copy: Self)
        ensures
            copy == *self,
    {
        Review {
            review_id: self.review_id,
            product_id: self.product_id,
            user_id: self.user_id,
            rating: self.rating,
            review_description: self.review_description.clone(),
        }
    }
}

impl Record for Review {
    open spec fn id_of(record: ReviewView) -> u64 {
        record.review_id
    }

    open spec fn of_row(id: u64, row: RowView) -> ReviewView {
        ReviewView {
            review_id: id,
            product_id: row.n0,
            user_id: row.n1,
            rating: row.n2,
            review_description: row.t0,
        }
    }

    proof fn lemma_id_of_row(id: u64, row: RowView) {
    }

    fn id(&self) -> (id: u64) {
        self.review_id
    }

    fn to_row(&self) -> (row: Row) {
        Row {
            t0: self.review_description.clone(),
            t1: String::new(),
            t2: String::new(),
            n0: self.product_id,
            n1: self.user_id,
            n2: self.rating,
        }
    }

    fn from_row(id: u64, row: &Row) -> (record: Self) {
        Review {
            review_id: id,
            product_id: row.n0,
            user_id: row.n1,
            rating: row.n2,
            review_description: row.t0.clone(),
        }
    }
}

/// The attributes of a user that no two users share.
#[derive(Debug, Clone, Copy, PartialEq, Eq)]
pub enum UniqueAttribue {
    Email,
    Username,
}

/// A request for a new user.
#[derive(Debug)]
pub struct CreateUserPayload {
    pub email: String,
    pub username: String,
    pub role: String,
}

/// What a request for a new user holds.
pub struct CreateUserView {
    pub email: Seq<char>,
    pub username: Seq<char>,
    pub role: Seq<char>,
}

impl View for CreateUserPayload {
    type V = CreateUserView;

    open spec fn view(&self) -> CreateUserView {
        CreateUserView { email: self.email@, username: self.username@, role: self.role@ }
    }
}

/// A request for a new product.
#[derive(Debug)]
pub struct AddProductPayload {
    pub product_name: String,
    pub product_description: String,
    pub product_link: String,
    pub owner_user_id: u64,
}

/// What a request for a new product holds.
pub struct AddProductView {
    pub product_name: Seq<char>,
    pub product_description: Seq<char>,
    pub product_link: Seq<char>,
    pub owner_user_id: u64,
}

impl View for AddProductPayload {
    type V = AddProductView;

    open spec fn view(&self) -> AddProductView {
        AddProductView {
            product_name: self.product_name@,
            product_description: self.product_description@,
            product_link: self.product_link@,
            owner_user_id: self.owner_user_id,
        }
    }
}

/// A request for a new review.
#[derive(Debug)]
pub struct AddReviewPayload {
    pub product_id: u64,
    pub user_id: u64,
    pub rating: u64,
    pub review_description: String,
}

/// What a request for a new review holds.
pub struct AddReviewView {
    pub product_id: u64,
    pub user_id: u64,
    pub rating: u64,
    pub review_description: Seq<char>,
}

impl View for AddReviewPayload {
    type V = AddReviewView;

    open spec fn view(&self) -> AddReviewView {
        AddReviewView {
            product_id: self.product_id,
            user_id: self.user_id,
            rating: self.rating,
            review_description: self.review_description@,
        }
    }
}

/// A request to change a product. `user_id` says who asks; it is not
/// written.
#[derive(Debug)]
pub struct UpdateProductPayload {
    pub product_id: u64,
    pub user_id: u64,
    pub product_name: String,
    pub product_description: String,
    pub product_link: String,
}

/// What a request to change a product holds.
pub struct UpdateProductView {
    pub product_id: u64,
    pub user_id: u64,
    pub product_name: Seq<char>,
    pub product_description: Seq<char>,
    pub product_link: Seq<char>,
}

impl View for UpdateProductPayload {
    type V = UpdateProductView;

    open spec fn view(&self) -> UpdateProductView {
        UpdateProductView {
            product_id: self.product_id,
            user_id: self.user_id,
            product_name: self.product_name@,
            product_description: self.product_description@,
            product_link: self.product_link@,
        }
    }
}

/// A request to remove a product. `user_id` says who asks.
#[derive(Debug, Clone, Copy)]
pub struct DeleteProductPayload {
    pub product_id: u64,
    pub user_id: u64,
}

} // verus!
