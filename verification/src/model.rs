//! The state of the service as mathematics, and what each request does to it.
//!
//! `State` holds the three stores as maps and the three allocators as
//! numbers. For every request there is a rule that says when it is
//! admissible, a function that gives its outcome, and a function that gives
//! the state after it. The executable operations are specified by these
//! functions and by nothing else.

use crate::pattern::{is_email, is_link};
use crate::records::{
    is_customer, is_role, is_store_owner, AddProductView, AddReviewView, CreateUserView,
    DeleteProductPayload, ProductView, ReviewView, UniqueAttribue, UpdateProductView, UserView,
};
use crate::store::without_below;
use vstd::prelude::*;

verus! {

/// What the service holds.
#[verifier::ext_equal]
pub struct State {
    pub users: Map<u64, UserView>,
    pub products: Map<u64, ProductView>,
    pub reviews: Map<u64, ReviewView>,
    pub next_user_id: u64,
    pub next_product_id: u64,
    pub next_review_id: u64,
}

/// How a request ends.
pub enum Outcome<T> {
    /// The request was carried out; this is the record it made, changed or
    /// removed.
    Accepted(T),
    /// The request broke a rule and nothing was changed.
    Invalid,
    /// The new record took the place of another one.
    Failed,
}

/// The rule that a request broke.
#[derive(Debug, Clone, Copy, PartialEq, Eq)]
pub enum Violation {
    /// An address or a link is not well formed.
    Format,
    /// An address or a name is in use.
    Uniqueness,
    /// A role does not exist, or is not the role that the request needs.
    Role,
    /// The product belongs to another user.
    Ownership,
    /// A user or a product that the request refers to does not exist.
    Existence,
    /// A rating is not from 1 to 5.
    Range,
}

/// A request that changes the state.
pub enum Request {
    /// A new user, and the time of the request.
    CreateUser(CreateUserView, u64),
    AddProduct(AddProductView),
    AddReview(AddReviewView),
    UpdateProduct(UpdateProductView),
    DeleteProduct(DeleteProductPayload),
    ClearAllUser,
    ClearAllProduct,
}

/// A rating is a whole number from 1 to 5.
pub open spec fn is_rating(rating: u64) -> bool {
    1 <= rating <= 5
}

/// The attribute of a user that `attribute` names.
pub open spec fn attribute_of(user: UserView, attribute: UniqueAttribue) -> Seq<char> {
    match attribute {
        UniqueAttribue::Email => user.email,
        UniqueAttribue::Username => user.username,
    }
}

impl State {
    /// The state of a service that has seen no request.
    pub open spec fn empty() -> State {
        State {
            users: Map::empty(),
            products: Map::empty(),
            reviews: Map::empty(),
            next_user_id: 0,
            next_product_id: 0,
            next_review_id: 0,
        }
    }

    /// Every record is kept under its own identifier.
    pub open spec fn keyed(self) -> bool {
        &&& forall|id: u64| #[trigger] self.users.contains_key(id) ==> self.users[id].user_id == id
        &&& forall|id: u64| #[trigger]
            self.products.contains_key(id) ==> self.products[id].product_id == id
        &&& forall|id: u64| #[trigger]
            self.reviews.contains_key(id) ==> self.reviews[id].review_id == id
    }

    /// Every identifier in use was handed out by its allocator.
    pub open spec fn allocated(self) -> bool {
        &&& forall|id: u64| #[trigger] self.users.contains_key(id) ==> id < self.next_user_id
        &&& forall|id: u64| #[trigger] self.products.contains_key(id) ==> id < self.next_product_id
        &&& forall|id: u64| #[trigger] self.reviews.contains_key(id) ==> id < self.next_review_id
    }

    /// No two users share an e-mail address or a user name.
    pub open spec fn distinct_users(self) -> bool {
        forall|a: u64, b: u64|
            #![trigger self.users[a], self.users[b]]
            self.users.contains_key(a) && self.users.contains_key(b) && a != b ==> self.users[a].email
                != self.users[b].email && self.users[a].username != self.users[b].username
    }

    /// Every user has one of the two roles, and every rating is in range.
    pub open spec fn ranged(self) -> bool {
        &&& forall|id: u64| #[trigger] self.users.contains_key(id) ==> is_role(self.users[id].role)
        &&& forall|id: u64| #[trigger]
            self.reviews.contains_key(id) ==> is_rating(self.reviews[id].rating)
    }

    /// What holds of the state between requests: the operations keep it so.
    pub open spec fn wf(self) -> bool {
        &&& self.keyed()
        &&& self.allocated()
        &&& self.distinct_users()
        &&& self.ranged()
    }

    /// No user has `data` as the attribute that `attribute` names.
    pub open spec fn attribute_unused(self, data: Seq<char>, attribute: UniqueAttribue) -> bool {
        forall|id: u64| #[trigger]
            self.users.contains_key(id) ==> attribute_of(self.users[id], attribute) != data
    }

    /// The user `id` exists and is a store owner.
    pub open spec fn is_store_owner(self, id: u64) -> bool {
        self.users.contains_key(id) && is_store_owner(self.users[id].role)
    }

    /// The user `id` exists and is a customer.
    pub open spec fn is_customer(self, id: u64) -> bool {
        self.users.contains_key(id) && is_customer(self.users[id].role)
    }

    /// The product `product_id` exists and belongs to the user `user_id`.
    pub open spec fn owns(self, user_id: u64, product_id: u64) -> bool {
        self.products.contains_key(product_id) && self.products[product_id].owner_user_id
            == user_id
    }

    /// The rule that a request of the user `user_id` to change or remove the
    /// product `product_id` breaks: the product exists, then ownership.
    pub open spec fn owner_violation(self, user_id: u64, product_id: u64) -> Option<Violation> {
        if !self.products.contains_key(product_id) {
            Some(Violation::Existence)
        } else if self.products[product_id].owner_user_id != user_id {
            Some(Violation::Ownership)
        } else {
            None
        }
    }

    /// The reviews of the product `product_id`.
    pub open spec fn reviews_of(self, product_id: u64) -> Map<u64, ReviewView> {
        Map::new(
            |id: u64| self.reviews.contains_key(id) && self.reviews[id].product_id == product_id,
            |id: u64| self.reviews[id],
        )
    }

    /// The reviews of all products but `product_id`.
    pub open spec fn reviews_of_others(self, product_id: u64) -> Map<u64, ReviewView> {
        Map::new(
            |id: u64| self.reviews.contains_key(id) && self.reviews[id].product_id != product_id,
            |id: u64| self.reviews[id],
        )
    }

    /// A new user is admissible: the address is well formed (`email_ok`),
    /// the role is one of the two, and neither the address nor the name is
    /// in use.
    pub open spec fn user_admissible(self, data: CreateUserView, email_ok: bool) -> bool {
        &&& email_ok
        &&& is_role(data.role)
        &&& self.attribute_unused(data.email, UniqueAttribue::Email)
        &&& self.attribute_unused(data.username, UniqueAttribue::Username)
    }

    /// The first rule that a request for a new user breaks: the format of
    /// the address, then the role, then uniqueness.
    pub open spec fn user_violation(self, data: CreateUserView, email_ok: bool) -> Option<
        Violation,
    > {
        if !email_ok {
            Some(Violation::Format)
        } else if !is_role(data.role) {
            Some(Violation::Role)
        } else if !self.attribute_unused(data.email, UniqueAttribue::Email)
            || !self.attribute_unused(data.username, UniqueAttribue::Username) {
            Some(Violation::Uniqueness)
        } else {
            None
        }
    }

    /// The user that a request makes at the time `now`.
    pub open spec fn new_user(self, data: CreateUserView, now: u64) -> UserView {
        UserView {
            user_id: self.next_user_id,
            email: data.email,
            username: data.username,
            role: data.role,
            joined_at: now,
        }
    }

    /// How a request for a new user ends.
    pub open spec fn create_user_outcome(
        self,
        data: CreateUserView,
        now: u64,
        email_ok: bool,
    ) -> Outcome<UserView> {
        if !self.user_admissible(data, email_ok) {
            Outcome::Invalid
        } else if self.users.contains_key(self.next_user_id) {
            Outcome::Failed
        } else {
            Outcome::Accepted(self.new_user(data, now))
        }
    }

    /// The state after a request for a new user.
    pub open spec fn create_user(self, data: CreateUserView, now: u64, email_ok: bool) -> State {
        if self.user_admissible(data, email_ok) {
            State {
                users: self.users.insert(self.next_user_id, self.new_user(data, now)),
                next_user_id: (self.next_user_id + 1) as u64,
                ..self
            }
        } else {
            self
        }
    }

    /// A new product is admissible: its owner exists and is a store owner,
    /// and the link is well formed (`link_ok`).
    pub open spec fn product_admissible(self, data: AddProductView, link_ok: bool) -> bool {
        &&& self.is_store_owner(data.owner_user_id)
        &&& link_ok
    }

    /// The first rule that a request for a new product breaks: the owner
    /// exists, then the owner's role, then the format of the link.
    pub open spec fn product_violation(self, data: AddProductView, link_ok: bool) -> Option<
        Violation,
    > {
        if !self.users.contains_key(data.owner_user_id) {
            Some(Violation::Existence)
        } else if !is_store_owner(self.users[data.owner_user_id].role) {
            Some(Violation::Role)
        } else if !link_ok {
            Some(Violation::Format)
        } else {
            None
        }
    }

    /// The product that a request makes.
    pub open spec fn new_product(self, data: AddProductView) -> ProductView {
        ProductView {
            product_id: self.next_product_id,
            product_name: data.product_name,
            product_description: data.product_description,
            product_link: data.product_link,
            owner_user_id: data.owner_user_id,
        }
    }

    /// How a request for a new product ends.
    pub open spec fn add_product_outcome(self, data: AddProductView, link_ok: bool) -> Outcome<
        ProductView,
    > {
        if self.product_admissible(data, link_ok) {
            Outcome::Accepted(self.new_product(data))
        } else {
            Outcome::Invalid
        }
    }

    /// The state after a request for a new product.
    pub open spec fn add_product(self, data: AddProductView, link_ok: bool) -> State {
        if self.product_admissible(data, link_ok) {
            State {
                products: self.products.insert(self.next_product_id, self.new_product(data)),
                next_product_id: (self.next_product_id + 1) as u64,
                ..self
            }
        } else {
            self
        }
    }

    /// A new review is admissible: its product exists, its user exists and
    /// is a customer, and the rating is in range.
    pub open spec fn review_admissible(self, data: AddReviewView) -> bool {
        &&& self.products.contains_key(data.product_id)
        &&& self.is_customer(data.user_id)
        &&& is_rating(data.rating)
    }

    /// The first rule that a request for a new review breaks: the product
    /// and the user exist, then the user's role, then the range of the
    /// rating.
    pub open spec fn review_violation(self, data: AddReviewView) -> Option<Violation> {
        if !self.products.contains_key(data.product_id) || !self.users.contains_key(
            data.user_id,
        ) {
            Some(Violation::Existence)
        } else if !is_customer(self.users[data.user_id].role) {
            Some(Violation::Role)
        } else if !is_rating(data.rating) {
            Some(Violation::Range)
        } else {
            None
        }
    }

    /// The review that a request makes.
    pub open spec fn new_review(self, data: AddReviewView) -> ReviewView {
        ReviewView {
            review_id: self.next_review_id,
            product_id: data.product_id,
            user_id: data.user_id,
            rating: data.rating,
            review_description: data.review_description,
        }
    }

    /// How a request for a new review ends.
    pub open spec fn add_review_outcome(self, data: AddReviewView) -> Outcome<ReviewView> {
        if self.review_admissible(data) {
            Outcome::Accepted(self.new_review(data))
        } else {
            Outcome::Invalid
        }
    }

    /// The state after a request for a new review.
    pub open spec fn add_review(self, data: AddReviewView) -> State {
        if self.review_admissible(data) {
            State {
                reviews: self.reviews.insert(self.next_review_id, self.new_review(data)),
                next_review_id: (self.next_review_id + 1) as u64,
                ..self
            }
        } else {
            self
        }
    }

    /// The product that a change leaves: name, description and link from
    /// the request, the owner as before.
    pub open spec fn updated_product(self, data: UpdateProductView) -> ProductView {
        ProductView {
            product_id: data.product_id,
            product_name: data.product_name,
            product_description: data.product_description,
            product_link: data.product_link,
            owner_user_id: self.products[data.product_id].owner_user_id,
        }
    }

    /// How a request to change a product ends.
    pub open spec fn update_product_outcome(self, data: UpdateProductView) -> Outcome<
        ProductView,
    > {
        if self.owns(data.user_id, data.product_id) {
            Outcome::Accepted(self.updated_product(data))
        } else {
            Outcome::Invalid
        }
    }

    /// The state after a request to change a product.
    pub open spec fn update_product(self, data: UpdateProductView) -> State {
        if self.owns(data.user_id, data.product_id) {
            State {
                products: self.products.insert(data.product_id, self.updated_product(data)),
                ..self
            }
        } else {
            self
        }
    }

    /// How a request to remove a product ends.
    pub open spec fn delete_product_outcome(self, data: DeleteProductPayload) -> Outcome<
        ProductView,
    > {
        if self.owns(data.user_id, data.product_id) {
            Outcome::Accepted(self.products[data.product_id])
        } else {
            Outcome::Invalid
        }
    }

    /// The state after a request to remove a product: the product is gone,
    /// and so are its reviews.
    pub open spec fn delete_product(self, data: DeleteProductPayload) -> State {
        if self.owns(data.user_id, data.product_id) {
            State {
                products: self.products.remove(data.product_id),
                reviews: self.reviews_of_others(data.product_id),
                ..self
            }
        } else {
            self
        }
    }

    /// The state after all users are cleared: no user is left whose
    /// identifier the allocator has handed out, and the allocator stays
    /// where it is.
    pub open spec fn clear_all_user(self) -> State {
        State { users: without_below(self.users, self.next_user_id), ..self }
    }

    /// The state after all products are cleared.
    pub open spec fn clear_all_product(self) -> State {
        State { products: without_below(self.products, self.next_product_id), ..self }
    }

    /// A new user is admissible.
    pub open spec fn user_valid(self, data: CreateUserView) -> bool {
        self.user_admissible(data, is_email(data.email))
    }

    /// A new product is admissible.
    pub open spec fn product_valid(self, data: AddProductView) -> bool {
        self.product_admissible(data, is_link(data.product_link))
    }

    /// Each allocator can hand out `n` more identifiers.
    pub open spec fn has_room(self, n: nat) -> bool {
        &&& self.next_user_id + n <= u64::MAX
        &&& self.next_product_id + n <= u64::MAX
        &&& self.next_review_id + n <= u64::MAX
    }

    /// The state after a request.
    pub open spec fn apply(self, request: Request) -> State {
        match request {
            Request::CreateUser(data, now) => self.create_user(data, now, is_email(data.email)),
            Request::AddProduct(data) => self.add_product(data, is_link(data.product_link)),
            Request::AddReview(data) => self.add_review(data),
            Request::UpdateProduct(data) => self.update_product(data),
            Request::DeleteProduct(data) => self.delete_product(data),
            Request::ClearAllUser => self.clear_all_user(),
            Request::ClearAllProduct => self.clear_all_product(),
        }
    }

    /// The state after a run of requests, one after the other.
    pub open spec fn run(self, requests: Seq<Request>) -> State
        decreases requests.len(),
    {
        if requests.len() == 0 {
            self
        } else {
            self.run(requests.drop_last()).apply(requests.last())
        }
    }

    /// The identifier of the user that a request makes, where it makes one.
    pub open spec fn issued_user_id(self, request: Request) -> Option<u64> {
        match request {
            Request::CreateUser(data, now) => match self.create_user_outcome(
                data,
                now,
                is_email(data.email),
            ) {
                Outcome::Accepted(user) => Some(user.user_id),
                _ => None,
            },
            _ => None,
        }
    }
}

} // verus!
