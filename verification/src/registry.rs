//! The service: three stores, three allocators, and the operations on them.
//!
//! Every operation that changes anything first checks the request against
//! the stores as they are, and writes only if the check passes. The contract
//! of each operation gives the state after it and its reply by the rules of
//! the model.

use crate::error::{
    CustomError, INVALID_PRODUCT, INVALID_REVIEW, INVALID_USER, NOT_THE_OWNER, USER_INSERT_FAILED,
};
use crate::laws::{law_clear_keeps_wf, law_create_user_keeps_wf};
use crate::listing::is_listing;
use crate::model::{attribute_of, Outcome, State, Violation};
use crate::pattern::{email_format_valid, is_email, is_link, link_format_valid};
use crate::records::{
    same_text, role_validation, AddProductPayload, AddReviewPayload, CreateUserPayload,
    DeleteProductPayload, ProductReviewz, Review, UniqueAttribue, UpdateProductPayload, User,
    CUSTOMER, STORE_OWNER,
};
use crate::regions::Regions;
use crate::store::{record_entries, IdAllocator, Store};
use vstd::prelude::*;

verus! {

/// The service.
pub struct Registry {
    users: Store<User>,
    products: Store<ProductReviewz>,
    reviews: Store<Review>,
    user_ids: IdAllocator,
    product_ids: IdAllocator,
    review_ids: IdAllocator,
}

/// `reply` tells `outcome`: the record where the request was carried out;
/// an invalid payload with the message `invalid` where it broke a rule; and
/// a record that is not found, with the message of a failed insertion, where
/// the new record took the place of another.
pub open spec fn answers<R: View>(
    reply: Result<Option<R>, CustomError>,
    outcome: Outcome<R::V>,
    invalid: Seq<char>,
) -> bool {
    match outcome {
        Outcome::Accepted(record) => reply matches Ok(Some(r)) && r@ == record,
        Outcome::Invalid => reply matches Err(e) && e is InvalidPayloadData && e.message()
            == invalid,
        Outcome::Failed => reply matches Err(e) && e is NotFound && e.message()
            == USER_INSERT_FAILED@,
    }
}

/// The reviews from which the first `done` entries of `removed` are taken
/// out.
spec fn without_first(
    reviews: Map<u64, <Review as View>::V>,
    removed: Seq<(u64, <Review as View>::V)>,
    done: int,
) -> Map<u64, <Review as View>::V> {
    Map::new(
        |id: u64|
            reviews.contains_key(id) && !(exists|j: int|
                0 <= j < done && (#[trigger] removed[j]).0 == id),
        |id: u64| reviews[id],
    )
}

/// The regions of the parts of a service, in the order in which a service
/// takes them: the allocators of users, products and reviews, then the stores
/// of users, products and reviews.
pub open spec fn layout(
    user_ids: u8,
    product_ids: u8,
    review_ids: u8,
    users: u8,
    products: u8,
    reviews: u8,
) -> Seq<u8> {
    seq![user_ids, product_ids, review_ids, users, products, reviews]
}

/// The regions of a service in the stable memory of a canister: the first
/// six, in the order of `layout`.
pub open spec fn home() -> Seq<u8> {
    layout(0, 1, 2, 3, 4, 5)
}

impl View for Registry {
    type V = State;

    closed spec fn view(&self) -> State {
        State {
            users: self.users@,
            products: self.products@,
            reviews: self.reviews@,
            next_user_id: self.user_ids.upcoming(),
            next_product_id: self.product_ids.upcoming(),
            next_review_id: self.review_ids.upcoming(),
        }
    }
}

impl Registry {
    /// Every record of the service is kept under its own identifier.
    pub proof fn lemma_keyed(&self)
        ensures
            self@.keyed(),
    {
        self.users.lemma_keyed();
        self.products.lemma_keyed();
        self.reviews.lemma_keyed();
    }

    /// The regions that the parts of the service were made in, in the order
    /// of `layout`.
    pub closed spec fn regions(&self) -> Seq<u8> {
        layout(
            self.user_ids.region(),
            self.product_ids.region(),
            self.review_ids.region(),
            self.users.region(),
            self.products.region(),
            self.reviews.region(),
        )
    }

    /// The service made of three allocators and three stores: it holds what
    /// the stores hold, hands out next what the allocators hand out next, and
    /// lives where they live.
    pub fn from_parts(
        user_ids: IdAllocator,
        product_ids: IdAllocator,
        review_ids: IdAllocator,
        users: Store<User>,
        products: Store<ProductReviewz>,
        reviews: Store<Review>,
    ) -> (registry: Registry)
        ensures
            registry@ == (State {
                users: users@,
                products: products@,
                reviews: reviews@,
                next_user_id: user_ids.upcoming(),
                next_product_id: product_ids.upcoming(),
                next_review_id: review_ids.upcoming(),
            }),
            registry.regions() == layout(
                user_ids.region(),
                product_ids.region(),
                review_ids.region(),
                users.region(),
                products.region(),
                reviews.region(),
            ),
            registry@.keyed(),
    {
        let registry = Registry { users, products, reviews, user_ids, product_ids, review_ids };
        proof {
            registry.lemma_keyed();
        }
        registry
    }

    /// A new service that holds nothing, with all allocators at 0. What the
    /// stable memory held before is overwritten. The allocators of users,
    /// products and reviews take the regions 0, 1 and 2, the stores of users,
    /// products and reviews the regions 3, 4 and 5.
    pub fn new() -> (registry: Registry)
        ensures
            registry@ == State::empty(),
            registry.regions() == home(),
    {
        let mut regions = Regions::open();
        let user_ids = IdAllocator::create(regions.take().unwrap());
        let product_ids = IdAllocator::create(regions.take().unwrap());
        let review_ids = IdAllocator::create(regions.take().unwrap());
        let users = Store::create(regions.take().unwrap());
        let products = Store::create(regions.take().unwrap());
        let reviews = Store::create(regions.take().unwrap());
        let registry = Registry::from_parts(
            user_ids,
            product_ids,
            review_ids,
            users,
            products,
            reviews,
        );
        assert(registry@ =~= State::empty());
        registry
    }

    /// The service that the stable memory holds: its allocators are loaded
    /// from the regions 0, 1 and 2 and its stores from the regions 3, 4 and 5,
    /// where `new` puts them, each as it was left, and made new where the
    /// memory holds none. What the service holds depends on the memory alone.
    pub fn restore() -> (registry: Registry)
        ensures
            registry.regions() == home(),
            registry@.keyed(),
    {
        let mut regions = Regions::open();
        let user_ids = IdAllocator::load(regions.take().unwrap());
        let product_ids = IdAllocator::load(regions.take().unwrap());
        let review_ids = IdAllocator::load(regions.take().unwrap());
        let users = Store::load(regions.take().unwrap());
        let products = Store::load(regions.take().unwrap());
        let reviews = Store::load(regions.take().unwrap());
        Registry::from_parts(user_ids, product_ids, review_ids, users, products, reviews)
    }

    /// The identifier that the next new user gets.
    pub fn next_user_id(&self) -> (id: u64)
        ensures
            id == self@.next_user_id,
    {
        self.user_ids.current()
    }

    /// The identifier that the next new product gets.
    pub fn next_product_id(&self) -> (id: u64)
        ensures
            id == self@.next_product_id,
    {
        self.product_ids.current()
    }

    /// The identifier that the next new review gets.
    pub fn next_review_id(&self) -> (id: u64)
        ensures
            id == self@.next_review_id,
    {
        self.review_ids.current()
    }

    /// All users, by ascending identifier.
    pub fn view_all_user(&self) -> (all: Option<Vec<User>>)
        ensures
            all matches Some(list) && is_listing(record_entries(list@), self@.users),
    {
        Some(self.users.scan())
    }

    /// All products, by ascending identifier.
    pub fn view_all_product(&self) -> (all: Option<Vec<ProductReviewz>>)
        ensures
            all matches Some(list) && is_listing(record_entries(list@), self@.products),
    {
        Some(self.products.scan())
    }

    /// All reviews, by ascending identifier.
    pub fn view_all_review(&self) -> (all: Option<Vec<Review>>)
        ensures
            all matches Some(list) && is_listing(record_entries(list@), self@.reviews),
    {
        Some(self.reviews.scan())
    }

    /// The user `user_id`, if there is one.
    pub fn get_user_by_id(&self, user_id: &u64) -> (found: Option<User>)
        ensures
            found is Some <==> self@.users.contains_key(*user_id),
            found is Some ==> found->0@ == self@.users[*user_id],
    {
        self.users.get(*user_id)
    }

    /// The product `product_id`, if there is one.
    pub fn get_product_by_id(&self, product_id: &u64) -> (found: Option<ProductReviewz>)
        ensures
            found is Some <==> self@.products.contains_key(*product_id),
            found is Some ==> found->0@ == self@.products[*product_id],
    {
        self.products.get(*product_id)
    }

    /// The reviews of the product `id`, by ascending identifier.
    pub fn get_reviews_by_product_id(&self, id: &u64) -> (found: Vec<Review>)
        ensures
            is_listing(record_entries(found@), self@.reviews_of(*id)),
    {
        let all = self.reviews.scan();
        let mut found: Vec<Review> = Vec::new();
        let ghost mut picks: Seq<int> = Seq::empty();
        let mut i: usize = 0;
        while i < all.len()
            invariant
                i <= all.len(),
                picks.len() == found.len(),
                forall|j: int|
                    0 <= j < found.len() ==> 0 <= (#[trigger] picks[j]) < i && found[j]@
                        == all[picks[j]]@ && all[picks[j]]@.product_id == *id,
                forall|j: int, k: int|
                    0 <= j < k < found.len() ==> (#[trigger] picks[j]) < (#[trigger] picks[k]),
                forall|a: int|
                    0 <= a < i && (#[trigger] all[a])@.product_id == *id ==> exists|j: int|
                        0 <= j < found.len() && (#[trigger] picks[j]) == a,
            decreases all.len() - i,
        {
            if all[i].product_id == *id {
                let ghost before = picks;
                found.push(all[i].clone());
                proof {
                    picks = picks.push(i as int);
                    assert forall|a: int|
                        0 <= a < i + 1 && (#[trigger] all[a])@.product_id == *id implies exists|
                        j: int,
                    | 0 <= j < found.len() && (#[trigger] picks[j]) == a by {
                        if a < i {
                            let j = choose|j: int|
                                0 <= j < before.len() && (#[trigger] before[j]) == a;
                            assert(picks[j] == a);
                        } else {
                            assert(picks[found.len() - 1] == a);
                        }
                    }
                }
            }
            i += 1;
        }
        proof {
            let held = self@.reviews;
            let wanted = self@.reviews_of(*id);
            let listed = record_entries(all@);
            let entries = record_entries(found@);
            assert forall|j: int| 0 <= j < entries.len() implies (#[trigger] entries[j])
                == listed[picks[j]] by {
                assert(found[j]@ == all[picks[j]]@);
            }
            assert forall|j: int| 0 <= j < entries.len() implies wanted.contains_key(
                (#[trigger] entries[j]).0,
            ) && wanted[entries[j].0] == entries[j].1 by {
                let p = picks[j];
                assert(entries[j] == listed[p]);
                assert(held.contains_key(listed[p].0));
                assert(listed[p].1 == all[p]@);
            }
            assert forall|j: int, k: int| 0 <= j < k < entries.len() implies (
            #[trigger] entries[j]).0 < (#[trigger] entries[k]).0 by {
                assert(entries[j] == listed[picks[j]]);
                assert(entries[k] == listed[picks[k]]);
                assert(listed[picks[j]].0 < listed[picks[k]].0);
            }
            assert forall|key: u64| #[trigger] wanted.contains_key(key) implies exists|j: int|
                0 <= j < entries.len() && (#[trigger] entries[j]).0 == key by {
                assert(held.contains_key(key));
                let a = choose|a: int| 0 <= a < listed.len() && (#[trigger] listed[a]).0 == key;
                assert(held[listed[a].0] == listed[a].1);
                assert(all[a]@.product_id == *id);
                let j = choose|j: int| 0 <= j < found.len() && (#[trigger] picks[j]) == a;
                assert(entries[j] == listed[picks[j]]);
            }
        }
        found
    }

    /// Puts `data` into the store of users, under its identifier. Returns
    /// whether the identifier was free.
    pub fn store_user(&mut self, data: &User) -> (fresh: bool)
        ensures
            final(self)@ == (State {
                users: old(self)@.users.insert(data.user_id, data@),
                ..old(self)@
            }),
            fresh == !old(self)@.users.contains_key(data.user_id),
    {
        let replaced = self.users.put(data);
        !replaced
    }

    /// Puts `data` into the store of users, under its identifier.
    pub fn do_insert_user(&mut self, data: &User)
        ensures
            final(self)@ == (State {
                users: old(self)@.users.insert(data.user_id, data@),
                ..old(self)@
            }),
    {
        let _ = self.users.put(data);
    }

    /// Puts `data` into the store of products, under its identifier.
    pub fn store_product(&mut self, data: &ProductReviewz)
        ensures
            final(self)@ == (State {
                products: old(self)@.products.insert(data.product_id, data@),
                ..old(self)@
            }),
    {
        let _ = self.products.put(data);
    }

    /// Puts `data` into the store of reviews, under its identifier.
    pub fn store_review(&mut self, data: &Review)
        ensures
            final(self)@ == (State {
                reviews: old(self)@.reviews.insert(data.review_id, data@),
                ..old(self)@
            }),
    {
        let _ = self.reviews.put(data);
    }

    /// Whether no user has `data` as the attribute that `attribute` names.
    pub fn attribute_unique_validation(
        &self,
        data: &str,
        attribute: UniqueAttribue,
    ) -> (unique: bool)
        ensures
            unique == self@.attribute_unused(data@, attribute),
    {
        let users = self.users.scan();
        let mut taken = false;
        let mut i: usize = 0;
        while i < users.len()
            invariant
                i <= users.len(),
                taken <==> exists|j: int|
                    0 <= j < i && attribute_of((#[trigger] users[j])@, attribute) == data@,
            decreases users.len() - i,
        {
            let same = match attribute {
                UniqueAttribue::Email => same_text(&users[i].email, data),
                UniqueAttribue::Username => same_text(&users[i].username, data),
            };
            if same {
                taken = true;
            }
            i += 1;
        }
        proof {
            let entries = record_entries(users@);
            let held = self@.users;
            if taken {
                let j = choose|j: int|
                    0 <= j < users.len() && attribute_of((#[trigger] users[j])@, attribute)
                        == data@;
                assert(held.contains_key(entries[j].0));
                assert(held[entries[j].0] == users[j]@);
            } else {
                assert forall|id: u64| #[trigger] held.contains_key(id) implies attribute_of(
                    held[id],
                    attribute,
                ) != data@ by {
                    let j = choose|j: int| 0 <= j < entries.len() && (#[trigger] entries[j]).0 == id;
                    assert(held[entries[j].0] == entries[j].1);
                    assert(entries[j].1 == users[j]@);
                }
            }
        }
        !taken
    }

    /// Whether a new user is admissible, given whether the address is well
    /// formed.
    pub fn create_user_validation_with(
        &self,
        data: &CreateUserPayload,
        email_ok: bool,
    ) -> (valid: bool)
        ensures
            valid == self@.user_admissible(data@, email_ok),
    {
        let role_valid = role_validation(&data.role);
        let email_unique = self.attribute_unique_validation(
            data.email.as_str(),
            UniqueAttribue::Email,
        );
        let username_unique = self.attribute_unique_validation(
            data.username.as_str(),
            UniqueAttribue::Username,
        );
        email_ok && role_valid && email_unique && username_unique
    }

    /// Whether a new user is admissible.
    pub fn create_user_validation(&self, data: &CreateUserPayload) -> (valid: bool)
        ensures
            valid == self@.user_valid(data@),
    {
        let email_ok = email_format_valid(data.email.as_str());
        self.create_user_validation_with(data, email_ok)
    }

    /// Whether a new product is admissible, given whether the link is well
    /// formed.
    pub fn add_product_validation_with(
        &self,
        data: &AddProductPayload,
        link_ok: bool,
    ) -> (valid: bool)
        ensures
            valid == self@.product_admissible(data@, link_ok),
    {
        let owner_valid = match self.get_user_by_id(&data.owner_user_id) {
            Some(owner) => same_text(&owner.role, STORE_OWNER),
            None => false,
        };
        owner_valid && link_ok
    }

    /// Whether a new product is admissible.
    pub fn add_product_validation(&self, data: &AddProductPayload) -> (valid: bool)
        ensures
            valid == self@.product_valid(data@),
    {
        let link_ok = link_format_valid(data.product_link.as_str());
        self.add_product_validation_with(data, link_ok)
    }

    /// Whether a new review is admissible.
    pub fn review_product_validation(&self, data: &AddReviewPayload) -> (valid: bool)
        ensures
            valid == self@.review_admissible(data@),
    {
        let product_valid = self.get_product_by_id(&data.product_id).is_some();
        let user_valid = match self.get_user_by_id(&data.user_id) {
            Some(user) => same_text(&user.role, CUSTOMER),
            None => false,
        };
        let rating_valid = 1 <= data.rating && data.rating <= 5;
        product_valid && user_valid && rating_valid
    }

    /// Whether the user `user_id` owns the product `product_id`.
    pub fn owner_validation(&self, user_id: u64, product_id: u64) -> (valid: bool)
        ensures
            valid == self@.owns(user_id, product_id),
    {
        match self.get_product_by_id(&product_id) {
            Some(product) => product.owner_user_id == user_id,
            None => false,
        }
    }

    /// Whether a change of a product is admissible.
    pub fn update_product_validation(&self, data: &UpdateProductPayload) -> (valid: bool)
        ensures
            valid == self@.owns(data.user_id, data.product_id),
    {
        self.owner_validation(data.user_id, data.product_id)
    }

    /// Whether a removal of a product is admissible.
    pub fn delete_product_validation(&self, data: &DeleteProductPayload) -> (valid: bool)
        ensures
            valid == self@.owns(data.user_id, data.product_id),
    {
        self.owner_validation(data.user_id, data.product_id)
    }

    /// The first rule that a request for a new user breaks, if it breaks
    /// one, given whether the address is well formed.
    pub fn create_user_violation_with(
        &self,
        data: &CreateUserPayload,
        email_ok: bool,
    ) -> (broken: Option<Violation>)
        ensures
            broken == self@.user_violation(data@, email_ok),
            broken is None <==> self@.user_admissible(data@, email_ok),
    {
        if !email_ok {
            Some(Violation::Format)
        } else if !role_validation(&data.role) {
            Some(Violation::Role)
        } else if !self.attribute_unique_validation(data.email.as_str(), UniqueAttribue::Email)
            || !self.attribute_unique_validation(
            data.username.as_str(),
            UniqueAttribue::Username,
        ) {
            Some(Violation::Uniqueness)
        } else {
            None
        }
    }

    /// The first rule that a request for a new user breaks, if it breaks
    /// one.
    pub fn create_user_violation(&self, data: &CreateUserPayload) -> (broken: Option<Violation>)
        ensures
            broken == self@.user_violation(data@, is_email(data@.email)),
            broken is None <==> self@.user_valid(data@),
    {
        let email_ok = email_format_valid(data.email.as_str());
        self.create_user_violation_with(data, email_ok)
    }

    /// The first rule that a request for a new product breaks, if it breaks
    /// one, given whether the link is well formed.
    pub fn add_product_violation_with(
        &self,
        data: &AddProductPayload,
        link_ok: bool,
    ) -> (broken: Option<Violation>)
        ensures
            broken == self@.product_violation(data@, link_ok),
            broken is None <==> self@.product_admissible(data@, link_ok),
    {
        match self.get_user_by_id(&data.owner_user_id) {
            None => Some(Violation::Existence),
            Some(owner) => {
                if !same_text(&owner.role, STORE_OWNER) {
                    Some(Violation::Role)
                } else if !link_ok {
                    Some(Violation::Format)
                } else {
                    None
                }
            },
        }
    }

    /// The first rule that a request for a new product breaks, if it breaks
    /// one.
    pub fn add_product_violation(&self, data: &AddProductPayload) -> (broken: Option<Violation>)
        ensures
            broken == self@.product_violation(data@, is_link(data@.product_link)),
            broken is None <==> self@.product_valid(data@),
    {
        let link_ok = link_format_valid(data.product_link.as_str());
        self.add_product_violation_with(data, link_ok)
    }

    /// The first rule that a request for a new review breaks, if it breaks
    /// one.
    pub fn add_review_violation(&self, data: &AddReviewPayload) -> (broken: Option<Violation>)
        ensures
            broken == self@.review_violation(data@),
            broken is None <==> self@.review_admissible(data@),
    {
        if self.get_product_by_id(&data.product_id).is_none() {
            return Some(Violation::Existence);
        }
        match self.get_user_by_id(&data.user_id) {
            None => Some(Violation::Existence),
            Some(user) => {
                if !same_text(&user.role, CUSTOMER) {
                    Some(Violation::Role)
                } else if !(1 <= data.rating && data.rating <= 5) {
                    Some(Violation::Range)
                } else {
                    None
                }
            },
        }
    }

    /// The rule that a request of the user `user_id` to change or remove
    /// the product `product_id` breaks, if it breaks one.
    pub fn owner_violation(&self, user_id: u64, product_id: u64) -> (broken: Option<Violation>)
        ensures
            broken == self@.owner_violation(user_id, product_id),
            broken is None <==> self@.owns(user_id, product_id),
    {
        match self.get_product_by_id(&product_id) {
            None => Some(Violation::Existence),
            Some(product) => {
                if product.owner_user_id != user_id {
                    Some(Violation::Ownership)
                } else {
                    None
                }
            },
        }
    }

    /// Makes a new user at the time `now`, given whether the address is well
    /// formed. An identifier is taken only for an admissible request.
    pub fn create_user_with(
        &mut self,
        data: CreateUserPayload,
        now: u64,
        email_ok: bool,
    ) -> (reply: Result<Option<User>, CustomError>)
        requires
            old(self)@.next_user_id < u64::MAX,
        ensures
            final(self)@ == old(self)@.create_user(data@, now, email_ok),
            answers(
                reply,
                old(self)@.create_user_outcome(data@, now, email_ok),
                INVALID_USER@,
            ),
            old(self)@.wf() ==> final(self)@.wf(),
    {
        proof {
            if self@.wf() {
                law_create_user_keeps_wf(self@, data@, now, email_ok);
            }
        }
        if !self.create_user_validation_with(&data, email_ok) {
            return Err(CustomError::invalid(INVALID_USER));
        }
        let id = self.user_ids.next();
        let new_user = User {
            user_id: id,
            email: data.email,
            username: data.username,
            role: data.role,
            joined_at: now,
        };
        let fresh = self.store_user(&new_user);
        if fresh {
            Ok(Some(new_user))
        } else {
            Err(CustomError::not_found(USER_INSERT_FAILED))
        }
    }

    /// Makes a new user at the time `now`.
    pub fn create_user(
        &mut self,
        data: CreateUserPayload,
        now: u64,
    ) -> (reply: Result<Option<User>, CustomError>)
        requires
            old(self)@.next_user_id < u64::MAX,
        ensures
            final(self)@ == old(self)@.create_user(data@, now, is_email(data@.email)),
            answers(
                reply,
                old(self)@.create_user_outcome(data@, now, is_email(data@.email)),
                INVALID_USER@,
            ),
            old(self)@.wf() ==> final(self)@.wf(),
    {
        let email_ok = email_format_valid(data.email.as_str());
        self.create_user_with(data, now, email_ok)
    }

    /// Makes a new product, given whether the link is well formed.
    pub fn add_product_with(
        &mut self,
        data: AddProductPayload,
        link_ok: bool,
    ) -> (reply: Result<Option<ProductReviewz>, CustomError>)
        requires
            old(self)@.next_product_id < u64::MAX,
        ensures
            final(self)@ == old(self)@.add_product(data@, link_ok),
            answers(
                reply,
                old(self)@.add_product_outcome(data@, link_ok),
                INVALID_PRODUCT@,
            ),
            old(self)@.wf() ==> final(self)@.wf(),
    {
        if !self.add_product_validation_with(&data, link_ok) {
            return Err(CustomError::invalid(INVALID_PRODUCT));
        }
        let id = self.product_ids.next();
        let new_product = ProductReviewz {
            product_id: id,
            product_name: data.product_name,
            product_description: data.product_description,
            product_link: data.product_link,
            owner_user_id: data.owner_user_id,
        };
        self.store_product(&new_product);
        Ok(Some(new_product))
    }

    /// Makes a new product.
    pub fn add_product(
        &mut self,
        data: AddProductPayload,
    ) -> (reply: Result<Option<ProductReviewz>, CustomError>)
        requires
            old(self)@.next_product_id < u64::MAX,
        ensures
            final(self)@ == old(self)@.add_product(data@, is_link(data@.product_link)),
            answers(
                reply,
                old(self)@.add_product_outcome(data@, is_link(data@.product_link)),
                INVALID_PRODUCT@,
            ),
            old(self)@.wf() ==> final(self)@.wf(),
    {
        let link_ok = link_format_valid(data.product_link.as_str());
        self.add_product_with(data, link_ok)
    }

    /// Makes a new review.
    pub fn add_review(
        &mut self,
        data: AddReviewPayload,
    ) -> (reply: Result<Option<Review>, CustomError>)
        requires
            old(self)@.next_review_id < u64::MAX,
        ensures
            final(self)@ == old(self)@.add_review(data@),
            answers(
                reply,
                old(self)@.add_review_outcome(data@),
                INVALID_REVIEW@,
            ),
            old(self)@.wf() ==> final(self)@.wf(),
    {
        if !self.review_product_validation(&data) {
            return Err(CustomError::invalid(INVALID_REVIEW));
        }
        let id = self.review_ids.next();
        let new_review = Review {
            review_id: id,
            product_id: data.product_id,
            user_id: data.user_id,
            rating: data.rating,
            review_description: data.review_description,
        };
        self.store_review(&new_review);
        Ok(Some(new_review))
    }

    /// Changes the name, the description and the link of a product, for its
    /// owner. The owner stays.
    pub fn update_product(
        &mut self,
        data: UpdateProductPayload,
    ) -> (reply: Result<Option<ProductReviewz>, CustomError>)
        ensures
            final(self)@ == old(self)@.update_product(data@),
            answers(
                reply,
                old(self)@.update_product_outcome(data@),
                NOT_THE_OWNER@,
            ),
            old(self)@.wf() ==> final(self)@.wf(),
    {
        if !self.update_product_validation(&data) {
            return Err(CustomError::invalid(NOT_THE_OWNER));
        }
        match self.products.get(data.product_id) {
            Some(product) => {
                let updated_product = ProductReviewz {
                    product_id: data.product_id,
                    product_name: data.product_name,
                    product_description: data.product_description,
                    product_link: data.product_link,
                    owner_user_id: product.owner_user_id,
                };
                self.store_product(&updated_product);
                Ok(Some(updated_product))
            },
            None => Err(CustomError::update_missing(data.product_id)),
        }
    }

    /// Removes a product, for its owner, and with it the reviews of the
    /// product.
    pub fn delete_product(
        &mut self,
        data: DeleteProductPayload,
    ) -> (reply: Result<Option<ProductReviewz>, CustomError>)
        ensures
            final(self)@ == old(self)@.delete_product(data),
            answers(
                reply,
                old(self)@.delete_product_outcome(data),
                NOT_THE_OWNER@,
            ),
            old(self)@.wf() ==> final(self)@.wf(),
    {
        if !self.delete_product_validation(&data) {
            return Err(CustomError::invalid(NOT_THE_OWNER));
        }
        let reviews = self.get_reviews_by_product_id(&data.product_id);
        let ghost removed = record_entries(reviews@);
        let mut i: usize = 0;
        assert(self.reviews@ =~= without_first(old(self)@.reviews, removed, 0));
        while i < reviews.len()
            invariant
                i <= reviews.len(),
                removed == record_entries(reviews@),
                self.reviews@ == without_first(old(self)@.reviews, removed, i as int),
                self.users == old(self).users,
                self.products == old(self).products,
                self.user_ids == old(self).user_ids,
                self.product_ids == old(self).product_ids,
                self.review_ids == old(self).review_ids,
            decreases reviews.len() - i,
        {
            let ghost before = self.reviews@;
            let _ = self.reviews.remove(reviews[i].review_id);
            proof {
                assert(removed[i as int].0 == reviews[i as int].review_id);
                assert(before.remove(reviews[i as int].review_id) =~= without_first(
                    old(self)@.reviews,
                    removed,
                    i + 1,
                ));
            }
            i += 1;
        }
        proof {
            let held = old(self)@.reviews;
            let gone = old(self)@.reviews_of(data.product_id);
            assert forall|id: u64| held.contains_key(id) implies (gone.contains_key(id) <==> exists|
                j: int,
            | 0 <= j < removed.len() && (#[trigger] removed[j]).0 == id) by {
                if gone.contains_key(id) {
                } else if exists|j: int| 0 <= j < removed.len() && (#[trigger] removed[j]).0 == id {
                    let j = choose|j: int| 0 <= j < removed.len() && (#[trigger] removed[j]).0 == id;
                    assert(gone.contains_key(removed[j].0));
                }
            }
            assert(self.reviews@ =~= old(self)@.reviews_of_others(data.product_id));
        }
        match self.products.remove(data.product_id) {
            Some(product) => Ok(Some(product)),
            None => Err(CustomError::delete_missing(data.product_id)),
        }
    }

    /// Removes every user whose identifier the allocator has handed out. The
    /// allocator stays where it is: no identifier is used again.
    pub fn clear_all_user(&mut self)
        ensures
            final(self)@ == old(self)@.clear_all_user(),
            old(self)@.wf() ==> final(self)@.wf(),
    {
        proof {
            if self@.wf() {
                law_clear_keeps_wf(self@);
            }
        }
        let count = self.user_ids.current();
        self.users.clear_up_to(count);
    }

    /// Removes every product whose identifier the allocator has handed out.
    /// The allocator stays where it is, and reviews stay too.
    pub fn clear_all_product(&mut self)
        ensures
            final(self)@ == old(self)@.clear_all_product(),
            old(self)@.wf() ==> final(self)@.wf(),
    {
        proof {
            if self@.wf() {
                law_clear_keeps_wf(self@);
            }
        }
        let count = self.product_ids.current();
        self.products.clear_up_to(count);
    }
}

} // verus!
