//! What follows from the rules of the model, whatever the state and the
//! request.
//!
//! The operations of the service are specified by the functions of the model,
//! so what is proved here of the model holds of every call.

use crate::listing::{is_listing, lemma_listing_unique};
use crate::model::{Outcome, Request, State};
use crate::pattern::is_email;
use crate::records::{
    is_customer, is_role, is_store_owner, AddProductView, AddReviewView, CreateUserView,
    DeleteProductPayload, ProductView, ReviewView, UniqueAttribue, UpdateProductView, UserView,
    CUSTOMER, STORE_OWNER,
};
use crate::store::no_records;
use vstd::prelude::*;

verus! {

/// A listing of the users, the products or the reviews is determined by what
/// the store holds: two scans of one state give the same records in the same
/// order.
pub proof fn law_scan_is_determined<V>(
    first: Seq<(u64, V)>,
    second: Seq<(u64, V)>,
    held: Map<u64, V>,
)
    requires
        is_listing(first, held),
        is_listing(second, held),
    ensures
        first == second,
{
    lemma_listing_unique(first, second, held);
}

/// The two roles are different: nobody is customer and store owner at once.
pub proof fn law_roles_differ(role: Seq<char>)
    ensures
        !(is_customer(role) && is_store_owner(role)),
{
    reveal_strlit("Customer");
    reveal_strlit("StoreOwner");
    assert(CUSTOMER@.len() == 8);
    assert(STORE_OWNER@.len() == 10);
}

/// The empty state is well formed.
pub proof fn law_empty_is_well_formed()
    ensures
        State::empty().wf(),
{
}

/// A new user keeps the state well formed, whether the request is
/// admissible or not.
pub proof fn law_create_user_keeps_wf(s: State, data: CreateUserView, now: u64, email_ok: bool)
    requires
        s.wf(),
        s.next_user_id < u64::MAX,
    ensures
        s.create_user(data, now, email_ok).wf(),
{
    let t = s.create_user(data, now, email_ok);
    if s.user_admissible(data, email_ok) {
        let id = s.next_user_id;
        assert forall|a: u64, b: u64|
            #![trigger t.users[a], t.users[b]]
            t.users.contains_key(a) && t.users.contains_key(b) && a != b implies t.users[a].email
            != t.users[b].email && t.users[a].username != t.users[b].username by {
            if a == id {
                assert(s.users.contains_key(b));
            } else if b == id {
                assert(s.users.contains_key(a));
            } else {
                assert(s.users.contains_key(a) && s.users.contains_key(b));
            }
        }
    }
}

/// A new product keeps the state well formed.
pub proof fn law_add_product_keeps_wf(s: State, data: AddProductView, link_ok: bool)
    requires
        s.wf(),
        s.next_product_id < u64::MAX,
    ensures
        s.add_product(data, link_ok).wf(),
{
}

/// A new review keeps the state well formed.
pub proof fn law_add_review_keeps_wf(s: State, data: AddReviewView)
    requires
        s.wf(),
        s.next_review_id < u64::MAX,
    ensures
        s.add_review(data).wf(),
{
}

/// A change of a product keeps the state well formed.
pub proof fn law_update_product_keeps_wf(s: State, data: UpdateProductView)
    requires
        s.wf(),
    ensures
        s.update_product(data).wf(),
{
}

/// A removal of a product keeps the state well formed.
pub proof fn law_delete_product_keeps_wf(s: State, data: DeleteProductPayload)
    requires
        s.wf(),
    ensures
        s.delete_product(data).wf(),
{
}

/// Clearing keeps the state well formed.
pub proof fn law_clear_keeps_wf(s: State)
    requires
        s.wf(),
    ensures
        s.clear_all_user().wf(),
        s.clear_all_product().wf(),
{
}

/// No request moves an allocator back, none moves one on by more than one,
/// and every request keeps a well-formed state well formed.
pub proof fn law_request_moves_forward(s: State, request: Request)
    requires
        s.has_room(1),
    ensures
        s.next_user_id <= s.apply(request).next_user_id <= s.next_user_id + 1,
        s.next_product_id <= s.apply(request).next_product_id <= s.next_product_id + 1,
        s.next_review_id <= s.apply(request).next_review_id <= s.next_review_id + 1,
        s.wf() ==> s.apply(request).wf(),
        s.issued_user_id(request) matches Some(id) ==> id == s.next_user_id && s.apply(
            request,
        ).next_user_id == id + 1,
{
    if s.wf() {
        match request {
            Request::CreateUser(data, now) => {
                law_create_user_keeps_wf(s, data, now, is_email(data.email));
            },
            _ => {},
        }
    }
}

/// A run of `n` requests moves no allocator back and none on by more than
/// `n`, and keeps a well-formed state well formed.
pub proof fn law_run_moves_forward(s: State, requests: Seq<Request>)
    requires
        s.has_room(requests.len()),
    ensures
        s.next_user_id <= s.run(requests).next_user_id <= s.next_user_id + requests.len(),
        s.next_product_id <= s.run(requests).next_product_id <= s.next_product_id
            + requests.len(),
        s.next_review_id <= s.run(requests).next_review_id <= s.next_review_id + requests.len(),
        s.wf() ==> s.run(requests).wf(),
    decreases requests.len(),
{
    if requests.len() > 0 {
        law_run_moves_forward(s, requests.drop_last());
        law_request_moves_forward(s.run(requests.drop_last()), requests.last());
    }
}

/// A run goes on from where a shorter run of the same requests stops.
proof fn lemma_run_step(s: State, requests: Seq<Request>, n: int)
    requires
        0 <= n < requests.len(),
    ensures
        s.run(requests.take(n + 1)) == s.run(requests.take(n)).apply(requests[n]),
{
    assert(requests.take(n + 1).drop_last() =~= requests.take(n));
}

/// In a run, the allocator of users is nowhere behind where it was earlier.
proof fn lemma_run_monotone(s: State, requests: Seq<Request>, m: int, n: int)
    requires
        s.has_room(requests.len()),
        0 <= m <= n <= requests.len(),
    ensures
        s.run(requests.take(m)).next_user_id <= s.run(requests.take(n)).next_user_id,
    decreases n - m,
{
    if m < n {
        lemma_run_monotone(s, requests, m, n - 1);
        lemma_run_step(s, requests, n - 1);
        law_run_moves_forward(s, requests.take(n - 1));
        law_request_moves_forward(s.run(requests.take(n - 1)), requests[n - 1]);
    }
}

/// Identifiers of users come in strictly increasing order: of two requests
/// of a run that each make a user, the later one gets the greater
/// identifier, whatever else happens in between.
pub proof fn law_user_ids_increase(s: State, requests: Seq<Request>, i: int, j: int)
    requires
        s.has_room(requests.len()),
        0 <= i < j < requests.len(),
        s.run(requests.take(i)).issued_user_id(requests[i]) is Some,
        s.run(requests.take(j)).issued_user_id(requests[j]) is Some,
    ensures
        s.run(requests.take(i)).issued_user_id(requests[i])->0 < s.run(
            requests.take(j),
        ).issued_user_id(requests[j])->0,
{
    law_run_moves_forward(s, requests.take(i));
    law_request_moves_forward(s.run(requests.take(i)), requests[i]);
    lemma_run_step(s, requests, i);
    lemma_run_monotone(s, requests, i + 1, j);
    law_run_moves_forward(s, requests.take(j));
    law_request_moves_forward(s.run(requests.take(j)), requests[j]);
}

/// The first user of an empty service gets the identifier 0.
pub proof fn law_user_ids_start_at_zero(data: CreateUserView, now: u64, email_ok: bool)
    ensures
        State::empty().user_admissible(data, email_ok) <==> email_ok && is_role(data.role),
        State::empty().user_admissible(data, email_ok) ==> State::empty().create_user_outcome(
            data,
            now,
            email_ok,
        ) == Outcome::Accepted(State::empty().new_user(data, now)) && State::empty().new_user(
            data,
            now,
        ).user_id == 0,
{
}

/// A request for a new user with a well-formed address, a role that
/// exists, and an address and a name that nobody in `s` has.
pub open spec fn is_new_user(s: State, request: Request) -> bool {
    match request {
        Request::CreateUser(data, now) => {
            &&& is_email(data.email)
            &&& is_role(data.role)
            &&& s.attribute_unused(data.email, UniqueAttribue::Email)
            &&& s.attribute_unused(data.username, UniqueAttribue::Username)
        },
        _ => false,
    }
}

/// The requests of a run are all for new users that `s` does not have,
/// with addresses and names that differ from each other.
pub open spec fn new_distinct_users(s: State, requests: Seq<Request>) -> bool {
    &&& forall|i: int| 0 <= i < requests.len() ==> is_new_user(s, #[trigger] requests[i])
    &&& forall|i: int, j: int|
        0 <= i < j < requests.len() ==> (#[trigger] requests[i])->CreateUser_0.email != (
        #[trigger] requests[j])->CreateUser_0.email && requests[i]->CreateUser_0.username
            != requests[j]->CreateUser_0.username
}

/// After a run of admissible requests for distinct new users, the service
/// holds what it held before and one user for each request, under
/// identifiers that count up from where the allocator was.
proof fn lemma_distinct_users_run(s: State, requests: Seq<Request>, n: int)
    requires
        s.allocated(),
        s.has_room(requests.len()),
        new_distinct_users(s, requests),
        0 <= n <= requests.len(),
    ensures
        s.run(requests.take(n)).next_user_id == s.next_user_id + n,
        s.run(requests.take(n)).allocated(),
        forall|id: u64| #[trigger]
            s.run(requests.take(n)).users.contains_key(id) ==> s.users.contains_key(id) || (
            s.next_user_id <= id < s.next_user_id + n && s.run(requests.take(n)).users[id].email
                == requests[id - s.next_user_id]->CreateUser_0.email && s.run(
                requests.take(n),
            ).users[id].username == requests[id - s.next_user_id]->CreateUser_0.username),
        forall|id: u64| #[trigger]
            s.users.contains_key(id) ==> s.run(requests.take(n)).users.contains_key(id) && s.run(
                requests.take(n),
            ).users[id] == s.users[id],
    decreases n,
{
    if n == 0 {
        assert(requests.take(0) =~= Seq::<Request>::empty());
    } else {
        lemma_distinct_users_run(s, requests, n - 1);
        lemma_run_step(s, requests, n - 1);
        let before = s.run(requests.take(n - 1));
        let request = requests[n - 1];
        let data = request->CreateUser_0;
        assert forall|id: u64| #[trigger] before.users.contains_key(id) implies before.users[id].email
            != data.email && before.users[id].username != data.username by {
            if s.users.contains_key(id) {
                assert(before.users[id] == s.users[id]);
            } else {
                let k = id - s.next_user_id;
                assert(requests[k]->CreateUser_0.email != requests[n - 1]->CreateUser_0.email);
            }
        }
        assert(before.user_admissible(data, is_email(data.email)));
    }
}

/// Admissible requests for new users with distinct addresses and names are
/// all carried out, and the identifiers they get count up one by one from
/// where the allocator was: from 0 in a service that was empty.
pub proof fn law_distinct_users_count_up(s: State, requests: Seq<Request>, i: int)
    requires
        s.allocated(),
        s.has_room(requests.len()),
        new_distinct_users(s, requests),
        0 <= i < requests.len(),
    ensures
        s.run(requests.take(i)).issued_user_id(requests[i]) == Some(
            (s.next_user_id + i) as u64,
        ),
{
    lemma_distinct_users_run(s, requests, i);
    let before = s.run(requests.take(i));
    let data = requests[i]->CreateUser_0;
    assert forall|id: u64| #[trigger] before.users.contains_key(id) implies before.users[id].email
        != data.email && before.users[id].username != data.username by {
        if s.users.contains_key(id) {
            assert(before.users[id] == s.users[id]);
        } else {
            let k = id - s.next_user_id;
            assert(requests[k]->CreateUser_0.email != requests[i]->CreateUser_0.email);
        }
    }
    assert(before.user_admissible(data, is_email(data.email)));
}

/// In a state where every identifier in use was handed out, an admissible
/// request for a new user is carried out.
pub proof fn law_admissible_user_is_accepted(
    s: State,
    data: CreateUserView,
    now: u64,
    email_ok: bool,
)
    requires
        s.allocated(),
        s.user_admissible(data, email_ok),
    ensures
        s.create_user_outcome(data, now, email_ok) == Outcome::Accepted(s.new_user(data, now)),
{
}

/// After a user is made, a request for a user with the same address is
/// turned down and changes nothing, whatever its name; and so is one with
/// the same name.
pub proof fn law_second_user_is_rejected(
    s: State,
    first: CreateUserView,
    first_now: u64,
    first_ok: bool,
    second: CreateUserView,
    second_now: u64,
    second_ok: bool,
)
    requires
        s.user_admissible(first, first_ok),
        second.email == first.email || second.username == first.username,
    ensures
        s.create_user(first, first_now, first_ok).create_user_outcome(
            second,
            second_now,
            second_ok,
        ) == Outcome::<UserView>::Invalid,
        s.create_user(first, first_now, first_ok).create_user(second, second_now, second_ok)
            == s.create_user(first, first_now, first_ok),
{
    let t = s.create_user(first, first_now, first_ok);
    assert(t.users.contains_key(s.next_user_id));
    assert(t.users[s.next_user_id] == s.new_user(first, first_now));
}

/// A product cannot be added for a customer, nor for a user that does not
/// exist: the request is turned down and no product is made.
pub proof fn law_product_needs_store_owner(s: State, data: AddProductView, link_ok: bool)
    requires
        !s.users.contains_key(data.owner_user_id) || is_customer(
            s.users[data.owner_user_id].role,
        ),
    ensures
        s.add_product_outcome(data, link_ok) == Outcome::<ProductView>::Invalid,
        s.add_product(data, link_ok) == s,
{
    if s.users.contains_key(data.owner_user_id) {
        law_roles_differ(s.users[data.owner_user_id].role);
    }
}

/// A review with a rating outside of 1 to 5 is turned down and changes
/// nothing.
pub proof fn law_rating_out_of_range(s: State, data: AddReviewView)
    requires
        data.rating < 1 || data.rating > 5,
    ensures
        s.add_review_outcome(data) == Outcome::<ReviewView>::Invalid,
        s.add_review(data) == s,
{
}

/// A review with a rating from 1 to 5, of a product that exists, by a
/// customer who exists, is made with exactly that rating, and is then in
/// the store.
pub proof fn law_rating_in_range(s: State, data: AddReviewView)
    requires
        1 <= data.rating <= 5,
        s.products.contains_key(data.product_id),
        s.is_customer(data.user_id),
    ensures
        s.add_review_outcome(data) == Outcome::Accepted(s.new_review(data)),
        s.new_review(data).rating == data.rating,
        s.add_review(data).reviews.contains_key(s.next_review_id),
        s.add_review(data).reviews[s.next_review_id] == s.new_review(data),
{
}

/// Only its owner removes a product: a request by anyone else is turned
/// down, and the product and its reviews stay as they are.
pub proof fn law_only_owner_deletes(s: State, data: DeleteProductPayload)
    requires
        !s.owns(data.user_id, data.product_id),
    ensures
        s.delete_product_outcome(data) == Outcome::<ProductView>::Invalid,
        s.delete_product(data) == s,
        s.delete_product(data).reviews_of(data.product_id) == s.reviews_of(data.product_id),
{
}

/// When its owner removes a product, the product is returned and is gone
/// afterwards, no review of it is left, and every other product and review
/// stays as it is.
pub proof fn law_delete_cascades(s: State, data: DeleteProductPayload)
    requires
        s.owns(data.user_id, data.product_id),
    ensures
        s.delete_product_outcome(data) == Outcome::Accepted(s.products[data.product_id]),
        !s.delete_product(data).products.contains_key(data.product_id),
        forall|id: u64| #[trigger]
            s.delete_product(data).reviews.contains_key(id) ==> s.delete_product(
                data,
            ).reviews[id].product_id != data.product_id,
        s.delete_product(data).reviews_of(data.product_id) == no_records::<ReviewView>(),
        forall|id: u64|
            id != data.product_id && #[trigger] s.products.contains_key(id) ==> s.delete_product(
                data,
            ).products.contains_key(id) && s.delete_product(data).products[id] == s.products[id],
        forall|id: u64| #[trigger]
            s.reviews.contains_key(id) && s.reviews[id].product_id != data.product_id
                ==> s.delete_product(data).reviews.contains_key(id) && s.delete_product(
                data,
            ).reviews[id] == s.reviews[id],
        s.delete_product(data).users == s.users,
{
    assert(s.delete_product(data).reviews_of(data.product_id) =~= no_records::<ReviewView>());
}

/// Clearing all users twice is the same as clearing them once, and where
/// every identifier in use was handed out, no user is left after it.
pub proof fn law_clear_all_user_twice(s: State)
    ensures
        s.clear_all_user().clear_all_user() == s.clear_all_user(),
        s.allocated() ==> s.clear_all_user().users == no_records::<UserView>(),
        s.clear_all_user().next_user_id == s.next_user_id,
{
    assert(s.clear_all_user().clear_all_user().users =~= s.clear_all_user().users);
    if s.allocated() {
        assert(s.clear_all_user().users =~= no_records::<UserView>());
    }
}

/// Clearing all products twice is the same as clearing them once, and where
/// every identifier in use was handed out, no product is left after it.
pub proof fn law_clear_all_product_twice(s: State)
    ensures
        s.clear_all_product().clear_all_product() == s.clear_all_product(),
        s.allocated() ==> s.clear_all_product().products == no_records::<ProductView>(),
        s.clear_all_product().next_product_id == s.next_product_id,
{
    assert(s.clear_all_product().clear_all_product().products =~= s.clear_all_product().products);
    if s.allocated() {
        assert(s.clear_all_product().products =~= no_records::<ProductView>());
    }
}

/// After a product is added, a request to change it by anyone but its owner
/// is turned down, and the product keeps every field that it was added
/// with.
pub proof fn law_stranger_cannot_update(
    s: State,
    added: AddProductView,
    link_ok: bool,
    change: UpdateProductView,
)
    requires
        s.product_admissible(added, link_ok),
        change.product_id == s.next_product_id,
        change.user_id != added.owner_user_id,
    ensures
        s.add_product(added, link_ok).update_product_outcome(change) == Outcome::<
            ProductView,
        >::Invalid,
        s.add_product(added, link_ok).update_product(change) == s.add_product(added, link_ok),
        s.add_product(added, link_ok).update_product(change).products[s.next_product_id]
            == s.new_product(added),
{
}

/// A change by anyone but the owner changes nothing, whatever the state.
pub proof fn law_only_owner_updates(s: State, change: UpdateProductView)
    requires
        !s.owns(change.user_id, change.product_id),
    ensures
        s.update_product_outcome(change) == Outcome::<ProductView>::Invalid,
        s.update_product(change) == s,
{
}

/// A change by the owner writes the name, the description and the link,
/// and keeps the identifier and the owner.
pub proof fn law_update_keeps_owner(s: State, change: UpdateProductView)
    requires
        s.owns(change.user_id, change.product_id),
    ensures
        s.update_product(change).products[change.product_id].owner_user_id
            == s.products[change.product_id].owner_user_id,
        s.update_product(change).products[change.product_id].product_id == change.product_id,
        s.update_product(change).products[change.product_id].product_name == change.product_name,
        s.update_product(change).products[change.product_id].product_description
            == change.product_description,
        s.update_product(change).products[change.product_id].product_link == change.product_link,
{
}

} // verus!
