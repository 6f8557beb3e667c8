//! The two kinds of failure, and the messages they carry.

use crate::text::{decimal, decimal_string};
use vstd::prelude::*;
use vstd::string::StringExecFns;

verus! {

/// Why a request was turned down.
#[derive(Debug)]
pub enum CustomError {
    /// The record that the request is about was not there at the last step,
    /// or a new record took the place of another.
    NotFound { msg: String },
    /// The request broke a rule: a format, a role, uniqueness, a range, a
    /// reference to a record that does not exist, or ownership.
    InvalidPayloadData { msg: String },
}

/// Said when a new user is turned down.
pub const INVALID_USER: &'static str =
    "Invalid data, make sure the email is in valid format, email and username must be unique";

/// Said when a new user took the place of another record.
pub const USER_INSERT_FAILED: &'static str = "Error while inserting new user";

/// Said when a new product is turned down.
pub const INVALID_PRODUCT: &'static str =
    "Invalid data, user must be valid and must be a store owner, and link must be in a valid format";

/// Said when a new review is turned down.
pub const INVALID_REVIEW: &'static str =
    "Invalid data, user and product id must be valid, user must be a customer, rating must be in range 1-5 inclusive";

/// Said when a change or a removal of a product is turned down.
pub const NOT_THE_OWNER: &'static str =
    "Invalid data, user and product id must be valid, user must be the owner of the product";

/// The message for a product that was to be changed and is not there.
pub open spec fn update_missing_message(product_id: u64) -> Seq<char> {
    "Couldn't update a product with id="@ + decimal(product_id as nat) + ". Product not found"@
}

/// The message for a product that was to be removed and is not there.
pub open spec fn delete_missing_message(product_id: u64) -> Seq<char> {
    "Couldn't delete a product with id="@ + decimal(product_id as nat) + ". Product not found."@
}

impl CustomError {
    /// The message of the error.
    pub open spec fn message(self) -> Seq<char> {
        match self {
            CustomError::NotFound { msg } => msg@,
            CustomError::InvalidPayloadData { msg } => msg@,
        }
    }

    /// The message of the error.
    pub fn description(&self) -> (text: &str)
        ensures
            text@ == self.message(),
    {
        match self {
            CustomError::NotFound { msg } => msg.as_str(),
            CustomError::InvalidPayloadData { msg } => msg.as_str(),
        }
    }

    /// A broken rule, with its message.
    pub fn invalid(message: &str) -> (error: CustomError)
        ensures
            error is InvalidPayloadData,
            error.message() == message@,
    {
        CustomError::InvalidPayloadData { msg: String::from_str(message) }
    }

    /// A missing record or a failed insertion, with its message.
    pub fn not_found(message: &str) -> (error: CustomError)
        ensures
            error is NotFound,
            error.message() == message@,
    {
        CustomError::NotFound { msg: String::from_str(message) }
    }

    /// The product `product_id` was to be changed and is not there.
    pub fn update_missing(product_id: u64) -> (error: CustomError)
        ensures
            error is NotFound,
            error.message() == update_missing_message(product_id),
    {
        let msg = String::from_str("Couldn't update a product with id=").concat(
            decimal_string(product_id).as_str(),
        ).concat(". Product not found");
        CustomError::NotFound { msg }
    }

    /// The product `product_id` was to be removed and is not there.
    pub fn delete_missing(product_id: u64) -> (error: CustomError)
        ensures
            error is NotFound,
            error.message() == delete_missing_message(product_id),
    {
        let msg = String::from_str("Couldn't delete a product with id=").concat(
            decimal_string(product_id).as_str(),
        ).concat(". Product not found.");
        CustomError::NotFound { msg }
    }
}

} // verus!
