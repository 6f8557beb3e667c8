//! Format rules for e-mail addresses and product links.
//!
//! Both rules are regular expressions, and the `regex` crate decides whether
//! a text matches one. What it answers is a function of the expression and
//! the text alone; `regex_search` names it.

use regex::Regex;
use vstd::prelude::*;

verus! {

/// An e-mail address: a local part, `@`, a domain, a dot and a top-level
/// domain of two letters or more.
pub const EMAIL_PATTERN: &'static str = r"^[a-zA-Z0-9._%+-]+@[a-zA-Z0-9.-]+\.[a-zA-Z]{2,}$";

/// A link: `http://` or `https://`, a host that does not begin with a
/// separator, and no white space up to the end.
pub const LINK_PATTERN: &'static str = r"^https?://[^\s/$.?#].[^\s]*$";

/// What a search for the regular expression `pattern` in `text` finds:
/// `Some(true)` where some part of `text` matches, `Some(false)` where none
/// does, and `None` where `pattern` is no regular expression.
pub uninterp spec fn regex_search(pattern: Seq<char>, text: Seq<char>) -> Option<bool>;

/// `Regex::new` followed by `Regex::is_match`: parses `pattern` and searches
/// `text` for a match. `Regex::new` fails on a pattern that is no regular
/// expression, or too large a one, and that failure becomes `None`. Neither
/// call looks at anything but its arguments.
#[verifier::external_body]
pub(crate) fn search(pattern: &str, text: &str) -> (found: Option<bool>)
    ensures
        found == regex_search(pattern@, text@),
{
    match Regex::new(pattern) {
        Ok(regex) => Some(regex.is_match(text)),
        Err(_) => None,
    }
}

/// A search result counts as a match only where the pattern is a regular
/// expression and matched.
pub open spec fn is_match(found: Option<bool>) -> bool {
    found == Some(true)
}

/// `text` is an e-mail address.
pub open spec fn is_email(text: Seq<char>) -> bool {
    is_match(regex_search(EMAIL_PATTERN@, text))
}

/// `text` is a link.
pub open spec fn is_link(text: Seq<char>) -> bool {
    is_match(regex_search(LINK_PATTERN@, text))
}

/// Whether a search found a match. A pattern that is no regular expression
/// matches nothing.
pub fn found_match(found: Option<bool>) -> (ok: bool)
    ensures
        ok == is_match(found),
{
    match found {
        Some(matched) => matched,
        None => false,
    }
}

/// Whether `email` is an e-mail address.
pub fn email_format_valid(email: &str) -> (ok: bool)
    ensures
        ok == is_email(email@),
{
    found_match(search(EMAIL_PATTERN, email))
}

/// Whether `link` is a link.
pub fn link_format_valid(link: &str) -> (ok: bool)
    ensures
        ok == is_link(link@),
{
    found_match(search(LINK_PATTERN, link))
}

} // verus!
