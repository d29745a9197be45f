//! Which password a tenant sees for a player.

use crate::model::effective;
use vstd::prelude::*;
use vstd::string::*;

verus! {

/// The text of an optional string.
pub open spec fn text_of(value: Option<String>) -> Option<Seq<char>> {
    match value {
        Some(text) => Some(text@),
        None => None,
    }
}

/// Picks the effective password: the tenant's override where it is present
/// and not empty, the global password otherwise.
pub fn effective_password(global: &String, pw_override: &Option<String>) -> (r: String)
    ensures
        r@ == effective(global@, text_of(*pw_override)),
{
    match pw_override {
        Some(own) => {
            if own.as_str().is_empty() {
                global.clone()
            } else {
                own.clone()
            }
        },
        None => global.clone(),
    }
}

} // verus!
