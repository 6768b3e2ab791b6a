//! The record shape a session's credentials are persisted in.
//!
//! The store itself (where the record is written and how it is encoded on
//! disk) is the embedding application's concern; this layer only fixes the
//! shape: three optional string fields.

use vstd::prelude::*;

verus! {

/// One persisted credential record: access token, company id, role id.
/// Every field is optional in the record; a session can only be restored
/// from a record whose token is present.
#[derive(Debug)]
pub struct State {
    pub access_token: Option<String>,
    pub company_id: Option<String>,
    pub role_id: Option<String>,
}

/// The two optional strings hold the same text (or are both absent).
pub open spec fn opt_text_eq(a: Option<String>, b: Option<String>) -> bool {
    match (a, b) {
        (Some(x), Some(y)) => x@ == y@,
        (None, None) => true,
        _ => false,
    }
}

} // verus!
