//! Accounts: list, create (with its credit ledger), get, update, disable.

use vstd::prelude::*;
use crate::api::admin::{prefixed_id, uuid_shaped};
use crate::text::append_str;

verus! {

/// Parameters of the account list.
#[derive(Debug, Clone)]
pub struct ListParams {
    pub status: Option<String>,
    pub limit: i64,
    pub offset: i64,
}

/// The page size when none is given.
pub fn default_limit() -> (r: i64)
    ensures
        r == 20,
{
    20
}

/// The offset when none is given.
pub fn default_offset() -> (r: i64)
    ensures
        r == 0,
{
    0
}

/// Body of an account creation.
#[derive(Debug, Clone)]
pub struct CreateAccountReq {
    pub external_id: Option<String>,
    /// A policy template name; recorded in the note.
    pub template: Option<String>,
    pub note: Option<String>,
}

/// Body of an account update.
#[derive(Debug, Clone)]
pub struct UpdateAccountReq {
    pub status: Option<String>,
    pub note: Option<String>,
}

/// The note stored with a new account: the note, with the template
/// recorded as `[template=<name>]` after it (alone when there is no note).
pub open spec fn account_note_spec(note: Option<Seq<char>>, template: Option<Seq<char>>) -> Option<Seq<char>> {
    match (note, template) {
        (Some(n), Some(t)) => Some(n + " [template="@ + t + "]"@),
        (Some(n), None) => Some(n),
        (None, Some(t)) => Some("[template="@ + t + "]"@),
        (None, None) => None,
    }
}

/// Renders the note of a new account.
pub fn account_note(note: Option<&str>, template: Option<&str>) -> (r: Option<String>)
    ensures
        match account_note_spec(
            match note { Some(n) => Some(n@), None => None },
            match template { Some(t) => Some(t@), None => None },
        ) {
            Some(s) => r matches Some(v) && v@ == s,
            None => r is None,
        },
{
    match (note, template) {
        (Some(n), Some(t)) => {
            let mut s = String::new();
            append_str(&mut s, n);
            append_str(&mut s, " [template=");
            append_str(&mut s, t);
            append_str(&mut s, "]");
            assert(s@ =~= n@ + " [template="@ + t@ + "]"@);
            Some(s)
        },
        (Some(n), None) => Some(String::from_str(n)),
        (None, Some(t)) => {
            let mut s = String::new();
            append_str(&mut s, "[template=");
            append_str(&mut s, t);
            append_str(&mut s, "]");
            assert(s@ =~= "[template="@ + t@ + "]"@);
            Some(s)
        },
        (None, None) => None,
    }
}

/// A new account id: `acct_` and a random UUID.
pub fn new_account_id() -> (r: String)
    ensures
        exists|u: Seq<char>| uuid_shaped(u) && r@ == "acct_"@ + u,
{
    prefixed_id("acct_")
}

} // verus!
