//! Invite codes.

use vstd::prelude::*;

verus! {

/// An invite code, the account that owns it and how often it was redeemed.
#[derive(Debug, Clone)]
pub struct InviteLink {
    pub link: String,
    pub karbar: i64,
    pub count: i64,
}

} // verus!
