//! The configuration tables and the bot's deep links.

use vstd::prelude::*;
use crate::text::append;

verus! {

/// The `[bot]` table of the configuration file.
#[derive(Debug, Clone)]
pub struct Bot {
    pub token: String,
    pub admins: Vec<u64>,
    pub dev: u64,
    pub storage: String,
    /// without the leading @
    pub username: String,
}

/// The `[db]` table of the configuration file.
#[derive(Debug, Clone)]
pub struct Db {
    pub path: String,
}

pub open spec fn bot_link(username: Seq<char>, start: Seq<char>) -> Seq<char> {
    "https://t.me/"@ + username + "?start="@ + start
}

/// The deep link that starts the bot with the parameter `start`.
pub fn bot_url(username: &str, start: &str) -> (r: String)
    ensures
        r@ == bot_link(username@, start@),
{
    let mut r = "https://t.me/".to_owned();
    append(&mut r, username);
    append(&mut r, "?start=");
    append(&mut r, start);
    r
}

/// The deep link that credits the owner of `code` for whoever starts with it.
pub fn invite_url(username: &str, code: &str) -> (r: String)
    ensures
        r@ == bot_link(username@, "inv-"@ + code@),
{
    let mut start = "inv-".to_owned();
    append(&mut start, code);
    bot_url(username, start.as_str())
}

} // verus!
