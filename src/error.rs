//! Error kinds and which of them reach the operator.

use vstd::prelude::*;

verus! {

/// The kinds of failure the engine tells apart.
#[derive(Debug, Clone, Copy, PartialEq, Eq)]
pub enum Worm {
    Unknown,
    NotFound,
    AlreadyExists,
    Banned,
    Blocked,
    MessageToDeleteNotFound,
    /// a failure of the chat transport
    TxRq,
    /// a failure of the storage engine
    Sqlx,
    /// a failed file download
    Down,
    /// a failure of the HTTP client
    Rqw,
}

/// Whether a failure that reached the top-level handler is forwarded to the
/// operator: routine ones (a banned sender, a recipient who blocked the bot,
/// a message already gone) are kept quiet.
pub open spec fn is_reported(w: Worm) -> bool {
    !(w == Worm::Blocked || w == Worm::Banned || w == Worm::MessageToDeleteNotFound)
}

impl Worm {
    pub fn reported(&self) -> (r: bool)
        ensures
            r == is_reported(*self),
    {
        match self {
            Worm::Blocked | Worm::Banned | Worm::MessageToDeleteNotFound => false,
            _ => true,
        }
    }
}

/// An error with its kind and a debug dump for the operator.
#[derive(Debug)]
pub struct AppErr {
    pub worm: Worm,
    pub debug: String,
}

} // verus!
