//! Which log records are written.

use vstd::prelude::*;
use crate::text::starts_with;

verus! {

/// Severity ranks, most severe first.
pub const LEVEL_ERROR: u8 = 1;

pub const LEVEL_WARN: u8 = 2;

pub const LEVEL_INFO: u8 = 3;

pub const LEVEL_DEBUG: u8 = 4;

pub const LEVEL_TRACE: u8 = 5;

/// The process-wide logger's filter.
pub struct MasterLogger;

/// Records of the HTTP stack are dropped, and so is anything finer than debug.
pub open spec fn accepted(target: Seq<char>, level: u8) -> bool {
    !("hyper_util"@.len() <= target.len() && target.subrange(0, "hyper_util"@.len() as int) == "hyper_util"@)
        && level <= LEVEL_DEBUG
}

impl MasterLogger {
    /// Whether a record of `target` at severity rank `level` is written.
    pub fn enabled(&self, target: &str, level: u8) -> (r: bool)
        ensures
            r == accepted(target@, level),
    {
        if starts_with(target, "hyper_util") {
            return false;
        }
        level <= LEVEL_DEBUG
    }
}

} // verus!
