//! Values fixed for the whole process.

use vstd::prelude::*;

verus! {

/// Name of the cookie in which the client keeps its session.
pub const COOKIE_NAME: &'static str = "session";

} // verus!
