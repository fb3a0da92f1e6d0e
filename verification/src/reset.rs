//! The reset terminal: any request routed here ends the connection.

use vstd::prelude::*;
use crate::parser::Request;

verus! {

/// The terminal stage that concludes a failed policy decision.
pub struct Reset;

impl Reset {
    pub fn new() -> (r: Reset) {
        Reset
    }

    /// No request ever continues from this terminal: the connection
    /// ends here.
    pub fn reset(&self) -> (r: Option<(u8, Vec<Request>)>)
        ensures
            r is None,
    {
        None
    }
}

} // verus!
