//! The line under which a failure is logged.

use vstd::prelude::*;
use crate::error::CBoxError;

verus! {

/// The text of the log line for `e`.
pub open spec fn error_line(e: CBoxError) -> Seq<char> {
    "ERROR: "@ + e.message()
}

/// Makes the log line for a failure. Writing it out is left to the caller,
/// who knows where logs go on the platform at hand.
pub fn error(e: &CBoxError) -> (line: String)
    ensures
        line@ == error_line(*e),
{
    let mut line = String::from_str("ERROR: ");
    let text = e.to_string();
    line.append(text.as_str());
    line
}

} // verus!
