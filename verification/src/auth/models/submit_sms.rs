//! The answer to a submitted SMS code.

use vstd::prelude::*;

verus! {

/// When the SMS code was checked.
pub struct SMSResponseData {
    pub time: String,
}

} // verus!
