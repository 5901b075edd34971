//! The answer to a request for an SMS code.

use vstd::prelude::*;

verus! {

/// What the passport says after sending an SMS code.
pub struct SendSMSResponseData {
    pub current_service: String,
    pub next_service: String,
    pub next_service_list: Vec<NextService>,
    pub tips: String,
}

/// One service offered after the SMS code was sent.
pub struct NextService {
    pub auth_id: String,
    pub auth_name: String,
    pub auth_type: String,
    pub description: String,
    pub sub_type: String,
}

} // verus!
