//! The answer of the passport's authentication check.

use vstd::prelude::*;

verus! {

/// The authentication services that the user is offered next.
pub struct AuthCheckData {
    pub next_service_list: Vec<NextService>,
}

/// One authentication service: its ID and its type.
pub struct NextService {
    pub auth_id: String,
    pub auth_type: String,
}

} // verus!
