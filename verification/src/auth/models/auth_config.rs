//! The passport's public authentication configuration.

use vstd::prelude::*;

verus! {

/// The URLs of the first authentication step.
pub struct AuthConfigData {
    pub first_auth: Vec<String>,
}

} // verus!
