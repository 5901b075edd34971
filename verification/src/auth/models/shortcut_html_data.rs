//! The `data` parameter of the portal's shortcut page.

use vstd::prelude::*;

verus! {

/// The ticket of a unified authentication, and the environment check asked for.
pub struct Data {
    pub ticket: String,
    pub env: Env,
}

/// Whether the portal needs an environment report, and when.
pub struct Env {
    pub need: bool,
    pub timing: String,
}

} // verus!
