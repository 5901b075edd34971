//! The JSON answers of the ZTNA passport service, as plain values; the JSON
//! itself is read outside the library.

pub mod auth_check;
pub mod auth_config;
pub mod send_sms;
pub mod shortcut_html_data;
pub mod submit_sms;

use vstd::prelude::*;

verus! {

broadcast use vstd::string::group_string_axioms;

/// The envelope of every answer: a status code, a message and the data.
pub struct JsonResponse<T> {
    pub code: i32,
    pub message: String,
    pub data: T,
}

/// The error text of an answer that refused `action` with `message`.
pub open spec fn code_error_spec(action: Seq<char>, message: Seq<char>) -> Seq<char> {
    action + ": "@ + message
}

impl<T> JsonResponse<T> {
    /// The answer itself where its code is `0`; otherwise the error
    /// `"{action}: {message}"`.
    pub fn check_code(self, action: &str) -> (r: Result<Self, String>)
        ensures
            self.code == 0 ==> r == Ok::<Self, String>(self),
            self.code != 0 ==> (r matches Err(e) && e@ == code_error_spec(action@, self.message@)),
    {
        if self.code == 0 {
            Ok(self)
        } else {
            let mut e = action.to_string();
            e.append(": ");
            e.append(self.message.as_str());
            Err(e)
        }
    }
}

} // verus!
