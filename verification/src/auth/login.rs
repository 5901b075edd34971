//! The login form of the unified authentication: which fields the page sets,
//! what the client adds to them, and how the server's answer is read.

use vstd::prelude::*;
use crate::auth::crypto::{EncryptError, encrypt, encrypt_spec};
use crate::auth::form::FormContext;
use crate::html::{HtmlMatchView, HtmlNodeView, matches_view, select, spec_html_select, strings_view};
use crate::text::{chars_of, string_of, trim, trim_chars};

verus! {

broadcast use vstd::string::group_string_axioms;

/// Why a login to the unified authentication failed.
#[derive(Debug, Clone, PartialEq, Eq)]
pub enum LoginError {
    /// A selector of the login page could not be parsed.
    InvalidSelector,
    /// The login page sets no password encryption salt.
    MissingSalt,
    /// The password could not be encrypted with the salt.
    Encrypt(EncryptError),
    /// The server answered the login with 401: the password is wrong.
    PasswordWrong,
    /// The server answered the login with this client or server error status.
    ErrorStatus(u16),
    /// The server kept the login page and gave this reason.
    Rejected(String),
}

/// The selector of the inputs of the password login form.
pub open spec fn login_inputs_css() -> Seq<char> {
    "form#pwdFromId input"@
}

/// The attributes read from each input: `id`, `name`, `value`.
pub open spec fn login_input_attrs() -> Seq<Seq<char>> {
    seq!["id"@, "name"@, "value"@]
}

/// The name of a field set by the input `n`: its `id`, or else its `name`.
pub open spec fn input_name(n: HtmlNodeView) -> Option<Seq<char>> {
    if n.attrs[0] is Some {
        n.attrs[0]
    } else {
        n.attrs[1]
    }
}

/// The fields that the inputs `nodes` set, in order: each input that has a
/// name and a `value` sets that field, a later input overriding an earlier one.
pub open spec fn context_of(nodes: Seq<HtmlNodeView>) -> Map<Seq<char>, Seq<char>>
    decreases nodes.len(),
{
    if nodes.len() == 0 {
        Map::empty()
    } else {
        let prev = context_of(nodes.drop_last());
        let n = nodes.last();
        match (input_name(n), n.attrs[2]) {
            (Some(k), Some(v)) => prev.insert(k, v),
            _ => prev,
        }
    }
}

/// The elements that a match list holds, without their descendants.
pub open spec fn match_nodes(m: Seq<HtmlMatchView>) -> Seq<HtmlNodeView> {
    m.map_values(|x: HtmlMatchView| x.node)
}

/// What [`extract_context`] gives for the login page `html`.
pub open spec fn extract_context_spec(html: Seq<char>) -> Option<Map<Seq<char>, Seq<char>>> {
    match spec_html_select(html, login_inputs_css(), Seq::empty(), login_input_attrs()) {
        Some(m) => Some(context_of(match_nodes(m))),
        None => None,
    }
}

/// The fields of the password login form of the page `login_page`.
pub fn extract_context(login_page: &str) -> (r: Result<FormContext, LoginError>)
    ensures
        match extract_context_spec(login_page@) {
            Some(c) => r matches Ok(f) && f.wf() && f@ == c,
            None => r == Err::<FormContext, LoginError>(LoginError::InvalidSelector),
        },
{
    let none: Vec<String> = Vec::new();
    let attrs: Vec<String> = vec!["id".to_string(), "name".to_string(), "value".to_string()];
    proof {
        assert(strings_view(none@) =~= Seq::<Seq<char>>::empty());
        assert(strings_view(attrs@) =~= login_input_attrs());
    }
    let matches = match select(login_page, "form#pwdFromId input", &none, &attrs) {
        Some(m) => m,
        None => return Err(LoginError::InvalidSelector),
    };
    let ghost nodes = match_nodes(matches_view(matches@));
    let mut context = FormContext::new();
    let mut i: usize = 0;
    while i < matches.len()
        invariant
            i <= matches@.len(),
            nodes == match_nodes(matches_view(matches@)),
            nodes.len() == matches@.len(),
            forall|j: int| 0 <= j < nodes.len() ==> (#[trigger] nodes[j]).attrs.len() == 3,
            context.wf(),
            context@ == context_of(nodes.take(i as int)),
        decreases matches@.len() - i,
    {
        let node = &matches[i].node;
        assert(nodes[i as int] == node@);
        assert(nodes.take(i + 1).drop_last() == nodes.take(i as int));
        let name = match &node.attrs[0] {
            Some(id) => Some(id),
            None => node.attrs[1].as_ref(),
        };
        match (name, &node.attrs[2]) {
            (Some(k), Some(v)) => {
                context.insert(k.clone(), v.clone());
            },
            _ => {},
        }
        i += 1;
    }
    assert(nodes.take(matches@.len() as int) == nodes);
    Ok(context)
}

/// The field that carries the salt of the password encryption.
pub open spec fn salt_field() -> Seq<char> {
    "pwdEncryptSalt"@
}

/// The form that [`build_login_form`] submits: the page's fields without the
/// salt, with the user name, the encrypted password, an empty captcha and the
/// mobile login type.
pub open spec fn login_form_spec(
    context: Map<Seq<char>, Seq<char>>,
    username: Seq<char>,
    password: Seq<char>,
) -> Result<Map<Seq<char>, Seq<char>>, LoginError> {
    if !context.contains_key(salt_field()) {
        Err(LoginError::MissingSalt)
    } else {
        match encrypt_spec(password, vstd::utf8::encode_utf8(context[salt_field()])) {
            Err(e) => Err(LoginError::Encrypt(e)),
            Ok(p) => Ok(
                context.remove(salt_field()).insert("username"@, username).insert(
                    "password"@,
                    p,
                ).insert("captcha"@, Seq::empty()).insert("dllt"@, "mobileLogin"@),
            ),
        }
    }
}

/// Turns the fields of the login page into the form to submit.
pub fn build_login_form(context: FormContext, username: String, password: &str) -> (r: Result<
    FormContext,
    LoginError,
>)
    requires
        context.wf(),
    ensures
        match login_form_spec(context@, username@, password@) {
            Ok(m) => r matches Ok(f) && f.wf() && f@ == m,
            Err(e) => r == Err::<FormContext, LoginError>(e),
        },
{
    let mut context = context;
    let salt = match context.remove("pwdEncryptSalt") {
        Some(s) => s,
        None => return Err(LoginError::MissingSalt),
    };
    let encrypted = match encrypt(password, salt.as_str().as_bytes()) {
        Ok(p) => p,
        Err(e) => return Err(LoginError::Encrypt(e)),
    };
    context.insert("username".to_string(), username);
    context.insert("password".to_string(), encrypted);
    context.insert("captcha".to_string(), String::new());
    context.insert("dllt".to_string(), "mobileLogin".to_string());
    Ok(context)
}

/// How the answer to the submitted form is read: 401 means a wrong password,
/// another client or server error status is an error, anything else goes on.
pub open spec fn login_status_spec(status: u16) -> Result<(), LoginError> {
    if status == 401 {
        Err(LoginError::PasswordWrong)
    } else if 400 <= status <= 599 {
        Err(LoginError::ErrorStatus(status))
    } else {
        Ok(())
    }
}

/// Reads the status of the answer to the submitted login form.
pub fn check_login_status(status: u16) -> (r: Result<(), LoginError>)
    ensures
        r == login_status_spec(status),
        status == 401 ==> r == Err::<(), LoginError>(LoginError::PasswordWrong),
        400 <= status <= 599 && status != 401 ==> r == Err::<(), LoginError>(LoginError::ErrorStatus(status)),
        r is Ok <==> (status < 400 || status > 599),
{
    if status == 401 {
        Err(LoginError::PasswordWrong)
    } else if 400 <= status && status <= 599 {
        Err(LoginError::ErrorStatus(status))
    } else {
        Ok(())
    }
}

/// The answer to the login form is judged by its status alone: 401 is a
/// wrong password, every other client or server error status (400 to 599)
/// is refused with that status, and only a status outside 400 to 599 lets
/// the login go on.
pub proof fn lemma_login_status_ranges(status: u16)
    ensures
        status == 401 ==> login_status_spec(status) == Err::<(), LoginError>(LoginError::PasswordWrong),
        400 <= status <= 599 && status != 401 ==> login_status_spec(status) == Err::<(), LoginError>(
            LoginError::ErrorStatus(status),
        ),
        login_status_spec(status) is Ok <==> (status < 400 || status > 599),
{
}

/// Where the login page shows why a login was refused.
pub open spec fn login_error_css() -> Seq<char> {
    "div#pwdLoginDiv span#showErrorTip, form#casLoginForm span.auth_error"@
}

/// The reason shown on a refused login page: the trimmed text of the first
/// error element, where there is one and it is not empty.
pub open spec fn login_error_spec(html: Seq<char>) -> Option<Seq<char>> {
    match spec_html_select(html, login_error_css(), Seq::empty(), Seq::empty()) {
        Some(m) => if m.len() > 0 && trim(m[0].node.text).len() > 0 {
            Some(trim(m[0].node.text))
        } else {
            None
        },
        None => None,
    }
}

/// The reason that the login page `html` gives for refusing a login.
pub fn extract_login_error(html: &str) -> (r: Option<String>)
    ensures
        match login_error_spec(html@) {
            Some(t) => r matches Some(s) && s@ == t,
            None => r is None,
        },
{
    let none: Vec<String> = Vec::new();
    assert(strings_view(none@) =~= Seq::<Seq<char>>::empty());
    let matches = match select(
        html,
        "div#pwdLoginDiv span#showErrorTip, form#casLoginForm span.auth_error",
        &none,
        &none,
    ) {
        Some(m) => m,
        None => return None,
    };
    if matches.len() == 0 {
        return None;
    }
    assert(matches_view(matches@)[0].node.text == matches[0].node.text@);
    let text = chars_of(matches[0].node.text.as_str());
    let t = trim_chars(text.as_slice());
    if t.len() == 0 {
        None
    } else {
        Some(string_of(t.as_slice()))
    }
}

/// The prefix of the reason given where the page shows none.
pub open spec fn raw_page_prefix() -> Seq<char> {
    "Failed to find err msg, raw page: "@
}

/// Why a login that set no `CASTGC` cookie failed, read from the page it
/// ended on: the page's own reason, or the whole page.
pub open spec fn login_rejection_spec(page: Seq<char>) -> Seq<char> {
    match login_error_spec(page) {
        Some(t) => t,
        None => raw_page_prefix() + page,
    }
}

/// The error of a login that ended on `page` without a `CASTGC` cookie.
pub fn login_rejection(page: &str) -> (r: LoginError)
    ensures
        r matches LoginError::Rejected(s) && s@ == login_rejection_spec(page@),
{
    match extract_login_error(page) {
        Some(t) => LoginError::Rejected(t),
        None => {
            let mut s = "Failed to find err msg, raw page: ".to_string();
            s.append(page);
            LoginError::Rejected(s)
        },
    }
}

/// The outcome of a login from the `CASTGC` cookie found after it, if any,
/// and the page it ended on.
pub fn login_outcome(castgc: Option<String>, page: &str) -> (r: Result<String, LoginError>)
    ensures
        match castgc {
            Some(c) => r == Ok::<String, LoginError>(c),
            None => r matches Err(LoginError::Rejected(s)) && s@ == login_rejection_spec(page@),
        },
{
    match castgc {
        Some(c) => Ok(c),
        None => Err(login_rejection(page)),
    }
}

} // verus!
