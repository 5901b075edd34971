//! The login to the Web VPN, as a machine that the caller drives: it tells
//! which request to make next and reads what came back. The login sends an
//! SMS code and stops; the code is submitted later, maybe by another process.

use vstd::prelude::*;
use crate::auth::device::{generate_vpn_device_id, is_vpn_device_id};
use crate::text::{chars_eq, chars_of, has_prefix, starts_with, string_of, trim, trim_chars};
use crate::weburl::{
    WebUrl, pairs_view, spec_url_host, spec_url_parse_with_params, spec_url_path,
    spec_url_query_pairs, spec_url_set_host,
};
use crate::webvpn::{WebVpnUrlError, web_vpn_host, web_vpn_url};

verus! {

broadcast use vstd::string::group_string_axioms;

/// The public authentication configuration of the ZTNA passport.
pub const AUTH_CONFIG_URL: &'static str = "https://ztna.nju.edu.cn/passport/v1/public/authConfig?clientType=SDPBrowserClient&platform=Mac&lang=en-US&mod=1";

/// The authentication check, which names the SMS service.
pub const AUTH_CHECK_URL: &'static str = "https://ztna.nju.edu.cn/passport/v1/auth/authCheck?clientType=SDPBrowserClient&platform=Mac&lang=en-US";

/// Where the SMS code is submitted.
pub const CHECK_SMS_URL: &'static str = "https://ztna.nju.edu.cn/passport/v1/auth/sms?action=checkcode&clientType=SDPBrowserClient&platform=Mac&lang=en-US";

/// Where the browser environment is reported.
pub const REPORT_ENV_URL: &'static str = "https://ztna.nju.edu.cn/controller/v1/public/reportEnv?clientType=SDPBrowserClient&platform=Mac&lang=en-US";

/// The origin of the unified authentication, which the `CASTGC` cookie belongs to.
pub const AUTH_SERVER_URL: &'static str = "https://authserver.nju.edu.cn";

/// The host of the unified authentication.
pub open spec fn authserver_host() -> Seq<char> {
    "authserver.nju.edu.cn"@
}

/// The path of the portal's shortcut page.
pub open spec fn shortcut_path() -> Seq<char> {
    "/portal/shortcut.html"@
}

/// The prefix of the shortcut page's address, as the unified authentication's
/// own login to the Web VPN tests the address it ends at.
pub open spec fn shortcut_prefix() -> Seq<char> {
    "https://ztna.nju.edu.cn/portal/shortcut.html"@
}

/// Which of the two logins to the Web VPN runs. Both take the same steps;
/// they tell the end of the unified authentication apart in their own ways
/// and name the passport's steps in their own words.
#[derive(Debug, Clone, Copy, PartialEq, Eq)]
pub enum LoginFlow {
    /// The Web VPN's own login, which can be saved and resumed.
    WebVpn,
    /// The login that the unified authentication runs for the command line.
    UnifiedAuth,
}

/// A step at which the passport answers with a code and a message.
#[derive(Debug, Clone, Copy, PartialEq, Eq)]
pub enum PassportStep {
    /// The first request for the authentication configuration.
    Config,
    /// The second request for it, for the CSRF token.
    CsrfConfig,
    /// The report of the browser environment.
    ReportEnv,
    /// The authentication check.
    AuthCheck,
    /// The request for an SMS code.
    SendSms,
}

/// How `flow` names `step` when the passport refuses it.
pub open spec fn step_name(flow: LoginFlow, step: PassportStep) -> Seq<char> {
    match flow {
        LoginFlow::WebVpn => match step {
            PassportStep::Config => "get Web VPN authentication config"@,
            PassportStep::CsrfConfig => "prepare Web VPN SMS verification"@,
            PassportStep::ReportEnv => "Web VPN rejected the browser environment"@,
            PassportStep::AuthCheck => "Web VPN authentication check failed"@,
            PassportStep::SendSms => "Web VPN failed to send the SMS code"@,
        },
        LoginFlow::UnifiedAuth => match step {
            PassportStep::Config => "Failed to get auth config from ztna"@,
            PassportStep::CsrfConfig => "Failed to get auth config from ztna for sending SMS"@,
            PassportStep::ReportEnv => "ztna rejected the browser environment report"@,
            PassportStep::AuthCheck => "Failed to get auth_id when trying to send SMS code"@,
            PassportStep::SendSms => "Failed to send SMS code"@,
        },
    }
}

/// The name of `step` in `flow`.
pub fn step_text(flow: LoginFlow, step: PassportStep) -> (r: &'static str)
    ensures
        r@ == step_name(flow, step),
{
    match flow {
        LoginFlow::WebVpn => match step {
            PassportStep::Config => "get Web VPN authentication config",
            PassportStep::CsrfConfig => "prepare Web VPN SMS verification",
            PassportStep::ReportEnv => "Web VPN rejected the browser environment",
            PassportStep::AuthCheck => "Web VPN authentication check failed",
            PassportStep::SendSms => "Web VPN failed to send the SMS code",
        },
        LoginFlow::UnifiedAuth => match step {
            PassportStep::Config => "Failed to get auth config from ztna",
            PassportStep::CsrfConfig => "Failed to get auth config from ztna for sending SMS",
            PassportStep::ReportEnv => "ztna rejected the browser environment report",
            PassportStep::AuthCheck => "Failed to get auth_id when trying to send SMS code",
            PassportStep::SendSms => "Failed to send SMS code",
        },
    }
}

/// Why the Web VPN login failed.
#[derive(Debug, Clone, PartialEq, Eq)]
pub enum VpnLoginError {
    /// The target URL has no Web VPN address.
    Url(WebVpnUrlError),
    /// Opening the target ended at this URL, not at the portal's shortcut page.
    UnexpectedTarget(String),
    /// The passport refused a step; the text names the step and its message.
    Rejected(String),
    /// The authentication configuration names no unified authentication URL.
    NoUnifiedAuthUrl,
    /// The unified authentication ended at this URL, not at the shortcut page.
    UnexpectedAuthRedirect(String),
    /// The shortcut page's URL has no `data` parameter.
    NoDataParameter,
    /// The `data` parameter holds no ticket.
    BadShortcutData,
    /// The passport offered no SMS authentication service.
    NoSmsService,
    /// An answer came that the current step does not expect.
    OutOfOrder,
    /// The login already has a session.
    AlreadyComplete,
    /// The submitted SMS code is empty.
    EmptySmsCode,
    /// The SMS code was accepted but no `sid` cookie was set.
    NoSid,
}

/// Where the login stands.
#[derive(Debug, Clone, PartialEq, Eq)]
pub enum LoginState {
    /// The target was requested through the Web VPN.
    OpeningTarget,
    /// The authentication configuration was requested.
    FetchingConfig,
    /// The unified authentication URL was requested.
    OpeningAuthserver,
    /// The unified authentication was asked to authorize the Web VPN.
    Authorizing,
    /// The shortcut page's data is being read.
    ReadingTicket,
    /// The configuration was requested again, for its CSRF token.
    FetchingCsrf { ticket: String },
    /// The browser environment was reported.
    ReportingEnv { csrf_token: String },
    /// The authentication check was requested.
    CheckingAuth { csrf_token: String },
    /// The SMS code was requested.
    SendingSms { csrf_token: String, auth_id: String },
    /// The SMS code was sent.
    Finished { csrf_token: String, auth_id: String },
    /// The login failed.
    Failed,
}

/// What came back from the last request.
pub enum LoginEvent {
    /// A page was opened and, after redirects, ended at this URL.
    Arrived(WebUrl),
    /// The authentication configuration: the answer's code and message, the
    /// unified authentication URLs and the CSRF token.
    Config { code: i32, message: String, first_auth: Vec<String>, csrf_token: String },
    /// The ticket read from the shortcut data, or `None` where it is not there.
    Ticket(Option<String>),
    /// A plain answer: its code and message.
    Answer { code: i32, message: String },
    /// The authentication check: its code, message and the IDs of the
    /// services offered, in order.
    AuthCheck { code: i32, message: String, auth_ids: Vec<String> },
}

/// The request to make next.
#[derive(Debug, Clone, PartialEq, Eq)]
pub enum LoginAction {
    /// Open this URL with a GET request.
    Get(String),
    /// Post the form `scope=user_profile` to this URL.
    Authorize(String),
    /// Read the ticket out of this JSON text.
    ParseShortcut(String),
    /// Post the browser environment with this ticket, CSRF token and device ID.
    ReportEnv { ticket: String, csrf_token: String, device_id: String },
    /// Request an SMS code from the service with this ID.
    SendSms { auth_id: String },
    /// The SMS code was sent; save the login and wait for the code.
    Finish,
    /// Stop with this error.
    Fail(VpnLoginError),
}

/// Whether the URL serialized as `u` is the portal's shortcut page.
pub open spec fn is_shortcut_url(u: Seq<char>) -> bool {
    spec_url_host(u) == Some(crate::webvpn::ztna_host()) && has_prefix(spec_url_path(u), shortcut_path())
}

/// Whether the unified authentication ended at the shortcut page, as `flow`
/// tells it: the Web VPN's own login by the host and the path, the unified
/// authentication's by the start of the whole address.
pub open spec fn reached_shortcut(flow: LoginFlow, u: Seq<char>) -> bool {
    match flow {
        LoginFlow::WebVpn => is_shortcut_url(u),
        LoginFlow::UnifiedAuth => has_prefix(u, shortcut_prefix()),
    }
}

/// The value of the first query pair named `data`.
pub open spec fn data_param(pairs: Seq<(Seq<char>, Seq<char>)>) -> Option<Seq<char>>
    decreases pairs.len(),
{
    if pairs.len() == 0 {
        None
    } else if pairs[0].0 == "data"@ {
        Some(pairs[0].1)
    } else {
        data_param(pairs.drop_first())
    }
}

/// The error text of a step that the passport refused.
pub open spec fn rejected(action: Seq<char>, message: Seq<char>) -> Seq<char> {
    action + ": "@ + message
}

/// Whether the URL `url` is the shortcut page.
fn shortcut_url(url: &WebUrl) -> (r: bool)
    ensures
        r == is_shortcut_url(url@),
{
    let host = match url.host_str() {
        Some(h) => h,
        None => return false,
    };
    let h = chars_of(host.as_str());
    let z = crate::webvpn::ztna_host_chars();
    if !chars_eq(h.as_slice(), z.as_slice()) {
        return false;
    }
    let p = chars_of(url.path().as_str());
    let s = chars_of("/portal/shortcut.html");
    starts_with(p.as_slice(), s.as_slice())
}

/// Whether `url` is where the unified authentication should end, as `flow` tells it.
fn reached(flow: LoginFlow, url: &WebUrl) -> (r: bool)
    ensures
        r == reached_shortcut(flow, url@),
{
    match flow {
        LoginFlow::WebVpn => shortcut_url(url),
        LoginFlow::UnifiedAuth => {
            let u = chars_of(url.as_str());
            let p = chars_of("https://ztna.nju.edu.cn/portal/shortcut.html");
            starts_with(u.as_slice(), p.as_slice())
        },
    }
}

/// The value of the first query pair of `url` named `data`.
fn find_data_param(url: &WebUrl) -> (r: Option<String>)
    ensures
        match data_param(spec_url_query_pairs(url@)) {
            Some(d) => r matches Some(s) && s@ == d,
            None => r is None,
        },
{
    let pairs = url.query_pairs();
    let ghost pv = spec_url_query_pairs(url@);
    let data = chars_of("data");
    assert(pv.skip(0) == pv);
    let mut i: usize = 0;
    while i < pairs.len()
        invariant
            i <= pairs@.len(),
            pv == pairs@.map_values(|p: (String, String)| (p.0@, p.1@)),
            pv == spec_url_query_pairs(url@),
            data@ == "data"@,
            data_param(pv) == data_param(pv.skip(i as int)),
        decreases pairs@.len() - i,
    {
        let name = chars_of(pairs[i].0.as_str());
        assert(pv[i as int] == (pairs@[i as int].0@, pairs@[i as int].1@));
        assert(pv.skip(i as int)[0] == pv[i as int]);
        assert(pv.skip(i as int).drop_first() == pv.skip(i + 1));
        if chars_eq(name.as_slice(), data.as_slice()) {
            assert(pv.skip(i as int)[0].0 == "data"@);
            let v = pairs[i].1.clone();
            assert(v@ == pv[i as int].1);
            assert(pv.skip(i as int).len() > 0);
            return Some(v);
        }
        i += 1;
    }
    assert(pv.skip(pairs@.len() as int).len() == 0);
    None
}

/// The text `"{action}: {message}"`.
fn rejection(action: &str, message: &str) -> (r: String)
    ensures
        r@ == rejected(action@, message@),
{
    let mut s = action.to_string();
    s.append(": ");
    s.append(message);
    s
}

/// The step after the shortcut page was reached at `url` (or not).
pub open spec fn after_auth_spec(flow: LoginFlow, url: Seq<char>, state: LoginState, action: LoginAction) -> bool {
    if reached_shortcut(flow, url) {
        match data_param(spec_url_query_pairs(url)) {
            Some(d) => state == LoginState::ReadingTicket && gets_parse(action, d),
            None => state == LoginState::Failed && action == LoginAction::Fail(
                VpnLoginError::NoDataParameter,
            ),
        }
    } else {
        state == LoginState::Failed && fails_redirect(action, url)
    }
}

/// Whether `action` is to read the ticket out of `data`.
pub open spec fn gets_parse(action: LoginAction, data: Seq<char>) -> bool {
    action matches LoginAction::ParseShortcut(s) && s@ == data
}

/// Whether `action` stops at the unexpected redirect to `url`.
pub open spec fn fails_redirect(action: LoginAction, url: Seq<char>) -> bool {
    action matches LoginAction::Fail(VpnLoginError::UnexpectedAuthRedirect(s)) && s@ == url
}

/// Whether `action` is a GET request of `url`.
pub open spec fn gets(action: LoginAction, url: Seq<char>) -> bool {
    action matches LoginAction::Get(s) && s@ == url
}

/// Whether `action` stops with the refusal `text`.
pub open spec fn fails_rejected(action: LoginAction, text: Seq<char>) -> bool {
    action matches LoginAction::Fail(VpnLoginError::Rejected(s)) && s@ == text
}

fn after_auth(flow: LoginFlow, url: &WebUrl) -> (r: (LoginState, LoginAction))
    ensures
        after_auth_spec(flow, url@, r.0, r.1),
{
    if !reached(flow, url) {
        return (
            LoginState::Failed,
            LoginAction::Fail(VpnLoginError::UnexpectedAuthRedirect(url.as_str().to_string())),
        );
    }
    match find_data_param(url) {
        Some(d) => (LoginState::ReadingTicket, LoginAction::ParseShortcut(d)),
        None => (LoginState::Failed, LoginAction::Fail(VpnLoginError::NoDataParameter)),
    }
}

/// Whether the login went from `state` on `event` to `next` with `action`.
pub open spec fn login_step_spec(
    flow: LoginFlow,
    state: LoginState,
    event: LoginEvent,
    device_id: Seq<char>,
    next: LoginState,
    action: LoginAction,
) -> bool {
    match (state, event) {
        (LoginState::OpeningTarget, LoginEvent::Arrived(u)) => if is_shortcut_url(u@) {
            next == LoginState::FetchingConfig && gets(action, AUTH_CONFIG_URL@)
        } else {
            next == LoginState::Failed && (action matches LoginAction::Fail(
                VpnLoginError::UnexpectedTarget(s),
            ) && s@ == u@)
        },
        (LoginState::FetchingConfig, LoginEvent::Config { code, message, first_auth, .. }) => if code
            != 0 {
            next == LoginState::Failed && fails_rejected(
                action,
                rejected(step_name(flow, PassportStep::Config), message@),
            )
        } else if first_auth@.len() == 0 {
            next == LoginState::Failed && action == LoginAction::Fail(
                VpnLoginError::NoUnifiedAuthUrl,
            )
        } else {
            next == LoginState::OpeningAuthserver && gets(action, first_auth@[0]@)
        },
        (LoginState::OpeningAuthserver, LoginEvent::Arrived(u)) => if spec_url_host(u@) == Some(
            authserver_host(),
        ) {
            next == LoginState::Authorizing && (action matches LoginAction::Authorize(s) && s@
                == u@)
        } else {
            after_auth_spec(flow, u@, next, action)
        },
        (LoginState::Authorizing, LoginEvent::Arrived(u)) => after_auth_spec(flow, u@, next, action),
        (LoginState::ReadingTicket, LoginEvent::Ticket(t)) => match t {
            Some(ticket) => next == LoginState::FetchingCsrf { ticket } && gets(
                action,
                AUTH_CONFIG_URL@,
            ),
            None => next == LoginState::Failed && action == LoginAction::Fail(
                VpnLoginError::BadShortcutData,
            ),
        },
        (
            LoginState::FetchingCsrf { ticket },
            LoginEvent::Config { code, message, csrf_token, .. },
        ) => if code != 0 {
            next == LoginState::Failed && fails_rejected(
                action,
                rejected(step_name(flow, PassportStep::CsrfConfig), message@),
            )
        } else {
            next == LoginState::ReportingEnv { csrf_token } && (action matches LoginAction::ReportEnv {
                ticket: t,
                csrf_token: c,
                device_id: d,
            } && t == ticket && c == csrf_token && d@ == device_id)
        },
        (LoginState::ReportingEnv { csrf_token }, LoginEvent::Answer { code, message }) => if code
            != 0 {
            next == LoginState::Failed && fails_rejected(
                action,
                rejected(step_name(flow, PassportStep::ReportEnv), message@),
            )
        } else {
            next == LoginState::CheckingAuth { csrf_token } && gets(action, AUTH_CHECK_URL@)
        },
        (
            LoginState::CheckingAuth { csrf_token },
            LoginEvent::AuthCheck { code, message, auth_ids },
        ) => if code != 0 {
            next == LoginState::Failed && fails_rejected(
                action,
                rejected(step_name(flow, PassportStep::AuthCheck), message@),
            )
        } else if auth_ids@.len() == 0 {
            next == LoginState::Failed && action == LoginAction::Fail(VpnLoginError::NoSmsService)
        } else {
            next == LoginState::SendingSms { csrf_token, auth_id: auth_ids@[0] } && action
                == LoginAction::SendSms { auth_id: auth_ids@[0] }
        },
        (LoginState::SendingSms { csrf_token, auth_id }, LoginEvent::Answer { code, message }) => if code
            != 0 {
            next == LoginState::Failed && fails_rejected(
                action,
                rejected(step_name(flow, PassportStep::SendSms), message@),
            )
        } else {
            next == LoginState::Finished { csrf_token, auth_id } && action == LoginAction::Finish
        },
        _ => next == LoginState::Failed && action == LoginAction::Fail(VpnLoginError::OutOfOrder),
    }
}

/// The first step of a login to `target_url`: the Web VPN address of the
/// target, which is opened first.
pub fn begin_login(target_url: &WebUrl) -> (r: Result<(WebUrl, LoginState, LoginAction), VpnLoginError>)
    ensures
        match spec_url_host(target_url@) {
            None => r == Err::<(WebUrl, LoginState, LoginAction), VpnLoginError>(
                VpnLoginError::Url(WebVpnUrlError::NoHost),
            ),
            Some(host) => match spec_url_set_host(target_url@, web_vpn_host(host)) {
                Some(u) => r matches Ok((v, state, action)) && v@ == u && state
                    == LoginState::OpeningTarget && gets(action, u),
                None => r == Err::<(WebUrl, LoginState, LoginAction), VpnLoginError>(
                    VpnLoginError::Url(WebVpnUrlError::InvalidHost),
                ),
            },
        },
{
    match web_vpn_url(target_url) {
        Ok(u) => {
            let get = LoginAction::Get(u.as_str().to_string());
            Ok((u, LoginState::OpeningTarget, get))
        },
        Err(e) => Err(VpnLoginError::Url(e)),
    }
}

/// The next step of the login `flow`, from where it stands and what came
/// back; `device_id` is the ID under which the browser environment is reported.
pub fn login_step(flow: LoginFlow, state: LoginState, event: LoginEvent, device_id: &str) -> (r: (LoginState, LoginAction))
    ensures
        login_step_spec(flow, state, event, device_id@, r.0, r.1),
{
    match (state, event) {
        (LoginState::OpeningTarget, LoginEvent::Arrived(u)) => {
            if shortcut_url(&u) {
                (LoginState::FetchingConfig, LoginAction::Get(AUTH_CONFIG_URL.to_string()))
            } else {
                (
                    LoginState::Failed,
                    LoginAction::Fail(VpnLoginError::UnexpectedTarget(u.as_str().to_string())),
                )
            }
        },
        (LoginState::FetchingConfig, LoginEvent::Config { code, message, first_auth, .. }) => {
            if code != 0 {
                let s = rejection(step_text(flow, PassportStep::Config), message.as_str());
                (LoginState::Failed, LoginAction::Fail(VpnLoginError::Rejected(s)))
            } else if first_auth.len() == 0 {
                (LoginState::Failed, LoginAction::Fail(VpnLoginError::NoUnifiedAuthUrl))
            } else {
                (LoginState::OpeningAuthserver, LoginAction::Get(first_auth[0].clone()))
            }
        },
        (LoginState::OpeningAuthserver, LoginEvent::Arrived(u)) => {
            let on_authserver = match u.host_str() {
                Some(h) => {
                    let hc = chars_of(h.as_str());
                    let a = chars_of("authserver.nju.edu.cn");
                    chars_eq(hc.as_slice(), a.as_slice())
                },
                None => false,
            };
            if on_authserver {
                (LoginState::Authorizing, LoginAction::Authorize(u.as_str().to_string()))
            } else {
                after_auth(flow, &u)
            }
        },
        (LoginState::Authorizing, LoginEvent::Arrived(u)) => after_auth(flow, &u),
        (LoginState::ReadingTicket, LoginEvent::Ticket(t)) => match t {
            Some(ticket) => (
                LoginState::FetchingCsrf { ticket },
                LoginAction::Get(AUTH_CONFIG_URL.to_string()),
            ),
            None => (LoginState::Failed, LoginAction::Fail(VpnLoginError::BadShortcutData)),
        },
        (LoginState::FetchingCsrf { ticket }, LoginEvent::Config { code, message, csrf_token, .. }) => {
            if code != 0 {
                let s = rejection(step_text(flow, PassportStep::CsrfConfig), message.as_str());
                (LoginState::Failed, LoginAction::Fail(VpnLoginError::Rejected(s)))
            } else {
                let device_id = device_id.to_string();
                let c = csrf_token.clone();
                (
                    LoginState::ReportingEnv { csrf_token },
                    LoginAction::ReportEnv { ticket, csrf_token: c, device_id },
                )
            }
        },
        (LoginState::ReportingEnv { csrf_token }, LoginEvent::Answer { code, message }) => {
            if code != 0 {
                let s = rejection(step_text(flow, PassportStep::ReportEnv), message.as_str());
                (LoginState::Failed, LoginAction::Fail(VpnLoginError::Rejected(s)))
            } else {
                (LoginState::CheckingAuth { csrf_token }, LoginAction::Get(AUTH_CHECK_URL.to_string()))
            }
        },
        (LoginState::CheckingAuth { csrf_token }, LoginEvent::AuthCheck { code, message, auth_ids }) => {
            if code != 0 {
                let s = rejection(step_text(flow, PassportStep::AuthCheck), message.as_str());
                (LoginState::Failed, LoginAction::Fail(VpnLoginError::Rejected(s)))
            } else if auth_ids.len() == 0 {
                (LoginState::Failed, LoginAction::Fail(VpnLoginError::NoSmsService))
            } else {
                let id = auth_ids[0].clone();
                let id2 = auth_ids[0].clone();
                (
                    LoginState::SendingSms { csrf_token, auth_id: id },
                    LoginAction::SendSms { auth_id: id2 },
                )
            }
        },
        (LoginState::SendingSms { csrf_token, auth_id }, LoginEvent::Answer { code, message }) => {
            if code != 0 {
                let s = rejection(step_text(flow, PassportStep::SendSms), message.as_str());
                (LoginState::Failed, LoginAction::Fail(VpnLoginError::Rejected(s)))
            } else {
                (LoginState::Finished { csrf_token, auth_id }, LoginAction::Finish)
            }
        },
        _ => (LoginState::Failed, LoginAction::Fail(VpnLoginError::OutOfOrder)),
    }
}

/// The address that asks for an SMS code.
pub const SEND_SMS_URL: &'static str = "https://ztna.nju.edu.cn/passport/v1/auth/sms";

/// The query of the request for an SMS code from the service `auth_id`.
pub open spec fn send_sms_params(auth_id: Seq<char>) -> Seq<(Seq<char>, Seq<char>)> {
    seq![
        ("action"@, "sendsms"@),
        ("clientType"@, "SDPBrowserClient"@),
        ("platform"@, "Mac"@),
        ("lang"@, "en-US"@),
        ("isPrevEffect"@, "0"@),
        ("taskId"@, ""@),
        ("authId"@, auth_id),
    ]
}

/// The address of the request for an SMS code from the service `auth_id`.
pub fn send_sms_url(auth_id: &str) -> (r: Option<WebUrl>)
    ensures
        r matches Some(u) ==> spec_url_parse_with_params(SEND_SMS_URL@, send_sms_params(auth_id@)) == Some(u@),
        r is None <==> spec_url_parse_with_params(SEND_SMS_URL@, send_sms_params(auth_id@)) is None,
{
    let params: Vec<(String, String)> = vec![
        ("action".to_string(), "sendsms".to_string()),
        ("clientType".to_string(), "SDPBrowserClient".to_string()),
        ("platform".to_string(), "Mac".to_string()),
        ("lang".to_string(), "en-US".to_string()),
        ("isPrevEffect".to_string(), "0".to_string()),
        ("taskId".to_string(), "".to_string()),
        ("authId".to_string(), auth_id.to_string()),
    ];
    assert(pairs_view(params@) =~= send_sms_params(auth_id@));
    WebUrl::parse_with_params(SEND_SMS_URL, &params)
}

/// The `Set-Cookie` text that puts the unified authentication's `CASTGC`
/// cookie into a new session.
pub open spec fn castgc_cookie_spec(castgc: Seq<char>) -> Seq<char> {
    "CASTGC="@ + castgc + "; Path=/authserver; Secure; HttpOnly"@
}

/// The `Set-Cookie` text of the `CASTGC` cookie `castgc`, for the origin
/// [`AUTH_SERVER_URL`].
pub fn castgc_cookie(castgc: &str) -> (r: String)
    ensures
        r@ == castgc_cookie_spec(castgc@),
{
    let mut s = "CASTGC=".to_string();
    s.append(castgc);
    s.append("; Path=/authserver; Secure; HttpOnly");
    s
}

/// A new device ID for the Web VPN, in the shape of the aTrust web client's.
pub fn generate_device_id() -> (r: String)
    ensures
        is_vpn_device_id(r@),
{
    generate_vpn_device_id()
}

/// A Web VPN login that sent its SMS code, as it is saved between the two
/// steps: the Web VPN address of the target, the session ID once the code is
/// accepted, and what the code's submission needs.
#[derive(Debug)]
pub struct LoginOperation {
    pub web_vpn_url: WebUrl,
    pub sid: Option<String>,
    pub csrf_token: String,
    pub auth_id: String,
}

/// What [`LoginOperation::sms_code`] gives for a login whose session is `sid`.
pub open spec fn sms_code_spec(sid: Option<String>, code: Seq<char>) -> Result<Seq<char>, VpnLoginError> {
    if sid is Some {
        Err(VpnLoginError::AlreadyComplete)
    } else if trim(code).len() == 0 {
        Err(VpnLoginError::EmptySmsCode)
    } else {
        Ok(trim(code))
    }
}

impl LoginOperation {
    /// The login that waits for its SMS code once the start of the login
    /// reached `state`: only a finished start gives one.
    pub fn from_finished(web_vpn_url: WebUrl, state: LoginState) -> (r: Option<LoginOperation>)
        ensures
            match state {
                LoginState::Finished { csrf_token, auth_id } => r matches Some(op) && op.web_vpn_url@
                    == web_vpn_url@ && op.sid is None && op.csrf_token == csrf_token && op.auth_id
                    == auth_id,
                _ => r is None,
            },
    {
        match state {
            LoginState::Finished { csrf_token, auth_id } => Some(
                LoginOperation { web_vpn_url, sid: None, csrf_token, auth_id },
            ),
            _ => None,
        }
    }

    /// The SMS code to submit: `code` without surrounding whitespace. A login
    /// that has its session, or an empty code, is refused.
    pub fn sms_code(&self, code: &str) -> (r: Result<String, VpnLoginError>)
        ensures
            match sms_code_spec(self.sid, code@) {
                Ok(c) => r matches Ok(s) && s@ == c,
                Err(e) => r == Err::<String, VpnLoginError>(e),
            },
    {
        if self.sid.is_some() {
            return Err(VpnLoginError::AlreadyComplete);
        }
        let c = chars_of(code);
        let t = trim_chars(c.as_slice());
        if t.len() == 0 {
            return Err(VpnLoginError::EmptySmsCode);
        }
        Ok(string_of(t.as_slice()))
    }

    /// Reads the answer to the submitted code, with the `sid` cookie found
    /// after it: an accepted code with a session completes the login.
    pub fn finish_sms(&mut self, code: i32, message: &str, sid: Option<String>) -> (r: Result<(), VpnLoginError>)
        ensures
            final(self).web_vpn_url == old(self).web_vpn_url,
            final(self).csrf_token == old(self).csrf_token,
            final(self).auth_id == old(self).auth_id,
            code != 0 ==> (r matches Err(VpnLoginError::Rejected(t)) && t@ == rejected(
                "Web VPN rejected the SMS verification code"@,
                message@,
            )) && final(self).sid == old(self).sid,
            code == 0 && sid is None ==> r == Err::<(), VpnLoginError>(VpnLoginError::NoSid)
                && final(self).sid == old(self).sid,
            code == 0 && sid is Some ==> r is Ok && final(self).sid == sid,
    {
        if code != 0 {
            let t = rejection("Web VPN rejected the SMS verification code", message);
            return Err(VpnLoginError::Rejected(t));
        }
        match sid {
            Some(s) => {
                self.sid = Some(s);
                Ok(())
            },
            None => Err(VpnLoginError::NoSid),
        }
    }
}

/// A login is completed once: while it holds a session, every further SMS
/// code is refused as coming too late.
pub proof fn lemma_login_completes_once(sid: String, next_code: Seq<char>)
    ensures
        sms_code_spec(Some(sid), next_code) == Err::<Seq<char>, VpnLoginError>(
            VpnLoginError::AlreadyComplete,
        ),
{
}

/// A failed login stays failed: whatever comes back afterwards, it makes no
/// further request.
pub proof fn lemma_failed_is_final(
    flow: LoginFlow,
    event: LoginEvent,
    device_id: Seq<char>,
    next: LoginState,
    action: LoginAction,
)
    requires
        login_step_spec(flow, LoginState::Failed, event, device_id, next, action),
    ensures
        next == LoginState::Failed,
        action == LoginAction::Fail(VpnLoginError::OutOfOrder),
{
}

/// An SMS code is requested only right after the passport's authentication
/// check succeeded, from the first service it offered.
pub proof fn lemma_sms_only_after_auth_check(
    flow: LoginFlow,
    state: LoginState,
    event: LoginEvent,
    device_id: Seq<char>,
    next: LoginState,
    action: LoginAction,
)
    requires
        login_step_spec(flow, state, event, device_id, next, action),
        (action is SendSms),
    ensures
        (state is CheckingAuth),
        (event matches LoginEvent::AuthCheck { code, auth_ids, .. } && code == 0 && auth_ids@.len()
            > 0 && action == LoginAction::SendSms { auth_id: auth_ids@[0] }),
{
}

/// The browser environment is reported only with the ticket of the unified
/// authentication, the CSRF token of the passport and the device ID the
/// caller gave.
pub proof fn lemma_report_carries_ticket(
    flow: LoginFlow,
    state: LoginState,
    event: LoginEvent,
    device_id: Seq<char>,
    next: LoginState,
    action: LoginAction,
)
    requires
        login_step_spec(flow, state, event, device_id, next, action),
        (action is ReportEnv),
    ensures
        (state matches LoginState::FetchingCsrf { ticket } && action->ReportEnv_ticket == ticket),
        (event matches LoginEvent::Config { code, csrf_token, .. } && code == 0
            && action->ReportEnv_csrf_token == csrf_token),
        action->ReportEnv_device_id@ == device_id,
{
}

/// The ticket is read only out of the `data` parameter of the address at
/// which the unified authentication ended, and only where that address is
/// the shortcut page as the running login tells it.
pub proof fn lemma_ticket_only_from_shortcut(
    flow: LoginFlow,
    state: LoginState,
    event: LoginEvent,
    device_id: Seq<char>,
    next: LoginState,
    action: LoginAction,
)
    requires
        login_step_spec(flow, state, event, device_id, next, action),
        (action is ParseShortcut),
    ensures
        (state is OpeningAuthserver || state is Authorizing),
        (event matches LoginEvent::Arrived(u) && reached_shortcut(flow, u@) && data_param(
            spec_url_query_pairs(u@),
        ) == Some(action->ParseShortcut_0@)),
        next == LoginState::ReadingTicket,
{
}

/// Where the request to the unified authentication ends away from its own
/// host, as when the user had authorized the Web VPN before, no consent is
/// posted and the login goes on as after authorizing: at the shortcut page
/// it reads the `data` parameter, at a shortcut page without one it stops
/// for that, and anywhere else it stops at the unexpected address.
pub proof fn lemma_authorized_before_reads_ticket(
    flow: LoginFlow,
    u: WebUrl,
    device_id: Seq<char>,
    next: LoginState,
    action: LoginAction,
)
    requires
        login_step_spec(flow, LoginState::OpeningAuthserver, LoginEvent::Arrived(u), device_id, next, action),
        spec_url_host(u@) != Some(authserver_host()),
    ensures
        reached_shortcut(flow, u@) && data_param(spec_url_query_pairs(u@)) is Some ==> next
            == LoginState::ReadingTicket && (action matches LoginAction::ParseShortcut(d) && Some(d@)
            == data_param(spec_url_query_pairs(u@))),
        reached_shortcut(flow, u@) && data_param(spec_url_query_pairs(u@)) is None ==> next
            == LoginState::Failed && action == LoginAction::Fail(VpnLoginError::NoDataParameter),
        !reached_shortcut(flow, u@) ==> next == LoginState::Failed && (action matches LoginAction::Fail(
            VpnLoginError::UnexpectedAuthRedirect(s),
        ) && s@ == u@),
        !(action is Authorize),
{
}

/// The answer of the unified authentication is read the same way whether
/// the consent was posted first or not: away from the unified
/// authentication's host, a step from the request itself and a step after
/// authorizing that see the same address end alike.
pub proof fn lemma_consent_changes_nothing_after(
    flow: LoginFlow,
    u: WebUrl,
    device_id: Seq<char>,
    next1: LoginState,
    action1: LoginAction,
    next2: LoginState,
    action2: LoginAction,
)
    requires
        login_step_spec(flow, LoginState::OpeningAuthserver, LoginEvent::Arrived(u), device_id, next1, action1),
        login_step_spec(flow, LoginState::Authorizing, LoginEvent::Arrived(u), device_id, next2, action2),
        spec_url_host(u@) != Some(authserver_host()),
    ensures
        next1 == next2,
        action1 is ParseShortcut <==> action2 is ParseShortcut,
        action1 is ParseShortcut ==> action1->ParseShortcut_0@ == action2->ParseShortcut_0@,
        action1 is Fail <==> action2 is Fail,
{
}

/// The login finishes only when the passport accepted the request for the
/// SMS code, and it then keeps the CSRF token and the service it used.
pub proof fn lemma_finish_only_after_sms(
    flow: LoginFlow,
    state: LoginState,
    event: LoginEvent,
    device_id: Seq<char>,
    next: LoginState,
    action: LoginAction,
)
    requires
        login_step_spec(flow, state, event, device_id, next, action),
        action == LoginAction::Finish,
    ensures
        (state matches LoginState::SendingSms { csrf_token, auth_id } && next
            == LoginState::Finished { csrf_token, auth_id }),
        (event matches LoginEvent::Answer { code, .. } && code == 0),
{
}

/// The session of a Web VPN login completed through the unified
/// authentication's interactive flow: the SMS code is submitted as it was
/// read, the answer is not judged, and the login holds exactly where the
/// portal set a `sid` cookie, whose value is the session.
pub fn session_from_sid(sid: Option<String>) -> (r: Result<String, VpnLoginError>)
    ensures
        match sid {
            Some(s) => r == Ok::<String, VpnLoginError>(s),
            None => r == Err::<String, VpnLoginError>(VpnLoginError::NoSid),
        },
{
    match sid {
        Some(s) => Ok(s),
        None => Err(VpnLoginError::NoSid),
    }
}

} // verus!
