//! The `login` and `login-vpn` commands, and the kind of client each other
//! command runs with.

use vstd::prelude::*;
use crate::text::{chars_eq, chars_of, contains, contains_exec};

verus! {

broadcast use vstd::string::group_string_axioms;

/// The host that the ehall application page ends at when the saved login
/// still holds.
pub const EHALL_HOST: &'static str = "ehallapp.nju.edu.cn";

/// The host that a page opened through the Web VPN ends at when the saved
/// session still holds.
pub const VPN_TEST_HOST: &'static str = "www-nju-edu-cn-s.atrust.nju.edu.cn";

/// `nju-cli login`: test the saved login, save a given `CASTGC` cookie, or
/// log in with a user name and password.
pub struct LoginCommand {
    pub test: bool,
    pub username: Option<String>,
    pub password: Option<String>,
    pub castgc: Option<String>,
}

/// `nju-cli login-vpn`: test the saved session, start a login, or submit
/// the SMS code of a started one.
pub struct VpnLoginCommand {
    pub test: bool,
    pub sms_code: Option<String>,
}

/// How the client of a command reaches the sites.
#[derive(Debug, Clone, Copy, PartialEq, Eq, Structural)]
pub enum ClientMode {
    /// Directly, without a login.
    Direct,
    /// Directly, with the saved unified authentication login.
    Authenticated,
    /// Through the Web VPN, with its saved session.
    WebVpn,
}

/// Why a command of the tool could not run.
#[derive(Debug, Clone, Copy, PartialEq, Eq, Structural)]
pub enum CliError {
    /// No user name was given, neither as option nor in the environment.
    MissingUsername,
    /// No password was given, neither as option nor in the environment.
    MissingPassword,
    /// The saved Web VPN login has no session yet.
    VpnIncomplete,
    /// The saved unified authentication login is missing or expired.
    NotLoggedIn,
}

/// What `nju-cli login` does.
#[derive(Debug, Clone, PartialEq, Eq)]
pub enum LoginPlan {
    /// Check whether the saved login still holds.
    Test,
    /// Save this `CASTGC` cookie.
    Save(String),
    /// Log in with this user name and password and save the cookie.
    Login { username: String, password: String },
}

/// What `nju-cli login` does with `command`, where the environment gives
/// `env_username` and `env_password`: an option wins over the environment.
pub fn login_plan(command: LoginCommand, env_username: Option<String>, env_password: Option<String>) -> (r: Result<LoginPlan, CliError>)
    ensures
        command.test ==> r == Ok::<LoginPlan, CliError>(LoginPlan::Test),
        !command.test && command.castgc is Some ==> r == Ok::<LoginPlan, CliError>(
            LoginPlan::Save(command.castgc->0),
        ),
        !command.test && command.castgc is None ==> ({
            let u = if command.username is Some { command.username } else { env_username };
            let p = if command.password is Some { command.password } else { env_password };
            if u is None {
                r == Err::<LoginPlan, CliError>(CliError::MissingUsername)
            } else if p is None {
                r == Err::<LoginPlan, CliError>(CliError::MissingPassword)
            } else {
                r == Ok::<LoginPlan, CliError>(LoginPlan::Login { username: u->0, password: p->0 })
            }
        }),
{
    if command.test {
        return Ok(LoginPlan::Test);
    }
    if let Some(castgc) = command.castgc {
        return Ok(LoginPlan::Save(castgc));
    }
    let username = match command.username {
        Some(u) => u,
        None => match env_username {
            Some(u) => u,
            None => return Err(CliError::MissingUsername),
        },
    };
    let password = match command.password {
        Some(p) => p,
        None => match env_password {
            Some(p) => p,
            None => return Err(CliError::MissingPassword),
        },
    };
    Ok(LoginPlan::Login { username, password })
}

/// What `nju-cli login-vpn` does.
#[derive(Debug, Clone, PartialEq, Eq)]
pub enum VpnLoginPlan {
    /// Check whether the saved session still holds.
    Test,
    /// Start a login, which sends an SMS code.
    Start,
    /// Submit this SMS code to the started login.
    Submit(String),
}

/// What `nju-cli login-vpn` does with `command`.
pub fn vpn_login_plan(command: VpnLoginCommand) -> (r: VpnLoginPlan)
    ensures
        command.test ==> r == VpnLoginPlan::Test,
        !command.test && command.sms_code is None ==> r == VpnLoginPlan::Start,
        !command.test && command.sms_code is Some ==> r == VpnLoginPlan::Submit(
            command.sms_code->0,
        ),
{
    if command.test {
        return VpnLoginPlan::Test;
    }
    match command.sms_code {
        None => VpnLoginPlan::Start,
        Some(code) => VpnLoginPlan::Submit(code),
    }
}

/// The client modes of the commands that need no login and of those that
/// need one: with `--vpn` both go through the Web VPN.
pub fn client_modes(vpn: bool) -> (r: (ClientMode, ClientMode))
    ensures
        vpn ==> r == (ClientMode::WebVpn, ClientMode::WebVpn),
        !vpn ==> r == (ClientMode::Direct, ClientMode::Authenticated),
{
    if vpn {
        (ClientMode::WebVpn, ClientMode::WebVpn)
    } else {
        (ClientMode::Direct, ClientMode::Authenticated)
    }
}

/// Checks that a saved Web VPN login has its session.
pub fn check_vpn_session(sid: &Option<String>) -> (r: Result<(), CliError>)
    ensures
        sid is Some ==> r is Ok,
        sid is None ==> r == Err::<(), CliError>(CliError::VpnIncomplete),
{
    match sid {
        Some(_) => Ok(()),
        None => Err(CliError::VpnIncomplete),
    }
}

/// Checks the page that the login URL shows with the saved cookie: where it
/// still holds the password form, the login is missing or expired.
pub fn check_login_page(page: &str) -> (r: Result<(), CliError>)
    ensures
        contains(page@, "pwdFromId"@) ==> r == Err::<(), CliError>(CliError::NotLoggedIn),
        !contains(page@, "pwdFromId"@) ==> r is Ok,
{
    let p = chars_of(page);
    let form = chars_of("pwdFromId");
    if contains_exec(p.as_slice(), form.as_slice()) {
        Err(CliError::NotLoggedIn)
    } else {
        Ok(())
    }
}

/// Whether a test page that ended at `final_host` shows a valid login: it
/// must end at `expected_host`.
pub fn is_logged_in(final_host: Option<&str>, expected_host: &str) -> (r: bool)
    ensures
        r == (final_host matches Some(h) && h@ == expected_host@),
{
    match final_host {
        Some(h) => {
            let a = chars_of(h);
            let b = chars_of(expected_host);
            chars_eq(a.as_slice(), b.as_slice())
        },
        None => false,
    }
}

/// The cookie text that gives a client the saved `CASTGC` login.
pub fn castgc_cookie_pair(castgc: &str) -> (r: String)
    ensures
        r@ == "CASTGC="@ + castgc@,
{
    let mut s = "CASTGC=".to_string();
    s.append(castgc);
    s
}

} // verus!
