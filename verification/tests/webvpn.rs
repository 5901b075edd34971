use nju_cli::auth::device::is_valid_vpn_device_id;
use nju_cli::weburl::WebUrl;
use nju_cli::webvpn::login::{
    begin_login, castgc_cookie, generate_device_id, login_step, send_sms_url, session_from_sid,
    LoginAction, LoginEvent, LoginFlow,
    LoginOperation, LoginState, VpnLoginError, AUTH_CHECK_URL, AUTH_CONFIG_URL,
};
use nju_cli::webvpn::{routed_url, web_vpn_url, WebVpnMiddleware, WebVpnUrlError};

fn url(s: &str) -> WebUrl {
    WebUrl::parse(s).unwrap()
}

#[test]
fn rewrites_an_original_url() {
    let url = url("https://foo-bar.nju.edu.cn/a?q=1");
    assert_eq!(
        routed_url(&url).unwrap().as_str(),
        "https://foo--bar-nju-edu-cn.atrust.nju.edu.cn/a?q=1"
    );
}

#[test]
fn leaves_web_vpn_urls_unchanged() {
    for s in [
        "https://foo-nju-edu-cn.atrust.nju.edu.cn/a",
        "https://ztna.nju.edu.cn/portal/shortcut.html",
    ] {
        let url = url(s);
        assert_eq!(routed_url(&url).unwrap().as_str(), url.as_str());
    }
}

#[test]
fn encodes_target_host_for_atrust() {
    let target = url("https://foo-bar.example.nju.edu.cn/a?q=1");
    assert_eq!(
        web_vpn_url(&target).unwrap().as_str(),
        "https://foo--bar-example-nju-edu-cn.atrust.nju.edu.cn/a?q=1"
    );
}

#[test]
fn device_ids_match_the_browser_shape() {
    for _ in 0..100 {
        let device_id = generate_device_id();
        assert_eq!(device_id.len(), 67);
        assert!(device_id.starts_with("00"));
        assert_ne!(device_id.as_bytes()[2], b'0');
        assert!(device_id.bytes().all(|byte| byte.is_ascii_hexdigit()));
    }
}

#[test]
fn middleware_routes_like_routed_url() {
    let middleware = WebVpnMiddleware;
    assert_eq!(
        middleware.route(&url("https://ehall.nju.edu.cn/")).unwrap().as_str(),
        "https://ehall-nju-edu-cn.atrust.nju.edu.cn/"
    );
    assert_eq!(
        middleware
            .route(&url("https://ztna.nju.edu.cn/portal/shortcut.html"))
            .unwrap()
            .as_str(),
        "https://ztna.nju.edu.cn/portal/shortcut.html"
    );
    assert!(matches!(
        routed_url(&url("mailto:someone@nju.edu.cn")),
        Err(WebVpnUrlError::NoHost)
    ));
}

#[test]
fn builds_the_castgc_cookie() {
    assert_eq!(
        castgc_cookie("TGT-1"),
        "CASTGC=TGT-1; Path=/authserver; Secure; HttpOnly"
    );
}

const DEVICE_ID: &str = "00a1bbbbbbbbbbbbbbbbbbbbbbbbbbbbbbbbbbbbbbbbbbbbbbbbbbbbbbbbbbbbbbb";

fn step(state: LoginState, event: LoginEvent) -> (LoginState, LoginAction) {
    login_step(LoginFlow::WebVpn, state, event, DEVICE_ID)
}

fn unified_step(state: LoginState, event: LoginEvent) -> (LoginState, LoginAction) {
    login_step(LoginFlow::UnifiedAuth, state, event, DEVICE_ID)
}

fn get_url(action: &LoginAction) -> String {
    match action {
        LoginAction::Get(u) => u.clone(),
        other => panic!("expected a GET request, got {other:?}"),
    }
}

#[test]
fn walks_through_the_whole_login() {
    let (vpn_url, state, action) = begin_login(&url("https://ehall.nju.edu.cn/")).unwrap();
    assert_eq!(vpn_url.as_str(), "https://ehall-nju-edu-cn.atrust.nju.edu.cn/");
    assert_eq!(get_url(&action), "https://ehall-nju-edu-cn.atrust.nju.edu.cn/");

    let (state, action) = step(
        state,
        LoginEvent::Arrived(url("https://ztna.nju.edu.cn/portal/shortcut.html#/login")),
    );
    assert_eq!(state, LoginState::FetchingConfig);
    assert_eq!(get_url(&action), AUTH_CONFIG_URL);

    let (state, action) = step(
        state,
        LoginEvent::Config {
            code: 0,
            message: String::new(),
            first_auth: vec!["https://authserver.nju.edu.cn/authserver/oauth2.0/authorize".to_string()],
            csrf_token: String::new(),
        },
    );
    assert_eq!(state, LoginState::OpeningAuthserver);
    assert_eq!(
        get_url(&action),
        "https://authserver.nju.edu.cn/authserver/oauth2.0/authorize"
    );

    let (state, action) = step(
        state,
        LoginEvent::Arrived(url("https://authserver.nju.edu.cn/authserver/oauth2.0/authorize?x=1")),
    );
    assert_eq!(state, LoginState::Authorizing);
    assert_eq!(
        action,
        LoginAction::Authorize("https://authserver.nju.edu.cn/authserver/oauth2.0/authorize?x=1".to_string())
    );

    let (state, action) = step(
        state,
        LoginEvent::Arrived(url(
            "https://ztna.nju.edu.cn/portal/shortcut.html?a=1&data=%7B%22ticket%22%3A%22t1%22%7D",
        )),
    );
    assert_eq!(state, LoginState::ReadingTicket);
    assert_eq!(action, LoginAction::ParseShortcut("{\"ticket\":\"t1\"}".to_string()));

    let (state, action) = step(state, LoginEvent::Ticket(Some("t1".to_string())));
    assert_eq!(state, LoginState::FetchingCsrf { ticket: "t1".to_string() });
    assert_eq!(get_url(&action), AUTH_CONFIG_URL);

    let (state, action) = step(
        state,
        LoginEvent::Config {
            code: 0,
            message: String::new(),
            first_auth: Vec::new(),
            csrf_token: "csrf".to_string(),
        },
    );
    assert_eq!(state, LoginState::ReportingEnv { csrf_token: "csrf".to_string() });
    match action {
        LoginAction::ReportEnv { ticket, csrf_token, device_id } => {
            assert_eq!(ticket, "t1");
            assert_eq!(csrf_token, "csrf");
            assert_eq!(device_id, DEVICE_ID);
            assert!(is_valid_vpn_device_id(&device_id));
        }
        other => panic!("expected an environment report, got {other:?}"),
    }

    let (state, action) = step(state, LoginEvent::Answer { code: 0, message: String::new() });
    assert_eq!(state, LoginState::CheckingAuth { csrf_token: "csrf".to_string() });
    assert_eq!(get_url(&action), AUTH_CHECK_URL);

    let (state, action) = step(
        state,
        LoginEvent::AuthCheck {
            code: 0,
            message: String::new(),
            auth_ids: vec!["sms-id".to_string(), "other".to_string()],
        },
    );
    assert_eq!(action, LoginAction::SendSms { auth_id: "sms-id".to_string() });

    let (state, action) = step(state, LoginEvent::Answer { code: 0, message: String::new() });
    assert_eq!(action, LoginAction::Finish);
    assert_eq!(
        state,
        LoginState::Finished {
            csrf_token: "csrf".to_string(),
            auth_id: "sms-id".to_string()
        }
    );

    let mut operation = LoginOperation::from_finished(vpn_url, state).unwrap();
    assert_eq!(operation.sms_code(" 123456 \n").unwrap(), "123456");
    assert_eq!(operation.sms_code("   "), Err(VpnLoginError::EmptySmsCode));
    assert_eq!(
        operation.finish_sms(1, "wrong code", None),
        Err(VpnLoginError::Rejected(
            "Web VPN rejected the SMS verification code: wrong code".to_string()
        ))
    );
    assert_eq!(operation.finish_sms(0, "", None), Err(VpnLoginError::NoSid));
    assert_eq!(operation.finish_sms(0, "", Some("sid-1".to_string())), Ok(()));
    assert_eq!(operation.sid.as_deref(), Some("sid-1"));
    assert_eq!(operation.sms_code("123456"), Err(VpnLoginError::AlreadyComplete));
    assert_eq!(operation.auth_id, "sms-id");
}

#[test]
fn stops_on_unexpected_answers() {
    let (_, state, _) = begin_login(&url("https://ehall.nju.edu.cn/")).unwrap();
    let (state, action) = step(
        state,
        LoginEvent::Arrived(url("https://authserver.nju.edu.cn/authserver/login")),
    );
    assert_eq!(state, LoginState::Failed);
    assert_eq!(
        action,
        LoginAction::Fail(VpnLoginError::UnexpectedTarget(
            "https://authserver.nju.edu.cn/authserver/login".to_string()
        ))
    );

    let (state, action) = step(
        LoginState::FetchingConfig,
        LoginEvent::Config {
            code: 3,
            message: "busy".to_string(),
            first_auth: Vec::new(),
            csrf_token: String::new(),
        },
    );
    assert_eq!(state, LoginState::Failed);
    assert_eq!(
        action,
        LoginAction::Fail(VpnLoginError::Rejected(
            "get Web VPN authentication config: busy".to_string()
        ))
    );

    let (_, action) = step(
        LoginState::FetchingConfig,
        LoginEvent::Config {
            code: 0,
            message: String::new(),
            first_auth: Vec::new(),
            csrf_token: String::new(),
        },
    );
    assert_eq!(action, LoginAction::Fail(VpnLoginError::NoUnifiedAuthUrl));

    let (_, action) = step(
        LoginState::Authorizing,
        LoginEvent::Arrived(url("https://ztna.nju.edu.cn/portal/shortcut.html?x=1")),
    );
    assert_eq!(action, LoginAction::Fail(VpnLoginError::NoDataParameter));

    let (_, action) = step(LoginState::ReadingTicket, LoginEvent::Ticket(None));
    assert_eq!(action, LoginAction::Fail(VpnLoginError::BadShortcutData));

    let (_, action) = step(
        LoginState::CheckingAuth { csrf_token: String::new() },
        LoginEvent::AuthCheck { code: 0, message: String::new(), auth_ids: Vec::new() },
    );
    assert_eq!(action, LoginAction::Fail(VpnLoginError::NoSmsService));

    let (state, action) = step(LoginState::Failed, LoginEvent::Ticket(None));
    assert_eq!(state, LoginState::Failed);
    assert_eq!(action, LoginAction::Fail(VpnLoginError::OutOfOrder));
}

#[test]
fn only_a_finished_start_can_wait_for_its_code() {
    assert!(LoginOperation::from_finished(url("https://a.atrust.nju.edu.cn/"), LoginState::Failed).is_none());
}

#[test]
fn asks_for_the_sms_code_of_a_service() {
    assert_eq!(
        send_sms_url("id 1&x").unwrap().as_str(),
        "https://ztna.nju.edu.cn/passport/v1/auth/sms?action=sendsms&clientType=SDPBrowserClient&platform=Mac&lang=en-US&isPrevEffect=0&taskId=&authId=id+1%26x"
    );
}

#[test]
fn interactive_login_holds_exactly_with_a_session() {
    assert_eq!(session_from_sid(Some("sid-2".to_string())), Ok("sid-2".to_string()));
    assert_eq!(session_from_sid(None), Err(VpnLoginError::NoSid));
}

#[test]
fn the_unified_auth_login_tests_the_whole_shortcut_address() {
    let plain = "http://ztna.nju.edu.cn/portal/shortcut.html?data=%7B%7D";
    let (state, action) = unified_step(LoginState::Authorizing, LoginEvent::Arrived(url(plain)));
    assert_eq!(state, LoginState::Failed);
    assert_eq!(
        action,
        LoginAction::Fail(VpnLoginError::UnexpectedAuthRedirect(plain.to_string()))
    );
    let (state, action) = step(LoginState::Authorizing, LoginEvent::Arrived(url(plain)));
    assert_eq!(state, LoginState::ReadingTicket);
    assert_eq!(action, LoginAction::ParseShortcut("{}".to_string()));

    let secure = "https://ztna.nju.edu.cn/portal/shortcut.html?data=%7B%7D";
    let (state, action) = unified_step(LoginState::Authorizing, LoginEvent::Arrived(url(secure)));
    assert_eq!(state, LoginState::ReadingTicket);
    assert_eq!(action, LoginAction::ParseShortcut("{}".to_string()));
}

#[test]
fn the_unified_auth_login_names_the_steps_in_its_own_words() {
    let (_, action) = unified_step(
        LoginState::FetchingConfig,
        LoginEvent::Config {
            code: 1,
            message: "busy".to_string(),
            first_auth: Vec::new(),
            csrf_token: String::new(),
        },
    );
    assert_eq!(
        action,
        LoginAction::Fail(VpnLoginError::Rejected(
            "Failed to get auth config from ztna: busy".to_string()
        ))
    );
    let (_, action) = unified_step(
        LoginState::SendingSms { csrf_token: String::new(), auth_id: String::new() },
        LoginEvent::Answer { code: 2, message: "limit".to_string() },
    );
    assert_eq!(
        action,
        LoginAction::Fail(VpnLoginError::Rejected("Failed to send SMS code: limit".to_string()))
    );
}
