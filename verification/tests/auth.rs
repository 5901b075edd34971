use nju_cli::auth::captcha::{
    attempt_failed_message, captcha_sign, check_captcha_result, decode_image,
    generate_track_timing, next_captcha_attempt, safe_secure, total_wait, CaptchaError,
    CaptchaNext,
};
use nju_cli::auth::crypto::{decode_base64, encode_base64, encrypt, EncryptError};
use nju_cli::auth::device::{
    check_vpn_device_id, generate_sdp_trace_id, generate_vpn_device_id,
    get_or_create_vpn_device_id_at, is_valid_vpn_device_id,
};
use nju_cli::auth::form::FormContext;
use nju_cli::auth::login::{
    build_login_form, check_login_status, extract_context, extract_login_error, login_outcome,
    LoginError,
};
use nju_cli::auth::models::JsonResponse;
use nju_cli::auth::secret::secret_value;

#[test]
fn extracts_context_by_id_like_the_auth_page() {
    let html = r#"
            <form id="pwdFromId">
                <input type="hidden" id="execution" name="ignored" value="e1s1">
                <input type="text" id="username" value="">
                <input type="hidden" name="fallback" value="value">
            </form>
        "#;

    let context = extract_context(html).unwrap();
    assert_eq!(context.get("execution").as_deref(), Some("e1s1"));
    assert_eq!(context.get("username").as_deref(), Some(""));
    assert_eq!(context.get("fallback").as_deref(), Some("value"));
}

#[test]
fn derives_captcha_key_from_last_sixteen_bytes() {
    let image = b"prefix0123456789abcdef";
    assert_eq!(safe_secure(image).unwrap(), b"0123456789abcdef");
    assert!(safe_secure(b"too short").is_err());
}

#[test]
fn generates_browser_shaped_vpn_identifiers() {
    for _ in 0..100 {
        assert!(is_valid_vpn_device_id(&generate_vpn_device_id()));
    }

    let trace_id = generate_sdp_trace_id();
    assert_eq!(trace_id.len(), 8);
    assert!(trace_id
        .bytes()
        .all(|byte| byte.is_ascii_digit() || (b'a'..=b'f').contains(&byte)));
}

#[test]
fn reads_secret_values_without_environment_expansion() {
    let secret = "NJU_USERNAME=user\nNJU_PASSWORD=$literal-password\n";

    assert_eq!(
        secret_value(secret, "NJU_USERNAME").as_deref(),
        Some("user")
    );
    assert_eq!(
        secret_value(secret, "NJU_PASSWORD").as_deref(),
        Some("$literal-password")
    );
}

#[test]
fn secret_values_lose_one_pair_of_quotes() {
    let secret = "A = \"quoted\"\nB='single'\nC=\"\nA=second\n";
    assert_eq!(secret_value(secret, "A").as_deref(), Some("quoted"));
    assert_eq!(secret_value(secret, "B").as_deref(), Some("single"));
    assert_eq!(secret_value(secret, "C").as_deref(), Some("\""));
    assert_eq!(secret_value(secret, "D"), None);
}

#[test]
fn encrypts_like_the_login_page() {
    assert_eq!(
        encrypt("secret", b"0123456789abcdef").unwrap(),
        "C5sV2ktEoPUVHc/EwB811c3phsSYlQBMCYlkTuYddPKpqP0SKZj0Mzl1P9Vcv/lJTqtuno0yp4ooGqu8z44JIcOp8YYAf0aCiRGdg5cd5VI="
    );
    assert_eq!(encrypt("secret", b"short"), Err(EncryptError::KeyLength(5)));
}

#[test]
fn base64_round_trips() {
    assert_eq!(encode_base64(b"hello"), "aGVsbG8=");
    assert_eq!(decode_base64("aGVsbG8=").unwrap(), b"hello".to_vec());
    assert_eq!(decode_base64("not base64!"), None);
}

fn login_page_context(salt: &str) -> FormContext {
    let mut context = FormContext::new();
    context.insert("execution".to_string(), "e1s1".to_string());
    context.insert("pwdEncryptSalt".to_string(), salt.to_string());
    context
}

#[test]
fn builds_login_form_without_salt() {
    let form = build_login_form(login_page_context("0123456789abcdef"), "user".to_string(), "secret")
        .unwrap();
    assert_eq!(form.get("pwdEncryptSalt"), None);
    assert_eq!(form.get("execution").as_deref(), Some("e1s1"));
    assert_eq!(form.get("username").as_deref(), Some("user"));
    assert_eq!(
        form.get("password").as_deref(),
        Some("C5sV2ktEoPUVHc/EwB811c3phsSYlQBMCYlkTuYddPKpqP0SKZj0Mzl1P9Vcv/lJTqtuno0yp4ooGqu8z44JIcOp8YYAf0aCiRGdg5cd5VI=")
    );
    assert_eq!(form.get("captcha").as_deref(), Some(""));
    assert_eq!(form.get("dllt").as_deref(), Some("mobileLogin"));
    assert_eq!(form.entries().len(), 5);
}

#[test]
fn login_form_needs_a_sixteen_byte_salt() {
    let mut context = FormContext::new();
    context.insert("execution".to_string(), "e1s1".to_string());
    assert_eq!(
        build_login_form(context, "user".to_string(), "pw").err(),
        Some(LoginError::MissingSalt)
    );
    assert_eq!(
        build_login_form(login_page_context("short"), "user".to_string(), "pw").err(),
        Some(LoginError::Encrypt(EncryptError::KeyLength(5)))
    );
}

#[test]
fn reads_login_status() {
    assert_eq!(check_login_status(200), Ok(()));
    assert_eq!(check_login_status(302), Ok(()));
    assert_eq!(check_login_status(401), Err(LoginError::PasswordWrong));
    assert_eq!(check_login_status(500), Err(LoginError::ErrorStatus(500)));
}

#[test]
fn reads_the_login_error() {
    let page = r#"<div id="pwdLoginDiv"><span id="showErrorTip"> 您提供的用户名或者密码有误 </span></div>"#;
    assert_eq!(
        extract_login_error(page).as_deref(),
        Some("您提供的用户名或者密码有误")
    );
    assert_eq!(extract_login_error("<p>nothing</p>"), None);
    assert_eq!(
        login_outcome(None, "<p>x</p>"),
        Err(LoginError::Rejected(
            "Failed to find err msg, raw page: <p>x</p>".to_string()
        ))
    );
    assert_eq!(
        login_outcome(Some("TGT-1".to_string()), "<p>x</p>"),
        Ok("TGT-1".to_string())
    );
}

#[test]
fn signs_captcha_solutions_with_the_image_key() {
    let image = b"prefix0123456789abcdef";
    assert_eq!(
        captcha_sign("secret", image).unwrap(),
        encrypt("secret", b"0123456789abcdef").unwrap()
    );
    assert_eq!(captcha_sign("secret", b"short"), Err(CaptchaError::ShortImage));
    assert_eq!(decode_image("bigImage", "aGVsbG8=").unwrap(), b"hello".to_vec());
    assert_eq!(
        decode_image("bigImage", "%%%"),
        Err(CaptchaError::Decode("bigImage".to_string()))
    );
}

#[test]
fn accepts_only_successful_captcha_results() {
    assert_eq!(check_captcha_result(0, "success"), Ok(()));
    assert_eq!(
        check_captcha_result(3, "failed"),
        Err(CaptchaError::Rejected {
            code: 3,
            message: "failed".to_string()
        })
    );
}

#[test]
fn tries_the_captcha_five_times() {
    assert_eq!(next_captcha_attempt(1, true), CaptchaNext::Done);
    assert_eq!(next_captcha_attempt(1, false), CaptchaNext::Retry(2));
    assert_eq!(next_captcha_attempt(4, false), CaptchaNext::Retry(5));
    assert_eq!(next_captcha_attempt(5, false), CaptchaNext::GiveUp);
    assert_eq!(
        attempt_failed_message(3),
        "NJU auth slider captcha attempt 3/5 failed"
    );
}

#[test]
fn drag_timing_has_the_page_shape() {
    for _ in 0..50 {
        let timing = generate_track_timing();
        let n = timing.intervals.len();
        assert!((19..=22).contains(&n));
        assert_eq!(timing.vertical_offsets.len(), n);
        for (i, interval) in timing.intervals.iter().enumerate() {
            let index = i + 1;
            let range = if index <= 2 {
                45..=85
            } else if index == n {
                400..=700
            } else if index >= n - 2 {
                70..=160
            } else {
                28..=38
            };
            assert!(range.contains(interval));
        }
        assert_eq!(timing.vertical_offsets[n - 1], 0);
        assert!(timing.vertical_offsets.iter().all(|b| (-1..=1).contains(b)));
        let wait = total_wait(&timing.intervals);
        assert_eq!(wait, timing.intervals.iter().sum::<u64>());
    }
}

#[test]
fn device_id_is_reused_once_saved() {
    let saved = get_or_create_vpn_device_id_at(Some("  00a1\n"));
    assert_eq!(saved.id, "00a1");
    assert!(!saved.is_new);
    let fresh = get_or_create_vpn_device_id_at(None);
    assert!(fresh.is_new);
    assert!(is_valid_vpn_device_id(&fresh.id));
    assert!(check_vpn_device_id(&fresh.id).is_ok());
    assert!(check_vpn_device_id("00a1").is_err());
    assert!(!is_valid_vpn_device_id(&format!("000{}", "a".repeat(64))));
    assert!(!is_valid_vpn_device_id(&format!("00A{}", "a".repeat(64))));
}

#[test]
fn checks_answer_codes() {
    let ok = JsonResponse { code: 0, message: "ok".to_string(), data: 7 };
    assert_eq!(ok.check_code("get config").unwrap().data, 7);
    let refused = JsonResponse { code: 1, message: "denied".to_string(), data: 7 };
    assert_eq!(refused.check_code("get config").err().as_deref(), Some("get config: denied"));
}
