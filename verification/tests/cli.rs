use nju_cli::cli::auth::{
    castgc_cookie_pair, check_login_page, check_vpn_session, client_modes, is_logged_in, login_plan, vpn_login_plan,
    ClientMode, CliError, LoginCommand, LoginPlan, VpnLoginCommand, VpnLoginPlan, EHALL_HOST,
};
use nju_cli::cli::download::{
    file_name_from_url, header_file_name, output_path, parse_filename, response_file_name,
    OutputTarget,
};
use nju_cli::ehall::{
    assigned_program, check_app_host, course_setting, next_course_page, program_summary,
    select_action, EhallError,
};
use nju_cli::mcp::{failed_run, render_response, NjuCliResponse};

#[test]
fn decodes_web_vpn_file_name_from_url() {
    let name = file_name_from_url(
        "https://jw-nju-edu-cn.atrust.nju.edu.cn/_upload/article/files/a/%E6%A0%A1%E5%8E%86.pdf",
    )
    .unwrap();

    assert_eq!(name, "校历.pdf");
}

#[test]
fn falls_back_to_url_path_when_url_has_no_path() {
    let name = file_name_from_url("https://example.com");
    assert_eq!(name, None);
}

#[test]
fn file_names_from_urls_are_made_safe() {
    assert_eq!(
        file_name_from_url("https://example.com/a/%3Cbad%3E%20name.txt").as_deref(),
        Some("bad name.txt")
    );
    assert_eq!(file_name_from_url("https://example.com/dir/"), None);
    assert_eq!(file_name_from_url("https://example.com/%FF"), None);
    assert_eq!(file_name_from_url("not a url"), None);
}

#[test]
fn parses_filename_parameters() {
    assert_eq!(parse_filename(" \"a \\\"b\\\".pdf\" ").as_deref(), Some("a \"b\".pdf"));
    assert_eq!(parse_filename("plain.txt").as_deref(), Some("plain.txt"));
    assert_eq!(parse_filename("  "), None);
    assert_eq!(parse_filename("\"").as_deref(), Some("\""));
}

#[test]
fn prefers_the_extended_filename() {
    assert_eq!(
        header_file_name("attachment; filename=\"plain.pdf\"; filename*=UTF-8''%E6%A0%A1%E5%8E%86.pdf")
            .as_deref(),
        Some("校历.pdf")
    );
    assert_eq!(
        header_file_name("attachment; FILENAME=\"a.pdf\"; filename=\"b.pdf\"").as_deref(),
        Some("a.pdf")
    );
    assert_eq!(
        header_file_name("attachment; filename*=UTF-8''%FF; filename=c.pdf").as_deref(),
        Some("c.pdf")
    );
    assert_eq!(header_file_name("filename=first.pdf"), None);
    assert_eq!(header_file_name("attachment; filename=\"\""), None);
    assert_eq!(
        response_file_name("attachment; filename=\"a/b.pdf\"").as_deref(),
        Some("ab.pdf")
    );
    assert_eq!(
        response_file_name("attachment; filename=\"a.pdf\"; filename*=UTF-8''%E6%A0%A1%E5%8E%86.pdf")
            .as_deref(),
        Some("校历.pdf")
    );
}

#[test]
fn chooses_where_downloads_go() {
    assert_eq!(
        output_path(Some("out"), true, Some("a.pdf")),
        OutputTarget::IntoDir { dir: "out".to_string(), file_name: "a.pdf".to_string() }
    );
    assert_eq!(
        output_path(Some("out.pdf"), false, Some("a.pdf")),
        OutputTarget::Exact("out.pdf".to_string())
    );
    assert_eq!(output_path(None, false, None), OutputTarget::Name("download".to_string()));
}

fn login(test: bool, username: Option<&str>, password: Option<&str>, castgc: Option<&str>) -> LoginCommand {
    LoginCommand {
        test,
        username: username.map(str::to_string),
        password: password.map(str::to_string),
        castgc: castgc.map(str::to_string),
    }
}

#[test]
fn plans_the_login_command() {
    assert_eq!(login_plan(login(true, None, None, None), None, None), Ok(LoginPlan::Test));
    assert_eq!(
        login_plan(login(false, Some("u"), None, Some("TGT")), None, None),
        Ok(LoginPlan::Save("TGT".to_string()))
    );
    assert_eq!(
        login_plan(login(false, None, Some("p"), None), Some("env-user".to_string()), None),
        Ok(LoginPlan::Login { username: "env-user".to_string(), password: "p".to_string() })
    );
    assert_eq!(
        login_plan(login(false, Some("u"), None, None), Some("env-user".to_string()), Some("env-pw".to_string())),
        Ok(LoginPlan::Login { username: "u".to_string(), password: "env-pw".to_string() })
    );
    assert_eq!(login_plan(login(false, None, None, None), None, None), Err(CliError::MissingUsername));
    assert_eq!(
        login_plan(login(false, Some("u"), None, None), None, None),
        Err(CliError::MissingPassword)
    );
}

#[test]
fn plans_the_vpn_login_command() {
    assert_eq!(vpn_login_plan(VpnLoginCommand { test: true, sms_code: None }), VpnLoginPlan::Test);
    assert_eq!(vpn_login_plan(VpnLoginCommand { test: false, sms_code: None }), VpnLoginPlan::Start);
    assert_eq!(
        vpn_login_plan(VpnLoginCommand { test: false, sms_code: Some("1234".to_string()) }),
        VpnLoginPlan::Submit("1234".to_string())
    );
}

#[test]
fn chooses_client_modes() {
    assert_eq!(client_modes(true), (ClientMode::WebVpn, ClientMode::WebVpn));
    assert_eq!(client_modes(false), (ClientMode::Direct, ClientMode::Authenticated));
    assert_eq!(check_vpn_session(&None), Err(CliError::VpnIncomplete));
    assert_eq!(check_vpn_session(&Some("sid".to_string())), Ok(()));
}

#[test]
fn recognizes_valid_logins() {
    assert_eq!(castgc_cookie_pair("TGT-1"), "CASTGC=TGT-1");
    assert_eq!(check_login_page("<form id=\"pwdFromId\">"), Err(CliError::NotLoggedIn));
    assert_eq!(check_login_page("<p>welcome</p>"), Ok(()));
    assert!(is_logged_in(Some("ehallapp.nju.edu.cn"), EHALL_HOST));
    assert!(!is_logged_in(Some("authserver.nju.edu.cn"), EHALL_HOST));
    assert!(!is_logged_in(None, EHALL_HOST));
}

#[test]
fn accepts_only_the_training_program_host() {
    assert_eq!(check_app_host(Some("ehallapp.nju.edu.cn")), Ok(()));
    assert_eq!(check_app_host(Some("ehallapp-nju-edu-cn-s.atrust.nju.edu.cn")), Ok(()));
    assert_eq!(
        check_app_host(Some("authserver.nju.edu.cn")),
        Err(EhallError::UnexpectedHost("authserver.nju.edu.cn".to_string()))
    );
    assert_eq!(check_app_host(None), Err(EhallError::UnexpectedHost(String::new())));
}

#[test]
fn reads_ehall_answers() {
    let keys = vec!["other".to_string(), "facx".to_string()];
    assert_eq!(select_action("0", &keys, "facx"), Ok(1));
    assert_eq!(
        select_action("0", &keys, "pyfakcxxcx"),
        Err(EhallError::MissingAction("pyfakcxxcx".to_string()))
    );
    assert_eq!(select_action("1", &keys, "facx"), Err(EhallError::AppCode("1".to_string())));
    assert_eq!(assigned_program(vec![3, 4]), Ok(3));
    assert_eq!(assigned_program(Vec::<u8>::new()), Err(EhallError::NoProgram));
    assert_eq!(
        program_summary(Vec::<u8>::new(), "P1"),
        Err(EhallError::ProgramNotFound("P1".to_string()))
    );
}

#[test]
fn pages_through_courses() {
    assert_eq!(next_course_page(450, 200, 200, 1), Some(2));
    assert_eq!(next_course_page(450, 450, 50, 3), None);
    assert_eq!(next_course_page(0, 0, 0, 1), None);
    assert_eq!(next_course_page(450, 200, 0, 2), None);
    assert_eq!(course_setting("P\"1"), "[{\"name\":\"FADM\",\"value\":\"P\\\"1\"}]");
}

#[test]
fn render_response_includes_status_and_streams() {
    let rendered = render_response(&NjuCliResponse {
        success: false,
        code: Some(2),
        stdout: "out".to_owned(),
        stderr: "err".to_owned(),
    });

    assert!(rendered.contains("success: false"));
    assert!(rendered.contains("code: 2"));
    assert!(rendered.contains("stdout:\nout\n"));
    assert!(rendered.contains("stderr:\nerr\n"));
}

#[test]
fn renders_runs_without_code_or_output() {
    let rendered = render_response(&failed_run("failed to run nju-cli".to_string()));
    assert_eq!(
        rendered,
        "success: false\ncode: null\n\nstderr:\nfailed to run nju-cli\n"
    );
    let rendered = render_response(&NjuCliResponse {
        success: true,
        code: Some(0),
        stdout: "done\n".to_owned(),
        stderr: String::new(),
    });
    assert_eq!(rendered, "success: true\ncode: 0\n\nstdout:\ndone\n");
}

#[test]
fn course_setting_escapes_as_json_does() {
    assert_eq!(
        course_setting("a\\b\n\t\u{8}\u{c}\r\u{1}\u{1f}é"),
        "[{\"name\":\"FADM\",\"value\":\"a\\\\b\\n\\t\\b\\f\\r\\u0001\\u001fé\"}]"
    );
}
