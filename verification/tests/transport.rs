use nemollm::error::{ClientError, ConfigurationFault};
use nemollm::http::{describe_status, is_success, ACCEPTED, OK};
use nemollm::transport::{
    accept, authorization, get, header, post, remote_failure, resolve_token, Header, Method,
    API_URL,
};

fn unusable() -> ClientError {
    ClientError::Configuration { reason: ConfigurationFault::UnusableToken }
}

#[test]
fn explicit_token_overrides_the_fallback() {
    let token = resolve_token(Some("explicit".to_string()), Some("from-env".to_string())).unwrap();
    assert_eq!(token, "explicit");
    let request = post("https://example.test/x".to_string(), &token).unwrap();
    let auth: Vec<&Header> = request.headers.iter().filter(|h| h.name == "Authorization").collect();
    assert_eq!(auth.len(), 1);
    assert_eq!(auth[0].value, "Bearer explicit");
}

#[test]
fn fallback_is_used_without_an_explicit_token() {
    assert_eq!(resolve_token(None, Some("from-env".to_string())), Ok("from-env".to_string()));
    assert_eq!(resolve_token(Some("e".to_string()), None), Ok("e".to_string()));
}

#[test]
fn no_token_at_all_is_a_configuration_error() {
    assert_eq!(
        resolve_token(None, None),
        Err(ClientError::Configuration { reason: ConfigurationFault::MissingToken })
    );
}

#[test]
fn post_has_the_three_headers_in_order() {
    let r = post(format!("{}/models/m/completions", API_URL), "abc").unwrap();
    assert_eq!(r.method, Method::Post);
    assert_eq!(r.url, "https://api.llm.ngc.nvidia.com/v1/models/m/completions");
    assert_eq!(
        r.headers,
        vec![
            header("Content-Type", "application/json"),
            header("Authorization", "Bearer abc"),
            header("x-stream", "false"),
        ]
    );
}

#[test]
fn get_has_no_stream_marker() {
    let r = get("https://example.test/models".to_string(), "abc").unwrap();
    assert_eq!(r.method, Method::Get);
    assert_eq!(
        r.headers,
        vec![header("Content-Type", "application/json"), header("Authorization", "Bearer abc")]
    );
}

#[test]
fn token_with_a_control_character_cannot_be_sent() {
    assert_eq!(authorization("line\nbreak"), Err(unusable()));
    assert_eq!(authorization("bell\u{7}"), Err(unusable()));
    assert_eq!(authorization("del\u{7f}"), Err(unusable()));
    assert_eq!(post("https://example.test".to_string(), "a\r\nX-Evil: 1"), Err(unusable()));
    assert_eq!(get("https://example.test".to_string(), "a\0b"), Err(unusable()));
}

#[test]
fn token_with_tab_space_or_non_ascii_text_can_be_sent() {
    assert_eq!(authorization("a\tb").unwrap().value, "Bearer a\tb");
    assert_eq!(authorization("a b").unwrap().value, "Bearer a b");
    assert_eq!(authorization("clé-ü").unwrap().value, "Bearer clé-ü");
    assert_eq!(authorization("").unwrap(), header("Authorization", "Bearer "));
}

#[test]
fn success_is_the_two_hundreds() {
    assert!(is_success(200));
    assert!(is_success(204));
    assert!(is_success(299));
    assert!(!is_success(199));
    assert!(!is_success(300));
    assert!(!is_success(404));
    assert!(!is_success(500));
    assert!(!is_success(0));
    assert!(!is_success(99));
    assert!(!is_success(1000));
    assert!(!is_success(u16::MAX));
    assert!(is_success(OK));
    assert!(is_success(ACCEPTED));
}

#[test]
fn status_text_is_number_and_reason() {
    assert_eq!(describe_status(200), Some("200 OK".to_string()));
    assert_eq!(describe_status(202), Some("202 Accepted".to_string()));
    assert_eq!(describe_status(500), Some("500 Internal Server Error".to_string()));
    assert_eq!(describe_status(999), Some("999 <unknown status code>".to_string()));
    assert_eq!(describe_status(99), None);
    assert_eq!(describe_status(1000), None);
}

#[test]
fn accept_hands_on_success_bodies_only() {
    assert_eq!(accept(200, "ok".to_string()), Ok("ok".to_string()));
    assert_eq!(accept(202, "".to_string()), Ok("".to_string()));
    assert_eq!(
        accept(404, "missing".to_string()),
        Err(ClientError::Remote { status: 404, detail: "missing".to_string() })
    );
    assert_eq!(
        accept(302, "moved".to_string()),
        Err(ClientError::Remote { status: 302, detail: "moved".to_string() })
    );
}

#[test]
fn remote_failure_prefers_the_structured_message() {
    assert_eq!(
        remote_failure(429, "{\"message\":\"slow down\"}".to_string(), Some("slow down".to_string())),
        ClientError::Remote { status: 429, detail: "slow down".to_string() }
    );
    assert_eq!(
        remote_failure(502, "<html>bad gateway</html>".to_string(), None),
        ClientError::Remote { status: 502, detail: "<html>bad gateway</html>".to_string() }
    );
}
