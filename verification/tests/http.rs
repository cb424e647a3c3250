use freebuff_shell::http::{
    classify_login_reply, healthz_reply_ok, healthz_request, login_body, login_request, LoginCheck,
};

#[test]
fn healthz_request_text() {
    assert_eq!(
        healthz_request(),
        "GET /healthz HTTP/1.1\r\nHost: 127.0.0.1\r\nConnection: close\r\n\r\n"
    );
}

#[test]
fn healthz_reply_needs_200_and_ok() {
    assert!(healthz_reply_ok("HTTP/1.1 200 OK\r\n\r\n{\"ok\":true}"));
    assert!(!healthz_reply_ok("HTTP/1.1 200 OK\r\n\r\n{\"OK\":true}"));
    assert!(!healthz_reply_ok("HTTP/1.1 503 ok"));
    assert!(!healthz_reply_ok(""));
    assert!(healthz_reply_ok("ok 200"));
}

#[test]
fn login_reply_classes() {
    assert_eq!(classify_login_reply("HTTP/1.1 200 OK\r\n\r\n{}"), LoginCheck::Valid);
    assert_eq!(classify_login_reply("HTTP/1.1 401 Unauthorized\r\n"), LoginCheck::Invalid);
    assert_eq!(classify_login_reply("HTTP/1.1 403 Forbidden\r\n"), LoginCheck::Invalid);
    assert_eq!(classify_login_reply("HTTP/1.0 200 OK\r\n"), LoginCheck::Unreachable);
    assert_eq!(classify_login_reply("HTTP/1.1 500 Error\r\n"), LoginCheck::Unreachable);
    assert_eq!(classify_login_reply(""), LoginCheck::Unreachable);
    assert_eq!(classify_login_reply(" HTTP/1.1 200 OK"), LoginCheck::Unreachable);
}

fn serde_body(password: &str) -> String {
    let mut m = serde_json::Map::new();
    m.insert("username".to_string(), serde_json::Value::String("admin".to_string()));
    m.insert("password".to_string(), serde_json::Value::String(password.to_string()));
    serde_json::Value::Object(m).to_string()
}

#[test]
fn login_body_is_the_json_object() {
    for p in ["secret", "", "a\"b\\c", "tab\there\nnl\u{1}\u{1f}\u{7f}", "密码é"] {
        assert_eq!(login_body(p), serde_body(p), "{:?}", p);
    }
    assert_eq!(login_body("x\"y"), "{\"password\":\"x\\\"y\",\"username\":\"admin\"}");
}

#[test]
fn login_request_text() {
    let body = serde_body("密码1");
    let expected = format!(
        "POST /api/auth/login HTTP/1.1\r\nHost: 127.0.0.1:{port}\r\n\
         Content-Type: application/json\r\nContent-Length: {}\r\nConnection: close\r\n\r\n{}",
        body.len(),
        body,
        port = 8787
    );
    assert_eq!(login_request(8787, "密码1"), expected);
}
