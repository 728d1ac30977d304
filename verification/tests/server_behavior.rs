use hello_server::config::bind_address_text;
use hello_server::config::parse_u16;
use hello_server::config::port_text;
use hello_server::config::resolve_port;
use hello_server::config::ConfigError;
use hello_server::config::DEFAULT_PORT;
use hello_server::routes::complex;
use hello_server::routes::handle_request;
use hello_server::routes::root;

#[test]
fn default_port_when_unset() {
    assert_eq!(resolve_port(None), Ok(3000));
    assert_eq!(DEFAULT_PORT, 3000);
}

#[test]
fn explicit_port_is_used() {
    assert_eq!(resolve_port(Some("8080".to_string())), Ok(8080));
    assert_eq!(resolve_port(Some("3000".to_string())), Ok(3000));
    assert_eq!(resolve_port(Some("1".to_string())), Ok(1));
}

#[test]
fn port_grammar_edges_parse() {
    assert_eq!(resolve_port(Some("0".to_string())), Ok(0));
    assert_eq!(resolve_port(Some("65535".to_string())), Ok(65535));
    assert_eq!(resolve_port(Some("+8080".to_string())), Ok(8080));
    assert_eq!(resolve_port(Some("00443".to_string())), Ok(443));
    assert_eq!(resolve_port(Some("0000065535".to_string())), Ok(65535));
}

#[test]
fn invalid_ports_are_rejected() {
    for bad in [
        "abc", "-1", "99999", "65536", "", "+", "++1", " 80", "80 ", "8 0", "0x50", "1e3",
        "12.5", "123456789012345678901234567890",
    ] {
        assert_eq!(
            resolve_port(Some(bad.to_string())),
            Err(ConfigError::InvalidPort),
            "expected {:?} to be rejected",
            bad
        );
    }
}

#[test]
fn parse_agrees_with_std_parse() {
    for s in [
        "0", "1", "80", "443", "3000", "8080", "65535", "65536", "70000", "+1", "+65535",
        "007", "abc", "-1", "", "+", "12a", "a12", " 1", "1 ", "99999999999999999999",
    ] {
        assert_eq!(parse_u16(s), s.parse::<u16>().ok(), "disagreement on {:?}", s);
    }
}

#[test]
fn port_text_is_canonical_decimal() {
    assert_eq!(port_text(0), "0");
    assert_eq!(port_text(7), "7");
    assert_eq!(port_text(80), "80");
    assert_eq!(port_text(3000), "3000");
    assert_eq!(port_text(8080), "8080");
    assert_eq!(port_text(65535), "65535");
}

#[test]
fn port_text_parses_back() {
    for p in [0u16, 1, 9, 10, 99, 100, 443, 3000, 8080, 65535] {
        assert_eq!(parse_u16(&port_text(p)), Some(p));
    }
}

#[test]
fn bind_address_names_the_port() {
    assert_eq!(bind_address_text(3000), "0.0.0.0:3000");
    assert_eq!(bind_address_text(8080), "0.0.0.0:8080");
    assert_eq!(bind_address_text(0), "0.0.0.0:0");
}

#[test]
fn invalid_port_message() {
    let e = resolve_port(Some("abc".to_string())).unwrap_err();
    assert_eq!(e.message(), "failed to convert to number");
}

#[test]
fn root_returns_greeting() {
    assert_eq!(root(), "Hello, World!");
}

#[test]
fn complex_returns_json_object() {
    let r = complex();
    assert_eq!(r.status, 200);
    assert_eq!(r.content_type, "application/json");
    assert_eq!(r.body, "{\"message\":\"Hello, World!\"}");
}

#[test]
fn complex_body_deserializes_exactly() {
    let r = complex();
    let v: serde_json::Value = serde_json::from_str(&r.body).unwrap();
    let obj = v.as_object().unwrap();
    assert_eq!(obj.len(), 1);
    assert_eq!(
        obj.get("message").and_then(|m| m.as_str()),
        Some("Hello, World!")
    );
}

#[test]
fn get_root_is_served() {
    let r = handle_request("GET", "/").unwrap();
    assert_eq!(r.status, 200);
    assert_eq!(r.content_type, "text/plain");
    assert_eq!(r.body, "Hello, World!");
}

#[test]
fn get_complex_is_served() {
    let r = handle_request("GET", "/complex").unwrap();
    assert_eq!(r.status, 200);
    assert_eq!(r.content_type, "application/json");
    assert_eq!(r.body, "{\"message\":\"Hello, World!\"}");
}

#[test]
fn unknown_paths_are_not_served() {
    assert!(handle_request("GET", "/missing").is_none());
    assert!(handle_request("GET", "").is_none());
    assert!(handle_request("GET", "/complex/extra").is_none());
    assert!(handle_request("GET", "/COMPLEX").is_none());
    assert!(handle_request("GET", "//").is_none());
}

#[test]
fn non_get_methods_are_not_served() {
    assert!(handle_request("POST", "/").is_none());
    assert!(handle_request("PUT", "/").is_none());
    assert!(handle_request("DELETE", "/complex").is_none());
    assert!(handle_request("HEAD", "/complex").is_none());
    assert!(handle_request("get", "/").is_none());
}

#[test]
fn port_8080_scenario() {
    assert_eq!(resolve_port(Some("8080".to_string())), Ok(8080));
    let ok = handle_request("GET", "/").unwrap();
    assert_eq!(ok.status, 200);
    assert_eq!(ok.body, "Hello, World!");
    let cx = handle_request("GET", "/complex").unwrap();
    assert_eq!(cx.status, 200);
    assert_eq!(cx.body, "{\"message\":\"Hello, World!\"}");
    assert!(handle_request("POST", "/").is_none());
}
