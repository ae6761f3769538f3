use http::header::{HeaderMap, HeaderName, HeaderValue};
use http_hardening::headers::{
    security_header_set, security_headers, try_security_headers, CONTENT_SECURITY_POLICY,
    MAX_FIELD_NAMES, REFERRER_POLICY, STRICT_TRANSPORT_SECURITY, X_CONTENT_TYPE_OPTIONS,
    X_FRAME_OPTIONS,
};

const CSP: &str = "default-src 'self'; script-src 'self'; style-src 'self' 'unsafe-inline'; img-src 'self' data: https:; font-src 'self'; connect-src 'self'; frame-ancestors 'none';";

fn values(headers: &HeaderMap, name: &str) -> Vec<Vec<u8>> {
    headers.get_all(name).iter().map(|v| v.as_bytes().to_vec()).collect()
}

fn assert_hardened(headers: &HeaderMap) {
    assert_eq!(values(headers, "content-security-policy"), vec![CSP.as_bytes().to_vec()]);
    assert_eq!(
        values(headers, "strict-transport-security"),
        vec![b"max-age=31536000; includeSubDomains; preload".to_vec()]
    );
    assert_eq!(values(headers, "x-content-type-options"), vec![b"nosniff".to_vec()]);
    assert_eq!(values(headers, "x-frame-options"), vec![b"DENY".to_vec()]);
    assert_eq!(
        values(headers, "referrer-policy"),
        vec![b"strict-origin-when-cross-origin".to_vec()]
    );
}

fn filled(names: usize) -> HeaderMap {
    let mut headers = HeaderMap::new();
    for i in 0..names {
        let name = HeaderName::from_bytes(format!("x-filler-{}", i).as_bytes()).unwrap();
        headers.insert(name, HeaderValue::from_static("1"));
    }
    headers
}

#[test]
fn table_has_the_five_lines_in_order() {
    let set = security_header_set();
    let lines: Vec<(&str, &str)> = set.iter().map(|l| (l.name, l.value)).collect();
    assert_eq!(
        lines,
        vec![
            ("Content-Security-Policy", CSP),
            ("Strict-Transport-Security", "max-age=31536000; includeSubDomains; preload"),
            ("X-Content-Type-Options", "nosniff"),
            ("X-Frame-Options", "DENY"),
            ("Referrer-Policy", "strict-origin-when-cross-origin"),
        ]
    );
}

#[test]
fn constants_hold_the_literal_values() {
    assert_eq!(CONTENT_SECURITY_POLICY, CSP);
    assert_eq!(STRICT_TRANSPORT_SECURITY, "max-age=31536000; includeSubDomains; preload");
    assert_eq!(X_CONTENT_TYPE_OPTIONS, "nosniff");
    assert_eq!(X_FRAME_OPTIONS, "DENY");
    assert_eq!(REFERRER_POLICY, "strict-origin-when-cross-origin");
    assert_eq!(MAX_FIELD_NAMES, 6553);
}

#[test]
fn empty_map_gets_exactly_the_five_headers() {
    let mut headers = HeaderMap::new();
    security_headers(&mut headers);
    assert_hardened(&headers);
    assert_eq!(headers.keys_len(), 5);
    assert_eq!(headers.len(), 5);
}

#[test]
fn earlier_values_are_overwritten() {
    let mut headers = HeaderMap::new();
    headers.insert("x-frame-options", HeaderValue::from_static("SAMEORIGIN"));
    headers.insert("content-security-policy", HeaderValue::from_static("default-src *"));
    headers.insert("referrer-policy", HeaderValue::from_static("unsafe-url"));
    headers.insert("strict-transport-security", HeaderValue::from_static("max-age=0"));
    headers.insert("x-content-type-options", HeaderValue::from_static("sniff"));
    security_headers(&mut headers);
    assert_hardened(&headers);
    assert_eq!(headers.len(), 5);
}

#[test]
fn several_earlier_values_under_one_name_all_leave() {
    let mut headers = HeaderMap::new();
    headers.append("x-frame-options", HeaderValue::from_static("SAMEORIGIN"));
    headers.append("x-frame-options", HeaderValue::from_static("ALLOW-FROM https://a.example"));
    headers.append("x-frame-options", HeaderValue::from_static("DENY"));
    security_headers(&mut headers);
    assert_hardened(&headers);
    assert_eq!(headers.len(), 5);
}

#[test]
fn names_written_in_another_case_are_the_same_field() {
    let mut headers = HeaderMap::new();
    let name = HeaderName::from_bytes(b"X-FRAME-OPTIONS").unwrap();
    headers.insert(name, HeaderValue::from_static("SAMEORIGIN"));
    security_headers(&mut headers);
    assert_hardened(&headers);
    assert_eq!(headers.keys_len(), 5);
}

#[test]
fn other_fields_stay_as_they_were() {
    let mut headers = HeaderMap::new();
    headers.insert("content-type", HeaderValue::from_static("application/json"));
    headers.append("set-cookie", HeaderValue::from_static("a=1"));
    headers.append("set-cookie", HeaderValue::from_static("b=2"));
    headers.insert("x-request-id", HeaderValue::from_static("42"));
    security_headers(&mut headers);
    assert_hardened(&headers);
    assert_eq!(values(&headers, "content-type"), vec![b"application/json".to_vec()]);
    assert_eq!(values(&headers, "set-cookie"), vec![b"a=1".to_vec(), b"b=2".to_vec()]);
    assert_eq!(values(&headers, "x-request-id"), vec![b"42".to_vec()]);
    assert_eq!(headers.keys_len(), 8);
    assert_eq!(headers.len(), 9);
}

#[test]
fn stamping_twice_is_stamping_once() {
    let mut once = HeaderMap::new();
    once.insert("content-type", HeaderValue::from_static("text/html"));
    once.insert("x-frame-options", HeaderValue::from_static("SAMEORIGIN"));
    let mut twice = once.clone();
    security_headers(&mut once);
    security_headers(&mut twice);
    security_headers(&mut twice);
    assert_eq!(once, twice);
    assert_eq!(twice.len(), 6);
    assert_hardened(&twice);
}

#[test]
fn try_stamps_a_map_with_room() {
    let mut headers = HeaderMap::new();
    headers.insert("content-type", HeaderValue::from_static("text/plain"));
    assert!(try_security_headers(&mut headers));
    assert_hardened(&headers);
    assert_eq!(values(&headers, "content-type"), vec![b"text/plain".to_vec()]);
}

#[test]
fn try_stamps_a_map_at_the_limit() {
    let mut headers = filled(MAX_FIELD_NAMES - 4);
    assert!(try_security_headers(&mut headers));
    assert_hardened(&headers);
    assert_eq!(headers.keys_len(), MAX_FIELD_NAMES + 1);
}

#[test]
fn try_leaves_a_map_over_the_limit_alone() {
    let mut headers = filled(MAX_FIELD_NAMES - 3);
    let before = headers.clone();
    assert!(!try_security_headers(&mut headers));
    assert_eq!(headers, before);
    assert!(headers.get("x-frame-options").is_none());
}

#[test]
fn try_stamps_a_map_whose_table_cannot_grow() {
    let mut headers = HeaderMap::with_capacity(24576);
    for i in 0..(MAX_FIELD_NAMES - 4) {
        let name = HeaderName::from_bytes(format!("x-filler-{}", i).as_bytes()).unwrap();
        headers.insert(name, HeaderValue::from_static("1"));
    }
    assert!(try_security_headers(&mut headers));
    assert_hardened(&headers);
    assert_eq!(headers.keys_len(), MAX_FIELD_NAMES + 1);
}

#[test]
fn try_counts_names_not_values() {
    let mut headers = HeaderMap::new();
    for i in 0..5000 {
        headers.append("set-cookie", HeaderValue::from_str(&format!("c{}=1", i)).unwrap());
    }
    assert!(try_security_headers(&mut headers));
    assert_hardened(&headers);
    assert_eq!(headers.keys_len(), 6);
    assert_eq!(headers.len(), 5005);
}
