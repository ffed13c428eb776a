use run_my_rust::play::Playground;

fn decode(body: &[u8]) -> serde_json::Value {
    serde_json::from_slice(body).expect("request body must parse as JSON")
}

#[test]
fn new_playground_has_fixed_fields() {
    let p = Playground::new(String::from("fn main() {}"));
    assert_eq!(p.channel, "stable");
    assert_eq!(p.mode, "debug");
    assert_eq!(p.edition, "2021");
    assert!(!p.backtrace);
    assert!(!p.tests);
    assert_eq!(p.crate_type, "bin");
    assert_eq!(p.code, "fn main() {}");
}

#[test]
fn request_body_is_valid_json() {
    let p = Playground::new(String::from("fn main() { println!(\"hi\"); }"));
    let body = p.request_body();
    let v = decode(&body);
    assert_eq!(v["channel"].as_str(), Some("stable"));
    assert_eq!(v["mode"].as_str(), Some("debug"));
    assert_eq!(v["edition"].as_str(), Some("2021"));
    assert_eq!(v["backtrace"].as_bool(), Some(false));
    assert_eq!(v["tests"].as_bool(), Some(false));
    assert_eq!(v["crateType"].as_str(), Some("bin"));
    assert_eq!(v["code"].as_str(), Some("fn main() { println!(\"hi\"); }"));
}

#[test]
fn request_body_escapes_specials() {
    let code = "let s = \"a\\\\b\";\nlet t = '\t';\r\u{0}\u{1f}";
    let p = Playground::new(String::from(code));
    let body = p.request_body();
    let v = decode(&body);
    assert_eq!(v["code"].as_str(), Some(code));
}

#[test]
fn request_body_keeps_unicode() {
    let code = "println!(\"héllo 🌀\");";
    let p = Playground::new(String::from(code));
    let body = p.request_body();
    let v = decode(&body);
    assert_eq!(v["code"].as_str(), Some(code));
}

#[test]
fn request_body_exact_for_plain_code() {
    let p = Playground::new(String::from("1+1"));
    let body = p.request_body();
    let expected = "{\"channel\":\"stable\",\"mode\":\"debug\",\"edition\":\"2021\",\"backtrace\":false,\"tests\":false,\"crateType\":\"bin\",\"code\":\"1+1\"}";
    assert_eq!(String::from_utf8(body).unwrap(), expected);
}
