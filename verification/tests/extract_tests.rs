use run_my_rust::extract::{extract, submission_from_modal};

#[test]
fn no_fence_returns_none() {
    assert!(extract("let x = 1;").is_none());
    assert!(extract("").is_none());
    assert!(extract("hello ```rust\ncode```").is_none());
}

#[test]
fn rs_tag_accepted() {
    let sub = extract("```rs\nlet x = 1;\n```").expect("rs tag must extract");
    assert_eq!(sub.language_tag.as_deref(), Some("rs"));
    assert_eq!(sub.raw_text, "let x = 1;\n");
}

#[test]
fn rust_tag_accepted() {
    let sub = extract("```rust\nfn main() { }\n```").expect("rust tag must extract");
    assert_eq!(sub.language_tag.as_deref(), Some("rust"));
    assert_eq!(sub.raw_text, "fn main() { }\n");
    assert!(!sub.wrapped);
}

#[test]
fn other_tags_rejected() {
    assert!(extract("```python\nprint(1)\n```").is_none());
    assert!(extract("```RS\nlet x = 1;\n```").is_none());
    assert!(extract("```Rust\nlet x = 1;\n```").is_none());
    assert!(extract("```rsx\nlet x = 1;\n```").is_none());
}

#[test]
fn absent_tag_rejected() {
    assert!(extract("```\nlet x = 1;\n```").is_none());
    assert!(extract("```").is_none());
    assert!(extract("```let x = 1;```").is_none());
}

#[test]
fn tag_line_is_trimmed() {
    assert!(extract("``` rs \ncode\n```").is_some());
    assert!(extract("```rust\r\ncode\n```").is_some());
}

#[test]
fn unclosed_fence_still_extracts() {
    let sub = extract("```rs\n1 + 1").expect("unclosed fence extracts to end");
    assert_eq!(sub.raw_text, "1 + 1");
    assert!(sub.wrapped);
}

#[test]
fn bare_expression_is_wrapped() {
    let sub = extract("```rs\n1 + 1\n```").unwrap();
    assert!(sub.wrapped);
    let code = sub.code();
    assert!(code.starts_with("fn main() { println!(\"{:?}\", { "));
    assert!(code.contains("1 + 1"));
    assert!(code.ends_with(" } ) }"));
}

#[test]
fn entry_point_submitted_as_is() {
    let sub = extract("```rust\nfn main() { println!(\"hi\"); }\n```").unwrap();
    assert!(!sub.wrapped);
    assert_eq!(sub.code(), "fn main() { println!(\"hi\"); }\n");
}

#[test]
fn modal_submission_has_no_tag() {
    let sub = submission_from_modal("2 + 2");
    assert!(sub.language_tag.is_none());
    assert_eq!(sub.raw_text, "2 + 2");
    assert!(sub.wrapped);

    let sub = submission_from_modal("fn main() {}");
    assert!(!sub.wrapped);
}

#[test]
fn empty_body_after_tag() {
    let sub = extract("```rs\n```").expect("empty body extracts");
    assert_eq!(sub.raw_text, "");
    assert!(sub.wrapped);
}
