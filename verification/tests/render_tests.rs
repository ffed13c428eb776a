use run_my_rust::play::PlaygroundResult;
use run_my_rust::render::{
    classify, compose_body, outcome_reaction, render, ExecutionOutcome, Reaction,
    RenderedResponse, ResponsePath, INLINE_LIMIT,
};

#[test]
fn classify_success_range_with_body() {
    let decoded = PlaygroundResult {
        success: true,
        stdout: String::from("hi"),
        stderr: String::new(),
    };
    match classify(200, Some(decoded)) {
        ExecutionOutcome::Success { succeeded, stdout, stderr } => {
            assert!(succeeded);
            assert_eq!(stdout, "hi");
            assert_eq!(stderr, "");
        }
        _ => panic!("a decodable 2xx answer must classify as Success"),
    }
}

#[test]
fn classify_failed_compile_is_still_success() {
    let decoded = PlaygroundResult {
        success: false,
        stdout: String::new(),
        stderr: String::from("error[E0308]"),
    };
    assert!(matches!(
        classify(200, Some(decoded)),
        ExecutionOutcome::Success { succeeded: false, .. }
    ));
}

#[test]
fn classify_non_2xx_or_undecodable() {
    assert!(matches!(
        classify(500, None),
        ExecutionOutcome::ServiceFailure { status: 500 }
    ));
    let decoded = PlaygroundResult {
        success: true,
        stdout: String::new(),
        stderr: String::new(),
    };
    assert!(matches!(
        classify(404, Some(decoded)),
        ExecutionOutcome::ServiceFailure { status: 404 }
    ));
    assert!(matches!(
        classify(204, None),
        ExecutionOutcome::ServiceFailure { status: 204 }
    ));
}

#[test]
fn compose_contains_verdict_and_streams() {
    let body = compose_body(true, "hi", "");
    assert_eq!(body, "Result: true\nStds:\n**Out:** hi\n**Err:** ``````");
    let body = compose_body(false, "", "boom");
    assert!(body.contains("Result: false"));
    assert!(body.contains("boom"));
}

#[test]
fn compose_escapes_backticks_in_stderr() {
    let body = compose_body(false, "", "use `foo` here");
    assert!(body.contains("use \"foo\" here"));
    assert!(body.ends_with("```"));
}

#[test]
fn boundary_2000_stays_inline() {
    let body = "a".repeat(INLINE_LIMIT);
    match render(body.clone(), ResponsePath::Followup { guild_id: 5, user_id: 7 }) {
        RenderedResponse::InlineText { text } => assert_eq!(text, body),
        _ => panic!("a body of exactly 2000 characters must stay inline"),
    }
}

#[test]
fn boundary_2001_becomes_file() {
    let body = "a".repeat(INLINE_LIMIT + 1);
    match render(body.clone(), ResponsePath::Followup { guild_id: 5, user_id: 7 }) {
        RenderedResponse::FileAttachment { file, filename } => {
            assert_eq!(file, body.into_bytes());
            assert_eq!(filename, "5-7.txt");
        }
        _ => panic!("a body of 2001 characters must switch to a file"),
    }
}

#[test]
fn message_path_renders_a_thread() {
    let body = compose_body(true, "hi", "");
    match render(body, ResponsePath::MessageThread { author_id: 42, message_id: 99 }) {
        RenderedResponse::NewThread { title, body } => {
            assert_eq!(title, "42-99");
            assert!(body.contains("Result: true"));
            assert!(body.contains("hi"));
        }
        _ => panic!("the message path must render into a new thread"),
    }
}

#[test]
fn outcome_reactions() {
    assert_eq!(
        outcome_reaction(&ExecutionOutcome::TransportFailure),
        Some(Reaction::Failed)
    );
    assert_eq!(
        outcome_reaction(&ExecutionOutcome::Success {
            succeeded: false,
            stdout: String::new(),
            stderr: String::new(),
        }),
        Some(Reaction::Success)
    );
    assert_eq!(
        outcome_reaction(&ExecutionOutcome::ServiceFailure { status: 500 }),
        None
    );
}

#[test]
fn reaction_emojis() {
    assert_eq!(Reaction::Working.emoji(), "🌀");
    assert_eq!(Reaction::Failed.emoji(), "❌");
    assert_eq!(Reaction::Success.emoji(), "✅");
    assert_eq!(Reaction::Warning.emoji(), "⚠️");
}
