use run_my_rust::config::{ButtonMenuSettings, Config};
use run_my_rust::policy::{
    authorize, deny_is_visible, Authorization, AuthorizationContext, DenyReason, TriggerKind,
};
use run_my_rust::render::{ExecutionOutcome, Reaction};
use run_my_rust::router::{
    after_execution, handle_command_project, handle_command_run, handle_command_run_message,
    handle_component, handle_event, handle_message, handle_modal, AckKind, Action, CommandEvent,
    CommandOptions, Event, InteractionEvent, InteractionKind, MessageEvent, ModalField, RunOrigin,
    TargetMessage,
};

fn test_config() -> Config {
    Config {
        token: String::from("SECRET-REDACTED"),
        bot_id: 111,
        server_id: 222,
        channels: vec![10, 20],
        banned_roles: vec![66],
        projects_channel: Some(77),
        settings: ButtonMenuSettings { send_on_start: true, messages_to_check: 15 },
        button_menus: Vec::new(),
    }
}

fn interaction(kind: InteractionKind) -> InteractionEvent {
    InteractionEvent {
        in_guild: true,
        guild_id: 222,
        channel_id: 30,
        user_id: 5,
        user_name: String::from("ferris"),
        user_discriminator: 42,
        user_avatar: None,
        kind,
    }
}

fn message(channel_id: u64, roles: Option<Vec<u64>>, content: &str) -> MessageEvent {
    MessageEvent {
        channel_id,
        message_id: 99,
        author_id: 42,
        member_roles: roles,
        content: String::from(content),
    }
}

#[test]
fn authorize_decisions() {
    let cfg = test_config();
    let allow = authorize(
        &AuthorizationContext {
            trigger: TriggerKind::Message,
            channel_id: 10,
            in_guild: true,
            member_roles: Some(vec![1, 2]),
        },
        &cfg,
    );
    assert_eq!(allow, Authorization::Allow);

    let off_channel = authorize(
        &AuthorizationContext {
            trigger: TriggerKind::Message,
            channel_id: 11,
            in_guild: true,
            member_roles: Some(vec![1]),
        },
        &cfg,
    );
    assert_eq!(off_channel, Authorization::Deny(DenyReason::ChannelNotAllowed));

    let banned = authorize(
        &AuthorizationContext {
            trigger: TriggerKind::Interaction,
            channel_id: 30,
            in_guild: true,
            member_roles: Some(vec![1, 66]),
        },
        &cfg,
    );
    assert_eq!(banned, Authorization::Deny(DenyReason::Banned));

    let not_cached = authorize(
        &AuthorizationContext {
            trigger: TriggerKind::Interaction,
            channel_id: 30,
            in_guild: true,
            member_roles: None,
        },
        &cfg,
    );
    assert_eq!(not_cached, Authorization::Deny(DenyReason::NotCached));

    let no_guild = authorize(
        &AuthorizationContext {
            trigger: TriggerKind::Interaction,
            channel_id: 30,
            in_guild: false,
            member_roles: Some(vec![1]),
        },
        &cfg,
    );
    assert_eq!(no_guild, Authorization::Deny(DenyReason::NotInGuild));
}

#[test]
fn out_of_guild_interactions_are_ignored() {
    let cfg = test_config();
    let mut ev = interaction(InteractionKind::Command(CommandEvent {
        name: String::from("run"),
        target: None,
        options: CommandOptions { name: None, description: None, crates_io: None, github: None },
    }));
    ev.in_guild = false;
    let actions = handle_command_run(&cfg, &ev, &Some(vec![1]));
    assert!(actions.is_empty());
}

#[test]
fn only_not_cached_denials_are_visible() {
    // the asymmetry of the guard: the soft cache miss is communicated,
    // a ban (and the silent gates) are not
    assert!(deny_is_visible(DenyReason::NotCached));
    assert!(!deny_is_visible(DenyReason::Banned));
    assert!(!deny_is_visible(DenyReason::ChannelNotAllowed));
    assert!(!deny_is_visible(DenyReason::NotInGuild));
}

#[test]
fn banned_member_rust_block_is_silent() {
    // banned-role member posts a fenced rust block in an allowed channel:
    // no reaction of any kind, no submission
    let cfg = test_config();
    let msg = message(10, Some(vec![66]), "```rust\nfn main() {}\n```");
    let actions = handle_message(&cfg, &msg);
    assert!(actions.is_empty());
}

#[test]
fn disallowed_channel_is_silent() {
    let cfg = test_config();
    let msg = message(55, Some(vec![1]), "```rust\nfn main() {}\n```");
    let actions = handle_message(&cfg, &msg);
    assert!(actions.is_empty());
}

#[test]
fn failed_extraction_reacts_visibly() {
    let cfg = test_config();
    let msg = message(10, Some(vec![1]), "just chatting");
    let actions = handle_message(&cfg, &msg);
    assert_eq!(actions.len(), 1);
    assert!(matches!(
        actions[0],
        Action::React { channel_id: 10, message_id: 99, reaction: Reaction::Failed }
    ));
}

#[test]
fn accepted_message_reacts_working_and_submits() {
    let cfg = test_config();
    let msg = message(10, None, "```rs\n1 + 1\n```");
    let actions = handle_message(&cfg, &msg);
    assert_eq!(actions.len(), 2);
    assert!(matches!(
        actions[0],
        Action::React { channel_id: 10, message_id: 99, reaction: Reaction::Working }
    ));
    match &actions[1] {
        Action::SubmitExecution { body } => {
            let v: serde_json::Value = serde_json::from_slice(body).unwrap();
            let code = v["code"].as_str().unwrap();
            assert!(code.contains("1 + 1"));
            assert!(code.contains("fn main()"));
        }
        _ => panic!("the second action must submit the program"),
    }
}

#[test]
fn non_cached_run_gets_ephemeral_hint_and_no_modal() {
    let cfg = test_config();
    let ev = interaction(InteractionKind::Command(CommandEvent {
        name: String::from("run"),
        target: None,
        options: CommandOptions { name: None, description: None, crates_io: None, github: None },
    }));
    let actions = handle_command_run(&cfg, &ev, &None);
    assert_eq!(actions.len(), 1);
    match &actions[0] {
        Action::RespondEphemeral { content } => {
            assert_eq!(content, "You're not cached. Send a message somewhere and press me again.");
        }
        _ => panic!("a non-cached invoker must get the retry hint"),
    }
    assert!(!actions.iter().any(|a| matches!(a, Action::ShowModal { .. })));
}

#[test]
fn cached_run_opens_the_modal() {
    let cfg = test_config();
    let ev = interaction(InteractionKind::Command(CommandEvent {
        name: String::from("run"),
        target: None,
        options: CommandOptions { name: None, description: None, crates_io: None, github: None },
    }));
    let actions = handle_command_run(&cfg, &ev, &Some(vec![1]));
    assert_eq!(actions.len(), 1);
    match &actions[0] {
        Action::ShowModal { custom_id, title, field_custom_id, field_label } => {
            assert_eq!(custom_id, "run-my-rust");
            assert_eq!(title, "Rust Runner 9000");
            assert_eq!(field_custom_id, "code-to-run");
            assert_eq!(field_label, "Code to run");
        }
        _ => panic!("a cached, unbanned invoker must get the modal"),
    }
}

fn project_cmd(description: Option<String>) -> CommandEvent {
    CommandEvent {
        name: String::from("project"),
        target: None,
        options: CommandOptions {
            name: Some(String::from("verus")),
            description,
            crates_io: Some(true),
            github: Some(String::from("https://example.invalid/repo")),
        },
    }
}

#[test]
fn project_accepts_description_of_1000() {
    let cfg = test_config();
    let ev = interaction(InteractionKind::Command(project_cmd(Some("d".repeat(1000)))));
    let actions = handle_command_project(&cfg, &ev, &project_cmd(Some("d".repeat(1000))), &Some(vec![1]));
    assert_eq!(actions.len(), 3);
    assert!(matches!(actions[0], Action::Defer { kind: AckKind::ChannelMessage }));
    match &actions[1] {
        Action::PostShowcase {
            channel_id,
            content,
            title,
            description,
            author_tag,
            avatar_url,
            crates_link,
            github_link,
            thread_title,
        } => {
            assert_eq!(*channel_id, 77);
            assert_eq!(content, "A new project has been discovered!");
            assert_eq!(title, "verus");
            assert_eq!(description.as_deref(), Some("d".repeat(1000).as_str()));
            assert_eq!(author_tag, "ferris#0042");
            assert!(avatar_url.is_none());
            assert_eq!(crates_link.as_deref(), Some("https://crates.io/crates/verus"));
            assert_eq!(github_link.as_deref(), Some("https://example.invalid/repo"));
            assert_eq!(thread_title, "verus");
        }
        _ => panic!("the showcase must be posted"),
    }
    assert!(matches!(&actions[2], Action::FollowupText { content, ephemeral: true } if content == "👍"));
}

#[test]
fn project_rejects_description_of_1001() {
    let cfg = test_config();
    let cmd = project_cmd(Some("d".repeat(1001)));
    let ev = interaction(InteractionKind::Command(project_cmd(Some("d".repeat(1001)))));
    let actions = handle_command_project(&cfg, &ev, &cmd, &Some(vec![1]));
    assert_eq!(actions.len(), 2);
    assert!(matches!(actions[0], Action::Defer { kind: AckKind::ChannelMessage }));
    match &actions[1] {
        Action::FollowupText { content, ephemeral } => {
            assert!(*ephemeral);
            assert!(content.contains("too large or too small"));
        }
        _ => panic!("an oversized description must be rejected ephemerally"),
    }
    assert!(!actions.iter().any(|a| matches!(a, Action::PostShowcase { .. })));
}

#[test]
fn project_rejects_empty_description() {
    let cfg = test_config();
    let cmd = project_cmd(Some(String::new()));
    let ev = interaction(InteractionKind::Command(project_cmd(Some(String::new()))));
    let actions = handle_command_project(&cfg, &ev, &cmd, &Some(vec![1]));
    assert_eq!(actions.len(), 2);
    assert!(matches!(&actions[1], Action::FollowupText { ephemeral: true, .. }));
}

#[test]
fn component_toggle_adds_and_removes() {
    let cfg = test_config();
    let ev = interaction(InteractionKind::Component { custom_id: String::from("33") });
    let cid = String::from("33");

    // the member does not hold role 33: it is added
    let actions = handle_component(&cfg, &ev, &cid, &Some(vec![1, 2]));
    assert_eq!(actions.len(), 3);
    assert!(matches!(actions[0], Action::Defer { kind: AckKind::UpdateMessage }));
    match &actions[1] {
        Action::UpdateRoles { guild_id: 222, user_id: 5, roles } => {
            assert_eq!(roles, &vec![1, 2, 33]);
        }
        _ => panic!("the role must be added"),
    }
    assert!(matches!(&actions[2], Action::FollowupText { content, ephemeral: true }
        if content == "<:ferrischeck:957417376314429490> added <@&33>"));

    // the member holds role 33: it is removed
    let actions = handle_component(&cfg, &ev, &cid, &Some(vec![1, 33, 2]));
    assert_eq!(actions.len(), 3);
    match &actions[1] {
        Action::UpdateRoles { roles, .. } => assert_eq!(roles, &vec![1, 2]),
        _ => panic!("the role must be removed"),
    }
    assert!(matches!(&actions[2], Action::FollowupText { content, ephemeral: true }
        if content == "<:ferrischeck:957417376314429490> removed <@&33>"));
}

#[test]
fn component_bad_custom_id() {
    let cfg = test_config();
    let ev = interaction(InteractionKind::Component { custom_id: String::from("not-a-role") });
    let cid = String::from("not-a-role");
    let actions = handle_component(&cfg, &ev, &cid, &Some(vec![1]));
    assert_eq!(actions.len(), 2);
    assert!(matches!(&actions[1], Action::FollowupText { content, ephemeral: true }
        if content == "Failed to get the role id. Sorry."));
}

#[test]
fn modal_submits_field_text() {
    let cfg = test_config();
    let fields = vec![ModalField {
        custom_id: String::from("code-to-run"),
        value: String::from("40 + 2"),
    }];
    let ev = interaction(InteractionKind::ModalSubmit {
        custom_id: String::from("run-my-rust"),
        fields: Vec::new(),
    });
    let cid = String::from("run-my-rust");
    let actions = handle_modal(&cfg, &ev, &cid, &fields, &Some(vec![1]));
    assert_eq!(actions.len(), 2);
    assert!(matches!(actions[0], Action::Defer { kind: AckKind::ChannelMessage }));
    match &actions[1] {
        Action::SubmitExecution { body } => {
            let v: serde_json::Value = serde_json::from_slice(body).unwrap();
            assert!(v["code"].as_str().unwrap().contains("40 + 2"));
        }
        _ => panic!("the modal text must be submitted"),
    }
}

#[test]
fn modal_with_foreign_id_only_defers() {
    let cfg = test_config();
    let fields = vec![ModalField {
        custom_id: String::from("code-to-run"),
        value: String::from("40 + 2"),
    }];
    let ev = interaction(InteractionKind::ModalSubmit {
        custom_id: String::from("other-modal"),
        fields: Vec::new(),
    });
    let cid = String::from("other-modal");
    let actions = handle_modal(&cfg, &ev, &cid, &fields, &Some(vec![1]));
    assert_eq!(actions.len(), 1);
    assert!(matches!(actions[0], Action::Defer { kind: AckKind::ChannelMessage }));
}

#[test]
fn run_message_extracts_target() {
    let cfg = test_config();
    let cmd = CommandEvent {
        name: String::from("run-message"),
        target: Some(TargetMessage {
            message_id: 400,
            content: Some(String::from("```rust\nfn main() {}\n```")),
        }),
        options: CommandOptions { name: None, description: None, crates_io: None, github: None },
    };
    let ev = interaction(InteractionKind::Command(CommandEvent {
        name: String::from("run-message"),
        target: None,
        options: CommandOptions { name: None, description: None, crates_io: None, github: None },
    }));
    let actions = handle_command_run_message(&cfg, &ev, &cmd, &Some(vec![1]));
    assert_eq!(actions.len(), 3);
    assert!(matches!(actions[0], Action::Defer { kind: AckKind::ChannelMessage }));
    assert!(matches!(
        actions[1],
        Action::React { channel_id: 30, message_id: 400, reaction: Reaction::Working }
    ));
    assert!(matches!(actions[2], Action::SubmitExecution { .. }));
}

#[test]
fn run_message_unresolved_target_warns() {
    let cfg = test_config();
    let cmd = CommandEvent {
        name: String::from("run-message"),
        target: Some(TargetMessage { message_id: 400, content: None }),
        options: CommandOptions { name: None, description: None, crates_io: None, github: None },
    };
    let ev = interaction(InteractionKind::Command(CommandEvent {
        name: String::from("run-message"),
        target: None,
        options: CommandOptions { name: None, description: None, crates_io: None, github: None },
    }));
    let actions = handle_command_run_message(&cfg, &ev, &cmd, &Some(vec![1]));
    assert_eq!(actions.len(), 2);
    assert!(matches!(
        actions[1],
        Action::React { channel_id: 30, message_id: 400, reaction: Reaction::Warning }
    ));
}

#[test]
fn ready_event_logs() {
    let cfg = test_config();
    let actions = handle_event(&cfg, &Event::Ready { shard_id: 3 }, &None);
    assert_eq!(actions.len(), 1);
    assert!(matches!(actions[0], Action::LogReady { shard_id: 3 }));
}

#[test]
fn unknown_command_is_ignored() {
    let cfg = test_config();
    let ev = interaction(InteractionKind::Command(CommandEvent {
        name: String::from("dance"),
        target: None,
        options: CommandOptions { name: None, description: None, crates_io: None, github: None },
    }));
    let actions = handle_event(&cfg, &Event::InteractionCreate(ev), &Some(vec![1]));
    assert!(actions.is_empty());
}

#[test]
fn success_outcome_on_message_path_creates_thread() {
    // round trip: a successful outcome on the message path yields a new
    // thread whose body holds the verdict and the output
    let outcome = ExecutionOutcome::Success {
        succeeded: true,
        stdout: String::from("hi"),
        stderr: String::new(),
    };
    let origin = RunOrigin::MessageRun { channel_id: 10, message_id: 99, author_id: 42 };
    let actions = after_execution(&outcome, &origin);
    assert_eq!(actions.len(), 2);
    assert!(matches!(
        actions[0],
        Action::React { channel_id: 10, message_id: 99, reaction: Reaction::Success }
    ));
    match &actions[1] {
        Action::CreateThreadWithPost { channel_id, message_id, title, body } => {
            assert_eq!((*channel_id, *message_id), (10, 99));
            assert_eq!(title, "42-99");
            assert!(body.contains("Result: true"));
            assert!(body.contains("hi"));
        }
        _ => panic!("the message path must create a thread with the result"),
    }
}

#[test]
fn transport_failure_reacts_failed_and_stops() {
    let origin = RunOrigin::MessageRun { channel_id: 10, message_id: 99, author_id: 42 };
    let actions = after_execution(&ExecutionOutcome::TransportFailure, &origin);
    assert_eq!(actions.len(), 1);
    assert!(matches!(
        actions[0],
        Action::React { channel_id: 10, message_id: 99, reaction: Reaction::Failed }
    ));
}

#[test]
fn service_failure_posts_fallback_on_message_path() {
    let origin = RunOrigin::MessageRun { channel_id: 10, message_id: 99, author_id: 42 };
    let actions = after_execution(&ExecutionOutcome::ServiceFailure { status: 500 }, &origin);
    assert_eq!(actions.len(), 1);
    assert!(matches!(&actions[0], Action::PostMessage { channel_id: 10, content }
        if content.starts_with(":x: there was an error")));
}

#[test]
fn long_modal_output_becomes_attachment() {
    let outcome = ExecutionOutcome::Success {
        succeeded: true,
        stdout: "o".repeat(3000),
        stderr: String::new(),
    };
    let actions = after_execution(&outcome, &RunOrigin::ModalRun { guild_id: 222, user_id: 5 });
    assert_eq!(actions.len(), 1);
    match &actions[0] {
        Action::FollowupFile { content, file, filename } => {
            assert!(content.contains("too long"));
            assert_eq!(filename, "222-5.txt");
            assert!(file.len() > 3000);
        }
        _ => panic!("a long output must go out as a file"),
    }
}

#[test]
fn short_modal_output_is_inline() {
    let outcome = ExecutionOutcome::Success {
        succeeded: true,
        stdout: String::from("42"),
        stderr: String::new(),
    };
    let actions = after_execution(&outcome, &RunOrigin::ModalRun { guild_id: 222, user_id: 5 });
    assert_eq!(actions.len(), 1);
    assert!(matches!(&actions[0], Action::FollowupText { content, ephemeral: false }
        if content.contains("Result: true") && content.contains("42")));
}
