use run_my_rust::config::{ButtonMenu, ButtonMenuRole, ButtonStyleKind};
use run_my_rust::menu::{reconcile_menu, ChannelMessage, MenuAction};

const BOT_ID: u64 = 111;

fn menu() -> ButtonMenu {
    ButtonMenu {
        channel_id: 50,
        roles: vec![
            ButtonMenuRole { id: 7, label: String::from("helper"), style: 1 },
            ButtonMenuRole { id: 8, label: String::from("events"), style: 9 },
        ],
        message: String::from("Pick your roles!"),
        comp_type: String::from("button"),
    }
}

fn ours(id: u64, content: &str) -> ChannelMessage {
    ChannelMessage {
        id,
        author_id: BOT_ID,
        author_is_bot: true,
        content: String::from(content),
    }
}

fn theirs(id: u64, content: &str) -> ChannelMessage {
    ChannelMessage { id, author_id: 9, author_is_bot: false, content: String::from(content) }
}

/// Performs the reconciler's actions on a history, newest first.
fn apply(history: &[ChannelMessage], actions: &[MenuAction], fresh_id: u64) -> Vec<ChannelMessage> {
    let mut deleted: Vec<u64> = Vec::new();
    let mut posted = false;
    for a in actions {
        match a {
            MenuAction::DeleteMessage { message_id } => deleted.push(*message_id),
            MenuAction::PostMenu { .. } => posted = true,
        }
    }
    let mut out: Vec<ChannelMessage> = Vec::new();
    if posted {
        out.push(ours(fresh_id, "Pick your roles!"));
    }
    for m in history {
        if !deleted.contains(&m.id) {
            out.push(ChannelMessage {
                id: m.id,
                author_id: m.author_id,
                author_is_bot: m.author_is_bot,
                content: m.content.clone(),
            });
        }
    }
    out
}

fn live_menus(history: &[ChannelMessage]) -> usize {
    history
        .iter()
        .filter(|m| m.author_is_bot && m.author_id == BOT_ID && m.content == "Pick your roles!")
        .count()
}

#[test]
fn stale_menu_is_deleted_and_reposted() {
    let m = menu();
    let history = vec![ours(1, "Pick your roles!"), theirs(2, "hello")];
    let actions = reconcile_menu(BOT_ID, &m, &history);
    assert_eq!(actions.len(), 2);
    assert!(matches!(actions[0], MenuAction::DeleteMessage { message_id: 1 }));
    match &actions[1] {
        MenuAction::PostMenu { channel_id, content, buttons } => {
            assert_eq!(*channel_id, 50);
            assert_eq!(content, "Pick your roles!");
            assert_eq!(buttons.len(), 2);
            assert_eq!(buttons[0].custom_id, "7");
            assert_eq!(buttons[0].label, "helper");
            assert_eq!(buttons[0].style, ButtonStyleKind::Primary);
            // an out-of-range style byte falls back to Secondary
            assert_eq!(buttons[1].style, ButtonStyleKind::Secondary);
        }
        _ => panic!("a fresh menu must be posted"),
    }
}

#[test]
fn reconciler_is_idempotent_on_unchanged_channel() {
    let m = menu();
    let history = vec![
        ours(1, "Pick your roles!"),
        ours(2, "some other bot post"),
        ours(3, "Pick your roles!"),
        theirs(4, "hello"),
        theirs(5, "more chat"),
    ];

    let first = reconcile_menu(BOT_ID, &m, &history);
    let after_first = apply(&history, &first, 100);
    assert_eq!(live_menus(&after_first), 1);

    let second = reconcile_menu(BOT_ID, &m, &after_first);
    let after_second = apply(&after_first, &second, 101);
    assert_eq!(live_menus(&after_second), 1);
}

#[test]
fn scan_stops_at_first_foreign_message() {
    // a stale menu below the first foreign message is left alone,
    // deliberately: only the most recent stretch is reconciled
    let m = menu();
    let history = vec![theirs(4, "hello"), ours(1, "Pick your roles!")];
    let actions = reconcile_menu(BOT_ID, &m, &history);
    assert_eq!(actions.len(), 1);
    assert!(matches!(&actions[0], MenuAction::PostMenu { .. }));
}

#[test]
fn all_own_history_only_deletes() {
    let m = menu();
    let history = vec![ours(1, "Pick your roles!"), ours(2, "Pick your roles!")];
    let actions = reconcile_menu(BOT_ID, &m, &history);
    assert_eq!(actions.len(), 2);
    assert!(matches!(actions[0], MenuAction::DeleteMessage { message_id: 1 }));
    assert!(matches!(actions[1], MenuAction::DeleteMessage { message_id: 2 }));
}

#[test]
fn empty_history_does_nothing() {
    let m = menu();
    let actions = reconcile_menu(BOT_ID, &m, &Vec::new());
    assert!(actions.is_empty());
}

#[test]
fn other_bot_text_is_kept() {
    let m = menu();
    let history = vec![ours(1, "unrelated bot message"), theirs(2, "hi")];
    let actions = reconcile_menu(BOT_ID, &m, &history);
    assert_eq!(actions.len(), 1);
    assert!(matches!(&actions[0], MenuAction::PostMenu { .. }));
}
