//! Button-menu reconciler: the one-shot startup routine that scans a
//! channel's recent history newest-first, deletes the bot's own stale
//! menu messages, and posts a fresh menu at the first message that is
//! not the bot's own. Scanning stops there, so only the most recent
//! stretch of the channel is reconciled — a deliberate limitation.

use vstd::prelude::*;

verus! {

use crate::config::ButtonMenu;
use crate::config::ButtonMenuRole;
use crate::config::ButtonStyleKind;
use crate::config::spec_style_kind;
use crate::text::dec_str;
use crate::text::u64_to_string;

/// The reconciler's model of one fetched channel message. Histories are
/// ordered newest first, as the platform returns them.
pub struct ChannelMessage {
    pub id: u64,
    pub author_id: u64,
    pub author_is_bot: bool,
    pub content: String,
}

/// One role-toggle button of a freshly posted menu.
pub struct MenuButton {
    /// The toggled role's id in decimal; pressing the button parses it back.
    pub custom_id: String,
    pub label: String,
    pub style: ButtonStyleKind,
}

/// An effect the reconciler asks the platform for, in order.
pub enum MenuAction {
    DeleteMessage { message_id: u64 },
    PostMenu { channel_id: u64, content: String, buttons: Vec<MenuButton> },
}

/// A message authored by this bot.
pub open spec fn is_ours(m: ChannelMessage, bot_id: u64) -> bool {
    m.author_is_bot && m.author_id == bot_id
}

/// A live menu message: the bot's own, with exactly the configured text.
pub open spec fn is_menu_message(m: ChannelMessage, bot_id: u64, content: Seq<char>) -> bool {
    is_ours(m, bot_id) && m.content@ == content
}

/// The index of the first message not authored by this bot, or the
/// history's length if every message is the bot's own.
pub open spec fn first_foreign_index(bot_id: u64, h: Seq<ChannelMessage>) -> int
    decreases h.len(),
{
    if h.len() == 0 {
        0
    } else if is_ours(h[0], bot_id) {
        1 + first_foreign_index(bot_id, h.drop_first())
    } else {
        0
    }
}

/// The ids of the stale menu messages the reconciler deletes: the bot's
/// own matching messages scanned before the first foreign message, in
/// scan order.
pub open spec fn stale_menu_ids(bot_id: u64, content: Seq<char>, h: Seq<ChannelMessage>) -> Seq<
    u64,
>
    decreases h.len(),
{
    if h.len() == 0 {
        Seq::empty()
    } else if is_ours(h[0], bot_id) {
        if h[0].content@ == content {
            seq![h[0].id] + stale_menu_ids(bot_id, content, h.drop_first())
        } else {
            stale_menu_ids(bot_id, content, h.drop_first())
        }
    } else {
        Seq::empty()
    }
}

/// Whether the scan reaches a foreign message and so posts a fresh menu.
pub open spec fn posts_fresh_menu(bot_id: u64, h: Seq<ChannelMessage>) -> bool
    decreases h.len(),
{
    if h.len() == 0 {
        false
    } else if is_ours(h[0], bot_id) {
        posts_fresh_menu(bot_id, h.drop_first())
    } else {
        true
    }
}

/// The history with every message whose id is listed removed.
pub open spec fn remove_ids(h: Seq<ChannelMessage>, dels: Seq<u64>) -> Seq<ChannelMessage>
    decreases h.len(),
{
    if h.len() == 0 {
        Seq::empty()
    } else if dels.contains(h[0].id) {
        remove_ids(h.drop_first(), dels)
    } else {
        seq![h[0]] + remove_ids(h.drop_first(), dels)
    }
}

/// How many live menu messages a history holds.
pub open spec fn menu_count(bot_id: u64, content: Seq<char>, h: Seq<ChannelMessage>) -> nat
    decreases h.len(),
{
    if h.len() == 0 {
        0
    } else {
        (if is_menu_message(h[0], bot_id, content) {
            1nat
        } else {
            0nat
        }) + menu_count(bot_id, content, h.drop_first())
    }
}

/// The channel after one reconciler run: the stale menus are gone, and
/// when the scan reached a foreign message, the fresh menu message
/// stands newest.
pub open spec fn spec_run(
    bot_id: u64,
    content: Seq<char>,
    h: Seq<ChannelMessage>,
    fresh: ChannelMessage,
) -> Seq<ChannelMessage> {
    let kept = remove_ids(h, stale_menu_ids(bot_id, content, h));
    if posts_fresh_menu(bot_id, h) {
        seq![fresh] + kept
    } else {
        kept
    }
}

/// The buttons of a posted menu, one per configured role, in order.
pub open spec fn buttons_wf(bs: Seq<MenuButton>, roles: Seq<ButtonMenuRole>) -> bool {
    &&& bs.len() == roles.len()
    &&& forall|j: int|
        0 <= j < bs.len() ==> {
            &&& (#[trigger] bs[j]).custom_id@ == dec_str(roles[j].id as nat)
            &&& bs[j].label@ == roles[j].label@
            &&& bs[j].style == spec_style_kind(roles[j].style)
        }
}

fn build_buttons(menu: &ButtonMenu) -> (r: Vec<MenuButton>)
    ensures
        buttons_wf(r@, menu.roles@),
{
    let mut r: Vec<MenuButton> = Vec::new();
    let mut i: usize = 0;
    while i < menu.roles.len()
        invariant
            i <= menu.roles@.len(),
            r@.len() == i,
            forall|j: int|
                0 <= j < i ==> {
                    &&& (#[trigger] r@[j]).custom_id@ == dec_str(menu.roles@[j].id as nat)
                    &&& r@[j].label@ == menu.roles@[j].label@
                    &&& r@[j].style == spec_style_kind(menu.roles@[j].style)
                },
        decreases menu.roles@.len() - i,
    {
        let role = &menu.roles[i];
        r.push(
            MenuButton {
                custom_id: u64_to_string(role.id),
                label: role.label.clone(),
                style: role.style_kind(),
            },
        );
        i += 1;
    }
    r
}

/// Scans a fetched history newest-first and decides the reconciling
/// actions: a deletion for each of the bot's own messages matching the
/// menu text, until the first foreign message, where a fresh menu is
/// posted and the scan stops. A history that never reaches a foreign
/// message yields deletions only.
pub fn reconcile_menu(bot_id: u64, menu: &ButtonMenu, history: &Vec<ChannelMessage>) -> (r: Vec<
    MenuAction,
>)
    ensures
        r@.len() == stale_menu_ids(bot_id, menu.message@, history@).len() + (
        if posts_fresh_menu(bot_id, history@) {
            1int
        } else {
            0int
        }),
        forall|i: int|
            0 <= i < stale_menu_ids(bot_id, menu.message@, history@).len() ==> r@[i] == (
            MenuAction::DeleteMessage {
                message_id: stale_menu_ids(bot_id, menu.message@, history@)[i],
            }),
        posts_fresh_menu(bot_id, history@) ==> (r@.last() matches MenuAction::PostMenu {
            channel_id,
            content,
            buttons,
        } && channel_id == menu.channel_id && content@ == menu.message@ && buttons_wf(
            buttons@,
            menu.roles@,
        )),
{
    let ghost full: Seq<u64> = stale_menu_ids(bot_id, menu.message@, history@);
    let mut r: Vec<MenuAction> = Vec::new();
    let mut i: usize = 0;
    let n = history.len();
    proof {
        assert(history@.subrange(0, n as int) =~= history@);
    }
    while i < n
        invariant
            i <= n,
            n == history@.len(),
            full == stale_menu_ids(bot_id, menu.message@, history@),
            posts_fresh_menu(bot_id, history@) == posts_fresh_menu(
                bot_id,
                history@.subrange(i as int, n as int),
            ),
            full =~= r@.map_values(
                |a: MenuAction|
                    match a {
                        MenuAction::DeleteMessage { message_id } => message_id,
                        MenuAction::PostMenu { .. } => 0u64,
                    },
            ) + stale_menu_ids(
                bot_id,
                menu.message@,
                history@.subrange(i as int, n as int),
            ),
            forall|k: int|
                0 <= k < r@.len() ==> r@[k] == (MenuAction::DeleteMessage {
                    message_id: full[k],
                }),
        decreases n - i,
    {
        proof {
            assert(history@.subrange(i as int, n as int).drop_first() =~= history@.subrange(
                i + 1,
                n as int,
            ));
            assert(history@.subrange(i as int, n as int)[0] == history@[i as int]);
        }
        let m = &history[i];
        if m.author_is_bot && m.author_id == bot_id {
            if m.content.eq(&menu.message) {
                let ghost r_old = r@;
                r.push(MenuAction::DeleteMessage { message_id: m.id });
                proof {
                    assert(r@.map_values(
                        |a: MenuAction|
                            match a {
                                MenuAction::DeleteMessage { message_id } => message_id,
                                MenuAction::PostMenu { .. } => 0u64,
                            },
                    ) =~= r_old.map_values(
                        |a: MenuAction|
                            match a {
                                MenuAction::DeleteMessage { message_id } => message_id,
                                MenuAction::PostMenu { .. } => 0u64,
                            },
                    ).push(m.id));
                }
            }
            i += 1;
        } else {
            let buttons = build_buttons(menu);
            proof {
                assert(stale_menu_ids(
                    bot_id,
                    menu.message@,
                    history@.subrange(i as int, n as int),
                ) =~= Seq::<u64>::empty());
            }
            r.push(
                MenuAction::PostMenu {
                    channel_id: menu.channel_id,
                    content: menu.message.clone(),
                    buttons,
                },
            );
            return r;
        }
    }
    proof {
        assert(history@.subrange(n as int, n as int) =~= Seq::<ChannelMessage>::empty());
    }
    r
}

proof fn lemma_prefix_ours(bot_id: u64, h: Seq<ChannelMessage>)
    ensures
        0 <= first_foreign_index(bot_id, h) <= h.len(),
        forall|j: int| 0 <= j < first_foreign_index(bot_id, h) ==> is_ours(#[trigger] h[j], bot_id),
        first_foreign_index(bot_id, h) < h.len() ==> !is_ours(
            h[first_foreign_index(bot_id, h)],
            bot_id,
        ),
        posts_fresh_menu(bot_id, h) == (first_foreign_index(bot_id, h) < h.len()),
    decreases h.len(),
{
    if h.len() == 0 {
    } else if is_ours(h[0], bot_id) {
        lemma_prefix_ours(bot_id, h.drop_first());
        assert(forall|j: int|
            1 <= j < first_foreign_index(bot_id, h) ==> #[trigger] h[j] == h.drop_first()[j - 1]);
    } else {
    }
}

/// Which ids the reconciler deletes: exactly the ids of the live menu
/// messages that stand before the first foreign message.
proof fn lemma_stale_ids(bot_id: u64, content: Seq<char>, h: Seq<ChannelMessage>, x: u64)
    ensures
        stale_menu_ids(bot_id, content, h).contains(x) <==> exists|j: int|
            0 <= j < first_foreign_index(bot_id, h) && is_menu_message(
                #[trigger] h[j],
                bot_id,
                content,
            ) && h[j].id == x,
    decreases h.len(),
{
    if h.len() == 0 {
    } else if is_ours(h[0], bot_id) {
        lemma_stale_ids(bot_id, content, h.drop_first(), x);
        lemma_prefix_ours(bot_id, h.drop_first());
        let d = h.drop_first();
        let ids = stale_menu_ids(bot_id, content, h);
        let ids_d = stale_menu_ids(bot_id, content, d);
        if h[0].content@ == content && h[0].id == x {
            assert(ids[0] == x);
            assert(ids.contains(x));
            assert(is_menu_message(h[0], bot_id, content));
            assert(first_foreign_index(bot_id, h) >= 1);
        } else {
            assert(ids.contains(x) <==> ids_d.contains(x)) by {
                if h[0].content@ == content {
                    assert(ids == seq![h[0].id] + ids_d);
                    if ids.contains(x) {
                        let k = choose|k: int| 0 <= k < ids.len() && ids[k] == x;
                        assert(k >= 1);
                        assert(ids_d[k - 1] == x);
                    }
                    if ids_d.contains(x) {
                        let k = choose|k: int| 0 <= k < ids_d.len() && ids_d[k] == x;
                        assert(ids[k + 1] == x);
                    }
                } else {
                }
            }
            if ids.contains(x) {
                let j = choose|j: int|
                    0 <= j < first_foreign_index(bot_id, d) && is_menu_message(
                        #[trigger] d[j],
                        bot_id,
                        content,
                    ) && d[j].id == x;
                assert(h[j + 1] == d[j]);
                assert(first_foreign_index(bot_id, h) == 1 + first_foreign_index(bot_id, d));
            }
            if exists|j: int|
                0 <= j < first_foreign_index(bot_id, h) && is_menu_message(
                    #[trigger] h[j],
                    bot_id,
                    content,
                ) && h[j].id == x {
                let j = choose|j: int|
                    0 <= j < first_foreign_index(bot_id, h) && is_menu_message(
                        #[trigger] h[j],
                        bot_id,
                        content,
                    ) && h[j].id == x;
                assert(j != 0);
                assert(d[j - 1] == h[j]);
                assert(first_foreign_index(bot_id, h) == 1 + first_foreign_index(bot_id, d));
            }
        }
    } else {
    }
}

/// A history none of whose messages is a live menu counts zero menus.
proof fn lemma_menu_count_zero(bot_id: u64, content: Seq<char>, h: Seq<ChannelMessage>)
    requires
        forall|j: int| 0 <= j < h.len() ==> !is_menu_message(#[trigger] h[j], bot_id, content),
    ensures
        menu_count(bot_id, content, h) == 0,
    decreases h.len(),
{
    if h.len() == 0 {
    } else {
        assert(forall|j: int|
            0 <= j < h.drop_first().len() ==> #[trigger] h.drop_first()[j] == h[j + 1]);
        lemma_menu_count_zero(bot_id, content, h.drop_first());
    }
}

/// Removing every listed id keeps only messages whose id is unlisted,
/// and keeps each unlisted message.
proof fn lemma_remove_ids(h: Seq<ChannelMessage>, dels: Seq<u64>)
    ensures
        forall|k: int|
            0 <= k < remove_ids(h, dels).len() ==> h.contains(#[trigger] remove_ids(h, dels)[k])
                && !dels.contains(remove_ids(h, dels)[k].id),
        forall|j: int|
            0 <= j < h.len() && !dels.contains(#[trigger] h[j].id) ==> remove_ids(
                h,
                dels,
            ).contains(h[j]),
    decreases h.len(),
{
    if h.len() == 0 {
    } else {
        lemma_remove_ids(h.drop_first(), dels);
        let d = h.drop_first();
        let rd = remove_ids(d, dels);
        assert(forall|j: int| 0 <= j < d.len() ==> #[trigger] d[j] == h[j + 1]);
        assert forall|j: int| 0 <= j < h.len() && !dels.contains(#[trigger] h[j].id) implies
            remove_ids(h, dels).contains(h[j]) by {
            if j == 0 {
                assert(remove_ids(h, dels)[0] == h[0]);
            } else {
                assert(d[j - 1] == h[j]);
                assert(rd.contains(h[j]));
                let k = choose|k: int| 0 <= k < rd.len() && rd[k] == h[j];
                if dels.contains(h[0].id) {
                    assert(remove_ids(h, dels)[k] == h[j]);
                } else {
                    assert(remove_ids(h, dels)[k + 1] == h[j]);
                }
            }
        }
        assert forall|k: int| 0 <= k < remove_ids(h, dels).len() implies h.contains(
            #[trigger] remove_ids(h, dels)[k],
        ) && !dels.contains(remove_ids(h, dels)[k].id) by {
            if dels.contains(h[0].id) {
                assert(rd.contains(remove_ids(h, dels)[k]));
                let j = choose|j: int| 0 <= j < rd.len() && rd[j] == remove_ids(h, dels)[k];
                assert(d.contains(rd[j]));
                let m = choose|m: int| 0 <= m < d.len() && d[m] == rd[j];
                assert(h[m + 1] == remove_ids(h, dels)[k]);
            } else {
                if k == 0 {
                    assert(remove_ids(h, dels)[0] == h[0]);
                    assert(h[0] == h[0]);
                } else {
                    assert(rd[k - 1] == remove_ids(h, dels)[k]);
                    assert(d.contains(rd[k - 1]));
                    let m = choose|m: int| 0 <= m < d.len() && d[m] == rd[k - 1];
                    assert(h[m + 1] == remove_ids(h, dels)[k]);
                }
            }
        }
    }
}

/// After one run on a history whose live menus all precede the first
/// foreign message, the kept tail holds no live menu at all.
proof fn lemma_kept_no_menu(bot_id: u64, content: Seq<char>, h: Seq<ChannelMessage>)
    requires
        forall|j: int|
            first_foreign_index(bot_id, h) <= j < h.len() ==> !is_menu_message(
                #[trigger] h[j],
                bot_id,
                content,
            ),
    ensures
        forall|k: int|
            0 <= k < remove_ids(h, stale_menu_ids(bot_id, content, h)).len()
                ==> !is_menu_message(
                #[trigger] remove_ids(h, stale_menu_ids(bot_id, content, h))[k],
                bot_id,
                content,
            ),
{
    let dels = stale_menu_ids(bot_id, content, h);
    let kept = remove_ids(h, dels);
    lemma_remove_ids(h, dels);
    lemma_prefix_ours(bot_id, h);
    assert forall|k: int| 0 <= k < kept.len() implies !is_menu_message(
        #[trigger] kept[k],
        bot_id,
        content,
    ) by {
        if is_menu_message(kept[k], bot_id, content) {
            assert(h.contains(kept[k]));
            let j = choose|j: int| 0 <= j < h.len() && h[j] == kept[k];
            if j < first_foreign_index(bot_id, h) {
                lemma_stale_ids(bot_id, content, h, h[j].id);
                assert(dels.contains(kept[k].id));
            } else {
                assert(!is_menu_message(h[j], bot_id, content));
            }
        }
    }
}

/// Running the reconciler on a history with a reachable foreign message
/// and no live menus below it leaves exactly one live menu.
pub proof fn lemma_reconcile_once(
    bot_id: u64,
    content: Seq<char>,
    h: Seq<ChannelMessage>,
    fresh: ChannelMessage,
)
    requires
        is_menu_message(fresh, bot_id, content),
        first_foreign_index(bot_id, h) < h.len(),
        forall|j: int|
            first_foreign_index(bot_id, h) <= j < h.len() ==> !is_menu_message(
                #[trigger] h[j],
                bot_id,
                content,
            ),
    ensures
        menu_count(bot_id, content, spec_run(bot_id, content, h, fresh)) == 1,
        forall|k: int|
            1 <= k < spec_run(bot_id, content, h, fresh).len() ==> !is_menu_message(
                #[trigger] spec_run(bot_id, content, h, fresh)[k],
                bot_id,
                content,
            ),
        spec_run(bot_id, content, h, fresh)[0] == fresh,
{
    lemma_prefix_ours(bot_id, h);
    let dels = stale_menu_ids(bot_id, content, h);
    let kept = remove_ids(h, dels);
    lemma_kept_no_menu(bot_id, content, h);
    let run = spec_run(bot_id, content, h, fresh);
    assert(run == seq![fresh] + kept);
    assert(run.drop_first() =~= kept);
    assert(forall|k: int| 1 <= k < run.len() ==> #[trigger] run[k] == kept[k - 1]);
    lemma_menu_count_zero(bot_id, content, kept);
    assert(menu_count(bot_id, content, run) == 1 + menu_count(bot_id, content, kept));
}

/// Idempotence of the reconciler: on an unchanged channel whose live
/// menus all precede the first foreign message, one run leaves exactly
/// one live menu, and a second run still leaves exactly one — fresh
/// menus do not accumulate.
pub proof fn lemma_reconciler_idempotent(
    bot_id: u64,
    content: Seq<char>,
    h: Seq<ChannelMessage>,
    fresh1: ChannelMessage,
    fresh2: ChannelMessage,
)
    requires
        is_menu_message(fresh1, bot_id, content),
        is_menu_message(fresh2, bot_id, content),
        first_foreign_index(bot_id, h) < h.len(),
        forall|j: int|
            first_foreign_index(bot_id, h) <= j < h.len() ==> !is_menu_message(
                #[trigger] h[j],
                bot_id,
                content,
            ),
        forall|j: int| 0 <= j < h.len() ==> (#[trigger] h[j]).id != fresh1.id,
        forall|i: int, j: int|
            0 <= i < j < h.len() ==> (#[trigger] h[i]).id != (#[trigger] h[j]).id,
    ensures
        menu_count(bot_id, content, spec_run(bot_id, content, h, fresh1)) == 1,
        menu_count(
            bot_id,
            content,
            spec_run(bot_id, content, spec_run(bot_id, content, h, fresh1), fresh2),
        ) == 1,
{
    lemma_reconcile_once(bot_id, content, h, fresh1);
    lemma_prefix_ours(bot_id, h);
    let dels = stale_menu_ids(bot_id, content, h);
    let kept = remove_ids(h, dels);
    let h1 = spec_run(bot_id, content, h, fresh1);
    assert(h1 == seq![fresh1] + kept);
    lemma_remove_ids(h, dels);

    // the first foreign message of h survives into h1
    let ff = first_foreign_index(bot_id, h);
    assert(!is_ours(h[ff], bot_id));
    assert(!dels.contains(h[ff].id)) by {
        if dels.contains(h[ff].id) {
            lemma_stale_ids(bot_id, content, h, h[ff].id);
            let j = choose|j: int|
                0 <= j < first_foreign_index(bot_id, h) && is_menu_message(
                    #[trigger] h[j],
                    bot_id,
                    content,
                ) && h[j].id == h[ff].id;
            assert(0 <= j < ff < h.len());
            assert(h[j].id != h[ff].id);
        }
    }
    assert(kept.contains(h[ff]));
    let kf = choose|kf: int| 0 <= kf < kept.len() && kept[kf] == h[ff];
    assert(!is_ours(h1[kf + 1], bot_id));
    lemma_prefix_ours(bot_id, h1);
    let ff1 = first_foreign_index(bot_id, h1);
    assert(ff1 < h1.len()) by {
        if ff1 == h1.len() {
            assert(is_ours(h1[kf + 1], bot_id));
        }
    }
    assert(forall|j: int|
        ff1 <= j < h1.len() ==> !is_menu_message(#[trigger] h1[j], bot_id, content)) by {
        assert(ff1 >= 1) by {
            assert(is_ours(h1[0], bot_id));
            if ff1 == 0 {
                assert(!is_ours(h1[ff1], bot_id));
            }
        }
        lemma_kept_no_menu(bot_id, content, h);
        assert(forall|j: int| 1 <= j < h1.len() ==> #[trigger] h1[j] == kept[j - 1]);
    }
    lemma_reconcile_once(bot_id, content, h1, fresh2);
}

} // verus!
