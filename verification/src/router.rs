//! Interaction router: dispatches gateway events by kind, command name
//! and component id, drives the deferred-acknowledgment protocol, and
//! turns each event into the ordered list of platform actions the
//! surrounding application performs. The remote execution call splits
//! the flow in two: a handler ends with a submission action, and
//! [`after_execution`] decides the actions for the outcome.

use vstd::prelude::*;

verus! {

use vstd::string::StringExecFns;
use vstd::utf8::encode_utf8;
use crate::config::Config;
use crate::extract::extract;
use crate::extract::needs_wrap;
use crate::extract::spec_extract_body;
use crate::extract::spec_wrap;
use crate::extract::submission_from_modal;
use crate::play::Playground;
use crate::play::spec_request_body;
use crate::policy::Authorization;
use crate::policy::AuthorizationContext;
use crate::policy::DenyReason;
use crate::policy::TriggerKind;
use crate::policy::authorize;
use crate::policy::spec_authorize;
use crate::render::ExecutionOutcome;
use crate::render::Reaction;
use crate::render::RenderedResponse;
use crate::render::ResponsePath;
use crate::render::compose_body;
use crate::render::fits_inline;
use crate::render::render;
use crate::render::spec_compose;
use crate::render::spec_filename;
use crate::render::spec_thread_title;
use crate::text::all_digits;
use crate::text::dec_str;
use crate::text::digits_val;
use crate::text::parse_u64;
use crate::text::str_eq;
use crate::text::u64_to_string;

/// The two deferred acknowledgments the platform offers.
#[derive(PartialEq, Eq, Structural, Clone, Copy, Debug)]
pub enum AckKind {
    /// A deferred channel message: the real content follows as a followup.
    ChannelMessage,
    /// A deferred update of the component's own message.
    UpdateMessage,
}

/// One platform effect the application performs, in list order.
pub enum Action {
    /// Note that a shard finished connecting.
    LogReady { shard_id: u64 },
    /// Send the deferred acknowledgment, before any slow work.
    Defer { kind: AckKind },
    /// Open the code-input modal as the initial response.
    ShowModal { custom_id: String, title: String, field_custom_id: String, field_label: String },
    /// Send an ephemeral text as the initial response.
    RespondEphemeral { content: String },
    /// Send a followup message after a deferred acknowledgment.
    FollowupText { content: String, ephemeral: bool },
    /// Send a followup with the result attached as a file.
    FollowupFile { content: String, file: Vec<u8>, filename: String },
    /// Attach a progress reaction to a message.
    React { channel_id: u64, message_id: u64, reaction: Reaction },
    /// Submit this body to the remote execution endpoint, once, with no
    /// retry; the outcome goes back through [`after_execution`].
    SubmitExecution { body: Vec<u8> },
    /// Create a thread off a message and post the result there.
    CreateThreadWithPost { channel_id: u64, message_id: u64, title: String, body: String },
    /// Post a plain channel message (the best-effort fallback).
    PostMessage { channel_id: u64, content: String },
    /// Post the project-showcase embed and open a thread on it.
    PostShowcase {
        channel_id: u64,
        content: String,
        title: String,
        description: Option<String>,
        author_tag: String,
        avatar_url: Option<String>,
        crates_link: Option<String>,
        github_link: Option<String>,
        thread_title: String,
    },
    /// Replace a member's role set (the role-toggle update).
    UpdateRoles { guild_id: u64, user_id: u64, roles: Vec<u64> },
}

/// A created message, as the router needs it.
pub struct MessageEvent {
    pub channel_id: u64,
    pub message_id: u64,
    pub author_id: u64,
    /// The role set attached to the message's member data, if any.
    pub member_roles: Option<Vec<u64>>,
    pub content: String,
}

/// The message a context-menu command targets; its content is absent
/// when the platform did not resolve the message.
pub struct TargetMessage {
    pub message_id: u64,
    pub content: Option<String>,
}

/// The options of the `project` command. `name` is `None` when the
/// required option did not arrive as a string.
pub struct CommandOptions {
    pub name: Option<String>,
    pub description: Option<String>,
    pub crates_io: Option<bool>,
    pub github: Option<String>,
}

/// A slash or context-menu command invocation.
pub struct CommandEvent {
    pub name: String,
    pub target: Option<TargetMessage>,
    pub options: CommandOptions,
}

/// One text field of a submitted modal.
pub struct ModalField {
    pub custom_id: String,
    pub value: String,
}

/// The interaction kinds the router dispatches on.
pub enum InteractionKind {
    Command(CommandEvent),
    Component { custom_id: String },
    ModalSubmit { custom_id: String, fields: Vec<ModalField> },
}

/// An interaction with its origin and invoker.
pub struct InteractionEvent {
    pub in_guild: bool,
    pub guild_id: u64,
    pub channel_id: u64,
    pub user_id: u64,
    pub user_name: String,
    pub user_discriminator: u16,
    pub user_avatar: Option<String>,
    pub kind: InteractionKind,
}

/// A gateway event, as plain values.
pub enum Event {
    Ready { shard_id: u64 },
    MessageCreate(MessageEvent),
    InteractionCreate(InteractionEvent),
}

/// Where a pending execution came from, deciding how its outcome is
/// delivered.
pub enum RunOrigin {
    /// A free-text message in an allow-listed channel.
    MessageRun { channel_id: u64, message_id: u64, author_id: u64 },
    /// The `run-message` context-menu command.
    CommandRun { channel_id: u64, target_message_id: u64, guild_id: u64, user_id: u64 },
    /// The code-input modal.
    ModalRun { guild_id: u64, user_id: u64 },
}

/// The authorization context of a message-triggered execution.
pub open spec fn message_ctx(msg: MessageEvent) -> AuthorizationContext {
    AuthorizationContext {
        trigger: TriggerKind::Message,
        channel_id: msg.channel_id,
        in_guild: true,
        member_roles: msg.member_roles,
    }
}

/// The authorization context of an interaction, with the invoker's role
/// set as the entity cache answered.
pub open spec fn interaction_ctx(ev: InteractionEvent, cached: Option<Vec<u64>>) -> AuthorizationContext {
    AuthorizationContext {
        trigger: TriggerKind::Interaction,
        channel_id: ev.channel_id,
        in_guild: ev.in_guild,
        member_roles: cached,
    }
}

/// The program submitted for extracted raw text: wrapped exactly when it
/// lacks an entry point.
pub open spec fn submitted_code(raw: Seq<char>) -> Seq<char> {
    if needs_wrap(raw) {
        spec_wrap(raw)
    } else {
        raw
    }
}

/// The request body for a code submission: the fixed request shape with
/// the program as its code field.
pub open spec fn spec_submission_body(code: Seq<char>) -> Seq<u8> {
    spec_request_body(
        encode_utf8("stable"@),
        encode_utf8("debug"@),
        encode_utf8("2021"@),
        false,
        false,
        encode_utf8("bin"@),
        encode_utf8(code),
    )
}

/// An action submitting exactly the program extracted from `raw`.
pub open spec fn is_submit(a: Action, raw: Seq<char>) -> bool {
    a matches Action::SubmitExecution { body } && body@ == spec_submission_body(
        submitted_code(raw),
    )
}

/// The retry hint shown when the invoker's member record is not cached.
pub open spec fn not_cached_text() -> Seq<char> {
    "You're not cached. Send a message somewhere and press me again."@
}

/// An ephemeral followup carrying the retry hint.
pub open spec fn is_not_cached_followup(a: Action) -> bool {
    a matches Action::FollowupText { content, ephemeral } && content@ == not_cached_text()
        && ephemeral
}

/// The best-effort fallback posted when handling a message failed.
pub open spec fn fallback_text() -> Seq<char> {
    ":x: there was an error handling that event. please repooort me."@
}

/// The notice sent along with an attached result file.
pub open spec fn too_long_text() -> Seq<char> {
    "<:ferrisbanne:958831785922416780> The output was too long. So here you go. Have an attachment. Is this what you wanted?"@
}

/// The ephemeral error for a mangled required `name` option.
pub open spec fn mangled_name_text() -> Seq<char> {
    "That name you provided was mangled by Discord?"@
}

/// The ephemeral error for an out-of-range project description.
pub open spec fn description_error_text() -> Seq<char> {
    "Sorry your description is either too large or too small. Remmber it cannot be above 1000 characters and must be above 1 character."@
}

/// The ephemeral error for a component id that is no role id.
pub open spec fn bad_role_id_text() -> Seq<char> {
    "Failed to get the role id. Sorry."@
}

/// The ephemeral confirmation of a role toggle.
pub open spec fn spec_toggle_text(added: bool, role_id: u64) -> Seq<char> {
    (if added {
        "<:ferrischeck:957417376314429490> added <@&"@
    } else {
        "<:ferrischeck:957417376314429490> removed <@&"@
    }) + dec_str(role_id as nat) + ">"@
}

/// The role set with every occurrence of one role removed, order kept.
pub open spec fn spec_without_role(roles: Seq<u64>, role_id: u64) -> Seq<u64>
    decreases roles.len(),
{
    if roles.len() == 0 {
        Seq::empty()
    } else {
        spec_without_role(roles.drop_last(), role_id) + (if roles.last() == role_id {
            Seq::empty()
        } else {
            seq![roles.last()]
        })
    }
}

/// The value of the first `code-to-run` field of a modal, if any.
pub open spec fn spec_code_field(fields: Seq<ModalField>) -> Option<Seq<char>>
    decreases fields.len(),
{
    if fields.len() == 0 {
        None
    } else if fields[0].custom_id@ == "code-to-run"@ {
        Some(fields[0].value@)
    } else {
        spec_code_field(fields.drop_first())
    }
}

/// A discriminator padded with zeroes to four digits, as the platform
/// displays it.
pub open spec fn spec_disc_str(d: u16) -> Seq<char> {
    if d < 10 {
        "000"@ + dec_str(d as nat)
    } else if d < 100 {
        "00"@ + dec_str(d as nat)
    } else if d < 1000 {
        "0"@ + dec_str(d as nat)
    } else {
        dec_str(d as nat)
    }
}

/// The embed author line: name, a hash, and the padded discriminator.
pub open spec fn spec_author_tag(name: Seq<char>, d: u16) -> Seq<char> {
    name + "#"@ + spec_disc_str(d)
}

/// The avatar image address for a user's avatar hash.
pub open spec fn spec_avatar_url(user_id: u64, hash: Seq<char>) -> Seq<char> {
    "https://cdn.discordapp.com/avatars/"@ + dec_str(user_id as nat) + "/"@ + hash + ".png"@
}

/// The registry address of a project's crate.
pub open spec fn spec_crates_link(name: Seq<char>) -> Seq<char> {
    "https://crates.io/crates/"@ + name
}

/// The contract of the message path: silence outside the allow-list and
/// for banned members; a visible failure reaction when extraction
/// rejects the text; and otherwise a working reaction followed by
/// exactly one submission of the extracted program.
pub open spec fn message_actions_ok(cfg: Config, msg: MessageEvent, r: Seq<Action>) -> bool {
    if spec_authorize(message_ctx(msg), cfg) != Authorization::Allow {
        r.len() == 0
    } else {
        match spec_extract_body(msg.content@) {
            None => r =~= seq![
                Action::React {
                    channel_id: msg.channel_id,
                    message_id: msg.message_id,
                    reaction: Reaction::Failed,
                },
            ],
            Some(raw) => {
                &&& r.len() == 2
                &&& r[0] == (Action::React {
                    channel_id: msg.channel_id,
                    message_id: msg.message_id,
                    reaction: Reaction::Working,
                })
                &&& is_submit(r[1], raw)
            },
        }
    }
}

/// The contract of the `run` command: out of guild or banned, nothing;
/// not cached, an ephemeral retry hint and no modal; otherwise the
/// code-input modal as the initial response.
pub open spec fn run_actions_ok(
    cfg: Config,
    ev: InteractionEvent,
    cached: Option<Vec<u64>>,
    r: Seq<Action>,
) -> bool {
    let auth = spec_authorize(interaction_ctx(ev, cached), cfg);
    if auth == Authorization::Deny(DenyReason::NotCached) {
        r.len() == 1 && (r[0] matches Action::RespondEphemeral { content } && content@
            == not_cached_text())
    } else if auth != Authorization::Allow {
        r.len() == 0
    } else {
        r.len() == 1 && (r[0] matches Action::ShowModal {
            custom_id,
            title,
            field_custom_id,
            field_label,
        } && custom_id@ == "run-my-rust"@ && title@ == "Rust Runner 9000"@ && field_custom_id@
            == "code-to-run"@ && field_label@ == "Code to run"@)
    }
}

/// The contract of the `run-message` command: out of guild, nothing;
/// otherwise a deferred acknowledgment first, then — in order of the
/// gates — nothing without a target, a warning reaction on an
/// unresolved target, the retry hint when not cached, silence when
/// banned, a failure reaction when extraction rejects the target's
/// text, and otherwise a working reaction and one submission.
pub open spec fn run_message_actions_ok(
    cfg: Config,
    ev: InteractionEvent,
    cmd: CommandEvent,
    cached: Option<Vec<u64>>,
    r: Seq<Action>,
) -> bool {
    if !ev.in_guild {
        r.len() == 0
    } else {
        &&& r.len() >= 1
        &&& r[0] == (Action::Defer { kind: AckKind::ChannelMessage })
        &&& match cmd.target {
            None => r.len() == 1,
            Some(t) => match t.content {
                None => r =~= seq![
                    Action::Defer { kind: AckKind::ChannelMessage },
                    Action::React {
                        channel_id: ev.channel_id,
                        message_id: t.message_id,
                        reaction: Reaction::Warning,
                    },
                ],
                Some(content) => {
                    let auth = spec_authorize(interaction_ctx(ev, cached), cfg);
                    if auth == Authorization::Deny(DenyReason::NotCached) {
                        r.len() == 2 && is_not_cached_followup(r[1])
                    } else if auth != Authorization::Allow {
                        r.len() == 1
                    } else {
                        match spec_extract_body(content@) {
                            None => r.len() == 2 && r[1] == (Action::React {
                                channel_id: ev.channel_id,
                                message_id: t.message_id,
                                reaction: Reaction::Failed,
                            }),
                            Some(raw) => {
                                &&& r.len() == 3
                                &&& r[1] == (Action::React {
                                    channel_id: ev.channel_id,
                                    message_id: t.message_id,
                                    reaction: Reaction::Working,
                                })
                                &&& is_submit(r[2], raw)
                            },
                        }
                    }
                },
            },
        }
    }
}

/// The contract of the `project` command: nothing without guild scope
/// or a configured showcase channel; otherwise a deferred
/// acknowledgment, then the retry hint when not cached, silence when
/// banned, an ephemeral error for a mangled name or an out-of-range
/// description, and otherwise the showcase post with its optional link
/// buttons followed by an ephemeral confirmation. A description is
/// accepted exactly when it has between one and a thousand characters.
pub open spec fn project_actions_ok(
    cfg: Config,
    ev: InteractionEvent,
    cmd: CommandEvent,
    cached: Option<Vec<u64>>,
    r: Seq<Action>,
) -> bool {
    if !ev.in_guild {
        r.len() == 0
    } else {
        match cfg.projects_channel {
            None => r.len() == 0,
            Some(pc) => {
                &&& r.len() >= 1
                &&& r[0] == (Action::Defer { kind: AckKind::ChannelMessage })
                &&& {
                    let auth = spec_authorize(interaction_ctx(ev, cached), cfg);
                    if auth == Authorization::Deny(DenyReason::NotCached) {
                        r.len() == 2 && is_not_cached_followup(r[1])
                    } else if auth != Authorization::Allow {
                        r.len() == 1
                    } else {
                        match cmd.options.name {
                            None => r.len() == 2 && (r[1] matches Action::FollowupText {
                                content,
                                ephemeral,
                            } && content@ == mangled_name_text() && ephemeral),
                            Some(name) => {
                                if cmd.options.description matches Some(d) && !(1 <= d@.len()
                                    <= 1000) {
                                    r.len() == 2 && (r[1] matches Action::FollowupText {
                                        content,
                                        ephemeral,
                                    } && content@ == description_error_text() && ephemeral)
                                } else {
                                    &&& r.len() == 3
                                    &&& (r[1] matches Action::PostShowcase {
                                        channel_id,
                                        content,
                                        title,
                                        description,
                                        author_tag,
                                        avatar_url,
                                        crates_link,
                                        github_link,
                                        thread_title,
                                    } && {
                                        &&& channel_id == pc
                                        &&& content@ == "A new project has been discovered!"@
                                        &&& title@ == name@
                                        &&& description == cmd.options.description
                                        &&& author_tag@ == spec_author_tag(
                                            ev.user_name@,
                                            ev.user_discriminator,
                                        )
                                        &&& match ev.user_avatar {
                                            None => avatar_url is None,
                                            Some(hash) => avatar_url matches Some(u) && u@
                                                == spec_avatar_url(ev.user_id, hash@),
                                        }
                                        &&& if cmd.options.crates_io == Some(true) {
                                            crates_link matches Some(l) && l@ == spec_crates_link(
                                                name@,
                                            )
                                        } else {
                                            crates_link is None
                                        }
                                        &&& github_link == cmd.options.github
                                        &&& thread_title@ == name@
                                    })
                                    &&& (r[2] matches Action::FollowupText { content, ephemeral }
                                        && content@ == "\u{1f44d}"@ && ephemeral)
                                }
                            },
                        }
                    }
                }
            },
        }
    }
}

/// The contract of a role-toggle button press: the deferred update
/// first, always; then nothing out of guild, the retry hint when not
/// cached, silence when banned, an ephemeral error when the component
/// id parses to no role id, and otherwise the toggle — remove the role
/// and confirm when the member holds it, add it and confirm when not.
pub open spec fn component_actions_ok(
    cfg: Config,
    ev: InteractionEvent,
    cid: Seq<char>,
    cached: Option<Vec<u64>>,
    r: Seq<Action>,
) -> bool {
    &&& r.len() >= 1
    &&& r[0] == (Action::Defer { kind: AckKind::UpdateMessage })
    &&& if !ev.in_guild {
        r.len() == 1
    } else {
        let auth = spec_authorize(interaction_ctx(ev, cached), cfg);
        if auth == Authorization::Deny(DenyReason::NotCached) {
            r.len() == 2 && is_not_cached_followup(r[1])
        } else if auth != Authorization::Allow {
            r.len() == 1
        } else {
            let roles = cached->0;
            if !(cid.len() > 0 && all_digits(cid) && digits_val(cid) <= u64::MAX) {
                r.len() == 2 && (r[1] matches Action::FollowupText { content, ephemeral }
                    && content@ == bad_role_id_text() && ephemeral)
            } else {
                let rid = digits_val(cid) as u64;
                &&& r.len() == 3
                &&& (r[1] matches Action::UpdateRoles { guild_id, user_id, roles: nr } && {
                    &&& guild_id == ev.guild_id
                    &&& user_id == ev.user_id
                    &&& if roles@.contains(rid) {
                        nr@ == spec_without_role(roles@, rid)
                    } else {
                        nr@ == roles@.push(rid)
                    }
                })
                &&& (r[2] matches Action::FollowupText { content, ephemeral } && content@
                    == spec_toggle_text(!roles@.contains(rid), rid) && ephemeral)
            }
        }
    }
}

/// The contract of one interaction: dispatched by kind, and for
/// commands by name; an unknown command is ignored silently.
pub open spec fn interaction_actions_ok(
    cfg: Config,
    ev: InteractionEvent,
    cached: Option<Vec<u64>>,
    r: Seq<Action>,
) -> bool {
    match ev.kind {
        InteractionKind::Command(cmd) => {
            if cmd.name@ == "run"@ {
                run_actions_ok(cfg, ev, cached, r)
            } else if cmd.name@ == "run-message"@ {
                run_message_actions_ok(cfg, ev, cmd, cached, r)
            } else if cmd.name@ == "project"@ {
                project_actions_ok(cfg, ev, cmd, cached, r)
            } else {
                r.len() == 0
            }
        },
        InteractionKind::Component { custom_id } => component_actions_ok(
            cfg,
            ev,
            custom_id@,
            cached,
            r,
        ),
        InteractionKind::ModalSubmit { custom_id, fields } => modal_actions_ok(
            cfg,
            ev,
            custom_id@,
            fields@,
            cached,
            r,
        ),
    }
}

/// The followup delivering a rendered body: inline up to the platform
/// limit, an attached file beyond it.
pub open spec fn followup_render_ok(a: Action, guild_id: u64, user_id: u64, body: Seq<char>) -> bool {
    if fits_inline(body) {
        a matches Action::FollowupText { content, ephemeral } && content@ == body && !ephemeral
    } else {
        a matches Action::FollowupFile { content, file, filename } && content@ == too_long_text()
            && file@ == encode_utf8(body) && filename@ == spec_filename(guild_id, user_id)
    }
}

/// The contract of a modal submission: nothing out of guild; otherwise
/// the deferred acknowledgment, then the retry hint when not cached,
/// silence when banned, nothing for a foreign modal id or a missing
/// code field, and otherwise one submission of the field's text, with
/// no fence or tag requirement.
pub open spec fn modal_actions_ok(
    cfg: Config,
    ev: InteractionEvent,
    cid: Seq<char>,
    fields: Seq<ModalField>,
    cached: Option<Vec<u64>>,
    r: Seq<Action>,
) -> bool {
    if !ev.in_guild {
        r.len() == 0
    } else {
        &&& r.len() >= 1
        &&& r[0] == (Action::Defer { kind: AckKind::ChannelMessage })
        &&& {
            let auth = spec_authorize(interaction_ctx(ev, cached), cfg);
            if auth == Authorization::Deny(DenyReason::NotCached) {
                r.len() == 2 && is_not_cached_followup(r[1])
            } else if auth != Authorization::Allow {
                r.len() == 1
            } else if cid != "run-my-rust"@ {
                r.len() == 1
            } else {
                match spec_code_field(fields) {
                    None => r.len() == 1,
                    Some(text) => r.len() == 2 && is_submit(r[1], text),
                }
            }
        }
    }
}

/// A message that does not open with a fence never extracts, and is
/// never answered with work: outside the allow-list (or for a banned or
/// otherwise denied member) it is ignored without a trace, and in an
/// allow-listed channel it gets exactly the visible failure reaction.
pub proof fn lemma_unfenced_message(cfg: Config, msg: MessageEvent, r: Seq<Action>)
    requires
        message_actions_ok(cfg, msg, r),
        !crate::extract::starts_with_fence(msg.content@),
    ensures
        spec_extract_body(msg.content@) is None,
        spec_authorize(message_ctx(msg), cfg) != Authorization::Allow ==> r.len() == 0,
        spec_authorize(message_ctx(msg), cfg) == Authorization::Allow ==> r =~= seq![
            Action::React {
                channel_id: msg.channel_id,
                message_id: msg.message_id,
                reaction: Reaction::Failed,
            },
        ],
{
}

/// The two-phase acknowledgment protocol: whenever an interaction is
/// answered at all, the first action is the deferred acknowledgment —
/// sent before any slow work — except for the `run` command, whose
/// whole answer is an initial response: the modal, or the ephemeral
/// retry hint.
pub proof fn lemma_deferred_ack_first(
    cfg: Config,
    ev: InteractionEvent,
    cached: Option<Vec<u64>>,
    r: Seq<Action>,
)
    requires
        interaction_actions_ok(cfg, ev, cached, r),
        r.len() > 0,
    ensures
        match ev.kind {
            InteractionKind::Command(cmd) => {
                if cmd.name@ == "run"@ {
                    r[0] is ShowModal || r[0] is RespondEphemeral
                } else {
                    r[0] matches Action::Defer { .. }
                }
            },
            InteractionKind::Component { .. } => r[0] == (Action::Defer {
                kind: AckKind::UpdateMessage,
            }),
            InteractionKind::ModalSubmit { .. } => r[0] == (Action::Defer {
                kind: AckKind::ChannelMessage,
            }),
        },
{
}

fn copy_roles(v: &Vec<u64>) -> (r: Vec<u64>)
    ensures
        r@ == v@,
{
    let mut r: Vec<u64> = Vec::new();
    let mut i: usize = 0;
    while i < v.len()
        invariant
            i <= v@.len(),
            r@ =~= v@.subrange(0, i as int),
        decreases v@.len() - i,
    {
        r.push(v[i]);
        i += 1;
    }
    assert(v@.subrange(0, v@.len() as int) =~= v@);
    r
}

fn remove_role(roles: &Vec<u64>, role_id: u64) -> (r: Vec<u64>)
    ensures
        r@ == spec_without_role(roles@, role_id),
{
    let mut r: Vec<u64> = Vec::new();
    let mut i: usize = 0;
    while i < roles.len()
        invariant
            i <= roles@.len(),
            r@ == spec_without_role(roles@.subrange(0, i as int), role_id),
        decreases roles@.len() - i,
    {
        proof {
            assert(roles@.subrange(0, i + 1).drop_last() =~= roles@.subrange(0, i as int));
            assert(roles@.subrange(0, i + 1).last() == roles@[i as int]);
        }
        if roles[i] != role_id {
            r.push(roles[i]);
        }
        assert(r@ =~= spec_without_role(roles@.subrange(0, i + 1), role_id));
        i += 1;
    }
    assert(roles@.subrange(0, roles@.len() as int) =~= roles@);
    r
}

fn find_code_field(fields: &Vec<ModalField>) -> (r: Option<&String>)
    ensures
        r matches Some(v) ==> spec_code_field(fields@) == Some(v@),
        r is None ==> spec_code_field(fields@) is None,
{
    let mut i: usize = 0;
    let n = fields.len();
    proof {
        assert(fields@.subrange(0, n as int) =~= fields@);
    }
    while i < n
        invariant
            i <= n,
            n == fields@.len(),
            spec_code_field(fields@) == spec_code_field(fields@.subrange(i as int, n as int)),
        decreases n - i,
    {
        proof {
            assert(fields@.subrange(i as int, n as int).drop_first() =~= fields@.subrange(
                i + 1,
                n as int,
            ));
            assert(fields@.subrange(i as int, n as int)[0] == fields@[i as int]);
        }
        if str_eq(fields[i].custom_id.as_str(), "code-to-run") {
            return Some(&fields[i].value);
        }
        i += 1;
    }
    proof {
        assert(fields@.subrange(n as int, n as int) =~= Seq::<ModalField>::empty());
    }
    None
}

fn disc_str(d: u16) -> (r: String)
    ensures
        r@ == spec_disc_str(d),
{
    let mut r = if d < 10 {
        String::from_str("000")
    } else if d < 100 {
        String::from_str("00")
    } else if d < 1000 {
        String::from_str("0")
    } else {
        String::new()
    };
    let num = u64_to_string(d as u64);
    r.append(num.as_str());
    proof {
        if d >= 1000 {
            assert(Seq::<char>::empty() + dec_str(d as nat) =~= dec_str(d as nat));
        }
    }
    r
}

fn author_tag(name: &str, d: u16) -> (r: String)
    ensures
        r@ == spec_author_tag(name@, d),
{
    let mut r = name.to_owned();
    r.append("#");
    let disc = disc_str(d);
    r.append(disc.as_str());
    r
}

fn avatar_url(user_id: u64, hash: &str) -> (r: String)
    ensures
        r@ == spec_avatar_url(user_id, hash@),
{
    let mut r = String::from_str("https://cdn.discordapp.com/avatars/");
    let num = u64_to_string(user_id);
    r.append(num.as_str());
    r.append("/");
    r.append(hash);
    r.append(".png");
    r
}

fn crates_link(name: &str) -> (r: String)
    ensures
        r@ == spec_crates_link(name@),
{
    let mut r = String::from_str("https://crates.io/crates/");
    r.append(name);
    r
}

fn toggle_text(added: bool, role_id: u64) -> (r: String)
    ensures
        r@ == spec_toggle_text(added, role_id),
{
    let mut r = if added {
        String::from_str("<:ferrischeck:957417376314429490> added <@&")
    } else {
        String::from_str("<:ferrischeck:957417376314429490> removed <@&")
    };
    let num = u64_to_string(role_id);
    r.append(num.as_str());
    r.append(">");
    r
}

fn not_cached_followup() -> (a: Action)
    ensures
        is_not_cached_followup(a),
{
    Action::FollowupText {
        content: "You're not cached. Send a message somewhere and press me again.".to_owned(),
        ephemeral: true,
    }
}

fn submission_action(sub: &crate::extract::CodeSubmission) -> (a: Action)
    requires
        sub.wrapped == needs_wrap(sub.raw_text@),
    ensures
        is_submit(a, sub.raw_text@),
{
    let playground = Playground::new(sub.code());
    let body = playground.request_body();
    assert(body@ == spec_submission_body(submitted_code(sub.raw_text@)));
    Action::SubmitExecution { body }
}

fn authorize_message(cfg: &Config, msg: &MessageEvent) -> (r: Authorization)
    ensures
        r == spec_authorize(message_ctx(*msg), *cfg),
{
    let roles_copy: Option<Vec<u64>> = match &msg.member_roles {
        Some(v) => Some(copy_roles(v)),
        None => None,
    };
    let ctx = AuthorizationContext {
        trigger: TriggerKind::Message,
        channel_id: msg.channel_id,
        in_guild: true,
        member_roles: roles_copy,
    };
    let a = authorize(&ctx, cfg);
    proof {
        match &msg.member_roles {
            Some(orig) => {
                assert(ctx.member_roles->0@ == orig@);
                assert(crate::text::spec_has_banned_role(ctx.member_roles->0@, cfg.banned_roles@)
                    == crate::text::spec_has_banned_role(orig@, cfg.banned_roles@));
            },
            None => {},
        }
        assert(spec_authorize(ctx, *cfg) == spec_authorize(message_ctx(*msg), *cfg));
    }
    a
}

fn authorize_interaction(
    cfg: &Config,
    ev: &InteractionEvent,
    cached_roles: &Option<Vec<u64>>,
) -> (r: Authorization)
    ensures
        r == spec_authorize(interaction_ctx(*ev, *cached_roles), *cfg),
{
    let roles_copy: Option<Vec<u64>> = match cached_roles {
        Some(v) => Some(copy_roles(v)),
        None => None,
    };
    let ctx = AuthorizationContext {
        trigger: TriggerKind::Interaction,
        channel_id: ev.channel_id,
        in_guild: ev.in_guild,
        member_roles: roles_copy,
    };
    let a = authorize(&ctx, cfg);
    proof {
        match cached_roles {
            Some(orig) => {
                assert(ctx.member_roles->0@ == orig@);
                assert(crate::text::spec_has_banned_role(ctx.member_roles->0@, cfg.banned_roles@)
                    == crate::text::spec_has_banned_role(orig@, cfg.banned_roles@));
            },
            None => {},
        }
        assert(spec_authorize(ctx, *cfg) == spec_authorize(
            interaction_ctx(*ev, *cached_roles),
            *cfg,
        ));
    }
    a
}

/// Handles a created message: gate by channel and banned roles, extract
/// a submission, and either react with a visible failure or start a run
/// with a working reaction and one submission.
pub fn handle_message(cfg: &Config, msg: &MessageEvent) -> (r: Vec<Action>)
    ensures
        message_actions_ok(*cfg, *msg, r@),
{
    let mut r: Vec<Action> = Vec::new();
    let auth = authorize_message(cfg, msg);
    match auth {
        Authorization::Deny(_) => {
            return r;
        },
        Authorization::Allow => {},
    }
    match extract(msg.content.as_str()) {
        None => {
            r.push(
                Action::React {
                    channel_id: msg.channel_id,
                    message_id: msg.message_id,
                    reaction: Reaction::Failed,
                },
            );
            assert(r@ =~= seq![
                Action::React {
                    channel_id: msg.channel_id,
                    message_id: msg.message_id,
                    reaction: Reaction::Failed,
                },
            ]);
        },
        Some(sub) => {
            r.push(
                Action::React {
                    channel_id: msg.channel_id,
                    message_id: msg.message_id,
                    reaction: Reaction::Working,
                },
            );
            r.push(submission_action(&sub));
        },
    }
    r
}

/// Handles the `run` command: the code-input modal, or the ephemeral
/// retry hint when the invoker is not cached.
pub fn handle_command_run(
    cfg: &Config,
    ev: &InteractionEvent,
    cached_roles: &Option<Vec<u64>>,
) -> (r: Vec<Action>)
    ensures
        run_actions_ok(*cfg, *ev, *cached_roles, r@),
{
    let mut r: Vec<Action> = Vec::new();
    let auth = authorize_interaction(cfg, ev, cached_roles);
    match auth {
        Authorization::Deny(DenyReason::NotCached) => {
            r.push(
                Action::RespondEphemeral {
                    content:
                        "You're not cached. Send a message somewhere and press me again.".to_owned(),
                },
            );
        },
        Authorization::Deny(_) => {},
        Authorization::Allow => {
            r.push(
                Action::ShowModal {
                    custom_id: "run-my-rust".to_owned(),
                    title: "Rust Runner 9000".to_owned(),
                    field_custom_id: "code-to-run".to_owned(),
                    field_label: "Code to run".to_owned(),
                },
            );
        },
    }
    r
}

/// Handles the `run-message` context-menu command on its target message.
pub fn handle_command_run_message(
    cfg: &Config,
    ev: &InteractionEvent,
    cmd: &CommandEvent,
    cached_roles: &Option<Vec<u64>>,
) -> (r: Vec<Action>)
    ensures
        run_message_actions_ok(*cfg, *ev, *cmd, *cached_roles, r@),
{
    let mut r: Vec<Action> = Vec::new();
    if !ev.in_guild {
        return r;
    }
    r.push(Action::Defer { kind: AckKind::ChannelMessage });
    let target = match &cmd.target {
        Some(t) => t,
        None => {
            return r;
        },
    };
    let content = match &target.content {
        Some(c) => c,
        None => {
            r.push(
                Action::React {
                    channel_id: ev.channel_id,
                    message_id: target.message_id,
                    reaction: Reaction::Warning,
                },
            );
            assert(r@ =~= seq![
                Action::Defer { kind: AckKind::ChannelMessage },
                Action::React {
                    channel_id: ev.channel_id,
                    message_id: target.message_id,
                    reaction: Reaction::Warning,
                },
            ]);
            return r;
        },
    };
    let auth = authorize_interaction(cfg, ev, cached_roles);
    match auth {
        Authorization::Deny(DenyReason::NotCached) => {
            r.push(not_cached_followup());
            return r;
        },
        Authorization::Deny(_) => {
            return r;
        },
        Authorization::Allow => {},
    }
    match extract(content.as_str()) {
        None => {
            r.push(
                Action::React {
                    channel_id: ev.channel_id,
                    message_id: target.message_id,
                    reaction: Reaction::Failed,
                },
            );
        },
        Some(sub) => {
            r.push(
                Action::React {
                    channel_id: ev.channel_id,
                    message_id: target.message_id,
                    reaction: Reaction::Working,
                },
            );
            r.push(submission_action(&sub));
        },
    }
    r
}

/// Handles the `project` command: validates the options and posts the
/// showcase embed with its optional link buttons.
pub fn handle_command_project(
    cfg: &Config,
    ev: &InteractionEvent,
    cmd: &CommandEvent,
    cached_roles: &Option<Vec<u64>>,
) -> (r: Vec<Action>)
    ensures
        project_actions_ok(*cfg, *ev, *cmd, *cached_roles, r@),
{
    let mut r: Vec<Action> = Vec::new();
    if !ev.in_guild {
        return r;
    }
    let pc = match cfg.projects_channel {
        Some(pc) => pc,
        None => {
            return r;
        },
    };
    r.push(Action::Defer { kind: AckKind::ChannelMessage });
    let auth = authorize_interaction(cfg, ev, cached_roles);
    match auth {
        Authorization::Deny(DenyReason::NotCached) => {
            r.push(not_cached_followup());
            return r;
        },
        Authorization::Deny(_) => {
            return r;
        },
        Authorization::Allow => {},
    }
    let name = match &cmd.options.name {
        Some(n) => n,
        None => {
            r.push(
                Action::FollowupText {
                    content: "That name you provided was mangled by Discord?".to_owned(),
                    ephemeral: true,
                },
            );
            return r;
        },
    };
    match &cmd.options.description {
        Some(d) => {
            let dl = d.as_str().unicode_len();
            if dl < 1 || dl > 1000 {
                r.push(
                    Action::FollowupText {
                        content:
                            "Sorry your description is either too large or too small. Remmber it cannot be above 1000 characters and must be above 1 character.".to_owned(),
                        ephemeral: true,
                    },
                );
                return r;
            }
        },
        None => {},
    }
    let tag = author_tag(ev.user_name.as_str(), ev.user_discriminator);
    let av: Option<String> = match &ev.user_avatar {
        Some(h) => Some(avatar_url(ev.user_id, h.as_str())),
        None => None,
    };
    let cl: Option<String> = match cmd.options.crates_io {
        Some(true) => Some(crates_link(name.as_str())),
        _ => None,
    };
    let gh: Option<String> = match &cmd.options.github {
        Some(g) => Some(g.clone()),
        None => None,
    };
    let desc: Option<String> = match &cmd.options.description {
        Some(d) => Some(d.clone()),
        None => None,
    };
    r.push(
        Action::PostShowcase {
            channel_id: pc,
            content: "A new project has been discovered!".to_owned(),
            title: name.clone(),
            description: desc,
            author_tag: tag,
            avatar_url: av,
            crates_link: cl,
            github_link: gh,
            thread_title: name.clone(),
        },
    );
    r.push(Action::FollowupText { content: "\u{1f44d}".to_owned(), ephemeral: true });
    r
}

/// Handles a role-toggle button press: parse the component id as a role
/// id and toggle it on the member's role set.
pub fn handle_component(
    cfg: &Config,
    ev: &InteractionEvent,
    custom_id: &String,
    cached_roles: &Option<Vec<u64>>,
) -> (r: Vec<Action>)
    ensures
        component_actions_ok(*cfg, *ev, custom_id@, *cached_roles, r@),
{
    let mut r: Vec<Action> = Vec::new();
    r.push(Action::Defer { kind: AckKind::UpdateMessage });
    if !ev.in_guild {
        return r;
    }
    let auth = authorize_interaction(cfg, ev, cached_roles);
    match auth {
        Authorization::Deny(DenyReason::NotCached) => {
            r.push(not_cached_followup());
            return r;
        },
        Authorization::Deny(_) => {
            return r;
        },
        Authorization::Allow => {},
    }
    let roles = match cached_roles {
        Some(ro) => ro,
        None => {
            proof {
                assert(false);
            }
            return r;
        },
    };
    let role_id = match parse_u64(custom_id.as_str()) {
        Some(id) => id,
        None => {
            r.push(
                Action::FollowupText {
                    content: "Failed to get the role id. Sorry.".to_owned(),
                    ephemeral: true,
                },
            );
            return r;
        },
    };
    if crate::text::contains_u64(roles, role_id) {
        let new_roles = remove_role(roles, role_id);
        r.push(
            Action::UpdateRoles { guild_id: ev.guild_id, user_id: ev.user_id, roles: new_roles },
        );
        r.push(Action::FollowupText { content: toggle_text(false, role_id), ephemeral: true });
    } else {
        let mut new_roles = copy_roles(roles);
        new_roles.push(role_id);
        r.push(
            Action::UpdateRoles { guild_id: ev.guild_id, user_id: ev.user_id, roles: new_roles },
        );
        r.push(Action::FollowupText { content: toggle_text(true, role_id), ephemeral: true });
    }
    r
}

/// Handles a submitted modal: the code field's text becomes a
/// submission directly, with no fence or tag requirement.
pub fn handle_modal(
    cfg: &Config,
    ev: &InteractionEvent,
    custom_id: &String,
    fields: &Vec<ModalField>,
    cached_roles: &Option<Vec<u64>>,
) -> (r: Vec<Action>)
    ensures
        modal_actions_ok(*cfg, *ev, custom_id@, fields@, *cached_roles, r@),
{
    let mut r: Vec<Action> = Vec::new();
    if !ev.in_guild {
        return r;
    }
    r.push(Action::Defer { kind: AckKind::ChannelMessage });
    let auth = authorize_interaction(cfg, ev, cached_roles);
    match auth {
        Authorization::Deny(DenyReason::NotCached) => {
            r.push(not_cached_followup());
            return r;
        },
        Authorization::Deny(_) => {
            return r;
        },
        Authorization::Allow => {},
    }
    if !str_eq(custom_id.as_str(), "run-my-rust") {
        return r;
    }
    match find_code_field(fields) {
        None => r,
        Some(text) => {
            let sub = submission_from_modal(text.as_str());
            r.push(submission_action(&sub));
            r
        },
    }
}

/// Dispatches one interaction by kind and command name.
pub fn handle_interaction(
    cfg: &Config,
    ev: &InteractionEvent,
    cached_roles: &Option<Vec<u64>>,
) -> (r: Vec<Action>)
    ensures
        interaction_actions_ok(*cfg, *ev, *cached_roles, r@),
{
    match &ev.kind {
        InteractionKind::Command(cmd) => {
            if str_eq(cmd.name.as_str(), "run") {
                handle_command_run(cfg, ev, cached_roles)
            } else if str_eq(cmd.name.as_str(), "run-message") {
                handle_command_run_message(cfg, ev, cmd, cached_roles)
            } else if str_eq(cmd.name.as_str(), "project") {
                handle_command_project(cfg, ev, cmd, cached_roles)
            } else {
                Vec::new()
            }
        },
        InteractionKind::Component { custom_id } => handle_component(
            cfg,
            ev,
            custom_id,
            cached_roles,
        ),
        InteractionKind::ModalSubmit { custom_id, fields } => handle_modal(
            cfg,
            ev,
            custom_id,
            fields,
            cached_roles,
        ),
    }
}

/// Routes one gateway event to its handler. `cached_roles` is the
/// entity cache's answer for the event's invoking user at this moment;
/// created messages carry their own member data instead.
pub fn handle_event(cfg: &Config, event: &Event, cached_roles: &Option<Vec<u64>>) -> (r: Vec<
    Action,
>)
    ensures
        *event matches Event::Ready { shard_id } ==> r@ =~= seq![Action::LogReady { shard_id }],
        *event matches Event::MessageCreate(m) ==> message_actions_ok(*cfg, m, r@),
        *event matches Event::InteractionCreate(i) ==> interaction_actions_ok(
            *cfg,
            i,
            *cached_roles,
            r@,
        ),
{
    match event {
        Event::Ready { shard_id } => {
            let mut r: Vec<Action> = Vec::new();
            r.push(Action::LogReady { shard_id: *shard_id });
            r
        },
        Event::MessageCreate(m) => handle_message(cfg, m),
        Event::InteractionCreate(i) => handle_interaction(cfg, i, cached_roles),
    }
}

/// Decides the actions for an execution outcome, by the run's origin:
/// a failure reaction when the service was unreachable; the fallback
/// message (message path) or silence (interaction paths) on a service
/// failure; and on success, a success reaction where the trigger was a
/// message, then the rendered result — in a new thread on the message
/// path, inline or as a file on the followup paths.
pub fn after_execution(outcome: &ExecutionOutcome, origin: &RunOrigin) -> (r: Vec<Action>)
    ensures
        *origin matches RunOrigin::MessageRun { channel_id, message_id, author_id } ==> match *outcome {
            ExecutionOutcome::TransportFailure => r@ =~= seq![
                Action::React { channel_id, message_id, reaction: Reaction::Failed },
            ],
            ExecutionOutcome::ServiceFailure { .. } => r@.len() == 1 && (r@[0]
                matches Action::PostMessage { channel_id: c, content } && c == channel_id
                && content@ == fallback_text()),
            ExecutionOutcome::Success { succeeded, stdout, stderr } => {
                &&& r@.len() == 2
                &&& r@[0] == (Action::React { channel_id, message_id, reaction: Reaction::Success })
                &&& (r@[1] matches Action::CreateThreadWithPost {
                    channel_id: c,
                    message_id: m,
                    title,
                    body,
                } && c == channel_id && m == message_id && title@ == spec_thread_title(
                    author_id,
                    message_id,
                ) && body@ == spec_compose(succeeded, stdout@, stderr@))
            },
        },
        *origin matches RunOrigin::CommandRun { channel_id, target_message_id, guild_id, user_id }
            ==> match *outcome {
            ExecutionOutcome::TransportFailure => r@ =~= seq![
                Action::React {
                    channel_id,
                    message_id: target_message_id,
                    reaction: Reaction::Failed,
                },
            ],
            ExecutionOutcome::ServiceFailure { .. } => r@.len() == 0,
            ExecutionOutcome::Success { succeeded, stdout, stderr } => {
                &&& r@.len() == 2
                &&& r@[0] == (Action::React {
                    channel_id,
                    message_id: target_message_id,
                    reaction: Reaction::Success,
                })
                &&& followup_render_ok(
                    r@[1],
                    guild_id,
                    user_id,
                    spec_compose(succeeded, stdout@, stderr@),
                )
            },
        },
        *origin matches RunOrigin::ModalRun { guild_id, user_id } ==> match *outcome {
            ExecutionOutcome::TransportFailure => r@.len() == 0,
            ExecutionOutcome::ServiceFailure { .. } => r@.len() == 0,
            ExecutionOutcome::Success { succeeded, stdout, stderr } => r@.len() == 1
                && followup_render_ok(
                r@[0],
                guild_id,
                user_id,
                spec_compose(succeeded, stdout@, stderr@),
            ),
        },
{
    let mut r: Vec<Action> = Vec::new();
    match origin {
        RunOrigin::MessageRun { channel_id, message_id, author_id } => {
            match outcome {
                ExecutionOutcome::TransportFailure => {
                    r.push(
                        Action::React {
                            channel_id: *channel_id,
                            message_id: *message_id,
                            reaction: Reaction::Failed,
                        },
                    );
                    assert(r@ =~= seq![
                        Action::React {
                            channel_id: *channel_id,
                            message_id: *message_id,
                            reaction: Reaction::Failed,
                        },
                    ]);
                },
                ExecutionOutcome::ServiceFailure { .. } => {
                    r.push(
                        Action::PostMessage {
                            channel_id: *channel_id,
                            content:
                                ":x: there was an error handling that event. please repooort me.".to_owned(),
                        },
                    );
                },
                ExecutionOutcome::Success { succeeded, stdout, stderr } => {
                    let body = compose_body(*succeeded, stdout.as_str(), stderr.as_str());
                    let resp = render(
                        body,
                        ResponsePath::MessageThread {
                            author_id: *author_id,
                            message_id: *message_id,
                        },
                    );
                    match resp {
                        RenderedResponse::NewThread { title, body } => {
                            r.push(
                                Action::React {
                                    channel_id: *channel_id,
                                    message_id: *message_id,
                                    reaction: Reaction::Success,
                                },
                            );
                            r.push(
                                Action::CreateThreadWithPost {
                                    channel_id: *channel_id,
                                    message_id: *message_id,
                                    title,
                                    body,
                                },
                            );
                        },
                        _ => {
                            proof {
                                assert(false);
                            }
                        },
                    }
                },
            }
        },
        RunOrigin::CommandRun { channel_id, target_message_id, guild_id, user_id } => {
            match outcome {
                ExecutionOutcome::TransportFailure => {
                    r.push(
                        Action::React {
                            channel_id: *channel_id,
                            message_id: *target_message_id,
                            reaction: Reaction::Failed,
                        },
                    );
                    assert(r@ =~= seq![
                        Action::React {
                            channel_id: *channel_id,
                            message_id: *target_message_id,
                            reaction: Reaction::Failed,
                        },
                    ]);
                },
                ExecutionOutcome::ServiceFailure { .. } => {},
                ExecutionOutcome::Success { succeeded, stdout, stderr } => {
                    r.push(
                        Action::React {
                            channel_id: *channel_id,
                            message_id: *target_message_id,
                            reaction: Reaction::Success,
                        },
                    );
                    let body = compose_body(*succeeded, stdout.as_str(), stderr.as_str());
                    let resp = render(
                        body,
                        ResponsePath::Followup { guild_id: *guild_id, user_id: *user_id },
                    );
                    match resp {
                        RenderedResponse::InlineText { text } => {
                            r.push(Action::FollowupText { content: text, ephemeral: false });
                        },
                        RenderedResponse::FileAttachment { file, filename } => {
                            r.push(
                                Action::FollowupFile {
                                    content:
                                        "<:ferrisbanne:958831785922416780> The output was too long. So here you go. Have an attachment. Is this what you wanted?".to_owned(),
                                    file,
                                    filename,
                                },
                            );
                        },
                        RenderedResponse::NewThread { .. } => {
                            proof {
                                assert(false);
                            }
                        },
                    }
                },
            }
        },
        RunOrigin::ModalRun { guild_id, user_id } => {
            match outcome {
                ExecutionOutcome::TransportFailure => {},
                ExecutionOutcome::ServiceFailure { .. } => {},
                ExecutionOutcome::Success { succeeded, stdout, stderr } => {
                    let body = compose_body(*succeeded, stdout.as_str(), stderr.as_str());
                    let resp = render(
                        body,
                        ResponsePath::Followup { guild_id: *guild_id, user_id: *user_id },
                    );
                    match resp {
                        RenderedResponse::InlineText { text } => {
                            r.push(Action::FollowupText { content: text, ephemeral: false });
                        },
                        RenderedResponse::FileAttachment { file, filename } => {
                            r.push(
                                Action::FollowupFile {
                                    content:
                                        "<:ferrisbanne:958831785922416780> The output was too long. So here you go. Have an attachment. Is this what you wanted?".to_owned(),
                                    file,
                                    filename,
                                },
                            );
                        },
                        RenderedResponse::NewThread { .. } => {
                            proof {
                                assert(false);
                            }
                        },
                    }
                },
            }
        },
    }
    r
}

} // verus!
