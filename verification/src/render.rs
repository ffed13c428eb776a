//! Result renderer: classifies the remote service's answer, composes
//! the user-visible result text, and chooses between an inline reply, a
//! file attachment, and a new thread, by trigger path and size.

use vstd::prelude::*;

verus! {

use vstd::string::StringExecFns;
use vstd::string::StrSliceExecFns;
use vstd::utf8::encode_utf8;
use crate::play::PlaygroundResult;
use crate::text::bool_str;
use crate::text::dec_str;
use crate::text::u64_to_string;

/// What one execution attempt came to. `succeeded` inside `Success`
/// reflects the remote compile-and-run result; a failing compile is
/// still a `Success` outcome of the transport.
pub enum ExecutionOutcome {
    /// The request never completed: connection or network failure.
    TransportFailure,
    /// An HTTP round trip happened, but outside the success range or
    /// with a body that did not decode.
    ServiceFailure { status: u16 },
    /// A decodable answer from the service.
    Success { succeeded: bool, stdout: String, stderr: String },
}

/// The user-visible form of a rendered result.
pub enum RenderedResponse {
    /// A direct reply within the platform's message size limit.
    InlineText { text: String },
    /// The composed text as an attached file, when it exceeds the limit.
    FileAttachment { file: Vec<u8>, filename: String },
    /// A new thread off the triggering message, holding the result.
    NewThread { title: String, body: String },
}

/// The progress indicators attached to a triggering message.
#[derive(PartialEq, Eq, Structural, Clone, Copy, Debug)]
pub enum Reaction {
    Working,
    Failed,
    Success,
    Warning,
}

/// Where the rendered result goes.
#[derive(PartialEq, Eq, Structural, Clone, Copy, Debug)]
pub enum ResponsePath {
    /// The free-text message trigger: the result is posted in a new
    /// thread off the triggering message.
    MessageThread { author_id: u64, message_id: u64 },
    /// An interaction followup: inline if it fits, else a file named
    /// after the guild and the invoking user.
    Followup { guild_id: u64, user_id: u64 },
}

/// The platform's inline message size limit, in characters.
pub const INLINE_LIMIT: usize = 2000;

impl Reaction {
    /// The Unicode emoji the platform shows for this indicator.
    pub fn emoji(&self) -> (r: &'static str)
        ensures
            *self == Reaction::Working ==> r@ == "\u{1f300}"@,
            *self == Reaction::Failed ==> r@ == "\u{274c}"@,
            *self == Reaction::Success ==> r@ == "\u{2705}"@,
            *self == Reaction::Warning ==> r@ == "\u{26a0}\u{fe0f}"@,
    {
        match self {
            Reaction::Working => "\u{1f300}",
            Reaction::Failed => "\u{274c}",
            Reaction::Success => "\u{2705}",
            Reaction::Warning => "\u{26a0}\u{fe0f}",
        }
    }
}

/// Classifies a completed HTTP exchange: a success-range status with a
/// decodable body is `Success`, anything else is `ServiceFailure` with
/// the status. (A request that never completed is `TransportFailure`,
/// classified before any status exists.)
pub fn classify(status: u16, decoded: Option<PlaygroundResult>) -> (r: ExecutionOutcome)
    ensures
        (200 <= status < 300 && decoded is Some) ==> (r matches ExecutionOutcome::Success {
            succeeded,
            stdout,
            stderr,
        } && {
            &&& succeeded == decoded->0.success
            &&& stdout == decoded->0.stdout
            &&& stderr == decoded->0.stderr
        }),
        !(200 <= status < 300 && decoded is Some) ==> r == (ExecutionOutcome::ServiceFailure {
            status,
        }),
{
    if 200 <= status && status < 300 {
        match decoded {
            Some(res) => ExecutionOutcome::Success {
                succeeded: res.success,
                stdout: res.stdout,
                stderr: res.stderr,
            },
            None => ExecutionOutcome::ServiceFailure { status },
        }
    } else {
        ExecutionOutcome::ServiceFailure { status }
    }
}

/// Backticks in the error stream become double quotes, so the composed
/// text cannot break out of its own markdown fence.
pub open spec fn spec_escape_ticks(s: Seq<char>) -> Seq<char> {
    Seq::new(
        s.len(),
        |i: int|
            if s[i] == '`' {
                '"'
            } else {
                s[i]
            },
    )
}

fn escape_ticks(s: &str) -> (r: String)
    ensures
        r@ == spec_escape_ticks(s@),
{
    let len = s.unicode_len();
    let mut r = String::new();
    let mut i: usize = 0;
    while i < len
        invariant
            i <= len,
            len == s@.len(),
            r@ == spec_escape_ticks(s@.subrange(0, i as int)),
        decreases len - i,
    {
        proof {
            reveal_strlit("\"");
        }
        if s.get_char(i) == '`' {
            r.append("\"");
        } else {
            r.append(s.substring_char(i, i + 1));
        }
        assert(r@ =~= spec_escape_ticks(s@.subrange(0, i + 1)));
        i += 1;
    }
    assert(s@.subrange(0, len as int) =~= s@);
    r
}

/// The text of a boolean in the composed result.
pub open spec fn spec_bool_chars(b: bool) -> Seq<char> {
    if b {
        "true"@
    } else {
        "false"@
    }
}

/// The composed result text: the remote verdict, then both output
/// streams, the error stream inside a fence with its backticks escaped.
pub open spec fn spec_compose(succeeded: bool, stdout: Seq<char>, stderr: Seq<char>) -> Seq<
    char,
> {
    "Result: "@ + spec_bool_chars(succeeded) + "\nStds:\n**Out:** "@ + stdout + "\n**Err:** ```"@
        + spec_escape_ticks(stderr) + "```"@
}

/// Composes the result text shown for a `Success` outcome.
pub fn compose_body(succeeded: bool, stdout: &str, stderr: &str) -> (r: String)
    ensures
        r@ == spec_compose(succeeded, stdout@, stderr@),
{
    let mut r = String::from_str("Result: ");
    r.append(bool_str(succeeded));
    r.append("\nStds:\n**Out:** ");
    r.append(stdout);
    r.append("\n**Err:** ```");
    let escaped = escape_ticks(stderr);
    r.append(escaped.as_str());
    r.append("```");
    r
}

/// The attachment name on the followup path.
pub open spec fn spec_filename(guild_id: u64, user_id: u64) -> Seq<char> {
    dec_str(guild_id as nat) + "-"@ + dec_str(user_id as nat) + ".txt"@
}

/// The thread title on the message path.
pub open spec fn spec_thread_title(author_id: u64, message_id: u64) -> Seq<char> {
    dec_str(author_id as nat) + "-"@ + dec_str(message_id as nat)
}

/// Where a body of the given length goes on the followup path: inline
/// up to the platform limit, a file beyond it.
pub open spec fn fits_inline(body: Seq<char>) -> bool {
    body.len() <= INLINE_LIMIT
}

/// Renders a successful outcome's composed body for its trigger path:
/// on the message path always a new thread titled after the author and
/// message; on the followup path inline text up to exactly the
/// platform's limit, and a file attachment holding the UTF-8 bytes of
/// the body beyond it.
pub fn render(body: String, path: ResponsePath) -> (r: RenderedResponse)
    ensures
        path matches ResponsePath::MessageThread { author_id, message_id } ==> r
            matches RenderedResponse::NewThread { title, body: b } && title@ == spec_thread_title(
            author_id,
            message_id,
        ) && b == body,
        path matches ResponsePath::Followup { guild_id, user_id } ==> {
            if fits_inline(body@) {
                r matches RenderedResponse::InlineText { text } && text == body
            } else {
                r matches RenderedResponse::FileAttachment { file, filename } && file@
                    == encode_utf8(body@) && filename@ == spec_filename(guild_id, user_id)
            }
        },
{
    match path {
        ResponsePath::MessageThread { author_id, message_id } => {
            let mut title = u64_to_string(author_id);
            title.append("-");
            let num = u64_to_string(message_id);
            title.append(num.as_str());
            RenderedResponse::NewThread { title, body }
        },
        ResponsePath::Followup { guild_id, user_id } => {
            if body.as_str().unicode_len() <= INLINE_LIMIT {
                RenderedResponse::InlineText { text: body }
            } else {
                let mut filename = u64_to_string(guild_id);
                filename.append("-");
                let num = u64_to_string(user_id);
                filename.append(num.as_str());
                filename.append(".txt");
                let file = body.as_str().as_bytes_vec();
                RenderedResponse::FileAttachment { file, filename }
            }
        },
    }
}

/// The progress indicator that follows an outcome on the message path:
/// a failure mark when the service could not be reached, a success mark
/// when it answered, and nothing for a service failure, which is
/// reported through the fallback message instead.
pub fn outcome_reaction(outcome: &ExecutionOutcome) -> (r: Option<Reaction>)
    ensures
        outcome is TransportFailure ==> r == Some(Reaction::Failed),
        outcome is Success ==> r == Some(Reaction::Success),
        outcome is ServiceFailure ==> r is None,
{
    match outcome {
        ExecutionOutcome::TransportFailure => Some(Reaction::Failed),
        ExecutionOutcome::Success { .. } => Some(Reaction::Success),
        ExecutionOutcome::ServiceFailure { .. } => None,
    }
}

} // verus!
