//! Code extractor: pulls a fenced code block out of free-form message
//! text, accepts only the `rs` and `rust` language tags, and auto-wraps
//! bare expressions into a runnable entry point.

use vstd::prelude::*;

verus! {

use vstd::string::StringExecFns;
use crate::text::contains_seq;
use crate::text::contains_sub;

/// A code unit accepted for remote execution.
pub struct CodeSubmission {
    /// The trimmed language tag of the fenced block; `None` on the modal
    /// path, where no fence or tag is required.
    pub language_tag: Option<String>,
    /// The user's code exactly as extracted, before any wrapping.
    pub raw_text: String,
    /// Whether the code lacked an entry point and must be wrapped.
    pub wrapped: bool,
}

/// A triple-backtick fence starts at position `i` of `s`.
pub open spec fn is_fence_at(s: Seq<char>, i: int) -> bool {
    i + 3 <= s.len() && s[i] == '`' && s[i + 1] == '`' && s[i + 2] == '`'
}

/// The position of the first fence at or after `i`, or `s.len()` if none.
pub open spec fn first_fence_from(s: Seq<char>, i: int) -> int
    decreases s.len() - i,
{
    if i + 3 > s.len() {
        s.len() as int
    } else if is_fence_at(s, i) {
        i
    } else {
        first_fence_from(s, i + 1)
    }
}

/// The position of the first newline at or after `i`, or `s.len()` if none.
pub open spec fn first_nl_from(s: Seq<char>, i: int) -> int
    decreases s.len() - i,
{
    if i >= s.len() {
        s.len() as int
    } else if s[i] == '\n' {
        i
    } else {
        first_nl_from(s, i + 1)
    }
}

/// The message text opens with a fence.
pub open spec fn starts_with_fence(s: Seq<char>) -> bool {
    is_fence_at(s, 0)
}

/// The contents of the opening fenced block: everything between the
/// opening fence and the next fence (or the end of the text).
pub open spec fn fenced_block(s: Seq<char>) -> Seq<char> {
    s.subrange(3, first_fence_from(s, 3))
}

/// The first line of a fenced block, the candidate language tag.
pub open spec fn tag_line(b: Seq<char>) -> Seq<char> {
    b.subrange(0, first_nl_from(b, 0))
}

/// A fenced block's contents after its tag line.
pub open spec fn block_body(b: Seq<char>) -> Seq<char> {
    if first_nl_from(b, 0) == b.len() {
        Seq::empty()
    } else {
        b.subrange(first_nl_from(b, 0) + 1, b.len() as int)
    }
}

/// Horizontal whitespace stripped around a language tag.
pub open spec fn is_ws(c: char) -> bool {
    c == ' ' || c == '\t' || c == '\r'
}

/// `s` without its leading whitespace run.
pub open spec fn trim_start_spec(s: Seq<char>) -> Seq<char>
    decreases s.len(),
{
    if s.len() > 0 && is_ws(s[0]) {
        trim_start_spec(s.drop_first())
    } else {
        s
    }
}

/// `s` without its trailing whitespace run.
pub open spec fn trim_end_spec(s: Seq<char>) -> Seq<char>
    decreases s.len(),
{
    if s.len() > 0 && is_ws(s.last()) {
        trim_end_spec(s.drop_last())
    } else {
        s
    }
}

/// `s` without leading and trailing whitespace.
pub open spec fn trim_spec(s: Seq<char>) -> Seq<char> {
    trim_end_spec(trim_start_spec(s))
}

/// The two language tags the extractor accepts, case-sensitive.
pub open spec fn rs_tag() -> Seq<char> {
    seq!['r', 's']
}

pub open spec fn rust_tag() -> Seq<char> {
    seq!['r', 'u', 's', 't']
}

/// A tag line passes the filter when its trimmed text is exactly `rs`
/// or `rust`.
pub open spec fn tag_accepted(line: Seq<char>) -> bool {
    trim_spec(line) == rs_tag() || trim_spec(line) == rust_tag()
}

/// What extraction yields on a message text: the body of the opening
/// fenced block when the text opens with a fence and the block's tag is
/// accepted, and nothing otherwise.
pub open spec fn spec_extract_body(s: Seq<char>) -> Option<Seq<char>> {
    if starts_with_fence(s) && tag_accepted(tag_line(fenced_block(s))) {
        Some(block_body(fenced_block(s)))
    } else {
        None
    }
}

/// The entry-point marker whose presence suppresses auto-wrapping.
pub open spec fn entry_marker() -> Seq<char> {
    "fn main()"@
}

/// Code without the entry-point marker is wrapped before submission.
pub open spec fn needs_wrap(body: Seq<char>) -> bool {
    !contains_seq(body, entry_marker())
}

/// A bare expression wrapped into a minimal program that prints the
/// expression's debug representation.
pub open spec fn spec_wrap(body: Seq<char>) -> Seq<char> {
    "fn main() { println!(\"{:?}\", { "@ + body + " } ) }"@
}

proof fn lemma_first_fence_hits(s: Seq<char>, i: int, t: int)
    requires
        0 <= i <= t,
        t + 3 <= s.len(),
        is_fence_at(s, t),
        forall|j: int| i <= j < t ==> s[j] != '`',
    ensures
        first_fence_from(s, i) == t,
    decreases t - i,
{
    if i == t {
    } else {
        assert(!is_fence_at(s, i));
        lemma_first_fence_hits(s, i + 1, t);
    }
}

proof fn lemma_first_nl_hits(s: Seq<char>, i: int, t: int)
    requires
        0 <= i <= t < s.len(),
        s[t] == '\n',
        forall|j: int| i <= j < t ==> s[j] != '\n',
    ensures
        first_nl_from(s, i) == t,
    decreases t - i,
{
    if i == t {
    } else {
        lemma_first_nl_hits(s, i + 1, t);
    }
}

/// Any message assembled as an opening fence, a tag line, a body, and a
/// closing fence extracts to exactly that body when the tag is
/// accepted, and to nothing for every other tag — for every tag free of
/// backticks and newlines and every body free of backticks, so that
/// neither disturbs the fence and line structure.
pub proof fn lemma_fenced_message_extracts(tag: Seq<char>, body: Seq<char>)
    requires
        forall|i: int| 0 <= i < tag.len() ==> #[trigger] tag[i] != '`' && tag[i] != '\n',
        forall|i: int| 0 <= i < body.len() ==> #[trigger] body[i] != '`',
    ensures
        ({
            let msg = seq!['`', '`', '`'] + tag + seq!['\n'] + body + seq!['`', '`', '`'];
            spec_extract_body(msg) == if tag_accepted(tag) {
                Some(body)
            } else {
                None::<Seq<char>>
            }
        }),
{
    let n = tag.len() as int;
    let m = body.len() as int;
    let msg = seq!['`', '`', '`'] + tag + seq!['\n'] + body + seq!['`', '`', '`'];
    assert(msg.len() == n + m + 7);
    assert(forall|i: int| 0 <= i < n ==> msg[3 + i] == #[trigger] tag[i]);
    assert(forall|i: int| 0 <= i < m ==> msg[4 + n + i] == #[trigger] body[i]);
    assert(msg[3 + n] == '\n');
    assert(is_fence_at(msg, 0));
    assert(is_fence_at(msg, 4 + n + m));
    assert(forall|j: int| 3 <= j < 4 + n + m ==> msg[j] != '`') by {
        assert(forall|i: int| 0 <= i < n ==> msg[3 + i] == #[trigger] tag[i]);
        assert(forall|i: int| 0 <= i < m ==> msg[4 + n + i] == #[trigger] body[i]);
        assert forall|j: int| 3 <= j < 4 + n + m implies msg[j] != '`' by {
            if j < 3 + n {
                assert(msg[j] == tag[j - 3]);
            } else if j == 3 + n {
            } else {
                assert(msg[j] == body[j - 4 - n]);
            }
        }
    }
    lemma_first_fence_hits(msg, 3, 4 + n + m);
    let block = fenced_block(msg);
    assert(block =~= tag + seq!['\n'] + body);
    assert(forall|j: int| 0 <= j < n ==> block[j] != '\n');
    assert(block[n] == '\n');
    lemma_first_nl_hits(block, 0, n);
    assert(tag_line(block) =~= tag);
    assert(block_body(block) =~= body);
}

fn find_fence(s: &str, from: usize) -> (r: usize)
    requires
        from <= s@.len(),
    ensures
        r == first_fence_from(s@, from as int),
        from <= r <= s@.len(),
{
    let len = s.unicode_len();
    let mut i: usize = from;
    while len - i >= 3
        invariant
            from <= i <= len,
            len == s@.len(),
            first_fence_from(s@, from as int) == first_fence_from(s@, i as int),
        decreases len - i,
    {
        if s.get_char(i) == '`' && s.get_char(i + 1) == '`' && s.get_char(i + 2) == '`' {
            assert(is_fence_at(s@, i as int));
            assert(first_fence_from(s@, i as int) == i as int);
            return i;
        }
        assert(first_fence_from(s@, i as int) == first_fence_from(s@, i + 1));
        i += 1;
    }
    assert(first_fence_from(s@, i as int) == s@.len());
    len
}

fn find_nl(s: &str, from: usize) -> (r: usize)
    requires
        from <= s@.len(),
    ensures
        r == first_nl_from(s@, from as int),
        from <= r <= s@.len(),
{
    let len = s.unicode_len();
    let mut i: usize = from;
    while i < len
        invariant
            from <= i <= len,
            len == s@.len(),
            first_nl_from(s@, from as int) == first_nl_from(s@, i as int),
        decreases len - i,
    {
        if s.get_char(i) == '\n' {
            assert(first_nl_from(s@, i as int) == i as int);
            return i;
        }
        assert(first_nl_from(s@, i as int) == first_nl_from(s@, i + 1));
        i += 1;
    }
    assert(first_nl_from(s@, i as int) == s@.len());
    len
}

fn is_ws_char(c: char) -> (r: bool)
    ensures
        r == is_ws(c),
{
    c == ' ' || c == '\t' || c == '\r'
}

fn trim_str<'a>(s: &'a str) -> (r: &'a str)
    ensures
        r@ == trim_spec(s@),
{
    let len = s.unicode_len();
    assert(s@.subrange(0, len as int) =~= s@);
    let mut lo: usize = 0;
    while lo < len && is_ws_char(s.get_char(lo))
        invariant
            lo <= len,
            len == s@.len(),
            trim_start_spec(s@) == trim_start_spec(s@.subrange(lo as int, len as int)),
        decreases len - lo,
    {
        assert(s@.subrange(lo as int, len as int).drop_first() =~= s@.subrange(
            lo + 1,
            len as int,
        ));
        lo += 1;
    }
    assert(trim_start_spec(s@.subrange(lo as int, len as int)) == s@.subrange(
        lo as int,
        len as int,
    ));
    let mut hi: usize = len;
    while hi > lo && is_ws_char(s.get_char(hi - 1))
        invariant
            lo <= hi <= len,
            len == s@.len(),
            trim_start_spec(s@) == s@.subrange(lo as int, len as int),
            trim_end_spec(s@.subrange(lo as int, len as int)) == trim_end_spec(
                s@.subrange(lo as int, hi as int),
            ),
        decreases hi,
    {
        assert(s@.subrange(lo as int, hi as int).last() == s@[hi - 1]);
        assert(s@.subrange(lo as int, hi as int).drop_last() =~= s@.subrange(
            lo as int,
            hi - 1,
        ));
        hi -= 1;
    }
    assert(trim_end_spec(s@.subrange(lo as int, hi as int)) == s@.subrange(
        lo as int,
        hi as int,
    ));
    s.substring_char(lo, hi)
}

fn tag_matches(t: &str) -> (r: bool)
    ensures
        r == (t@ == rs_tag() || t@ == rust_tag()),
{
    let len = t.unicode_len();
    if len == 2 {
        if t.get_char(0) == 'r' && t.get_char(1) == 's' {
            assert(t@ =~= rs_tag());
            return true;
        }
        assert(t@ != rs_tag() && t@ != rust_tag());
        return false;
    }
    if len == 4 {
        if t.get_char(0) == 'r' && t.get_char(1) == 'u' && t.get_char(2) == 's' && t.get_char(3)
            == 't' {
            assert(t@ =~= rust_tag());
            return true;
        }
        assert(t@ != rs_tag() && t@ != rust_tag());
        return false;
    }
    false
}

/// Extracts a code submission from raw message text. Succeeds exactly
/// when the text opens with a fence whose first line, trimmed, is `rs`
/// or `rust`; the submission then carries the block's body and whether
/// it must be wrapped.
pub fn extract(text: &str) -> (r: Option<CodeSubmission>)
    ensures
        r is Some <==> spec_extract_body(text@) is Some,
        r matches Some(sub) ==> {
            &&& spec_extract_body(text@) == Some(sub.raw_text@)
            &&& sub.language_tag matches Some(t) && t@ == trim_spec(tag_line(fenced_block(text@)))
            &&& sub.wrapped == needs_wrap(sub.raw_text@)
        },
{
    let len = text.unicode_len();
    if len < 3 || !(text.get_char(0) == '`' && text.get_char(1) == '`' && text.get_char(2)
        == '`') {
        assert(!starts_with_fence(text@));
        return None;
    }
    assert(starts_with_fence(text@));
    let end = find_fence(text, 3);
    let block = text.substring_char(3, end);
    assert(block@ == fenced_block(text@));
    let block_len = block.unicode_len();
    let nl = find_nl(block, 0);
    let tag_raw = block.substring_char(0, nl);
    assert(tag_raw@ == tag_line(block@));
    let tag = trim_str(tag_raw);
    if !tag_matches(tag) {
        assert(!tag_accepted(tag_line(fenced_block(text@))));
        return None;
    }
    let body: &str = if nl == block_len {
        proof {
            reveal_strlit("");
        }
        assert(block_body(block@) =~= ""@);
        ""
    } else {
        block.substring_char(nl + 1, block_len)
    };
    assert(body@ == block_body(block@));
    let wrapped = !contains_sub(body, "fn main()");
    Some(
        CodeSubmission {
            language_tag: Some(tag.to_owned()),
            raw_text: body.to_owned(),
            wrapped,
        },
    )
}

/// Builds the submission for a modal text field: the raw field text is
/// the submission directly, with no fence or tag requirement.
pub fn submission_from_modal(text: &str) -> (r: CodeSubmission)
    ensures
        r.language_tag is None,
        r.raw_text@ == text@,
        r.wrapped == needs_wrap(text@),
{
    let wrapped = !contains_sub(text, "fn main()");
    CodeSubmission { language_tag: None, raw_text: text.to_owned(), wrapped }
}

impl CodeSubmission {
    /// The program actually submitted: the raw text itself when it has
    /// an entry point, the wrapped expression program otherwise.
    pub open spec fn spec_code(self) -> Seq<char> {
        if self.wrapped {
            spec_wrap(self.raw_text@)
        } else {
            self.raw_text@
        }
    }

    /// Renders the program to submit to the execution service.
    pub fn code(&self) -> (r: String)
        ensures
            r@ == self.spec_code(),
    {
        if self.wrapped {
            let mut s = String::from_str("fn main() { println!(\"{:?}\", { ");
            s.append(self.raw_text.as_str());
            s.append(" } ) }");
            s
        } else {
            self.raw_text.clone()
        }
    }
}

} // verus!
