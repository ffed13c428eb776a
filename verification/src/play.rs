//! Remote execution requests: the fixed request shape sent to the
//! execution service and the verified JSON encoding of its body.

use vstd::prelude::*;

verus! {

use vstd::string::StringSliceAdditionalSpecFns;
use vstd::utf8::encode_utf8;

/// One request to the remote execution service. Built once per
/// submission and never mutated or retried.
pub struct Playground {
    pub channel: String,
    pub mode: String,
    pub edition: String,
    // Both of these are always `false` for this bot's requests.
    pub backtrace: bool,
    pub tests: bool,
    pub crate_type: String,
    pub code: String,
}

/// What the execution service reports back: whether the remote
/// compile-and-run succeeded, and the captured output streams.
pub struct PlaygroundResult {
    pub success: bool,
    pub stdout: String,
    pub stderr: String,
}

/// The byte of a hexadecimal digit below sixteen, lower case.
pub open spec fn hex_digit(n: u8) -> u8
    recommends
        n < 16,
{
    if n < 10 {
        (0x30 + n) as u8
    } else {
        (0x57 + n) as u8
    }
}

/// The JSON string-escape expansion of one byte. Quote and backslash
/// get a backslash escape, the named control characters their short
/// forms, other control bytes a `\u00..` escape; everything else (all
/// UTF-8 continuation and leading bytes included) passes through.
pub open spec fn esc_byte(b: u8) -> Seq<u8> {
    if b == 0x22 {
        seq![0x5cu8, 0x22u8]
    } else if b == 0x5c {
        seq![0x5cu8, 0x5cu8]
    } else if b == 0x08 {
        seq![0x5cu8, 0x62u8]
    } else if b == 0x09 {
        seq![0x5cu8, 0x74u8]
    } else if b == 0x0a {
        seq![0x5cu8, 0x6eu8]
    } else if b == 0x0c {
        seq![0x5cu8, 0x66u8]
    } else if b == 0x0d {
        seq![0x5cu8, 0x72u8]
    } else if b < 0x20 {
        seq![0x5cu8, 0x75u8, 0x30u8, 0x30u8, hex_digit(b / 16), hex_digit(b % 16)]
    } else {
        seq![b]
    }
}

/// The JSON string-escaped form of a byte sequence.
pub open spec fn json_escaped(s: Seq<u8>) -> Seq<u8>
    decreases s.len(),
{
    if s.len() == 0 {
        Seq::empty()
    } else {
        json_escaped(s.drop_last()) + esc_byte(s.last())
    }
}

fn hex_digit_byte(n: u8) -> (r: u8)
    requires
        n < 16,
    ensures
        r == hex_digit(n),
{
    if n < 10 {
        0x30 + n
    } else {
        0x57 + n
    }
}

fn push_escaped(out: &mut Vec<u8>, s: &[u8])
    ensures
        final(out)@ == old(out)@ + json_escaped(s@),
{
    let ghost orig = out@;
    let mut i: usize = 0;
    while i < s.len()
        invariant
            i <= s@.len(),
            out@ == orig + json_escaped(s@.subrange(0, i as int)),
        decreases s@.len() - i,
    {
        let b = s[i];
        proof {
            assert(s@.subrange(0, i + 1).drop_last() =~= s@.subrange(0, i as int));
            assert(s@.subrange(0, i + 1).last() == s@[i as int]);
        }
        if b == 0x22 {
            out.push(0x5c);
            out.push(0x22);
        } else if b == 0x5c {
            out.push(0x5c);
            out.push(0x5c);
        } else if b == 0x08 {
            out.push(0x5c);
            out.push(0x62);
        } else if b == 0x09 {
            out.push(0x5c);
            out.push(0x74);
        } else if b == 0x0a {
            out.push(0x5c);
            out.push(0x6e);
        } else if b == 0x0c {
            out.push(0x5c);
            out.push(0x66);
        } else if b == 0x0d {
            out.push(0x5c);
            out.push(0x72);
        } else if b < 0x20 {
            out.push(0x5c);
            out.push(0x75);
            out.push(0x30);
            out.push(0x30);
            out.push(hex_digit_byte(b / 16));
            out.push(hex_digit_byte(b % 16));
        } else {
            out.push(b);
        }
        assert(out@ =~= orig + json_escaped(s@.subrange(0, i + 1)));
        i += 1;
    }
    assert(s@.subrange(0, s@.len() as int) =~= s@);
}

/// The text of a JSON boolean.
pub open spec fn spec_bool_bytes(b: bool) -> Seq<u8> {
    if b {
        "true".spec_bytes()
    } else {
        "false".spec_bytes()
    }
}

/// The exact JSON body sent to the execution endpoint, over the UTF-8
/// bytes of each field.
pub open spec fn spec_request_body(
    channel: Seq<u8>,
    mode: Seq<u8>,
    edition: Seq<u8>,
    backtrace: bool,
    tests: bool,
    crate_type: Seq<u8>,
    code: Seq<u8>,
) -> Seq<u8> {
    "{\"channel\":\"".spec_bytes() + json_escaped(channel) + "\",\"mode\":\"".spec_bytes()
        + json_escaped(mode) + "\",\"edition\":\"".spec_bytes() + json_escaped(edition)
        + "\",\"backtrace\":".spec_bytes() + spec_bool_bytes(backtrace) + ",\"tests\":".spec_bytes()
        + spec_bool_bytes(tests) + ",\"crateType\":\"".spec_bytes() + json_escaped(crate_type)
        + "\",\"code\":\"".spec_bytes() + json_escaped(code) + "\"}".spec_bytes()
}

impl Playground {
    /// The JSON body this request serializes to.
    pub open spec fn spec_body(self) -> Seq<u8> {
        spec_request_body(
            encode_utf8(self.channel@),
            encode_utf8(self.mode@),
            encode_utf8(self.edition@),
            self.backtrace,
            self.tests,
            encode_utf8(self.crate_type@),
            encode_utf8(self.code@),
        )
    }

    /// Builds the one request shape this bot ever submits: stable
    /// channel, debug mode, 2021 edition, binary crate, no backtrace,
    /// no tests.
    pub fn new(code: String) -> (r: Playground)
        ensures
            r.channel@ == "stable"@,
            r.mode@ == "debug"@,
            r.edition@ == "2021"@,
            !r.backtrace,
            !r.tests,
            r.crate_type@ == "bin"@,
            r.code == code,
    {
        Playground {
            channel: "stable".to_owned(),
            mode: "debug".to_owned(),
            edition: "2021".to_owned(),
            backtrace: false,
            tests: false,
            crate_type: "bin".to_owned(),
            code,
        }
    }

    /// Serializes the request into its JSON body, escaping every field.
    pub fn request_body(&self) -> (r: Vec<u8>)
        ensures
            r@ == self.spec_body(),
    {
        let mut out: Vec<u8> = Vec::new();
        out.extend_from_slice("{\"channel\":\"".as_bytes());
        push_escaped(&mut out, self.channel.as_str().as_bytes());
        out.extend_from_slice("\",\"mode\":\"".as_bytes());
        push_escaped(&mut out, self.mode.as_str().as_bytes());
        out.extend_from_slice("\",\"edition\":\"".as_bytes());
        push_escaped(&mut out, self.edition.as_str().as_bytes());
        out.extend_from_slice("\",\"backtrace\":".as_bytes());
        out.extend_from_slice(if self.backtrace {
            "true".as_bytes()
        } else {
            "false".as_bytes()
        });
        out.extend_from_slice(",\"tests\":".as_bytes());
        out.extend_from_slice(if self.tests {
            "true".as_bytes()
        } else {
            "false".as_bytes()
        });
        out.extend_from_slice(",\"crateType\":\"".as_bytes());
        push_escaped(&mut out, self.crate_type.as_str().as_bytes());
        out.extend_from_slice("\",\"code\":\"".as_bytes());
        push_escaped(&mut out, self.code.as_str().as_bytes());
        out.extend_from_slice("\"}".as_bytes());
        assert(out@ =~= self.spec_body());
        out
    }
}

} // verus!
