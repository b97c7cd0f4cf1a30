//! Boundary-safe records of unexpected host-side failures.
//!
//! Ordinary compile diagnostics travel as typed results; these records
//! carry only fatal conditions (world construction failure, malformed
//! arguments) across the boundary, with cause chains and call frames.
//! Internally a failure is a closed tag; the free-text class name shown
//! to the host is generated from the tag at the boundary and never
//! matched on.

use vstd::prelude::*;
use vstd::string::StringSliceAdditionalSpecFns;
use vstd::utf8::encode_utf8;
use crate::extended_info::opt_text_view;

verus! {

/// One captured call frame.
pub struct StackTraceElement {
    pub class_loader_name: Option<String>,
    pub module_name: Option<String>,
    pub module_version: Option<String>,
    pub declaring_class: Option<String>,
    pub method_name: Option<String>,
    pub file_name: Option<String>,
    pub line_number: u32,
}

/// An unexpected failure, with its cause chain and captured frames.
pub struct Exception {
    pub class: String,
    pub message: Option<String>,
    pub cause: Option<Box<Exception>>,
    pub stack_trace: Vec<StackTraceElement>,
    pub suppressed: Vec<Exception>,
}

/// The closed set of failure kinds the bridge can raise.
pub enum FailureKind {
    /// A second registration of the release callback was attempted.
    IllegalState,
    /// A value handed in from the host was malformed.
    IllegalArgument,
}

/// The class name presented to the host for a failure kind.
pub open spec fn class_name_of(kind: FailureKind) -> Seq<char> {
    match kind {
        FailureKind::IllegalState => "java.lang.IllegalStateException"@,
        FailureKind::IllegalArgument => "java.lang.IllegalArgumentException"@,
    }
}

/// The class name for a failure kind, generated at the boundary.
pub fn class_name(kind: &FailureKind) -> (r: String)
    ensures
        r@ == class_name_of(*kind),
{
    match kind {
        FailureKind::IllegalState => "java.lang.IllegalStateException".to_owned(),
        FailureKind::IllegalArgument => "java.lang.IllegalArgumentException".to_owned(),
    }
}

impl Exception {
    /// Builds a record for a failure kind at the point of failure, with
    /// the frames captured there.
    pub fn raise(kind: &FailureKind, message: Option<String>, trace: Vec<StackTraceElement>) -> (r:
        Exception)
        ensures
            r.class@ == class_name_of(*kind),
            r.message == message,
            r.cause is None,
            r.stack_trace@ == trace@,
            r.suppressed@.len() == 0,
    {
        Exception {
            class: class_name(kind),
            message,
            cause: None,
            stack_trace: trace,
            suppressed: Vec::new(),
        }
    }

    /// Chains a record onto an underlying cause.
    pub fn with_cause(self, cause: Exception) -> (r: Exception)
        ensures
            r.class == self.class,
            r.message == self.message,
            r.cause matches Some(c) && *c == cause,
            r.stack_trace == self.stack_trace,
            r.suppressed == self.suppressed,
    {
        Exception { cause: Some(Box::new(cause)), ..self }
    }
}

/// The byte of a lowercase hex digit.
pub open spec fn hex_digit_byte(n: u8) -> u8
    recommends
        n < 16,
{
    if n < 10 {
        (48 + n) as u8
    } else {
        (87 + n) as u8
    }
}

/// How one byte of UTF-8 text appears inside a JSON string: quote,
/// backslash and the control bytes are escaped, everything else —
/// including the bytes of multi-byte characters — passes through.
pub open spec fn escaped_byte(b: u8) -> Seq<u8> {
    if b == 34 {
        seq![92u8, 34u8]
    } else if b == 92 {
        seq![92u8, 92u8]
    } else if b == 8 {
        seq![92u8, 98u8]
    } else if b == 9 {
        seq![92u8, 116u8]
    } else if b == 10 {
        seq![92u8, 110u8]
    } else if b == 12 {
        seq![92u8, 102u8]
    } else if b == 13 {
        seq![92u8, 114u8]
    } else if b < 32 {
        seq![92u8, 117u8, 48u8, 48u8, hex_digit_byte(b / 16), hex_digit_byte(b % 16)]
    } else {
        seq![b]
    }
}

/// The escaped form of text bytes from position `i` on.
pub open spec fn escaped_from(b: Seq<u8>, i: int) -> Seq<u8>
    decreases b.len() - i,
{
    if i < 0 || i >= b.len() {
        Seq::empty()
    } else {
        escaped_byte(b[i]) + escaped_from(b, i + 1)
    }
}

/// A JSON string: the escaped UTF-8 bytes of the text in quotes.
pub open spec fn json_text(s: Seq<char>) -> Seq<u8> {
    seq![34u8] + escaped_from(encode_utf8(s), 0) + seq![34u8]
}

/// An optional text: a JSON string or `null`.
pub open spec fn json_opt_text(m: Option<Seq<char>>) -> Seq<u8> {
    match m {
        Some(s) => json_text(s),
        None => ("null").spec_bytes(),
    }
}

/// A nonnegative number in decimal.
pub open spec fn dec_bytes(n: int) -> Seq<u8>
    recommends
        n >= 0,
    decreases n,
{
    if n < 10 {
        seq![(48 + if 0 <= n { n } else { 0 }) as u8]
    } else {
        dec_bytes(n / 10) + seq![(48 + n % 10) as u8]
    }
}

/// One captured frame as a JSON object.
pub open spec fn json_of_frame(f: StackTraceElement) -> Seq<u8> {
    ("{\"class_loader_name\":").spec_bytes() + json_opt_text(opt_text_view(f.class_loader_name))
        + (",\"module_name\":").spec_bytes() + json_opt_text(opt_text_view(f.module_name)) + (
    ",\"module_version\":").spec_bytes() + json_opt_text(opt_text_view(f.module_version)) + (
    ",\"declaring_class\":").spec_bytes() + json_opt_text(opt_text_view(f.declaring_class)) + (
    ",\"method_name\":").spec_bytes() + json_opt_text(opt_text_view(f.method_name)) + (
    ",\"file_name\":").spec_bytes() + json_opt_text(opt_text_view(f.file_name)) + (
    ",\"line_number\":").spec_bytes() + dec_bytes(f.line_number as int) + ("}").spec_bytes()
}

/// The frames from position `i` on, comma-separated.
pub open spec fn json_frames_from(s: Seq<StackTraceElement>, i: int) -> Seq<u8>
    decreases s.len() - i,
{
    if i < 0 || i >= s.len() {
        Seq::empty()
    } else {
        (if i > 0 {
            seq![44u8]
        } else {
            Seq::empty()
        }) + json_of_frame(s[i]) + json_frames_from(s, i + 1)
    }
}

/// A failure record as a JSON object, in the wire shape the host
/// reads: class, message, cause chain, frames and suppressed records.
pub open spec fn json_of_exception(e: Exception) -> Seq<u8>
    decreases e, 0int, 1int,
{
    json_exception_head(e) + json_frames_from(e.stack_trace@, 0) + (
    "],\"suppressed\":[").spec_bytes() + json_exceptions_from(e.suppressed@, 0) + (
    "]}").spec_bytes()
}

/// The part of a record up to and including the opening of its frame
/// list: class, message and cause chain.
pub open spec fn json_exception_head(e: Exception) -> Seq<u8>
    decreases e, 0int, 0int,
{
    ("{\"class\":").spec_bytes() + json_text(e.class@) + (",\"message\":").spec_bytes()
        + json_opt_text(opt_text_view(e.message)) + (",\"cause\":").spec_bytes() + (match e.cause {
        Some(c) => json_of_exception(*c),
        None => ("null").spec_bytes(),
    }) + (",\"stack_trace\":[").spec_bytes()
}

/// The suppressed records from position `i` on, comma-separated.
pub open spec fn json_exceptions_from(s: Seq<Exception>, i: int) -> Seq<u8>
    decreases s, s.len() - i, 2int,
{
    if i < 0 || i >= s.len() {
        Seq::empty()
    } else {
        (if i > 0 {
            seq![44u8]
        } else {
            Seq::empty()
        }) + json_of_exception(s[i]) + json_exceptions_from(s, i + 1)
    }
}

/// Appends a literal's bytes.
fn append_lit(out: &mut Vec<u8>, lit: &str)
    ensures
        final(out)@ == old(out)@ + lit.spec_bytes(),
{
    let bytes = lit.as_bytes_vec();
    crate::buffer::append_bytes(out, &bytes);
}

/// Appends a nonnegative number in decimal.
fn append_dec(out: &mut Vec<u8>, n: u32)
    ensures
        final(out)@ == old(out)@ + dec_bytes(n as int),
    decreases n,
{
    if n < 10 {
        out.push((48 + n) as u8);
        proof {
            assert(final(out)@ =~= old(out)@ + dec_bytes(n as int));
        }
    } else {
        append_dec(out, n / 10);
        out.push((48 + (n % 10)) as u8);
        proof {
            assert(final(out)@ =~= old(out)@ + dec_bytes(n as int));
        }
    }
}

/// Appends a text as a JSON string, escaping as it goes.
#[verifier::loop_isolation(false)]
fn append_json_text(out: &mut Vec<u8>, s: &String)
    ensures
        final(out)@ == old(out)@ + json_text(s@),
{
    let bytes = s.as_str().as_bytes_vec();
    out.push(34);
    let ghost base = out@;
    let mut i: usize = 0;
    while i < bytes.len()
        invariant
            i <= bytes@.len(),
            out@ + escaped_from(bytes@, i as int) == base + escaped_from(bytes@, 0),
        decreases bytes@.len() - i,
    {
        let b = bytes[i];
        if b == 34 {
            out.push(92);
            out.push(34);
        } else if b == 92 {
            out.push(92);
            out.push(92);
        } else if b == 8 {
            out.push(92);
            out.push(98);
        } else if b == 9 {
            out.push(92);
            out.push(116);
        } else if b == 10 {
            out.push(92);
            out.push(110);
        } else if b == 12 {
            out.push(92);
            out.push(102);
        } else if b == 13 {
            out.push(92);
            out.push(114);
        } else if b < 32 {
            out.push(92);
            out.push(117);
            out.push(48);
            out.push(48);
            out.push(if b / 16 < 10 {
                48 + b / 16
            } else {
                87 + b / 16
            });
            out.push(if b % 16 < 10 {
                48 + b % 16
            } else {
                87 + b % 16
            });
        } else {
            out.push(b);
        }
        proof {
            assert(out@ + escaped_from(bytes@, i as int + 1) =~= base + escaped_from(
                bytes@,
                0,
            ));
        }
        i = i + 1;
    }
    out.push(34);
    proof {
        assert(final(out)@ =~= old(out)@ + json_text(s@));
    }
}

/// Appends an optional text as a JSON string or `null`.
fn append_json_opt_text(out: &mut Vec<u8>, m: &Option<String>)
    ensures
        final(out)@ == old(out)@ + json_opt_text(opt_text_view(*m)),
{
    match m {
        Some(s) => append_json_text(out, s),
        None => append_lit(out, "null"),
    }
}

/// Appends one frame as a JSON object.
#[verifier::rlimit(60)]
fn append_frame(out: &mut Vec<u8>, f: &StackTraceElement)
    ensures
        final(out)@ == old(out)@ + json_of_frame(*f),
{
    append_lit(out, "{\"class_loader_name\":");
    append_json_opt_text(out, &f.class_loader_name);
    append_lit(out, ",\"module_name\":");
    append_json_opt_text(out, &f.module_name);
    append_lit(out, ",\"module_version\":");
    append_json_opt_text(out, &f.module_version);
    append_lit(out, ",\"declaring_class\":");
    append_json_opt_text(out, &f.declaring_class);
    append_lit(out, ",\"method_name\":");
    append_json_opt_text(out, &f.method_name);
    append_lit(out, ",\"file_name\":");
    append_json_opt_text(out, &f.file_name);
    append_lit(out, ",\"line_number\":");
    append_dec(out, f.line_number);
    append_lit(out, "}");
    proof {
        assert(final(out)@ =~= old(out)@ + json_of_frame(*f));
    }
}

/// Appends a failure record as a JSON object.
#[verifier::loop_isolation(false)]
#[verifier::rlimit(60)]
pub fn append_exception(out: &mut Vec<u8>, e: &Exception)
    ensures
        final(out)@ == old(out)@ + json_of_exception(*e),
    decreases *e,
{
    let ghost start = out@;
    append_lit(out, "{\"class\":");
    append_json_text(out, &e.class);
    append_lit(out, ",\"message\":");
    append_json_opt_text(out, &e.message);
    append_lit(out, ",\"cause\":");
    match &e.cause {
        Some(c) => append_exception(out, c),
        None => append_lit(out, "null"),
    }
    append_lit(out, ",\"stack_trace\":[");
    proof {
        assert(out@ =~= start + json_exception_head(*e));
    }
    let ghost base_frames = out@;
    let mut i: usize = 0;
    while i < e.stack_trace.len()
        invariant
            i <= e.stack_trace@.len(),
            out@ + json_frames_from(e.stack_trace@, i as int) == base_frames + json_frames_from(
                e.stack_trace@,
                0,
            ),
        decreases e.stack_trace@.len() - i,
    {
        if i > 0 {
            out.push(44);
        }
        append_frame(out, &e.stack_trace[i]);
        proof {
            assert(out@ + json_frames_from(e.stack_trace@, i as int + 1) =~= base_frames
                + json_frames_from(e.stack_trace@, 0));
        }
        i = i + 1;
    }
    proof {
        assert(out@ =~= base_frames + json_frames_from(e.stack_trace@, 0));
    }
    let ghost done_frames = out@;
    append_lit(out, "],\"suppressed\":[");
    let ghost base_suppressed = out@;
    let mut j: usize = 0;
    while j < e.suppressed.len()
        invariant
            j <= e.suppressed@.len(),
            out@ + json_exceptions_from(e.suppressed@, j as int) == base_suppressed
                + json_exceptions_from(e.suppressed@, 0),
        decreases e.suppressed@.len() - j,
    {
        if j > 0 {
            out.push(44);
        }
        append_exception(out, &e.suppressed[j]);
        proof {
            assert(out@ + json_exceptions_from(e.suppressed@, j as int + 1) =~= base_suppressed
                + json_exceptions_from(e.suppressed@, 0));
        }
        j = j + 1;
    }
    proof {
        assert(out@ =~= base_suppressed + json_exceptions_from(e.suppressed@, 0));
    }
    let ghost done_suppressed = out@;
    append_lit(out, "]}");
    proof {
        assert(base_suppressed =~= done_frames + ("],\"suppressed\":[").spec_bytes());
        assert(out@ =~= done_suppressed + ("]}").spec_bytes());
        assert(out@ =~= start + json_exception_head(*e) + json_frames_from(e.stack_trace@, 0) + (
        "],\"suppressed\":[").spec_bytes() + json_exceptions_from(e.suppressed@, 0) + (
        "]}").spec_bytes());
        assert(final(out)@ =~= old(out)@ + json_of_exception(*e));
    }
}

/// The wire form of a failure record: its JSON bytes.
pub fn exception_to_json(e: &Exception) -> (r: Vec<u8>)
    ensures
        r@ == json_of_exception(*e),
{
    let mut out: Vec<u8> = Vec::new();
    append_exception(&mut out, e);
    proof {
        assert(out@ =~= json_of_exception(*e));
    }
    out
}

} // verus!
