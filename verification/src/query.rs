//! Decision logic of the query entry point.
//!
//! The engine work — compiling the document and evaluating the selector
//! — happens outside; this module fixes what the entry point decides:
//! which output format a tag denotes, and the exact message reported
//! when the selector source fails to evaluate.

use vstd::prelude::*;
use vstd::string::StringExecFns;

verus! {

/// The formats a query result can be serialized into.
#[derive(Debug, Clone, Copy, PartialEq, Eq, Structural)]
pub enum OutputFormat {
    Json,
    JsonCompact,
    Yaml,
}

/// The format a boundary tag denotes, if any.
pub open spec fn format_of(tag: i32) -> Option<OutputFormat> {
    if tag == 0 {
        Some(OutputFormat::Json)
    } else if tag == 1 {
        Some(OutputFormat::JsonCompact)
    } else if tag == 2 {
        Some(OutputFormat::Yaml)
    } else {
        None
    }
}

/// Reads a boundary format tag; exactly the three known tags are
/// accepted.
pub fn output_format(tag: i32) -> (r: Option<OutputFormat>)
    ensures
        r == format_of(tag),
{
    if tag == 0 {
        Some(OutputFormat::Json)
    } else if tag == 1 {
        Some(OutputFormat::JsonCompact)
    } else if tag == 2 {
        Some(OutputFormat::Yaml)
    } else {
        None
    }
}

/// The tail of the selector failure message from position `i` on: each
/// evaluation error's message, the first introduced by a colon and the
/// rest by commas.
pub open spec fn selector_suffix(errors: Seq<Seq<char>>, i: int) -> Seq<char>
    decreases errors.len() - i,
{
    if i < 0 || i >= errors.len() {
        Seq::empty()
    } else {
        (if i == 0 {
            ": "@
        } else {
            ", "@
        }) + errors[i] + selector_suffix(errors, i + 1)
    }
}

/// The message reported when selector source fails to evaluate: a fixed
/// prefix followed by every underlying evaluation error.
pub open spec fn selector_message_model(errors: Seq<Seq<char>>) -> Seq<char> {
    "failed to evaluate selector"@ + selector_suffix(errors, 0)
}

/// Builds the selector failure message from the evaluation errors'
/// messages, preserving their order.
#[verifier::loop_isolation(false)]
pub fn selector_error_message(errors: &Vec<String>) -> (r: String)
    ensures
        r@ == selector_message_model(errors@.map_values(|e: String| e@)),
{
    let ghost es = errors@.map_values(|e: String| e@);
    let mut message = "failed to evaluate selector".to_owned();
    let mut i: usize = 0;
    while i < errors.len()
        invariant
            i <= errors@.len(),
            es == errors@.map_values(|e: String| e@),
            es.len() == errors@.len(),
            message@ + selector_suffix(es, i as int) == selector_message_model(es),
        decreases errors@.len() - i,
    {
        proof {
            assert(es[i as int] == errors@[i as int]@);
        }
        if i == 0 {
            message.append(": ");
        } else {
            message.append(", ");
        }
        message.append(errors[i].as_str());
        i = i + 1;
    }
    message
}

} // verus!
