//! Source formatting, best effort.
//!
//! Formatting is done by the typstyle formatter behind a trusted
//! wrapper; its result on given text and settings has a name, since it
//! depends on them alone. A formatter failure is deliberately degraded
//! to an empty result rather than surfaced.

use vstd::prelude::*;
use vstd::utf8::decode_utf8;
use vstd::utf8::encode_utf8;
use vstd::utf8::valid_utf8;
use crate::buffer::ThickBytePtr;

verus! {

/// What the formatter produces for given text, line width and tab
/// size; `None` when it fails (for instance on text with syntax
/// errors).
pub uninterp spec fn formatted_of(content: Seq<char>, width: int, tab: int) -> Option<Seq<char>>;

/// Relies on typstyle-core: `Typstyle::format_text(..).render()` under
/// a configuration built only from the width and the tab size, so the
/// outcome is a function of the text and the two settings alone.
#[verifier::external_body]
fn typstyle_render(content: &str, column: usize, tab_width: usize) -> (r: Option<String>)
    ensures
        match r {
            Some(s) => formatted_of(content@, column as int, tab_width as int) == Some(s@),
            None => formatted_of(content@, column as int, tab_width as int) is None,
        },
{
    let cfg = typstyle_core::Config::new().with_width(column).with_tab_spaces(tab_width);
    typstyle_core::Typstyle::new(cfg).format_text(content).render().ok()
}

/// A requested setting as the formatter receives it: nonnegative.
pub open spec fn setting_model(x: i32) -> int {
    if x >= 0 {
        x as int
    } else {
        0
    }
}

/// Formats source text; on internal formatter failure the result is
/// the empty string, by design, not an error.
pub fn format(content: String, column: i32, tab_width: i32) -> (r: String)
    ensures
        match formatted_of(content@, setting_model(column), setting_model(tab_width)) {
            Some(s) => r@ == s,
            None => r@ == Seq::<char>::empty(),
        },
{
    let col = if column >= 0 {
        column as usize
    } else {
        0
    };
    let tab = if tab_width >= 0 {
        tab_width as usize
    } else {
        0
    };
    match typstyle_render(content.as_str(), col, tab) {
        Some(s) => s,
        None => String::new(),
    }
}

/// Formats the text carried by a buffer handle, yielding a new handle;
/// a payload that is not UTF-8, like a formatter failure, degrades to
/// an empty result.
pub fn format_source(content: ThickBytePtr, column: i32, tab_width: i32) -> (r: ThickBytePtr)
    ensures
        ({
            let bytes = content.0.items@;
            if valid_utf8(bytes) {
                match formatted_of(decode_utf8(bytes), setting_model(column), setting_model(
                    tab_width,
                )) {
                    Some(s) => r.0.items@ == encode_utf8(s),
                    None => r.0.items@ == encode_utf8(Seq::<char>::empty()),
                }
            } else {
                r.0.items@ == Seq::<u8>::empty()
            }
        }),
{
    match content.to_str() {
        Some(text) => ThickBytePtr::from_str(format(text, column, tab_width)),
        None => ThickBytePtr::null(),
    }
}

} // verus!
