//! Parsed source text with byte-position resolution.
//!
//! The engine reports positions as byte offsets into a file's text;
//! presentation needs lines and columns. A `ParsedSource` keeps the
//! text together with its UTF-8 bytes, and resolves a byte offset to
//! the number of line breaks before it and the number of characters
//! since the start of its line.

use vstd::prelude::*;
use vstd::utf8::encode_utf8;
use crate::cache::CacheValue;

verus! {

/// The number of newline bytes strictly before position `p`.
pub open spec fn newlines_before(b: Seq<u8>, p: int) -> int
    recommends
        0 <= p <= b.len(),
    decreases p,
{
    if p <= 0 {
        0
    } else {
        newlines_before(b, p - 1) + if b[p - 1] == 10 {
            1int
        } else {
            0int
        }
    }
}

/// The start of the line containing position `p`: the nearest position
/// at or before `p` that follows a newline, or the start of the text.
pub open spec fn line_start_before(b: Seq<u8>, p: int) -> int
    recommends
        0 <= p <= b.len(),
    decreases p,
{
    if p <= 0 {
        0
    } else if b[p - 1] == 10 {
        p
    } else {
        line_start_before(b, p - 1)
    }
}

/// Whether a byte continues a multi-byte UTF-8 character.
pub open spec fn is_continuation(byte: u8) -> bool {
    128 <= byte && byte < 192
}

/// The number of characters encoded in `b[lo..hi]`: one per byte that
/// does not continue a character.
pub open spec fn char_count(b: Seq<u8>, lo: int, hi: int) -> int
    recommends
        0 <= lo <= hi <= b.len(),
    decreases hi - lo,
{
    if hi <= lo {
        0
    } else {
        char_count(b, lo, hi - 1) + if is_continuation(b[hi - 1]) {
            0int
        } else {
            1int
        }
    }
}

/// Whether position `p` falls on a character boundary.
pub open spec fn is_boundary(b: Seq<u8>, p: int) -> bool {
    p == b.len() || !is_continuation(b[p])
}

/// A source file's text, kept with its UTF-8 bytes for position
/// resolution. Its model is the character sequence of the text.
#[derive(Debug)]
pub struct ParsedSource {
    text: String,
    bytes: Vec<u8>,
}

impl View for ParsedSource {
    type V = Seq<char>;

    closed spec fn view(&self) -> Seq<char> {
        self.text@
    }
}

impl ParsedSource {
    #[verifier::type_invariant]
    spec fn inv(self) -> bool {
        self.bytes@ == encode_utf8(self.text@)
    }

    /// Builds a source from its text.
    pub fn new(text: String) -> (r: ParsedSource)
        ensures
            r@ == text@,
    {
        let bytes = text.as_str().as_bytes_vec();
        ParsedSource { text, bytes }
    }

    /// Replaces the text wholesale, reusing the allocation pattern of
    /// an incremental update.
    pub fn replace(&mut self, text: String)
        ensures
            final(self)@ == text@,
    {
        let bytes = text.as_str().as_bytes_vec();
        *self = ParsedSource { text, bytes };
    }

    /// The text itself.
    pub fn text(&self) -> (r: &String)
        ensures
            r@ == self@,
    {
        &self.text
    }

    /// The length of the text in UTF-8 bytes.
    pub fn len_bytes(&self) -> (r: usize)
        ensures
            r == encode_utf8(self@).len(),
    {
        proof {
            use_type_invariant(&*self);
        }
        self.bytes.len()
    }

    /// The zero-based line of byte position `p`: the number of line
    /// breaks before it. Yields `None` exactly when `p` lies past the
    /// end of the text.
    pub fn byte_to_line(&self, p: usize) -> (r: Option<usize>)
        ensures
            r is Some <==> p <= encode_utf8(self@).len(),
            r matches Some(l) ==> l == newlines_before(encode_utf8(self@), p as int),
    {
        proof {
            use_type_invariant(&*self);
        }
        if p > self.bytes.len() {
            return None;
        }
        let mut cnt: usize = 0;
        let mut i: usize = 0;
        while i < p
            invariant
                self.bytes@ == encode_utf8(self@),
                i <= p <= self.bytes@.len(),
                cnt == newlines_before(self.bytes@, i as int),
                cnt <= i,
            decreases p - i,
        {
            if self.bytes[i] == 10 {
                cnt = cnt + 1;
            }
            i = i + 1;
        }
        Some(cnt)
    }

    /// The zero-based column of byte position `p`: the number of
    /// characters between the start of its line and `p`. Yields `None`
    /// exactly when `p` lies past the end of the text or inside a
    /// multi-byte character.
    pub fn byte_to_column(&self, p: usize) -> (r: Option<usize>)
        ensures
            r is Some <==> p <= encode_utf8(self@).len() && is_boundary(
                encode_utf8(self@),
                p as int,
            ),
            r matches Some(c) ==> c == char_count(
                encode_utf8(self@),
                line_start_before(encode_utf8(self@), p as int),
                p as int,
            ),
    {
        proof {
            use_type_invariant(&*self);
        }
        if p > self.bytes.len() {
            return None;
        }
        if p < self.bytes.len() {
            let byte = self.bytes[p];
            if 128 <= byte && byte < 192 {
                return None;
            }
        }
        let mut start: usize = 0;
        let mut i: usize = 0;
        while i < p
            invariant
                self.bytes@ == encode_utf8(self@),
                i <= p <= self.bytes@.len(),
                start == line_start_before(self.bytes@, i as int),
                start <= i,
            decreases p - i,
        {
            if self.bytes[i] == 10 {
                start = i + 1;
            }
            i = i + 1;
        }
        let mut cnt: usize = 0;
        let mut j: usize = start;
        while j < p
            invariant
                self.bytes@ == encode_utf8(self@),
                start <= j <= p <= self.bytes@.len(),
                cnt == char_count(self.bytes@, start as int, j as int),
                cnt <= j - start,
            decreases p - j,
        {
            let byte = self.bytes[j];
            if !(128 <= byte && byte < 192) {
                cnt = cnt + 1;
            }
            j = j + 1;
        }
        Some(cnt)
    }
}

impl CacheValue for ParsedSource {
    fn dup(&self) -> (r: Self)
        ensures
            r@ == self@,
    {
        proof {
            use_type_invariant(&*self);
        }
        ParsedSource { text: self.text.clone(), bytes: self.bytes.dup() }
    }
}

} // verus!
