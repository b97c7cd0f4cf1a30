//! Ticketed result envelopes.
//!
//! A result crossing the boundary travels as a serialized payload plus a
//! ticket naming a host-owned resource to release once the payload has
//! been read. A negative ticket means "no resource". Unpacking consumes
//! the ticket, so a replayed unpack never releases the same resource
//! twice. The release callback itself lives on the host side; this
//! module decides when it must be invoked and with which ticket.

use vstd::prelude::*;
use crate::buffer::CVec;
use crate::buffer::ThickBytePtr;
use crate::exception::Exception;

verus! {

/// The sentinel ticket meaning "no resource to release".
pub const NO_TICKET: i64 = -1;

/// The one-time registration cell for the host's release callback.
/// The callback function itself is host state; the registry tracks only
/// the configure-once discipline.
pub struct ReleaseRegistry {
    pub registered: bool,
}

impl ReleaseRegistry {
    /// A registry with no callback configured yet.
    pub fn new() -> (r: ReleaseRegistry)
        ensures
            !r.registered,
    {
        ReleaseRegistry { registered: false }
    }

    /// Registers the release callback. Succeeds (returns 1) only the
    /// first time; a reattempt fails (returns 0) without side effect on
    /// the existing registration.
    pub fn set_freer(&mut self) -> (r: i32)
        ensures
            r == if old(self).registered { 0int } else { 1int },
            final(self).registered,
    {
        if self.registered {
            0
        } else {
            self.registered = true;
            1
        }
    }
}

/// An envelope's model: its ticket and its payload bytes.
pub open spec fn envelope_model(jr: JavaResult) -> (int, Seq<u8>) {
    (jr.ticket as int, jr.value.0.items@)
}

/// What unpacking does to an envelope model: the ticket is consumed and
/// the payload moves out; a release is owed exactly for a valid ticket.
pub open spec fn unpack_step(m: (int, Seq<u8>)) -> ((int, Seq<u8>), Option<int>) {
    ((NO_TICKET as int, Seq::<u8>::empty()), if m.0 >= 0 {
        Some(m.0)
    } else {
        None
    })
}

/// A valid ticket is released exactly once: the first unpack yields it,
/// and an unpack of the already-consumed envelope yields no release,
/// whatever the original ticket was.
pub proof fn lemma_ticket_released_once(m: (int, Seq<u8>))
    ensures
        m.0 >= 0 ==> unpack_step(m).1 == Some(m.0),
        m.0 < 0 ==> unpack_step(m).1 is None,
        unpack_step(unpack_step(m).0).1 is None,
{
}

/// A serialized result plus the ticket of the host resource backing it.
pub struct JavaResult {
    pub ticket: i64,
    pub value: ThickBytePtr,
}

impl JavaResult {
    /// Packs an already-serialized payload with no resource attached.
    pub fn pack(value: String) -> (r: JavaResult)
        ensures
            r.ticket == NO_TICKET,
            r.value.0.items@ == vstd::utf8::encode_utf8(value@),
    {
        JavaResult { ticket: NO_TICKET, value: ThickBytePtr::from_str(value) }
    }

    /// Unpacks the envelope: moves the payload out as text and consumes
    /// the ticket. The second component is the ticket whose release the
    /// caller now owes to the host, if any; the callback must already be
    /// registered when a release is owed.
    pub fn unpack(&mut self, registry: &ReleaseRegistry) -> (r: (Option<String>, Option<i64>))
        requires
            old(self).ticket >= 0 ==> registry.registered,
        ensures
            ({
                let (m, act) = unpack_step(envelope_model(*old(self)));
                &&& envelope_model(*final(self)) == m
                &&& match r.1 {
                    Some(t) => act == Some(t as int),
                    None => act is None,
                }
            }),
            r.0 is Some <==> vstd::utf8::valid_utf8(old(self).value.0.items@),
            r.0 matches Some(s) ==> s@ == vstd::utf8::decode_utf8(old(self).value.0.items@),
    {
        let release = if self.ticket >= 0 {
            Some(self.ticket)
        } else {
            None
        };
        self.ticket = NO_TICKET;
        let mut handle = ThickBytePtr(CVec { items: Vec::new() });
        core::mem::swap(&mut handle, &mut self.value);
        let payload = handle.to_str();
        (payload, release)
    }
}

/// A pointer-bearing construction result: the built value on success,
/// or a serialized failure record as the comment.
pub struct JavaExceptPtrResult<T> {
    pub comment: ThickBytePtr,
    pub ptr: Option<Box<T>>,
}

impl<T> JavaExceptPtrResult<T> {
    /// Packs a construction result: a success carries its value with an
    /// empty comment; a failure carries its record, serialized to JSON
    /// bytes, and no value.
    pub fn pack(value: Result<Box<T>, Exception>) -> (r: JavaExceptPtrResult<T>)
        ensures
            match value {
                Ok(v) => r.ptr == Some(v) && r.comment.0.items@ == Seq::<u8>::empty(),
                Err(e) => r.ptr is None && r.comment.0.items@
                    == crate::exception::json_of_exception(e),
            },
    {
        match value {
            Ok(v) => JavaExceptPtrResult { comment: ThickBytePtr::null(), ptr: Some(v) },
            Err(e) => {
                let payload = crate::exception::exception_to_json(&e);
                JavaExceptPtrResult { comment: ThickBytePtr(CVec::wrap(payload)), ptr: None }
            },
        }
    }
}

} // verus!
