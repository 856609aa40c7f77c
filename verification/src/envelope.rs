//! Wrapping a client's payloads in envelopes.

use vstd::prelude::*;
use crate::clock::now_us;
use crate::protocol::{Envelope, EnvelopeView, Payload};

verus! {

/// The protocol version that clients speak.
pub const PROTOCOL_VERSION: u16 = 1;

/// The envelope a client sends: the current protocol version, the given
/// sequence number, timestamp, origin and payload, and no session.
pub open spec fn client_envelope(seq: u64, origin: Seq<char>, payload: crate::protocol::PayloadView, timestamp_us: u64) -> EnvelopeView {
    EnvelopeView {
        protocol_version: PROTOCOL_VERSION,
        seq,
        timestamp_us,
        origin,
        session_id: None,
        payload,
    }
}

/// A client's envelope speaks protocol version 1, carries no session, and
/// keeps the sequence number, origin, payload and timestamp it was given.
pub proof fn lemma_client_envelope_fields(seq: u64, origin: Seq<char>, payload: crate::protocol::PayloadView, timestamp_us: u64)
    ensures
        ({
            let e = client_envelope(seq, origin, payload, timestamp_us);
            &&& e.protocol_version == 1
            &&& e.session_id is None
            &&& e.seq == seq && e.origin == origin && e.payload == payload && e.timestamp_us == timestamp_us
        }),
{
}

/// Wraps `payload` in an envelope stamped with `timestamp_us`.
pub fn make_envelope_at(seq: u64, origin: String, payload: Payload, timestamp_us: u64) -> (r: Envelope)
    ensures
        r@ == client_envelope(seq, origin@, payload@, timestamp_us),
{
    Envelope { protocol_version: PROTOCOL_VERSION, seq, timestamp_us, origin, session_id: None, payload }
}

/// Wraps `payload` in an envelope stamped with the current time.
pub fn make_envelope(seq: u64, origin: String, payload: Payload) -> (r: Envelope)
    ensures
        r@ == client_envelope(seq, origin@, payload@, r.timestamp_us),
{
    make_envelope_at(seq, origin, payload, now_us())
}

/// Numbers the payloads a client sends, from 1 upwards, and wraps them.
pub struct EnvelopeWriter {
    next_seq: u64,
    origin: String,
}

/// The abstract state of an `EnvelopeWriter`.
pub ghost struct EnvelopeWriterView {
    /// The sequence number of the next envelope.
    pub next_seq: u64,
    /// The sender's device id.
    pub origin: Seq<char>,
}

impl View for EnvelopeWriter {
    type V = EnvelopeWriterView;

    closed spec fn view(&self) -> EnvelopeWriterView {
        EnvelopeWriterView { next_seq: self.next_seq, origin: self.origin@ }
    }
}

impl EnvelopeWriter {
    /// A writer for device `origin` whose first envelope is number 1.
    pub fn new(origin: String) -> (r: Self)
        ensures
            r@ == (EnvelopeWriterView { next_seq: 1, origin: origin@ }),
    {
        EnvelopeWriter { next_seq: 1, origin }
    }

    /// The sequence number of the next envelope.
    pub fn next_seq(&self) -> (r: u64)
        ensures
            r == self@.next_seq,
    {
        self.next_seq
    }

    /// Wraps `payload` in the next envelope, stamped with `timestamp_us`.
    pub fn wrap_at(&mut self, payload: Payload, timestamp_us: u64) -> (r: Envelope)
        requires
            old(self)@.next_seq < u64::MAX,
        ensures
            r@ == client_envelope(old(self)@.next_seq, old(self)@.origin, payload@, timestamp_us),
            final(self)@ == (EnvelopeWriterView { next_seq: (old(self)@.next_seq + 1) as u64, ..old(self)@ }),
    {
        let envelope = make_envelope_at(self.next_seq, self.origin.clone(), payload, timestamp_us);
        self.next_seq = self.next_seq + 1;
        envelope
    }

    /// Wraps `payload` in the next envelope, stamped with the current time.
    pub fn wrap(&mut self, payload: Payload) -> (r: Envelope)
        requires
            old(self)@.next_seq < u64::MAX,
        ensures
            r@ == client_envelope(old(self)@.next_seq, old(self)@.origin, payload@, r.timestamp_us),
            final(self)@ == (EnvelopeWriterView { next_seq: (old(self)@.next_seq + 1) as u64, ..old(self)@ }),
    {
        self.wrap_at(payload, now_us())
    }
}

} // verus!
