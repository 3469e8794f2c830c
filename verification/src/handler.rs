//! The per-connection dispatch loop, as a state machine over bytes.
//!
//! A connection is a byte stream of envelope headers, each `Message` header
//! followed immediately by its payload. The handler walks the stream in
//! arrival order: a `Ping` is answered with exactly one `Pong` header on
//! the reply stream, a `Pong` is observed and dropped, and the payload of a
//! `Message` is copied verbatim to the output sink. The walk ends cleanly
//! when the stream ends at a header boundary; a header that cannot be
//! decoded, or a stream that ends inside a declared payload, ends it with a
//! fatal per-connection error, and nothing after the fault is forwarded.

use vstd::prelude::*;

use crate::envelope::{decode, encode, lemma_decode_bounds, spec_decode, spec_encode, Envelope};

verus! {

/// What one whole connection produced: the bytes forwarded to the sink,
/// the reply bytes written back, how many `Ping`s were answered, and
/// whether the stream ended cleanly at an envelope boundary.
pub struct RunModel {
    pub sink: Seq<u8>,
    pub replies: Seq<u8>,
    pub pings: nat,
    pub clean: bool,
}

/// The outcome of handling the whole stream `s`, envelope by envelope.
/// On the first undecodable header or short payload the walk stops with
/// `clean == false`, forwarding nothing from the faulty message on.
pub open spec fn run_model(s: Seq<u8>) -> RunModel
    decreases s.len(),
    via run_model_decreases
{
    if s.len() == 0 {
        RunModel { sink: Seq::empty(), replies: Seq::empty(), pings: 0, clean: true }
    } else {
        match spec_decode(s) {
            Err(_) => RunModel { sink: Seq::empty(), replies: Seq::empty(), pings: 0, clean: false },
            Ok((env, n)) => match env {
                Envelope::Ping => {
                    let rest = run_model(s.skip(n));
                    RunModel {
                        sink: rest.sink,
                        replies: spec_encode(Envelope::Pong) + rest.replies,
                        pings: rest.pings + 1,
                        clean: rest.clean,
                    }
                },
                Envelope::Pong => run_model(s.skip(n)),
                Envelope::Message { length } => {
                    if n + length <= s.len() {
                        let rest = run_model(s.skip(n + length));
                        RunModel {
                            sink: s.subrange(n, n + length) + rest.sink,
                            replies: rest.replies,
                            pings: rest.pings,
                            clean: rest.clean,
                        }
                    } else {
                        RunModel {
                            sink: Seq::empty(),
                            replies: Seq::empty(),
                            pings: 0,
                            clean: false,
                        }
                    }
                },
            },
        }
    }
}

#[via_fn]
proof fn run_model_decreases(s: Seq<u8>) {
    lemma_decode_bounds(s);
}

/// Every reply byte the handler ever writes is a `Pong` header, and there
/// is exactly one per `Ping` received: no payload rides on a heartbeat in
/// either direction.
pub proof fn lemma_replies_are_pongs(s: Seq<u8>)
    ensures
        run_model(s).replies.len() == run_model(s).pings,
        forall|i: int|
            0 <= i < run_model(s).replies.len() ==> run_model(s).replies[i] == spec_encode(
                Envelope::Pong,
            )[0],
    decreases s.len(),
{
    lemma_decode_bounds(s);
    if s.len() != 0 {
        match spec_decode(s) {
            Err(_) => {},
            Ok((env, n)) => match env {
                Envelope::Ping => {
                    lemma_replies_are_pongs(s.skip(n));
                },
                Envelope::Pong => {
                    lemma_replies_are_pongs(s.skip(n));
                },
                Envelope::Message { length } => {
                    if n + length <= s.len() {
                        lemma_replies_are_pongs(s.skip(n + length));
                    }
                },
            },
        }
    }
}

/// A `Ping` at the front of the stream is answered by exactly one `Pong`
/// header, placed before whatever replies the rest of the stream earns.
pub proof fn lemma_ping_gets_pong(rest: Seq<u8>)
    ensures
        run_model(spec_encode(Envelope::Ping) + rest).replies == spec_encode(Envelope::Pong)
            + run_model(rest).replies,
        run_model(spec_encode(Envelope::Ping) + rest).sink == run_model(rest).sink,
        run_model(spec_encode(Envelope::Ping) + rest).pings == run_model(rest).pings + 1,
{
    let s = spec_encode(Envelope::Ping) + rest;
    crate::envelope::lemma_envelope_round_trip(Envelope::Ping, rest);
    assert(s.skip(1) =~= rest);
}

/// Framing exactness, the complete side: a `Message` header that declares
/// `length` bytes, followed by exactly that payload, forwards the payload
/// verbatim and returns to the envelope boundary cleanly.
pub proof fn lemma_message_framing(length: u64, payload: Seq<u8>)
    requires
        payload.len() == length,
    ensures
        run_model(spec_encode(Envelope::Message { length }) + payload).sink == payload,
        run_model(spec_encode(Envelope::Message { length }) + payload).clean,
        run_model(spec_encode(Envelope::Message { length }) + payload).replies
            == Seq::<u8>::empty(),
{
    let e = Envelope::Message { length };
    let s = spec_encode(e) + payload;
    let n = spec_encode(e).len() as int;
    crate::envelope::lemma_envelope_round_trip(e, payload);
    assert(spec_decode(s) == Ok::<_, crate::envelope::ProtocolError>((e, n)));
    assert(s.len() == n + length);
    assert(s.subrange(n, n + length) =~= payload);
    assert(s.skip(n + length) =~= Seq::<u8>::empty());
    assert(run_model(s.skip(n + length)).clean);
    assert(run_model(s.skip(n + length)).sink == Seq::<u8>::empty());
    assert(run_model(s).sink =~= payload);
}

/// Framing exactness, the short side: if the stream closes before the
/// declared `length` bytes have arrived, nothing of the partial payload is
/// forwarded and the connection ends with a fatal error.
pub proof fn lemma_message_short_read(length: u64, partial: Seq<u8>)
    requires
        partial.len() < length,
    ensures
        run_model(spec_encode(Envelope::Message { length }) + partial).sink == Seq::<u8>::empty(),
        !run_model(spec_encode(Envelope::Message { length }) + partial).clean,
{
    let e = Envelope::Message { length };
    crate::envelope::lemma_envelope_round_trip(e, partial);
}

/// An undecodable header stops the connection with no side effects at all:
/// nothing is forwarded and nothing is written back.
pub proof fn lemma_bad_header_no_effects(s: Seq<u8>)
    requires
        s.len() > 0,
        spec_decode(s) is Err,
    ensures
        run_model(s).sink == Seq::<u8>::empty(),
        run_model(s).replies == Seq::<u8>::empty(),
        !run_model(s).clean,
{
}

/// What the handler does with one decoded envelope: write these reply
/// bytes back on the connection, observe silently, or forward exactly
/// this many payload bytes from the stream to the sink.
#[derive(Debug)]
pub enum Dispatch {
    Reply(Vec<u8>),
    Observe,
    Forward(u64),
}

/// The dispatch decision for one decoded envelope: a `Ping` is answered
/// with exactly one `Pong` header and nothing else, a `Pong` is observed
/// with no reply, and a `Message` asks for exactly its declared number of
/// payload bytes to be forwarded. This is the whole per-event rule of the
/// connection state machine; a driver performs the returned action and
/// decodes the next header.
pub fn dispatch_envelope(e: &Envelope) -> (r: Dispatch)
    ensures
        match *e {
            Envelope::Ping => r matches Dispatch::Reply(b) && b@ == spec_encode(Envelope::Pong),
            Envelope::Pong => r is Observe,
            Envelope::Message { length } => r == Dispatch::Forward(length),
        },
{
    match e {
        Envelope::Ping => Dispatch::Reply(encode(&Envelope::Pong)),
        Envelope::Pong => Dispatch::Observe,
        Envelope::Message { length } => Dispatch::Forward(*length),
    }
}

/// What one whole connection produced, executably: the forwarded sink
/// bytes, the reply bytes, and whether the stream ended cleanly.
pub struct ConnectionReport {
    pub sink: Vec<u8>,
    pub replies: Vec<u8>,
    pub clean: bool,
}

/// Handles the tail of `input` from `pos` on, appending forwarded payload
/// bytes to `sink` and reply headers to `replies`.
fn run_from(input: &[u8], pos: usize, sink: &mut Vec<u8>, replies: &mut Vec<u8>) -> (clean: bool)
    requires
        pos <= input@.len(),
    ensures
        final(sink)@ == old(sink)@ + run_model(input@.skip(pos as int)).sink,
        final(replies)@ == old(replies)@ + run_model(input@.skip(pos as int)).replies,
        clean == run_model(input@.skip(pos as int)).clean,
    decreases input@.len() - pos,
{
    let ghost tail = input@.skip(pos as int);
    if pos == input.len() {
        assert(final(sink)@ =~= old(sink)@ + run_model(tail).sink);
        assert(final(replies)@ =~= old(replies)@ + run_model(tail).replies);
        return true;
    }
    proof {
        lemma_decode_bounds(tail);
    }
    match decode(input, pos) {
        Err(_) => {
            assert(final(sink)@ =~= old(sink)@ + run_model(tail).sink);
            assert(final(replies)@ =~= old(replies)@ + run_model(tail).replies);
            false
        },
        Ok((env, next)) => {
            let ghost n = next - pos;
            match dispatch_envelope(&env) {
                Dispatch::Reply(mut reply) => {
                    assert(env is Ping);
                    replies.append(&mut reply);
                    assert(tail.skip(n) =~= input@.skip(next as int));
                    run_from(input, next, sink, replies)
                },
                Dispatch::Observe => {
                    assert(env is Pong);
                    assert(tail.skip(n) =~= input@.skip(next as int));
                    run_from(input, next, sink, replies)
                },
                Dispatch::Forward(length) => {
                    assert(env == (Envelope::Message { length }));
                    let remaining = (input.len() - next) as u64;
                    if length > remaining {
                        assert(n + length > tail.len());
                        assert(final(sink)@ =~= old(sink)@ + run_model(tail).sink);
                        assert(final(replies)@ =~= old(replies)@ + run_model(tail).replies);
                        false
                    } else {
                        let len = length as usize;
                        let payload = vstd::slice::slice_subrange(input, next, next + len);
                        sink.extend_from_slice(payload);
                        assert(sink@ =~= old(sink)@ + tail.subrange(n, n + length));
                        assert(tail.skip(n + length) =~= input@.skip(next as int + len as int));
                        run_from(input, next + len, sink, replies)
                    }
                },
            }
        },
    }
}

/// Handles one whole connection whose incoming bytes are `input`: decodes
/// envelopes in arrival order, answers each `Ping` with one `Pong` header,
/// observes `Pong`s, and copies each `Message` payload verbatim to the
/// sink. Stops forwarding at the first undecodable header or short
/// payload; `clean` reports whether the stream ended at a boundary.
pub fn run_connection(input: &[u8]) -> (r: ConnectionReport)
    ensures
        r.sink@ == run_model(input@).sink,
        r.replies@ == run_model(input@).replies,
        r.clean == run_model(input@).clean,
{
    let mut sink: Vec<u8> = Vec::new();
    let mut replies: Vec<u8> = Vec::new();
    let clean = run_from(input, 0, &mut sink, &mut replies);
    assert(input@.skip(0) =~= input@);
    ConnectionReport { sink, replies, clean }
}

} // verus!
