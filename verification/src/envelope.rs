//! The wire format of the relay protocol.
//!
//! Every protocol message begins with a small header, the envelope: one
//! discriminant byte (0 = `Message`, 1 = `Ping`, 2 = `Pong`), followed, for
//! `Message` only, by the payload length as an unsigned variable-length
//! integer (little-endian base 128: each byte carries seven value bits, low
//! bits first, and its high bit says whether another byte follows). The
//! payload itself is not part of the envelope: the caller streams exactly
//! `length` further bytes after the header.

use vstd::prelude::*;

verus! {

/// The header preceding each protocol message: a heartbeat probe, a
/// heartbeat acknowledgement, or the announcement of a payload of exactly
/// `length` bytes that follows the header verbatim on the stream.
#[derive(Debug, Clone, Copy, PartialEq, Eq, Structural)]
pub enum Envelope {
    Message { length: u64 },
    Ping,
    Pong,
}

/// Why a header could not be decoded: the discriminant byte is outside the
/// known set, the input ended before the header was complete, or the length
/// field does not fit in 64 bits.
#[derive(Debug, Clone, Copy, PartialEq, Eq, Structural)]
pub enum ProtocolError {
    UnknownDiscriminant(u8),
    Truncated,
    LengthOverflow,
}

/// The variable-length encoding of `n`: seven value bits per byte, low
/// bits first, high bit set on every byte but the last.
pub open spec fn varint_bytes(n: nat) -> Seq<u8>
    decreases n,
{
    if n < 0x80 {
        seq![n as u8]
    } else {
        seq![(n % 0x80 + 0x80) as u8] + varint_bytes(n / 0x80)
    }
}

/// Reads a variable-length integer from the front of `s`: the value and
/// the number of bytes it occupied, or `None` if `s` ends inside it.
pub open spec fn varint_value(s: Seq<u8>) -> Option<(nat, nat)>
    decreases s.len(),
{
    if s.len() == 0 {
        None
    } else if s[0] < 0x80 {
        Some((s[0] as nat, 1))
    } else {
        match varint_value(s.skip(1)) {
            Some(p) => Some((((s[0] - 0x80) as nat + p.0 * 0x80), (p.1 + 1) as nat)),
            None => None,
        }
    }
}

/// The header bytes of an envelope. The payload of a `Message` is never
/// included: only its length is.
pub open spec fn spec_encode(e: Envelope) -> Seq<u8> {
    match e {
        Envelope::Message { length } => seq![0u8] + varint_bytes(length as nat),
        Envelope::Ping => seq![1u8],
        Envelope::Pong => seq![2u8],
    }
}

/// Reads one envelope header from the front of `s`: the envelope and the
/// number of bytes the header occupied. A discriminant outside {0, 1, 2}
/// fails with `UnknownDiscriminant`; an input that ends inside the header
/// fails with `Truncated`; a length field above `u64::MAX` fails with
/// `LengthOverflow`.
pub open spec fn spec_decode(s: Seq<u8>) -> Result<(Envelope, int), ProtocolError> {
    if s.len() == 0 {
        Err(ProtocolError::Truncated)
    } else if s[0] == 0 {
        match varint_value(s.skip(1)) {
            Some(p) => if p.0 <= u64::MAX {
                Ok((Envelope::Message { length: p.0 as u64 }, 1 + p.1 as int))
            } else {
                Err(ProtocolError::LengthOverflow)
            },
            None => Err(ProtocolError::Truncated),
        }
    } else if s[0] == 1 {
        Ok((Envelope::Ping, 1))
    } else if s[0] == 2 {
        Ok((Envelope::Pong, 1))
    } else {
        Err(ProtocolError::UnknownDiscriminant(s[0]))
    }
}

/// A decoded variable-length integer occupies at least one byte and no
/// more than the whole input.
pub proof fn lemma_varint_value_bounds(s: Seq<u8>)
    ensures
        varint_value(s) matches Some(p) ==> 1 <= p.1 <= s.len(),
    decreases s.len(),
{
    if s.len() > 0 && s[0] >= 0x80 {
        lemma_varint_value_bounds(s.skip(1));
    }
}

/// A decoded envelope header occupies at least one byte and no more than
/// the whole input.
pub proof fn lemma_decode_bounds(s: Seq<u8>)
    ensures
        spec_decode(s) matches Ok(p) ==> 1 <= p.1 <= s.len(),
{
    if s.len() > 0 && s[0] == 0 {
        lemma_varint_value_bounds(s.skip(1));
    }
}

/// Decoding reads back exactly the value and the bytes that encoding
/// produced, whatever follows them in the input.
pub proof fn lemma_varint_round_trip(n: nat, rest: Seq<u8>)
    ensures
        varint_value(varint_bytes(n) + rest) == Some((n, varint_bytes(n).len())),
    decreases n,
{
    let s = varint_bytes(n) + rest;
    if n < 0x80 {
        assert(s[0] == n as u8);
    } else {
        let b = (n % 0x80 + 0x80) as u8;
        assert(s[0] == b);
        lemma_varint_round_trip(n / 0x80, rest);
        assert(s.skip(1) =~= varint_bytes(n / 0x80) + rest);
        assert((b - 0x80) as nat + (n / 0x80) * 0x80 == n) by {
            vstd::arithmetic::div_mod::lemma_fundamental_div_mod(n as int, 0x80);
        };
    }
}

/// Round trip: decoding the encoding of any envelope, with anything at all
/// appended after the header, yields that same envelope back and consumes
/// exactly the header.
pub proof fn lemma_envelope_round_trip(e: Envelope, rest: Seq<u8>)
    ensures
        spec_decode(spec_encode(e) + rest) == Ok::<_, ProtocolError>(
            (e, spec_encode(e).len() as int),
        ),
{
    let s = spec_encode(e) + rest;
    match e {
        Envelope::Message { length } => {
            assert(s[0] == 0);
            assert(s.skip(1) =~= varint_bytes(length as nat) + rest);
            lemma_varint_round_trip(length as nat, rest);
        },
        Envelope::Ping => {
            assert(s[0] == 1);
        },
        Envelope::Pong => {
            assert(s[0] == 2);
        },
    }
}

/// Appends the variable-length encoding of `x` to `out`.
pub fn push_varint(out: &mut Vec<u8>, x: u64)
    ensures
        final(out)@ == old(out)@ + varint_bytes(x as nat),
    decreases x,
{
    if x < 0x80 {
        out.push(x as u8);
        assert(final(out)@ =~= old(out)@ + varint_bytes(x as nat));
    } else {
        out.push((x % 0x80 + 0x80) as u8);
        push_varint(out, x / 0x80);
        assert(final(out)@ =~= old(out)@ + varint_bytes(x as nat));
    }
}

/// Produces the header bytes of `e`, and nothing else: the payload of a
/// `Message` is streamed separately by the caller.
pub fn encode(e: &Envelope) -> (r: Vec<u8>)
    ensures
        r@ == spec_encode(*e),
{
    let mut out: Vec<u8> = Vec::new();
    match e {
        Envelope::Message { length } => {
            out.push(0);
            push_varint(&mut out, *length);
            assert(out@ =~= spec_encode(*e));
        },
        Envelope::Ping => {
            out.push(1);
            assert(out@ =~= spec_encode(*e));
        },
        Envelope::Pong => {
            out.push(2);
            assert(out@ =~= spec_encode(*e));
        },
    }
    out
}

/// Reads a variable-length integer from `s` starting at `pos`, returning
/// the value and the position just past it.
fn read_varint(s: &[u8], pos: usize) -> (r: Result<(u64, usize), ProtocolError>)
    requires
        pos <= s@.len(),
    ensures
        match varint_value(s@.skip(pos as int)) {
            Some(p) => if p.0 <= u64::MAX {
                r matches Ok(q) && q.0 as nat == p.0 && q.1 as nat == pos + p.1
            } else {
                r == Err::<(u64, usize), _>(ProtocolError::LengthOverflow)
            },
            None => r == Err::<(u64, usize), _>(ProtocolError::Truncated),
        },
    decreases s@.len() - pos,
{
    let ghost tail = s@.skip(pos as int);
    if pos == s.len() {
        return Err(ProtocolError::Truncated);
    }
    let b = s[pos];
    assert(b == tail[0]);
    if b < 0x80 {
        Ok((b as u64, pos + 1))
    } else {
        assert(tail.skip(1) =~= s@.skip(pos as int + 1));
        match read_varint(s, pos + 1) {
            Ok((v, end)) => {
                let low = (b - 0x80) as u64;
                if v > (u64::MAX - low) / 0x80 {
                    proof {
                        let p = varint_value(tail.skip(1)).unwrap();
                        assert((b - 0x80) as nat + p.0 * 0x80 > u64::MAX) by (nonlinear_arith)
                            requires
                                p.0 == v as nat,
                                low as nat == (b - 0x80) as nat,
                                v > (u64::MAX - low) / 0x80;
                    }
                    Err(ProtocolError::LengthOverflow)
                } else {
                    proof {
                        assert(low as nat + (v as nat) * 0x80 <= u64::MAX) by (nonlinear_arith)
                            requires
                                v as nat <= (u64::MAX - low as nat) / 0x80,
                                (low as nat) < 0x80;
                    }
                    Ok((low + v * 0x80, end))
                }
            },
            Err(e) => {
                proof {
                    let rec = varint_value(tail.skip(1));
                    if rec is Some && rec.unwrap().0 > u64::MAX {
                        let big = rec.unwrap().0;
                        assert((b - 0x80) as nat + big * 0x80 > u64::MAX) by (nonlinear_arith)
                            requires
                                big > u64::MAX;
                    }
                }
                Err(e)
            },
        }
    }
}

/// Reads one envelope header from `s` starting at `pos`, returning the
/// envelope and the position just past the header. The payload of a
/// `Message` is left untouched on the stream.
pub fn decode(s: &[u8], pos: usize) -> (r: Result<(Envelope, usize), ProtocolError>)
    requires
        pos <= s@.len(),
    ensures
        match spec_decode(s@.skip(pos as int)) {
            Ok(p) => r matches Ok(q) && q.0 == p.0 && q.1 as int == pos + p.1,
            Err(e) => r == Err::<(Envelope, usize), _>(e),
        },
{
    let ghost tail = s@.skip(pos as int);
    proof {
        lemma_decode_bounds(tail);
        lemma_varint_value_bounds(tail.skip(1));
    }
    if pos == s.len() {
        return Err(ProtocolError::Truncated);
    }
    let b = s[pos];
    assert(b == tail[0]);
    if b == 0 {
        assert(tail.skip(1) =~= s@.skip(pos as int + 1));
        match read_varint(s, pos + 1) {
            Ok((length, end)) => Ok((Envelope::Message { length }, end)),
            Err(e) => Err(e),
        }
    } else if b == 1 {
        Ok((Envelope::Ping, pos + 1))
    } else if b == 2 {
        Ok((Envelope::Pong, pos + 1))
    } else {
        Err(ProtocolError::UnknownDiscriminant(b))
    }
}

} // verus!
