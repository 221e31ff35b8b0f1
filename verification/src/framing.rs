//! The serial wire format: a frame is a start byte, the escaped body and an
//! end byte. A body byte that equals the start, end or escape byte travels as
//! the escape byte followed by the byte itself.

use vstd::prelude::*;

verus! {

/// Opens a frame.
pub const FRAME_START: u8 = 0x02;

/// Closes a frame.
pub const FRAME_END: u8 = 0x03;

/// Announces that the next byte is a literal body byte.
pub const FRAME_ESCAPE: u8 = 0x1F;

/// The bytes that may not appear bare inside a frame.
pub open spec fn is_special(byte: u8) -> bool {
    byte == FRAME_START || byte == FRAME_END || byte == FRAME_ESCAPE
}

/// The wire form of one body byte.
pub open spec fn escape_byte(byte: u8) -> Seq<u8> {
    if is_special(byte) {
        seq![FRAME_ESCAPE, byte]
    } else {
        seq![byte]
    }
}

/// The wire form of a body: each byte's wire form, in order.
pub open spec fn escape(body: Seq<u8>) -> Seq<u8>
    decreases body.len(),
{
    if body.len() == 0 {
        Seq::empty()
    } else {
        escape(body.drop_last()) + escape_byte(body.last())
    }
}

/// The wire form of a whole frame.
pub open spec fn frame(body: Seq<u8>) -> Seq<u8> {
    seq![FRAME_START] + escape(body) + seq![FRAME_END]
}

/// The body that an escaped byte string stands for, if it is well formed: an
/// escape byte must be followed by a special byte, and no special byte may
/// stand bare.
pub open spec fn unescape(wire: Seq<u8>) -> Option<Seq<u8>>
    decreases wire.len(),
{
    if wire.len() == 0 {
        Some(Seq::empty())
    } else if wire[0] == FRAME_ESCAPE {
        if wire.len() >= 2 && is_special(wire[1]) {
            prepend(seq![wire[1]], unescape(wire.skip(2)))
        } else {
            None
        }
    } else if is_special(wire[0]) {
        None
    } else {
        prepend(seq![wire[0]], unescape(wire.skip(1)))
    }
}

/// `head` put in front of a decoded tail, where there is one.
pub open spec fn prepend(head: Seq<u8>, tail: Option<Seq<u8>>) -> Option<Seq<u8>> {
    match tail {
        Some(t) => Some(head + t),
        None => None,
    }
}

/// The body of a frame, if `wire` is exactly one well-formed frame.
pub open spec fn decode(wire: Seq<u8>) -> Option<Seq<u8>> {
    if wire.len() >= 2 && wire[0] == FRAME_START && wire.last() == FRAME_END {
        unescape(wire.subrange(1, wire.len() - 1))
    } else {
        None
    }
}

/// Escaping works byte by byte, so it distributes over concatenation.
pub proof fn lemma_escape_concat(a: Seq<u8>, b: Seq<u8>)
    ensures
        escape(a + b) == escape(a) + escape(b),
    decreases b.len(),
{
    if b.len() == 0 {
        assert(a + b =~= a);
        assert(escape(a) + escape(b) =~= escape(a));
    } else {
        lemma_escape_concat(a, b.drop_last());
        assert((a + b).drop_last() =~= a + b.drop_last());
        assert((a + b).last() == b.last());
        assert(escape(a + b) =~= escape(a) + escape(b));
    }
}

/// A single byte escapes to its own wire form.
pub proof fn lemma_escape_single(byte: u8)
    ensures
        escape(seq![byte]) == escape_byte(byte),
{
    let s = seq![byte];
    assert(s.drop_last() =~= Seq::<u8>::empty());
    assert(escape(s.drop_last()) =~= Seq::<u8>::empty());
    assert(escape(s) =~= escape_byte(byte));
}

/// Decoding what one escaped byte and a well-formed tail spell gives the byte
/// and then the tail's body.
proof fn lemma_unescape_step(byte: u8, tail: Seq<u8>)
    ensures
        unescape(escape_byte(byte) + tail) == prepend(seq![byte], unescape(tail)),
{
    let wire = escape_byte(byte) + tail;
    if is_special(byte) {
        assert(wire[0] == FRAME_ESCAPE);
        assert(wire[1] == byte);
        assert(wire.skip(2) =~= tail);
    } else {
        assert(wire[0] == byte);
        assert(wire.skip(1) =~= tail);
    }
}

/// Round trip: the escaped form of any body decodes to that body.
pub proof fn lemma_unescape_escape(body: Seq<u8>)
    ensures
        unescape(escape(body)) == Some(body),
    decreases body.len(),
{
    if body.len() == 0 {
    } else {
        let head = body[0];
        let rest = body.skip(1);
        assert(body =~= seq![head] + rest);
        lemma_escape_concat(seq![head], rest);
        lemma_escape_single(head);
        lemma_unescape_step(head, escape(rest));
        lemma_unescape_escape(rest);
        assert(seq![head] + rest =~= body);
    }
}

/// Round trip for whole frames: a frame decodes to its body, whatever bytes
/// the body holds.
pub proof fn lemma_decode_frame(body: Seq<u8>)
    ensures
        decode(frame(body)) == Some(body),
{
    let wire = frame(body);
    lemma_unescape_escape(body);
    assert(wire.subrange(1, wire.len() - 1) =~= escape(body));
}

/// Only the escaped form of a body decodes to it: no two byte strings stand
/// for the same body.
pub proof fn lemma_unescape_canonical(wire: Seq<u8>, body: Seq<u8>)
    requires
        unescape(wire) == Some(body),
    ensures
        wire == escape(body),
    decreases wire.len(),
{
    if wire.len() == 0 {
        assert(body =~= Seq::<u8>::empty());
    } else {
        let width: int = if wire[0] == FRAME_ESCAPE {
            2
        } else {
            1
        };
        let byte = wire[width - 1];
        let tail = unescape(wire.skip(width))->0;
        assert(body =~= seq![byte] + tail);
        lemma_unescape_canonical(wire.skip(width), tail);
        lemma_escape_concat(seq![byte], tail);
        lemma_escape_single(byte);
        assert(wire =~= escape_byte(byte) + wire.skip(width));
    }
}

/// Only the frame of a body decodes to it.
pub proof fn lemma_decode_canonical(wire: Seq<u8>, body: Seq<u8>)
    requires
        decode(wire) == Some(body),
    ensures
        wire == frame(body),
{
    lemma_unescape_canonical(wire.subrange(1, wire.len() - 1), body);
    assert(wire =~= seq![FRAME_START] + wire.subrange(1, wire.len() - 1) + seq![FRAME_END]);
}

/// A body without special bytes travels unchanged: nothing is inserted.
pub proof fn lemma_escape_plain(body: Seq<u8>)
    requires
        forall|i: int| 0 <= i < body.len() ==> !is_special(#[trigger] body[i]),
    ensures
        escape(body) == body,
        frame(body) == seq![FRAME_START] + body + seq![FRAME_END],
    decreases body.len(),
{
    if body.len() > 0 {
        lemma_escape_plain(body.drop_last());
        assert(escape(body) =~= body);
    }
}

/// Decodes one frame. Gives the body when `wire` is a start byte, a
/// well-formed escaped body and an end byte, and `None` otherwise.
pub fn decode_frame(wire: &[u8]) -> (body: Option<Vec<u8>>)
    ensures
        body is Some <==> decode(wire@) is Some,
        body matches Some(b) ==> decode(wire@) == Some(b@),
{
    let n = wire.len();
    if n < 2 || wire[0] != FRAME_START || wire[n - 1] != FRAME_END {
        return None;
    }
    let ghost inner = wire@.subrange(1, n - 1);
    let mut out: Vec<u8> = Vec::new();
    let mut i: usize = 1;
    proof {
        assert(inner.skip(0) =~= inner);
        assert(out@ + unescape(inner)->0 =~= unescape(inner)->0);
    }
    while i < n - 1
        invariant
            1 <= i <= n - 1,
            n == wire@.len(),
            inner == wire@.subrange(1, n - 1),
            unescape(inner) == prepend(out@, unescape(inner.skip(i - 1))),
        decreases n - i,
    {
        let ghost rest = inner.skip(i - 1);
        let byte = wire[i];
        assert(rest[0] == byte);
        if byte == FRAME_ESCAPE {
            if i + 1 < n - 1 && (wire[i + 1] == FRAME_START || wire[i + 1] == FRAME_END || wire[i
                + 1] == FRAME_ESCAPE) {
                let literal = wire[i + 1];
                assert(rest[1] == literal);
                proof {
                    assert(rest.skip(2) =~= inner.skip(i + 1));
                    lemma_prepend_assoc(out@, seq![literal], unescape(rest.skip(2)));
                }
                out.push(literal);
                i += 2;
            } else {
                return None;
            }
        } else if byte == FRAME_START || byte == FRAME_END {
            return None;
        } else {
            proof {
                assert(rest.skip(1) =~= inner.skip(i as int));
                lemma_prepend_assoc(out@, seq![byte], unescape(rest.skip(1)));
            }
            out.push(byte);
            i += 1;
        }
    }
    proof {
        assert(inner.skip(i - 1).len() == 0);
        assert(out@ + Seq::<u8>::empty() =~= out@);
    }
    Some(out)
}

/// Putting `a` and then `b` in front is putting `a + b` in front.
proof fn lemma_prepend_assoc(a: Seq<u8>, b: Seq<u8>, tail: Option<Seq<u8>>)
    requires
        b.len() == 1,
    ensures
        prepend(a, prepend(b, tail)) == prepend(a.push(b[0]), tail),
{
    match tail {
        Some(t) => {
            assert(a + (b + t) =~= a.push(b[0]) + t);
        },
        None => {},
    }
}

} // verus!
