//! Bounding IPC message bodies received from web content.
use vstd::prelude::*;
use vstd::utf8::*;

verus! {

/// The largest character boundary of `bytes` that is at most `limit`
/// (0 is always a boundary).
pub open spec fn last_boundary_at_most(bytes: Seq<u8>, limit: int) -> int
    decreases limit,
{
    if limit <= 0 || is_char_boundary(bytes, limit) {
        if limit <= 0 { 0 } else { limit }
    } else {
        last_boundary_at_most(bytes, limit - 1)
    }
}

/// Truncates an IPC message body to at most `limit` UTF-8 bytes without
/// splitting a character, and reports whether anything was cut off.
pub fn truncate_ipc_body(body: &str, limit: usize) -> (r: (String, bool))
    ensures
        encode_utf8(body@).len() <= limit ==> r.0@ == body@ && !r.1,
        encode_utf8(body@).len() > limit ==> r.1 && encode_utf8(r.0@) == encode_utf8(body@).take(
            last_boundary_at_most(encode_utf8(body@), limit as int),
        ),
{
    let ghost bytes = encode_utf8(body@);
    proof {
        encode_utf8_valid_utf8(body@);
    }
    let raw = body.as_bytes();
    if raw.len() <= limit {
        return (body.to_owned(), false);
    }
    let mut boundary: usize = limit;
    while boundary > 0 && !body.is_char_boundary(boundary)
        invariant
            bytes == encode_utf8(body@),
            valid_utf8(bytes),
            boundary <= limit,
            limit < bytes.len(),
            raw@ == bytes,
            last_boundary_at_most(bytes, boundary as int) == last_boundary_at_most(
                bytes,
                limit as int,
            ),
        decreases boundary,
    {
        boundary = boundary - 1;
    }
    assert(last_boundary_at_most(bytes, boundary as int) == boundary as int);
    let (head, _tail) = body.split_at(boundary);
    let result = head.to_owned();
    proof {
        encode_utf8_decode_utf8(head@);
        valid_utf8_split(bytes, boundary as int);
        decode_utf8_encode_utf8(bytes.take(boundary as int));
        assert(bytes.subrange(0, boundary as int) == bytes.take(boundary as int));
    }
    (result, true)
}

} // verus!
