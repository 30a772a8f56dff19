//! Title truncation.
//!
//! Titles are forwarded to the server inside protocol messages, so the
//! engine cuts them to a bounded number of bytes — always at a character
//! boundary, never splitting a multi-byte unit.

use vstd::prelude::*;
use vstd::string::StringSliceAdditionalSpecFns;
use vstd::utf8::{
    decode_utf8, encode_utf8, encode_utf8_decode_utf8, encode_utf8_valid_utf8, is_char_boundary,
    valid_utf8,
};

verus! {

/// Longest title, in bytes, that is kept: longer titles would blow up the
/// protocol messages.
pub const MAX_TITLE_BYTES: usize = 1024;

/// The largest character boundary in `bytes` that is not beyond `limit`.
pub open spec fn boundary_before(bytes: Seq<u8>, limit: int) -> int {
    choose|i: int|
        0 <= i <= limit && is_char_boundary(bytes, i) && forall|j: int|
            i < j <= limit ==> !is_char_boundary(bytes, j)
}

/// What a title becomes before it is displayed or forwarded: unchanged
/// when its encoding fits [`MAX_TITLE_BYTES`], otherwise cut at the
/// largest character boundary within that limit.
pub open spec fn truncated_title(s: Seq<char>) -> Seq<char> {
    let bytes = encode_utf8(s);
    if bytes.len() <= MAX_TITLE_BYTES {
        s
    } else {
        decode_utf8(bytes.subrange(0, boundary_before(bytes, MAX_TITLE_BYTES as int)))
    }
}

/// Cut a title to at most [`MAX_TITLE_BYTES`] bytes at a character
/// boundary.
pub fn truncate_title(title: &str) -> (r: String)
    ensures
        r@ == truncated_title(title@),
        encode_utf8(r@).len() <= MAX_TITLE_BYTES,
{
    let bytes = title.as_bytes();
    proof {
        broadcast use vstd::slice::axiom_spec_len;

        encode_utf8_valid_utf8(title@);
        assert(bytes@ == title.spec_bytes());
    }
    if bytes.len() <= MAX_TITLE_BYTES {
        return title.to_owned();
    }
    let mut new_len: usize = MAX_TITLE_BYTES;
    while !title.is_char_boundary(new_len)
        invariant
            0 <= new_len <= MAX_TITLE_BYTES,
            MAX_TITLE_BYTES < title.spec_bytes().len(),
            valid_utf8(title.spec_bytes()),
            forall|j: int|
                new_len < j <= MAX_TITLE_BYTES ==> !is_char_boundary(title.spec_bytes(), j),
        decreases new_len,
    {
        proof {
            assert(is_char_boundary(title.spec_bytes(), 0));
        }
        new_len = new_len - 1;
    }
    let (head, _tail) = title.split_at(new_len);
    let r = head.to_owned();
    proof {
        let bytes = title.spec_bytes();
        let limit = MAX_TITLE_BYTES as int;
        let cut = new_len as int;
        assert(head.spec_bytes() == bytes.subrange(0, cut));
        // The loop found the largest boundary within the limit, which is
        // exactly what `boundary_before` denotes.
        assert(0 <= cut <= limit && is_char_boundary(bytes, cut) && forall|j: int|
            cut < j <= limit ==> !is_char_boundary(bytes, j));
        let chosen = boundary_before(bytes, limit);
        assert(0 <= chosen <= limit && is_char_boundary(bytes, chosen) && forall|j: int|
            chosen < j <= limit ==> !is_char_boundary(bytes, j));
        assert(chosen == cut) by {
            if chosen < cut {
                assert(!is_char_boundary(bytes, cut));
            }
            if cut < chosen {
                assert(!is_char_boundary(bytes, chosen));
            }
        }
        // The head decodes to the truncated title: its bytes are the cut
        // prefix, and decoding inverts encoding.
        encode_utf8_decode_utf8(head@);
        assert(r@ == decode_utf8(bytes.subrange(0, chosen)));
        assert(encode_utf8(r@).len() <= MAX_TITLE_BYTES);
    }
    r
}

} // verus!
