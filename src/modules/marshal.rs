//! Moving text in and out of byte buffers that a plugin shares with the host.
use vstd::prelude::*;
use vstd::utf8::{decode_utf8, valid_utf8};

verus! {

/// The bytes of `mem` from `start` up to, not including, the first zero byte,
/// or up to the end of `mem` when no zero byte follows; empty when `start`
/// lies outside `mem`.
pub open spec fn c_string_at(mem: Seq<u8>, start: int) -> Seq<u8>
    decreases mem.len() - start,
{
    if start < 0 || start >= mem.len() || mem[start] == 0 {
        seq![]
    } else {
        seq![mem[start]] + c_string_at(mem, start + 1)
    }
}

/// What lossy UTF-8 decoding makes of a byte sequence (malformed parts become
/// U+FFFD).
pub uninterp spec fn utf8_lossy(bytes: Seq<u8>) -> Seq<char>;

/// Relies on `String::from_utf8_lossy`: its result depends on the bytes alone,
/// and for valid UTF-8 it is the decoded text.
#[verifier::external_body]
pub fn lossy_text(bytes: &[u8]) -> (r: String)
    ensures
        r@ == utf8_lossy(bytes@),
        valid_utf8(bytes@) ==> r@ == decode_utf8(bytes@),
{
    String::from_utf8_lossy(bytes).into_owned()
}

/// Copies the zero-terminated byte string that starts at `start` in `mem`.
pub fn read_c_string(mem: &[u8], start: usize) -> (r: Vec<u8>)
    ensures
        r@ == c_string_at(mem@, start as int),
{
    let mut buf: Vec<u8> = Vec::new();
    let mut cur: usize = start;
    while cur < mem.len() && mem[cur] != 0
        invariant
            start <= cur,
            buf@ + c_string_at(mem@, cur as int) == c_string_at(mem@, start as int),
        decreases mem.len() - cur,
    {
        let ghost before = buf@;
        buf.push(mem[cur]);
        assert(c_string_at(mem@, cur as int) == seq![mem@[cur as int]] + c_string_at(
            mem@,
            cur + 1,
        ));
        assert(buf@ + c_string_at(mem@, cur + 1) =~= before + c_string_at(mem@, cur as int));
        cur = cur + 1;
    }
    assert(c_string_at(mem@, cur as int) == Seq::<u8>::empty());
    assert(buf@ =~= buf@ + Seq::<u8>::empty());
    buf
}

} // verus!
