//! The line-ending policy applied to outbound text before it is queued.

use crate::text::same_text;
use vstd::prelude::*;
use vstd::string::StrSliceExecFns;
use vstd::utf8::encode_utf8;

verus! {

/// The bytes that a line-ending mode appends: `lf` gives a line feed,
/// `cr` a carriage return, `crlf` both, and every other mode nothing.
pub open spec fn line_ending(mode: Seq<char>) -> Seq<u8> {
    if mode == "lf"@ {
        seq![10u8]
    } else if mode == "cr"@ {
        seq![13u8]
    } else if mode == "crlf"@ {
        seq![13u8, 10u8]
    } else {
        Seq::<u8>::empty()
    }
}

/// The buffer to send for `payload` under `mode`: the UTF-8 bytes of the
/// text followed by the mode's line ending.
pub open spec fn framed(payload: Seq<char>, mode: Seq<char>) -> Seq<u8> {
    encode_utf8(payload) + line_ending(mode)
}

/// Turns outbound text into the byte buffer to queue, appending the line
/// ending that `append` names.
pub fn apply_append_mode(payload: String, append: &str) -> (out: Vec<u8>)
    ensures
        out@ == framed(payload@, append@),
{
    let mut out = payload.as_str().as_bytes_vec();
    if same_text(append, "lf") {
        out.push(10);
    } else if same_text(append, "cr") {
        out.push(13);
    } else if same_text(append, "crlf") {
        out.push(13);
        out.push(10);
    }
    assert(out@ =~= framed(payload@, append@));
    out
}

/// The characters that a line-ending mode appends.
pub open spec fn ending_text(mode: Seq<char>) -> Seq<char> {
    if mode == "lf"@ {
        seq!['\n']
    } else if mode == "cr"@ {
        seq!['\r']
    } else if mode == "crlf"@ {
        seq!['\r', '\n']
    } else {
        Seq::<char>::empty()
    }
}

/// The encoding of two texts in a row is the encoding of the first
/// followed by that of the second.
pub proof fn lemma_encode_concat(a: Seq<char>, b: Seq<char>)
    ensures
        encode_utf8(a + b) == encode_utf8(a) + encode_utf8(b),
    decreases a.len(),
{
    if a.len() == 0 {
        assert(a + b =~= b);
        assert(encode_utf8(a) + encode_utf8(b) =~= encode_utf8(b));
    } else {
        assert((a + b)[0] == a[0]);
        assert((a + b).drop_first() =~= a.drop_first() + b);
        lemma_encode_concat(a.drop_first(), b);
        let head = vstd::utf8::encode_scalar(a[0] as u32);
        assert(head + (encode_utf8(a.drop_first()) + encode_utf8(b)) =~= (head + encode_utf8(
            a.drop_first(),
        )) + encode_utf8(b));
    }
}

/// A framed payload is text: it is valid UTF-8, and it decodes to the
/// payload followed by the characters of its line ending.
pub proof fn lemma_framed_is_text(payload: Seq<char>, mode: Seq<char>)
    ensures
        framed(payload, mode) == encode_utf8(payload + ending_text(mode)),
        vstd::utf8::valid_utf8(framed(payload, mode)),
        vstd::utf8::decode_utf8(framed(payload, mode)) == payload + ending_text(mode),
{
    let ending = ending_text(mode);
    assert(vstd::utf8::is_ascii_chars(ending));
    vstd::utf8::is_ascii_chars_encode_utf8(ending);
    assert(encode_utf8(ending) =~= line_ending(mode));
    lemma_encode_concat(payload, ending);
    vstd::utf8::encode_utf8_valid_utf8(payload + ending);
    vstd::utf8::encode_utf8_decode_utf8(payload + ending);
}

} // verus!
