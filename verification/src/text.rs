//! Text held in fixed-capacity, zero-terminated native buffers.
//!
//! A buffer's text is the bytes before its first zero byte; a buffer
//! without a zero byte is text throughout. Nothing after the terminator
//! has any influence on a result.

use crate::error::{Error, ErrorKind, GP_ERROR_CORRUPTED_DATA};
use vstd::prelude::*;
use vstd::slice::{slice_subrange, slice_to_vec};
use vstd::utf8::{decode_utf8, decode_utf8_encode_utf8, encode_utf8, valid_utf8};

verus! {

/// The number of bytes before the first zero byte of `buf`, or its length
/// where it holds none.
pub open spec fn used_len(buf: Seq<u8>) -> nat
    decreases buf.len(),
{
    if buf.len() == 0 || buf[0] == 0 {
        0
    } else {
        1 + used_len(buf.drop_first())
    }
}

/// The text of `buf`: its bytes up to the terminator, which is left out.
pub open spec fn used_text(buf: Seq<u8>) -> Seq<u8> {
    buf.subrange(0, used_len(buf) as int)
}

/// `n` marks the end of the text of `buf`: no zero byte lies before it, and
/// it is the place of a zero byte or the end of the buffer.
pub open spec fn ends_text(buf: Seq<u8>, n: int) -> bool {
    &&& 0 <= n <= buf.len()
    &&& forall|i: int| 0 <= i < n ==> buf[i] != 0
    &&& n < buf.len() ==> buf[n] == 0
}

/// The used length is the one place that ends the text.
pub proof fn used_len_ends_text(buf: Seq<u8>, n: int)
    ensures
        ends_text(buf, used_len(buf) as int),
        ends_text(buf, n) ==> n == used_len(buf),
    decreases buf.len(),
{
    if buf.len() == 0 || buf[0] == 0 {
    } else {
        let rest = buf.drop_first();
        used_len_ends_text(rest, n - 1);
        let m = used_len(rest) as int;
        assert forall|i: int| 0 <= i < m + 1 implies buf[i] != 0 by {
            if i > 0 {
                assert(buf[i] == rest[i - 1]);
            }
        }
        if m + 1 < buf.len() {
            assert(buf[m + 1] == rest[m]);
        }
        if ends_text(buf, n) {
            assert(n >= 1);
            assert forall|i: int| 0 <= i < n - 1 implies rest[i] != 0 by {
                assert(rest[i] == buf[i + 1]);
            }
            if n - 1 < rest.len() {
                assert(rest[n - 1] == buf[n]);
            }
            assert(ends_text(rest, n - 1));
        }
    }
}

/// The result of reading `buf` as text: its characters where the used
/// bytes are valid UTF-8, `CorruptedData` where they are not.
pub open spec fn text_of(buf: Seq<u8>) -> Result<Seq<char>, Error> {
    if valid_utf8(used_text(buf)) {
        Ok(decode_utf8(used_text(buf)))
    } else {
        Err(Error { kind: ErrorKind::CorruptedData, code: GP_ERROR_CORRUPTED_DATA })
    }
}

/// A text result with the string taken by its characters.
pub open spec fn text_view(r: Result<String, Error>) -> Result<Seq<char>, Error> {
    match r {
        Ok(s) => Ok(s@),
        Err(e) => Err(e),
    }
}

/// The characters that lossy decoding makes of `bytes`: invalid sequences
/// give way to U+FFFD. On valid UTF-8 this is plain decoding, as the
/// contract of `string_from_utf8_lossy` says.
pub uninterp spec fn utf8_lossy(bytes: Seq<u8>) -> Seq<char>;

/// Text that decodes has as many bytes as the buffer uses: encoding the
/// characters gives the used bytes back.
pub proof fn text_has_used_length(buf: Seq<u8>)
    requires
        text_of(buf) is Ok,
    ensures
        encode_utf8(text_of(buf)->Ok_0) == used_text(buf),
        encode_utf8(text_of(buf)->Ok_0).len() == used_len(buf),
{
    used_len_ends_text(buf, 0);
    decode_utf8_encode_utf8(used_text(buf));
}

/// Bytes after the terminator are never read: two buffers of one capacity
/// that agree up to and including the first terminator of one of them
/// hold the same text, decode to the same result and lose the same
/// characters.
pub proof fn text_ignores_tail(a: Seq<u8>, b: Seq<u8>)
    requires
        a.len() == b.len(),
        forall|i: int| 0 <= i <= used_len(a) && i < a.len() ==> a[i] == b[i],
    ensures
        used_len(a) == used_len(b),
        used_text(a) == used_text(b),
        text_of(a) == text_of(b),
        utf8_lossy(used_text(a)) == utf8_lossy(used_text(b)),
{
    let n = used_len(a) as int;
    used_len_ends_text(a, n);
    assert(ends_text(b, n)) by {
        assert forall|i: int| 0 <= i < n implies b[i] != 0 by {
            assert(a[i] == b[i]);
        }
    }
    used_len_ends_text(b, n);
    assert(used_text(a) =~= used_text(b));
}

/// Counts the bytes of `buf` before its terminator.
pub fn text_len(buf: &[u8]) -> (n: usize)
    ensures
        n == used_len(buf@),
        n <= buf@.len(),
{
    let mut i: usize = 0;
    while i < buf.len() && buf[i] != 0
        invariant
            i <= buf@.len(),
            forall|j: int| 0 <= j < i ==> buf@[j] != 0,
        decreases buf@.len() - i,
    {
        i += 1;
    }
    proof {
        used_len_ends_text(buf@, i as int);
    }
    i
}

/// `String::from_utf8`: the bytes become a string exactly when they are
/// valid UTF-8, and the string then holds the characters they encode.
#[verifier::external_body]
fn string_from_utf8(bytes: Vec<u8>) -> (r: Option<String>)
    ensures
        r is Some <==> valid_utf8(bytes@),
        r matches Some(s) ==> s@ == decode_utf8(bytes@),
{
    match String::from_utf8(bytes) {
        Ok(s) => Some(s),
        Err(_) => None,
    }
}

/// `String::from_utf8_lossy`: the result is a function of the bytes alone,
/// and on valid UTF-8 it is the characters they encode.
#[verifier::external_body]
fn string_from_utf8_lossy(bytes: &[u8]) -> (s: String)
    ensures
        s@ == utf8_lossy(bytes@),
        valid_utf8(bytes@) ==> s@ == decode_utf8(bytes@),
{
    String::from_utf8_lossy(bytes).into_owned()
}

/// Takes over a native text buffer and turns it into a string.
///
/// The buffer is cut at its terminator and its storage becomes the
/// string's where the used bytes are valid UTF-8. Where they are not, the
/// result is `CorruptedData`. Either way the buffer is consumed.
pub fn camera_text_to_string(camera_text: Vec<u8>) -> (r: Result<String, Error>)
    ensures
        text_view(r) == text_of(camera_text@),
        r is Ok <==> valid_utf8(used_text(camera_text@)),
        r matches Ok(s) ==> encode_utf8(s@) == used_text(camera_text@) && encode_utf8(s@).len()
            == used_len(camera_text@),
{
    let mut bytes = camera_text;
    let n = text_len(bytes.as_slice());
    bytes.truncate(n);
    proof {
        if valid_utf8(bytes@) {
            decode_utf8_encode_utf8(bytes@);
        }
    }
    match string_from_utf8(bytes) {
        Some(s) => Ok(s),
        None => Err(Error::corrupted_data()),
    }
}

/// Reads the text of `buf` leniently: invalid UTF-8 is replaced, never
/// rejected.
pub fn text_to_string_lossy(buf: &[u8]) -> (s: String)
    ensures
        s@ == utf8_lossy(used_text(buf@)),
        valid_utf8(used_text(buf@)) ==> s@ == decode_utf8(used_text(buf@)),
{
    let n = text_len(buf);
    string_from_utf8_lossy(slice_subrange(buf, 0, n))
}

/// Copies the text of `buf` into a string the native layer can read: the
/// used bytes followed by one terminator, whatever `buf` held after them
/// and whether or not it was terminated.
pub fn terminated_text(buf: &[u8]) -> (out: Vec<u8>)
    ensures
        out@ == used_text(buf@).push(0u8),
        used_len(out@) == out@.len() - 1,
        out@.len() == used_len(buf@) + 1,
        out@.len() <= buf@.len() + 1,
{
    let n = text_len(buf);
    let mut out = slice_to_vec(slice_subrange(buf, 0, n));
    out.push(0u8);
    proof {
        used_len_ends_text(buf@, n as int);
        assert(ends_text(out@, n as int));
        used_len_ends_text(out@, n as int);
    }
    out
}

} // verus!
