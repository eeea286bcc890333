//! Text out of the fixed-size byte buffers of a record.
//!
//! A name in a record is a C string in a buffer of fixed size: the text ends at the first
//! zero byte, or at the end of the buffer where it holds none. The bytes need not be UTF-8.

use vstd::prelude::*;
use vstd::string::StrSliceExecFns;
use vstd::utf8::{
    decode_utf8, encode_utf8, encode_utf8_decode_utf8, encode_utf8_valid_utf8, is_ascii_chars,
    is_ascii_chars_encode_utf8, valid_utf8,
};

verus! {

/// `n` is the length of the C string in `bytes`: no byte before index `n` is zero, and `n`
/// is the index of a zero byte or the length of the buffer.
pub open spec fn is_cstr_len(bytes: Seq<u8>, n: int) -> bool {
    &&& 0 <= n <= bytes.len()
    &&& forall|i: int| 0 <= i < n ==> bytes[i] != 0
    &&& n < bytes.len() ==> bytes[n] == 0
}

/// The length of the C string in a buffer: the index of the first zero byte, or the length
/// of the buffer if it holds none.
pub open spec fn cstr_len(bytes: Seq<u8>) -> int {
    choose|n: int| is_cstr_len(bytes, n)
}

/// The bytes of the C string in a buffer: those before the first zero byte.
pub open spec fn cstr_bytes(bytes: Seq<u8>) -> Seq<u8> {
    bytes.subrange(0, cstr_len(bytes))
}

/// At most one length is the length of the C string in a buffer.
pub proof fn lemma_cstr_len_unique(bytes: Seq<u8>, n: int, m: int)
    requires
        is_cstr_len(bytes, n),
        is_cstr_len(bytes, m),
    ensures
        n == m,
{
    if n < m {
        assert(bytes[n] != 0);
    }
    if m < n {
        assert(bytes[m] != 0);
    }
}

/// Every buffer holds a C string, and [`cstr_len`] is its length.
pub proof fn lemma_cstr_len(bytes: Seq<u8>)
    ensures
        is_cstr_len(bytes, cstr_len(bytes)),
    decreases bytes.len(),
{
    if bytes.len() == 0 || bytes[0] == 0 {
        assert(is_cstr_len(bytes, 0));
    } else {
        let rest = bytes.drop_first();
        lemma_cstr_len(rest);
        let n = cstr_len(rest);
        assert forall|i: int| 0 <= i < n + 1 implies bytes[i] != 0 by {
            if i > 0 {
                assert(bytes[i] == rest[i - 1]);
            }
        }
        if n + 1 < bytes.len() {
            assert(bytes[n + 1] == rest[n]);
        }
        assert(is_cstr_len(bytes, n + 1));
    }
}

/// A buffer without a zero byte is a C string of the buffer's full length.
pub proof fn lemma_cstr_len_unterminated(bytes: Seq<u8>)
    requires
        forall|i: int| 0 <= i < bytes.len() ==> bytes[i] != 0,
    ensures
        cstr_len(bytes) == bytes.len(),
        cstr_bytes(bytes) == bytes,
{
    lemma_cstr_len(bytes);
    assert(is_cstr_len(bytes, bytes.len() as int));
    lemma_cstr_len_unique(bytes, cstr_len(bytes), bytes.len() as int);
    assert(cstr_bytes(bytes) =~= bytes);
}

/// A buffer whose first zero byte is at index `k` is a C string of the `k` bytes before it.
pub proof fn lemma_cstr_len_terminated(bytes: Seq<u8>, k: int)
    requires
        0 <= k < bytes.len(),
        bytes[k] == 0,
        forall|i: int| 0 <= i < k ==> bytes[i] != 0,
    ensures
        cstr_len(bytes) == k,
        cstr_bytes(bytes) == bytes.subrange(0, k),
{
    lemma_cstr_len(bytes);
    assert(is_cstr_len(bytes, k));
    lemma_cstr_len_unique(bytes, cstr_len(bytes), k);
}

/// Find the length of the C string in a buffer.
pub fn cstr_length(buf: &[u8]) -> (len: usize)
    ensures
        len == cstr_len(buf@),
        is_cstr_len(buf@, len as int),
{
    let mut i: usize = 0;
    while i < buf.len() && buf[i] != 0
        invariant
            i <= buf@.len(),
            forall|j: int| 0 <= j < i ==> buf@[j] != 0,
        decreases buf@.len() - i,
    {
        i += 1;
    }
    proof {
        lemma_cstr_len(buf@);
        lemma_cstr_len_unique(buf@, i as int, cstr_len(buf@));
    }
    i
}

/// The text that `String::from_utf8_lossy` makes of a run of bytes: what the bytes encode
/// where they are UTF-8, and else a text in which U+FFFD stands for what is not.
pub uninterp spec fn utf8_lossy(bytes: Seq<u8>) -> Seq<char>;

/// Calls `String::from_utf8_lossy` and takes the text as an owned `String`.
///
/// The contract names the text, which depends on the bytes alone. Of bytes that are valid
/// UTF-8 it says what the documentation of the function does: the text is the one that the
/// bytes encode, unchanged.
#[verifier::external_body]
fn string_from_utf8_lossy(bytes: &[u8]) -> (text: String)
    ensures
        text@ == utf8_lossy(bytes@),
        valid_utf8(bytes@) ==> text@ == decode_utf8(bytes@),
{
    String::from_utf8_lossy(bytes).into_owned()
}

/// The text that is made of a run of bytes without ever failing: the text that the bytes
/// encode where they are valid UTF-8, and else the lossy reading of them.
pub open spec fn lossy_text(bytes: Seq<u8>) -> Seq<char> {
    if valid_utf8(bytes) {
        decode_utf8(bytes)
    } else {
        utf8_lossy(bytes)
    }
}

/// The text of the C string in a buffer: that of the bytes before the first zero byte, or
/// of the whole buffer if it holds none.
pub open spec fn cstr_text(buf: Seq<u8>) -> Seq<char> {
    lossy_text(cstr_bytes(buf))
}

/// Convert a C string of a maximum size (which might not be NUL-terminated if the size is
/// reached) into a `String`.
///
/// The text is made of the bytes before the first zero byte, or of the whole buffer if it
/// holds none. Bytes that are not UTF-8 are replaced, never refused.
pub fn cstr_to_string(buf: &[u8]) -> (text: String)
    ensures
        text@ == cstr_text(buf@),
{
    let len = cstr_length(buf);
    string_from_utf8_lossy(vstd::slice::slice_subrange(buf, 0, len))
}

/// The characters whose codes are the given bytes.
pub open spec fn chars_of_bytes(bytes: Seq<u8>) -> Seq<char> {
    Seq::new(bytes.len(), |i: int| bytes[i] as char)
}

/// Bytes below 128 are valid UTF-8 and encode one character each, the one whose code is
/// the byte. So a C string of such bytes decodes to a text of as many characters as it has
/// bytes.
pub proof fn lemma_ascii_bytes_decode(bytes: Seq<u8>)
    requires
        forall|i: int| 0 <= i < bytes.len() ==> bytes[i] < 128,
    ensures
        valid_utf8(bytes),
        decode_utf8(bytes) == chars_of_bytes(bytes),
        decode_utf8(bytes).len() == bytes.len(),
{
    let chars = chars_of_bytes(bytes);
    assert(is_ascii_chars(chars));
    is_ascii_chars_encode_utf8(chars);
    assert(encode_utf8(chars) =~= bytes);
    encode_utf8_valid_utf8(chars);
    encode_utf8_decode_utf8(chars);
}

/// A buffer of bytes below 128 without a zero byte gives a text of the buffer's full
/// length, with one character for each byte.
pub proof fn lemma_cstr_text_unterminated(buf: Seq<u8>)
    requires
        forall|i: int| 0 <= i < buf.len() ==> 0 < (#[trigger] buf[i]) && buf[i] < 128,
    ensures
        cstr_text(buf) == chars_of_bytes(buf),
        cstr_text(buf).len() == buf.len(),
{
    lemma_cstr_len_unterminated(buf);
    lemma_ascii_bytes_decode(buf);
}

/// A buffer whose first zero byte is at index `k`, with bytes below 128 before it, gives
/// the text of exactly the first `k` bytes, with one character for each of them. What
/// follows the zero byte does not count.
pub proof fn lemma_cstr_text_terminated(buf: Seq<u8>, k: int)
    requires
        0 <= k < buf.len(),
        buf[k] == 0,
        forall|i: int| 0 <= i < k ==> 0 < (#[trigger] buf[i]) && buf[i] < 128,
    ensures
        cstr_text(buf) == chars_of_bytes(buf.subrange(0, k)),
        cstr_text(buf).len() == k,
{
    lemma_cstr_len_terminated(buf, k);
    lemma_ascii_bytes_decode(buf.subrange(0, k));
}

/// Whatever the bytes are, the text of a buffer is the text of its bytes before the first
/// zero byte: of the `k` bytes before a zero byte at index `k` that is the first, and of
/// all of them where there is none.
pub proof fn lemma_cstr_text_prefix(buf: Seq<u8>, k: int)
    requires
        is_cstr_len(buf, k),
    ensures
        cstr_text(buf) == lossy_text(buf.subrange(0, k)),
{
    lemma_cstr_len(buf);
    lemma_cstr_len_unique(buf, cstr_len(buf), k);
}

/// Every character is one of the ASCII digits `0` to `9`, and there is at least one.
pub open spec fn is_ascii_digits(text: Seq<char>) -> bool {
    &&& text.len() > 0
    &&& forall|i: int| 0 <= i < text.len() ==> '0' <= #[trigger] text[i] <= '9'
}

/// Indicates whether a string is composed entirely of ASCII digits. The empty string is
/// not.
pub fn str_is_ascii_digits(s: &str) -> (digits: bool)
    ensures
        digits == is_ascii_digits(s@),
{
    if s.is_empty() {
        return false;
    }
    if !s.is_ascii() {
        proof {
            let i = choose|i: int| 0 <= i < s@.len() && !('\0' <= #[trigger] s@[i] <= '\u{7f}');
            assert(!('0' <= s@[i] <= '9'));
        }
        return false;
    }
    let n = s.unicode_len();
    let mut i: usize = 0;
    while i < n
        invariant
            i <= n,
            n == s@.len(),
            s.is_ascii(),
            forall|j: int| 0 <= j < i ==> '0' <= #[trigger] s@[j] <= '9',
        decreases n - i,
    {
        let b = s.get_ascii(i);
        if b < 0x30 || b > 0x39 {
            assert(!('0' <= s@[i as int] <= '9'));
            return false;
        }
        i += 1;
    }
    true
}

} // verus!
