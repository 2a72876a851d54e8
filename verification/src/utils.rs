//! The text bridge: conversions between text and the byte buffers that cross
//! the boundary to the engine.
//!
//! A buffer that the engine owns or reads is a sequence of bytes that holds a
//! string up to its first zero byte. A pointer that may be null is an `Option`
//! of such a buffer.

use vstd::prelude::*;
use vstd::slice::*;
use vstd::string::*;
use vstd::utf8::*;

verus! {

/// Whether `n` is the length of the string that `buf` starts with: no byte
/// before `n` is zero, and `buf` ends at `n` or holds a zero byte there.
pub open spec fn is_c_str_len(buf: Seq<u8>, n: int) -> bool {
    &&& 0 <= n <= buf.len()
    &&& forall|i: int| 0 <= i < n ==> buf[i] != 0
    &&& n < buf.len() ==> buf[n] == 0
}

/// The length of the string that `buf` starts with.
pub open spec fn c_str_len(buf: Seq<u8>) -> int {
    choose|n: int| is_c_str_len(buf, n)
}

/// The bytes of the string that `buf` starts with: those before its first zero
/// byte, or all of them where it holds none.
pub open spec fn c_str_bytes(buf: Seq<u8>) -> Seq<u8> {
    buf.subrange(0, c_str_len(buf))
}

/// The text that `bytes` encode in UTF-8; the empty text where they encode none.
pub open spec fn text_of(bytes: Seq<u8>) -> Seq<char> {
    if valid_utf8(bytes) {
        decode_utf8(bytes)
    } else {
        Seq::empty()
    }
}

/// The text read through a pointer: empty for a null pointer, else the text of
/// the string that the buffer starts with.
pub open spec fn c_text(ptr: Option<Seq<u8>>) -> Seq<char> {
    match ptr {
        None => Seq::empty(),
        Some(buf) => text_of(c_str_bytes(buf)),
    }
}

/// The buffer that carries `text` to the engine: its UTF-8 bytes and one
/// closing zero byte.
pub open spec fn c_buffer(text: Seq<char>) -> Seq<u8> {
    encode_utf8(text).push(0u8)
}

/// The part of `text` before its first zero character; all of it where it
/// holds none.
pub open spec fn text_before_zero(text: Seq<char>) -> Seq<char>
    decreases text.len(),
{
    if text.len() == 0 || text[0] == '\0' {
        Seq::empty()
    } else {
        seq![text[0]] + text_before_zero(text.drop_first())
    }
}

/// What a borrowed buffer holds, for a pointer that may be null.
pub open spec fn slice_bytes(ptr: Option<&[u8]>) -> Option<Seq<u8>> {
    match ptr {
        None => None,
        Some(buf) => Some(buf@),
    }
}

/// What an owned buffer holds, for a pointer that may be null.
pub open spec fn vec_bytes(ptr: Option<Vec<u8>>) -> Option<Seq<u8>> {
    match ptr {
        None => None,
        Some(buf) => Some(buf@),
    }
}

/// A buffer starts with exactly one string: two lengths that both fit are equal.
pub proof fn lemma_c_str_len_unique(buf: Seq<u8>, n: int)
    requires
        is_c_str_len(buf, n),
    ensures
        c_str_len(buf) == n,
{
    let m = c_str_len(buf);
    assert(is_c_str_len(buf, m));
    if m < n {
        assert(buf[m] != 0);
    }
    if n < m {
        assert(buf[n] != 0);
    }
}

/// No byte of the encoding of a scalar other than zero is zero.
proof fn lemma_scalar_has_no_zero(scalar: u32)
    by (bit_vector)
    requires
        scalar != 0,
    ensures
        (scalar & 0x7F) as u8 != 0 || scalar > 0x7F,
        0xC0 | ((scalar >> 6) & 0x1F) as u8 != 0,
        0xE0 | ((scalar >> 12) & 0x0F) as u8 != 0,
        0xF0 | ((scalar >> 18) & 0x7) as u8 != 0,
        0x80 | (scalar & 0x3F) as u8 != 0,
        0x80 | ((scalar >> 6) & 0x3F) as u8 != 0,
        0x80 | ((scalar >> 12) & 0x3F) as u8 != 0,
{
}

/// No byte of the encoding of a text is zero, unless a character of it is.
proof fn lemma_encoding_has_no_zero(text: Seq<char>)
    requires
        forall|i: int| 0 <= i < text.len() ==> text[i] != '\0',
    ensures
        forall|j: int| 0 <= j < encode_utf8(text).len() ==> encode_utf8(text)[j] != 0,
    decreases text.len(),
{
    if text.len() > 0 {
        let head = encode_scalar(text[0] as u32);
        let rest = text.drop_first();
        assert(text[0] != '\0');
        if text[0] as u32 == 0 {
            char_u32_cast(text[0], 0u32);
            char_u32_cast('\0', 0u32);
        }
        lemma_scalar_has_no_zero(text[0] as u32);
        assert forall|i: int| 0 <= i < rest.len() implies rest[i] != '\0' by {
            assert(rest[i] == text[i + 1]);
        }
        lemma_encoding_has_no_zero(rest);
        assert forall|j: int| 0 <= j < encode_utf8(text).len() implies encode_utf8(text)[j]
            != 0 by {
            if j < head.len() {
                assert(encode_utf8(text)[j] == head[j]);
            } else {
                assert(encode_utf8(text)[j] == encode_utf8(rest)[j - head.len()]);
            }
        }
    }
}

/// The encoding of a text starts with the encoding of the part before its
/// first zero character, and goes on with a zero byte unless the text ends
/// there.
proof fn lemma_encoding_to_first_zero(text: Seq<char>)
    ensures
        forall|i: int|
            0 <= i < text_before_zero(text).len() ==> text_before_zero(text)[i] != '\0',
        encode_utf8(text_before_zero(text)).len() <= encode_utf8(text).len(),
        encode_utf8(text).subrange(0, encode_utf8(text_before_zero(text)).len() as int)
            == encode_utf8(text_before_zero(text)),
        encode_utf8(text_before_zero(text)).len() < encode_utf8(text).len() ==> encode_utf8(
            text,
        )[encode_utf8(text_before_zero(text)).len() as int] == 0,
    decreases text.len(),
{
    let before = text_before_zero(text);
    if text.len() == 0 {
        assert(encode_utf8(text).subrange(0, 0) =~= encode_utf8(before));
    } else if text[0] == '\0' {
        assert(encode_scalar('\0' as u32) =~= seq![0u8]) by {
            assert(0u32 & 0x7F == 0) by (bit_vector);
        }
        assert(encode_utf8(text)[0] == 0);
        assert(encode_utf8(text).subrange(0, 0) =~= encode_utf8(before));
    } else {
        let head = encode_scalar(text[0] as u32);
        let rest = text.drop_first();
        let rest_before = text_before_zero(rest);
        lemma_encoding_to_first_zero(rest);
        assert(before.drop_first() =~= rest_before);
        assert(encode_utf8(before) == head + encode_utf8(rest_before));
        assert(encode_utf8(text) == head + encode_utf8(rest));
        assert(encode_utf8(text).subrange(0, encode_utf8(before).len() as int) =~= head
            + encode_utf8(rest).subrange(0, encode_utf8(rest_before).len() as int));
        assert forall|i: int| 0 <= i < before.len() implies before[i] != '\0' by {
            if i > 0 {
                assert(before[i] == rest_before[i - 1]);
            }
        }
        if encode_utf8(before).len() < encode_utf8(text).len() {
            assert(encode_utf8(text)[encode_utf8(before).len() as int] == encode_utf8(
                rest,
            )[encode_utf8(rest_before).len() as int]);
        }
    }
}

/// Reading gives back what was written, as far as a string can hold it. What
/// `ptr_to_string` reads from the buffer that `str_to_heap_ptr` makes of a
/// text is the text before its first zero character: the whole text where it
/// holds none.
pub proof fn lemma_buffer_holds_text(text: Seq<char>)
    ensures
        c_str_bytes(c_buffer(text)) == encode_utf8(text_before_zero(text)),
        c_text(Some(c_buffer(text))) == text_before_zero(text),
        (forall|i: int| 0 <= i < text.len() ==> text[i] != '\0') ==> text_before_zero(text)
            == text,
{
    broadcast use encode_utf8_valid_utf8, encode_utf8_decode_utf8;

    let before = text_before_zero(text);
    lemma_encoding_to_first_zero(text);
    lemma_encoding_has_no_zero(before);
    let n = encode_utf8(before).len() as int;
    assert forall|i: int| 0 <= i < n implies c_buffer(text)[i] != 0 by {
        assert(c_buffer(text)[i] == encode_utf8(text).subrange(0, n)[i]);
    }
    lemma_c_str_len_unique(c_buffer(text), n);
    assert(c_str_bytes(c_buffer(text)) =~= encode_utf8(text).subrange(0, n));
    assert(decode_utf8(encode_utf8(before)) == before);
    if forall|i: int| 0 <= i < text.len() ==> text[i] != '\0' {
        lemma_whole_before_zero(text);
    }
}

/// A text without a zero character is the part before its first one.
proof fn lemma_whole_before_zero(text: Seq<char>)
    requires
        forall|i: int| 0 <= i < text.len() ==> text[i] != '\0',
    ensures
        text_before_zero(text) == text,
    decreases text.len(),
{
    if text.len() > 0 {
        let rest = text.drop_first();
        assert(text[0] != '\0');
        assert forall|i: int| 0 <= i < rest.len() implies rest[i] != '\0' by {
            assert(rest[i] == text[i + 1]);
        }
        lemma_whole_before_zero(rest);
        assert(seq![text[0]] + rest =~= text);
    } else {
        assert(text_before_zero(text) =~= text);
    }
}

/// `core::str::Utf8Error`, the error of `core::str::from_utf8`. Nothing is
/// read from it.
#[verifier::external_type_specification]
#[verifier::external_body]
pub struct ExUtf8Error(core::str::Utf8Error);

/// `core::str::from_utf8`: succeeds exactly on the byte sequences that are
/// valid UTF-8, and the string slice it then returns has those very bytes.
pub assume_specification[ core::str::from_utf8 ](v: &[u8]) -> (r: Result<
    &str,
    core::str::Utf8Error,
>)
    ensures
        r is Ok <==> valid_utf8(v@),
        r is Ok ==> r->Ok_0.spec_bytes() == v@,
;

/// The pointer to a buffer that may be missing: null where there is none.
pub fn buffer_ptr(buffer: &Option<Vec<u8>>) -> (out: Option<&[u8]>)
    ensures
        slice_bytes(out) == vec_bytes(*buffer),
{
    match buffer {
        None => None,
        Some(buf) => Some(buf.as_slice()),
    }
}

/// Decodes bytes as UTF-8. Bytes that are not valid UTF-8 give the empty text.
pub fn utf8_to_string(bytes: &[u8]) -> (out: String)
    ensures
        out@ == text_of(bytes@),
{
    match core::str::from_utf8(bytes) {
        Ok(s) => {
            proof {
                broadcast use encode_utf8_decode_utf8;

                assert(decode_utf8(encode_utf8(s@)) == s@);
            }
            s.to_owned()
        },
        Err(_) => String::new(),
    }
}

/// Reads the text behind a pointer that the engine handed over. A null pointer
/// and a string that is not valid UTF-8 both give the empty text.
pub fn ptr_to_string(ptr: Option<&[u8]>) -> (out: String)
    ensures
        out@ == c_text(slice_bytes(ptr)),
{
    match ptr {
        None => String::new(),
        Some(buf) => {
            let mut n: usize = 0;
            while n < buf.len() && buf[n] != 0
                invariant
                    n <= buf@.len(),
                    forall|i: int| 0 <= i < n ==> buf@[i] != 0,
                decreases buf@.len() - n,
            {
                n += 1;
            }
            proof {
                lemma_c_str_len_unique(buf@, n as int);
            }
            utf8_to_string(slice_subrange(buf, 0, n))
        },
    }
}

/// Reads the first `size` entries of an array of pointers to strings, each as
/// `ptr_to_string` reads one: a null entry gives the empty text.
pub fn ptr_to_vec_string(ptr: &[Option<Vec<u8>>], size: usize) -> (out: Vec<String>)
    requires
        size <= ptr@.len(),
    ensures
        out@.len() == size,
        forall|i: int| 0 <= i < size ==> (#[trigger] out@[i])@ == c_text(vec_bytes(ptr@[i])),
{
    let mut out: Vec<String> = Vec::new();
    let mut k: usize = 0;
    while k < size
        invariant
            k <= size <= ptr@.len(),
            out@.len() == k,
            forall|i: int| 0 <= i < k ==> (#[trigger] out@[i])@ == c_text(vec_bytes(ptr@[i])),
        decreases size - k,
    {
        out.push(ptr_to_string(buffer_ptr(&ptr[k])));
        k += 1;
    }
    out
}

/// Copies `input` into a fresh buffer for the engine: its bytes, closed by a
/// zero byte.
pub fn str_to_heap_ptr(input: &str) -> (out: Vec<u8>)
    ensures
        out@ == c_buffer(input@),
{
    let mut out = slice_to_vec(input.as_bytes());
    out.push(0u8);
    out
}

} // verus!
