//! Text on its way to and from the native library, which knows only C strings.

use vstd::prelude::*;
use vstd::string::StrSliceExecFns;
use vstd::utf8::{decode_utf8, encode_scalar, encode_utf8, valid_utf8};

verus! {

/// The error of `core::str::from_utf8`.
#[verifier::external_type_specification]
#[verifier::external_body]
pub struct ExUtf8Error(core::str::Utf8Error);

/// `core::str::from_utf8` succeeds on UTF-8 alone, and then gives the
/// characters that the bytes encode.
pub assume_specification<'a>[ core::str::from_utf8 ](v: &'a [u8]) -> (text: Result<
    &'a str,
    core::str::Utf8Error,
>)
    ensures
        text is Ok <==> valid_utf8(v@),
        text matches Ok(s) ==> s@ == decode_utf8(v@),
;

/// What `String::from_utf8_lossy` makes of bytes: the characters that they
/// encode, with U+FFFD in place of what is not UTF-8.
pub uninterp spec fn utf8_lossy(bytes: Seq<u8>) -> Seq<char>;

/// `String::from_utf8_lossy`, as an owned string. On UTF-8 it gives the
/// characters that the bytes encode. On other bytes U+FFFD occurs in the result;
/// how often and where is left to the name.
#[verifier::external_body]
pub(crate) fn from_utf8_lossy(bytes: &[u8]) -> (text: String)
    ensures
        text@ == utf8_lossy(bytes@),
        valid_utf8(bytes@) ==> text@ == decode_utf8(bytes@),
        !valid_utf8(bytes@) ==> text@.contains('\u{FFFD}'),
{
    String::from_utf8_lossy(bytes).into_owned()
}

/// The text that bytes of the native library stand for, empty where they are
/// not UTF-8.
pub open spec fn text_or_empty(bytes: Seq<u8>) -> Seq<char> {
    if valid_utf8(bytes) {
        decode_utf8(bytes)
    } else {
        Seq::empty()
    }
}

/// See [`text_or_empty`].
pub fn str_or_empty<'b>(bytes: &'b [u8]) -> (text: &'b str)
    ensures
        text@ == text_or_empty(bytes@),
        valid_utf8(bytes@) ==> encode_utf8(text@) == bytes@,
        !valid_utf8(bytes@) ==> text@.len() == 0,
{
    match core::str::from_utf8(bytes) {
        Ok(text) => {
            proof {
                vstd::utf8::decode_utf8_encode_utf8(bytes@);
            }
            text
        },
        Err(_) => {
            proof {
                reveal_strlit("");
            }
            ""
        },
    }
}

/// The C string that holds `text`: its UTF-8 bytes and the zero that ends it.
pub open spec fn c_string(text: Seq<char>) -> Seq<u8> {
    encode_utf8(text).push(0)
}

/// What a reader of C strings sees: the bytes before the first zero.
pub open spec fn c_string_bytes(bytes: Seq<u8>) -> Seq<u8>
    decreases bytes.len(),
{
    if bytes.len() == 0 || bytes[0] == 0 {
        Seq::empty()
    } else {
        seq![bytes[0]] + c_string_bytes(bytes.drop_first())
    }
}

/// Whether `text` holds the character that ends a C string.
pub fn has_nul(text: &str) -> (found: bool)
    ensures
        found == text@.contains('\0'),
{
    let bytes = text.as_bytes();
    let mut i: usize = 0;
    proof {
        lemma_nul_bytes(text@);
    }
    while i < bytes.len()
        invariant
            i <= bytes@.len(),
            forall|j: int| 0 <= j < i ==> bytes@[j] != 0,
            bytes@.contains(0u8) == text@.contains('\0'),
        decreases bytes.len() - i,
    {
        if bytes[i] == 0 {
            assert(bytes@[i as int] == 0u8);
            return true;
        }
        i += 1;
    }
    false
}

/// Makes the C string that holds `text`.
pub fn to_c_string(text: &str) -> (bytes: Vec<u8>)
    ensures
        bytes@ == c_string(text@),
        bytes@ == encode_utf8(text@).push(0),
{
    let mut bytes = text.as_bytes_vec();
    bytes.push(0);
    bytes
}

/// The encoding of a character holds a zero only where the character is NUL.
proof fn lemma_nul_scalar(c: char)
    ensures
        encode_scalar(c as u32).contains(0u8) == (c == '\0'),
{
    let s: u32 = c as u32;
    assert(0xC0u8 | ((s >> 6) & 0x1F) as u8 != 0 && 0xE0u8 | ((s >> 12) & 0x0F) as u8 != 0
        && 0xF0u8 | ((s >> 18) & 0x7) as u8 != 0 && 0x80u8 | (s & 0x3F) as u8 != 0 && 0x80u8 | ((s
        >> 6) & 0x3F) as u8 != 0 && 0x80u8 | ((s >> 12) & 0x3F) as u8 != 0) by (bit_vector);
    assert(s <= 0x7F ==> (s & 0x7F) as u8 == s) by (bit_vector);
    let bytes = encode_scalar(s);
    if c == '\0' {
        assert(bytes[0] == 0u8);
    }
}

/// The encoding of a text holds a zero only where the text holds NUL.
pub proof fn lemma_nul_bytes(text: Seq<char>)
    ensures
        encode_utf8(text).contains(0u8) == text.contains('\0'),
    decreases text.len(),
{
    if text.len() > 0 {
        let first = encode_scalar(text[0] as u32);
        let rest = text.drop_first();
        lemma_nul_scalar(text[0]);
        lemma_nul_bytes(rest);
        assert(text =~= seq![text[0]] + rest);
        assert(text.contains('\0') == (text[0] == '\0' || rest.contains('\0'))) by {
            if rest.contains('\0') {
                let i = rest.index_of('\0');
                assert(text[i + 1] == '\0');
            }
            if text.contains('\0') && text[0] != '\0' {
                let i = text.index_of('\0');
                assert(rest[i - 1] == '\0');
            }
        }
        assert((first + encode_utf8(rest)).contains(0u8) == (first.contains(0u8) || encode_utf8(
            rest,
        ).contains(0u8))) by {
            broadcast use vstd::seq_lib::group_seq_properties;

        }
    }
}

/// Bytes without a zero are what is read back of them once a zero ends them.
pub proof fn lemma_c_string_bytes(bytes: Seq<u8>)
    requires
        !bytes.contains(0u8),
    ensures
        c_string_bytes(bytes.push(0)) == bytes,
    decreases bytes.len(),
{
    if bytes.len() > 0 {
        let rest = bytes.drop_first();
        assert(bytes[0] != 0u8);
        assert(!rest.contains(0u8)) by {
            if rest.contains(0u8) {
                let i = rest.index_of(0u8);
                assert(bytes[i + 1] == 0u8);
            }
        }
        lemma_c_string_bytes(rest);
        assert(bytes.push(0).drop_first() =~= rest.push(0));
        assert(bytes =~= seq![bytes[0]] + rest);
    }
}

} // verus!
