//! Text conversions between Rust strings and the native representations,
//! and the error type of the loader and factory operations.

use vstd::prelude::*;
use vstd::utf8::{decode_utf8, is_scalar, valid_utf8};
use crate::os::{push_char, Platform, HRESULT, WCHAR};

verus! {

/// What an operation of the loader or of the instance factory can fail with.
#[derive(Debug)]
pub enum HassleError {
    /// A native call answered with a failing status.
    Win32Error(HRESULT),
    /// The shared library `filename` could not be loaded; `inner` is the
    /// loader's own description of the failure.
    LoadLibraryError { filename: String, inner: String },
    /// The loaded library lacks the factory entry point; the text is the
    /// loader's own description of the failure.
    LibLoadingError(String),
    /// The operation exists on Windows only.
    WindowsOnly(String),
}

/// The character that stands for a malformed unit in decoded text.
pub const REPLACEMENT_CHARACTER: char = '\u{FFFD}';

pub open spec fn is_high_surrogate(unit: WCHAR) -> bool {
    0xD800 <= unit <= 0xDBFF
}

pub open spec fn is_low_surrogate(unit: WCHAR) -> bool {
    0xDC00 <= unit <= 0xDFFF
}

/// The wide units of one character: on Windows a UTF-16 unit or surrogate
/// pair, elsewhere the code point itself.
pub open spec fn char_units(platform: Platform, c: char) -> Seq<WCHAR> {
    let v = c as u32;
    if platform.native_com() && v >= 0x10000 {
        seq![(0xD800 + (v - 0x10000) / 0x400) as u32, (0xDC00 + (v - 0x10000) % 0x400) as u32]
    } else {
        seq![v]
    }
}

/// The wide units of a text, character after character.
pub open spec fn encode_wide(platform: Platform, text: Seq<char>) -> Seq<WCHAR>
    decreases text.len(),
{
    if text.len() == 0 {
        Seq::empty()
    } else {
        char_units(platform, text[0]) + encode_wide(platform, text.skip(1))
    }
}

/// The native form of a text: its wide units and a terminating zero.
pub open spec fn wide_string(platform: Platform, text: Seq<char>) -> Seq<WCHAR> {
    encode_wide(platform, text).push(0)
}

/// The character that a non-empty run of units starts with, and how many
/// units it takes. A unit that fits no character decodes to the
/// replacement character and takes one unit.
pub open spec fn first_char(platform: Platform, units: Seq<WCHAR>) -> (char, int) {
    let u = units[0];
    if platform.native_com() {
        if is_high_surrogate(u) && units.len() >= 2 && is_low_surrogate(units[1]) {
            ((0x10000 + (u - 0xD800) * 0x400 + (units[1] - 0xDC00)) as char, 2)
        } else if u <= 0xFFFF && !is_high_surrogate(u) && !is_low_surrogate(u) {
            (u as char, 1)
        } else {
            (REPLACEMENT_CHARACTER, 1)
        }
    } else if is_scalar(u) {
        (u as char, 1)
    } else {
        (REPLACEMENT_CHARACTER, 1)
    }
}

/// The text that a run of wide units stands for.
pub open spec fn decode_units(platform: Platform, units: Seq<WCHAR>) -> Seq<char>
    decreases units.len(),
{
    if units.len() == 0 {
        Seq::empty()
    } else {
        let (c, n) = first_char(platform, units);
        seq![c] + decode_units(platform, units.skip(n))
    }
}

/// How many units come before the first zero unit (all of them where
/// there is none).
pub open spec fn terminated_len(units: Seq<WCHAR>) -> nat
    decreases units.len(),
{
    if units.len() == 0 || units[0] == 0 {
        0
    } else {
        1 + terminated_len(units.skip(1))
    }
}

/// The text of a zero-terminated wide string.
pub open spec fn wide_text(platform: Platform, units: Seq<WCHAR>) -> Seq<char> {
    decode_units(platform, units.take(terminated_len(units) as int))
}

/// How many bytes come before the first zero byte (all of them where
/// there is none).
pub open spec fn terminated_byte_len(bytes: Seq<u8>) -> nat
    decreases bytes.len(),
{
    if bytes.len() == 0 || bytes[0] == 0 {
        0
    } else {
        1 + terminated_byte_len(bytes.skip(1))
    }
}

/// The text of a byte string: its characters where it is well-formed
/// UTF-8, and none where it is not.
pub open spec fn utf8_text(bytes: Seq<u8>) -> Option<Seq<char>> {
    if valid_utf8(bytes) {
        Some(decode_utf8(bytes))
    } else {
        None
    }
}

/// Whether a text holds no zero character. The native side reads a text
/// up to its first zero, so only such a text goes over whole.
pub open spec fn zero_free(text: Seq<char>) -> bool {
    forall|i: int| 0 <= i < text.len() ==> text[i] as u32 != 0
}

/// `String::from_utf8` of the standard library: the text of a byte
/// vector, which there is exactly where the bytes are well-formed UTF-8.
#[verifier::external_body]
pub(crate) fn string_from_utf8(bytes: Vec<u8>) -> (text: Option<String>)
    ensures
        text is Some <==> valid_utf8(bytes@),
        text matches Some(t) ==> t@ == decode_utf8(bytes@),
{
    String::from_utf8(bytes).ok()
}

/// `char::from_u32` of the standard library: the character with the given
/// code point, where that is a Unicode scalar value.
#[verifier::external_body]
pub(crate) fn char_from_u32(code: u32) -> (c: Option<char>)
    ensures
        c == if is_scalar(code) {
            Some(code as char)
        } else {
            None::<char>
        },
{
    char::from_u32(code)
}

proof fn lemma_encode_wide_push(platform: Platform, text: Seq<char>, c: char)
    ensures
        encode_wide(platform, text.push(c)) == encode_wide(platform, text) + char_units(
            platform,
            c,
        ),
    decreases text.len(),
{
    if text.len() == 0 {
        assert(encode_wide(platform, text.push(c).skip(1)) =~= Seq::<WCHAR>::empty());
    } else {
        lemma_encode_wide_push(platform, text.skip(1), c);
        assert(text.push(c).skip(1) =~= text.skip(1).push(c));
        assert(encode_wide(platform, text.push(c)) =~= encode_wide(platform, text) + char_units(
            platform,
            c,
        ));
    }
}

proof fn lemma_encode_wide_nonzero(platform: Platform, text: Seq<char>)
    requires
        forall|i: int| 0 <= i < text.len() ==> text[i] as u32 != 0,
    ensures
        forall|i: int|
            0 <= i < encode_wide(platform, text).len() ==> encode_wide(platform, text)[i] != 0,
    decreases text.len(),
{
    if text.len() > 0 {
        let first = char_units(platform, text[0]);
        let rest = encode_wide(platform, text.skip(1));
        lemma_encode_wide_nonzero(platform, text.skip(1));
        vstd::utf8::char_is_scalar(text[0]);
        assert(forall|i: int| 0 <= i < first.len() ==> first[i] != 0);
        assert(encode_wide(platform, text) == first + rest);
    }
}

proof fn lemma_terminated_len(units: Seq<WCHAR>, n: int)
    requires
        0 <= n <= units.len(),
        forall|i: int| 0 <= i < n ==> units[i] != 0,
        n < units.len() ==> units[n] == 0,
    ensures
        terminated_len(units) == n,
    decreases units.len(),
{
    if n > 0 {
        lemma_terminated_len(units.skip(1), n - 1);
    }
}

proof fn lemma_terminated_byte_len(bytes: Seq<u8>, n: int)
    requires
        0 <= n <= bytes.len(),
        forall|i: int| 0 <= i < n ==> bytes[i] != 0,
        n < bytes.len() ==> bytes[n] == 0,
    ensures
        terminated_byte_len(bytes) == n,
    decreases bytes.len(),
{
    if n > 0 {
        lemma_terminated_byte_len(bytes.skip(1), n - 1);
    }
}

/// Decoding the wide units of a text gives the text back, on either
/// platform family.
pub proof fn lemma_decode_encode(platform: Platform, text: Seq<char>)
    ensures
        decode_units(platform, encode_wide(platform, text)) == text,
    decreases text.len(),
{
    if text.len() > 0 {
        let c = text[0];
        let v = c as u32;
        let rest = encode_wide(platform, text.skip(1));
        let units = encode_wide(platform, text);
        lemma_decode_encode(platform, text.skip(1));
        vstd::utf8::char_u32_cast(c, v);
        if platform.native_com() && v >= 0x10000 {
            assert(units.skip(2) =~= rest);
        } else {
            assert(units.skip(1) =~= rest);
        }
    }
}

/// A text without the zero character comes back unchanged from its
/// zero-terminated native form.
pub proof fn lemma_wide_round_trip(platform: Platform, text: Seq<char>)
    requires
        zero_free(text),
    ensures
        wide_text(platform, wide_string(platform, text)) == text,
{
    let units = encode_wide(platform, text);
    lemma_encode_wide_nonzero(platform, text);
    lemma_terminated_len(units.push(0), units.len() as int);
    assert(units.push(0).take(units.len() as int) =~= units);
    lemma_decode_encode(platform, text);
}

/// The native narrow form of a text: its UTF-8 bytes, then the
/// terminating zero.
pub fn to_c_string(text: &str) -> (bytes: Vec<u8>)
    ensures
        bytes@ == vstd::utf8::encode_utf8(text@).push(0),
{
    let mut bytes = vstd::slice::slice_to_vec(text.as_bytes());
    bytes.push(0);
    bytes
}

/// The native form of a text: its wide units, then the terminating zero.
pub fn to_wide(msg: &str, platform: Platform) -> (wide: Vec<WCHAR>)
    ensures
        wide@ == wide_string(platform, msg@),
{
    let utf16 = platform.is_windows();
    let mut wide: Vec<WCHAR> = Vec::new();
    for c in it: msg.chars()
        invariant
            it.seq() == msg@,
            utf16 == platform.native_com(),
            wide@ == encode_wide(platform, msg@.take(it.index() as int)),
    {
        proof {
            lemma_encode_wide_push(platform, msg@.take(it.index() as int), c);
            assert(msg@.take(it.index() + 1) =~= msg@.take(it.index() as int).push(c));
        }
        let v: u32 = c as u32;
        if utf16 && v >= 0x10000 {
            wide.push(0xD800 + (v - 0x10000) / 0x400);
            wide.push(0xDC00 + (v - 0x10000) % 0x400);
        } else {
            wide.push(v);
        }
    }
    assert(msg@.take(msg@.len() as int) =~= msg@);
    wide.push(0);
    wide
}

/// The number of units before the terminating zero.
pub fn wide_len(units: &[WCHAR]) -> (n: usize)
    ensures
        n == terminated_len(units@),
        n <= units@.len(),
{
    let mut n: usize = 0;
    while n < units.len() && units[n] != 0
        invariant
            n <= units@.len(),
            forall|i: int| 0 <= i < n ==> units@[i] != 0,
        decreases units@.len() - n,
    {
        n += 1;
    }
    proof {
        lemma_terminated_len(units@, n as int);
    }
    n
}

fn decode_prefix(units: &[WCHAR], end: usize, platform: Platform) -> (text: String)
    requires
        end <= units@.len(),
    ensures
        text@ == decode_units(platform, units@.take(end as int)),
{
    let utf16 = platform.is_windows();
    let ghost run = units@.take(end as int);
    let mut text = String::new();
    let mut i: usize = 0;
    assert(run.skip(0) =~= run);
    while i < end
        invariant
            i <= end <= units@.len(),
            run == units@.take(end as int),
            utf16 == platform.native_com(),
            decode_units(platform, run) == text@ + decode_units(platform, run.skip(i as int)),
        decreases end - i,
    {
        let u = units[i];
        let ghost tail = run.skip(i as int);
        let ghost before = text@;
        let mut taken: usize = 1;
        let mut c = REPLACEMENT_CHARACTER;
        if utf16 {
            if 0xD800 <= u && u <= 0xDBFF && i + 1 < end && 0xDC00 <= units[i + 1] && units[i + 1]
                <= 0xDFFF {
                let code: u32 = 0x10000 + (u - 0xD800) * 0x400 + (units[i + 1] - 0xDC00);
                match char_from_u32(code) {
                    Some(decoded) => {
                        c = decoded;
                    },
                    None => {},
                }
                taken = 2;
            } else if u <= 0xFFFF && !(0xD800 <= u && u <= 0xDFFF) {
                match char_from_u32(u) {
                    Some(decoded) => {
                        c = decoded;
                    },
                    None => {},
                }
            }
        } else {
            match char_from_u32(u) {
                Some(decoded) => {
                    c = decoded;
                },
                None => {},
            }
        }
        push_char(&mut text, c);
        proof {
            assert(tail.skip(taken as int) =~= run.skip(i + taken));
            assert(text@ + decode_units(platform, run.skip(i + taken)) =~= before + (seq![c]
                + decode_units(platform, tail.skip(taken as int))));
        }
        i += taken;
    }
    text
}

/// The text of a zero-terminated wide string. Units after the first zero
/// are not read; a unit that fits no character becomes the replacement
/// character.
pub fn from_wide(wide: &[WCHAR], platform: Platform) -> (text: String)
    ensures
        text@ == wide_text(platform, wide@),
{
    let end = wide_len(wide);
    decode_prefix(wide, end, platform)
}

/// The text of a counted wide string, which may hold zero units.
pub fn from_bstr(string: &[WCHAR], platform: Platform) -> (text: String)
    ensures
        text@ == decode_units(platform, string@),
{
    assert(string@.take(string@.len() as int) =~= string@);
    decode_prefix(string, string.len(), platform)
}

/// Whether `text` holds no zero character.
pub fn is_zero_free(text: &str) -> (free: bool)
    ensures
        free == zero_free(text@),
{
    for c in it: text.chars()
        invariant
            it.seq() == text@,
            zero_free(text@.take(it.index() as int)),
    {
        if c as u32 == 0 {
            assert(text@[it.index() as int] as u32 == 0);
            return false;
        }
        assert(text@.take(it.index() + 1) =~= text@.take(it.index() as int).push(c));
    }
    assert(text@.take(text@.len() as int) =~= text@);
    true
}

/// The text of a byte string in UTF-8, if the bytes are well-formed.
pub fn from_utf8(bytes: &[u8]) -> (text: Option<String>)
    ensures
        match utf8_text(bytes@) {
            Some(t) => text matches Some(s) && s@ == t,
            None => text is None,
        },
{
    string_from_utf8(vstd::slice::slice_to_vec(bytes))
}

/// Reading the UTF-8 bytes of a text gives the text back.
pub proof fn lemma_utf8_round_trip(text: Seq<char>)
    ensures
        utf8_text(vstd::utf8::encode_utf8(text)) == Some(text),
{
    vstd::utf8::encode_utf8_valid_utf8(text);
    vstd::utf8::encode_utf8_decode_utf8(text);
}

/// The text of a zero-terminated byte string, which the native library
/// writes in UTF-8, if the bytes before the terminator are well-formed.
pub fn from_lpstr(string: &[u8]) -> (text: Option<String>)
    ensures
        match utf8_text(string@.take(terminated_byte_len(string@) as int)) {
            Some(t) => text matches Some(s) && s@ == t,
            None => text is None,
        },
{
    let mut n: usize = 0;
    while n < string.len() && string[n] != 0
        invariant
            n <= string@.len(),
            forall|i: int| 0 <= i < n ==> string@[i] != 0,
        decreases string@.len() - n,
    {
        n += 1;
    }
    proof {
        lemma_terminated_byte_len(string@, n as int);
    }
    let bytes = vstd::slice::slice_subrange(string, 0, n);
    from_utf8(bytes)
}

} // verus!
