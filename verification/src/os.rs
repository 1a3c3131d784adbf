//! The native scalar types in a platform-neutral spelling: the platform
//! families, the wide character unit and the status code.

use vstd::prelude::*;

verus! {

/// One unit of a native wide string. On Windows only the low sixteen bits
/// are used (UTF-16 code units); elsewhere a unit is a whole code point.
pub type WCHAR = u32;

/// The platform families the native compiler library ships for.
#[derive(Clone, Copy, Debug, PartialEq, Eq, Structural)]
pub enum Platform {
    Windows,
    Linux,
    MacOs,
}

impl Platform {
    /// Whether the platform's own runtime supplies the COM calling
    /// convention, so that no adapter layout is needed.
    pub open spec fn native_com(&self) -> bool {
        *self == Platform::Windows
    }

    #[verifier::when_used_as_spec(native_com)]
    pub fn is_windows(&self) -> (windows: bool)
        ensures
            windows == self.native_com(),
    {
        match self {
            Platform::Windows => true,
            _ => false,
        }
    }
}

/// A native status code: negative values are failures, zero and positive
/// values are successes.
#[allow(non_camel_case_types)]
#[must_use]
#[derive(Clone, Copy, Debug, PartialEq, Eq, Structural)]
pub struct HRESULT(pub i32);

/// The lower-case hexadecimal digit for a value below sixteen.
pub open spec fn hex_digit(d: int) -> char {
    if d < 10 {
        (0x30 + d) as char
    } else {
        (0x57 + d) as char
    }
}

/// The hexadecimal digits of `n`, most significant first, without leading
/// zeros (a single `0` for zero).
pub open spec fn hex_digits(n: nat) -> Seq<char>
    decreases n,
{
    if n < 16 {
        seq![hex_digit(n as int)]
    } else {
        hex_digits(n / 16).push(hex_digit((n % 16) as int))
    }
}

/// How a status code is written: an optional minus sign, `0x`, and the
/// hexadecimal digits of the magnitude.
pub open spec fn status_text(code: int) -> Seq<char> {
    if code < 0 {
        seq!['-', '0', 'x'] + hex_digits((-code) as nat)
    } else {
        seq!['0', 'x'] + hex_digits(code as nat)
    }
}

/// `String::push` of the standard library: appends one character.
#[verifier::external_body]
pub(crate) fn push_char(text: &mut String, c: char)
    ensures
        final(text)@ == old(text)@.push(c),
{
    text.push(c)
}

fn hex_digit_char(d: u32) -> (c: char)
    requires
        d < 16,
    ensures
        c == hex_digit(d as int),
{
    let byte: u8 = if d < 10 {
        (0x30 + d) as u8
    } else {
        (0x57 + d) as u8
    };
    byte as char
}

fn push_hex_digits(text: &mut String, n: u32)
    ensures
        final(text)@ == old(text)@ + hex_digits(n as nat),
    decreases n,
{
    if n >= 16 {
        push_hex_digits(text, n / 16);
    }
    push_char(text, hex_digit_char(n % 16));
}

impl HRESULT {
    /// Whether this status reports a failure.
    pub open spec fn failed(&self) -> bool {
        self.0 < 0
    }

    #[verifier::when_used_as_spec(failed)]
    pub fn is_err(&self) -> (failed: bool)
        ensures
            failed == self.failed(),
    {
        self.0 < 0
    }

    /// The status as text, for messages: `0x0`, `0x1`, `-0x7ff8fffe`.
    pub fn to_string(&self) -> (text: String)
        ensures
            text@ == status_text(self.0 as int),
    {
        let mut text = String::new();
        let magnitude: u32 = if self.0 < 0 {
            push_char(&mut text, '-');
            (-(self.0 as i64)) as u32
        } else {
            self.0 as u32
        };
        push_char(&mut text, '0');
        push_char(&mut text, 'x');
        push_hex_digits(&mut text, magnitude);
        text
    }
}

impl From<i32> for HRESULT {
    fn from(code: i32) -> (status: Self) {
        HRESULT(code)
    }
}

impl vstd::std_specs::convert::FromSpecImpl<i32> for HRESULT {
    open spec fn obeys_from_spec() -> bool {
        true
    }

    open spec fn from_spec(code: i32) -> Self {
        HRESULT(code)
    }
}

} // verus!
