//! Values read from the text of an element: literals and integers.
use vstd::prelude::*;

use crate::dom::text_of;
use crate::element::TryFromElement;
use crate::error::ExtractError;
use scraper::ElementRef;

verus! {

/// A character of the Unicode White_Space property.
pub open spec fn is_white_space(c: char) -> bool {
    let u = c as u32;
    ||| 0x09 <= u <= 0x0D
    ||| u == 0x20 || u == 0x85 || u == 0xA0 || u == 0x1680
    ||| 0x2000 <= u <= 0x200A
    ||| u == 0x2028 || u == 0x2029 || u == 0x202F || u == 0x205F || u == 0x3000
}

/// `s` without its leading white space.
pub open spec fn trim_start(s: Seq<char>) -> Seq<char>
    decreases s.len(),
{
    if s.len() > 0 && is_white_space(s[0]) {
        trim_start(s.drop_first())
    } else {
        s
    }
}

/// `s` without its trailing white space.
pub open spec fn trim_end(s: Seq<char>) -> Seq<char>
    decreases s.len(),
{
    if s.len() > 0 && is_white_space(s.last()) {
        trim_end(s.drop_last())
    } else {
        s
    }
}

/// `s` without its leading and trailing white space.
pub open spec fn trimmed(s: Seq<char>) -> Seq<char> {
    trim_end(trim_start(s))
}

/// Relies on `str::trim`: leading and trailing characters of the Unicode
/// White_Space property removed.
#[verifier::external_body]
fn trim(s: &str) -> (r: &str)
    ensures
        r@ == trimmed(s@),
{
    s.trim()
}

pub open spec fn is_digit(c: char) -> bool {
    '0' <= c && c <= '9'
}

/// The value of a nonempty run of decimal digits.
pub open spec fn digits_value(s: Seq<char>) -> int
    decreases s.len(),
{
    if s.len() == 0 {
        0
    } else {
        digits_value(s.drop_last()) * 10 + (s.last() as int - '0' as int)
    }
}

/// The integer that `s` writes in decimal: an optional sign (`-` only when
/// `signed`) followed by at least one digit, and nothing else.
pub open spec fn decimal_integer(s: Seq<char>, signed: bool) -> Option<int> {
    let negative = signed && s.len() > 0 && s[0] == '-';
    let body = if s.len() > 0 && (s[0] == '+' || negative) {
        s.drop_first()
    } else {
        s
    };
    if body.len() > 0 && forall|i: int| 0 <= i < body.len() ==> is_digit(#[trigger] body[i]) {
        Some(
            if negative {
                -digits_value(body)
            } else {
                digits_value(body)
            },
        )
    } else {
        None
    }
}

/// The decimal integer that `s` writes, if it lies in `lo..=hi`.
pub open spec fn integer_in(s: Seq<char>, signed: bool, lo: int, hi: int) -> Option<int> {
    match decimal_integer(s, signed) {
        Some(v) => if lo <= v && v <= hi {
            Some(v)
        } else {
            None
        },
        None => None,
    }
}

/// Relies on `u32::from_str`: an optional `+` and decimal digits, in range.
#[verifier::external_body]
fn parse_u32(s: &str) -> (r: Option<u32>)
    ensures
        r == (match integer_in(s@, false, 0, u32::MAX as int) {
            Some(v) => Some(v as u32),
            None => None::<u32>,
        }),
{
    s.parse::<u32>().ok()
}

/// Relies on `u64::from_str`: an optional `+` and decimal digits, in range.
#[verifier::external_body]
fn parse_u64(s: &str) -> (r: Option<u64>)
    ensures
        r == (match integer_in(s@, false, 0, u64::MAX as int) {
            Some(v) => Some(v as u64),
            None => None::<u64>,
        }),
{
    s.parse::<u64>().ok()
}

/// Relies on `i32::from_str`: an optional sign and decimal digits, in range.
#[verifier::external_body]
fn parse_i32(s: &str) -> (r: Option<i32>)
    ensures
        r == (match integer_in(s@, true, i32::MIN as int, i32::MAX as int) {
            Some(v) => Some(v as i32),
            None => None::<i32>,
        }),
{
    s.parse::<i32>().ok()
}

/// Relies on `i64::from_str`: an optional sign and decimal digits, in range.
#[verifier::external_body]
fn parse_i64(s: &str) -> (r: Option<i64>)
    ensures
        r == (match integer_in(s@, true, i64::MIN as int, i64::MAX as int) {
            Some(v) => Some(v as i64),
            None => None::<i64>,
        }),
{
    s.parse::<i64>().ok()
}

/// Relies on `u8::from_str`: an optional `+` and decimal digits, in range.
#[verifier::external_body]
fn parse_u8(s: &str) -> (r: Option<u8>)
    ensures
        r == (match integer_in(s@, false, 0, u8::MAX as int) {
            Some(v) => Some(v as u8),
            None => None::<u8>,
        }),
{
    s.parse::<u8>().ok()
}

/// Relies on `u16::from_str`: an optional `+` and decimal digits, in range.
#[verifier::external_body]
fn parse_u16(s: &str) -> (r: Option<u16>)
    ensures
        r == (match integer_in(s@, false, 0, u16::MAX as int) {
            Some(v) => Some(v as u16),
            None => None::<u16>,
        }),
{
    s.parse::<u16>().ok()
}

/// Relies on `usize::from_str`: an optional `+` and decimal digits, in range.
#[verifier::external_body]
fn parse_usize(s: &str) -> (r: Option<usize>)
    ensures
        r == (match integer_in(s@, false, 0, usize::MAX as int) {
            Some(v) => Some(v as usize),
            None => None::<usize>,
        }),
{
    s.parse::<usize>().ok()
}

/// Relies on `i8::from_str`: an optional sign and decimal digits, in range.
#[verifier::external_body]
fn parse_i8(s: &str) -> (r: Option<i8>)
    ensures
        r == (match integer_in(s@, true, i8::MIN as int, i8::MAX as int) {
            Some(v) => Some(v as i8),
            None => None::<i8>,
        }),
{
    s.parse::<i8>().ok()
}

/// Relies on `i16::from_str`: an optional sign and decimal digits, in range.
#[verifier::external_body]
fn parse_i16(s: &str) -> (r: Option<i16>)
    ensures
        r == (match integer_in(s@, true, i16::MIN as int, i16::MAX as int) {
            Some(v) => Some(v as i16),
            None => None::<i16>,
        }),
{
    s.parse::<i16>().ok()
}

/// Relies on `isize::from_str`: an optional sign and decimal digits, in range.
#[verifier::external_body]
fn parse_isize(s: &str) -> (r: Option<isize>)
    ensures
        r == (match integer_in(s@, true, isize::MIN as int, isize::MAX as int) {
            Some(v) => Some(v as isize),
            None => None::<isize>,
        }),
{
    s.parse::<isize>().ok()
}

/// Relies on `bool::from_str`: exactly `true` or `false`.
#[verifier::external_body]
fn parse_bool(s: &str) -> (r: Option<bool>)
    ensures
        r == bool_text(s@),
{
    s.parse::<bool>().ok()
}

/// Relies on `char::from_str`: a text of exactly one character.
#[verifier::external_body]
fn parse_char(s: &str) -> (r: Option<char>)
    ensures
        r == char_text(s@),
{
    s.parse::<char>().ok()
}

/// The truth value that `s` writes, if any.
pub open spec fn bool_text(s: Seq<char>) -> Option<bool> {
    if s == "true"@ {
        Some(true)
    } else if s == "false"@ {
        Some(false)
    } else {
        None
    }
}

/// The one character of `s`, if it has exactly one.
pub open spec fn char_text(s: Seq<char>) -> Option<char> {
    if s.len() == 1 {
        Some(s[0])
    } else {
        None
    }
}

/// A type whose values are written as text.
pub trait ScalarText: Sized {
    /// The value that `text` writes, if any.
    spec fn denoted(text: Seq<char>) -> Option<Self>;

    /// The name of the type in messages.
    spec fn label() -> Seq<char>;

    fn parse_text(text: &str) -> (r: Option<Self>)
        ensures
            r == Self::denoted(text@),
    ;

    fn type_label() -> (r: String)
        ensures
            r@ == Self::label(),
    ;
}

impl ScalarText for u32 {
    open spec fn denoted(text: Seq<char>) -> Option<u32> {
        match integer_in(text, false, 0, u32::MAX as int) {
            Some(v) => Some(v as u32),
            None => None,
        }
    }

    open spec fn label() -> Seq<char> {
        "u32"@
    }

    fn parse_text(text: &str) -> (r: Option<u32>) {
        parse_u32(text)
    }

    fn type_label() -> (r: String) {
        String::from_str("u32")
    }
}

impl ScalarText for u64 {
    open spec fn denoted(text: Seq<char>) -> Option<u64> {
        match integer_in(text, false, 0, u64::MAX as int) {
            Some(v) => Some(v as u64),
            None => None,
        }
    }

    open spec fn label() -> Seq<char> {
        "u64"@
    }

    fn parse_text(text: &str) -> (r: Option<u64>) {
        parse_u64(text)
    }

    fn type_label() -> (r: String) {
        String::from_str("u64")
    }
}

impl ScalarText for i32 {
    open spec fn denoted(text: Seq<char>) -> Option<i32> {
        match integer_in(text, true, i32::MIN as int, i32::MAX as int) {
            Some(v) => Some(v as i32),
            None => None,
        }
    }

    open spec fn label() -> Seq<char> {
        "i32"@
    }

    fn parse_text(text: &str) -> (r: Option<i32>) {
        parse_i32(text)
    }

    fn type_label() -> (r: String) {
        String::from_str("i32")
    }
}

impl ScalarText for i64 {
    open spec fn denoted(text: Seq<char>) -> Option<i64> {
        match integer_in(text, true, i64::MIN as int, i64::MAX as int) {
            Some(v) => Some(v as i64),
            None => None,
        }
    }

    open spec fn label() -> Seq<char> {
        "i64"@
    }

    fn parse_text(text: &str) -> (r: Option<i64>) {
        parse_i64(text)
    }

    fn type_label() -> (r: String) {
        String::from_str("i64")
    }
}

impl ScalarText for u8 {
    open spec fn denoted(text: Seq<char>) -> Option<u8> {
        match integer_in(text, false, 0, u8::MAX as int) {
            Some(v) => Some(v as u8),
            None => None,
        }
    }

    open spec fn label() -> Seq<char> {
        "u8"@
    }

    fn parse_text(text: &str) -> (r: Option<u8>) {
        parse_u8(text)
    }

    fn type_label() -> (r: String) {
        String::from_str("u8")
    }
}

impl ScalarText for u16 {
    open spec fn denoted(text: Seq<char>) -> Option<u16> {
        match integer_in(text, false, 0, u16::MAX as int) {
            Some(v) => Some(v as u16),
            None => None,
        }
    }

    open spec fn label() -> Seq<char> {
        "u16"@
    }

    fn parse_text(text: &str) -> (r: Option<u16>) {
        parse_u16(text)
    }

    fn type_label() -> (r: String) {
        String::from_str("u16")
    }
}

impl ScalarText for usize {
    open spec fn denoted(text: Seq<char>) -> Option<usize> {
        match integer_in(text, false, 0, usize::MAX as int) {
            Some(v) => Some(v as usize),
            None => None,
        }
    }

    open spec fn label() -> Seq<char> {
        "usize"@
    }

    fn parse_text(text: &str) -> (r: Option<usize>) {
        parse_usize(text)
    }

    fn type_label() -> (r: String) {
        String::from_str("usize")
    }
}

impl ScalarText for i8 {
    open spec fn denoted(text: Seq<char>) -> Option<i8> {
        match integer_in(text, true, i8::MIN as int, i8::MAX as int) {
            Some(v) => Some(v as i8),
            None => None,
        }
    }

    open spec fn label() -> Seq<char> {
        "i8"@
    }

    fn parse_text(text: &str) -> (r: Option<i8>) {
        parse_i8(text)
    }

    fn type_label() -> (r: String) {
        String::from_str("i8")
    }
}

impl ScalarText for i16 {
    open spec fn denoted(text: Seq<char>) -> Option<i16> {
        match integer_in(text, true, i16::MIN as int, i16::MAX as int) {
            Some(v) => Some(v as i16),
            None => None,
        }
    }

    open spec fn label() -> Seq<char> {
        "i16"@
    }

    fn parse_text(text: &str) -> (r: Option<i16>) {
        parse_i16(text)
    }

    fn type_label() -> (r: String) {
        String::from_str("i16")
    }
}

impl ScalarText for isize {
    open spec fn denoted(text: Seq<char>) -> Option<isize> {
        match integer_in(text, true, isize::MIN as int, isize::MAX as int) {
            Some(v) => Some(v as isize),
            None => None,
        }
    }

    open spec fn label() -> Seq<char> {
        "isize"@
    }

    fn parse_text(text: &str) -> (r: Option<isize>) {
        parse_isize(text)
    }

    fn type_label() -> (r: String) {
        String::from_str("isize")
    }
}

impl ScalarText for bool {
    open spec fn denoted(text: Seq<char>) -> Option<bool> {
        bool_text(text)
    }

    open spec fn label() -> Seq<char> {
        "bool"@
    }

    fn parse_text(text: &str) -> (r: Option<bool>) {
        parse_bool(text)
    }

    fn type_label() -> (r: String) {
        String::from_str("bool")
    }
}

impl ScalarText for char {
    open spec fn denoted(text: Seq<char>) -> Option<char> {
        char_text(text)
    }

    open spec fn label() -> Seq<char> {
        "char"@
    }

    fn parse_text(text: &str) -> (r: Option<char>) {
        parse_char(text)
    }

    fn type_label() -> (r: String) {
        String::from_str("char")
    }
}

/// A value parsed from the full, untrimmed text of an element.
#[derive(Debug, PartialEq)]
pub struct Parsed<T>(pub T);

impl<T: ScalarText> Parsed<T> {
    /// Parses `text`; on failure the error names the target type and the text.
    pub fn from_text(text: &str) -> (r: Result<Parsed<T>, ExtractError>)
        ensures
            match T::denoted(text@) {
                Some(v) => r == Ok::<Parsed<T>, ExtractError>(Parsed(v)),
                None => r matches Err(ExtractError::Parse { target, text: t }) && target@ == T::label()
                    && t@ == text@,
            },
    {
        match T::parse_text(text) {
            Some(v) => Ok(Parsed(v)),
            None => Err(ExtractError::Parse { target: T::type_label(), text: String::from_str(text) }),
        }
    }
}

impl<'a, T: ScalarText> TryFromElement<'a> for Parsed<T> {
    /// Some text of the element denotes the value, or the error names the
    /// target type and a text that denotes none.
    open spec fn extracted(element: ElementRef<'a>, r: Result<Self, ExtractError>) -> bool {
        match r {
            Ok(p) => exists|t: Seq<char>| T::denoted(t) == Some(p.0),
            Err(e) => e matches ExtractError::Parse { target, text } && target@ == T::label()
                && T::denoted(text@) is None,
        }
    }

    fn try_from_element(element: ElementRef<'a>) -> (r: Result<Self, ExtractError>) {
        let text = text_of(element);
        Parsed::from_text(text.as_str())
    }
}

/// A fixed literal that the trimmed text of an element must equal.
#[derive(Debug, PartialEq)]
pub struct Hardcoded {
    pub expected: String,
}

impl Hardcoded {
    /// Checks `trimmed_text` (the trimmed form of `text`) against `expected`.
    pub fn from_trimmed(expected: &str, trimmed_text: &str, text: &str) -> (r: Result<Hardcoded, ExtractError>)
        ensures
            trimmed_text@ == expected@ ==> (r matches Ok(h) && h.expected@ == expected@),
            trimmed_text@ != expected@ ==> (r matches Err(ExtractError::Mismatch { expected: x, found })
                && x@ == expected@ && found@ == text@),
    {
        if str_eq(trimmed_text, expected) {
            Ok(Hardcoded { expected: String::from_str(expected) })
        } else {
            Err(ExtractError::Mismatch { expected: String::from_str(expected), found: String::from_str(text) })
        }
    }

    /// Succeeds when `text`, trimmed, is exactly `expected`.
    pub fn from_text(expected: &str, text: &str) -> (r: Result<Hardcoded, ExtractError>)
        ensures
            trimmed(text@) == expected@ ==> (r matches Ok(h) && h.expected@ == expected@),
            trimmed(text@) != expected@ ==> (r matches Err(ExtractError::Mismatch { expected: x, found })
                && x@ == expected@ && found@ == text@),
    {
        Hardcoded::from_trimmed(expected, trim(text), text)
    }

    /// Succeeds when the trimmed text of `element` is exactly `expected`.
    pub fn try_from_element<'a>(expected: &str, element: ElementRef<'a>) -> (r: Result<Hardcoded, ExtractError>)
        ensures
            r matches Ok(h) ==> h.expected@ == expected@,
            r matches Err(e) ==> (e matches ExtractError::Mismatch { expected: x, found } && x@ == expected@
                && trimmed(found@) != expected@),
    {
        let text = text_of(element);
        Hardcoded::from_text(expected, text.as_str())
    }
}

/// Character-wise equality of two strings.
fn str_eq(a: &str, b: &str) -> (r: bool)
    ensures
        r == (a@ == b@),
{
    let n = a.unicode_len();
    if n != b.unicode_len() {
        return false;
    }
    let mut i: usize = 0;
    while i < n
        invariant
            n == a@.len(),
            n == b@.len(),
            i <= n,
            forall|j: int| 0 <= j < i ==> a@[j] == b@[j],
        decreases n - i,
    {
        if a.get_char(i) != b.get_char(i) {
            return false;
        }
        i = i + 1;
    }
    assert(a@ =~= b@);
    true
}

} // verus!
