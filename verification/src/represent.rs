//! The textual forms of the plain values that handles commonly return.

use vstd::prelude::*;
use crate::{or_placeholder, Represent, Style};

verus! {

/// `String::push` of std appends one character to the end of the string and
/// leaves the characters before it as they were.
pub assume_specification[ String::push ](text: &mut String, ch: char)
    ensures
        final(text)@ == old(text)@.push(ch),
;

/// The character that stands for a decimal digit.
pub open spec fn digit_char(digit: int) -> char
    recommends
        0 <= digit < 10,
{
    ('0' as int + digit) as char
}

/// The decimal digits of a natural number, most significant first, without
/// leading zeros.
pub open spec fn decimal(n: nat) -> Seq<char>
    decreases n,
{
    if n < 10 {
        seq![digit_char(n as int)]
    } else {
        decimal(n / 10).push(digit_char((n % 10) as int))
    }
}

/// The decimal form of an integer: a minus sign before the digits of a
/// negative one.
pub open spec fn signed_decimal(v: int) -> Seq<char> {
    if v < 0 {
        seq!['-'] + decimal((-v) as nat)
    } else {
        decimal(v as nat)
    }
}

fn digit(d: u8) -> (c: char)
    requires
        d < 10,
    ensures
        c == digit_char(d as int),
{
    (48u8 + d) as char
}

/// Appends the decimal digits of `n` to `text`.
pub fn push_decimal(text: &mut String, n: u128)
    ensures
        final(text)@ == old(text)@ + decimal(n as nat),
    decreases n,
{
    if n >= 10 {
        push_decimal(text, n / 10);
    }
    text.push(digit((n % 10) as u8));
}

/// The decimal form of an unsigned integer.
pub fn unsigned_text(n: u128) -> (text: String)
    ensures
        text@ == decimal(n as nat),
{
    let mut text = String::new();
    push_decimal(&mut text, n);
    text
}

/// The decimal form of a signed integer.
pub fn signed_text(v: i128) -> (text: String)
    ensures
        text@ == signed_decimal(v as int),
{
    let mut text = String::new();
    if v < 0 {
        text.push('-');
        let magnitude: u128 = ((-(v + 1)) as u128) + 1;
        push_decimal(&mut text, magnitude);
    } else {
        push_decimal(&mut text, v as u128);
    }
    text
}

impl Represent for () {
    /// The unit value has the debug text `()` and no display text.
    open spec fn text(&self, style: Style) -> Option<Seq<char>> {
        match style {
            Style::Display => None,
            Style::Debug => Some("()"@),
        }
    }

    fn styled(&self, style: Style) -> (text: Option<String>) {
        match style {
            Style::Display => None,
            Style::Debug => Some(String::from_str("()")),
        }
    }
}

impl Represent for bool {
    /// A truth value reads `true` or `false` in both styles.
    open spec fn text(&self, style: Style) -> Option<Seq<char>> {
        if *self {
            Some("true"@)
        } else {
            Some("false"@)
        }
    }

    fn styled(&self, style: Style) -> (text: Option<String>) {
        if *self {
            Some(String::from_str("true"))
        } else {
            Some(String::from_str("false"))
        }
    }
}

impl Represent for String {
    /// A string displays as its own characters. Its debug text, with quotes
    /// and escapes, is not modelled.
    open spec fn text(&self, style: Style) -> Option<Seq<char>> {
        match style {
            Style::Display => Some(self@),
            Style::Debug => None,
        }
    }

    fn styled(&self, style: Style) -> (text: Option<String>) {
        match style {
            Style::Display => Some(self.clone()),
            Style::Debug => None,
        }
    }
}

impl<T: Represent> Represent for Option<T> {
    /// An option has a debug text where what it may hold has one: `None`, or
    /// `Some(` and `)` around the debug text of the value. It has no display
    /// text.
    open spec fn text(&self, style: Style) -> Option<Seq<char>> {
        match style {
            Style::Display => None,
            Style::Debug => match self {
                None => Some("None"@),
                Some(value) => match value.text(Style::Debug) {
                    Some(inner) => Some("Some("@ + inner + ")"@),
                    None => None,
                },
            },
        }
    }

    fn styled(&self, style: Style) -> (text: Option<String>) {
        match style {
            Style::Display => None,
            Style::Debug => match self {
                None => Some(String::from_str("None")),
                Some(value) => match value.styled(Style::Debug) {
                    Some(inner) => {
                        let mut text = String::from_str("Some(");
                        text.append(inner.as_str());
                        text.append(")");
                        Some(text)
                    },
                    None => None,
                },
            },
        }
    }
}

impl Represent for u8 {
    /// An unsigned integer reads as its decimal digits in both styles.
    open spec fn text(&self, style: Style) -> Option<Seq<char>> {
        Some(decimal(*self as nat))
    }

    fn styled(&self, style: Style) -> (text: Option<String>) {
        Some(unsigned_text(*self as u128))
    }
}

impl Represent for u16 {
    /// An unsigned integer reads as its decimal digits in both styles.
    open spec fn text(&self, style: Style) -> Option<Seq<char>> {
        Some(decimal(*self as nat))
    }

    fn styled(&self, style: Style) -> (text: Option<String>) {
        Some(unsigned_text(*self as u128))
    }
}

impl Represent for u32 {
    /// An unsigned integer reads as its decimal digits in both styles.
    open spec fn text(&self, style: Style) -> Option<Seq<char>> {
        Some(decimal(*self as nat))
    }

    fn styled(&self, style: Style) -> (text: Option<String>) {
        Some(unsigned_text(*self as u128))
    }
}

impl Represent for u64 {
    /// An unsigned integer reads as its decimal digits in both styles.
    open spec fn text(&self, style: Style) -> Option<Seq<char>> {
        Some(decimal(*self as nat))
    }

    fn styled(&self, style: Style) -> (text: Option<String>) {
        Some(unsigned_text(*self as u128))
    }
}

impl Represent for u128 {
    /// An unsigned integer reads as its decimal digits in both styles.
    open spec fn text(&self, style: Style) -> Option<Seq<char>> {
        Some(decimal(*self as nat))
    }

    fn styled(&self, style: Style) -> (text: Option<String>) {
        Some(unsigned_text(*self))
    }
}

impl Represent for usize {
    /// An unsigned integer reads as its decimal digits in both styles.
    open spec fn text(&self, style: Style) -> Option<Seq<char>> {
        Some(decimal(*self as nat))
    }

    fn styled(&self, style: Style) -> (text: Option<String>) {
        Some(unsigned_text(*self as u128))
    }
}

impl Represent for i8 {
    /// A signed integer reads as its decimal form in both styles.
    open spec fn text(&self, style: Style) -> Option<Seq<char>> {
        Some(signed_decimal(*self as int))
    }

    fn styled(&self, style: Style) -> (text: Option<String>) {
        Some(signed_text(*self as i128))
    }
}

impl Represent for i16 {
    /// A signed integer reads as its decimal form in both styles.
    open spec fn text(&self, style: Style) -> Option<Seq<char>> {
        Some(signed_decimal(*self as int))
    }

    fn styled(&self, style: Style) -> (text: Option<String>) {
        Some(signed_text(*self as i128))
    }
}

impl Represent for i32 {
    /// A signed integer reads as its decimal form in both styles.
    open spec fn text(&self, style: Style) -> Option<Seq<char>> {
        Some(signed_decimal(*self as int))
    }

    fn styled(&self, style: Style) -> (text: Option<String>) {
        Some(signed_text(*self as i128))
    }
}

impl Represent for i64 {
    /// A signed integer reads as its decimal form in both styles.
    open spec fn text(&self, style: Style) -> Option<Seq<char>> {
        Some(signed_decimal(*self as int))
    }

    fn styled(&self, style: Style) -> (text: Option<String>) {
        Some(signed_text(*self as i128))
    }
}

impl Represent for i128 {
    /// A signed integer reads as its decimal form in both styles.
    open spec fn text(&self, style: Style) -> Option<Seq<char>> {
        Some(signed_decimal(*self as int))
    }

    fn styled(&self, style: Style) -> (text: Option<String>) {
        Some(signed_text(*self))
    }
}

impl Represent for isize {
    /// A signed integer reads as its decimal form in both styles.
    open spec fn text(&self, style: Style) -> Option<Seq<char>> {
        Some(signed_decimal(*self as int))
    }

    fn styled(&self, style: Style) -> (text: Option<String>) {
        Some(signed_text(*self as i128))
    }
}

/// The text of a value in one style; the empty text where its type has none
/// in that style.
pub fn styled_or_placeholder<T: Represent>(value: &T, style: Style) -> (text: String)
    ensures
        text@ == or_placeholder(value.text(style)),
{
    match value.styled(style) {
        Some(text) => text,
        None => String::new(),
    }
}

} // verus!
