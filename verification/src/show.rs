//! Rendering of literals into text: decimal digits for naturals, a signed
//! decimal for integers (positive values carry an explicit plus sign), and
//! the language's escaping rules for showing a text literal as a literal.
use vstd::prelude::*;

use crate::syntax::{lappend, List};

verus! {

/// The decimal digits of a natural number, most significant first.
pub open spec fn s_digits(n: u64) -> List<u8>
    decreases n,
{
    if n < 10 {
        List::Cons((48 + n) as u8, Box::new(List::Nil))
    } else {
        lappend(s_digits(n / 10), List::Cons((48 + n % 10) as u8, Box::new(List::Nil)))
    }
}

pub fn digits(n: u64) -> (r: List<u8>)
    ensures
        r == s_digits(n),
    decreases n,
{
    if n < 10 {
        List::Cons((48 + n) as u8, Box::new(List::Nil))
    } else {
        let high = digits(n / 10);
        crate::syntax::append(high, List::Cons((48 + n % 10) as u8, Box::new(List::Nil)))
    }
}

/// A signed decimal: negatives with a minus sign, everything else with an
/// explicit plus sign.
pub open spec fn s_integer_digits(n: i64) -> List<u8> {
    if n < 0 {
        List::Cons(45u8, Box::new(s_digits((0u64).wrapping_sub(n as u64))))
    } else {
        List::Cons(43u8, Box::new(s_digits(n as u64)))
    }
}

pub fn integer_digits(n: i64) -> (r: List<u8>)
    ensures
        r == s_integer_digits(n),
{
    if n < 0 {
        let magnitude: u64 = (0u64).wrapping_sub(n as u64);
        List::Cons(45u8, Box::new(digits(magnitude)))
    } else {
        List::Cons(43u8, Box::new(digits(n as u64)))
    }
}

/// A hexadecimal digit, lower case.
pub open spec fn s_hex_digit(n: u8) -> u8 {
    if n < 10 {
        (48 + n) as u8
    } else {
        (87 + n) as u8
    }
}

/// One text byte as it is shown inside a quoted literal: backslash, quote
/// and the interpolation sigil are escaped, the named control characters
/// get their short escapes, other control bytes a four-digit escape.
pub open spec fn s_escape_byte(b: u8) -> List<u8> {
    if b == 34 {
        List::Cons(92u8, Box::new(List::Cons(34u8, Box::new(List::Nil))))
    } else if b == 92 {
        List::Cons(92u8, Box::new(List::Cons(92u8, Box::new(List::Nil))))
    } else if b == 36 {
        // "$" as $, so no interpolation can appear in the output
        List::Cons(
            92u8,
            Box::new(
                List::Cons(
                    117u8,
                    Box::new(
                        List::Cons(
                            48u8,
                            Box::new(
                                List::Cons(
                                    48u8,
                                    Box::new(
                                        List::Cons(50u8, Box::new(List::Cons(52u8, Box::new(List::Nil)))),
                                    ),
                                ),
                            ),
                        ),
                    ),
                ),
            ),
        )
    } else if b == 8 {
        List::Cons(92u8, Box::new(List::Cons(98u8, Box::new(List::Nil))))
    } else if b == 12 {
        List::Cons(92u8, Box::new(List::Cons(102u8, Box::new(List::Nil))))
    } else if b == 10 {
        List::Cons(92u8, Box::new(List::Cons(110u8, Box::new(List::Nil))))
    } else if b == 13 {
        List::Cons(92u8, Box::new(List::Cons(114u8, Box::new(List::Nil))))
    } else if b == 9 {
        List::Cons(92u8, Box::new(List::Cons(116u8, Box::new(List::Nil))))
    } else if b < 32 {
        List::Cons(
            92u8,
            Box::new(
                List::Cons(
                    117u8,
                    Box::new(
                        List::Cons(
                            48u8,
                            Box::new(
                                List::Cons(
                                    48u8,
                                    Box::new(
                                        List::Cons(
                                            s_hex_digit(b / 16),
                                            Box::new(
                                                List::Cons(
                                                    s_hex_digit(b % 16),
                                                    Box::new(List::Nil),
                                                ),
                                            ),
                                        ),
                                    ),
                                ),
                            ),
                        ),
                    ),
                ),
            ),
        )
    } else {
        List::Cons(b, Box::new(List::Nil))
    }
}

pub open spec fn s_escape(s: List<u8>) -> List<u8>
    decreases s,
{
    match s {
        List::Nil => List::Nil,
        List::Cons(b, rest) => lappend(s_escape_byte(b), s_escape(*rest)),
    }
}

fn hex_digit(n: u8) -> (r: u8)
    requires
        n < 16,
    ensures
        r == s_hex_digit(n),
{
    if n < 10 {
        48 + n
    } else {
        87 + n
    }
}

fn escape_byte(b: u8) -> (r: List<u8>)
    ensures
        r == s_escape_byte(b),
{
    if b == 34 {
        List::Cons(92u8, Box::new(List::Cons(34u8, Box::new(List::Nil))))
    } else if b == 92 {
        List::Cons(92u8, Box::new(List::Cons(92u8, Box::new(List::Nil))))
    } else if b == 36 {
        List::Cons(
            92u8,
            Box::new(
                List::Cons(
                    117u8,
                    Box::new(
                        List::Cons(
                            48u8,
                            Box::new(
                                List::Cons(
                                    48u8,
                                    Box::new(
                                        List::Cons(50u8, Box::new(List::Cons(52u8, Box::new(List::Nil)))),
                                    ),
                                ),
                            ),
                        ),
                    ),
                ),
            ),
        )
    } else if b == 8 {
        List::Cons(92u8, Box::new(List::Cons(98u8, Box::new(List::Nil))))
    } else if b == 12 {
        List::Cons(92u8, Box::new(List::Cons(102u8, Box::new(List::Nil))))
    } else if b == 10 {
        List::Cons(92u8, Box::new(List::Cons(110u8, Box::new(List::Nil))))
    } else if b == 13 {
        List::Cons(92u8, Box::new(List::Cons(114u8, Box::new(List::Nil))))
    } else if b == 9 {
        List::Cons(92u8, Box::new(List::Cons(116u8, Box::new(List::Nil))))
    } else if b < 32 {
        List::Cons(
            92u8,
            Box::new(
                List::Cons(
                    117u8,
                    Box::new(
                        List::Cons(
                            48u8,
                            Box::new(
                                List::Cons(
                                    48u8,
                                    Box::new(
                                        List::Cons(
                                            hex_digit(b / 16),
                                            Box::new(
                                                List::Cons(hex_digit(b % 16), Box::new(List::Nil)),
                                            ),
                                        ),
                                    ),
                                ),
                            ),
                        ),
                    ),
                ),
            ),
        )
    } else {
        List::Cons(b, Box::new(List::Nil))
    }
}

fn escape(s: &List<u8>) -> (r: List<u8>)
    ensures
        r == s_escape(*s),
    decreases s,
{
    match s {
        List::Nil => List::Nil,
        List::Cons(b, rest) => crate::syntax::append(escape_byte(*b), escape(&**rest)),
    }
}

/// The text of a shown text literal: the fragment escaped and wrapped in
/// double quotes, per the language's escape rules.
pub open spec fn s_text_show(s: List<u8>) -> List<u8> {
    List::Cons(34u8, Box::new(lappend(s_escape(s), List::Cons(34u8, Box::new(List::Nil)))))
}

pub fn text_show(s: &List<u8>) -> (r: List<u8>)
    ensures
        r == s_text_show(*s),
{
    let escaped = escape(s);
    let quoted = crate::syntax::append(escaped, List::Cons(34u8, Box::new(List::Nil)));
    List::Cons(34u8, Box::new(quoted))
}

} // verus!
