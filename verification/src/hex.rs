//! Reading a decimal number from text and writing it back as
//! lowercase hexadecimal, at least two digits wide.

use vstd::prelude::*;

verus! {

/// Why a string does not parse as a `u32`.
#[derive(Clone, Copy, Debug, PartialEq, Eq, Structural)]
pub enum ParseError {
    /// The string holds no characters at all.
    Empty,
    /// Some character is not a decimal digit.
    InvalidDigit,
    /// The digits name a value above `u32::MAX`.
    Overflow,
}

/// True of the ten characters `'0'` through `'9'`.
pub open spec fn is_decimal_digit(c: char) -> bool {
    48 <= c as int <= 57
}

/// The numeric value of a decimal digit character.
pub open spec fn digit_value(c: char) -> int
    recommends
        is_decimal_digit(c),
{
    c as int - 48
}

/// True when every character of `s` is a decimal digit.
pub open spec fn all_decimal_digits(s: Seq<char>) -> bool {
    forall|i: int| 0 <= i < s.len() ==> is_decimal_digit(#[trigger] s[i])
}

/// The number the digit string `s` names, most significant digit
/// first.
pub open spec fn decimal_value(s: Seq<char>) -> int
    recommends
        all_decimal_digits(s),
    decreases s.len(),
{
    if s.len() == 0 {
        0
    } else {
        decimal_value(s.drop_last()) * 10 + digit_value(s.last())
    }
}

/// The lowercase hexadecimal digit character for a value below 16.
pub open spec fn hex_digit_char(d: int) -> char
    recommends
        0 <= d < 16,
{
    if d == 0 {
        '0'
    } else if d == 1 {
        '1'
    } else if d == 2 {
        '2'
    } else if d == 3 {
        '3'
    } else if d == 4 {
        '4'
    } else if d == 5 {
        '5'
    } else if d == 6 {
        '6'
    } else if d == 7 {
        '7'
    } else if d == 8 {
        '8'
    } else if d == 9 {
        '9'
    } else if d == 10 {
        'a'
    } else if d == 11 {
        'b'
    } else if d == 12 {
        'c'
    } else if d == 13 {
        'd'
    } else if d == 14 {
        'e'
    } else {
        'f'
    }
}

/// The lowercase hexadecimal digits of `n`, most significant first,
/// with no leading zero except for `n == 0` itself.
pub open spec fn hex_digits(n: int) -> Seq<char>
    recommends
        n >= 0,
    decreases n,
{
    if n < 16 {
        seq![hex_digit_char(n)]
    } else {
        hex_digits(n / 16).push(hex_digit_char(n % 16))
    }
}

/// The hexadecimal digits of `n`, padded with a leading zero to a
/// width of at least two.
pub open spec fn padded_hex(n: int) -> Seq<char> {
    if 0 <= n < 16 {
        seq!['0'] + hex_digits(n)
    } else {
        hex_digits(n)
    }
}

/// Parses `s` as an unsigned decimal number. Succeeds exactly when
/// `s` is nonempty, holds decimal digits only, and names a value
/// that fits a `u32`; each error says which of the three conditions
/// failed.
pub fn parse_u32(s: &str) -> (r: Result<u32, ParseError>)
    ensures
        match r {
            Ok(v) => s@.len() > 0 && all_decimal_digits(s@) && decimal_value(s@) <= u32::MAX && v
                == decimal_value(s@),
            Err(e) => match e {
                ParseError::Empty => s@.len() == 0,
                ParseError::InvalidDigit => s@.len() > 0 && !all_decimal_digits(s@),
                ParseError::Overflow => s@.len() > 0 && all_decimal_digits(s@) && decimal_value(s@)
                    > u32::MAX,
            },
        },
{
    let n = s.unicode_len();
    if n == 0 {
        return Err(ParseError::Empty);
    }
    let mut acc: u32 = 0;
    let mut over = false;
    let mut i: usize = 0;
    while i < n
        invariant
            i <= n,
            n == s@.len(),
            all_decimal_digits(s@.subrange(0, i as int)),
            !over ==> acc == decimal_value(s@.subrange(0, i as int)),
            over ==> decimal_value(s@.subrange(0, i as int)) > u32::MAX,
        decreases n - i,
    {
        let c = s.get_char(i);
        let cv = c as u32;
        if cv < 48 || cv > 57 {
            proof {
                assert(!is_decimal_digit(s@[i as int]));
            }
            return Err(ParseError::InvalidDigit);
        }
        let d = cv - 48;
        proof {
            assert(s@.subrange(0, i + 1).drop_last() =~= s@.subrange(0, i as int));
            assert(s@.subrange(0, i + 1).last() == s@[i as int]);
        }
        if !over {
            let wide = (acc as u64) * 10 + (d as u64);
            if wide > 0xffff_ffff {
                over = true;
            } else {
                acc = wide as u32;
            }
        }
        i = i + 1;
    }
    proof {
        assert(s@.subrange(0, n as int) =~= s@);
    }
    if over {
        Err(ParseError::Overflow)
    } else {
        Ok(acc)
    }
}

/// The one-character string for a hexadecimal digit.
fn hex_digit_str(d: u32) -> (r: &'static str)
    requires
        d < 16,
    ensures
        r@ == seq![hex_digit_char(d as int)],
{
    let r: &'static str = match d {
        0 => "0",
        1 => "1",
        2 => "2",
        3 => "3",
        4 => "4",
        5 => "5",
        6 => "6",
        7 => "7",
        8 => "8",
        9 => "9",
        10 => "a",
        11 => "b",
        12 => "c",
        13 => "d",
        14 => "e",
        _ => "f",
    };
    proof {
        reveal_strlit("0");
        reveal_strlit("1");
        reveal_strlit("2");
        reveal_strlit("3");
        reveal_strlit("4");
        reveal_strlit("5");
        reveal_strlit("6");
        reveal_strlit("7");
        reveal_strlit("8");
        reveal_strlit("9");
        reveal_strlit("a");
        reveal_strlit("b");
        reveal_strlit("c");
        reveal_strlit("d");
        reveal_strlit("e");
        reveal_strlit("f");
        assert(r@ =~= seq![hex_digit_char(d as int)]);
    }
    r
}

/// Appends the hexadecimal digits of `v` to `out`.
fn push_hex_digits(v: u32, out: &mut String)
    ensures
        final(out)@ == old(out)@ + hex_digits(v as int),
    decreases v,
{
    if v < 16 {
        out.append(hex_digit_str(v));
        assert(out@ =~= old(out)@ + hex_digits(v as int));
    } else {
        push_hex_digits(v / 16, out);
        out.append(hex_digit_str(v % 16));
        assert(out@ =~= old(out)@ + hex_digits(v as int));
    }
}

/// Parses `input` as an unsigned decimal number and renders the value
/// as lowercase hexadecimal, padded with a leading zero to at least
/// two digits; the errors are those of [`parse_u32`].
pub fn as_hex_string(input: &str) -> (r: Result<String, ParseError>)
    ensures
        match r {
            Ok(h) => input@.len() > 0 && all_decimal_digits(input@) && decimal_value(input@)
                <= u32::MAX && h@ == padded_hex(decimal_value(input@)),
            Err(e) => match e {
                ParseError::Empty => input@.len() == 0,
                ParseError::InvalidDigit => input@.len() > 0 && !all_decimal_digits(input@),
                ParseError::Overflow => input@.len() > 0 && all_decimal_digits(input@)
                    && decimal_value(input@) > u32::MAX,
            },
        },
{
    let value = match parse_u32(input) {
        Ok(v) => v,
        Err(e) => {
            return Err(e);
        },
    };
    let mut out = String::new();
    proof {
        assert(out@ =~= Seq::<char>::empty());
    }
    if value < 16 {
        let zero = hex_digit_str(0);
        out.append(zero);
    }
    push_hex_digits(value, &mut out);
    proof {
        assert(out@ =~= padded_hex(value as int));
    }
    Ok(out)
}

} // verus!
