//! Parsing of a textual color triple `"r,g,b"`.
//!
//! The string is split on commas; exactly three parts are required. Each
//! part is read as a decimal byte, and a part that does not parse as one
//! contributes a zero channel — a deliberately forgiving reading, not an
//! input-validation guarantee.

use crate::errors::Error;
use crate::report::Color;
use vstd::prelude::*;
use vstd::string::StrSliceExecFns;

verus! {

/// A decimal digit.
pub open spec fn is_digit(c: char) -> bool {
    '0' <= c && c <= '9'
}

/// Every character is a decimal digit.
pub open spec fn all_digits(s: Seq<char>) -> bool {
    forall|i: int| 0 <= i < s.len() ==> is_digit(s[i])
}

/// Numeric value of a digit string, most significant digit first.
pub open spec fn digits_value(s: Seq<char>) -> int
    decreases s.len(),
{
    if s.len() == 0 {
        0
    } else {
        digits_value(s.drop_last()) * 10 + (s.last() as int - 48)
    }
}

/// A byte read from decimal text: an optional leading plus sign, then at
/// least one digit, with a value that fits in a byte.
pub open spec fn spec_parse_u8(s: Seq<char>) -> Option<u8> {
    let digits = if s.len() > 0 && s[0] == '+' {
        s.skip(1)
    } else {
        s
    };
    if digits.len() > 0 && all_digits(digits) && digits_value(digits) <= 255 {
        Some(digits_value(digits) as u8)
    } else {
        None
    }
}

/// The channel a part contributes: its value, or zero where it does not
/// parse.
pub open spec fn channel_value(s: Seq<char>) -> u8 {
    match spec_parse_u8(s) {
        Some(v) => v,
        None => 0,
    }
}

/// The comma-separated parts of a string: always at least one part, and
/// empty parts are kept.
pub open spec fn split_commas(s: Seq<char>) -> Seq<Seq<char>>
    decreases s.len(),
{
    if s.len() == 0 {
        seq![Seq::empty()]
    } else if s[0] == ',' {
        seq![Seq::<char>::empty()] + split_commas(s.skip(1))
    } else {
        let rest = split_commas(s.skip(1));
        seq![seq![s[0]] + rest[0]] + rest.skip(1)
    }
}

/// Splitting never yields an empty list of parts.
pub proof fn lemma_split_commas_nonempty(s: Seq<char>)
    ensures
        split_commas(s).len() >= 1,
    decreases s.len(),
{
    if s.len() > 0 {
        lemma_split_commas_nonempty(s.skip(1));
    }
}

/// The color a string denotes: defined exactly when it splits into three
/// comma-separated parts.
pub open spec fn spec_parse_color(s: Seq<char>) -> Option<Color> {
    let parts = split_commas(s);
    if parts.len() == 3 {
        Some(
            Color {
                red: channel_value(parts[0]),
                green: channel_value(parts[1]),
                blue: channel_value(parts[2]),
            },
        )
    } else {
        None
    }
}

/// The characters of a string, in order.
fn str_chars(s: &str) -> (r: Vec<char>)
    ensures
        r@ == s@,
{
    let n = s.unicode_len();
    let mut r: Vec<char> = Vec::new();
    let mut i: usize = 0;
    while i < n
        invariant
            i <= n,
            n == s@.len(),
            r@ == s@.take(i as int),
        decreases n - i,
    {
        r.push(s.get_char(i));
        assert(s@.take(i + 1) =~= s@.take(i as int).push(s@[i as int]));
        i = i + 1;
    }
    assert(s@.take(n as int) =~= s@);
    r
}

/// The comma-separated parts of `s` from position `from` on.
fn split_commas_exec(s: &Vec<char>, from: usize) -> (r: Vec<Vec<char>>)
    requires
        from <= s@.len(),
    ensures
        r@.map_values(|p: Vec<char>| p@) == split_commas(s@.skip(from as int)),
    decreases s@.len() - from,
{
    let ghost whole = s@.skip(from as int);
    if from == s.len() {
        let mut r: Vec<Vec<char>> = Vec::new();
        r.push(Vec::new());
        assert(r@.map_values(|p: Vec<char>| p@) =~= split_commas(whole));
        r
    } else if s[from] == ',' {
        let mut r = split_commas_exec(s, from + 1);
        r.insert(0, Vec::new());
        proof {
            assert(s@.skip(from + 1) =~= whole.skip(1));
            assert(r@.map_values(|p: Vec<char>| p@) =~= split_commas(whole));
        }
        r
    } else {
        let mut r = split_commas_exec(s, from + 1);
        proof {
            assert(s@.skip(from + 1) =~= whole.skip(1));
            lemma_split_commas_nonempty(s@.skip(from + 1));
            assert(r@.map_values(|p: Vec<char>| p@).len() >= 1);
        }
        let mut first = r.remove(0);
        first.insert(0, s[from]);
        r.insert(0, first);
        proof {
            let rest = split_commas(whole.skip(1));
            assert(first@ =~= seq![whole[0]] + rest[0]);
            assert(r@.map_values(|p: Vec<char>| p@) =~= seq![seq![whole[0]] + rest[0]]
                + rest.skip(1));
            assert(r@.map_values(|p: Vec<char>| p@) =~= split_commas(whole));
        }
        r
    }
}

/// A digit string's value only grows as more digits are read.
proof fn lemma_digits_value_take_le(s: Seq<char>, k: int)
    requires
        all_digits(s),
        0 <= k <= s.len(),
    ensures
        0 <= digits_value(s.take(k)) <= digits_value(s),
    decreases s.len() - k,
{
    if k == s.len() {
        assert(s.take(k) =~= s);
        lemma_digits_value_nonneg(s);
    } else {
        assert(s.take(k + 1).drop_last() =~= s.take(k));
        assert(all_digits(s.take(k)));
        lemma_digits_value_nonneg(s.take(k));
        lemma_digits_value_take_le(s, k + 1);
    }
}

/// A digit string's value is never negative.
proof fn lemma_digits_value_nonneg(s: Seq<char>)
    requires
        all_digits(s),
    ensures
        digits_value(s) >= 0,
    decreases s.len(),
{
    if s.len() > 0 {
        assert(all_digits(s.drop_last()));
        lemma_digits_value_nonneg(s.drop_last());
    }
}

/// Reads one part as a decimal byte; a part that does not parse contributes
/// zero.
fn parse_u8_or_zero(part: &Vec<char>) -> (r: u8)
    ensures
        r == channel_value(part@),
{
    let start: usize = if part.len() > 0 && part[0] == '+' {
        1
    } else {
        0
    };
    let ghost digits = part@.skip(start as int);
    assert(digits =~= if part@.len() > 0 && part@[0] == '+' {
        part@.skip(1)
    } else {
        part@
    });
    if start == part.len() {
        // No digits at all.
        return 0;
    }
    let mut val: u32 = 0;
    let mut i: usize = start;
    while i < part.len()
        invariant
            start <= i <= part@.len(),
            (part@.len() > 0 && part@[0] == '+') ==> start == 1,
            !(part@.len() > 0 && part@[0] == '+') ==> start == 0,
            digits == part@.skip(start as int),
            digits == (if part@.len() > 0 && part@[0] == '+' {
                part@.skip(1)
            } else {
                part@
            }),
            all_digits(digits.take(i - start)),
            val == digits_value(digits.take(i - start)),
            val <= 255,
        decreases part@.len() - i,
    {
        let c = part[i];
        if c < '0' || c > '9' {
            // A non-digit character: the whole part is unparseable.
            assert(!is_digit(digits[i - start]));
            return 0;
        }
        let d = (c as u32) - 48;
        proof {
            assert(digits.take(i - start + 1).drop_last() =~= digits.take(i - start));
            assert(digits.take(i - start + 1).last() == digits[i - start]);
        }
        val = val * 10 + d;
        if val > 255 {
            // The value has outgrown a byte; reading more digits can only
            // grow it further.
            proof {
                let k = i - start + 1;
                assert(all_digits(digits.take(k)));
                if all_digits(digits) {
                    lemma_digits_value_take_le(digits, k);
                }
            }
            return 0;
        }
        i = i + 1;
    }
    assert(digits.take(part@.len() - start) =~= digits);
    val as u8
}

impl Color {
    /// Parses `"r,g,b"`: exactly three comma-separated decimal channels.
    /// A string with the wrong number of parts is rejected before any device
    /// I/O; a part that is not a decimal byte yields a zero channel.
    pub fn parse(color_str: &str) -> (r: Result<Color, Error>)
        ensures
            (r matches Ok(c) ==> spec_parse_color(color_str@) == Some(c)),
            (r matches Err(e) ==> e == Error::InvalidColorFormat && spec_parse_color(color_str@)
                is None),
    {
        let chars = str_chars(color_str);
        let parts = split_commas_exec(&chars, 0);
        assert(chars@.skip(0) =~= chars@);
        let ghost spec_parts = split_commas(color_str@);
        assert(parts@.map_values(|p: Vec<char>| p@) == spec_parts);
        if parts.len() != 3 {
            return Err(Error::InvalidColorFormat);
        }
        let red = parse_u8_or_zero(&parts[0]);
        let green = parse_u8_or_zero(&parts[1]);
        let blue = parse_u8_or_zero(&parts[2]);
        assert(parts@[0]@ == spec_parts[0] && parts@[1]@ == spec_parts[1] && parts@[2]@
            == spec_parts[2]);
        Ok(Color { red, green, blue })
    }
}

} // verus!
