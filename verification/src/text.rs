//! Small text helpers shared by the vault and the validation rules.

use vstd::prelude::*;

verus! {

/// The characters that remain after leading and trailing whitespace is cut.
pub uninterp spec fn trimmed(s: Seq<char>) -> Seq<char>;

/// A string is blank when nothing but whitespace remains of it.
pub open spec fn is_blank(s: Seq<char>) -> bool {
    trimmed(s).len() == 0
}

/// Relies on str::trim: cuts leading and trailing whitespace, a function of
/// the characters alone; an empty string stays empty.
#[verifier::external_body]
pub(crate) fn trim(s: &str) -> (r: &str)
    ensures
        r@ == trimmed(s@),
        r@.len() <= s@.len(),
{
    s.trim()
}

/// The string's length in UTF-8 bytes.
pub fn byte_len(s: &str) -> (r: usize)
    ensures
        r == vstd::utf8::encode_utf8(s@).len(),
{
    s.as_bytes().len()
}

/// Whether nothing but whitespace remains of the string.
pub fn str_is_blank(s: &str) -> (r: bool)
    ensures
        r == is_blank(s@),
{
    trim(s).is_empty()
}

/// Relies on String::push: appends one character to the string.
pub assume_specification[ String::push ](s: &mut String, c: char)
    ensures
        final(s)@ == old(s)@.push(c),
;

/// The decimal digit character of a value below ten.
pub open spec fn spec_digit_char(d: nat) -> char {
    if d == 0 {
        '0'
    } else if d == 1 {
        '1'
    } else if d == 2 {
        '2'
    } else if d == 3 {
        '3'
    } else if d == 4 {
        '4'
    } else if d == 5 {
        '5'
    } else if d == 6 {
        '6'
    } else if d == 7 {
        '7'
    } else if d == 8 {
        '8'
    } else {
        '9'
    }
}

/// The decimal rendering of a number, most significant digit first.
pub open spec fn dec_digits(n: nat) -> Seq<char>
    decreases n,
{
    if n < 10 {
        seq![spec_digit_char(n)]
    } else {
        dec_digits(n / 10).push(spec_digit_char(n % 10))
    }
}

fn digit_char(d: u64) -> (r: char)
    requires
        d < 10,
    ensures
        r == spec_digit_char(d as nat),
{
    match d {
        0 => '0',
        1 => '1',
        2 => '2',
        3 => '3',
        4 => '4',
        5 => '5',
        6 => '6',
        7 => '7',
        8 => '8',
        _ => '9',
    }
}

fn push_dec_digits(out: &mut String, x: u64)
    ensures
        final(out)@ == old(out)@ + dec_digits(x as nat),
    decreases x,
{
    if x < 10 {
        out.push(digit_char(x));
        proof {
            assert(old(out)@.push(spec_digit_char(x as nat)) =~= old(out)@ + dec_digits(
                x as nat,
            ));
        }
    } else {
        push_dec_digits(out, x / 10);
        out.push(digit_char(x % 10));
        proof {
            assert(old(out)@ + dec_digits((x / 10) as nat).push(spec_digit_char((x % 10) as nat))
                =~= old(out)@ + dec_digits(x as nat));
        }
    }
}

/// The decimal rendering of a 32-bit unsigned integer.
pub fn u32_to_string(x: u32) -> (r: String)
    ensures
        r@ == dec_digits(x as nat),
{
    let mut out = String::new();
    push_dec_digits(&mut out, x as u64);
    proof {
        assert(Seq::<char>::empty() + dec_digits(x as nat) =~= dec_digits(x as nat));
    }
    out
}

/// The decimal rendering of a signed integer: a minus sign where it is
/// negative, then the digits of its magnitude.
pub open spec fn dec_str_i64(n: int) -> Seq<char> {
    if n < 0 {
        seq!['-'] + dec_digits((-n) as nat)
    } else {
        dec_digits(n as nat)
    }
}

/// The decimal rendering of a 64-bit signed integer.
pub fn i64_to_string(n: i64) -> (r: String)
    ensures
        r@ == dec_str_i64(n as int),
{
    let mut out = String::new();
    if n >= 0 {
        push_dec_digits(&mut out, n as u64);
        proof {
            assert(Seq::<char>::empty() + dec_digits(n as nat) =~= dec_str_i64(n as int));
        }
    } else {
        out.push('-');
        let magnitude: u64 = if n == i64::MIN {
            9223372036854775808u64
        } else {
            (-n) as u64
        };
        push_dec_digits(&mut out, magnitude);
        proof {
            assert(Seq::<char>::empty().push('-') =~= seq!['-']);
            assert(seq!['-'] + dec_digits(magnitude as nat) =~= dec_str_i64(n as int));
        }
    }
    out
}

/// Whether the character is a decimal digit.
pub open spec fn is_ascii_digit(c: char) -> bool {
    48 <= c as u32 <= 57
}

/// The value of one decimal digit.
pub open spec fn digit_val(c: char) -> nat {
    (c as u32 - 48) as nat
}

/// The value of a string of decimal digits, most significant first.
pub open spec fn digits_val(s: Seq<char>) -> nat
    decreases s.len(),
{
    if s.len() == 0 {
        0
    } else {
        digits_val(s.drop_last()) * 10 + digit_val(s.last())
    }
}

/// Whether every character is a decimal digit.
pub open spec fn all_digits(s: Seq<char>) -> bool {
    forall|i: int| 0 <= i < s.len() ==> is_ascii_digit(#[trigger] s[i])
}

/// The digit region a decimal number parser reads: everything after an
/// optional leading plus sign.
pub open spec fn u32_digits(s: Seq<char>) -> Seq<char> {
    if s.len() > 0 && s[0] == '+' {
        s.drop_first()
    } else {
        s
    }
}

/// Whether the string is an accepted decimal rendering of a 32-bit
/// unsigned integer: an optional plus sign, then one or more digits, the
/// value within range.
pub open spec fn u32_parseable(s: Seq<char>) -> bool {
    u32_digits(s).len() > 0 && all_digits(u32_digits(s)) && digits_val(u32_digits(s))
        <= u32::MAX
}

/// The value the string renders.
pub open spec fn u32_value(s: Seq<char>) -> nat {
    digits_val(u32_digits(s))
}

proof fn lemma_digits_val_prefix(s: Seq<char>, i: int)
    requires
        0 <= i <= s.len(),
    ensures
        digits_val(s.subrange(0, i)) <= digits_val(s),
    decreases s.len() - i,
{
    if i < s.len() {
        lemma_digits_val_prefix(s, i + 1);
        assert(s.subrange(0, i + 1).drop_last() =~= s.subrange(0, i));
        assert(digits_val(s.subrange(0, i + 1)) == digits_val(s.subrange(0, i)) * 10 + digit_val(
            s.subrange(0, i + 1).last(),
        ));
    } else {
        assert(s.subrange(0, i) =~= s);
    }
}

/// Parse a decimal unsigned 32-bit integer the way the standard parser
/// does: an optional leading plus sign, then one or more digits, rejected
/// on any other character or on overflow.
pub fn parse_u32(s: &str) -> (r: Option<u32>)
    ensures
        match r {
            Some(v) => u32_parseable(s@) && v == u32_value(s@),
            None => !u32_parseable(s@),
        },
{
    let n = s.unicode_len();
    let start: usize = if n > 0 && s.get_char(0) == '+' {
        1
    } else {
        0
    };
    proof {
        assert(u32_digits(s@) =~= s@.subrange(start as int, n as int));
    }
    if start >= n {
        return None;
    }
    let mut acc: u32 = 0;
    let mut j: usize = start;
    proof {
        assert(s@.subrange(start as int, start as int) =~= Seq::<char>::empty());
    }
    while j < n
        invariant
            start <= j <= n,
            n == s@.len(),
            u32_digits(s@) == s@.subrange(start as int, n as int),
            all_digits(s@.subrange(start as int, j as int)),
            acc == digits_val(s@.subrange(start as int, j as int)),
        decreases n - j,
    {
        let ghost done = s@.subrange(start as int, j as int);
        let c = s.get_char(j);
        let u = c as u32;
        if u < 48 || u > 57 {
            proof {
                assert(u32_digits(s@)[j - start] == s@[j as int]);
            }
            return None;
        }
        let dv = u - 48;
        proof {
            assert(s@.subrange(start as int, j + 1).drop_last() =~= done);
            assert(digits_val(s@.subrange(start as int, j + 1)) == acc * 10 + dv);
        }
        if acc > (u32::MAX - dv) / 10 {
            proof {
                assert(acc * 10 + dv > u32::MAX) by (nonlinear_arith)
                    requires
                        acc > (u32::MAX - dv) / 10,
                        dv <= 9,
                ;
                lemma_digits_val_prefix(u32_digits(s@), j + 1 - start);
                assert(u32_digits(s@).subrange(0, j + 1 - start) =~= s@.subrange(
                    start as int,
                    j + 1,
                ));
            }
            return None;
        }
        proof {
            assert(acc * 10 + dv <= u32::MAX) by (nonlinear_arith)
                requires
                    acc <= (u32::MAX - dv) / 10,
                    dv <= 9,
            ;
        }
        acc = acc * 10 + dv;
        j += 1;
    }
    proof {
        assert(s@.subrange(start as int, n as int) =~= u32_digits(s@));
    }
    Some(acc)
}

} // verus!
