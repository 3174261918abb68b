//! Parsing of the decimal-string-encoded numbers that the search
//! collaborator sends.
//!
//! Every numeric field arrives as decimal text and is parsed as the
//! number it spells: identifiers and floors as integers here, the two
//! coordinates as numbers whose raw bit pattern the pipeline carries
//! onward; a string that spells no number is a hard translation
//! error.

use vstd::prelude::*;

verus! {

/// The ten ASCII digits.
pub open spec fn is_dec_digit(c: char) -> bool {
    48 <= (c as u32) <= 57
}

/// Numeric value of one digit.
pub open spec fn dec_digit_val(c: char) -> nat {
    ((c as u32) - 48) as nat
}

/// Every character of `s` is a digit.
pub open spec fn all_dec_digits(s: Seq<char>) -> bool {
    forall|i: int| 0 <= i < s.len() ==> is_dec_digit(#[trigger] s[i])
}

/// Value of a digit string, most significant digit first.
pub open spec fn dec_val(s: Seq<char>) -> nat
    decreases s.len(),
{
    if s.len() == 0 {
        0
    } else {
        dec_val(s.drop_last()) * 10 + dec_digit_val(s.last())
    }
}

/// `s` spells an unsigned decimal number.
pub open spec fn is_dec_nat(s: Seq<char>) -> bool {
    s.len() > 0 && all_dec_digits(s)
}

/// `s` spells a decimal integer: digits, behind an optional minus sign.
pub open spec fn is_dec_int(s: Seq<char>) -> bool {
    if s.len() > 0 && s[0] == '-' {
        s.len() > 1 && all_dec_digits(s.drop_first())
    } else {
        is_dec_nat(s)
    }
}

/// Value of a decimal integer string.
pub open spec fn dec_ival(s: Seq<char>) -> int {
    if s.len() > 0 && s[0] == '-' {
        -(dec_val(s.drop_first()) as int)
    } else {
        dec_val(s) as int
    }
}

/// Growing a digit string never shrinks its value.
proof fn lemma_dec_val_prefix_mono(s: Seq<char>, i: int, j: int)
    requires
        0 <= i <= j <= s.len(),
    ensures
        dec_val(s.subrange(0, j)) >= dec_val(s.subrange(0, i)),
    decreases j - i,
{
    if i < j {
        lemma_dec_val_prefix_mono(s, i, j - 1);
        assert(s.subrange(0, j).drop_last() =~= s.subrange(0, j - 1));
        assert(dec_val(s.subrange(0, j)) == dec_val(s.subrange(0, j - 1)) * 10 + dec_digit_val(
            s.subrange(0, j).last(),
        ));
    }
}

/// Reads an unsigned decimal number.  Succeeds exactly on non-empty
/// digit strings whose value fits a `u64`, and then returns that value.
pub fn parse_u64_dec(s: &str) -> (r: Option<u64>)
    ensures
        r is Some <==> (is_dec_nat(s@) && dec_val(s@) <= u64::MAX),
        r matches Some(v) ==> v == dec_val(s@),
{
    let n = s.unicode_len();
    if n == 0 {
        return Option::None;
    }
    let mut acc: u64 = 0;
    let mut i: usize = 0;
    while i < n
        invariant
            0 <= i <= n,
            n == s@.len(),
            all_dec_digits(s@.subrange(0, i as int)),
            acc == dec_val(s@.subrange(0, i as int)),
        decreases n - i,
    {
        let c = s.get_char(i);
        let cu = c as u32;
        if cu < 48 || cu > 57 {
            assert(!is_dec_digit(s@[i as int]));
            return Option::None;
        }
        let d = (cu - 48) as u64;
        if acc > (u64::MAX - d) / 10 {
            proof {
                let t = s@.subrange(0, i as int + 1);
                assert(t.drop_last() =~= s@.subrange(0, i as int));
                assert(t.last() == s@[i as int]);
                let m = (u64::MAX - d) as int;
                assert(m == (m / 10) * 10 + m % 10) by {
                    vstd::arithmetic::div_mod::lemma_fundamental_div_mod(m, 10);
                }
                assert(dec_val(t) > u64::MAX);
                lemma_dec_val_prefix_mono(s@, i as int + 1, s@.len() as int);
                assert(s@.subrange(0, s@.len() as int) =~= s@);
            }
            return Option::None;
        }
        proof {
            let m = (u64::MAX - d) as int;
            assert(m == (m / 10) * 10 + m % 10) by {
                vstd::arithmetic::div_mod::lemma_fundamental_div_mod(m, 10);
            }
        }
        acc = acc * 10 + d;
        proof {
            let t = s@.subrange(0, i as int + 1);
            assert(t.drop_last() =~= s@.subrange(0, i as int));
            assert(t.last() == s@[i as int]);
        }
        i = i + 1;
    }
    proof {
        assert(s@.subrange(0, n as int) =~= s@);
    }
    Option::Some(acc)
}

/// Reads a signed decimal number.  Succeeds exactly on decimal integer
/// strings whose value fits an `i32`, and then returns that value.
pub fn parse_i32_dec(s: &str) -> (r: Option<i32>)
    ensures
        r is Some <==> (is_dec_int(s@) && i32::MIN <= dec_ival(s@) <= i32::MAX),
        r matches Some(v) ==> v == dec_ival(s@),
{
    let n = s.unicode_len();
    if n == 0 {
        return Option::None;
    }
    let c0 = s.get_char(0);
    if c0 == '-' {
        let rest = s.substring_char(1, n);
        proof {
            assert(rest@ =~= s@.drop_first());
        }
        match parse_u64_dec(rest) {
            Option::Some(m) => {
                if m <= 0x8000_0000u64 {
                    Option::Some((-(m as i64)) as i32)
                } else {
                    Option::None
                }
            },
            Option::None => {
                proof {
                    if is_dec_nat(rest@) {
                        // the magnitude overflows a u64, so it is far
                        // beyond the i32 range
                        assert(dec_val(rest@) > u64::MAX);
                    }
                }
                Option::None
            },
        }
    } else {
        match parse_u64_dec(s) {
            Option::Some(m) => {
                if m <= 0x7FFF_FFFFu64 {
                    Option::Some(m as i32)
                } else {
                    Option::None
                }
            },
            Option::None => {
                proof {
                    if is_dec_nat(s@) {
                        assert(dec_val(s@) > u64::MAX);
                    }
                }
                Option::None
            },
        }
    }
}

/// The raw bit pattern of the number a decimal coordinate string
/// spells, when it spells one.  Which bit pattern a given string
/// parses to takes the whole floating-point reading to state, and is
/// a function of the string alone, so it stands under this name.
pub uninterp spec fn coord_bits_of_decimal(s: Seq<char>) -> Option<u64>;

/// Relies on serde_json's from_str and Value::as_f64: reads the
/// number a decimal coordinate string spells and hands its raw bit
/// pattern on; `None` when the string spells no number.  The answer
/// depends on the string alone.
#[verifier::external_body]
pub(crate) fn parse_coord_bits(s: &str) -> (r: Option<u64>)
    ensures
        r == coord_bits_of_decimal(s@),
{
    let v: serde_json::Value = match serde_json::from_str(s) {
        Ok(v) => v,
        Err(_) => return None,
    };
    v.as_f64().map(|f| f.to_bits())
}

} // verus!
