//! Plain-text helpers: decimal parsing of platform snowflake IDs and the
//! naming rules for command arguments.

use vstd::prelude::*;

verus! {

/// Whether `c` is an ASCII decimal digit.
pub open spec fn spec_is_digit(c: char) -> bool {
    48 <= c as u32 <= 57
}

/// The numeric value of the ASCII digit `c`.
pub open spec fn spec_digit_val(c: char) -> int {
    c as u32 - 48
}

/// Whether every character of `s` is an ASCII decimal digit.
pub open spec fn spec_all_digits(s: Seq<char>) -> bool {
    forall|i: int| 0 <= i < s.len() ==> spec_is_digit(#[trigger] s[i])
}

/// The value of the digit string `s`, read most significant digit first.
pub open spec fn spec_dec_val(s: Seq<char>) -> int
    decreases s.len(),
{
    if s.len() == 0 {
        0
    } else {
        spec_dec_val(s.drop_last()) * 10 + spec_digit_val(s.last())
    }
}

/// The value of an unsigned decimal string as `str::parse::<u64>` reads it:
/// an optional leading `+`, then at least one digit, and the value must fit.
pub open spec fn spec_parse_u64(s: Seq<char>) -> Option<u64> {
    let digits = if s.len() > 0 && s[0] == '+' {
        s.drop_first()
    } else {
        s
    };
    if digits.len() == 0 || !spec_all_digits(digits) || spec_dec_val(digits) > u64::MAX {
        None
    } else {
        Some(spec_dec_val(digits) as u64)
    }
}

proof fn lemma_dec_val_nonneg(s: Seq<char>)
    requires
        spec_all_digits(s),
    ensures
        spec_dec_val(s) >= 0,
    decreases s.len(),
{
    if s.len() > 0 {
        assert(spec_all_digits(s.drop_last())) by {
            assert(forall|i: int|
                0 <= i < s.drop_last().len() ==> #[trigger] s.drop_last()[i] == s[i]);
        }
        lemma_dec_val_nonneg(s.drop_last());
    }
}

proof fn lemma_dec_val_prefix(s: Seq<char>, i: int)
    requires
        spec_all_digits(s),
        0 <= i <= s.len(),
    ensures
        spec_dec_val(s) >= spec_dec_val(s.take(i)),
    decreases s.len() - i,
{
    if i < s.len() {
        assert(s.take(i + 1).drop_last() =~= s.take(i));
        assert(spec_all_digits(s.take(i))) by {
            assert(forall|j: int| 0 <= j < s.take(i).len() ==> #[trigger] s.take(i)[j] == s[j]);
        }
        lemma_dec_val_nonneg(s.take(i));
        assert(spec_dec_val(s.take(i + 1)) == spec_dec_val(s.take(i)) * 10 + spec_digit_val(
            s.take(i + 1).last(),
        ));
        assert(spec_is_digit(s[i]));
        assert(spec_dec_val(s.take(i)) * 10 >= spec_dec_val(s.take(i))) by (nonlinear_arith)
            requires
                spec_dec_val(s.take(i)) >= 0,
        ;
        lemma_dec_val_prefix(s, i + 1);
    } else {
        assert(s.take(i) =~= s);
    }
}

/// Parse `s` as an unsigned 64-bit decimal number, exactly as
/// `str::parse::<u64>` does: an optional leading `+`, then one or more
/// ASCII digits, rejecting anything else and values that do not fit.
pub fn parse_u64(s: &str) -> (r: Option<u64>)
    ensures
        r == spec_parse_u64(s@),
{
    let len: usize = s.unicode_len();
    let start: usize = if len > 0 && s.get_char(0) == '+' {
        1
    } else {
        0
    };
    let ghost digits: Seq<char> = s@.subrange(start as int, len as int);
    proof {
        if s@.len() > 0 && s@[0] == '+' {
            assert(digits =~= s@.drop_first());
        } else {
            assert(digits =~= s@);
        }
    }
    if start == len {
        return None;
    }
    let mut value: u64 = 0;
    let mut i: usize = start;
    while i < len
        invariant
            start <= i <= len,
            len == s@.len(),
            start == 0 || start == 1,
            digits == s@.subrange(start as int, len as int),
            digits == (if s@.len() > 0 && s@[0] == '+' {
                s@.drop_first()
            } else {
                s@
            }),
            spec_all_digits(digits.take(i - start)),
            value == spec_dec_val(digits.take(i - start)),
        decreases len - i,
    {
        let c = s.get_char(i);
        let cu: u32 = c as u32;
        if cu < 48 || cu > 57 {
            proof {
                assert(digits[i - start] == c);
                assert(!spec_is_digit(digits[i - start]));
                assert(!spec_all_digits(digits));
            }
            return None;
        }
        let d: u64 = (cu - 48) as u64;
        if value > (u64::MAX - d) / 10 {
            proof {
                assert(digits.take(i - start + 1).drop_last() =~= digits.take(i - start));
                assert(digits.take(i - start + 1).last() == c);
                assert(spec_dec_val(digits.take(i - start + 1)) == value * 10 + d);
                assert(value * 10 + d > u64::MAX) by (nonlinear_arith)
                    requires
                        value > (u64::MAX - d) / 10,
                        0 <= d <= 9,
                ;
                if spec_all_digits(digits) {
                    lemma_dec_val_prefix(digits, i - start + 1);
                }
            }
            return None;
        }
        proof {
            assert(value * 10 + d <= u64::MAX) by (nonlinear_arith)
                requires
                    value <= (u64::MAX - d) / 10,
                    0 <= d <= 9,
            ;
            assert(digits.take(i - start + 1).drop_last() =~= digits.take(i - start));
            assert(digits.take(i - start + 1).last() == c);
        }
        value = value * 10 + d;
        i = i + 1;
    }
    proof {
        assert(digits.take(len - start) =~= digits);
    }
    Some(value)
}

/// The kebab-case spelling of a snake_case identifier: each underscore
/// becomes a dash, every other character is kept.
pub open spec fn spec_kebab(s: Seq<char>) -> Seq<char> {
    s.map_values(
        |c: char|
            if c == '_' {
                '-'
            } else {
                c
            },
    )
}

/// Rewrite a snake_case identifier in kebab-case, replacing each
/// underscore with a dash, as command names are spelled on the platform.
pub fn to_kebab_case(s: &str) -> (r: String)
    ensures
        r@ == spec_kebab(s@),
{
    let len: usize = s.unicode_len();
    let mut r = String::new();
    let mut i: usize = 0;
    while i < len
        invariant
            0 <= i <= len,
            len == s@.len(),
            r@ == spec_kebab(s@.take(i as int)),
        decreases len - i,
    {
        let c = s.get_char(i);
        if c == '_' {
            r.append("-");
            proof {
                reveal_strlit("-");
            }
        } else {
            let piece = s.substring_char(i, i + 1);
            r.append(piece);
        }
        proof {
            assert(spec_kebab(s@.take(i + 1)) =~= spec_kebab(s@.take(i as int)) + spec_kebab(
                s@.subrange(i as int, i + 1),
            ));
            assert(s@.subrange(i as int, i + 1) =~= seq![s@[i as int]]);
        }
        i = i + 1;
    }
    proof {
        assert(s@.take(len as int) =~= s@);
    }
    r
}

/// Whether `s` is a well-formed argument name on the platform:
/// nothing but lower-case ASCII letters and dashes.
pub open spec fn spec_valid_option_name(s: Seq<char>) -> bool {
    forall|i: int|
        0 <= i < s.len() ==> ((97 <= #[trigger] s[i] as u32 <= 122) || s[i] == '-')
}

/// Check that `s` holds only lower-case ASCII letters and dashes, the
/// rule the platform imposes on command argument names.
pub fn is_valid_option_name(s: &str) -> (r: bool)
    ensures
        r == spec_valid_option_name(s@),
{
    let len: usize = s.unicode_len();
    let mut i: usize = 0;
    while i < len
        invariant
            0 <= i <= len,
            len == s@.len(),
            forall|j: int|
                0 <= j < i ==> ((97 <= #[trigger] s@[j] as u32 <= 122) || s@[j] == '-'),
        decreases len - i,
    {
        let c = s.get_char(i);
        let cu: u32 = c as u32;
        if !(97 <= cu && cu <= 122) && c != '-' {
            return false;
        }
        i = i + 1;
    }
    true
}

} // verus!
