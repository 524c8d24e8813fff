use vstd::prelude::*;

verus! {

/// Whether `c` is one of the characters `'0'` through `'9'`.
pub open spec fn is_ascii_digit_char(c: char) -> bool {
    48 <= c as u32 <= 57
}

/// The numeric value of a digit character.
pub open spec fn digit_value(c: char) -> int {
    c as u32 - 48
}

/// Whether every character of `s` is a decimal digit.
pub open spec fn all_ascii_digits(s: Seq<char>) -> bool {
    forall|i: int| 0 <= i < s.len() ==> is_ascii_digit_char(s[i])
}

/// The value of `s` read as a decimal numeral, most significant digit
/// first.
pub open spec fn digits_value(s: Seq<char>) -> int
    decreases s.len(),
{
    if s.len() == 0 {
        0
    } else {
        digits_value(s.drop_last()) * 10 + digit_value(s.last())
    }
}

/// `s` is a valid numeral: non-empty, all decimal digits, and its value
/// fits in a `usize`.
pub open spec fn numeric(s: Seq<char>) -> bool {
    s.len() > 0 && all_ascii_digits(s) && digits_value(s) <= usize::MAX
}

pub proof fn lemma_digits_value_nonneg(s: Seq<char>)
    requires
        all_ascii_digits(s),
    ensures
        digits_value(s) >= 0,
    decreases s.len(),
{
    if s.len() > 0 {
        assert forall|i: int| 0 <= i < s.len() - 1 implies is_ascii_digit_char(
            s.drop_last()[i],
        ) by {
            assert(s.drop_last()[i] == s[i]);
        }
        lemma_digits_value_nonneg(s.drop_last());
    }
}

/// Reading a longer prefix of a numeral never decreases its value.
pub proof fn lemma_digits_value_prefix(s: Seq<char>, i: int)
    requires
        all_ascii_digits(s),
        0 <= i <= s.len(),
    ensures
        digits_value(s.take(i)) <= digits_value(s),
    decreases s.len() - i,
{
    if i < s.len() {
        lemma_digits_value_prefix(s, i + 1);
        let p = s.take(i + 1);
        assert(p.drop_last() =~= s.take(i));
        assert forall|k: int| 0 <= k < i implies is_ascii_digit_char(s.take(i)[k]) by {
            assert(s.take(i)[k] == s[k]);
        }
        lemma_digits_value_nonneg(s.take(i));
        assert(digits_value(p) == digits_value(s.take(i)) * 10 + digit_value(p.last()));
        assert(is_ascii_digit_char(s[i]));
        assert(digits_value(s.take(i)) * 10 >= digits_value(s.take(i)));
    } else {
        assert(s.take(i) =~= s);
    }
}

/// Reads `s` as a decimal `usize`.  Returns `Some` exactly when `s` is
/// non-empty, holds only the digits `'0'` through `'9'`, and its value fits;
/// the result is then that value.
pub fn parse_usize(s: &str) -> (r: Option<usize>)
    ensures
        r is Some <==> numeric(s@),
        r matches Some(v) ==> v == digits_value(s@),
{
    let n = s.unicode_len();
    if n == 0 {
        return None;
    }
    let mut acc: usize = 0;
    let mut i: usize = 0;
    while i < n
        invariant
            n == s@.len(),
            0 < n,
            i <= n,
            all_ascii_digits(s@.take(i as int)),
            acc == digits_value(s@.take(i as int)),
        decreases n - i,
    {
        let c = s.get_char(i);
        let u = c as u32;
        if u < 48 || u > 57 {
            proof {
                assert(s@[i as int] == c);
                assert(!is_ascii_digit_char(c));
                assert(!all_ascii_digits(s@));
            }
            return None;
        }
        let d = (u - 48) as usize;
        let limit = (usize::MAX - d) / 10;
        proof {
            assert(s@.take(i as int + 1).drop_last() =~= s@.take(i as int));
            assert(s@.take(i as int + 1).last() == s@[i as int]);
            assert forall|k: int| 0 <= k < i as int + 1 implies #[trigger] is_ascii_digit_char(
                s@.take(i as int + 1)[k],
            ) by {
                assert(s@.take(i as int + 1)[k] == s@[k]);
                if k < i as int {
                    assert(is_ascii_digit_char(s@.take(i as int)[k]));
                    assert(s@.take(i as int)[k] == s@[k]);
                } else {
                    assert(s@[k] == c);
                }
            }
            assert(digits_value(s@.take(i as int + 1)) == acc * 10 + d);
        }
        if acc > limit {
            proof {
                let m = usize::MAX as int;
                vstd::arithmetic::div_mod::lemma_fundamental_div_mod(m - d, 10);
                assert(acc * 10 >= (limit as int + 1) * 10);
                assert((limit as int + 1) * 10 > m - d);
                assert(acc * 10 + d > m);
                if all_ascii_digits(s@) {
                    lemma_digits_value_prefix(s@, i as int + 1);
                }
                assert(!numeric(s@));
            }
            return None;
        }
        proof {
            let m = usize::MAX as int;
            vstd::arithmetic::div_mod::lemma_fundamental_div_mod(m - d, 10);
            assert(acc * 10 <= limit * 10);
            assert(limit * 10 <= m - d);
        }
        acc = acc * 10 + d;
        i += 1;
    }
    proof {
        assert(s@.take(n as int) =~= s@);
    }
    Some(acc)
}

} // verus!
