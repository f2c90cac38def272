//! Reading whole numbers out of JSON number texts.
use vstd::prelude::*;
use crate::text::{decimal, decimal2, digit_char};

verus! {

/// An ASCII decimal digit.
pub open spec fn is_digit(c: char) -> bool {
    '0' <= c && c <= '9'
}

/// The value of a digit character.
pub open spec fn dval(c: char) -> nat {
    (c as u32 - '0' as u32) as nat
}

/// The value of a digit sequence read in base ten.
pub open spec fn digits_value(d: Seq<char>) -> nat
    decreases d.len(),
{
    if d.len() == 0 {
        0
    } else {
        digits_value(d.drop_last()) * 10 + dval(d.last())
    }
}

/// Whether every character is a digit.
pub open spec fn all_digits(d: Seq<char>) -> bool {
    forall|i: int| 0 <= i < d.len() ==> is_digit(#[trigger] d[i])
}

/// The non-negative integer that a number text denotes when it is a plain
/// digit string (what `serde_json` prints for a non-negative integer).
pub open spec fn uint_spec(t: Seq<char>) -> Option<nat> {
    if t.len() > 0 && all_digits(t) {
        Some(digits_value(t))
    } else {
        None
    }
}

/// Reads a plain digit string that fits in a `u64`.
pub fn parse_uint(t: &[char]) -> (r: Option<u64>)
    ensures
        match r {
            Some(n) => uint_spec(t@) == Some(n as nat),
            None => uint_spec(t@) is None || uint_spec(t@).unwrap() > u64::MAX,
        },
{
    if t.len() == 0 {
        return None;
    }
    let mut acc: u64 = 0;
    let mut i: usize = 0;
    while i < t.len()
        invariant
            i <= t@.len(),
            all_digits(t@.take(i as int)),
            acc == digits_value(t@.take(i as int)),
        decreases t@.len() - i,
    {
        let c = t[i];
        assert(t@.take(i + 1).drop_last() =~= t@.take(i as int));
        if !('0' <= c && c <= '9') {
            assert(!all_digits(t@));
            return None;
        }
        let d = (c as u32 - '0' as u32) as u64;
        if acc > (u64::MAX - d) / 10 {
            proof {
                assert(digits_value(t@.take(i + 1)) == acc * 10 + d);
                assert(acc * 10 + d > u64::MAX) by (nonlinear_arith)
                    requires
                        acc > (u64::MAX - d) / 10,
                        d <= 9,
                ;
                if all_digits(t@) {
                    lemma_digits_value_prefix_le(t@, i + 1);
                }
            }
            return None;
        }
        acc = acc * 10 + d;
        i += 1;
        assert(all_digits(t@.take(i as int)));
    }
    assert(t@.take(i as int) =~= t@);
    Some(acc)
}

/// A digit string's value grows when digits are appended.
proof fn lemma_digits_value_prefix_le(t: Seq<char>, n: int)
    requires
        0 <= n <= t.len(),
        all_digits(t),
    ensures
        digits_value(t.take(n)) <= digits_value(t),
    decreases t.len() - n,
{
    if n < t.len() {
        lemma_digits_value_prefix_le(t, n + 1);
        assert(t.take(n + 1).drop_last() =~= t.take(n));
    } else {
        assert(t.take(n) =~= t);
    }
}

/// A number printed in decimal reads back as itself, with no leading zero.
pub proof fn law_decimal_reads_back(n: nat)
    ensures
        uint_spec(decimal(n)) == Some(n),
        decimal(n)[0] == '0' ==> n == 0,
    decreases n,
{
    let d = decimal(n);
    if n < 10 {
        assert(d =~= seq![digit_char(n)]);
        assert(d.drop_last() =~= Seq::<char>::empty());
        assert(digits_value(Seq::<char>::empty()) == 0);
        assert(dval(digit_char(n)) == n);
        assert(digits_value(d) == digits_value(d.drop_last()) * 10 + dval(d.last()));
    } else {
        law_decimal_reads_back(n / 10);
        let p = decimal(n / 10);
        assert(d == p.push(digit_char(n % 10)));
        assert(d.drop_last() =~= p);
        assert(d.last() == digit_char(n % 10));
        assert(dval(digit_char(n % 10)) == n % 10);
        assert(digits_value(d) == digits_value(p) * 10 + dval(d.last()));
        assert(digits_value(p) == n / 10);
        assert((n / 10) * 10 + n % 10 == n);
        assert forall|i: int| 0 <= i < d.len() implies is_digit(#[trigger] d[i]) by {
            if i < p.len() {
                assert(d[i] == p[i]);
                assert(is_digit(p[i]));
            }
        }
        assert(d[0] == p[0]);
    }
}

/// A number under a hundred printed on two digits, as `{:02}` does, reads
/// back as itself.
pub proof fn law_two_digits_read_back(n: nat)
    requires
        n < 100,
    ensures
        decimal2(n).len() == 2,
        uint_spec(decimal2(n)) == Some(n),
{
    law_decimal_reads_back(n);
    let d = decimal2(n);
    if n < 10 {
        assert(decimal(n) =~= seq![digit_char(n)]);
        assert(d =~= seq!['0', digit_char(n)]);
        assert(d.drop_last() =~= seq!['0']);
        assert(d.drop_last().drop_last() =~= Seq::<char>::empty());
        assert(digits_value(Seq::<char>::empty()) == 0);
        assert(dval(digit_char(n)) == n);
        assert(dval('0') == 0);
        assert(digits_value(d.drop_last()) == digits_value(d.drop_last().drop_last()) * 10 + dval(d.drop_last().last()));
        assert(digits_value(d.drop_last()) == 0);
        assert(digits_value(d) == n);
        assert(is_digit(d[0]) && is_digit(d[1]));
    } else {
        assert(decimal(n) == decimal(n / 10).push(digit_char(n % 10)));
        assert(decimal(n / 10) =~= seq![digit_char(n / 10)]);
        assert(d == decimal(n));
    }
}

} // verus!


