//! Decimal text handling for request parameters and response headers.
//!
//! Numeric request parameters (times to live, store indices) are rendered
//! as canonical decimal strings, and the numeric response headers are
//! parsed back best-effort: a malformed header value simply yields no
//! number.

use vstd::prelude::*;
use vstd::string::StringExecFns;

verus! {

/// The decimal digit character for `d`.
pub open spec fn digit_char(d: int) -> char {
    if d == 0 {
        '0'
    } else if d == 1 {
        '1'
    } else if d == 2 {
        '2'
    } else if d == 3 {
        '3'
    } else if d == 4 {
        '4'
    } else if d == 5 {
        '5'
    } else if d == 6 {
        '6'
    } else if d == 7 {
        '7'
    } else if d == 8 {
        '8'
    } else {
        '9'
    }
}

/// The canonical decimal rendering of `n`: no sign, no leading zeros.
pub open spec fn dec_str(n: nat) -> Seq<char>
    decreases n,
{
    if n < 10 {
        seq![digit_char(n as int)]
    } else {
        dec_str(n / 10) + seq![digit_char((n % 10) as int)]
    }
}

/// The single-character decimal string for a digit.
fn digit_str(d: u64) -> (s: &'static str)
    requires
        d < 10,
    ensures
        s@ == seq![digit_char(d as int)],
{
    let s: &'static str = match d {
        0 => "0",
        1 => "1",
        2 => "2",
        3 => "3",
        4 => "4",
        5 => "5",
        6 => "6",
        7 => "7",
        8 => "8",
        _ => "9",
    };
    proof {
        reveal_strlit("0");
        reveal_strlit("1");
        reveal_strlit("2");
        reveal_strlit("3");
        reveal_strlit("4");
        reveal_strlit("5");
        reveal_strlit("6");
        reveal_strlit("7");
        reveal_strlit("8");
        reveal_strlit("9");
        assert(s@ =~= seq![digit_char(d as int)]);
    }
    s
}

/// Renders `n` as its canonical decimal string.
pub fn u64_to_dec(n: u64) -> (s: String)
    ensures
        s@ == dec_str(n as nat),
    decreases n,
{
    if n < 10 {
        digit_str(n).to_owned()
    } else {
        let mut s = u64_to_dec(n / 10);
        s.append(digit_str(n % 10));
        s
    }
}

/// True for the byte of an ASCII decimal digit.
pub open spec fn is_digit_byte(b: u8) -> bool {
    48 <= b <= 57
}

/// True when every byte of `s` is an ASCII decimal digit.
pub open spec fn all_digit_bytes(s: Seq<u8>) -> bool {
    forall|i: int| 0 <= i < s.len() ==> is_digit_byte(#[trigger] s[i])
}

/// The numeric value of a string of ASCII digit bytes, most significant
/// first.
pub open spec fn dec_value(s: Seq<u8>) -> int
    decreases s.len(),
{
    if s.len() == 0 {
        0
    } else {
        dec_value(s.drop_last()) * 10 + (s.last() - 48)
    }
}

/// The digit portion of a decimal numeral: everything after one optional
/// leading plus sign.
pub open spec fn digits_of(s: Seq<u8>) -> Seq<u8> {
    if s.len() > 0 && s[0] == 43 {
        s.drop_first()
    } else {
        s
    }
}

/// True when `s` is a well-formed decimal numeral whose value fits in a
/// `u64`: an optional plus sign, one or more digits, nothing else.
pub open spec fn parses_as_u64(s: Seq<u8>) -> bool {
    &&& digits_of(s).len() > 0
    &&& all_digit_bytes(digits_of(s))
    &&& dec_value(digits_of(s)) <= u64::MAX
}

/// The number a byte string parses to, if it is a well-formed in-range
/// decimal numeral.
pub open spec fn parsed_u64(s: Seq<u8>) -> Option<u64> {
    if parses_as_u64(s) {
        Some(dec_value(digits_of(s)) as u64)
    } else {
        None
    }
}

proof fn lemma_dec_value_nonneg(s: Seq<u8>)
    requires
        all_digit_bytes(s),
    ensures
        dec_value(s) >= 0,
    decreases s.len(),
{
    if s.len() > 0 {
        assert(all_digit_bytes(s.drop_last())) by {
            assert(forall|i: int|
                0 <= i < s.len() - 1 ==> #[trigger] s.drop_last()[i] == s[i]);
        }
        lemma_dec_value_nonneg(s.drop_last());
    }
}

proof fn lemma_dec_value_append_ge(t: Seq<u8>, rest: Seq<u8>)
    requires
        all_digit_bytes(t),
        all_digit_bytes(rest),
    ensures
        dec_value(t + rest) >= dec_value(t),
    decreases rest.len(),
{
    if rest.len() == 0 {
        assert(t + rest =~= t);
    } else {
        let shorter = rest.drop_last();
        assert(all_digit_bytes(shorter)) by {
            assert(forall|i: int|
                0 <= i < rest.len() - 1 ==> #[trigger] shorter[i] == rest[i]);
        }
        lemma_dec_value_append_ge(t, shorter);
        assert((t + rest).drop_last() =~= t + shorter);
        assert((t + rest).last() == rest.last());
        assert(all_digit_bytes(t + shorter)) by {
            assert(forall|i: int|
                0 <= i < t.len() ==> #[trigger] (t + shorter)[i] == t[i]);
            assert(forall|i: int|
                t.len() <= i < t.len() + shorter.len() ==> #[trigger] (t + shorter)[i]
                    == shorter[i - t.len()]);
        }
        lemma_dec_value_nonneg(t + shorter);
        assert(dec_value(t + rest) == dec_value(t + shorter) * 10 + (rest.last() - 48));
        assert(dec_value(t + shorter) * 10 >= dec_value(t + shorter)) by (nonlinear_arith)
            requires
                dec_value(t + shorter) >= 0,
        ;
    }
}

/// Parses a byte string as an unsigned decimal numeral: an optional
/// leading plus sign followed by one or more digits, rejecting anything
/// else and any value that does not fit in a `u64`.
pub fn parse_u64(s: &[u8]) -> (r: Option<u64>)
    ensures
        r == parsed_u64(s@),
{
    let mut start: usize = 0;
    if s.len() > 0 && s[0] == 43 {
        start = 1;
    }
    proof {
        assert(s@.subrange(start as int, s@.len() as int) =~= digits_of(s@));
    }
    if start == s.len() {
        return None;
    }
    let mut acc: u64 = 0;
    let mut i: usize = start;
    while i < s.len()
        invariant
            start <= i <= s@.len(),
            start <= 1,
            s@.len() > start,
            start == 1 ==> s@[0] == 43,
            start == 0 ==> !(s@.len() > 0 && s@[0] == 43),
            all_digit_bytes(s@.subrange(start as int, i as int)),
            acc as int == dec_value(s@.subrange(start as int, i as int)),
        decreases s@.len() - i,
    {
        let ghost prefix = s@.subrange(start as int, i as int);
        let b = s[i];
        if b < 48 || b > 57 {
            proof {
                assert(digits_of(s@)[i - start] == b);
            }
            return None;
        }
        let d = (b - 48) as u64;
        if acc > (u64::MAX - d) / 10 {
            proof {
                let full = digits_of(s@);
                if all_digit_bytes(full) {
                    let head = prefix.push(b);
                    assert(head =~= s@.subrange(start as int, i as int + 1));
                    assert(head.drop_last() =~= prefix);
                    assert(all_digit_bytes(head));
                    assert(dec_value(head) == acc * 10 + d);
                    assert(acc * 10 + d > u64::MAX) by (nonlinear_arith)
                        requires
                            acc > (u64::MAX - d) / 10,
                            0 <= d <= 9,
                            acc <= u64::MAX,
                    ;
                    assert(full =~= head + full.subrange(head.len() as int, full.len() as int));
                    assert(all_digit_bytes(full.subrange(head.len() as int, full.len() as int)))
                        by {
                        assert(forall|k: int|
                            0 <= k < full.len() - head.len() ==> #[trigger] full.subrange(
                                head.len() as int,
                                full.len() as int,
                            )[k] == full[k + head.len()]);
                    }
                    lemma_dec_value_append_ge(
                        head,
                        full.subrange(head.len() as int, full.len() as int),
                    );
                    assert(dec_value(full) > u64::MAX);
                }
            }
            return None;
        }
        proof {
            assert(acc * 10 + d <= u64::MAX) by (nonlinear_arith)
                requires
                    acc <= (u64::MAX - d) / 10,
                    0 <= d <= 9,
            ;
            let head = s@.subrange(start as int, i as int + 1);
            assert(head =~= prefix.push(b));
            assert(head.drop_last() =~= prefix);
            assert(dec_value(head) == acc * 10 + d);
        }
        acc = acc * 10 + d;
        i = i + 1;
    }
    proof {
        assert(s@.subrange(start as int, i as int) =~= digits_of(s@));
    }
    Some(acc)
}

} // verus!
