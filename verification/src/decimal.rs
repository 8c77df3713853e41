//! Decimal text: parsing signed 64-bit integers and printing them back.

use vstd::prelude::*;

verus! {

pub open spec fn is_digit(c: char) -> bool {
    '0' <= c && c <= '9'
}

pub open spec fn digit_val(c: char) -> int {
    c as int - '0' as int
}

pub open spec fn all_digits(s: Seq<char>) -> bool {
    forall|i: int| 0 <= i < s.len() ==> is_digit(s[i])
}

/// Value of a digit-only text, most significant digit first.
pub open spec fn digits_val(s: Seq<char>) -> int
    decreases s.len(),
{
    if s.len() == 0 {
        0
    } else {
        digits_val(s.drop_last()) * 10 + digit_val(s.last())
    }
}

/// The texts accepted as an `i64`: an optional minus sign, then one or
/// more digits, denoting a value in range.
pub open spec fn valid_i64_text(s: Seq<char>) -> bool {
    if s.len() > 0 && s[0] == '-' {
        s.len() >= 2 && all_digits(s.skip(1)) && digits_val(s.skip(1)) <= i64::MAX as int + 1
    } else {
        s.len() >= 1 && all_digits(s) && digits_val(s) <= i64::MAX as int
    }
}

/// The value a valid `i64` text denotes.
pub open spec fn i64_text_val(s: Seq<char>) -> int {
    if s.len() > 0 && s[0] == '-' {
        -digits_val(s.skip(1))
    } else {
        digits_val(s)
    }
}

proof fn lemma_digits_val_nonneg(s: Seq<char>)
    requires
        all_digits(s),
    ensures
        digits_val(s) >= 0,
    decreases s.len(),
{
    if s.len() > 0 {
        assert(all_digits(s.drop_last()));
        lemma_digits_val_nonneg(s.drop_last());
    }
}

/// Extending a digit text to the right never shrinks its value.
proof fn lemma_digits_val_extend(s: Seq<char>, m: int)
    requires
        0 <= m <= s.len(),
        forall|k: int| m <= k < s.len() ==> is_digit(s[k]),
        digits_val(s.take(m)) >= 0,
    ensures
        digits_val(s) >= digits_val(s.take(m)),
    decreases s.len() - m,
{
    if m < s.len() {
        let t = s.take(m + 1);
        assert(t.drop_last() =~= s.take(m));
        assert(t.last() == s[m]);
        assert(digits_val(t) == digits_val(s.take(m)) * 10 + digit_val(s[m]));
        lemma_digits_val_extend(s, m + 1);
    } else {
        assert(s.take(m) =~= s);
    }
}

/// Parses a decimal `i64`.  Returns the denoted value exactly when the
/// text is a well-formed decimal integer whose value fits.
pub fn parse_i64(s: &str) -> (r: Option<i64>)
    ensures
        match r {
            Some(v) => valid_i64_text(s@) && v as int == i64_text_val(s@),
            None => !valid_i64_text(s@),
        },
{
    let n = s.unicode_len();
    if n == 0 {
        return None;
    }
    let neg = s.get_char(0) == '-';
    let start: usize = if neg { 1 } else { 0 };
    if n == start {
        return None;
    }
    let ghost digits = s@.skip(start as int);
    let mut acc: u64 = 0;
    let mut k: usize = start;
    while k < n
        invariant
            start <= k <= n,
            n == s@.len(),
            start == (if neg { 1int } else { 0int }),
            neg ==> s@[0] == '-',
            !neg ==> s@[0] != '-',
            n > start,
            digits == s@.skip(start as int),
            forall|t: int| start <= t < k ==> is_digit(s@[t]),
            acc as int == digits_val(digits.take(k - start as int)),
            acc <= i64::MAX as u64 + 1,
        decreases n - k,
    {
        let c = s.get_char(k);
        if !(c >= '0' && c <= '9') {
            assert(!all_digits(digits) && !all_digits(s@)) by {
                assert(digits[k - start as int] == s@[k as int]);
            }
            return None;
        }
        let d: u64 = (c as u32 - 48) as u64;
        let wide: u128 = acc as u128 * 10 + d as u128;
        proof {
            let pfx = digits.take(k + 1 - start as int);
            assert(pfx.drop_last() =~= digits.take(k - start as int));
            assert(pfx.last() == s@[k as int]);
            assert(digit_val(s@[k as int]) == d as int);
        }
        if wide > i64::MAX as u128 + 1 {
            // Whatever follows, the value can only grow: the text is out of
            // range (or not all digits, which is just as invalid).
            assert(!valid_i64_text(s@)) by {
                let m = k + 1 - start as int;
                if neg {
                    if all_digits(s@.skip(1)) {
                        lemma_digits_val_extend(digits, m);
                    }
                } else {
                    if all_digits(s@) {
                        assert(digits =~= s@);
                        lemma_digits_val_extend(digits, m);
                    }
                }
            }
            return None;
        }
        acc = (wide as u64);
        k += 1;
    }
    proof {
        assert(digits.take(n - start as int) =~= digits);
        if neg {
            assert(all_digits(s@.skip(1)));
        } else {
            assert(digits =~= s@);
            assert(all_digits(s@));
        }
    }
    if neg {
        if acc == i64::MAX as u64 + 1 {
            Some(i64::MIN)
        } else {
            Some(-(acc as i64))
        }
    } else {
        if acc > i64::MAX as u64 {
            return None;
        }
        Some(acc as i64)
    }
}

pub open spec fn char_of_digit(d: int) -> char {
    if d == 0 {
        '0'
    } else if d == 1 {
        '1'
    } else if d == 2 {
        '2'
    } else if d == 3 {
        '3'
    } else if d == 4 {
        '4'
    } else if d == 5 {
        '5'
    } else if d == 6 {
        '6'
    } else if d == 7 {
        '7'
    } else if d == 8 {
        '8'
    } else {
        '9'
    }
}

/// Decimal rendering of a non-negative value, without sign or leading
/// zeros (a single zero for 0).
pub open spec fn spec_u64_text(n: int) -> Seq<char>
    decreases n,
{
    if n < 10 {
        seq![char_of_digit(n)]
    } else {
        spec_u64_text(n / 10).push(char_of_digit(n % 10))
    }
}

/// Decimal rendering of a signed value.
pub open spec fn spec_i64_text(n: int) -> Seq<char> {
    if n < 0 {
        seq!['-'] + spec_u64_text(-n)
    } else {
        spec_u64_text(n)
    }
}

fn digit_str(d: u64) -> (r: &'static str)
    requires
        d < 10,
    ensures
        r@ == seq![char_of_digit(d as int)],
{
    proof {
        reveal_strlit("0");
        reveal_strlit("1");
        reveal_strlit("2");
        reveal_strlit("3");
        reveal_strlit("4");
        reveal_strlit("5");
        reveal_strlit("6");
        reveal_strlit("7");
        reveal_strlit("8");
        reveal_strlit("9");
    }
    let r = match d {
        0 => "0",
        1 => "1",
        2 => "2",
        3 => "3",
        4 => "4",
        5 => "5",
        6 => "6",
        7 => "7",
        8 => "8",
        _ => "9",
    };
    proof {
        assert(r@ =~= seq![char_of_digit(d as int)]);
    }
    r
}

pub fn u64_to_string(n: u64) -> (r: String)
    ensures
        r@ == spec_u64_text(n as int),
    decreases n,
{
    if n < 10 {
        digit_str(n).to_owned()
    } else {
        let mut s = u64_to_string(n / 10);
        s.append(digit_str(n % 10));
        proof {
            assert(s@ =~= spec_u64_text(n as int / 10).push(char_of_digit(n as int % 10)));
        }
        s
    }
}

pub fn i64_to_string(n: i64) -> (r: String)
    ensures
        r@ == spec_i64_text(n as int),
{
    if n >= 0 {
        u64_to_string(n as u64)
    } else {
        let magnitude: u64 = if n == i64::MIN {
            9223372036854775808u64
        } else {
            (-n) as u64
        };
        let mut s = String::from_str("-");
        proof {
            reveal_strlit("-");
        }
        s.append(u64_to_string(magnitude).as_str());
        proof {
            assert(s@ =~= seq!['-'] + spec_u64_text(-(n as int)));
        }
        s
    }
}

/// Round trip: printing an `i64` always yields a text that parses back to
/// the same value.
pub proof fn lemma_decimal_round_trip(n: i64)
    ensures
        valid_i64_text(spec_i64_text(n as int)),
        i64_text_val(spec_i64_text(n as int)) == n as int,
{
    if n >= 0 {
        lemma_u64_text_val(n as int);
        let s = spec_u64_text(n as int);
        assert(s[0] != '-');
    } else {
        let m = -(n as int);
        lemma_u64_text_val(m);
        let s = spec_i64_text(n as int);
        assert(s[0] == '-');
        assert(s.skip(1) =~= spec_u64_text(m));
    }
}

proof fn lemma_u64_text_val(n: int)
    requires
        n >= 0,
    ensures
        all_digits(spec_u64_text(n)),
        spec_u64_text(n).len() >= 1,
        spec_u64_text(n)[0] != '-',
        digits_val(spec_u64_text(n)) == n,
    decreases n,
{
    if n < 10 {
        let s = spec_u64_text(n);
        assert(s =~= seq![char_of_digit(n)]);
        assert(s.last() == char_of_digit(n));
        assert(s.drop_last() =~= Seq::<char>::empty());
        assert(digits_val(s.drop_last()) == 0);
        assert(digits_val(s) == digits_val(s.drop_last()) * 10 + digit_val(s.last()));
        assert(digit_val(char_of_digit(n)) == n);
    } else {
        lemma_u64_text_val(n / 10);
        let s = spec_u64_text(n);
        assert(s.drop_last() =~= spec_u64_text(n / 10));
        assert(digit_val(char_of_digit(n % 10)) == n % 10);
        assert(digits_val(s) == (n / 10) * 10 + n % 10);
    }
}

} // verus!
