//! Decimal reading and writing of user ids.
//!
//! Token subjects carry the user id as a decimal string. Parsing follows
//! the standard library's integer syntax (optional sign, one or more
//! digits, range-checked), but a malformed subject yields `None` instead
//! of a crash.
use vstd::prelude::*;
use vstd::string::StrSliceExecFns;
use vstd::string::StringExecFns;

verus! {

pub open spec fn is_digit(c: char) -> bool {
    48 <= c as u32 <= 57
}

pub open spec fn digit_val(c: char) -> int {
    c as u32 - 48
}

pub open spec fn is_digits(s: Seq<char>) -> bool {
    forall|i: int| 0 <= i < s.len() ==> is_digit(#[trigger] s[i])
}

/// The value of a sequence of decimal digits, most significant first.
pub open spec fn dec_val(s: Seq<char>) -> int
    decreases s.len(),
{
    if s.len() == 0 {
        0
    } else {
        dec_val(s.drop_last()) * 10 + digit_val(s.last())
    }
}

pub open spec fn digit_char(d: int) -> char {
    if d == 0 {
        '0'
    } else if d == 1 {
        '1'
    } else if d == 2 {
        '2'
    } else if d == 3 {
        '3'
    } else if d == 4 {
        '4'
    } else if d == 5 {
        '5'
    } else if d == 6 {
        '6'
    } else if d == 7 {
        '7'
    } else if d == 8 {
        '8'
    } else {
        '9'
    }
}

/// The decimal digits of `n`, most significant first, without leading zeros.
pub open spec fn dec_digits(n: nat) -> Seq<char>
    decreases n,
{
    if n < 10 {
        seq![digit_char(n as int)]
    } else {
        dec_digits(n / 10).push(digit_char((n % 10) as int))
    }
}

/// The decimal rendering of a signed number.
pub open spec fn i32_dec(n: int) -> Seq<char> {
    if n < 0 {
        seq!['-'] + dec_digits((-n) as nat)
    } else {
        dec_digits(n as nat)
    }
}

/// What `str::parse::<i32>` accepts: an optional sign, then one or more
/// digits, with the value within range.
pub open spec fn spec_parse_i32(s: Seq<char>) -> Option<i32> {
    let signed = s.len() > 0 && (s[0] == '-' || s[0] == '+');
    let body = if signed {
        s.skip(1)
    } else {
        s
    };
    let neg = s.len() > 0 && s[0] == '-';
    if body.len() == 0 || !is_digits(body) {
        None
    } else {
        let v = if neg {
            -dec_val(body)
        } else {
            dec_val(body)
        };
        if i32::MIN <= v <= i32::MAX {
            Some(v as i32)
        } else {
            None
        }
    }
}

pub proof fn lemma_dec_val_nonneg(s: Seq<char>)
    requires
        is_digits(s),
    ensures
        dec_val(s) >= 0,
    decreases s.len(),
{
    if s.len() > 0 {
        assert forall|i: int| 0 <= i < s.drop_last().len() implies is_digit(
            #[trigger] s.drop_last()[i],
        ) by {
            assert(s.drop_last()[i] == s[i]);
        }
        lemma_dec_val_nonneg(s.drop_last());
        assert(is_digit(s.last()));
    }
}

/// A digit string's value only grows as more digits are read.
pub proof fn lemma_dec_val_take_le(s: Seq<char>, i: int)
    requires
        is_digits(s),
        0 <= i <= s.len(),
    ensures
        dec_val(s.take(i)) <= dec_val(s),
    decreases s.len() - i,
{
    assert forall|k: int| 0 <= k <= s.len() implies is_digits(s.take(k)) by {
        assert forall|j: int| 0 <= j < s.take(k).len() implies is_digit(#[trigger] s.take(k)[j]) by {
            assert(s.take(k)[j] == s[j]);
        }
    }
    if i == s.len() {
        assert(s.take(i) =~= s);
    } else {
        assert(s.take(i + 1).drop_last() =~= s.take(i));
        assert(s.take(i + 1).last() == s[i]);
        lemma_dec_val_nonneg(s.take(i));
        assert(is_digit(s[i]));
        assert(dec_val(s.take(i + 1)) == dec_val(s.take(i)) * 10 + digit_val(s[i]));
        lemma_dec_val_take_le(s, i + 1);
    }
}

/// The digits of `n` read back as the value `n`.
pub proof fn lemma_dec_digits(n: nat)
    ensures
        dec_digits(n).len() >= 1,
        is_digits(dec_digits(n)),
        dec_val(dec_digits(n)) == n,
    decreases n,
{
    if n < 10 {
        let c = digit_char(n as int);
        assert(is_digit(c));
        let s = seq![c];
        assert(s.drop_last() =~= Seq::<char>::empty());
        assert(s.last() == c);
        assert(digit_val(c) == n);
        reveal_with_fuel(dec_val, 2);
        assert(dec_val(s) == dec_val(Seq::<char>::empty()) * 10 + digit_val(c));
    } else {
        lemma_dec_digits(n / 10);
        let prefix = dec_digits(n / 10);
        let c = digit_char((n % 10) as int);
        assert(is_digit(c));
        assert(digit_val(c) == n % 10);
        let s = prefix.push(c);
        assert(s.drop_last() =~= prefix);
        assert(s.last() == c);
        assert(dec_val(s) == dec_val(prefix) * 10 + digit_val(c));
        assert((n / 10) * 10 + n % 10 == n);
        assert forall|i: int| 0 <= i < s.len() implies is_digit(#[trigger] s[i]) by {
            if i < prefix.len() {
                assert(s[i] == prefix[i]);
            } else {
                assert(s[i] == c);
            }
        }
    }
}

/// Writing a number and parsing it back gives the number again.
pub proof fn lemma_parse_i32_of_dec(n: i32)
    ensures
        spec_parse_i32(i32_dec(n as int)) == Some(n),
{
    if n >= 0 {
        lemma_dec_digits(n as nat);
        let s = dec_digits(n as nat);
        assert(is_digit(s[0]));
        assert(s[0] != '-' && s[0] != '+') by {
            assert('-' as u32 == 45 && '+' as u32 == 43);
        }
    } else {
        let m = (-(n as int)) as nat;
        lemma_dec_digits(m);
        let s = seq!['-'] + dec_digits(m);
        assert(i32_dec(n as int) == s);
        assert(s[0] == '-');
        assert(s.skip(1) =~= dec_digits(m));
        assert(dec_val(s.skip(1)) == m);
    }
}

fn digit_str(d: u32) -> (r: &'static str)
    requires
        d < 10,
    ensures
        r@ =~= seq![digit_char(d as int)],
{
    proof {
        reveal_strlit("0");
        reveal_strlit("1");
        reveal_strlit("2");
        reveal_strlit("3");
        reveal_strlit("4");
        reveal_strlit("5");
        reveal_strlit("6");
        reveal_strlit("7");
        reveal_strlit("8");
        reveal_strlit("9");
    }
    if d == 0 {
        "0"
    } else if d == 1 {
        "1"
    } else if d == 2 {
        "2"
    } else if d == 3 {
        "3"
    } else if d == 4 {
        "4"
    } else if d == 5 {
        "5"
    } else if d == 6 {
        "6"
    } else if d == 7 {
        "7"
    } else if d == 8 {
        "8"
    } else {
        "9"
    }
}

/// Render an unsigned number in decimal.
pub fn format_u32(n: u32) -> (r: String)
    ensures
        r@ == dec_digits(n as nat),
    decreases n,
{
    if n < 10 {
        String::from_str(digit_str(n))
    } else {
        let mut s = format_u32(n / 10);
        s.append(digit_str(n % 10));
        s
    }
}

/// Render a signed number in decimal, as `i32::to_string` does.
pub fn format_i32(n: i32) -> (r: String)
    ensures
        r@ == i32_dec(n as int),
{
    if n >= 0 {
        format_u32(n as u32)
    } else {
        let mag: u32 = (-(n as i64)) as u32;
        proof {
            reveal_strlit("-");
        }
        let mut s = String::from_str("-");
        let digits = format_u32(mag);
        s.append(digits.as_str());
        proof {
            assert(s@ =~= seq!['-'] + dec_digits(mag as nat));
        }
        s
    }
}

/// Parse a decimal string as `str::parse::<i32>` would, but return `None`
/// where the standard parser reports an error.
#[verifier::loop_isolation(false)]
pub fn parse_i32(s: &str) -> (r: Option<i32>)
    ensures
        r == spec_parse_i32(s@),
{
    let len = s.unicode_len();
    if len == 0 {
        return None;
    }
    let first = s.get_char(0);
    let neg = first == '-';
    let start: usize = if first == '-' || first == '+' {
        1
    } else {
        0
    };
    let ghost body = if start == 1 {
        s@.skip(1)
    } else {
        s@
    };
    proof {
        if start == 0 {
            assert(body =~= s@.skip(0));
        }
    }
    if start == len {
        return None;
    }
    let mut i = start;
    let mut v: i64 = 0;
    while i < len
        invariant
            start <= i <= len,
            len == s@.len(),
            start == 1 ==> body == s@.skip(1),
            start == 0 ==> body == s@.skip(0) && body == s@,
            start <= 1 <= len,
            body.len() == len - start,
            forall|k: int| 0 <= k < body.len() ==> body[k] == s@[k + start],
            is_digits(body.take(i - start)),
            v == dec_val(body.take(i - start)),
            0 <= v <= 0x8000_0000,
        decreases len - i,
    {
        let c = s.get_char(i);
        let u = c as u32;
        proof {
            assert(body[i - start] == s@[i as int]);
        }
        if u < 48 || u > 57 {
            proof {
                assert(0 <= i - start < body.len());
                assert(!is_digit(body[i - start]));
                assert(!is_digits(body));
                assert(spec_parse_i32(s@) is None);
            }
            return None;
        }
        let d: i64 = (u - 48) as i64;
        let v2: i64 = v * 10 + d;
        proof {
            assert(body.take(i + 1 - start).drop_last() =~= body.take(i - start));
            assert(body.take(i + 1 - start).last() == body[i - start]);
            assert(dec_val(body.take(i + 1 - start)) == v * 10 + d);
            assert forall|k: int| 0 <= k < body.take(i + 1 - start).len() implies is_digit(
                #[trigger] body.take(i + 1 - start)[k],
            ) by {
                assert(body.take(i + 1 - start)[k] == body[k]);
                if k < i - start {
                    assert(body.take(i - start)[k] == body[k]);
                }
            }
        }
        if v2 > 0x8000_0000 {
            proof {
                if is_digits(body) {
                    lemma_dec_val_take_le(body, i + 1 - start);
                    assert(dec_val(body) >= v2);
                    assert(dec_val(body) > 0x8000_0000);
                    assert(!(i32::MIN <= -dec_val(body) <= i32::MAX));
                    assert(!(i32::MIN <= dec_val(body) <= i32::MAX));
                }
                assert(spec_parse_i32(s@) is None);
            }
            return None;
        }
        v = v2;
        i = i + 1;
    }
    proof {
        assert(body.take(len - start) =~= body);
    }
    if neg {
        let out: i32 = (-v) as i32;
        Some(out)
    } else {
        if v > 2147483647 {
            return None;
        }
        Some(v as i32)
    }
}

} // verus!
