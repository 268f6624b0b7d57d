use vstd::prelude::*;
use vstd::string::*;

verus! {

/// Whether `c` is one of the ASCII digits `0` to `9`.
pub open spec fn is_digit(c: char) -> bool {
    48 <= (c as u32) <= 57
}

/// The value of an ASCII digit.
pub open spec fn digit_value(c: char) -> int {
    (c as u32) - 48
}

/// The ASCII digit for a value below ten.
pub open spec fn digit_char(d: nat) -> char {
    if d == 0 { '0' }
    else if d == 1 { '1' }
    else if d == 2 { '2' }
    else if d == 3 { '3' }
    else if d == 4 { '4' }
    else if d == 5 { '5' }
    else if d == 6 { '6' }
    else if d == 7 { '7' }
    else if d == 8 { '8' }
    else { '9' }
}

proof fn lemma_digit_char(d: nat)
    requires
        d < 10,
    ensures
        is_digit(digit_char(d)),
        digit_value(digit_char(d)) == d,
        d > 0 ==> digit_char(d) != '0',
{
}

proof fn lemma_digit_roundtrip(c: char)
    requires
        is_digit(c),
    ensures
        digit_char(digit_value(c) as nat) == c,
{
}


/// Decimal text of a natural number, most significant digit first, without
/// leading zeros.
pub open spec fn decimal(n: nat) -> Seq<char>
    decreases n,
{
    if n < 10 {
        seq![digit_char(n)]
    } else {
        decimal(n / 10).push(digit_char(n % 10))
    }
}

/// Decimal text of an integer: a minus sign before the magnitude of a
/// negative number.
pub open spec fn int_text(i: int) -> Seq<char> {
    if i < 0 {
        seq!['-'] + decimal((-i) as nat)
    } else {
        decimal(i as nat)
    }
}

/// Whether every character of `s` is an ASCII digit.
pub open spec fn all_digits(s: Seq<char>) -> bool {
    forall|i: int| 0 <= i < s.len() ==> is_digit(#[trigger] s[i])
}

/// The number that a string of digits denotes.
pub open spec fn value_of(s: Seq<char>) -> int
    decreases s.len(),
{
    if s.len() == 0 {
        0
    } else {
        value_of(s.drop_last()) * 10 + digit_value(s.last())
    }
}

/// A string of digits in the form `decimal` writes: not empty, and no
/// leading zero unless it is the single digit `0`.
pub open spec fn canonical_digits(s: Seq<char>) -> bool {
    &&& s.len() >= 1
    &&& all_digits(s)
    &&& (s.len() == 1 || s[0] != '0')
}

proof fn lemma_div_mod_ten(a: int, d: int)
    requires
        a >= 0,
        0 <= d < 10,
    ensures
        (a * 10 + d) / 10 == a,
        (a * 10 + d) % 10 == d,
{
    assert((a * 10 + d) / 10 == a && (a * 10 + d) % 10 == d) by (nonlinear_arith)
        requires
            a >= 0,
            0 <= d < 10,
    ;
}

proof fn lemma_value_nonneg(s: Seq<char>)
    requires
        all_digits(s),
    ensures
        value_of(s) >= 0,
    decreases s.len(),
{
    if s.len() > 0 {
        assert(all_digits(s.drop_last()));
        lemma_value_nonneg(s.drop_last());
        assert(is_digit(s[s.len() - 1]));
    }
}

/// `decimal` writes canonical digits, and reading them back gives the number.
pub proof fn lemma_decimal(n: nat)
    ensures
        canonical_digits(decimal(n)),
        value_of(decimal(n)) == n,
        n > 0 ==> decimal(n)[0] != '0',
    decreases n,
{
    if n < 10 {
        lemma_digit_char(n);
        assert(decimal(n).drop_last() =~= Seq::<char>::empty());
        assert(value_of(Seq::<char>::empty()) == 0);
    } else {
        let q = n / 10;
        let r = n % 10;
        lemma_decimal(q);
        lemma_digit_char(r);
        let p = decimal(q);
        let s = decimal(n);
        assert(s == p.push(digit_char(r)));
        assert(s.drop_last() =~= p);
        assert(all_digits(s)) by {
            assert forall|i: int| 0 <= i < s.len() implies is_digit(#[trigger] s[i]) by {
                if i < p.len() {
                    assert(s[i] == p[i]);
                }
            }
        }
        assert(n == q * 10 + r);
        assert(value_of(s) == value_of(p) * 10 + digit_value(digit_char(r)));
        assert(s[0] == p[0]);
    }
}

/// Canonical digits are the decimal text of the number they denote.
pub proof fn lemma_canonical_is_decimal(s: Seq<char>)
    requires
        canonical_digits(s),
    ensures
        decimal(value_of(s) as nat) == s,
        value_of(s) >= 0,
    decreases s.len(),
{
    lemma_value_nonneg(s);
    if s.len() == 1 {
        assert(s.drop_last() =~= Seq::<char>::empty());
        assert(is_digit(s[0]));
        lemma_digit_roundtrip(s[0]);
        assert(value_of(Seq::<char>::empty()) == 0);
        assert(value_of(s) == digit_value(s[0]));
        assert(decimal(value_of(s) as nat) =~= s);
    } else {
        let p = s.drop_last();
        let c = s.last();
        assert(is_digit(s[s.len() - 1]));
        assert(all_digits(p));
        assert(p[0] == s[0]);
        lemma_canonical_is_decimal(p);
        lemma_leading_nonzero_positive(p);
        let a = value_of(p);
        let d = digit_value(c);
        lemma_div_mod_ten(a, d);
        lemma_digit_roundtrip(c);
        assert(value_of(s) == a * 10 + d);
        assert(value_of(s) >= 10);
        assert(decimal(value_of(s) as nat) == decimal(a as nat).push(digit_char(d as nat)));
        assert(s =~= p.push(c));
    }
}

proof fn lemma_leading_nonzero_positive(s: Seq<char>)
    requires
        s.len() >= 1,
        all_digits(s),
        s[0] != '0',
    ensures
        value_of(s) >= 1,
    decreases s.len(),
{
    if s.len() == 1 {
        assert(s.drop_last() =~= Seq::<char>::empty());
        assert(value_of(Seq::<char>::empty()) == 0);
        assert(is_digit(s[0]));
        assert(value_of(s) == digit_value(s[0]));
        lemma_digit_roundtrip(s[0]);
    } else {
        let p = s.drop_last();
        assert(all_digits(p));
        assert(p[0] == s[0]);
        lemma_leading_nonzero_positive(p);
        assert(is_digit(s[s.len() - 1]));
        assert(value_of(s) == value_of(p) * 10 + digit_value(s.last()));
    }
}

/// Different numbers have different decimal texts.
pub proof fn lemma_decimal_injective(a: nat, b: nat)
    requires
        decimal(a) == decimal(b),
    ensures
        a == b,
{
    lemma_decimal(a);
    lemma_decimal(b);
}

pub proof fn lemma_prefix_value_le(s: Seq<char>, i: int)
    requires
        all_digits(s),
        0 <= i <= s.len(),
    ensures
        value_of(s.subrange(0, i)) <= value_of(s),
    decreases s.len() - i,
{
    if i < s.len() {
        lemma_prefix_value_le(s, i + 1);
        let p = s.subrange(0, i + 1);
        assert(p.drop_last() =~= s.subrange(0, i));
        assert(all_digits(p.drop_last()));
        lemma_value_nonneg(p.drop_last());
        assert(is_digit(s[i]));
        assert(p.last() == s[i]);
    } else {
        assert(s.subrange(0, i) =~= s);
    }
}

/// Reads canonical decimal digits as a `u64`: `Some(n)` exactly when `text`
/// is the decimal text of `n`.
pub fn parse_decimal_u64(text: &str) -> (r: Option<u64>)
    ensures
        match r {
            Some(n) => text@ == decimal(n as nat),
            None => forall|n: u64| text@ != decimal(n as nat),
        },
{
    let len = text.unicode_len();
    let mut value: u64 = 0;
    let mut i: usize = 0;
    while i < len
        invariant
            len == text@.len(),
            i <= len,
            all_digits(text@.subrange(0, i as int)),
            value == value_of(text@.subrange(0, i as int)),
        decreases len - i,
    {
        let c = text.get_char(i);
        if !('0' <= c && c <= '9') {
            proof {
                assert forall|n: u64| text@ != decimal(n as nat) by {
                    lemma_decimal(n as nat);
                    if text@ == decimal(n as nat) {
                        assert(is_digit(text@[i as int]));
                    }
                }
            }
            return None;
        }
        let d = (c as u32 - 48) as u64;
        proof {
            let p = text@.subrange(0, i as int + 1);
            assert(p.drop_last() =~= text@.subrange(0, i as int));
            assert(p.last() == c);
            assert(all_digits(p)) by {
                assert forall|j: int| 0 <= j < p.len() implies is_digit(#[trigger] p[j]) by {
                    if j < i {
                        assert(p[j] == text@.subrange(0, i as int)[j]);
                    }
                }
            }
        }
        if value > (u64::MAX - d) / 10 {
            proof {
                let p = text@.subrange(0, i as int + 1);
                assert(value_of(p) > u64::MAX) by (nonlinear_arith)
                    requires
                        value_of(p) == value * 10 + d,
                        value > (u64::MAX - d) / 10,
                        d < 10,
                ;
                assert forall|n: u64| text@ != decimal(n as nat) by {
                    lemma_decimal(n as nat);
                    if text@ == decimal(n as nat) {
                        lemma_prefix_value_le(text@, i as int + 1);
                    }
                }
            }
            return None;
        }
        proof {
            assert(value * 10 + d <= u64::MAX) by (nonlinear_arith)
                requires
                    value <= (u64::MAX - d) / 10,
                    d < 10,
            ;
        }
        value = value * 10 + d;
        i = i + 1;
    }
    assert(text@.subrange(0, len as int) =~= text@);
    if len == 0 || (len > 1 && text.get_char(0) == '0') {
        proof {
            assert forall|n: u64| text@ != decimal(n as nat) by {
                lemma_decimal(n as nat);
            }
        }
        return None;
    }
    proof {
        lemma_canonical_is_decimal(text@);
    }
    Some(value)
}

/// The one-character text of a digit.
fn digit_text(d: u64) -> (r: &'static str)
    requires
        d < 10,
    ensures
        r@ == seq![digit_char(d as nat)],
{
    proof {
        reveal_strlit("0");
        reveal_strlit("1");
        reveal_strlit("2");
        reveal_strlit("3");
        reveal_strlit("4");
        reveal_strlit("5");
        reveal_strlit("6");
        reveal_strlit("7");
        reveal_strlit("8");
        reveal_strlit("9");
    }
    let r = if d == 0 {
        "0"
    } else if d == 1 {
        "1"
    } else if d == 2 {
        "2"
    } else if d == 3 {
        "3"
    } else if d == 4 {
        "4"
    } else if d == 5 {
        "5"
    } else if d == 6 {
        "6"
    } else if d == 7 {
        "7"
    } else if d == 8 {
        "8"
    } else {
        "9"
    };
    assert(r@ =~= seq![digit_char(d as nat)]);
    r
}

/// The decimal text of `n`.
pub fn u64_text(n: u64) -> (r: String)
    ensures
        r@ == decimal(n as nat),
    decreases n,
{
    if n < 10 {
        String::from_str(digit_text(n))
    } else {
        let mut text = u64_text(n / 10);
        text.append(digit_text(n % 10));
        proof {
            assert(decimal(n as nat) == decimal((n / 10) as nat).push(digit_char((n % 10) as nat)));
            assert(text@ =~= decimal(n as nat));
        }
        text
    }
}

/// The decimal text of `n`, with a minus sign when it is negative.
pub fn i64_text(n: i64) -> (r: String)
    ensures
        r@ == int_text(n as int),
{
    if n < 0 {
        let magnitude: u64 = if n == i64::MIN {
            0x8000_0000_0000_0000
        } else {
            (-n) as u64
        };
        let digits = u64_text(magnitude);
        proof {
            reveal_strlit("-");
        }
        let r = String::from_str("-").concat(digits.as_str());
        assert(r@ =~= int_text(n as int));
        r
    } else {
        u64_text(n as u64)
    }
}

/// Whether `a` holds exactly the characters of `b`.
pub fn same_text(a: &String, b: &str) -> (r: bool)
    ensures
        r == (a@ == b@),
{
    a.eq(&String::from_str(b))
}

/// `s` without its first character when that is a newline.
pub open spec fn strip_leading_newline(s: Seq<char>) -> Seq<char> {
    if s.len() > 0 && s[0] == '\n' {
        s.drop_first()
    } else {
        s
    }
}

/// A copy of `s` without its first character when that is a newline.
pub fn trim_leading_newline(s: &str) -> (r: String)
    ensures
        r@ == strip_leading_newline(s@),
{
    let len = s.unicode_len();
    if len > 0 && s.get_char(0) == '\n' {
        assert(s@.subrange(1, len as int) =~= s@.drop_first());
        String::from_str(s.substring_char(1, len))
    } else {
        String::from_str(s)
    }
}

} // verus!
