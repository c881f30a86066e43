//! Decimal text for the unsigned integers that flags carry: formatting,
//! parsing, and the proof that parsing undoes formatting.
use vstd::prelude::*;

verus! {

/// The digit character for a value below ten.
pub open spec fn dec_digit(d: nat) -> char {
    if d == 0 {
        '0'
    } else if d == 1 {
        '1'
    } else if d == 2 {
        '2'
    } else if d == 3 {
        '3'
    } else if d == 4 {
        '4'
    } else if d == 5 {
        '5'
    } else if d == 6 {
        '6'
    } else if d == 7 {
        '7'
    } else if d == 8 {
        '8'
    } else {
        '9'
    }
}

/// The numeric value of a digit character, if it is one.
pub open spec fn digit_of(c: char) -> Option<nat> {
    if c == '0' {
        Some(0 as nat)
    } else if c == '1' {
        Some(1 as nat)
    } else if c == '2' {
        Some(2 as nat)
    } else if c == '3' {
        Some(3 as nat)
    } else if c == '4' {
        Some(4 as nat)
    } else if c == '5' {
        Some(5 as nat)
    } else if c == '6' {
        Some(6 as nat)
    } else if c == '7' {
        Some(7 as nat)
    } else if c == '8' {
        Some(8 as nat)
    } else if c == '9' {
        Some(9 as nat)
    } else {
        None
    }
}

pub open spec fn all_digits(s: Seq<char>) -> bool {
    forall|i: int| 0 <= i < s.len() ==> #[trigger] digit_of(s[i]) is Some
}

/// The decimal text of a number, most significant digit first.
pub open spec fn dec_text(n: nat) -> Seq<char>
    decreases n,
{
    if n < 10 {
        seq![dec_digit(n)]
    } else {
        dec_text(n / 10).push(dec_digit(n % 10))
    }
}

/// The value of a digit string, read left to right.
pub open spec fn digits_val(s: Seq<char>) -> nat
    decreases s.len(),
{
    if s.len() == 0 {
        0
    } else {
        digits_val(s.take(s.len() - 1)) * 10 + digit_of(s.last()).unwrap_or(0)
    }
}

/// What `u32` parsing accepts: an optional leading plus sign, then one or
/// more decimal digits whose value fits the type.
pub open spec fn parse_dec(s: Seq<char>, max: nat) -> Option<nat> {
    let body = if s.len() >= 1 && s[0] == '+' {
        s.skip(1)
    } else {
        s
    };
    if body.len() > 0 && all_digits(body) && digits_val(body) <= max {
        Some(digits_val(body))
    } else {
        None
    }
}

pub proof fn lemma_digits_val_extend(s: Seq<char>, i: int)
    requires
        0 <= i < s.len(),
    ensures
        digits_val(s.take(i + 1)) == digits_val(s.take(i)) * 10 + digit_of(s[i]).unwrap_or(0),
{
    let t = s.take(i + 1);
    assert(t.take(t.len() - 1) =~= s.take(i));
    assert(t.last() == s[i]);
}

/// Appending digits never lowers the value.
pub proof fn lemma_digits_val_monotone(s: Seq<char>, i: int)
    requires
        0 <= i <= s.len(),
    ensures
        digits_val(s) >= digits_val(s.take(i)),
    decreases s.len() - i,
{
    if i < s.len() {
        lemma_digits_val_extend(s, i);
        lemma_digits_val_monotone(s, i + 1);
        assert(digits_val(s.take(i + 1)) >= digits_val(s.take(i))) by {
            assert(digits_val(s.take(i)) * 10 >= digits_val(s.take(i))) by (nonlinear_arith);
        }
    } else {
        assert(s.take(i) =~= s);
    }
}

/// The decimal text of a number holds digits only.
pub proof fn lemma_dec_text_digits(n: nat)
    ensures
        dec_text(n).len() >= 1,
        all_digits(dec_text(n)),
        digit_of(dec_text(n)[0]) is Some,
        dec_text(n)[0] != '+',
        !dec_text(n).contains(' '),
        !dec_text(n).contains('\t'),
        !dec_text(n).contains('"'),
        !dec_text(n).contains('\n'),
        !dec_text(n).contains(','),
        !dec_text(n).contains('-'),
    decreases n,
{
    if n >= 10 {
        lemma_dec_text_digits(n / 10);
        let s = dec_text(n);
        assert forall|i: int| 0 <= i < s.len() implies #[trigger] digit_of(s[i]) is Some by {
            if i < s.len() - 1 {
                assert(s[i] == dec_text(n / 10)[i]);
            }
        }
        assert forall|i: int| 0 <= i < s.len() implies s[i] != ' ' && s[i] != '\t' && s[i] != '"'
            && s[i] != '\n' && s[i] != ',' && s[i] != '-' && s[i] != '+' by {
            assert(digit_of(s[i]) is Some);
        }
        assert(!s.contains(' ') && !s.contains('\t') && !s.contains('"') && !s.contains('\n')
            && !s.contains(',') && !s.contains('-'));
    } else {
        let s = dec_text(n);
        assert(s.len() == 1);
        assert(digit_of(s[0]) is Some);
        assert(!s.contains(' ') && !s.contains('\t') && !s.contains('"') && !s.contains('\n')
            && !s.contains(',') && !s.contains('-'));
    }
}

/// Parsing the decimal text of a value gives the value back.
pub proof fn lemma_dec_round_trip(n: nat, max: nat)
    requires
        n <= max,
    ensures
        parse_dec(dec_text(n), max) == Some(n),
    decreases n,
{
    lemma_dec_text_digits(n);
    lemma_digits_val_of_dec_text(n);
    let s = dec_text(n);
    assert(s[0] != '+');
}

pub proof fn lemma_digits_val_of_dec_text(n: nat)
    ensures
        digits_val(dec_text(n)) == n,
    decreases n,
{
    if n < 10 {
        let s = dec_text(n);
        assert(s =~= seq![dec_digit(n)]);
        assert(s.take(s.len() - 1) =~= Seq::<char>::empty());
        assert(digits_val(s.take(s.len() - 1)) == 0);
        assert(s.last() == dec_digit(n));
        assert(digit_of(dec_digit(n)) == Some(n));
        assert(digits_val(s) == n);
    } else {
        lemma_digits_val_of_dec_text(n / 10);
        let s = dec_text(n);
        let p = dec_text(n / 10);
        assert(s == p.push(dec_digit(n % 10)));
        assert(s.take(s.len() - 1) =~= p);
        assert(s.last() == dec_digit(n % 10));
        assert(digit_of(dec_digit(n % 10)) == Some(n % 10));
        assert(digits_val(s) == digits_val(p) * 10 + (n % 10));
        assert(digits_val(p) == n / 10);
        assert(digits_val(s) == (n / 10) * 10 + n % 10);
        assert((n / 10) * 10 + n % 10 == n) by (nonlinear_arith);
    }
}

/// The numeric value of a digit character, if it is one.
pub fn digit_value(c: char) -> (r: Option<u8>)
    ensures
        match r {
            Some(d) => digit_of(c) == Some(d as nat),
            None => digit_of(c) is None,
        },
{
    if c == '0' {
        Some(0)
    } else if c == '1' {
        Some(1)
    } else if c == '2' {
        Some(2)
    } else if c == '3' {
        Some(3)
    } else if c == '4' {
        Some(4)
    } else if c == '5' {
        Some(5)
    } else if c == '6' {
        Some(6)
    } else if c == '7' {
        Some(7)
    } else if c == '8' {
        Some(8)
    } else if c == '9' {
        Some(9)
    } else {
        None
    }
}

/// The digit character of a value below ten.
pub fn digit_char(d: u32) -> (r: char)
    requires
        d < 10,
    ensures
        r == dec_digit(d as nat),
{
    if d == 0 {
        '0'
    } else if d == 1 {
        '1'
    } else if d == 2 {
        '2'
    } else if d == 3 {
        '3'
    } else if d == 4 {
        '4'
    } else if d == 5 {
        '5'
    } else if d == 6 {
        '6'
    } else if d == 7 {
        '7'
    } else if d == 8 {
        '8'
    } else {
        '9'
    }
}

/// The decimal text of a `u32` value.
pub fn format_u32(n: u32) -> (r: String)
    ensures
        r@ == dec_text(n as nat),
    decreases n,
{
    if n < 10 {
        let mut s = String::new();
        s.push(digit_char(n));
        proof {
            assert(s@ =~= dec_text(n as nat));
        }
        s
    } else {
        let mut s = format_u32(n / 10);
        s.push(digit_char(n % 10));
        s
    }
}

/// Parses decimal text as the original flag values do: an optional
/// leading plus, then digits, rejecting values above `max`.
pub fn parse_dec_chars(t: &Vec<char>, max: u32) -> (r: Option<u32>)
    ensures
        match r {
            Some(v) => parse_dec(t@, max as nat) == Some(v as nat),
            None => parse_dec(t@, max as nat) is None,
        },
{
    let start: usize = if t.len() >= 1 && t[0] == '+' {
        1
    } else {
        0
    };
    let ghost body = if t@.len() >= 1 && t@[0] == '+' {
        t@.skip(1)
    } else {
        t@
    };
    proof {
        assert(body =~= t@.skip(start as int));
    }
    if t.len() == start {
        return None;
    }
    let mut acc: u32 = 0;
    let mut i: usize = start;
    while i < t.len()
        invariant
            start <= i <= t@.len(),
            body == t@.skip(start as int),
            body == (if t@.len() >= 1 && t@[0] == '+' {
                t@.skip(1)
            } else {
                t@
            }),
            body.len() == t@.len() - start,
            acc <= max,
            all_digits(body.take(i - start)),
            acc as nat == digits_val(body.take(i - start)),
        decreases t@.len() - i,
    {
        let c = t[i];
        proof {
            assert(body[i - start] == t@[i as int]);
        }
        match digit_value(c) {
            None => {
                proof {
                    assert(digit_of(body[i - start]) is None);
                    assert(!all_digits(body));
                }
                return None;
            },
            Some(d) => {
                proof {
                    lemma_digits_val_extend(body, i - start);
                    assert(body.take(i - start + 1).take(i - start) =~= body.take(i - start));
                }
                let wide: u64 = (acc as u64) * 10 + (d as u64);
                proof {
                    assert(wide as nat == digits_val(body.take(i - start + 1)));
                }
                if wide > max as u64 {
                    proof {
                        lemma_digits_val_monotone(body, i - start + 1);
                        assert(digits_val(body) > max);
                    }
                    return None;
                }
                acc = wide as u32;
                i = i + 1;
                proof {
                    assert(all_digits(body.take(i - start))) by {
                        assert(forall|j: int|
                            0 <= j < i - start ==> body.take(i - start)[j] == body[j]);
                    }
                }
            },
        }
    }
    proof {
        assert(body.take(i - start) =~= body);
    }
    Some(acc)
}

} // verus!
