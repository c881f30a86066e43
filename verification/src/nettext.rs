//! The textual grammars of address-valued and fraction-valued flags: a
//! dotted-quad IPv4 address, an IPv6 address with optional `::`
//! compression and an optional embedded IPv4 tail, and a decimal
//! fraction with an optional exponent or an infinity/not-a-number word.
//! The parser admits a value for such a flag only when it matches the
//! field's grammar.
use vstd::prelude::*;
use crate::chars::string_of_chars;
use crate::numbers::{digit_of, digits_val, all_digits, digit_value};

verus! {

/// Splitting on a separator character; every separator ends a piece.
pub open spec fn split_sep_rec(s: Seq<char>, sep: char, cur: Seq<char>) -> Seq<Seq<char>>
    decreases s.len(),
{
    if s.len() == 0 {
        seq![cur]
    } else if s[0] == sep {
        seq![cur] + split_sep_rec(s.skip(1), sep, Seq::empty())
    } else {
        split_sep_rec(s.skip(1), sep, cur.push(s[0]))
    }
}

pub open spec fn split_sep(s: Seq<char>, sep: char) -> Seq<Seq<char>> {
    split_sep_rec(s, sep, Seq::empty())
}

/// One octet of a dotted quad: one to three digits, no leading zero, at
/// most 255.
pub open spec fn ipv4_part_ok(p: Seq<char>) -> bool {
    1 <= p.len() <= 3 && all_digits(p) && (p.len() == 1 || p[0] != '0') && digits_val(p) <= 255
}

/// A dotted-quad IPv4 address: exactly four octets.
pub open spec fn is_ipv4_text(s: Seq<char>) -> bool {
    let parts = split_sep(s, '.');
    parts.len() == 4 && (forall|i: int| 0 <= i < 4 ==> ipv4_part_ok(#[trigger] parts[i]))
}

pub open spec fn is_hex_digit(c: char) -> bool {
    digit_of(c) is Some || c == 'a' || c == 'b' || c == 'c' || c == 'd' || c == 'e' || c == 'f'
        || c == 'A' || c == 'B' || c == 'C' || c == 'D' || c == 'E' || c == 'F'
}

/// One IPv6 group: one to four hexadecimal digits.
pub open spec fn hex_group_ok(p: Seq<char>) -> bool {
    1 <= p.len() <= 4 && (forall|i: int| 0 <= i < p.len() ==> is_hex_digit(#[trigger] p[i]))
}

pub open spec fn all_hex_groups(parts: Seq<Seq<char>>, from: int, to: int) -> bool {
    forall|i: int| from <= i < to ==> hex_group_ok(#[trigger] parts[i])
}

pub open spec fn all_nonempty(parts: Seq<Seq<char>>, from: int, to: int) -> bool {
    forall|i: int| from <= i < to ==> (#[trigger] parts[i]).len() > 0
}

/// The group count of the pieces from `from` to the end, where the last
/// piece may be an embedded IPv4 address counting as two groups.
pub open spec fn back_units(parts: Seq<Seq<char>>, from: int) -> Option<int> {
    let n = parts.len() as int;
    if from >= n {
        None
    } else if all_hex_groups(parts, from, n - 1) {
        if hex_group_ok(parts[n - 1]) {
            Some(n - from)
        } else if is_ipv4_text(parts[n - 1]) {
            Some(n - from + 1)
        } else {
            None
        }
    } else {
        None
    }
}

/// An IPv6 address in its standard text forms: eight colon-separated
/// groups, a single `::` compressing one or more zero groups (leading,
/// trailing, in the middle, or alone), and optionally an embedded IPv4
/// address as the tail.
pub open spec fn is_ipv6_text(s: Seq<char>) -> bool {
    let parts = split_sep(s, ':');
    let n = parts.len() as int;
    if n < 3 {
        n == 8  // unreachable: without a compression eight groups are needed
    } else if all_nonempty(parts, 0, n) {
        back_units(parts, 0) == Some(8int)
    } else if parts[0].len() == 0 && parts[1].len() == 0 {
        // leading "::"
        if n == 3 && parts[2].len() == 0 {
            true  // the address "::"
        } else {
            all_nonempty(parts, 2, n) && (match back_units(parts, 2) {
                Some(u) => u <= 7,
                None => false,
            })
        }
    } else if parts[n - 1].len() == 0 && parts[n - 2].len() == 0 {
        // trailing "::"
        all_nonempty(parts, 0, n - 2) && all_hex_groups(parts, 0, n - 2) && n - 2 <= 7 && n >= 3
    } else {
        // a single empty piece in the middle
        exists|k: int|
            0 < k < n - 1 && (#[trigger] parts[k]).len() == 0 && all_nonempty(parts, 0, k)
                && all_nonempty(parts, k + 1, n) && all_hex_groups(parts, 0, k) && (match
                back_units(parts, k + 1) {
                Some(u) => k + u <= 7,
                None => false,
            })
    }
}

/// An address in either standard text form.
pub open spec fn is_ip_text(s: Seq<char>) -> bool {
    is_ipv4_text(s) || is_ipv6_text(s)
}

/// The index of the first non-digit at or after `i`.
pub open spec fn skip_digits(s: Seq<char>, i: int) -> int
    decreases s.len() - i,
{
    if 0 <= i < s.len() && digit_of(s[i]) is Some {
        skip_digits(s, i + 1)
    } else {
        i
    }
}

/// From `i` on: nothing, or an exponent marker, an optional sign and at
/// least one digit reaching the end.
pub open spec fn exp_or_end(s: Seq<char>, i: int) -> bool {
    if i == s.len() {
        true
    } else if 0 <= i < s.len() && (s[i] == 'e' || s[i] == 'E') {
        let k = if i + 1 < s.len() && (s[i + 1] == '+' || s[i + 1] == '-') {
            i + 2
        } else {
            i + 1
        };
        k < s.len() + 1 && skip_digits(s, k) == s.len() && k < s.len()
    } else {
        false
    }
}

pub open spec fn lower_ascii(c: char) -> char {
    if c == 'I' {
        'i'
    } else if c == 'N' {
        'n'
    } else if c == 'F' {
        'f'
    } else if c == 'A' {
        'a'
    } else if c == 'T' {
        't'
    } else if c == 'Y' {
        'y'
    } else {
        c
    }
}

/// The words `inf`, `infinity` and `nan`, in any letter case.
pub open spec fn is_inf_nan_text(b: Seq<char>) -> bool {
    (b.len() == 3 && lower_ascii(b[0]) == 'i' && lower_ascii(b[1]) == 'n' && lower_ascii(b[2])
        == 'f') || (b.len() == 8 && lower_ascii(b[0]) == 'i' && lower_ascii(b[1]) == 'n'
        && lower_ascii(b[2]) == 'f' && lower_ascii(b[3]) == 'i' && lower_ascii(b[4]) == 'n'
        && lower_ascii(b[5]) == 'i' && lower_ascii(b[6]) == 't' && lower_ascii(b[7]) == 'y') || (
    b.len() == 3 && lower_ascii(b[0]) == 'n' && lower_ascii(b[1]) == 'a' && lower_ascii(b[2])
        == 'n')
}

/// A number body: digits with an optional fraction, or a fraction
/// starting at the dot, each with an optional exponent.
pub open spec fn is_number_text(b: Seq<char>) -> bool {
    let i = skip_digits(b, 0);
    if i == 0 {
        b.len() > 1 && b[0] == '.' && skip_digits(b, 1) > 1 && exp_or_end(b, skip_digits(b, 1))
    } else {
        if i < b.len() && b[i] == '.' {
            exp_or_end(b, skip_digits(b, i + 1))
        } else {
            exp_or_end(b, i)
        }
    }
}

/// What the port ratio flag accepts: an optional sign, then a number or
/// an infinity/not-a-number word.
pub open spec fn is_ratio_text(s: Seq<char>) -> bool {
    let b = if s.len() >= 1 && (s[0] == '+' || s[0] == '-') {
        s.skip(1)
    } else {
        s
    };
    is_inf_nan_text(b) || is_number_text(b)
}

/// Splits token characters on a separator.
fn split_sep_strs(t: &Vec<char>, sep: char) -> (r: Vec<String>)
    ensures
        r.deep_view() == split_sep(t@, sep),
{
    let mut out: Vec<String> = Vec::new();
    let mut cur: Vec<char> = Vec::new();
    let mut i: usize = 0;
    proof {
        assert(out.deep_view() =~= Seq::<Seq<char>>::empty());
        assert(t@.skip(0) =~= t@);
        assert(out.deep_view() + split_sep_rec(t@, sep, cur@) =~= split_sep_rec(t@, sep, cur@));
    }
    while i < t.len()
        invariant
            i <= t@.len(),
            split_sep(t@, sep) == out.deep_view() + split_sep_rec(t@.skip(i as int), sep, cur@),
        decreases t@.len() - i,
    {
        proof {
            assert(t@.skip(i as int)[0] == t@[i as int]);
            assert(t@.skip(i as int).skip(1) =~= t@.skip(i + 1));
        }
        if t[i] == sep {
            let ghost prev_dv = out.deep_view();
            let ghost prev_cur = cur@;
            let piece = string_of_chars(&cur);
            out.push(piece);
            cur = Vec::new();
            proof {
                assert(out.deep_view() =~= prev_dv.push(prev_cur));
                assert(cur@ =~= Seq::<char>::empty());
                assert(prev_dv + (seq![prev_cur] + split_sep_rec(t@.skip(i + 1), sep, cur@))
                    =~= prev_dv.push(prev_cur) + split_sep_rec(t@.skip(i + 1), sep, cur@));
            }
        } else {
            let c = t[i];
            cur.push(c);
        }
        i = i + 1;
    }
    proof {
        assert(t@.skip(i as int) =~= Seq::<char>::empty());
    }
    let ghost prev_dv = out.deep_view();
    let ghost prev_cur = cur@;
    let piece = string_of_chars(&cur);
    out.push(piece);
    proof {
        assert(out.deep_view() =~= prev_dv.push(prev_cur));
        assert(prev_dv + seq![prev_cur] =~= prev_dv.push(prev_cur));
        assert(split_sep(t@, sep) =~= out.deep_view());
    }
    out
}

/// Whether every piece in the range is nonempty.
fn nonempty_range(parts: &Vec<String>, from: usize, to: usize) -> (r: bool)
    requires
        from <= to <= parts@.len(),
    ensures
        r == all_nonempty(parts.deep_view(), from as int, to as int),
{
    let mut i: usize = from;
    while i < to
        invariant
            from <= i <= to <= parts@.len(),
            parts.deep_view().len() == parts@.len(),
            all_nonempty(parts.deep_view(), from as int, i as int),
        decreases to - i,
    {
        proof {
            assert(parts.deep_view()[i as int] == parts@[i as int]@);
        }
        if parts[i].as_str().unicode_len() == 0 {
            proof {
                assert(!all_nonempty(parts.deep_view(), from as int, to as int));
            }
            return false;
        }
        i = i + 1;
    }
    true
}

fn hex_digit_check(c: char) -> (r: bool)
    ensures
        r == is_hex_digit(c),
{
    let d = digit_value(c);
    d.is_some() || c == 'a' || c == 'b' || c == 'c' || c == 'd' || c == 'e' || c == 'f' || c == 'A'
        || c == 'B' || c == 'C' || c == 'D' || c == 'E' || c == 'F'
}

fn hex_group_check(p: &Vec<char>) -> (r: bool)
    ensures
        r == hex_group_ok(p@),
{
    if p.len() < 1 || p.len() > 4 {
        return false;
    }
    let mut i: usize = 0;
    while i < p.len()
        invariant
            i <= p@.len(),
            forall|j: int| 0 <= j < i ==> is_hex_digit(#[trigger] p@[j]),
        decreases p@.len() - i,
    {
        if !hex_digit_check(p[i]) {
            return false;
        }
        i = i + 1;
    }
    true
}

/// Whether every piece in the range is a hexadecimal group.
fn hex_range(parts: &Vec<String>, from: usize, to: usize) -> (r: bool)
    requires
        from <= to <= parts@.len(),
    ensures
        r == all_hex_groups(parts.deep_view(), from as int, to as int),
{
    let mut i: usize = from;
    while i < to
        invariant
            from <= i <= to <= parts@.len(),
            parts.deep_view().len() == parts@.len(),
            all_hex_groups(parts.deep_view(), from as int, i as int),
        decreases to - i,
    {
        proof {
            assert(parts.deep_view()[i as int] == parts@[i as int]@);
        }
        let pc = crate::chars::chars_of_str(parts[i].as_str());
        if !hex_group_check(&pc) {
            proof {
                assert(!all_hex_groups(parts.deep_view(), from as int, to as int));
            }
            return false;
        }
        i = i + 1;
    }
    true
}

/// Whether one piece is a valid dotted-quad octet.
fn ipv4_part_check(p: &Vec<char>) -> (r: bool)
    ensures
        r == ipv4_part_ok(p@),
{
    if p.len() < 1 || p.len() > 3 {
        return false;
    }
    if p.len() > 1 && p[0] == '0' {
        return false;
    }
    let mut val: u32 = 0;
    let mut i: usize = 0;
    while i < p.len()
        invariant
            i <= p@.len(),
            p@.len() <= 3,
            all_digits(p@.take(i as int)),
            val as nat == digits_val(p@.take(i as int)),
            i == 0 ==> val == 0,
            i == 1 ==> val <= 9,
            i == 2 ==> val <= 99,
            i == 3 ==> val <= 999,
        decreases p@.len() - i,
    {
        match digit_value(p[i]) {
            None => {
                proof {
                    assert(digit_of(p@[i as int]) is None);
                    assert(!all_digits(p@));
                }
                return false;
            },
            Some(d) => {
                proof {
                    crate::numbers::lemma_digits_val_extend(p@, i as int);
                    assert(p@.take(i + 1).take(i as int) =~= p@.take(i as int));
                }
                val = val * 10 + (d as u32);
                i = i + 1;
                proof {
                    assert(all_digits(p@.take(i as int))) by {
                        assert(forall|j: int| 0 <= j < i ==> p@.take(i as int)[j] == p@[j]);
                    }
                }
            },
        }
    }
    proof {
        assert(p@.take(i as int) =~= p@);
    }
    val <= 255
}

/// Whether the text is a dotted-quad IPv4 address.
pub fn ipv4_check(t: &Vec<char>) -> (r: bool)
    ensures
        r == is_ipv4_text(t@),
{
    let parts = split_sep_strs(t, '.');
    proof {
        assert(parts.deep_view().len() == parts@.len());
    }
    if parts.len() != 4 {
        return false;
    }
    let mut i: usize = 0;
    while i < 4
        invariant
            i <= 4,
            parts@.len() == 4,
            parts.deep_view() == split_sep(t@, '.'),
            parts.deep_view().len() == 4,
            forall|j: int| 0 <= j < i ==> ipv4_part_ok(#[trigger] parts.deep_view()[j]),
        decreases 4 - i,
    {
        proof {
            assert(parts.deep_view()[i as int] == parts@[i as int]@);
        }
        let pc = crate::chars::chars_of_str(parts[i].as_str());
        if !ipv4_part_check(&pc) {
            return false;
        }
        i = i + 1;
    }
    true
}

/// The group count of the pieces from `from` on, embedded IPv4 tail
/// allowed.
fn back_units_check(parts: &Vec<String>, from: usize) -> (r: Option<usize>)
    requires
        parts@.len() <= 1000,
    ensures
        match r {
            Some(u) => back_units(parts.deep_view(), from as int) == Some(u as int),
            None => back_units(parts.deep_view(), from as int) is None,
        },
{
    let n = parts.len();
    if from >= n {
        return None;
    }
    if !hex_range(parts, from, n - 1) {
        return None;
    }
    proof {
        assert(parts.deep_view()[n - 1] == parts@[n - 1]@);
    }
    let pc = crate::chars::chars_of_str(parts[n - 1].as_str());
    if hex_group_check(&pc) {
        Some(n - from)
    } else if ipv4_check(&pc) {
        Some(n - from + 1)
    } else {
        None
    }
}

/// Whether the text is an IPv6 address.
pub fn ipv6_check(t: &Vec<char>) -> (r: bool)
    ensures
        r == is_ipv6_text(t@),
{
    let parts = split_sep_strs(t, ':');
    let n = parts.len();
    let ghost dv = parts.deep_view();
    proof {
        assert(dv.len() == n);
    }
    if n > 100 {
        proof {
            if is_ipv6_text(t@) {
                let nn = dv.len() as int;
                if all_nonempty(dv, 0, nn) {
                    assert(back_units(dv, 0) == Some(8int));
                    assert(nn <= 8);
                } else if dv[0].len() == 0 && dv[1].len() == 0 {
                    if nn == 3 && dv[2].len() == 0 {
                    } else {
                        assert(match back_units(dv, 2) {
                            Some(u) => u <= 7,
                            None => false,
                        });
                        assert(nn <= 10);
                    }
                } else if dv[nn - 1].len() == 0 && dv[nn - 2].len() == 0 {
                    assert(nn - 2 <= 7);
                } else {
                    let k = choose|k: int|
                        0 < k < nn - 1 && (#[trigger] dv[k]).len() == 0 && all_nonempty(dv, 0, k)
                            && all_nonempty(dv, k + 1, nn) && all_hex_groups(dv, 0, k) && (match
                            back_units(dv, k + 1) {
                            Some(u) => k + u <= 7,
                            None => false,
                        });
                    assert(nn <= 10);
                }
                assert(false);
            }
        }
        return false;
    }
    if n < 3 {
        return false;
    }
    if nonempty_range(&parts, 0, n) {
        let r = back_units_check(&parts, 0);
        return match r {
            Some(u) => u == 8,
            None => false,
        };
    }
    proof {
        assert(dv[0] == parts@[0]@);
        assert(dv[1] == parts@[1]@);
        assert(dv[n - 1] == parts@[n - 1]@);
        assert(dv[n - 2] == parts@[n - 2]@);
    }
    let e0 = parts[0].as_str().unicode_len() == 0;
    let e1 = parts[1].as_str().unicode_len() == 0;
    let elast = parts[n - 1].as_str().unicode_len() == 0;
    let elast2 = parts[n - 2].as_str().unicode_len() == 0;
    if e0 && e1 {
        // leading "::"
        if n == 3 {
            proof {
                assert(dv[2] == parts@[2]@);
            }
            if parts[2].as_str().unicode_len() == 0 {
                return true;
            }
        }
        if !nonempty_range(&parts, 2, n) {
            return false;
        }
        let r = back_units_check(&parts, 2);
        return match r {
            Some(u) => u <= 7,
            None => false,
        };
    }
    if elast && elast2 {
        // trailing "::"
        proof {
            assert(!(dv[0].len() == 0 && dv[1].len() == 0));
        }
        let ok = nonempty_range(&parts, 0, n - 2) && hex_range(&parts, 0, n - 2) && n - 2 <= 7;
        return ok;
    }
    // a single middle empty: find the first empty piece
    let mut k: usize = 0;
    let mut found: bool = false;
    while !found && k < n
        invariant
            k <= n,
            n == parts@.len(),
            dv == parts.deep_view(),
            dv.len() == n,
            all_nonempty(dv, 0, k as int),
            found ==> k < n && dv[k as int].len() == 0,
        decreases n - k, (if found { 0int } else { 1int }),
    {
        proof {
            assert(dv[k as int] == parts@[k as int]@);
        }
        if parts[k].as_str().unicode_len() == 0 {
            found = true;
        } else {
            k = k + 1;
        }
    }
    proof {
        assert(!all_nonempty(dv, 0, n as int));
        if k == n {
            assert(all_nonempty(dv, 0, n as int));
        }
        assert(found);
        assert(dv[k as int].len() == 0);
        // every witness of the middle form is this first empty piece
        assert(forall|kk: int|
            0 < kk < n - 1 && (#[trigger] dv[kk]).len() == 0 && all_nonempty(dv, 0, kk) ==> kk
                == k as int);
        assert(!(dv[0].len() == 0 && dv[1].len() == 0));
        assert(!(dv[n - 1].len() == 0 && dv[n - 2].len() == 0));
    }
    if k == 0 || k >= n - 1 {
        proof {
            assert(!is_ipv6_text(t@)) by {
                assert(forall|kk: int|
                    0 < kk < n - 1 && (#[trigger] dv[kk]).len() == 0 && all_nonempty(dv, 0, kk)
                        ==> kk == k as int);
            }
        }
        return false;
    }
    let rest_ok = nonempty_range(&parts, k + 1, n) && hex_range(&parts, 0, k);
    if !rest_ok {
        proof {
            assert(!is_ipv6_text(t@));
        }
        return false;
    }
    let r = back_units_check(&parts, k + 1);
    let ok = match r {
        Some(u) => k + u <= 7,
        None => false,
    };
    proof {
        if ok {
            assert(is_ipv6_text(t@));
        } else {
            assert(!is_ipv6_text(t@));
        }
    }
    ok
}

/// Whether the text is an address in either form.
pub fn ip_text_check(t: &Vec<char>) -> (r: bool)
    ensures
        r == is_ip_text(t@),
{
    if ipv4_check(t) {
        true
    } else {
        ipv6_check(t)
    }
}

/// The first non-digit position at or after `i`.
fn skip_digits_exec(t: &Vec<char>, i: usize) -> (r: usize)
    requires
        i <= t@.len(),
    ensures
        i <= r <= t@.len(),
        r as int == skip_digits(t@, i as int),
{
    let mut j: usize = i;
    while j < t.len()
        invariant
            i <= j <= t@.len(),
            skip_digits(t@, i as int) == skip_digits(t@, j as int),
        decreases t@.len() - j,
    {
        match digit_value(t[j]) {
            Some(_) => {
                j = j + 1;
            },
            None => {
                return j;
            },
        }
    }
    j
}

fn lower_ascii_exec(c: char) -> (r: char)
    ensures
        r == lower_ascii(c),
{
    if c == 'I' {
        'i'
    } else if c == 'N' {
        'n'
    } else if c == 'F' {
        'f'
    } else if c == 'A' {
        'a'
    } else if c == 'T' {
        't'
    } else if c == 'Y' {
        'y'
    } else {
        c
    }
}

/// Whether the text is one of the words inf, infinity or nan.
fn inf_nan_check(b: &Vec<char>) -> (r: bool)
    ensures
        r == is_inf_nan_text(b@),
{
    if b.len() == 3 {
        let c0 = lower_ascii_exec(b[0]);
        let c1 = lower_ascii_exec(b[1]);
        let c2 = lower_ascii_exec(b[2]);
        (c0 == 'i' && c1 == 'n' && c2 == 'f') || (c0 == 'n' && c1 == 'a' && c2 == 'n')
    } else if b.len() == 8 {
        let c0 = lower_ascii_exec(b[0]);
        let c1 = lower_ascii_exec(b[1]);
        let c2 = lower_ascii_exec(b[2]);
        let c3 = lower_ascii_exec(b[3]);
        let c4 = lower_ascii_exec(b[4]);
        let c5 = lower_ascii_exec(b[5]);
        let c6 = lower_ascii_exec(b[6]);
        let c7 = lower_ascii_exec(b[7]);
        c0 == 'i' && c1 == 'n' && c2 == 'f' && c3 == 'i' && c4 == 'n' && c5 == 'i' && c6 == 't'
            && c7 == 'y'
    } else {
        false
    }
}

fn exp_or_end_exec(t: &Vec<char>, i: usize) -> (r: bool)
    requires
        i <= t@.len(),
    ensures
        r == exp_or_end(t@, i as int),
{
    if i == t.len() {
        return true;
    }
    if t[i] == 'e' || t[i] == 'E' {
        let k: usize = if i + 1 < t.len() && (t[i + 1] == '+' || t[i + 1] == '-') {
            i + 2
        } else {
            i + 1
        };
        if k < t.len() {
            let e = skip_digits_exec(t, k);
            e == t.len()
        } else {
            false
        }
    } else {
        false
    }
}

/// Whether the text is a number body.
fn number_text_check(b: &Vec<char>) -> (r: bool)
    ensures
        r == is_number_text(b@),
{
    let i0 = skip_digits_exec(b, 0);
    if i0 == 0 {
        if b.len() > 1 && b[0] == '.' {
            let j = skip_digits_exec(b, 1);
            if j > 1 {
                exp_or_end_exec(b, j)
            } else {
                false
            }
        } else {
            false
        }
    } else {
        if i0 < b.len() && b[i0] == '.' {
            let j = skip_digits_exec(b, i0 + 1);
            exp_or_end_exec(b, j)
        } else {
            exp_or_end_exec(b, i0)
        }
    }
}

/// Whether the text, after an optional sign, is a number or an
/// infinity/not-a-number word.
pub fn ratio_text_check(t: &Vec<char>) -> (r: bool)
    ensures
        r == is_ratio_text(t@),
{
    let start: usize = if t.len() >= 1 && (t[0] == '+' || t[0] == '-') {
        1
    } else {
        0
    };
    let mut b: Vec<char> = Vec::new();
    let mut i: usize = start;
    while i < t.len()
        invariant
            start <= i <= t@.len(),
            b@ == t@.skip(start as int).take(i - start),
        decreases t@.len() - i,
    {
        let c = t[i];
        b.push(c);
        i = i + 1;
        proof {
            assert(b@ =~= t@.skip(start as int).take(i - start));
        }
    }
    proof {
        assert(b@ =~= t@.skip(start as int));
        assert(b@ == (if t@.len() >= 1 && (t@[0] == '+' || t@[0] == '-') {
            t@.skip(1)
        } else {
            t@
        }));
    }
    let word = inf_nan_check(&b);
    let num = number_text_check(&b);
    word || num
}

/// Relays the address check to a string value, as the parser receives it.
pub fn ip_string_check(s: &str) -> (r: bool)
    ensures
        r == is_ip_text(s@),
{
    let v = crate::chars::chars_of_str(s);
    ip_text_check(&v)
}

/// Relays the ratio check to a string value, as the parser receives it.
pub fn ratio_string_check(s: &str) -> (r: bool)
    ensures
        r == is_ratio_text(s@),
{
    let v = crate::chars::chars_of_str(s);
    ratio_text_check(&v)
}

} // verus!
