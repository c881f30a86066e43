//! Character-level helpers shared by the builder, the parser and the
//! tokenizer: token quoting, escaping, and conversions between `String`
//! and `Vec<char>`.
use vstd::prelude::*;

verus! {

/// Relies on std's `String::push`: appends exactly the given character.
pub assume_specification[ String::push ](s: &mut String, c: char)
    ensures
        final(s)@ == old(s)@.push(c),
;

/// Returns true when the character separates tokens outside quotes.
pub open spec fn is_sep(c: char) -> bool {
    c == ' ' || c == '\t' || c == '\n'
}

/// A token must be wrapped in double quotes when it holds a space, a tab
/// or a double quote.
pub open spec fn needs_quote(t: Seq<char>) -> bool {
    t.contains(' ') || t.contains('\t') || t.contains('"')
}

/// Each double quote in the token becomes a backslash-escaped quote.
pub open spec fn escape_quotes(t: Seq<char>) -> Seq<char>
    decreases t.len(),
{
    if t.len() == 0 {
        Seq::empty()
    } else {
        (if t[0] == '"' {
            seq!['\\', '"']
        } else {
            seq![t[0]]
        }) + escape_quotes(t.skip(1))
    }
}

/// The rendered form of one token: quoted with inner quotes escaped when
/// quoting is needed, the token itself otherwise.
pub open spec fn quote_token(t: Seq<char>) -> Seq<char> {
    if needs_quote(t) {
        seq!['"'] + escape_quotes(t) + seq!['"']
    } else {
        t
    }
}

pub proof fn lemma_escape_concat(a: Seq<char>, b: Seq<char>)
    ensures
        escape_quotes(a + b) == escape_quotes(a) + escape_quotes(b),
    decreases a.len(),
{
    if a.len() == 0 {
        assert(a + b =~= b);
        assert(escape_quotes(a) + escape_quotes(b) =~= escape_quotes(b));
    } else {
        assert((a + b).skip(1) =~= a.skip(1) + b);
        lemma_escape_concat(a.skip(1), b);
        assert(escape_quotes(a + b) =~= escape_quotes(a) + escape_quotes(b));
    }
}

/// The characters of a string slice, in order.
pub fn chars_of_str(s: &str) -> (v: Vec<char>)
    ensures
        v@ == s@,
{
    let n = s.unicode_len();
    let mut v: Vec<char> = Vec::new();
    let mut i: usize = 0;
    while i < n
        invariant
            i <= n,
            n == s@.len(),
            v@ == s@.take(i as int),
        decreases n - i,
    {
        let c = s.get_char(i);
        v.push(c);
        i = i + 1;
        proof {
            assert(v@ =~= s@.take(i as int));
        }
    }
    proof {
        assert(v@ =~= s@);
    }
    v
}

/// A string holding exactly the given characters.
pub fn string_of_chars(v: &Vec<char>) -> (s: String)
    ensures
        s@ == v@,
{
    let mut s = String::new();
    let mut i: usize = 0;
    while i < v.len()
        invariant
            i <= v@.len(),
            s@ == v@.take(i as int),
        decreases v@.len() - i,
    {
        s.push(v[i]);
        i = i + 1;
        proof {
            assert(s@ =~= v@.take(i as int));
        }
    }
    proof {
        assert(s@ =~= v@);
    }
    s
}

/// The rendered form of one token, quoting and escaping when needed.
pub fn quote_string(s: &str) -> (r: String)
    ensures
        r@ == quote_token(s@),
{
    let v = chars_of_str(s);
    let needs = vec_contains_char(&v, ' ') || vec_contains_char(&v, '\t') || vec_contains_char(
        &v,
        '"',
    );
    proof {
        assert(needs == needs_quote(s@));
    }
    if !needs {
        return s.to_owned();
    }
    let mut out = String::new();
    out.push('"');
    let mut i: usize = 0;
    while i < v.len()
        invariant
            i <= v@.len(),
            v@ == s@,
            needs_quote(s@),
            out@ == seq!['"'] + escape_quotes(s@.take(i as int)),
        decreases v@.len() - i,
    {
        let c = v[i];
        if c == '"' {
            out.push('\\');
            out.push('"');
        } else {
            out.push(c);
        }
        i = i + 1;
        proof {
            lemma_escape_concat(s@.take(i - 1), seq![s@[i - 1]]);
            assert(s@.take(i as int) =~= s@.take(i - 1) + seq![s@[i - 1]]);
            assert(seq![s@[i - 1]].skip(1) =~= Seq::<char>::empty());
            assert(escape_quotes(Seq::<char>::empty()) =~= Seq::<char>::empty());
            assert(escape_quotes(seq![s@[i - 1]]) == (if s@[i - 1] == '"' {
                seq!['\\', '"']
            } else {
                seq![s@[i - 1]]
            }) + escape_quotes(Seq::<char>::empty()));
            assert((if s@[i - 1] == '"' {
                seq!['\\', '"']
            } else {
                seq![s@[i - 1]]
            }) + escape_quotes(Seq::<char>::empty()) =~= (if s@[i - 1] == '"' {
                seq!['\\', '"']
            } else {
                seq![s@[i - 1]]
            }));
            assert(out@ =~= seq!['"'] + escape_quotes(s@.take(i as int)));
        }
    }
    out.push('"');
    proof {
        assert(s@.take(i as int) =~= s@);
        assert(out@ =~= quote_token(s@));
    }
    out
}

/// True when the vector holds the character.
pub fn vec_contains_char(v: &Vec<char>, c: char) -> (r: bool)
    ensures
        r == v@.contains(c),
{
    let mut i: usize = 0;
    while i < v.len()
        invariant
            i <= v@.len(),
            forall|j: int| 0 <= j < i ==> v@[j] != c,
        decreases v@.len() - i,
    {
        if v[i] == c {
            return true;
        }
        i = i + 1;
    }
    false
}

/// True when the characters equal the string slice's characters.
pub fn chars_eq_str(v: &Vec<char>, p: &str) -> (r: bool)
    ensures
        r == (v@ == p@),
{
    let n = p.unicode_len();
    if v.len() != n {
        return false;
    }
    let mut i: usize = 0;
    while i < n
        invariant
            i <= n,
            n == p@.len(),
            v@.len() == n,
            forall|j: int| 0 <= j < i ==> v@[j] == p@[j],
        decreases n - i,
    {
        if v[i] != p.get_char(i) {
            return false;
        }
        i = i + 1;
    }
    proof {
        assert(v@ =~= p@);
    }
    true
}

} // verus!
