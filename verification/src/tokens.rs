//! The token layer: how a command string decomposes into tokens, how the
//! builder renders tokens, and the proof that tokenizing undoes
//! rendering.
use vstd::prelude::*;
use crate::chars::{is_sep, needs_quote, escape_quotes, quote_token};

verus! {

/// One scanning step at a time: `cur` is the token being read, `inq`
/// whether an unclosed double quote is open, `acc` the finished tokens.
/// An unescaped double quote toggles quoted mode and is dropped;
/// unquoted whitespace ends the current token; inside quotes a backslash
/// escapes the next character; an unterminated quote closes at the end
/// of the input.
pub open spec fn tok_rec(s: Seq<char>, cur: Seq<char>, inq: bool, acc: Seq<Seq<char>>) -> Seq<
    Seq<char>,
>
    decreases s.len(),
{
    if s.len() == 0 {
        if cur.len() > 0 {
            acc.push(cur)
        } else {
            acc
        }
    } else {
        let c = s[0];
        if c == '"' {
            tok_rec(s.skip(1), cur, !inq, acc)
        } else if is_sep(c) && !inq {
            if cur.len() > 0 {
                tok_rec(s.skip(1), Seq::empty(), inq, acc.push(cur))
            } else {
                tok_rec(s.skip(1), cur, inq, acc)
            }
        } else if c == '\\' && inq {
            if s.len() >= 2 {
                tok_rec(s.skip(2), cur.push(s[1]), inq, acc)
            } else {
                tok_rec(s.skip(1), cur, inq, acc)
            }
        } else {
            tok_rec(s.skip(1), cur.push(c), inq, acc)
        }
    }
}

/// The tokens of a command string.
pub open spec fn spec_tokenize(s: Seq<char>) -> Seq<Seq<char>> {
    tok_rec(s, Seq::empty(), false, Seq::empty())
}

/// How the builder renders one token: a separating space, then the
/// quoted form.
pub open spec fn render_tok(t: Seq<char>) -> Seq<char> {
    seq![' '] + quote_token(t)
}

/// The rendered tail of a command: each token preceded by one space.
pub open spec fn render_tail(toks: Seq<Seq<char>>) -> Seq<char>
    decreases toks.len(),
{
    if toks.len() == 0 {
        Seq::empty()
    } else {
        render_tok(toks[0]) + render_tail(toks.skip(1))
    }
}

/// A token the grammar carries losslessly: it is not empty; if it needs
/// quoting it holds no backslash (a backslash inside quotes would escape
/// what follows it); otherwise it holds no newline (an unquoted newline
/// would split it).
pub open spec fn token_ok(t: Seq<char>) -> bool {
    t.len() > 0 && (if needs_quote(t) {
        !t.contains('\\')
    } else {
        !t.contains('\n')
    })
}

/// The rendered tail of one token is that token's rendering.
pub proof fn lemma_render_tail_single(t: Seq<char>)
    ensures
        render_tail(seq![t]) == render_tok(t),
{
    assert(seq![t].skip(1) =~= Seq::<Seq<char>>::empty());
    assert(render_tail(Seq::<Seq<char>>::empty()) =~= Seq::<char>::empty());
    assert(render_tail(seq![t]) =~= render_tok(t));
}

/// The rendered tail of a flag and its value.
pub proof fn lemma_render_tail_pair(f: Seq<char>, v: Seq<char>)
    ensures
        render_tail(seq![f, v]) == render_tok(f) + render_tok(v),
{
    assert(seq![f, v].skip(1) =~= seq![v]);
    lemma_render_tail_single(v);
    assert(render_tail(seq![f, v]) =~= render_tok(f) + render_tok(v));
}

pub proof fn lemma_render_tail_concat(a: Seq<Seq<char>>, b: Seq<Seq<char>>)
    ensures
        render_tail(a + b) == render_tail(a) + render_tail(b),
    decreases a.len(),
{
    if a.len() == 0 {
        assert(a + b =~= b);
        assert(render_tail(a) + render_tail(b) =~= render_tail(b));
    } else {
        assert((a + b).skip(1) =~= a.skip(1) + b);
        lemma_render_tail_concat(a.skip(1), b);
        assert(render_tail(a + b) =~= render_tail(a) + render_tail(b));
    }
}

/// Characters that neither separate tokens nor open quotes are read into
/// the current token one by one.
pub proof fn lemma_scan_plain(t: Seq<char>, rest: Seq<char>, cur: Seq<char>, acc: Seq<Seq<char>>)
    requires
        forall|i: int| 0 <= i < t.len() ==> !is_sep(#[trigger] t[i]) && t[i] != '"',
    ensures
        tok_rec(t + rest, cur, false, acc) == tok_rec(rest, cur + t, false, acc),
    decreases t.len(),
{
    if t.len() == 0 {
        assert(t + rest =~= rest);
        assert(cur + t =~= cur);
    } else {
        let c = t[0];
        assert((t + rest)[0] == c);
        assert((t + rest).skip(1) =~= t.skip(1) + rest);
        lemma_scan_plain(t.skip(1), rest, cur.push(c), acc);
        assert(cur.push(c) + t.skip(1) =~= cur + t);
    }
}

/// Inside quotes, the escaped form of a backslash-free token is read
/// back as the token itself.
pub proof fn lemma_scan_quoted(t: Seq<char>, rest: Seq<char>, cur: Seq<char>, acc: Seq<Seq<char>>)
    requires
        !t.contains('\\'),
    ensures
        tok_rec(escape_quotes(t) + rest, cur, true, acc) == tok_rec(rest, cur + t, true, acc),
    decreases t.len(),
{
    if t.len() == 0 {
        assert(escape_quotes(t) + rest =~= rest);
        assert(cur + t =~= cur);
    } else {
        let c = t[0];
        assert(t.contains(t[0])) by {
            assert(t[0] == t[0]);
        }
        assert(c != '\\');
        assert(!t.skip(1).contains('\\')) by {
            if t.skip(1).contains('\\') {
                let i = choose|i: int| 0 <= i < t.skip(1).len() && t.skip(1)[i] == '\\';
                assert(t[i + 1] == '\\');
                assert(t.contains('\\'));
            }
        }
        if c == '"' {
            let e = escape_quotes(t);
            assert(e == seq!['\\', '"'] + escape_quotes(t.skip(1)));
            assert((e + rest)[0] == '\\');
            assert((e + rest).len() >= 2);
            assert((e + rest)[1] == '"');
            assert((e + rest).skip(2) =~= escape_quotes(t.skip(1)) + rest);
            lemma_scan_quoted(t.skip(1), rest, cur.push('"'), acc);
            assert(cur.push('"') + t.skip(1) =~= cur + t);
        } else {
            let e = escape_quotes(t);
            assert(e == seq![c] + escape_quotes(t.skip(1)));
            assert((e + rest)[0] == c);
            assert((e + rest).skip(1) =~= escape_quotes(t.skip(1)) + rest);
            lemma_scan_quoted(t.skip(1), rest, cur.push(c), acc);
            assert(cur.push(c) + t.skip(1) =~= cur + t);
        }
    }
}

/// Reading the quoted form of a token appends exactly the token to the
/// current piece.
pub proof fn lemma_scan_token(t: Seq<char>, rest: Seq<char>, cur: Seq<char>, acc: Seq<Seq<char>>)
    requires
        token_ok(t),
    ensures
        tok_rec(quote_token(t) + rest, cur, false, acc) == tok_rec(rest, cur + t, false, acc),
{
    if needs_quote(t) {
        let q = quote_token(t);
        assert(q == seq!['"'] + escape_quotes(t) + seq!['"']);
        assert((q + rest)[0] == '"');
        assert((q + rest).skip(1) =~= escape_quotes(t) + (seq!['"'] + rest));
        lemma_scan_quoted(t, seq!['"'] + rest, cur, acc);
        let inner = seq!['"'] + rest;
        assert(inner[0] == '"');
        assert(inner.skip(1) =~= rest);
    } else {
        assert(quote_token(t) == t);
        assert(forall|i: int| 0 <= i < t.len() ==> !is_sep(#[trigger] t[i]) && t[i] != '"') by {
            assert(forall|i: int| 0 <= i < t.len() ==> t.contains(#[trigger] t[i]));
        }
        lemma_scan_plain(t, rest, cur, acc);
    }
}

/// Reading the rendered tail with a token in hand finishes that token
/// and then each rendered token in turn.
pub proof fn lemma_scan_tail(toks: Seq<Seq<char>>, cur: Seq<char>, acc: Seq<Seq<char>>)
    requires
        cur.len() > 0,
        forall|i: int| 0 <= i < toks.len() ==> token_ok(#[trigger] toks[i]),
    ensures
        tok_rec(render_tail(toks), cur, false, acc) == acc + seq![cur] + toks,
    decreases toks.len(),
{
    if toks.len() == 0 {
        assert(acc.push(cur) =~= acc + seq![cur] + toks);
    } else {
        let t0 = toks[0];
        let r = render_tail(toks);
        assert(r == (seq![' '] + quote_token(t0)) + render_tail(toks.skip(1)));
        assert(r =~= seq![' '] + (quote_token(t0) + render_tail(toks.skip(1))));
        assert(r[0] == ' ');
        assert(r.skip(1) =~= quote_token(t0) + render_tail(toks.skip(1)));
        lemma_scan_token(t0, render_tail(toks.skip(1)), Seq::empty(), acc.push(cur));
        assert(Seq::<char>::empty() + t0 =~= t0);
        lemma_scan_tail(toks.skip(1), t0, acc.push(cur));
        assert(acc.push(cur) + seq![t0] + toks.skip(1) =~= acc + seq![cur] + toks);
    }
}

/// Tokenizing a rendered command gives the program name and then the
/// tokens that were rendered.
pub proof fn lemma_tokenize_render(toks: Seq<Seq<char>>)
    requires
        forall|i: int| 0 <= i < toks.len() ==> token_ok(#[trigger] toks[i]),
    ensures
        spec_tokenize("nmap"@ + render_tail(toks)) == seq!["nmap"@] + toks,
{
    reveal_strlit("nmap");
    assert(forall|i: int|
        0 <= i < "nmap"@.len() ==> !is_sep(#[trigger] "nmap"@[i]) && "nmap"@[i] != '"');
    lemma_scan_plain("nmap"@, render_tail(toks), Seq::empty(), Seq::empty());
    assert(Seq::<char>::empty() + "nmap"@ =~= "nmap"@);
    assert("nmap"@.len() == 4);
    lemma_scan_tail(toks, "nmap"@, Seq::empty());
    assert(Seq::<Seq<char>>::empty() + seq!["nmap"@] + toks =~= seq!["nmap"@] + toks);
}

} // verus!
