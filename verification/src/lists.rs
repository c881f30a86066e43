//! Comma-separated lists: joining for the builder, splitting for the
//! parser, and the proof that splitting undoes joining when no element
//! holds a comma.
use vstd::prelude::*;
use crate::chars::string_of_chars;
use crate::numbers::{dec_text, parse_dec, format_u32, parse_dec_chars, lemma_dec_round_trip,
    lemma_dec_text_digits};

verus! {

/// The elements joined with single commas, in order.
pub open spec fn join_comma(elems: Seq<Seq<char>>) -> Seq<char>
    decreases elems.len(),
{
    if elems.len() == 0 {
        Seq::empty()
    } else if elems.len() == 1 {
        elems[0]
    } else {
        elems[0] + seq![','] + join_comma(elems.skip(1))
    }
}

/// Splitting on commas, with `cur` the piece read so far: every comma
/// ends a piece, and the text after the last comma is a piece too, so the
/// result always holds at least one piece.
pub open spec fn split_rec(s: Seq<char>, cur: Seq<char>) -> Seq<Seq<char>>
    decreases s.len(),
{
    if s.len() == 0 {
        seq![cur]
    } else if s[0] == ',' {
        seq![cur] + split_rec(s.skip(1), Seq::empty())
    } else {
        split_rec(s.skip(1), cur.push(s[0]))
    }
}

pub open spec fn split_comma(s: Seq<char>) -> Seq<Seq<char>> {
    split_rec(s, Seq::empty())
}

/// Scanning a comma-free piece only grows the current piece.
pub proof fn lemma_split_comma_free(e: Seq<char>, rest: Seq<char>, cur: Seq<char>)
    requires
        !e.contains(','),
    ensures
        split_rec(e + rest, cur) == split_rec(rest, cur + e),
    decreases e.len(),
{
    if e.len() == 0 {
        assert(e + rest =~= rest);
        assert(cur + e =~= cur);
    } else {
        assert(e[0] != ',') by {
            assert(e.contains(e[0]));
        }
        assert((e + rest)[0] == e[0]);
        assert((e + rest).skip(1) =~= e.skip(1) + rest);
        assert(!e.skip(1).contains(',')) by {
            assert(forall|i: int| 0 <= i < e.skip(1).len() ==> e.skip(1)[i] == e[i + 1]);
            if e.skip(1).contains(',') {
                let i = choose|i: int| 0 <= i < e.skip(1).len() && e.skip(1)[i] == ',';
                assert(e[i + 1] == ',');
                assert(e.contains(','));
            }
        }
        lemma_split_comma_free(e.skip(1), rest, cur.push(e[0]));
        assert(cur.push(e[0]) + e.skip(1) =~= cur + e);
    }
}

/// Splitting the comma-joined elements gives the elements back.
pub proof fn lemma_split_join(elems: Seq<Seq<char>>, cur: Seq<char>)
    requires
        elems.len() >= 1,
        forall|i: int| 0 <= i < elems.len() ==> !(#[trigger] elems[i]).contains(','),
    ensures
        split_rec(join_comma(elems), cur) == seq![cur + elems[0]] + elems.skip(1),
    decreases elems.len(),
{
    if elems.len() == 1 {
        lemma_split_comma_free(elems[0], Seq::empty(), cur);
        assert(elems[0] + Seq::<char>::empty() =~= elems[0]);
        assert(split_rec(join_comma(elems), cur) =~= seq![cur + elems[0]] + elems.skip(1));
    } else {
        let j = join_comma(elems);
        assert(j == elems[0] + seq![','] + join_comma(elems.skip(1)));
        assert(elems[0] + seq![','] + join_comma(elems.skip(1)) =~= elems[0] + (seq![
            ',',
        ] + join_comma(elems.skip(1))));
        lemma_split_comma_free(elems[0], seq![','] + join_comma(elems.skip(1)), cur);
        let t = seq![','] + join_comma(elems.skip(1));
        assert(t[0] == ',');
        assert(t.skip(1) =~= join_comma(elems.skip(1)));
        assert(forall|i: int|
            0 <= i < elems.skip(1).len() ==> !(#[trigger] elems.skip(1)[i]).contains(','));
        lemma_split_join(elems.skip(1), Seq::empty());
        assert(Seq::<char>::empty() + elems.skip(1)[0] =~= elems[1]);
        assert(seq![cur + elems[0]] + (seq![elems[1]] + elems.skip(1).skip(1)) =~= seq![
            cur + elems[0],
        ] + elems.skip(1));
    }
}

pub proof fn lemma_split_comma_of_join(elems: Seq<Seq<char>>)
    requires
        elems.len() >= 1,
        forall|i: int| 0 <= i < elems.len() ==> !(#[trigger] elems[i]).contains(','),
    ensures
        split_comma(join_comma(elems)) == elems,
{
    lemma_split_join(elems, Seq::empty());
    assert(Seq::<char>::empty() + elems[0] =~= elems[0]);
    assert(seq![elems[0]] + elems.skip(1) =~= elems);
}

/// Joining never adds characters beyond the elements and commas.
pub proof fn lemma_join_comma_chars(elems: Seq<Seq<char>>, c: char)
    requires
        c != ',',
        forall|i: int| 0 <= i < elems.len() ==> !(#[trigger] elems[i]).contains(c),
    ensures
        !join_comma(elems).contains(c),
    decreases elems.len(),
{
    if elems.len() == 0 {
    } else if elems.len() == 1 {
        assert(!elems[0].contains(c));
    } else {
        lemma_join_comma_chars(elems.skip(1), c);
        let j = join_comma(elems);
        if j.contains(c) {
            let i = choose|i: int| 0 <= i < j.len() && j[i] == c;
            let e0 = elems[0];
            if i < e0.len() {
                assert(e0[i] == c);
                assert(e0.contains(c));
            } else if i == e0.len() {
                assert(j[i] == ',');
            } else {
                assert(join_comma(elems.skip(1))[i - e0.len() - 1] == c);
                assert(join_comma(elems.skip(1)).contains(c));
            }
        }
    }
}

pub proof fn lemma_join_comma_snoc(elems: Seq<Seq<char>>, e: Seq<char>)
    requires
        elems.len() >= 1,
    ensures
        join_comma(elems.push(e)) == join_comma(elems) + seq![','] + e,
    decreases elems.len(),
{
    if elems.len() == 1 {
        assert(elems.push(e).skip(1) =~= seq![e]);
        assert(join_comma(seq![e]) == e);
        assert(elems.push(e)[0] == elems[0]);
        assert(join_comma(elems.push(e)) == elems[0] + seq![','] + e);
    } else {
        lemma_join_comma_snoc(elems.skip(1), e);
        assert(elems.push(e).skip(1) =~= elems.skip(1).push(e));
        assert(elems.push(e)[0] == elems[0]);
        assert(elems[0] + seq![','] + (join_comma(elems.skip(1)) + seq![','] + e) =~= (elems[0]
            + seq![','] + join_comma(elems.skip(1))) + seq![','] + e);
    }
}

/// The decimal texts of a list of port numbers.
pub open spec fn port_texts(l: Seq<u16>) -> Seq<Seq<char>> {
    l.map_values(|p: u16| dec_text(p as nat))
}

/// The comma-joined decimal text of a list of port numbers.
pub open spec fn port_list_text(l: Seq<u16>) -> Seq<char> {
    join_comma(port_texts(l))
}

/// The port numbers read from comma-separated pieces; a piece that is not
/// a port number is dropped.
pub open spec fn ports_of_parts(parts: Seq<Seq<char>>) -> Seq<u16>
    decreases parts.len(),
{
    if parts.len() == 0 {
        Seq::empty()
    } else {
        (match parse_dec(parts[0], 0xffff) {
            Some(v) => seq![v as u16],
            None => Seq::empty(),
        }) + ports_of_parts(parts.skip(1))
    }
}

pub open spec fn port_list_of(s: Seq<char>) -> Seq<u16> {
    ports_of_parts(split_comma(s))
}

pub proof fn lemma_ports_of_parts_concat(a: Seq<Seq<char>>, b: Seq<Seq<char>>)
    ensures
        ports_of_parts(a + b) == ports_of_parts(a) + ports_of_parts(b),
    decreases a.len(),
{
    if a.len() == 0 {
        assert(a + b =~= b);
        assert(ports_of_parts(a) + ports_of_parts(b) =~= ports_of_parts(b));
    } else {
        assert((a + b).skip(1) =~= a.skip(1) + b);
        lemma_ports_of_parts_concat(a.skip(1), b);
        assert(ports_of_parts(a + b) =~= ports_of_parts(a) + ports_of_parts(b));
    }
}

/// Parsing the rendered port list gives the ports back.
pub proof fn lemma_port_list_round_trip(l: Seq<u16>)
    requires
        l.len() >= 1,
    ensures
        port_list_of(port_list_text(l)) == l,
{
    let texts = port_texts(l);
    assert forall|i: int| 0 <= i < texts.len() implies !(#[trigger] texts[i]).contains(',') by {
        lemma_dec_text_digits(l[i] as nat);
    }
    lemma_split_comma_of_join(texts);
    lemma_ports_of_texts(l);
}

pub proof fn lemma_ports_of_texts(l: Seq<u16>)
    ensures
        ports_of_parts(port_texts(l)) == l,
    decreases l.len(),
{
    if l.len() == 0 {
        assert(ports_of_parts(port_texts(l)) =~= l);
    } else {
        lemma_dec_round_trip(l[0] as nat, 0xffff);
        lemma_ports_of_texts(l.skip(1));
        assert(port_texts(l).skip(1) =~= port_texts(l.skip(1)));
        assert(ports_of_parts(port_texts(l)) =~= l);
    }
}

/// The protocol numbers read from comma-separated pieces; a piece that is
/// not a protocol number is dropped.
pub open spec fn protos_of_parts(parts: Seq<Seq<char>>) -> Seq<u8>
    decreases parts.len(),
{
    if parts.len() == 0 {
        Seq::empty()
    } else {
        (match parse_dec(parts[0], 0xff) {
            Some(v) => seq![v as u8],
            None => Seq::empty(),
        }) + protos_of_parts(parts.skip(1))
    }
}

pub open spec fn proto_texts(l: Seq<u8>) -> Seq<Seq<char>> {
    l.map_values(|p: u8| dec_text(p as nat))
}

pub open spec fn proto_list_text(l: Seq<u8>) -> Seq<char> {
    join_comma(proto_texts(l))
}

pub open spec fn proto_list_of(s: Seq<char>) -> Seq<u8> {
    protos_of_parts(split_comma(s))
}

pub proof fn lemma_protos_of_parts_concat(a: Seq<Seq<char>>, b: Seq<Seq<char>>)
    ensures
        protos_of_parts(a + b) == protos_of_parts(a) + protos_of_parts(b),
    decreases a.len(),
{
    if a.len() == 0 {
        assert(a + b =~= b);
        assert(protos_of_parts(a) + protos_of_parts(b) =~= protos_of_parts(b));
    } else {
        assert((a + b).skip(1) =~= a.skip(1) + b);
        lemma_protos_of_parts_concat(a.skip(1), b);
        assert(protos_of_parts(a + b) =~= protos_of_parts(a) + protos_of_parts(b));
    }
}

/// Parsing the rendered protocol list gives the protocols back.
pub proof fn lemma_proto_list_round_trip(l: Seq<u8>)
    requires
        l.len() >= 1,
    ensures
        proto_list_of(proto_list_text(l)) == l,
{
    let texts = proto_texts(l);
    assert forall|i: int| 0 <= i < texts.len() implies !(#[trigger] texts[i]).contains(',') by {
        lemma_dec_text_digits(l[i] as nat);
    }
    lemma_split_comma_of_join(texts);
    lemma_protos_of_texts(l);
}

pub proof fn lemma_protos_of_texts(l: Seq<u8>)
    ensures
        protos_of_parts(proto_texts(l)) == l,
    decreases l.len(),
{
    if l.len() == 0 {
        assert(protos_of_parts(proto_texts(l)) =~= l);
    } else {
        lemma_dec_round_trip(l[0] as nat, 0xff);
        lemma_protos_of_texts(l.skip(1));
        assert(proto_texts(l).skip(1) =~= proto_texts(l.skip(1)));
        assert(protos_of_parts(proto_texts(l)) =~= l);
    }
}

/// Splits token characters on commas, as the parser reads list values.
pub fn split_commas(t: &Vec<char>) -> (r: Vec<String>)
    ensures
        r.deep_view() == split_comma(t@),
{
    let mut out: Vec<String> = Vec::new();
    let mut cur: Vec<char> = Vec::new();
    let mut i: usize = 0;
    proof {
        assert(out.deep_view() =~= Seq::<Seq<char>>::empty());
        assert(t@.skip(0) =~= t@);
        assert(out.deep_view() + split_rec(t@, cur@) =~= split_rec(t@, cur@));
    }
    while i < t.len()
        invariant
            i <= t@.len(),
            split_comma(t@) == out.deep_view() + split_rec(t@.skip(i as int), cur@),
        decreases t@.len() - i,
    {
        proof {
            assert(t@.skip(i as int)[0] == t@[i as int]);
            assert(t@.skip(i as int).skip(1) =~= t@.skip(i + 1));
        }
        if t[i] == ',' {
            let ghost prev_dv = out.deep_view();
            let ghost prev_cur = cur@;
            let piece = string_of_chars(&cur);
            out.push(piece);
            cur = Vec::new();
            proof {
                assert(out.deep_view() =~= prev_dv.push(prev_cur));
                assert(split_rec(t@.skip(i as int), prev_cur) == seq![prev_cur] + split_rec(
                    t@.skip(i + 1),
                    Seq::empty(),
                ));
                assert(cur@ =~= Seq::<char>::empty());
                assert(prev_dv + (seq![prev_cur] + split_rec(t@.skip(i + 1), cur@))
                    =~= prev_dv.push(prev_cur) + split_rec(t@.skip(i + 1), cur@));
            }
        } else {
            let c = t[i];
            cur.push(c);
        }
        i = i + 1;
    }
    proof {
        assert(t@.skip(i as int) =~= Seq::<char>::empty());
    }
    let ghost prev_dv = out.deep_view();
    let ghost prev_cur = cur@;
    let piece = string_of_chars(&cur);
    out.push(piece);
    proof {
        assert(out.deep_view() =~= prev_dv.push(prev_cur));
        assert(prev_dv + seq![prev_cur] =~= prev_dv.push(prev_cur));
        assert(split_comma(t@) =~= out.deep_view());
    }
    out
}

/// The comma-joined decimal text of a port list, as the builder glues it
/// to a discovery flag.
pub fn format_port_list(ports: &Vec<u16>) -> (r: String)
    ensures
        r@ == port_list_text(ports@),
{
    let mut out = String::new();
    let mut i: usize = 0;
    while i < ports.len()
        invariant
            i <= ports@.len(),
            out@ == join_comma(port_texts(ports@.take(i as int))),
        decreases ports@.len() - i,
    {
        let piece = format_u32(ports[i] as u32);
        if i > 0 {
            out.push(',');
        }
        out.append(piece.as_str());
        i = i + 1;
        proof {
            let prev = port_texts(ports@.take(i - 1));
            let now = port_texts(ports@.take(i as int));
            assert(now =~= prev.push(dec_text(ports@[i - 1] as nat)));
            if i - 1 == 0 {
                assert(prev.len() == 0);
                assert(join_comma(now) == now[0]);
                assert(out@ =~= now[0]);
            } else {
                lemma_join_comma_snoc(prev, dec_text(ports@[i - 1] as nat));
            }
        }
    }
    proof {
        assert(ports@.take(i as int) =~= ports@);
    }
    out
}

/// The comma-joined decimal text of a protocol list.
pub fn format_protocol_list(protocols: &Vec<u8>) -> (r: String)
    ensures
        r@ == proto_list_text(protocols@),
{
    let mut out = String::new();
    let mut i: usize = 0;
    while i < protocols.len()
        invariant
            i <= protocols@.len(),
            out@ == join_comma(proto_texts(protocols@.take(i as int))),
        decreases protocols@.len() - i,
    {
        let piece = format_u32(protocols[i] as u32);
        if i > 0 {
            out.push(',');
        }
        out.append(piece.as_str());
        i = i + 1;
        proof {
            let prev = proto_texts(protocols@.take(i - 1));
            let now = proto_texts(protocols@.take(i as int));
            assert(now =~= prev.push(dec_text(protocols@[i - 1] as nat)));
            if i - 1 == 0 {
                assert(prev.len() == 0);
                assert(join_comma(now) == now[0]);
                assert(out@ =~= now[0]);
            } else {
                lemma_join_comma_snoc(prev, dec_text(protocols@[i - 1] as nat));
            }
        }
    }
    proof {
        assert(protocols@.take(i as int) =~= protocols@);
    }
    out
}

/// The port numbers of a comma-separated token, entries that are not port
/// numbers dropped.
pub fn parse_port_list(t: &Vec<char>) -> (r: Vec<u16>)
    ensures
        r@ == port_list_of(t@),
{
    let parts = split_commas(t);
    let mut out: Vec<u16> = Vec::new();
    let mut i: usize = 0;
    while i < parts.len()
        invariant
            i <= parts@.len(),
            parts.deep_view() == split_comma(t@),
            parts.deep_view().len() == parts@.len(),
            out@ == ports_of_parts(parts.deep_view().take(i as int)),
        decreases parts@.len() - i,
    {
        let pc = crate::chars::chars_of_str(parts[i].as_str());
        proof {
            assert(pc@ == parts.deep_view()[i as int]);
        }
        let ghost prev_out = out@;
        let r = parse_dec_chars(&pc, 0xffff);
        match r {
            Some(v) => {
                out.push(v as u16);
            },
            None => {
            },
        }
        i = i + 1;
        proof {
            let dv = parts.deep_view();
            assert(dv.take(i as int) =~= dv.take(i - 1) + seq![dv[i - 1]]);
            lemma_ports_of_parts_concat(dv.take(i - 1), seq![dv[i - 1]]);
            assert(seq![dv[i - 1]].skip(1) =~= Seq::<Seq<char>>::empty());
            assert(ports_of_parts(Seq::<Seq<char>>::empty()) =~= Seq::<u16>::empty());
            match r {
                Some(v) => {
                    assert(parse_dec(dv[i - 1], 0xffff) == Some(v as nat));
                    assert(ports_of_parts(seq![dv[i - 1]]) =~= seq![v as u16]);
                    assert(out@ =~= prev_out + seq![v as u16]);
                },
                None => {
                    assert(parse_dec(dv[i - 1], 0xffff) is None);
                    assert(ports_of_parts(seq![dv[i - 1]]) =~= Seq::<u16>::empty());
                    assert(out@ =~= prev_out + Seq::<u16>::empty());
                },
            }
            assert(out@ =~= ports_of_parts(dv.take(i as int)));
        }
    }
    proof {
        assert(parts.deep_view().take(i as int) =~= parts.deep_view());
    }
    out
}

/// The protocol numbers of a comma-separated token, entries that are not
/// protocol numbers dropped.
pub fn parse_protocol_list(t: &Vec<char>) -> (r: Vec<u8>)
    ensures
        r@ == proto_list_of(t@),
{
    let parts = split_commas(t);
    let mut out: Vec<u8> = Vec::new();
    let mut i: usize = 0;
    while i < parts.len()
        invariant
            i <= parts@.len(),
            parts.deep_view() == split_comma(t@),
            parts.deep_view().len() == parts@.len(),
            out@ == protos_of_parts(parts.deep_view().take(i as int)),
        decreases parts@.len() - i,
    {
        let pc = crate::chars::chars_of_str(parts[i].as_str());
        proof {
            assert(pc@ == parts.deep_view()[i as int]);
        }
        let ghost prev_out = out@;
        let r = parse_dec_chars(&pc, 0xff);
        match r {
            Some(v) => {
                out.push(v as u8);
            },
            None => {
            },
        }
        i = i + 1;
        proof {
            let dv = parts.deep_view();
            assert(dv.take(i as int) =~= dv.take(i - 1) + seq![dv[i - 1]]);
            lemma_protos_of_parts_concat(dv.take(i - 1), seq![dv[i - 1]]);
            assert(seq![dv[i - 1]].skip(1) =~= Seq::<Seq<char>>::empty());
            assert(protos_of_parts(Seq::<Seq<char>>::empty()) =~= Seq::<u8>::empty());
            match r {
                Some(v) => {
                    assert(parse_dec(dv[i - 1], 0xff) == Some(v as nat));
                    assert(protos_of_parts(seq![dv[i - 1]]) =~= seq![v as u8]);
                    assert(out@ =~= prev_out + seq![v as u8]);
                },
                None => {
                    assert(parse_dec(dv[i - 1], 0xff) is None);
                    assert(protos_of_parts(seq![dv[i - 1]]) =~= Seq::<u8>::empty());
                    assert(out@ =~= prev_out + Seq::<u8>::empty());
                },
            }
            assert(out@ =~= protos_of_parts(dv.take(i as int)));
        }
    }
    proof {
        assert(parts.deep_view().take(i as int) =~= parts.deep_view());
    }
    out
}

/// Joins string list elements with commas, as the builder emits list
/// flags.
pub fn join_string_list(elems: &Vec<String>) -> (r: String)
    ensures
        r@ == join_comma(elems.deep_view()),
{
    let mut out = String::new();
    let mut i: usize = 0;
    while i < elems.len()
        invariant
            i <= elems@.len(),
            elems.deep_view().len() == elems@.len(),
            out@ == join_comma(elems.deep_view().take(i as int)),
        decreases elems@.len() - i,
    {
        if i > 0 {
            out.push(',');
        }
        out.append(elems[i].as_str());
        i = i + 1;
        proof {
            let dv = elems.deep_view();
            let prev = dv.take(i - 1);
            let now = dv.take(i as int);
            assert(now =~= prev.push(dv[i - 1]));
            if i - 1 == 0 {
                assert(prev.len() == 0);
                assert(join_comma(now) == now[0]);
                assert(out@ =~= now[0]);
            } else {
                lemma_join_comma_snoc(prev, dv[i - 1]);
            }
        }
    }
    proof {
        assert(elems.deep_view().take(i as int) =~= elems.deep_view());
    }
    out
}

/// Splits a consumed list token into its pieces, as the parser fills
/// string list fields.
pub fn split_string_list(t: &Vec<char>) -> (r: Vec<String>)
    ensures
        r.deep_view() == split_comma(t@),
{
    split_commas(t)
}

} // verus!
