//! The round trip law: parsing the built command of a well-formed
//! configuration gives the configuration back, and building is
//! deterministic.
use vstd::prelude::*;
use crate::chars::{needs_quote, quote_token};
use crate::model::{NmapScanV, TargetSpecificationV, HostDiscoveryV, PortSpecificationV,
    ServiceDetectionV, ScriptScanV, OsDetectionV, TimingPerformanceV, EvasionSpoofingV,
    OutputOptionsV, MiscOptionsV, ScanTechniqueV, TimingTemplate, template_level,
    nmap_scan_default, host_discovery_default, target_specification_default,
    port_specification_default, service_detection_default, script_scan_default,
    os_detection_default, timing_performance_default, evasion_spoofing_default,
    output_options_default, misc_options_default};
use crate::numbers::{dec_text, lemma_dec_text_digits, lemma_dec_round_trip, parse_dec};
use crate::lists::{join_comma, split_comma, port_list_text, proto_list_text, port_list_of,
    proto_list_of, lemma_split_comma_of_join, lemma_join_comma_chars, lemma_port_list_round_trip,
    lemma_proto_list_round_trip, port_texts, proto_texts};
use crate::tokens::{token_ok, spec_tokenize, render_tail, lemma_tokenize_render};
use crate::builder::{spec_build, scan_tokens, host_discovery_tokens, technique_tokens,
    port_specification_tokens, service_detection_tokens, script_scan_tokens, os_detection_tokens,
    timing_performance_tokens, evasion_spoofing_tokens, output_options_tokens,
    misc_options_tokens, target_specification_tokens, flag_tok, val_tok, num_tok, list_tok,
    glued_ports_tok, glued_protos_tok, template_tok, rep_tok, stacked_tok, multiple_tokens};
use crate::parser::{spec_parse, proc_tokens, spec_dispatch, FlagOutcome, ParseErrorV,
    spec_target_flag, spec_host_discovery_flag, spec_technique_flag, spec_ports_flag,
    spec_service_flag, spec_script_flag, spec_os_flag, spec_timing_flag, spec_evasion_flag,
    spec_output_flag, spec_misc_flag};

verus! {

/// A string list the comma-joined grammar carries losslessly: no element
/// holds a comma, and the joined value is a sound token.
pub open spec fn wf_list(elems: Seq<Seq<char>>) -> bool {
    (forall|i: int| 0 <= i < elems.len() ==> !(#[trigger] elems[i]).contains(','))
        && (elems.len() > 0 ==> token_ok(join_comma(elems)))
}

pub open spec fn wf_opt(o: Option<Seq<char>>) -> bool {
    match o {
        Some(v) => token_ok(v),
        None => true,
    }
}

pub open spec fn wf_target_specification(ts: TargetSpecificationV) -> bool {
    &&& forall|i: int|
        0 <= i < ts.targets.len() ==> token_ok(#[trigger] ts.targets[i]) && ts.targets[i][0] != '-'
    &&& wf_opt(ts.input_file)
    &&& wf_list(ts.exclude)
    &&& wf_opt(ts.exclude_file)
}

pub open spec fn wf_host_discovery(hd: HostDiscoveryV) -> bool {
    wf_list(hd.dns_servers)
}

/// The techniques the grammar carries losslessly: every simple variant;
/// a payload must be a sound token; the composite variant flattens on a
/// reparse and is left out.
pub open spec fn wf_technique(t: ScanTechniqueV) -> bool {
    match t {
        ScanTechniqueV::Scanflags(s) => token_ok(s),
        ScanTechniqueV::Idle(s) => token_ok(s),
        ScanTechniqueV::Ftp(s) => token_ok(s),
        ScanTechniqueV::Multiple(_) => false,
        _ => true,
    }
}

pub open spec fn wf_ports(p: PortSpecificationV) -> bool {
    &&& wf_opt(p.ports)
    &&& wf_opt(p.exclude_ports)
    &&& match p.port_ratio {
        Some(r) => crate::nettext::is_ratio_text(r) && token_ok(r),
        None => true,
    }
}

pub open spec fn wf_script_scan(ss: ScriptScanV) -> bool {
    &&& wf_list(ss.scripts)
    &&& wf_opt(ss.script_args)
    &&& wf_opt(ss.script_args_file)
    &&& wf_opt(ss.script_help)
}

pub open spec fn wf_timing(tp: TimingPerformanceV) -> bool {
    &&& wf_opt(tp.min_rtt_timeout)
    &&& wf_opt(tp.max_rtt_timeout)
    &&& wf_opt(tp.initial_rtt_timeout)
    &&& wf_opt(tp.host_timeout)
    &&& wf_opt(tp.script_timeout)
    &&& wf_opt(tp.scan_delay)
    &&& wf_opt(tp.max_scan_delay)
    &&& wf_opt(tp.nsock_engine)
}

pub open spec fn wf_evasion(es: EvasionSpoofingV) -> bool {
    &&& wf_list(es.decoys)
    &&& match es.spoof_ip {
        Some(s) => crate::nettext::is_ip_text(s) && token_ok(s),
        None => true,
    }
    &&& wf_opt(es.interface)
    &&& wf_opt(es.data)
    &&& wf_opt(es.data_string)
    &&& wf_opt(es.ip_options)
    &&& wf_opt(es.spoof_mac)
}

pub open spec fn wf_output(out: OutputOptionsV) -> bool {
    &&& wf_opt(out.normal)
    &&& wf_opt(out.xml)
    &&& wf_opt(out.script_kiddie)
    &&& wf_opt(out.grepable)
    &&& wf_opt(out.all_formats)
    &&& wf_opt(out.stats_every)
    &&& wf_opt(out.resume)
    &&& wf_opt(out.stylesheet)
}

pub open spec fn wf_misc(misc: MiscOptionsV) -> bool {
    wf_opt(misc.datadir)
}

/// A configuration every one of whose fields the flag grammar can carry
/// losslessly.
pub open spec fn wf_scan(v: NmapScanV) -> bool {
    &&& wf_target_specification(v.target_specification)
    &&& wf_host_discovery(v.host_discovery)
    &&& wf_technique(v.scan_technique)
    &&& wf_ports(v.ports)
    &&& wf_script_scan(v.script_scan)
    &&& wf_timing(v.timing)
    &&& wf_evasion(v.evasion)
    &&& wf_output(v.output)
    &&& wf_misc(v.misc)
}

/// Processing one flag token that needs no value.
pub proof fn lemma_step_ok0(m: NmapScanV, m2: NmapScanV, t: Seq<char>, toks: Seq<Seq<char>>)
    requires
        t.len() > 0,
        t[0] == '-',
        spec_dispatch(
            m,
            t,
            if toks.len() > 0 {
                Some(toks[0])
            } else {
                None
            },
        ) == FlagOutcome::Ok0(m2),
    ensures
        proc_tokens(seq![t] + toks, m) == proc_tokens(toks, m2),
{
    let full = seq![t] + toks;
    assert(full[0] == t);
    assert(full.skip(1) =~= toks);
    if full.len() > 1 {
        assert(full[1] == toks[0]);
    }
}

/// Processing one flag token and the value it consumes.
pub proof fn lemma_step_ok1(
    m: NmapScanV,
    m2: NmapScanV,
    t: Seq<char>,
    v: Seq<char>,
    toks: Seq<Seq<char>>,
)
    requires
        t.len() > 0,
        t[0] == '-',
        spec_dispatch(m, t, Some(v)) == FlagOutcome::Ok1(m2),
    ensures
        proc_tokens(seq![t, v] + toks, m) == proc_tokens(toks, m2),
{
    let full = seq![t, v] + toks;
    assert(full[0] == t);
    assert(full[1] == v);
    assert(full.skip(2) =~= toks);
    assert(full.len() > 1);
}

/// Processing the positional targets: each is appended in order.
pub proof fn lemma_proc_targets(ts: Seq<Seq<char>>, m: NmapScanV, rest: Seq<Seq<char>>)
    requires
        forall|i: int|
            0 <= i < ts.len() ==> token_ok(#[trigger] ts[i]) && ts[i][0] != '-',
        rest.len() == 0,
    ensures
        proc_tokens(ts + rest, m) == proc_tokens(
            rest,
            NmapScanV {
                target_specification: TargetSpecificationV {
                    targets: m.target_specification.targets + ts,
                    ..m.target_specification
                },
                ..m
            },
        ),
    decreases ts.len(),
{
    if ts.len() == 0 {
        assert(ts + rest =~= rest);
        assert(m.target_specification.targets + ts =~= m.target_specification.targets);
        assert(NmapScanV {
            target_specification: TargetSpecificationV {
                targets: m.target_specification.targets + ts,
                ..m.target_specification
            },
            ..m
        } =~= m);
    } else {
        let t = ts[0];
        let full = ts + rest;
        assert(full[0] == t);
        assert(full.skip(1) =~= ts.skip(1) + rest);
        assert(t.len() > 0 && t[0] != '-');
        let m2 = NmapScanV {
            target_specification: TargetSpecificationV {
                targets: m.target_specification.targets.push(t),
                ..m.target_specification
            },
            ..m
        };
        lemma_proc_targets(ts.skip(1), m2, rest);
        assert(m2.target_specification.targets + ts.skip(1)
            =~= m.target_specification.targets + ts);
        assert(NmapScanV {
            target_specification: TargetSpecificationV {
                targets: m2.target_specification.targets + ts.skip(1),
                ..m2.target_specification
            },
            ..m2
        } =~= NmapScanV {
            target_specification: TargetSpecificationV {
                targets: m.target_specification.targets + ts,
                ..m.target_specification
            },
            ..m
        });
    }
}


/// A rendered port list is never empty text.
pub proof fn lemma_port_list_text_len(l: Seq<u16>)
    requires
        l.len() >= 1,
    ensures
        port_list_text(l).len() >= 1,
{
    let texts = port_texts(l);
    lemma_dec_text_digits(l[0] as nat);
    if texts.len() == 1 {
        assert(join_comma(texts) == texts[0]);
    } else {
        assert(join_comma(texts) == texts[0] + seq![','] + join_comma(texts.skip(1)));
    }
}

/// A rendered protocol list is never empty text.
pub proof fn lemma_proto_list_text_len(l: Seq<u8>)
    requires
        l.len() >= 1,
    ensures
        proto_list_text(l).len() >= 1,
{
    let texts = proto_texts(l);
    lemma_dec_text_digits(l[0] as nat);
    if texts.len() == 1 {
        assert(join_comma(texts) == texts[0]);
    } else {
        assert(join_comma(texts) == texts[0] + seq![','] + join_comma(texts.skip(1)));
    }
}

proof fn lit_chars_0()
    ensures
        "-iL"@.len() == 3,
        "-iL"@[0] == '-',
        "-iL"@[1] == 'i',
        "-iL"@[2] == 'L',
{
    reveal_strlit("-iL");
}

proof fn lit_chars_1()
    ensures
        "-iR"@.len() == 3,
        "-iR"@[0] == '-',
        "-iR"@[1] == 'i',
        "-iR"@[2] == 'R',
{
    reveal_strlit("-iR");
}

proof fn lit_chars_2()
    ensures
        "--exclude"@.len() == 9,
        "--exclude"@[0] == '-',
        "--exclude"@[1] == '-',
        "--exclude"@[2] == 'e',
        "--exclude"@[3] == 'x',
        "--exclude"@[4] == 'c',
        "--exclude"@[5] == 'l',
        "--exclude"@[6] == 'u',
        "--exclude"@[7] == 'd',
        "--exclude"@[8] == 'e',
{
    reveal_strlit("--exclude");
}

proof fn lit_chars_3()
    ensures
        "--exclude-file"@.len() == 14,
        "--exclude-file"@[0] == '-',
        "--exclude-file"@[1] == '-',
        "--exclude-file"@[2] == 'e',
        "--exclude-file"@[3] == 'x',
        "--exclude-file"@[4] == 'c',
        "--exclude-file"@[5] == 'l',
        "--exclude-file"@[6] == 'u',
        "--exclude-file"@[7] == 'd',
        "--exclude-file"@[8] == 'e',
        "--exclude-file"@[9] == '-',
        "--exclude-file"@[10] == 'f',
        "--exclude-file"@[11] == 'i',
        "--exclude-file"@[12] == 'l',
        "--exclude-file"@[13] == 'e',
{
    reveal_strlit("--exclude-file");
}

proof fn lit_chars_4()
    ensures
        "-sL"@.len() == 3,
        "-sL"@[0] == '-',
        "-sL"@[1] == 's',
        "-sL"@[2] == 'L',
{
    reveal_strlit("-sL");
}

proof fn lit_chars_5()
    ensures
        "-sn"@.len() == 3,
        "-sn"@[0] == '-',
        "-sn"@[1] == 's',
        "-sn"@[2] == 'n',
{
    reveal_strlit("-sn");
}

proof fn lit_chars_6()
    ensures
        "-Pn"@.len() == 3,
        "-Pn"@[0] == '-',
        "-Pn"@[1] == 'P',
        "-Pn"@[2] == 'n',
{
    reveal_strlit("-Pn");
}

proof fn lit_chars_7()
    ensures
        "-PS"@.len() == 3,
        "-PS"@[0] == '-',
        "-PS"@[1] == 'P',
        "-PS"@[2] == 'S',
{
    reveal_strlit("-PS");
}

proof fn lit_chars_8()
    ensures
        "-PA"@.len() == 3,
        "-PA"@[0] == '-',
        "-PA"@[1] == 'P',
        "-PA"@[2] == 'A',
{
    reveal_strlit("-PA");
}

proof fn lit_chars_9()
    ensures
        "-PU"@.len() == 3,
        "-PU"@[0] == '-',
        "-PU"@[1] == 'P',
        "-PU"@[2] == 'U',
{
    reveal_strlit("-PU");
}

proof fn lit_chars_10()
    ensures
        "-PY"@.len() == 3,
        "-PY"@[0] == '-',
        "-PY"@[1] == 'P',
        "-PY"@[2] == 'Y',
{
    reveal_strlit("-PY");
}

proof fn lit_chars_11()
    ensures
        "-PE"@.len() == 3,
        "-PE"@[0] == '-',
        "-PE"@[1] == 'P',
        "-PE"@[2] == 'E',
{
    reveal_strlit("-PE");
}

proof fn lit_chars_12()
    ensures
        "-PP"@.len() == 3,
        "-PP"@[0] == '-',
        "-PP"@[1] == 'P',
        "-PP"@[2] == 'P',
{
    reveal_strlit("-PP");
}

proof fn lit_chars_13()
    ensures
        "-PM"@.len() == 3,
        "-PM"@[0] == '-',
        "-PM"@[1] == 'P',
        "-PM"@[2] == 'M',
{
    reveal_strlit("-PM");
}

proof fn lit_chars_14()
    ensures
        "-PO"@.len() == 3,
        "-PO"@[0] == '-',
        "-PO"@[1] == 'P',
        "-PO"@[2] == 'O',
{
    reveal_strlit("-PO");
}

proof fn lit_chars_15()
    ensures
        "--traceroute"@.len() == 12,
        "--traceroute"@[0] == '-',
        "--traceroute"@[1] == '-',
        "--traceroute"@[2] == 't',
        "--traceroute"@[3] == 'r',
        "--traceroute"@[4] == 'a',
        "--traceroute"@[5] == 'c',
        "--traceroute"@[6] == 'e',
        "--traceroute"@[7] == 'r',
        "--traceroute"@[8] == 'o',
        "--traceroute"@[9] == 'u',
        "--traceroute"@[10] == 't',
        "--traceroute"@[11] == 'e',
{
    reveal_strlit("--traceroute");
}

proof fn lit_chars_16()
    ensures
        "--dns-servers"@.len() == 13,
        "--dns-servers"@[0] == '-',
        "--dns-servers"@[1] == '-',
        "--dns-servers"@[2] == 'd',
        "--dns-servers"@[3] == 'n',
        "--dns-servers"@[4] == 's',
        "--dns-servers"@[5] == '-',
        "--dns-servers"@[6] == 's',
        "--dns-servers"@[7] == 'e',
        "--dns-servers"@[8] == 'r',
        "--dns-servers"@[9] == 'v',
        "--dns-servers"@[10] == 'e',
        "--dns-servers"@[11] == 'r',
        "--dns-servers"@[12] == 's',
{
    reveal_strlit("--dns-servers");
}

proof fn lit_chars_17()
    ensures
        "--system-dns"@.len() == 12,
        "--system-dns"@[0] == '-',
        "--system-dns"@[1] == '-',
        "--system-dns"@[2] == 's',
        "--system-dns"@[3] == 'y',
        "--system-dns"@[4] == 's',
        "--system-dns"@[5] == 't',
        "--system-dns"@[6] == 'e',
        "--system-dns"@[7] == 'm',
        "--system-dns"@[8] == '-',
        "--system-dns"@[9] == 'd',
        "--system-dns"@[10] == 'n',
        "--system-dns"@[11] == 's',
{
    reveal_strlit("--system-dns");
}

proof fn lit_chars_18()
    ensures
        "-sS"@.len() == 3,
        "-sS"@[0] == '-',
        "-sS"@[1] == 's',
        "-sS"@[2] == 'S',
{
    reveal_strlit("-sS");
}

proof fn lit_chars_19()
    ensures
        "-sT"@.len() == 3,
        "-sT"@[0] == '-',
        "-sT"@[1] == 's',
        "-sT"@[2] == 'T',
{
    reveal_strlit("-sT");
}

proof fn lit_chars_20()
    ensures
        "-sA"@.len() == 3,
        "-sA"@[0] == '-',
        "-sA"@[1] == 's',
        "-sA"@[2] == 'A',
{
    reveal_strlit("-sA");
}

proof fn lit_chars_21()
    ensures
        "-sW"@.len() == 3,
        "-sW"@[0] == '-',
        "-sW"@[1] == 's',
        "-sW"@[2] == 'W',
{
    reveal_strlit("-sW");
}

proof fn lit_chars_22()
    ensures
        "-sM"@.len() == 3,
        "-sM"@[0] == '-',
        "-sM"@[1] == 's',
        "-sM"@[2] == 'M',
{
    reveal_strlit("-sM");
}

proof fn lit_chars_23()
    ensures
        "-sU"@.len() == 3,
        "-sU"@[0] == '-',
        "-sU"@[1] == 's',
        "-sU"@[2] == 'U',
{
    reveal_strlit("-sU");
}

proof fn lit_chars_24()
    ensures
        "-sN"@.len() == 3,
        "-sN"@[0] == '-',
        "-sN"@[1] == 's',
        "-sN"@[2] == 'N',
{
    reveal_strlit("-sN");
}

proof fn lit_chars_25()
    ensures
        "-sF"@.len() == 3,
        "-sF"@[0] == '-',
        "-sF"@[1] == 's',
        "-sF"@[2] == 'F',
{
    reveal_strlit("-sF");
}

proof fn lit_chars_26()
    ensures
        "-sX"@.len() == 3,
        "-sX"@[0] == '-',
        "-sX"@[1] == 's',
        "-sX"@[2] == 'X',
{
    reveal_strlit("-sX");
}

proof fn lit_chars_27()
    ensures
        "-sY"@.len() == 3,
        "-sY"@[0] == '-',
        "-sY"@[1] == 's',
        "-sY"@[2] == 'Y',
{
    reveal_strlit("-sY");
}

proof fn lit_chars_28()
    ensures
        "-sZ"@.len() == 3,
        "-sZ"@[0] == '-',
        "-sZ"@[1] == 's',
        "-sZ"@[2] == 'Z',
{
    reveal_strlit("-sZ");
}

proof fn lit_chars_29()
    ensures
        "-sO"@.len() == 3,
        "-sO"@[0] == '-',
        "-sO"@[1] == 's',
        "-sO"@[2] == 'O',
{
    reveal_strlit("-sO");
}

proof fn lit_chars_30()
    ensures
        "--scanflags"@.len() == 11,
        "--scanflags"@[0] == '-',
        "--scanflags"@[1] == '-',
        "--scanflags"@[2] == 's',
        "--scanflags"@[3] == 'c',
        "--scanflags"@[4] == 'a',
        "--scanflags"@[5] == 'n',
        "--scanflags"@[6] == 'f',
        "--scanflags"@[7] == 'l',
        "--scanflags"@[8] == 'a',
        "--scanflags"@[9] == 'g',
        "--scanflags"@[10] == 's',
{
    reveal_strlit("--scanflags");
}

proof fn lit_chars_31()
    ensures
        "-sI"@.len() == 3,
        "-sI"@[0] == '-',
        "-sI"@[1] == 's',
        "-sI"@[2] == 'I',
{
    reveal_strlit("-sI");
}

proof fn lit_chars_32()
    ensures
        "-b"@.len() == 2,
        "-b"@[0] == '-',
        "-b"@[1] == 'b',
{
    reveal_strlit("-b");
}

proof fn lit_chars_33()
    ensures
        "-p"@.len() == 2,
        "-p"@[0] == '-',
        "-p"@[1] == 'p',
{
    reveal_strlit("-p");
}

proof fn lit_chars_34()
    ensures
        "--exclude-ports"@.len() == 15,
        "--exclude-ports"@[0] == '-',
        "--exclude-ports"@[1] == '-',
        "--exclude-ports"@[2] == 'e',
        "--exclude-ports"@[3] == 'x',
        "--exclude-ports"@[4] == 'c',
        "--exclude-ports"@[5] == 'l',
        "--exclude-ports"@[6] == 'u',
        "--exclude-ports"@[7] == 'd',
        "--exclude-ports"@[8] == 'e',
        "--exclude-ports"@[9] == '-',
        "--exclude-ports"@[10] == 'p',
        "--exclude-ports"@[11] == 'o',
        "--exclude-ports"@[12] == 'r',
        "--exclude-ports"@[13] == 't',
        "--exclude-ports"@[14] == 's',
{
    reveal_strlit("--exclude-ports");
}

proof fn lit_chars_35()
    ensures
        "-F"@.len() == 2,
        "-F"@[0] == '-',
        "-F"@[1] == 'F',
{
    reveal_strlit("-F");
}

proof fn lit_chars_36()
    ensures
        "-r"@.len() == 2,
        "-r"@[0] == '-',
        "-r"@[1] == 'r',
{
    reveal_strlit("-r");
}

proof fn lit_chars_37()
    ensures
        "--top-ports"@.len() == 11,
        "--top-ports"@[0] == '-',
        "--top-ports"@[1] == '-',
        "--top-ports"@[2] == 't',
        "--top-ports"@[3] == 'o',
        "--top-ports"@[4] == 'p',
        "--top-ports"@[5] == '-',
        "--top-ports"@[6] == 'p',
        "--top-ports"@[7] == 'o',
        "--top-ports"@[8] == 'r',
        "--top-ports"@[9] == 't',
        "--top-ports"@[10] == 's',
{
    reveal_strlit("--top-ports");
}

proof fn lit_chars_38()
    ensures
        "--port-ratio"@.len() == 12,
        "--port-ratio"@[0] == '-',
        "--port-ratio"@[1] == '-',
        "--port-ratio"@[2] == 'p',
        "--port-ratio"@[3] == 'o',
        "--port-ratio"@[4] == 'r',
        "--port-ratio"@[5] == 't',
        "--port-ratio"@[6] == '-',
        "--port-ratio"@[7] == 'r',
        "--port-ratio"@[8] == 'a',
        "--port-ratio"@[9] == 't',
        "--port-ratio"@[10] == 'i',
        "--port-ratio"@[11] == 'o',
{
    reveal_strlit("--port-ratio");
}

proof fn lit_chars_39()
    ensures
        "-sV"@.len() == 3,
        "-sV"@[0] == '-',
        "-sV"@[1] == 's',
        "-sV"@[2] == 'V',
{
    reveal_strlit("-sV");
}

proof fn lit_chars_40()
    ensures
        "--version-intensity"@.len() == 19,
        "--version-intensity"@[0] == '-',
        "--version-intensity"@[1] == '-',
        "--version-intensity"@[2] == 'v',
        "--version-intensity"@[3] == 'e',
        "--version-intensity"@[4] == 'r',
        "--version-intensity"@[5] == 's',
        "--version-intensity"@[6] == 'i',
        "--version-intensity"@[7] == 'o',
        "--version-intensity"@[8] == 'n',
        "--version-intensity"@[9] == '-',
        "--version-intensity"@[10] == 'i',
        "--version-intensity"@[11] == 'n',
        "--version-intensity"@[12] == 't',
        "--version-intensity"@[13] == 'e',
        "--version-intensity"@[14] == 'n',
        "--version-intensity"@[15] == 's',
        "--version-intensity"@[16] == 'i',
        "--version-intensity"@[17] == 't',
        "--version-intensity"@[18] == 'y',
{
    reveal_strlit("--version-intensity");
}

proof fn lit_chars_41()
    ensures
        "--version-light"@.len() == 15,
        "--version-light"@[0] == '-',
        "--version-light"@[1] == '-',
        "--version-light"@[2] == 'v',
        "--version-light"@[3] == 'e',
        "--version-light"@[4] == 'r',
        "--version-light"@[5] == 's',
        "--version-light"@[6] == 'i',
        "--version-light"@[7] == 'o',
        "--version-light"@[8] == 'n',
        "--version-light"@[9] == '-',
        "--version-light"@[10] == 'l',
        "--version-light"@[11] == 'i',
        "--version-light"@[12] == 'g',
        "--version-light"@[13] == 'h',
        "--version-light"@[14] == 't',
{
    reveal_strlit("--version-light");
}

proof fn lit_chars_42()
    ensures
        "--version-all"@.len() == 13,
        "--version-all"@[0] == '-',
        "--version-all"@[1] == '-',
        "--version-all"@[2] == 'v',
        "--version-all"@[3] == 'e',
        "--version-all"@[4] == 'r',
        "--version-all"@[5] == 's',
        "--version-all"@[6] == 'i',
        "--version-all"@[7] == 'o',
        "--version-all"@[8] == 'n',
        "--version-all"@[9] == '-',
        "--version-all"@[10] == 'a',
        "--version-all"@[11] == 'l',
        "--version-all"@[12] == 'l',
{
    reveal_strlit("--version-all");
}

proof fn lit_chars_43()
    ensures
        "--version-trace"@.len() == 15,
        "--version-trace"@[0] == '-',
        "--version-trace"@[1] == '-',
        "--version-trace"@[2] == 'v',
        "--version-trace"@[3] == 'e',
        "--version-trace"@[4] == 'r',
        "--version-trace"@[5] == 's',
        "--version-trace"@[6] == 'i',
        "--version-trace"@[7] == 'o',
        "--version-trace"@[8] == 'n',
        "--version-trace"@[9] == '-',
        "--version-trace"@[10] == 't',
        "--version-trace"@[11] == 'r',
        "--version-trace"@[12] == 'a',
        "--version-trace"@[13] == 'c',
        "--version-trace"@[14] == 'e',
{
    reveal_strlit("--version-trace");
}

proof fn lit_chars_44()
    ensures
        "-sC"@.len() == 3,
        "-sC"@[0] == '-',
        "-sC"@[1] == 's',
        "-sC"@[2] == 'C',
{
    reveal_strlit("-sC");
}

proof fn lit_chars_45()
    ensures
        "--script"@.len() == 8,
        "--script"@[0] == '-',
        "--script"@[1] == '-',
        "--script"@[2] == 's',
        "--script"@[3] == 'c',
        "--script"@[4] == 'r',
        "--script"@[5] == 'i',
        "--script"@[6] == 'p',
        "--script"@[7] == 't',
{
    reveal_strlit("--script");
}

proof fn lit_chars_46()
    ensures
        "--script-args"@.len() == 13,
        "--script-args"@[0] == '-',
        "--script-args"@[1] == '-',
        "--script-args"@[2] == 's',
        "--script-args"@[3] == 'c',
        "--script-args"@[4] == 'r',
        "--script-args"@[5] == 'i',
        "--script-args"@[6] == 'p',
        "--script-args"@[7] == 't',
        "--script-args"@[8] == '-',
        "--script-args"@[9] == 'a',
        "--script-args"@[10] == 'r',
        "--script-args"@[11] == 'g',
        "--script-args"@[12] == 's',
{
    reveal_strlit("--script-args");
}

proof fn lit_chars_47()
    ensures
        "--script-args-file"@.len() == 18,
        "--script-args-file"@[0] == '-',
        "--script-args-file"@[1] == '-',
        "--script-args-file"@[2] == 's',
        "--script-args-file"@[3] == 'c',
        "--script-args-file"@[4] == 'r',
        "--script-args-file"@[5] == 'i',
        "--script-args-file"@[6] == 'p',
        "--script-args-file"@[7] == 't',
        "--script-args-file"@[8] == '-',
        "--script-args-file"@[9] == 'a',
        "--script-args-file"@[10] == 'r',
        "--script-args-file"@[11] == 'g',
        "--script-args-file"@[12] == 's',
        "--script-args-file"@[13] == '-',
        "--script-args-file"@[14] == 'f',
        "--script-args-file"@[15] == 'i',
        "--script-args-file"@[16] == 'l',
        "--script-args-file"@[17] == 'e',
{
    reveal_strlit("--script-args-file");
}

proof fn lit_chars_48()
    ensures
        "--script-trace"@.len() == 14,
        "--script-trace"@[0] == '-',
        "--script-trace"@[1] == '-',
        "--script-trace"@[2] == 's',
        "--script-trace"@[3] == 'c',
        "--script-trace"@[4] == 'r',
        "--script-trace"@[5] == 'i',
        "--script-trace"@[6] == 'p',
        "--script-trace"@[7] == 't',
        "--script-trace"@[8] == '-',
        "--script-trace"@[9] == 't',
        "--script-trace"@[10] == 'r',
        "--script-trace"@[11] == 'a',
        "--script-trace"@[12] == 'c',
        "--script-trace"@[13] == 'e',
{
    reveal_strlit("--script-trace");
}

proof fn lit_chars_49()
    ensures
        "--script-updatedb"@.len() == 17,
        "--script-updatedb"@[0] == '-',
        "--script-updatedb"@[1] == '-',
        "--script-updatedb"@[2] == 's',
        "--script-updatedb"@[3] == 'c',
        "--script-updatedb"@[4] == 'r',
        "--script-updatedb"@[5] == 'i',
        "--script-updatedb"@[6] == 'p',
        "--script-updatedb"@[7] == 't',
        "--script-updatedb"@[8] == '-',
        "--script-updatedb"@[9] == 'u',
        "--script-updatedb"@[10] == 'p',
        "--script-updatedb"@[11] == 'd',
        "--script-updatedb"@[12] == 'a',
        "--script-updatedb"@[13] == 't',
        "--script-updatedb"@[14] == 'e',
        "--script-updatedb"@[15] == 'd',
        "--script-updatedb"@[16] == 'b',
{
    reveal_strlit("--script-updatedb");
}

proof fn lit_chars_50()
    ensures
        "--script-help"@.len() == 13,
        "--script-help"@[0] == '-',
        "--script-help"@[1] == '-',
        "--script-help"@[2] == 's',
        "--script-help"@[3] == 'c',
        "--script-help"@[4] == 'r',
        "--script-help"@[5] == 'i',
        "--script-help"@[6] == 'p',
        "--script-help"@[7] == 't',
        "--script-help"@[8] == '-',
        "--script-help"@[9] == 'h',
        "--script-help"@[10] == 'e',
        "--script-help"@[11] == 'l',
        "--script-help"@[12] == 'p',
{
    reveal_strlit("--script-help");
}

proof fn lit_chars_51()
    ensures
        "-O"@.len() == 2,
        "-O"@[0] == '-',
        "-O"@[1] == 'O',
{
    reveal_strlit("-O");
}

proof fn lit_chars_52()
    ensures
        "--osscan-limit"@.len() == 14,
        "--osscan-limit"@[0] == '-',
        "--osscan-limit"@[1] == '-',
        "--osscan-limit"@[2] == 'o',
        "--osscan-limit"@[3] == 's',
        "--osscan-limit"@[4] == 's',
        "--osscan-limit"@[5] == 'c',
        "--osscan-limit"@[6] == 'a',
        "--osscan-limit"@[7] == 'n',
        "--osscan-limit"@[8] == '-',
        "--osscan-limit"@[9] == 'l',
        "--osscan-limit"@[10] == 'i',
        "--osscan-limit"@[11] == 'm',
        "--osscan-limit"@[12] == 'i',
        "--osscan-limit"@[13] == 't',
{
    reveal_strlit("--osscan-limit");
}

proof fn lit_chars_53()
    ensures
        "--osscan-guess"@.len() == 14,
        "--osscan-guess"@[0] == '-',
        "--osscan-guess"@[1] == '-',
        "--osscan-guess"@[2] == 'o',
        "--osscan-guess"@[3] == 's',
        "--osscan-guess"@[4] == 's',
        "--osscan-guess"@[5] == 'c',
        "--osscan-guess"@[6] == 'a',
        "--osscan-guess"@[7] == 'n',
        "--osscan-guess"@[8] == '-',
        "--osscan-guess"@[9] == 'g',
        "--osscan-guess"@[10] == 'u',
        "--osscan-guess"@[11] == 'e',
        "--osscan-guess"@[12] == 's',
        "--osscan-guess"@[13] == 's',
{
    reveal_strlit("--osscan-guess");
}

proof fn lit_chars_54()
    ensures
        "--max-os-tries"@.len() == 14,
        "--max-os-tries"@[0] == '-',
        "--max-os-tries"@[1] == '-',
        "--max-os-tries"@[2] == 'm',
        "--max-os-tries"@[3] == 'a',
        "--max-os-tries"@[4] == 'x',
        "--max-os-tries"@[5] == '-',
        "--max-os-tries"@[6] == 'o',
        "--max-os-tries"@[7] == 's',
        "--max-os-tries"@[8] == '-',
        "--max-os-tries"@[9] == 't',
        "--max-os-tries"@[10] == 'r',
        "--max-os-tries"@[11] == 'i',
        "--max-os-tries"@[12] == 'e',
        "--max-os-tries"@[13] == 's',
{
    reveal_strlit("--max-os-tries");
}

proof fn lit_chars_55()
    ensures
        "-T0"@.len() == 3,
        "-T0"@[0] == '-',
        "-T0"@[1] == 'T',
        "-T0"@[2] == '0',
{
    reveal_strlit("-T0");
}

proof fn lit_chars_56()
    ensures
        "-T1"@.len() == 3,
        "-T1"@[0] == '-',
        "-T1"@[1] == 'T',
        "-T1"@[2] == '1',
{
    reveal_strlit("-T1");
}

proof fn lit_chars_57()
    ensures
        "-T2"@.len() == 3,
        "-T2"@[0] == '-',
        "-T2"@[1] == 'T',
        "-T2"@[2] == '2',
{
    reveal_strlit("-T2");
}

proof fn lit_chars_58()
    ensures
        "-T3"@.len() == 3,
        "-T3"@[0] == '-',
        "-T3"@[1] == 'T',
        "-T3"@[2] == '3',
{
    reveal_strlit("-T3");
}

proof fn lit_chars_59()
    ensures
        "-T4"@.len() == 3,
        "-T4"@[0] == '-',
        "-T4"@[1] == 'T',
        "-T4"@[2] == '4',
{
    reveal_strlit("-T4");
}

proof fn lit_chars_60()
    ensures
        "-T5"@.len() == 3,
        "-T5"@[0] == '-',
        "-T5"@[1] == 'T',
        "-T5"@[2] == '5',
{
    reveal_strlit("-T5");
}

proof fn lit_chars_61()
    ensures
        "--min-hostgroup"@.len() == 15,
        "--min-hostgroup"@[0] == '-',
        "--min-hostgroup"@[1] == '-',
        "--min-hostgroup"@[2] == 'm',
        "--min-hostgroup"@[3] == 'i',
        "--min-hostgroup"@[4] == 'n',
        "--min-hostgroup"@[5] == '-',
        "--min-hostgroup"@[6] == 'h',
        "--min-hostgroup"@[7] == 'o',
        "--min-hostgroup"@[8] == 's',
        "--min-hostgroup"@[9] == 't',
        "--min-hostgroup"@[10] == 'g',
        "--min-hostgroup"@[11] == 'r',
        "--min-hostgroup"@[12] == 'o',
        "--min-hostgroup"@[13] == 'u',
        "--min-hostgroup"@[14] == 'p',
{
    reveal_strlit("--min-hostgroup");
}

proof fn lit_chars_62()
    ensures
        "--max-hostgroup"@.len() == 15,
        "--max-hostgroup"@[0] == '-',
        "--max-hostgroup"@[1] == '-',
        "--max-hostgroup"@[2] == 'm',
        "--max-hostgroup"@[3] == 'a',
        "--max-hostgroup"@[4] == 'x',
        "--max-hostgroup"@[5] == '-',
        "--max-hostgroup"@[6] == 'h',
        "--max-hostgroup"@[7] == 'o',
        "--max-hostgroup"@[8] == 's',
        "--max-hostgroup"@[9] == 't',
        "--max-hostgroup"@[10] == 'g',
        "--max-hostgroup"@[11] == 'r',
        "--max-hostgroup"@[12] == 'o',
        "--max-hostgroup"@[13] == 'u',
        "--max-hostgroup"@[14] == 'p',
{
    reveal_strlit("--max-hostgroup");
}

proof fn lit_chars_63()
    ensures
        "--min-parallelism"@.len() == 17,
        "--min-parallelism"@[0] == '-',
        "--min-parallelism"@[1] == '-',
        "--min-parallelism"@[2] == 'm',
        "--min-parallelism"@[3] == 'i',
        "--min-parallelism"@[4] == 'n',
        "--min-parallelism"@[5] == '-',
        "--min-parallelism"@[6] == 'p',
        "--min-parallelism"@[7] == 'a',
        "--min-parallelism"@[8] == 'r',
        "--min-parallelism"@[9] == 'a',
        "--min-parallelism"@[10] == 'l',
        "--min-parallelism"@[11] == 'l',
        "--min-parallelism"@[12] == 'e',
        "--min-parallelism"@[13] == 'l',
        "--min-parallelism"@[14] == 'i',
        "--min-parallelism"@[15] == 's',
        "--min-parallelism"@[16] == 'm',
{
    reveal_strlit("--min-parallelism");
}

proof fn lit_chars_64()
    ensures
        "--max-parallelism"@.len() == 17,
        "--max-parallelism"@[0] == '-',
        "--max-parallelism"@[1] == '-',
        "--max-parallelism"@[2] == 'm',
        "--max-parallelism"@[3] == 'a',
        "--max-parallelism"@[4] == 'x',
        "--max-parallelism"@[5] == '-',
        "--max-parallelism"@[6] == 'p',
        "--max-parallelism"@[7] == 'a',
        "--max-parallelism"@[8] == 'r',
        "--max-parallelism"@[9] == 'a',
        "--max-parallelism"@[10] == 'l',
        "--max-parallelism"@[11] == 'l',
        "--max-parallelism"@[12] == 'e',
        "--max-parallelism"@[13] == 'l',
        "--max-parallelism"@[14] == 'i',
        "--max-parallelism"@[15] == 's',
        "--max-parallelism"@[16] == 'm',
{
    reveal_strlit("--max-parallelism");
}

proof fn lit_chars_65()
    ensures
        "--min-rtt-timeout"@.len() == 17,
        "--min-rtt-timeout"@[0] == '-',
        "--min-rtt-timeout"@[1] == '-',
        "--min-rtt-timeout"@[2] == 'm',
        "--min-rtt-timeout"@[3] == 'i',
        "--min-rtt-timeout"@[4] == 'n',
        "--min-rtt-timeout"@[5] == '-',
        "--min-rtt-timeout"@[6] == 'r',
        "--min-rtt-timeout"@[7] == 't',
        "--min-rtt-timeout"@[8] == 't',
        "--min-rtt-timeout"@[9] == '-',
        "--min-rtt-timeout"@[10] == 't',
        "--min-rtt-timeout"@[11] == 'i',
        "--min-rtt-timeout"@[12] == 'm',
        "--min-rtt-timeout"@[13] == 'e',
        "--min-rtt-timeout"@[14] == 'o',
        "--min-rtt-timeout"@[15] == 'u',
        "--min-rtt-timeout"@[16] == 't',
{
    reveal_strlit("--min-rtt-timeout");
}

proof fn lit_chars_66()
    ensures
        "--max-rtt-timeout"@.len() == 17,
        "--max-rtt-timeout"@[0] == '-',
        "--max-rtt-timeout"@[1] == '-',
        "--max-rtt-timeout"@[2] == 'm',
        "--max-rtt-timeout"@[3] == 'a',
        "--max-rtt-timeout"@[4] == 'x',
        "--max-rtt-timeout"@[5] == '-',
        "--max-rtt-timeout"@[6] == 'r',
        "--max-rtt-timeout"@[7] == 't',
        "--max-rtt-timeout"@[8] == 't',
        "--max-rtt-timeout"@[9] == '-',
        "--max-rtt-timeout"@[10] == 't',
        "--max-rtt-timeout"@[11] == 'i',
        "--max-rtt-timeout"@[12] == 'm',
        "--max-rtt-timeout"@[13] == 'e',
        "--max-rtt-timeout"@[14] == 'o',
        "--max-rtt-timeout"@[15] == 'u',
        "--max-rtt-timeout"@[16] == 't',
{
    reveal_strlit("--max-rtt-timeout");
}

proof fn lit_chars_67()
    ensures
        "--initial-rtt-timeout"@.len() == 21,
        "--initial-rtt-timeout"@[0] == '-',
        "--initial-rtt-timeout"@[1] == '-',
        "--initial-rtt-timeout"@[2] == 'i',
        "--initial-rtt-timeout"@[3] == 'n',
        "--initial-rtt-timeout"@[4] == 'i',
        "--initial-rtt-timeout"@[5] == 't',
        "--initial-rtt-timeout"@[6] == 'i',
        "--initial-rtt-timeout"@[7] == 'a',
        "--initial-rtt-timeout"@[8] == 'l',
        "--initial-rtt-timeout"@[9] == '-',
        "--initial-rtt-timeout"@[10] == 'r',
        "--initial-rtt-timeout"@[11] == 't',
        "--initial-rtt-timeout"@[12] == 't',
        "--initial-rtt-timeout"@[13] == '-',
        "--initial-rtt-timeout"@[14] == 't',
        "--initial-rtt-timeout"@[15] == 'i',
        "--initial-rtt-timeout"@[16] == 'm',
        "--initial-rtt-timeout"@[17] == 'e',
        "--initial-rtt-timeout"@[18] == 'o',
        "--initial-rtt-timeout"@[19] == 'u',
        "--initial-rtt-timeout"@[20] == 't',
{
    reveal_strlit("--initial-rtt-timeout");
}

proof fn lit_chars_68()
    ensures
        "--max-retries"@.len() == 13,
        "--max-retries"@[0] == '-',
        "--max-retries"@[1] == '-',
        "--max-retries"@[2] == 'm',
        "--max-retries"@[3] == 'a',
        "--max-retries"@[4] == 'x',
        "--max-retries"@[5] == '-',
        "--max-retries"@[6] == 'r',
        "--max-retries"@[7] == 'e',
        "--max-retries"@[8] == 't',
        "--max-retries"@[9] == 'r',
        "--max-retries"@[10] == 'i',
        "--max-retries"@[11] == 'e',
        "--max-retries"@[12] == 's',
{
    reveal_strlit("--max-retries");
}

proof fn lit_chars_69()
    ensures
        "--host-timeout"@.len() == 14,
        "--host-timeout"@[0] == '-',
        "--host-timeout"@[1] == '-',
        "--host-timeout"@[2] == 'h',
        "--host-timeout"@[3] == 'o',
        "--host-timeout"@[4] == 's',
        "--host-timeout"@[5] == 't',
        "--host-timeout"@[6] == '-',
        "--host-timeout"@[7] == 't',
        "--host-timeout"@[8] == 'i',
        "--host-timeout"@[9] == 'm',
        "--host-timeout"@[10] == 'e',
        "--host-timeout"@[11] == 'o',
        "--host-timeout"@[12] == 'u',
        "--host-timeout"@[13] == 't',
{
    reveal_strlit("--host-timeout");
}

proof fn lit_chars_70()
    ensures
        "--script-timeout"@.len() == 16,
        "--script-timeout"@[0] == '-',
        "--script-timeout"@[1] == '-',
        "--script-timeout"@[2] == 's',
        "--script-timeout"@[3] == 'c',
        "--script-timeout"@[4] == 'r',
        "--script-timeout"@[5] == 'i',
        "--script-timeout"@[6] == 'p',
        "--script-timeout"@[7] == 't',
        "--script-timeout"@[8] == '-',
        "--script-timeout"@[9] == 't',
        "--script-timeout"@[10] == 'i',
        "--script-timeout"@[11] == 'm',
        "--script-timeout"@[12] == 'e',
        "--script-timeout"@[13] == 'o',
        "--script-timeout"@[14] == 'u',
        "--script-timeout"@[15] == 't',
{
    reveal_strlit("--script-timeout");
}

proof fn lit_chars_71()
    ensures
        "--scan-delay"@.len() == 12,
        "--scan-delay"@[0] == '-',
        "--scan-delay"@[1] == '-',
        "--scan-delay"@[2] == 's',
        "--scan-delay"@[3] == 'c',
        "--scan-delay"@[4] == 'a',
        "--scan-delay"@[5] == 'n',
        "--scan-delay"@[6] == '-',
        "--scan-delay"@[7] == 'd',
        "--scan-delay"@[8] == 'e',
        "--scan-delay"@[9] == 'l',
        "--scan-delay"@[10] == 'a',
        "--scan-delay"@[11] == 'y',
{
    reveal_strlit("--scan-delay");
}

proof fn lit_chars_72()
    ensures
        "--max-scan-delay"@.len() == 16,
        "--max-scan-delay"@[0] == '-',
        "--max-scan-delay"@[1] == '-',
        "--max-scan-delay"@[2] == 'm',
        "--max-scan-delay"@[3] == 'a',
        "--max-scan-delay"@[4] == 'x',
        "--max-scan-delay"@[5] == '-',
        "--max-scan-delay"@[6] == 's',
        "--max-scan-delay"@[7] == 'c',
        "--max-scan-delay"@[8] == 'a',
        "--max-scan-delay"@[9] == 'n',
        "--max-scan-delay"@[10] == '-',
        "--max-scan-delay"@[11] == 'd',
        "--max-scan-delay"@[12] == 'e',
        "--max-scan-delay"@[13] == 'l',
        "--max-scan-delay"@[14] == 'a',
        "--max-scan-delay"@[15] == 'y',
{
    reveal_strlit("--max-scan-delay");
}

proof fn lit_chars_73()
    ensures
        "--min-rate"@.len() == 10,
        "--min-rate"@[0] == '-',
        "--min-rate"@[1] == '-',
        "--min-rate"@[2] == 'm',
        "--min-rate"@[3] == 'i',
        "--min-rate"@[4] == 'n',
        "--min-rate"@[5] == '-',
        "--min-rate"@[6] == 'r',
        "--min-rate"@[7] == 'a',
        "--min-rate"@[8] == 't',
        "--min-rate"@[9] == 'e',
{
    reveal_strlit("--min-rate");
}

proof fn lit_chars_74()
    ensures
        "--max-rate"@.len() == 10,
        "--max-rate"@[0] == '-',
        "--max-rate"@[1] == '-',
        "--max-rate"@[2] == 'm',
        "--max-rate"@[3] == 'a',
        "--max-rate"@[4] == 'x',
        "--max-rate"@[5] == '-',
        "--max-rate"@[6] == 'r',
        "--max-rate"@[7] == 'a',
        "--max-rate"@[8] == 't',
        "--max-rate"@[9] == 'e',
{
    reveal_strlit("--max-rate");
}

proof fn lit_chars_75()
    ensures
        "--defeat-rst-ratelimit"@.len() == 22,
        "--defeat-rst-ratelimit"@[0] == '-',
        "--defeat-rst-ratelimit"@[1] == '-',
        "--defeat-rst-ratelimit"@[2] == 'd',
        "--defeat-rst-ratelimit"@[3] == 'e',
        "--defeat-rst-ratelimit"@[4] == 'f',
        "--defeat-rst-ratelimit"@[5] == 'e',
        "--defeat-rst-ratelimit"@[6] == 'a',
        "--defeat-rst-ratelimit"@[7] == 't',
        "--defeat-rst-ratelimit"@[8] == '-',
        "--defeat-rst-ratelimit"@[9] == 'r',
        "--defeat-rst-ratelimit"@[10] == 's',
        "--defeat-rst-ratelimit"@[11] == 't',
        "--defeat-rst-ratelimit"@[12] == '-',
        "--defeat-rst-ratelimit"@[13] == 'r',
        "--defeat-rst-ratelimit"@[14] == 'a',
        "--defeat-rst-ratelimit"@[15] == 't',
        "--defeat-rst-ratelimit"@[16] == 'e',
        "--defeat-rst-ratelimit"@[17] == 'l',
        "--defeat-rst-ratelimit"@[18] == 'i',
        "--defeat-rst-ratelimit"@[19] == 'm',
        "--defeat-rst-ratelimit"@[20] == 'i',
        "--defeat-rst-ratelimit"@[21] == 't',
{
    reveal_strlit("--defeat-rst-ratelimit");
}

proof fn lit_chars_76()
    ensures
        "--defeat-icmp-ratelimit"@.len() == 23,
        "--defeat-icmp-ratelimit"@[0] == '-',
        "--defeat-icmp-ratelimit"@[1] == '-',
        "--defeat-icmp-ratelimit"@[2] == 'd',
        "--defeat-icmp-ratelimit"@[3] == 'e',
        "--defeat-icmp-ratelimit"@[4] == 'f',
        "--defeat-icmp-ratelimit"@[5] == 'e',
        "--defeat-icmp-ratelimit"@[6] == 'a',
        "--defeat-icmp-ratelimit"@[7] == 't',
        "--defeat-icmp-ratelimit"@[8] == '-',
        "--defeat-icmp-ratelimit"@[9] == 'i',
        "--defeat-icmp-ratelimit"@[10] == 'c',
        "--defeat-icmp-ratelimit"@[11] == 'm',
        "--defeat-icmp-ratelimit"@[12] == 'p',
        "--defeat-icmp-ratelimit"@[13] == '-',
        "--defeat-icmp-ratelimit"@[14] == 'r',
        "--defeat-icmp-ratelimit"@[15] == 'a',
        "--defeat-icmp-ratelimit"@[16] == 't',
        "--defeat-icmp-ratelimit"@[17] == 'e',
        "--defeat-icmp-ratelimit"@[18] == 'l',
        "--defeat-icmp-ratelimit"@[19] == 'i',
        "--defeat-icmp-ratelimit"@[20] == 'm',
        "--defeat-icmp-ratelimit"@[21] == 'i',
        "--defeat-icmp-ratelimit"@[22] == 't',
{
    reveal_strlit("--defeat-icmp-ratelimit");
}

proof fn lit_chars_77()
    ensures
        "--nsock-engine"@.len() == 14,
        "--nsock-engine"@[0] == '-',
        "--nsock-engine"@[1] == '-',
        "--nsock-engine"@[2] == 'n',
        "--nsock-engine"@[3] == 's',
        "--nsock-engine"@[4] == 'o',
        "--nsock-engine"@[5] == 'c',
        "--nsock-engine"@[6] == 'k',
        "--nsock-engine"@[7] == '-',
        "--nsock-engine"@[8] == 'e',
        "--nsock-engine"@[9] == 'n',
        "--nsock-engine"@[10] == 'g',
        "--nsock-engine"@[11] == 'i',
        "--nsock-engine"@[12] == 'n',
        "--nsock-engine"@[13] == 'e',
{
    reveal_strlit("--nsock-engine");
}

proof fn lit_chars_78()
    ensures
        "-f"@.len() == 2,
        "-f"@[0] == '-',
        "-f"@[1] == 'f',
{
    reveal_strlit("-f");
}

proof fn lit_chars_79()
    ensures
        "--mtu"@.len() == 5,
        "--mtu"@[0] == '-',
        "--mtu"@[1] == '-',
        "--mtu"@[2] == 'm',
        "--mtu"@[3] == 't',
        "--mtu"@[4] == 'u',
{
    reveal_strlit("--mtu");
}

proof fn lit_chars_80()
    ensures
        "-D"@.len() == 2,
        "-D"@[0] == '-',
        "-D"@[1] == 'D',
{
    reveal_strlit("-D");
}

proof fn lit_chars_81()
    ensures
        "-S"@.len() == 2,
        "-S"@[0] == '-',
        "-S"@[1] == 'S',
{
    reveal_strlit("-S");
}

proof fn lit_chars_82()
    ensures
        "-e"@.len() == 2,
        "-e"@[0] == '-',
        "-e"@[1] == 'e',
{
    reveal_strlit("-e");
}

proof fn lit_chars_83()
    ensures
        "-g"@.len() == 2,
        "-g"@[0] == '-',
        "-g"@[1] == 'g',
{
    reveal_strlit("-g");
}

proof fn lit_chars_84()
    ensures
        "--source-port"@.len() == 13,
        "--source-port"@[0] == '-',
        "--source-port"@[1] == '-',
        "--source-port"@[2] == 's',
        "--source-port"@[3] == 'o',
        "--source-port"@[4] == 'u',
        "--source-port"@[5] == 'r',
        "--source-port"@[6] == 'c',
        "--source-port"@[7] == 'e',
        "--source-port"@[8] == '-',
        "--source-port"@[9] == 'p',
        "--source-port"@[10] == 'o',
        "--source-port"@[11] == 'r',
        "--source-port"@[12] == 't',
{
    reveal_strlit("--source-port");
}

proof fn lit_chars_85()
    ensures
        "--data"@.len() == 6,
        "--data"@[0] == '-',
        "--data"@[1] == '-',
        "--data"@[2] == 'd',
        "--data"@[3] == 'a',
        "--data"@[4] == 't',
        "--data"@[5] == 'a',
{
    reveal_strlit("--data");
}

proof fn lit_chars_86()
    ensures
        "--data-string"@.len() == 13,
        "--data-string"@[0] == '-',
        "--data-string"@[1] == '-',
        "--data-string"@[2] == 'd',
        "--data-string"@[3] == 'a',
        "--data-string"@[4] == 't',
        "--data-string"@[5] == 'a',
        "--data-string"@[6] == '-',
        "--data-string"@[7] == 's',
        "--data-string"@[8] == 't',
        "--data-string"@[9] == 'r',
        "--data-string"@[10] == 'i',
        "--data-string"@[11] == 'n',
        "--data-string"@[12] == 'g',
{
    reveal_strlit("--data-string");
}

proof fn lit_chars_87()
    ensures
        "--data-length"@.len() == 13,
        "--data-length"@[0] == '-',
        "--data-length"@[1] == '-',
        "--data-length"@[2] == 'd',
        "--data-length"@[3] == 'a',
        "--data-length"@[4] == 't',
        "--data-length"@[5] == 'a',
        "--data-length"@[6] == '-',
        "--data-length"@[7] == 'l',
        "--data-length"@[8] == 'e',
        "--data-length"@[9] == 'n',
        "--data-length"@[10] == 'g',
        "--data-length"@[11] == 't',
        "--data-length"@[12] == 'h',
{
    reveal_strlit("--data-length");
}

proof fn lit_chars_88()
    ensures
        "--ip-options"@.len() == 12,
        "--ip-options"@[0] == '-',
        "--ip-options"@[1] == '-',
        "--ip-options"@[2] == 'i',
        "--ip-options"@[3] == 'p',
        "--ip-options"@[4] == '-',
        "--ip-options"@[5] == 'o',
        "--ip-options"@[6] == 'p',
        "--ip-options"@[7] == 't',
        "--ip-options"@[8] == 'i',
        "--ip-options"@[9] == 'o',
        "--ip-options"@[10] == 'n',
        "--ip-options"@[11] == 's',
{
    reveal_strlit("--ip-options");
}

proof fn lit_chars_89()
    ensures
        "--ttl"@.len() == 5,
        "--ttl"@[0] == '-',
        "--ttl"@[1] == '-',
        "--ttl"@[2] == 't',
        "--ttl"@[3] == 't',
        "--ttl"@[4] == 'l',
{
    reveal_strlit("--ttl");
}

proof fn lit_chars_90()
    ensures
        "--randomize-hosts"@.len() == 17,
        "--randomize-hosts"@[0] == '-',
        "--randomize-hosts"@[1] == '-',
        "--randomize-hosts"@[2] == 'r',
        "--randomize-hosts"@[3] == 'a',
        "--randomize-hosts"@[4] == 'n',
        "--randomize-hosts"@[5] == 'd',
        "--randomize-hosts"@[6] == 'o',
        "--randomize-hosts"@[7] == 'm',
        "--randomize-hosts"@[8] == 'i',
        "--randomize-hosts"@[9] == 'z',
        "--randomize-hosts"@[10] == 'e',
        "--randomize-hosts"@[11] == '-',
        "--randomize-hosts"@[12] == 'h',
        "--randomize-hosts"@[13] == 'o',
        "--randomize-hosts"@[14] == 's',
        "--randomize-hosts"@[15] == 't',
        "--randomize-hosts"@[16] == 's',
{
    reveal_strlit("--randomize-hosts");
}

proof fn lit_chars_91()
    ensures
        "--spoof-mac"@.len() == 11,
        "--spoof-mac"@[0] == '-',
        "--spoof-mac"@[1] == '-',
        "--spoof-mac"@[2] == 's',
        "--spoof-mac"@[3] == 'p',
        "--spoof-mac"@[4] == 'o',
        "--spoof-mac"@[5] == 'o',
        "--spoof-mac"@[6] == 'f',
        "--spoof-mac"@[7] == '-',
        "--spoof-mac"@[8] == 'm',
        "--spoof-mac"@[9] == 'a',
        "--spoof-mac"@[10] == 'c',
{
    reveal_strlit("--spoof-mac");
}

proof fn lit_chars_92()
    ensures
        "--badsum"@.len() == 8,
        "--badsum"@[0] == '-',
        "--badsum"@[1] == '-',
        "--badsum"@[2] == 'b',
        "--badsum"@[3] == 'a',
        "--badsum"@[4] == 'd',
        "--badsum"@[5] == 's',
        "--badsum"@[6] == 'u',
        "--badsum"@[7] == 'm',
{
    reveal_strlit("--badsum");
}

proof fn lit_chars_93()
    ensures
        "--adler32"@.len() == 9,
        "--adler32"@[0] == '-',
        "--adler32"@[1] == '-',
        "--adler32"@[2] == 'a',
        "--adler32"@[3] == 'd',
        "--adler32"@[4] == 'l',
        "--adler32"@[5] == 'e',
        "--adler32"@[6] == 'r',
        "--adler32"@[7] == '3',
        "--adler32"@[8] == '2',
{
    reveal_strlit("--adler32");
}

proof fn lit_chars_94()
    ensures
        "-oN"@.len() == 3,
        "-oN"@[0] == '-',
        "-oN"@[1] == 'o',
        "-oN"@[2] == 'N',
{
    reveal_strlit("-oN");
}

proof fn lit_chars_95()
    ensures
        "-oX"@.len() == 3,
        "-oX"@[0] == '-',
        "-oX"@[1] == 'o',
        "-oX"@[2] == 'X',
{
    reveal_strlit("-oX");
}

proof fn lit_chars_96()
    ensures
        "-oS"@.len() == 3,
        "-oS"@[0] == '-',
        "-oS"@[1] == 'o',
        "-oS"@[2] == 'S',
{
    reveal_strlit("-oS");
}

proof fn lit_chars_97()
    ensures
        "-oG"@.len() == 3,
        "-oG"@[0] == '-',
        "-oG"@[1] == 'o',
        "-oG"@[2] == 'G',
{
    reveal_strlit("-oG");
}

proof fn lit_chars_98()
    ensures
        "-oA"@.len() == 3,
        "-oA"@[0] == '-',
        "-oA"@[1] == 'o',
        "-oA"@[2] == 'A',
{
    reveal_strlit("-oA");
}

proof fn lit_chars_99()
    ensures
        "-v"@.len() == 2,
        "-v"@[0] == '-',
        "-v"@[1] == 'v',
{
    reveal_strlit("-v");
}

proof fn lit_chars_100()
    ensures
        "-vv"@.len() == 3,
        "-vv"@[0] == '-',
        "-vv"@[1] == 'v',
        "-vv"@[2] == 'v',
{
    reveal_strlit("-vv");
}

proof fn lit_chars_101()
    ensures
        "-d"@.len() == 2,
        "-d"@[0] == '-',
        "-d"@[1] == 'd',
{
    reveal_strlit("-d");
}

proof fn lit_chars_102()
    ensures
        "-dd"@.len() == 3,
        "-dd"@[0] == '-',
        "-dd"@[1] == 'd',
        "-dd"@[2] == 'd',
{
    reveal_strlit("-dd");
}

proof fn lit_chars_103()
    ensures
        "--reason"@.len() == 8,
        "--reason"@[0] == '-',
        "--reason"@[1] == '-',
        "--reason"@[2] == 'r',
        "--reason"@[3] == 'e',
        "--reason"@[4] == 'a',
        "--reason"@[5] == 's',
        "--reason"@[6] == 'o',
        "--reason"@[7] == 'n',
{
    reveal_strlit("--reason");
}

proof fn lit_chars_104()
    ensures
        "--stats-every"@.len() == 13,
        "--stats-every"@[0] == '-',
        "--stats-every"@[1] == '-',
        "--stats-every"@[2] == 's',
        "--stats-every"@[3] == 't',
        "--stats-every"@[4] == 'a',
        "--stats-every"@[5] == 't',
        "--stats-every"@[6] == 's',
        "--stats-every"@[7] == '-',
        "--stats-every"@[8] == 'e',
        "--stats-every"@[9] == 'v',
        "--stats-every"@[10] == 'e',
        "--stats-every"@[11] == 'r',
        "--stats-every"@[12] == 'y',
{
    reveal_strlit("--stats-every");
}

proof fn lit_chars_105()
    ensures
        "--packet-trace"@.len() == 14,
        "--packet-trace"@[0] == '-',
        "--packet-trace"@[1] == '-',
        "--packet-trace"@[2] == 'p',
        "--packet-trace"@[3] == 'a',
        "--packet-trace"@[4] == 'c',
        "--packet-trace"@[5] == 'k',
        "--packet-trace"@[6] == 'e',
        "--packet-trace"@[7] == 't',
        "--packet-trace"@[8] == '-',
        "--packet-trace"@[9] == 't',
        "--packet-trace"@[10] == 'r',
        "--packet-trace"@[11] == 'a',
        "--packet-trace"@[12] == 'c',
        "--packet-trace"@[13] == 'e',
{
    reveal_strlit("--packet-trace");
}

proof fn lit_chars_106()
    ensures
        "--open"@.len() == 6,
        "--open"@[0] == '-',
        "--open"@[1] == '-',
        "--open"@[2] == 'o',
        "--open"@[3] == 'p',
        "--open"@[4] == 'e',
        "--open"@[5] == 'n',
{
    reveal_strlit("--open");
}

proof fn lit_chars_107()
    ensures
        "--iflist"@.len() == 8,
        "--iflist"@[0] == '-',
        "--iflist"@[1] == '-',
        "--iflist"@[2] == 'i',
        "--iflist"@[3] == 'f',
        "--iflist"@[4] == 'l',
        "--iflist"@[5] == 'i',
        "--iflist"@[6] == 's',
        "--iflist"@[7] == 't',
{
    reveal_strlit("--iflist");
}

proof fn lit_chars_108()
    ensures
        "--append-output"@.len() == 15,
        "--append-output"@[0] == '-',
        "--append-output"@[1] == '-',
        "--append-output"@[2] == 'a',
        "--append-output"@[3] == 'p',
        "--append-output"@[4] == 'p',
        "--append-output"@[5] == 'e',
        "--append-output"@[6] == 'n',
        "--append-output"@[7] == 'd',
        "--append-output"@[8] == '-',
        "--append-output"@[9] == 'o',
        "--append-output"@[10] == 'u',
        "--append-output"@[11] == 't',
        "--append-output"@[12] == 'p',
        "--append-output"@[13] == 'u',
        "--append-output"@[14] == 't',
{
    reveal_strlit("--append-output");
}

proof fn lit_chars_109()
    ensures
        "--resume"@.len() == 8,
        "--resume"@[0] == '-',
        "--resume"@[1] == '-',
        "--resume"@[2] == 'r',
        "--resume"@[3] == 'e',
        "--resume"@[4] == 's',
        "--resume"@[5] == 'u',
        "--resume"@[6] == 'm',
        "--resume"@[7] == 'e',
{
    reveal_strlit("--resume");
}

proof fn lit_chars_110()
    ensures
        "--stylesheet"@.len() == 12,
        "--stylesheet"@[0] == '-',
        "--stylesheet"@[1] == '-',
        "--stylesheet"@[2] == 's',
        "--stylesheet"@[3] == 't',
        "--stylesheet"@[4] == 'y',
        "--stylesheet"@[5] == 'l',
        "--stylesheet"@[6] == 'e',
        "--stylesheet"@[7] == 's',
        "--stylesheet"@[8] == 'h',
        "--stylesheet"@[9] == 'e',
        "--stylesheet"@[10] == 'e',
        "--stylesheet"@[11] == 't',
{
    reveal_strlit("--stylesheet");
}

proof fn lit_chars_111()
    ensures
        "--webxml"@.len() == 8,
        "--webxml"@[0] == '-',
        "--webxml"@[1] == '-',
        "--webxml"@[2] == 'w',
        "--webxml"@[3] == 'e',
        "--webxml"@[4] == 'b',
        "--webxml"@[5] == 'x',
        "--webxml"@[6] == 'm',
        "--webxml"@[7] == 'l',
{
    reveal_strlit("--webxml");
}

proof fn lit_chars_112()
    ensures
        "--no-stylesheet"@.len() == 15,
        "--no-stylesheet"@[0] == '-',
        "--no-stylesheet"@[1] == '-',
        "--no-stylesheet"@[2] == 'n',
        "--no-stylesheet"@[3] == 'o',
        "--no-stylesheet"@[4] == '-',
        "--no-stylesheet"@[5] == 's',
        "--no-stylesheet"@[6] == 't',
        "--no-stylesheet"@[7] == 'y',
        "--no-stylesheet"@[8] == 'l',
        "--no-stylesheet"@[9] == 'e',
        "--no-stylesheet"@[10] == 's',
        "--no-stylesheet"@[11] == 'h',
        "--no-stylesheet"@[12] == 'e',
        "--no-stylesheet"@[13] == 'e',
        "--no-stylesheet"@[14] == 't',
{
    reveal_strlit("--no-stylesheet");
}

proof fn lit_chars_113()
    ensures
        "-6"@.len() == 2,
        "-6"@[0] == '-',
        "-6"@[1] == '6',
{
    reveal_strlit("-6");
}

proof fn lit_chars_114()
    ensures
        "-A"@.len() == 2,
        "-A"@[0] == '-',
        "-A"@[1] == 'A',
{
    reveal_strlit("-A");
}

proof fn lit_chars_115()
    ensures
        "--datadir"@.len() == 9,
        "--datadir"@[0] == '-',
        "--datadir"@[1] == '-',
        "--datadir"@[2] == 'd',
        "--datadir"@[3] == 'a',
        "--datadir"@[4] == 't',
        "--datadir"@[5] == 'a',
        "--datadir"@[6] == 'd',
        "--datadir"@[7] == 'i',
        "--datadir"@[8] == 'r',
{
    reveal_strlit("--datadir");
}

proof fn lit_chars_116()
    ensures
        "--send-eth"@.len() == 10,
        "--send-eth"@[0] == '-',
        "--send-eth"@[1] == '-',
        "--send-eth"@[2] == 's',
        "--send-eth"@[3] == 'e',
        "--send-eth"@[4] == 'n',
        "--send-eth"@[5] == 'd',
        "--send-eth"@[6] == '-',
        "--send-eth"@[7] == 'e',
        "--send-eth"@[8] == 't',
        "--send-eth"@[9] == 'h',
{
    reveal_strlit("--send-eth");
}

proof fn lit_chars_117()
    ensures
        "--send-ip"@.len() == 9,
        "--send-ip"@[0] == '-',
        "--send-ip"@[1] == '-',
        "--send-ip"@[2] == 's',
        "--send-ip"@[3] == 'e',
        "--send-ip"@[4] == 'n',
        "--send-ip"@[5] == 'd',
        "--send-ip"@[6] == '-',
        "--send-ip"@[7] == 'i',
        "--send-ip"@[8] == 'p',
{
    reveal_strlit("--send-ip");
}

proof fn lit_chars_118()
    ensures
        "--privileged"@.len() == 12,
        "--privileged"@[0] == '-',
        "--privileged"@[1] == '-',
        "--privileged"@[2] == 'p',
        "--privileged"@[3] == 'r',
        "--privileged"@[4] == 'i',
        "--privileged"@[5] == 'v',
        "--privileged"@[6] == 'i',
        "--privileged"@[7] == 'l',
        "--privileged"@[8] == 'e',
        "--privileged"@[9] == 'g',
        "--privileged"@[10] == 'e',
        "--privileged"@[11] == 'd',
{
    reveal_strlit("--privileged");
}

proof fn lit_chars_119()
    ensures
        "--unprivileged"@.len() == 14,
        "--unprivileged"@[0] == '-',
        "--unprivileged"@[1] == '-',
        "--unprivileged"@[2] == 'u',
        "--unprivileged"@[3] == 'n',
        "--unprivileged"@[4] == 'p',
        "--unprivileged"@[5] == 'r',
        "--unprivileged"@[6] == 'i',
        "--unprivileged"@[7] == 'v',
        "--unprivileged"@[8] == 'i',
        "--unprivileged"@[9] == 'l',
        "--unprivileged"@[10] == 'e',
        "--unprivileged"@[11] == 'g',
        "--unprivileged"@[12] == 'e',
        "--unprivileged"@[13] == 'd',
{
    reveal_strlit("--unprivileged");
}

proof fn lit_chars_120()
    ensures
        "--release-memory"@.len() == 16,
        "--release-memory"@[0] == '-',
        "--release-memory"@[1] == '-',
        "--release-memory"@[2] == 'r',
        "--release-memory"@[3] == 'e',
        "--release-memory"@[4] == 'l',
        "--release-memory"@[5] == 'e',
        "--release-memory"@[6] == 'a',
        "--release-memory"@[7] == 's',
        "--release-memory"@[8] == 'e',
        "--release-memory"@[9] == '-',
        "--release-memory"@[10] == 'm',
        "--release-memory"@[11] == 'e',
        "--release-memory"@[12] == 'm',
        "--release-memory"@[13] == 'o',
        "--release-memory"@[14] == 'r',
        "--release-memory"@[15] == 'y',
{
    reveal_strlit("--release-memory");
}

proof fn lit_chars_121()
    ensures
        "-V"@.len() == 2,
        "-V"@[0] == '-',
        "-V"@[1] == 'V',
{
    reveal_strlit("-V");
}

proof fn lit_chars_122()
    ensures
        "--version"@.len() == 9,
        "--version"@[0] == '-',
        "--version"@[1] == '-',
        "--version"@[2] == 'v',
        "--version"@[3] == 'e',
        "--version"@[4] == 'r',
        "--version"@[5] == 's',
        "--version"@[6] == 'i',
        "--version"@[7] == 'o',
        "--version"@[8] == 'n',
{
    reveal_strlit("--version");
}

proof fn lit_chars_123()
    ensures
        "-h"@.len() == 2,
        "-h"@[0] == '-',
        "-h"@[1] == 'h',
{
    reveal_strlit("-h");
}

proof fn lit_chars_124()
    ensures
        "--help"@.len() == 6,
        "--help"@[0] == '-',
        "--help"@[1] == '-',
        "--help"@[2] == 'h',
        "--help"@[3] == 'e',
        "--help"@[4] == 'l',
        "--help"@[5] == 'p',
{
    reveal_strlit("--help");
}

proof fn lit_chars_125()
    ensures
        "-R"@.len() == 2,
        "-R"@[0] == '-',
        "-R"@[1] == 'R',
{
    reveal_strlit("-R");
}

proof fn lit_chars_126()
    ensures
        "-n"@.len() == 2,
        "-n"@[0] == '-',
        "-n"@[1] == 'n',
{
    reveal_strlit("-n");
}

proof fn lit_chars_127()
    ensures
        "--unique"@.len() == 8,
        "--unique"@[0] == '-',
        "--unique"@[1] == '-',
        "--unique"@[2] == 'u',
        "--unique"@[3] == 'n',
        "--unique"@[4] == 'i',
        "--unique"@[5] == 'q',
        "--unique"@[6] == 'u',
        "--unique"@[7] == 'e',
{
    reveal_strlit("--unique");
}

proof fn lit_chars_128()
    ensures
        "--log-errors"@.len() == 12,
        "--log-errors"@[0] == '-',
        "--log-errors"@[1] == '-',
        "--log-errors"@[2] == 'l',
        "--log-errors"@[3] == 'o',
        "--log-errors"@[4] == 'g',
        "--log-errors"@[5] == '-',
        "--log-errors"@[6] == 'e',
        "--log-errors"@[7] == 'r',
        "--log-errors"@[8] == 'r',
        "--log-errors"@[9] == 'o',
        "--log-errors"@[10] == 'r',
        "--log-errors"@[11] == 's',
{
    reveal_strlit("--log-errors");
}

proof fn lit_chars_129()
    ensures
        "-T"@.len() == 2,
        "-T"@[0] == '-',
        "-T"@[1] == 'T',
{
    reveal_strlit("-T");
}

proof fn lemma_target_flag_none(m: NmapScanV, t: Seq<char>, next: Option<Seq<char>>)
    requires
        t != "-iL"@,
        t != "-iR"@,
        t != "--exclude"@,
        t != "--exclude-file"@,
    ensures
        spec_target_flag(m, t, next) is None,
{
    reveal(spec_target_flag);
}

proof fn lemma_host_discovery_flag_none(m: NmapScanV, t: Seq<char>, next: Option<Seq<char>>)
    requires
        t != "-sL"@,
        t != "-sn"@,
        t != "-Pn"@,
        t != "-PS"@,
        t != "-PA"@,
        t != "-PU"@,
        t != "-PY"@,
        t != "-PE"@,
        t != "-PP"@,
        t != "-PM"@,
        t != "-PO"@,
        t != "--traceroute"@,
        t != "--dns-servers"@,
        t != "--system-dns"@,
        !(t.len() > 3 && t[0] == '-' && t[1] == 'P' && (t[2] == 'S' || t[2] == 'A' || t[2] == 'U' || t[2] == 'Y' || t[2] == 'O')),
    ensures
        spec_host_discovery_flag(m, t, next) is None,
{
    reveal(spec_host_discovery_flag);
}

proof fn lemma_technique_flag_none(m: NmapScanV, t: Seq<char>, next: Option<Seq<char>>)
    requires
        t != "-sS"@,
        t != "-sT"@,
        t != "-sA"@,
        t != "-sW"@,
        t != "-sM"@,
        t != "-sU"@,
        t != "-sN"@,
        t != "-sF"@,
        t != "-sX"@,
        t != "-sY"@,
        t != "-sZ"@,
        t != "-sO"@,
        t != "--scanflags"@,
        t != "-sI"@,
        t != "-b"@,
    ensures
        spec_technique_flag(m, t, next) is None,
{
    reveal(spec_technique_flag);
}

proof fn lemma_ports_flag_none(m: NmapScanV, t: Seq<char>, next: Option<Seq<char>>)
    requires
        t != "-p"@,
        t != "--exclude-ports"@,
        t != "-F"@,
        t != "-r"@,
        t != "--top-ports"@,
        t != "--port-ratio"@,
        !(t.len() > 2 && t[0] == '-' && t[1] == 'p'),
    ensures
        spec_ports_flag(m, t, next) is None,
{
    reveal(spec_ports_flag);
}

proof fn lemma_service_flag_none(m: NmapScanV, t: Seq<char>, next: Option<Seq<char>>)
    requires
        t != "-sV"@,
        t != "--version-intensity"@,
        t != "--version-light"@,
        t != "--version-all"@,
        t != "--version-trace"@,
    ensures
        spec_service_flag(m, t, next) is None,
{
    reveal(spec_service_flag);
}

proof fn lemma_script_flag_none(m: NmapScanV, t: Seq<char>, next: Option<Seq<char>>)
    requires
        t != "-sC"@,
        t != "--script"@,
        t != "--script-args"@,
        t != "--script-args-file"@,
        t != "--script-trace"@,
        t != "--script-updatedb"@,
        t != "--script-help"@,
    ensures
        spec_script_flag(m, t, next) is None,
{
    reveal(spec_script_flag);
}

proof fn lemma_os_flag_none(m: NmapScanV, t: Seq<char>, next: Option<Seq<char>>)
    requires
        t != "-O"@,
        t != "--osscan-limit"@,
        t != "--osscan-guess"@,
        t != "--max-os-tries"@,
    ensures
        spec_os_flag(m, t, next) is None,
{
    reveal(spec_os_flag);
}

proof fn lemma_timing_flag_none(m: NmapScanV, t: Seq<char>, next: Option<Seq<char>>)
    requires
        t != "-T0"@,
        t != "-T1"@,
        t != "-T2"@,
        t != "-T3"@,
        t != "-T4"@,
        t != "-T5"@,
        t != "--min-hostgroup"@,
        t != "--max-hostgroup"@,
        t != "--min-parallelism"@,
        t != "--max-parallelism"@,
        t != "--min-rtt-timeout"@,
        t != "--max-rtt-timeout"@,
        t != "--initial-rtt-timeout"@,
        t != "--max-retries"@,
        t != "--host-timeout"@,
        t != "--script-timeout"@,
        t != "--scan-delay"@,
        t != "--max-scan-delay"@,
        t != "--min-rate"@,
        t != "--max-rate"@,
        t != "--defeat-rst-ratelimit"@,
        t != "--defeat-icmp-ratelimit"@,
        t != "--nsock-engine"@,
    ensures
        spec_timing_flag(m, t, next) is None,
{
    reveal(spec_timing_flag);
}

proof fn lemma_evasion_flag_none(m: NmapScanV, t: Seq<char>, next: Option<Seq<char>>)
    requires
        t != "-f"@,
        t != "--mtu"@,
        t != "-D"@,
        t != "-S"@,
        t != "-e"@,
        t != "-g"@,
        t != "--source-port"@,
        t != "--data"@,
        t != "--data-string"@,
        t != "--data-length"@,
        t != "--ip-options"@,
        t != "--ttl"@,
        t != "--randomize-hosts"@,
        t != "--spoof-mac"@,
        t != "--badsum"@,
        t != "--adler32"@,
    ensures
        spec_evasion_flag(m, t, next) is None,
{
    reveal(spec_evasion_flag);
}

proof fn lemma_output_flag_none(m: NmapScanV, t: Seq<char>, next: Option<Seq<char>>)
    requires
        t != "-oN"@,
        t != "-oX"@,
        t != "-oS"@,
        t != "-oG"@,
        t != "-oA"@,
        t != "-v"@,
        t != "-vv"@,
        t != "-d"@,
        t != "-dd"@,
        t != "--reason"@,
        t != "--stats-every"@,
        t != "--packet-trace"@,
        t != "--open"@,
        t != "--iflist"@,
        t != "--append-output"@,
        t != "--resume"@,
        t != "--stylesheet"@,
        t != "--webxml"@,
        t != "--no-stylesheet"@,
    ensures
        spec_output_flag(m, t, next) is None,
{
    reveal(spec_output_flag);
}

proof fn lemma_misc_flag_none(m: NmapScanV, t: Seq<char>, next: Option<Seq<char>>)
    requires
        t != "-6"@,
        t != "-A"@,
        t != "--datadir"@,
        t != "--send-eth"@,
        t != "--send-ip"@,
        t != "--privileged"@,
        t != "--unprivileged"@,
        t != "--release-memory"@,
        t != "-V"@,
        t != "--version"@,
        t != "-h"@,
        t != "--help"@,
        t != "-R"@,
        t != "-n"@,
        t != "--unique"@,
        t != "--log-errors"@,
    ensures
        spec_misc_flag(m, t, next) is None,
{
    reveal(spec_misc_flag);
}

pub proof fn lemma_flag_host_discovery_list_scan(m: NmapScanV, next: Option<Seq<char>>)
    ensures
        spec_dispatch(m, "-sL"@, next) == FlagOutcome::Ok0(NmapScanV { host_discovery: HostDiscoveryV { list_scan: true, ..m.host_discovery }, ..m }),
{
    reveal(spec_dispatch);
    reveal(spec_host_discovery_flag);
    lit_chars_16();
    lit_chars_2();
    lit_chars_3();
    lit_chars_17();
    lit_chars_15();
    lit_chars_8();
    lit_chars_11();
    lit_chars_13();
    lit_chars_14();
    lit_chars_12();
    lit_chars_7();
    lit_chars_9();
    lit_chars_10();
    lit_chars_6();
    lit_chars_0();
    lit_chars_1();
    lit_chars_4();
    lit_chars_5();
    lemma_target_flag_none(m, "-sL"@, next);
}

pub proof fn lemma_flag_host_discovery_ping_scan(m: NmapScanV, next: Option<Seq<char>>)
    ensures
        spec_dispatch(m, "-sn"@, next) == FlagOutcome::Ok0(NmapScanV { host_discovery: HostDiscoveryV { ping_scan: true, ..m.host_discovery }, ..m }),
{
    reveal(spec_dispatch);
    reveal(spec_host_discovery_flag);
    lit_chars_16();
    lit_chars_2();
    lit_chars_3();
    lit_chars_17();
    lit_chars_15();
    lit_chars_8();
    lit_chars_11();
    lit_chars_13();
    lit_chars_14();
    lit_chars_12();
    lit_chars_7();
    lit_chars_9();
    lit_chars_10();
    lit_chars_6();
    lit_chars_0();
    lit_chars_1();
    lit_chars_4();
    lit_chars_5();
    lemma_target_flag_none(m, "-sn"@, next);
}

pub proof fn lemma_flag_host_discovery_skip_port_scan(m: NmapScanV, next: Option<Seq<char>>)
    ensures
        spec_dispatch(m, "-Pn"@, next) == FlagOutcome::Ok0(NmapScanV { host_discovery: HostDiscoveryV { skip_port_scan: true, ..m.host_discovery }, ..m }),
{
    reveal(spec_dispatch);
    reveal(spec_host_discovery_flag);
    lit_chars_16();
    lit_chars_2();
    lit_chars_3();
    lit_chars_17();
    lit_chars_15();
    lit_chars_8();
    lit_chars_11();
    lit_chars_13();
    lit_chars_14();
    lit_chars_12();
    lit_chars_7();
    lit_chars_9();
    lit_chars_10();
    lit_chars_6();
    lit_chars_0();
    lit_chars_1();
    lit_chars_4();
    lit_chars_5();
    lemma_target_flag_none(m, "-Pn"@, next);
}

pub proof fn lemma_flag_host_discovery_syn_discovery(m: NmapScanV, l: Seq<u16>, next: Option<Seq<char>>)
    requires
        l.len() > 0,
    ensures
        spec_dispatch(m, "-PS"@ + port_list_text(l), next) == FlagOutcome::Ok0(NmapScanV { host_discovery: HostDiscoveryV { syn_discovery: l, ..m.host_discovery }, ..m }),
{
    reveal(spec_dispatch);
    reveal(spec_host_discovery_flag);
    lit_chars_16();
    lit_chars_2();
    lit_chars_3();
    lit_chars_17();
    lit_chars_15();
    lit_chars_8();
    lit_chars_11();
    lit_chars_13();
    lit_chars_14();
    lit_chars_12();
    lit_chars_7();
    lit_chars_9();
    lit_chars_10();
    lit_chars_6();
    lit_chars_0();
    lit_chars_1();
    lit_chars_4();
    lit_chars_5();
    lemma_port_list_text_len(l);
    assert(("-PS"@ + port_list_text(l)).len() > 3);
    assert(("-PS"@ + port_list_text(l)).skip(3) =~= port_list_text(l));
    lemma_port_list_round_trip(l);
    lemma_target_flag_none(m, "-PS"@ + port_list_text(l), next);
}

pub proof fn lemma_flag_host_discovery_ack_discovery(m: NmapScanV, l: Seq<u16>, next: Option<Seq<char>>)
    requires
        l.len() > 0,
    ensures
        spec_dispatch(m, "-PA"@ + port_list_text(l), next) == FlagOutcome::Ok0(NmapScanV { host_discovery: HostDiscoveryV { ack_discovery: l, ..m.host_discovery }, ..m }),
{
    reveal(spec_dispatch);
    reveal(spec_host_discovery_flag);
    lit_chars_16();
    lit_chars_2();
    lit_chars_3();
    lit_chars_17();
    lit_chars_15();
    lit_chars_8();
    lit_chars_11();
    lit_chars_13();
    lit_chars_14();
    lit_chars_12();
    lit_chars_7();
    lit_chars_9();
    lit_chars_10();
    lit_chars_6();
    lit_chars_0();
    lit_chars_1();
    lit_chars_4();
    lit_chars_5();
    lemma_port_list_text_len(l);
    assert(("-PA"@ + port_list_text(l)).len() > 3);
    assert(("-PA"@ + port_list_text(l)).skip(3) =~= port_list_text(l));
    lemma_port_list_round_trip(l);
    lemma_target_flag_none(m, "-PA"@ + port_list_text(l), next);
}

pub proof fn lemma_flag_host_discovery_udp_discovery(m: NmapScanV, l: Seq<u16>, next: Option<Seq<char>>)
    requires
        l.len() > 0,
    ensures
        spec_dispatch(m, "-PU"@ + port_list_text(l), next) == FlagOutcome::Ok0(NmapScanV { host_discovery: HostDiscoveryV { udp_discovery: l, ..m.host_discovery }, ..m }),
{
    reveal(spec_dispatch);
    reveal(spec_host_discovery_flag);
    lit_chars_16();
    lit_chars_2();
    lit_chars_3();
    lit_chars_17();
    lit_chars_15();
    lit_chars_8();
    lit_chars_11();
    lit_chars_13();
    lit_chars_14();
    lit_chars_12();
    lit_chars_7();
    lit_chars_9();
    lit_chars_10();
    lit_chars_6();
    lit_chars_0();
    lit_chars_1();
    lit_chars_4();
    lit_chars_5();
    lemma_port_list_text_len(l);
    assert(("-PU"@ + port_list_text(l)).len() > 3);
    assert(("-PU"@ + port_list_text(l)).skip(3) =~= port_list_text(l));
    lemma_port_list_round_trip(l);
    lemma_target_flag_none(m, "-PU"@ + port_list_text(l), next);
}

pub proof fn lemma_flag_host_discovery_sctp_discovery(m: NmapScanV, l: Seq<u16>, next: Option<Seq<char>>)
    requires
        l.len() > 0,
    ensures
        spec_dispatch(m, "-PY"@ + port_list_text(l), next) == FlagOutcome::Ok0(NmapScanV { host_discovery: HostDiscoveryV { sctp_discovery: l, ..m.host_discovery }, ..m }),
{
    reveal(spec_dispatch);
    reveal(spec_host_discovery_flag);
    lit_chars_16();
    lit_chars_2();
    lit_chars_3();
    lit_chars_17();
    lit_chars_15();
    lit_chars_8();
    lit_chars_11();
    lit_chars_13();
    lit_chars_14();
    lit_chars_12();
    lit_chars_7();
    lit_chars_9();
    lit_chars_10();
    lit_chars_6();
    lit_chars_0();
    lit_chars_1();
    lit_chars_4();
    lit_chars_5();
    lemma_port_list_text_len(l);
    assert(("-PY"@ + port_list_text(l)).len() > 3);
    assert(("-PY"@ + port_list_text(l)).skip(3) =~= port_list_text(l));
    lemma_port_list_round_trip(l);
    lemma_target_flag_none(m, "-PY"@ + port_list_text(l), next);
}

pub proof fn lemma_flag_host_discovery_icmp_echo(m: NmapScanV, next: Option<Seq<char>>)
    ensures
        spec_dispatch(m, "-PE"@, next) == FlagOutcome::Ok0(NmapScanV { host_discovery: HostDiscoveryV { icmp_echo: true, ..m.host_discovery }, ..m }),
{
    reveal(spec_dispatch);
    reveal(spec_host_discovery_flag);
    lit_chars_16();
    lit_chars_2();
    lit_chars_3();
    lit_chars_17();
    lit_chars_15();
    lit_chars_8();
    lit_chars_11();
    lit_chars_13();
    lit_chars_14();
    lit_chars_12();
    lit_chars_7();
    lit_chars_9();
    lit_chars_10();
    lit_chars_6();
    lit_chars_0();
    lit_chars_1();
    lit_chars_4();
    lit_chars_5();
    lemma_target_flag_none(m, "-PE"@, next);
}

pub proof fn lemma_flag_host_discovery_icmp_timestamp(m: NmapScanV, next: Option<Seq<char>>)
    ensures
        spec_dispatch(m, "-PP"@, next) == FlagOutcome::Ok0(NmapScanV { host_discovery: HostDiscoveryV { icmp_timestamp: true, ..m.host_discovery }, ..m }),
{
    reveal(spec_dispatch);
    reveal(spec_host_discovery_flag);
    lit_chars_16();
    lit_chars_2();
    lit_chars_3();
    lit_chars_17();
    lit_chars_15();
    lit_chars_8();
    lit_chars_11();
    lit_chars_13();
    lit_chars_14();
    lit_chars_12();
    lit_chars_7();
    lit_chars_9();
    lit_chars_10();
    lit_chars_6();
    lit_chars_0();
    lit_chars_1();
    lit_chars_4();
    lit_chars_5();
    lemma_target_flag_none(m, "-PP"@, next);
}

pub proof fn lemma_flag_host_discovery_icmp_netmask(m: NmapScanV, next: Option<Seq<char>>)
    ensures
        spec_dispatch(m, "-PM"@, next) == FlagOutcome::Ok0(NmapScanV { host_discovery: HostDiscoveryV { icmp_netmask: true, ..m.host_discovery }, ..m }),
{
    reveal(spec_dispatch);
    reveal(spec_host_discovery_flag);
    lit_chars_16();
    lit_chars_2();
    lit_chars_3();
    lit_chars_17();
    lit_chars_15();
    lit_chars_8();
    lit_chars_11();
    lit_chars_13();
    lit_chars_14();
    lit_chars_12();
    lit_chars_7();
    lit_chars_9();
    lit_chars_10();
    lit_chars_6();
    lit_chars_0();
    lit_chars_1();
    lit_chars_4();
    lit_chars_5();
    lemma_target_flag_none(m, "-PM"@, next);
}

pub proof fn lemma_flag_host_discovery_ip_protocol_ping(m: NmapScanV, l: Seq<u8>, next: Option<Seq<char>>)
    requires
        l.len() > 0,
    ensures
        spec_dispatch(m, "-PO"@ + proto_list_text(l), next) == FlagOutcome::Ok0(NmapScanV { host_discovery: HostDiscoveryV { ip_protocol_ping: l, ..m.host_discovery }, ..m }),
{
    reveal(spec_dispatch);
    reveal(spec_host_discovery_flag);
    lit_chars_16();
    lit_chars_2();
    lit_chars_3();
    lit_chars_17();
    lit_chars_15();
    lit_chars_8();
    lit_chars_11();
    lit_chars_13();
    lit_chars_14();
    lit_chars_12();
    lit_chars_7();
    lit_chars_9();
    lit_chars_10();
    lit_chars_6();
    lit_chars_0();
    lit_chars_1();
    lit_chars_4();
    lit_chars_5();
    lemma_proto_list_text_len(l);
    assert(("-PO"@ + proto_list_text(l)).len() > 3);
    assert(("-PO"@ + proto_list_text(l)).skip(3) =~= proto_list_text(l));
    lemma_proto_list_round_trip(l);
    lemma_target_flag_none(m, "-PO"@ + proto_list_text(l), next);
}

pub proof fn lemma_flag_host_discovery_traceroute(m: NmapScanV, next: Option<Seq<char>>)
    ensures
        spec_dispatch(m, "--traceroute"@, next) == FlagOutcome::Ok0(NmapScanV { host_discovery: HostDiscoveryV { traceroute: true, ..m.host_discovery }, ..m }),
{
    reveal(spec_dispatch);
    reveal(spec_host_discovery_flag);
    lit_chars_16();
    lit_chars_2();
    lit_chars_3();
    lit_chars_17();
    lit_chars_15();
    lit_chars_8();
    lit_chars_11();
    lit_chars_13();
    lit_chars_14();
    lit_chars_12();
    lit_chars_7();
    lit_chars_9();
    lit_chars_10();
    lit_chars_6();
    lit_chars_0();
    lit_chars_1();
    lit_chars_4();
    lit_chars_5();
    lemma_target_flag_none(m, "--traceroute"@, next);
}

pub proof fn lemma_flag_host_discovery_dns_servers(m: NmapScanV, elems: Seq<Seq<char>>)
    requires
        elems.len() > 0,
        forall|i: int| 0 <= i < elems.len() ==> !(#[trigger] elems[i]).contains(','),
    ensures
        spec_dispatch(m, "--dns-servers"@, Some(join_comma(elems))) == FlagOutcome::Ok1(NmapScanV { host_discovery: HostDiscoveryV { dns_servers: elems, ..m.host_discovery }, ..m }),
{
    reveal(spec_dispatch);
    reveal(spec_host_discovery_flag);
    lit_chars_16();
    lit_chars_2();
    lit_chars_3();
    lit_chars_17();
    lit_chars_15();
    lit_chars_8();
    lit_chars_11();
    lit_chars_13();
    lit_chars_14();
    lit_chars_12();
    lit_chars_7();
    lit_chars_9();
    lit_chars_10();
    lit_chars_6();
    lit_chars_0();
    lit_chars_1();
    lit_chars_4();
    lit_chars_5();
    lemma_split_comma_of_join(elems);
    lemma_target_flag_none(m, "--dns-servers"@, Some(join_comma(elems)));
}

pub proof fn lemma_flag_host_discovery_system_dns(m: NmapScanV, next: Option<Seq<char>>)
    ensures
        spec_dispatch(m, "--system-dns"@, next) == FlagOutcome::Ok0(NmapScanV { host_discovery: HostDiscoveryV { system_dns: true, ..m.host_discovery }, ..m }),
{
    reveal(spec_dispatch);
    reveal(spec_host_discovery_flag);
    lit_chars_16();
    lit_chars_2();
    lit_chars_3();
    lit_chars_17();
    lit_chars_15();
    lit_chars_8();
    lit_chars_11();
    lit_chars_13();
    lit_chars_14();
    lit_chars_12();
    lit_chars_7();
    lit_chars_9();
    lit_chars_10();
    lit_chars_6();
    lit_chars_0();
    lit_chars_1();
    lit_chars_4();
    lit_chars_5();
    lemma_target_flag_none(m, "--system-dns"@, next);
}

pub proof fn lemma_flag_ports_ports(m: NmapScanV, v: Seq<char>)
    ensures
        spec_dispatch(m, "-p"@, Some(v)) == FlagOutcome::Ok1(NmapScanV { ports: PortSpecificationV { ports: Some(v), ..m.ports }, ..m }),
{
    reveal(spec_dispatch);
    reveal(spec_ports_flag);
    lit_chars_16();
    lit_chars_2();
    lit_chars_3();
    lit_chars_34();
    lit_chars_38();
    lit_chars_30();
    lit_chars_17();
    lit_chars_37();
    lit_chars_15();
    lit_chars_35();
    lit_chars_8();
    lit_chars_11();
    lit_chars_13();
    lit_chars_14();
    lit_chars_12();
    lit_chars_7();
    lit_chars_9();
    lit_chars_10();
    lit_chars_6();
    lit_chars_32();
    lit_chars_0();
    lit_chars_1();
    lit_chars_33();
    lit_chars_36();
    lit_chars_20();
    lit_chars_25();
    lit_chars_31();
    lit_chars_4();
    lit_chars_22();
    lit_chars_24();
    lit_chars_29();
    lit_chars_18();
    lit_chars_19();
    lit_chars_23();
    lit_chars_21();
    lit_chars_26();
    lit_chars_27();
    lit_chars_28();
    lit_chars_5();
    lemma_target_flag_none(m, "-p"@, Some(v));
    lemma_host_discovery_flag_none(m, "-p"@, Some(v));
    lemma_technique_flag_none(m, "-p"@, Some(v));
}

pub proof fn lemma_flag_ports_exclude_ports(m: NmapScanV, v: Seq<char>)
    ensures
        spec_dispatch(m, "--exclude-ports"@, Some(v)) == FlagOutcome::Ok1(NmapScanV { ports: PortSpecificationV { exclude_ports: Some(v), ..m.ports }, ..m }),
{
    reveal(spec_dispatch);
    reveal(spec_ports_flag);
    lit_chars_16();
    lit_chars_2();
    lit_chars_3();
    lit_chars_34();
    lit_chars_38();
    lit_chars_30();
    lit_chars_17();
    lit_chars_37();
    lit_chars_15();
    lit_chars_35();
    lit_chars_8();
    lit_chars_11();
    lit_chars_13();
    lit_chars_14();
    lit_chars_12();
    lit_chars_7();
    lit_chars_9();
    lit_chars_10();
    lit_chars_6();
    lit_chars_32();
    lit_chars_0();
    lit_chars_1();
    lit_chars_33();
    lit_chars_36();
    lit_chars_20();
    lit_chars_25();
    lit_chars_31();
    lit_chars_4();
    lit_chars_22();
    lit_chars_24();
    lit_chars_29();
    lit_chars_18();
    lit_chars_19();
    lit_chars_23();
    lit_chars_21();
    lit_chars_26();
    lit_chars_27();
    lit_chars_28();
    lit_chars_5();
    lemma_target_flag_none(m, "--exclude-ports"@, Some(v));
    lemma_host_discovery_flag_none(m, "--exclude-ports"@, Some(v));
    lemma_technique_flag_none(m, "--exclude-ports"@, Some(v));
}

pub proof fn lemma_flag_ports_fast_mode(m: NmapScanV, next: Option<Seq<char>>)
    ensures
        spec_dispatch(m, "-F"@, next) == FlagOutcome::Ok0(NmapScanV { ports: PortSpecificationV { fast_mode: true, ..m.ports }, ..m }),
{
    reveal(spec_dispatch);
    reveal(spec_ports_flag);
    lit_chars_16();
    lit_chars_2();
    lit_chars_3();
    lit_chars_34();
    lit_chars_38();
    lit_chars_30();
    lit_chars_17();
    lit_chars_37();
    lit_chars_15();
    lit_chars_35();
    lit_chars_8();
    lit_chars_11();
    lit_chars_13();
    lit_chars_14();
    lit_chars_12();
    lit_chars_7();
    lit_chars_9();
    lit_chars_10();
    lit_chars_6();
    lit_chars_32();
    lit_chars_0();
    lit_chars_1();
    lit_chars_33();
    lit_chars_36();
    lit_chars_20();
    lit_chars_25();
    lit_chars_31();
    lit_chars_4();
    lit_chars_22();
    lit_chars_24();
    lit_chars_29();
    lit_chars_18();
    lit_chars_19();
    lit_chars_23();
    lit_chars_21();
    lit_chars_26();
    lit_chars_27();
    lit_chars_28();
    lit_chars_5();
    lemma_target_flag_none(m, "-F"@, next);
    lemma_host_discovery_flag_none(m, "-F"@, next);
    lemma_technique_flag_none(m, "-F"@, next);
}

pub proof fn lemma_flag_ports_consecutive_ports(m: NmapScanV, next: Option<Seq<char>>)
    ensures
        spec_dispatch(m, "-r"@, next) == FlagOutcome::Ok0(NmapScanV { ports: PortSpecificationV { consecutive_ports: true, ..m.ports }, ..m }),
{
    reveal(spec_dispatch);
    reveal(spec_ports_flag);
    lit_chars_16();
    lit_chars_2();
    lit_chars_3();
    lit_chars_34();
    lit_chars_38();
    lit_chars_30();
    lit_chars_17();
    lit_chars_37();
    lit_chars_15();
    lit_chars_35();
    lit_chars_8();
    lit_chars_11();
    lit_chars_13();
    lit_chars_14();
    lit_chars_12();
    lit_chars_7();
    lit_chars_9();
    lit_chars_10();
    lit_chars_6();
    lit_chars_32();
    lit_chars_0();
    lit_chars_1();
    lit_chars_33();
    lit_chars_36();
    lit_chars_20();
    lit_chars_25();
    lit_chars_31();
    lit_chars_4();
    lit_chars_22();
    lit_chars_24();
    lit_chars_29();
    lit_chars_18();
    lit_chars_19();
    lit_chars_23();
    lit_chars_21();
    lit_chars_26();
    lit_chars_27();
    lit_chars_28();
    lit_chars_5();
    lemma_target_flag_none(m, "-r"@, next);
    lemma_host_discovery_flag_none(m, "-r"@, next);
    lemma_technique_flag_none(m, "-r"@, next);
}

pub proof fn lemma_flag_ports_top_ports(m: NmapScanV, n: u32)
    ensures
        spec_dispatch(m, "--top-ports"@, Some(dec_text(n as nat))) == FlagOutcome::Ok1(NmapScanV { ports: PortSpecificationV { top_ports: Some(n), ..m.ports }, ..m }),
{
    reveal(spec_dispatch);
    reveal(spec_ports_flag);
    lit_chars_16();
    lit_chars_2();
    lit_chars_3();
    lit_chars_34();
    lit_chars_38();
    lit_chars_30();
    lit_chars_17();
    lit_chars_37();
    lit_chars_15();
    lit_chars_35();
    lit_chars_8();
    lit_chars_11();
    lit_chars_13();
    lit_chars_14();
    lit_chars_12();
    lit_chars_7();
    lit_chars_9();
    lit_chars_10();
    lit_chars_6();
    lit_chars_32();
    lit_chars_0();
    lit_chars_1();
    lit_chars_33();
    lit_chars_36();
    lit_chars_20();
    lit_chars_25();
    lit_chars_31();
    lit_chars_4();
    lit_chars_22();
    lit_chars_24();
    lit_chars_29();
    lit_chars_18();
    lit_chars_19();
    lit_chars_23();
    lit_chars_21();
    lit_chars_26();
    lit_chars_27();
    lit_chars_28();
    lit_chars_5();
    lemma_dec_round_trip(n as nat, 0xffff_ffff);
    lemma_target_flag_none(m, "--top-ports"@, Some(dec_text(n as nat)));
    lemma_host_discovery_flag_none(m, "--top-ports"@, Some(dec_text(n as nat)));
    lemma_technique_flag_none(m, "--top-ports"@, Some(dec_text(n as nat)));
}

pub proof fn lemma_flag_ports_port_ratio(m: NmapScanV, v: Seq<char>)
    requires
        crate::nettext::is_ratio_text(v),
    ensures
        spec_dispatch(m, "--port-ratio"@, Some(v)) == FlagOutcome::Ok1(NmapScanV { ports: PortSpecificationV { port_ratio: Some(v), ..m.ports }, ..m }),
{
    reveal(spec_dispatch);
    reveal(spec_ports_flag);
    lit_chars_16();
    lit_chars_2();
    lit_chars_3();
    lit_chars_34();
    lit_chars_38();
    lit_chars_30();
    lit_chars_17();
    lit_chars_37();
    lit_chars_15();
    lit_chars_35();
    lit_chars_8();
    lit_chars_11();
    lit_chars_13();
    lit_chars_14();
    lit_chars_12();
    lit_chars_7();
    lit_chars_9();
    lit_chars_10();
    lit_chars_6();
    lit_chars_32();
    lit_chars_0();
    lit_chars_1();
    lit_chars_33();
    lit_chars_36();
    lit_chars_20();
    lit_chars_25();
    lit_chars_31();
    lit_chars_4();
    lit_chars_22();
    lit_chars_24();
    lit_chars_29();
    lit_chars_18();
    lit_chars_19();
    lit_chars_23();
    lit_chars_21();
    lit_chars_26();
    lit_chars_27();
    lit_chars_28();
    lit_chars_5();
    lemma_target_flag_none(m, "--port-ratio"@, Some(v));
    lemma_host_discovery_flag_none(m, "--port-ratio"@, Some(v));
    lemma_technique_flag_none(m, "--port-ratio"@, Some(v));
}

pub proof fn lemma_flag_service_detection_enabled(m: NmapScanV, next: Option<Seq<char>>)
    ensures
        spec_dispatch(m, "-sV"@, next) == FlagOutcome::Ok0(NmapScanV { service_detection: ServiceDetectionV { enabled: true, ..m.service_detection }, ..m }),
{
    reveal(spec_dispatch);
    reveal(spec_service_flag);
    lit_chars_16();
    lit_chars_2();
    lit_chars_3();
    lit_chars_34();
    lit_chars_38();
    lit_chars_30();
    lit_chars_17();
    lit_chars_37();
    lit_chars_15();
    lit_chars_42();
    lit_chars_40();
    lit_chars_41();
    lit_chars_43();
    lit_chars_35();
    lit_chars_8();
    lit_chars_11();
    lit_chars_13();
    lit_chars_14();
    lit_chars_12();
    lit_chars_7();
    lit_chars_9();
    lit_chars_10();
    lit_chars_6();
    lit_chars_32();
    lit_chars_0();
    lit_chars_1();
    lit_chars_33();
    lit_chars_36();
    lit_chars_20();
    lit_chars_25();
    lit_chars_31();
    lit_chars_4();
    lit_chars_22();
    lit_chars_24();
    lit_chars_29();
    lit_chars_18();
    lit_chars_19();
    lit_chars_23();
    lit_chars_39();
    lit_chars_21();
    lit_chars_26();
    lit_chars_27();
    lit_chars_28();
    lit_chars_5();
    lemma_target_flag_none(m, "-sV"@, next);
    lemma_host_discovery_flag_none(m, "-sV"@, next);
    lemma_technique_flag_none(m, "-sV"@, next);
    lemma_ports_flag_none(m, "-sV"@, next);
}

pub proof fn lemma_flag_service_detection_intensity(m: NmapScanV, n: u8)
    ensures
        spec_dispatch(m, "--version-intensity"@, Some(dec_text(n as nat))) == FlagOutcome::Ok1(NmapScanV { service_detection: ServiceDetectionV { intensity: Some(n), ..m.service_detection }, ..m }),
{
    reveal(spec_dispatch);
    reveal(spec_service_flag);
    lit_chars_16();
    lit_chars_2();
    lit_chars_3();
    lit_chars_34();
    lit_chars_38();
    lit_chars_30();
    lit_chars_17();
    lit_chars_37();
    lit_chars_15();
    lit_chars_42();
    lit_chars_40();
    lit_chars_41();
    lit_chars_43();
    lit_chars_35();
    lit_chars_8();
    lit_chars_11();
    lit_chars_13();
    lit_chars_14();
    lit_chars_12();
    lit_chars_7();
    lit_chars_9();
    lit_chars_10();
    lit_chars_6();
    lit_chars_32();
    lit_chars_0();
    lit_chars_1();
    lit_chars_33();
    lit_chars_36();
    lit_chars_20();
    lit_chars_25();
    lit_chars_31();
    lit_chars_4();
    lit_chars_22();
    lit_chars_24();
    lit_chars_29();
    lit_chars_18();
    lit_chars_19();
    lit_chars_23();
    lit_chars_39();
    lit_chars_21();
    lit_chars_26();
    lit_chars_27();
    lit_chars_28();
    lit_chars_5();
    lemma_dec_round_trip(n as nat, 0xff);
    lemma_target_flag_none(m, "--version-intensity"@, Some(dec_text(n as nat)));
    lemma_host_discovery_flag_none(m, "--version-intensity"@, Some(dec_text(n as nat)));
    lemma_technique_flag_none(m, "--version-intensity"@, Some(dec_text(n as nat)));
    lemma_ports_flag_none(m, "--version-intensity"@, Some(dec_text(n as nat)));
}

pub proof fn lemma_flag_service_detection_light(m: NmapScanV, next: Option<Seq<char>>)
    ensures
        spec_dispatch(m, "--version-light"@, next) == FlagOutcome::Ok0(NmapScanV { service_detection: ServiceDetectionV { light: true, ..m.service_detection }, ..m }),
{
    reveal(spec_dispatch);
    reveal(spec_service_flag);
    lit_chars_16();
    lit_chars_2();
    lit_chars_3();
    lit_chars_34();
    lit_chars_38();
    lit_chars_30();
    lit_chars_17();
    lit_chars_37();
    lit_chars_15();
    lit_chars_42();
    lit_chars_40();
    lit_chars_41();
    lit_chars_43();
    lit_chars_35();
    lit_chars_8();
    lit_chars_11();
    lit_chars_13();
    lit_chars_14();
    lit_chars_12();
    lit_chars_7();
    lit_chars_9();
    lit_chars_10();
    lit_chars_6();
    lit_chars_32();
    lit_chars_0();
    lit_chars_1();
    lit_chars_33();
    lit_chars_36();
    lit_chars_20();
    lit_chars_25();
    lit_chars_31();
    lit_chars_4();
    lit_chars_22();
    lit_chars_24();
    lit_chars_29();
    lit_chars_18();
    lit_chars_19();
    lit_chars_23();
    lit_chars_39();
    lit_chars_21();
    lit_chars_26();
    lit_chars_27();
    lit_chars_28();
    lit_chars_5();
    lemma_target_flag_none(m, "--version-light"@, next);
    lemma_host_discovery_flag_none(m, "--version-light"@, next);
    lemma_technique_flag_none(m, "--version-light"@, next);
    lemma_ports_flag_none(m, "--version-light"@, next);
}

pub proof fn lemma_flag_service_detection_all(m: NmapScanV, next: Option<Seq<char>>)
    ensures
        spec_dispatch(m, "--version-all"@, next) == FlagOutcome::Ok0(NmapScanV { service_detection: ServiceDetectionV { all: true, ..m.service_detection }, ..m }),
{
    reveal(spec_dispatch);
    reveal(spec_service_flag);
    lit_chars_16();
    lit_chars_2();
    lit_chars_3();
    lit_chars_34();
    lit_chars_38();
    lit_chars_30();
    lit_chars_17();
    lit_chars_37();
    lit_chars_15();
    lit_chars_42();
    lit_chars_40();
    lit_chars_41();
    lit_chars_43();
    lit_chars_35();
    lit_chars_8();
    lit_chars_11();
    lit_chars_13();
    lit_chars_14();
    lit_chars_12();
    lit_chars_7();
    lit_chars_9();
    lit_chars_10();
    lit_chars_6();
    lit_chars_32();
    lit_chars_0();
    lit_chars_1();
    lit_chars_33();
    lit_chars_36();
    lit_chars_20();
    lit_chars_25();
    lit_chars_31();
    lit_chars_4();
    lit_chars_22();
    lit_chars_24();
    lit_chars_29();
    lit_chars_18();
    lit_chars_19();
    lit_chars_23();
    lit_chars_39();
    lit_chars_21();
    lit_chars_26();
    lit_chars_27();
    lit_chars_28();
    lit_chars_5();
    lemma_target_flag_none(m, "--version-all"@, next);
    lemma_host_discovery_flag_none(m, "--version-all"@, next);
    lemma_technique_flag_none(m, "--version-all"@, next);
    lemma_ports_flag_none(m, "--version-all"@, next);
}

pub proof fn lemma_flag_service_detection_trace(m: NmapScanV, next: Option<Seq<char>>)
    ensures
        spec_dispatch(m, "--version-trace"@, next) == FlagOutcome::Ok0(NmapScanV { service_detection: ServiceDetectionV { trace: true, ..m.service_detection }, ..m }),
{
    reveal(spec_dispatch);
    reveal(spec_service_flag);
    lit_chars_16();
    lit_chars_2();
    lit_chars_3();
    lit_chars_34();
    lit_chars_38();
    lit_chars_30();
    lit_chars_17();
    lit_chars_37();
    lit_chars_15();
    lit_chars_42();
    lit_chars_40();
    lit_chars_41();
    lit_chars_43();
    lit_chars_35();
    lit_chars_8();
    lit_chars_11();
    lit_chars_13();
    lit_chars_14();
    lit_chars_12();
    lit_chars_7();
    lit_chars_9();
    lit_chars_10();
    lit_chars_6();
    lit_chars_32();
    lit_chars_0();
    lit_chars_1();
    lit_chars_33();
    lit_chars_36();
    lit_chars_20();
    lit_chars_25();
    lit_chars_31();
    lit_chars_4();
    lit_chars_22();
    lit_chars_24();
    lit_chars_29();
    lit_chars_18();
    lit_chars_19();
    lit_chars_23();
    lit_chars_39();
    lit_chars_21();
    lit_chars_26();
    lit_chars_27();
    lit_chars_28();
    lit_chars_5();
    lemma_target_flag_none(m, "--version-trace"@, next);
    lemma_host_discovery_flag_none(m, "--version-trace"@, next);
    lemma_technique_flag_none(m, "--version-trace"@, next);
    lemma_ports_flag_none(m, "--version-trace"@, next);
}

pub proof fn lemma_flag_script_scan_default(m: NmapScanV, next: Option<Seq<char>>)
    ensures
        spec_dispatch(m, "-sC"@, next) == FlagOutcome::Ok0(NmapScanV { script_scan: ScriptScanV { default: true, ..m.script_scan }, ..m }),
{
    reveal(spec_dispatch);
    reveal(spec_script_flag);
    lit_chars_16();
    lit_chars_2();
    lit_chars_3();
    lit_chars_34();
    lit_chars_38();
    lit_chars_30();
    lit_chars_45();
    lit_chars_46();
    lit_chars_47();
    lit_chars_50();
    lit_chars_48();
    lit_chars_49();
    lit_chars_17();
    lit_chars_37();
    lit_chars_15();
    lit_chars_42();
    lit_chars_40();
    lit_chars_41();
    lit_chars_43();
    lit_chars_35();
    lit_chars_8();
    lit_chars_11();
    lit_chars_13();
    lit_chars_14();
    lit_chars_12();
    lit_chars_7();
    lit_chars_9();
    lit_chars_10();
    lit_chars_6();
    lit_chars_32();
    lit_chars_0();
    lit_chars_1();
    lit_chars_33();
    lit_chars_36();
    lit_chars_20();
    lit_chars_44();
    lit_chars_25();
    lit_chars_31();
    lit_chars_4();
    lit_chars_22();
    lit_chars_24();
    lit_chars_29();
    lit_chars_18();
    lit_chars_19();
    lit_chars_23();
    lit_chars_39();
    lit_chars_21();
    lit_chars_26();
    lit_chars_27();
    lit_chars_28();
    lit_chars_5();
    lemma_target_flag_none(m, "-sC"@, next);
    lemma_host_discovery_flag_none(m, "-sC"@, next);
    lemma_technique_flag_none(m, "-sC"@, next);
    lemma_ports_flag_none(m, "-sC"@, next);
    lemma_service_flag_none(m, "-sC"@, next);
}

pub proof fn lemma_flag_script_scan_scripts(m: NmapScanV, elems: Seq<Seq<char>>)
    requires
        elems.len() > 0,
        forall|i: int| 0 <= i < elems.len() ==> !(#[trigger] elems[i]).contains(','),
    ensures
        spec_dispatch(m, "--script"@, Some(join_comma(elems))) == FlagOutcome::Ok1(NmapScanV { script_scan: ScriptScanV { scripts: elems, ..m.script_scan }, ..m }),
{
    reveal(spec_dispatch);
    reveal(spec_script_flag);
    lit_chars_16();
    lit_chars_2();
    lit_chars_3();
    lit_chars_34();
    lit_chars_38();
    lit_chars_30();
    lit_chars_45();
    lit_chars_46();
    lit_chars_47();
    lit_chars_50();
    lit_chars_48();
    lit_chars_49();
    lit_chars_17();
    lit_chars_37();
    lit_chars_15();
    lit_chars_42();
    lit_chars_40();
    lit_chars_41();
    lit_chars_43();
    lit_chars_35();
    lit_chars_8();
    lit_chars_11();
    lit_chars_13();
    lit_chars_14();
    lit_chars_12();
    lit_chars_7();
    lit_chars_9();
    lit_chars_10();
    lit_chars_6();
    lit_chars_32();
    lit_chars_0();
    lit_chars_1();
    lit_chars_33();
    lit_chars_36();
    lit_chars_20();
    lit_chars_44();
    lit_chars_25();
    lit_chars_31();
    lit_chars_4();
    lit_chars_22();
    lit_chars_24();
    lit_chars_29();
    lit_chars_18();
    lit_chars_19();
    lit_chars_23();
    lit_chars_39();
    lit_chars_21();
    lit_chars_26();
    lit_chars_27();
    lit_chars_28();
    lit_chars_5();
    lemma_split_comma_of_join(elems);
    lemma_target_flag_none(m, "--script"@, Some(join_comma(elems)));
    lemma_host_discovery_flag_none(m, "--script"@, Some(join_comma(elems)));
    lemma_technique_flag_none(m, "--script"@, Some(join_comma(elems)));
    lemma_ports_flag_none(m, "--script"@, Some(join_comma(elems)));
    lemma_service_flag_none(m, "--script"@, Some(join_comma(elems)));
}

pub proof fn lemma_flag_script_scan_script_args(m: NmapScanV, v: Seq<char>)
    ensures
        spec_dispatch(m, "--script-args"@, Some(v)) == FlagOutcome::Ok1(NmapScanV { script_scan: ScriptScanV { script_args: Some(v), ..m.script_scan }, ..m }),
{
    reveal(spec_dispatch);
    reveal(spec_script_flag);
    lit_chars_16();
    lit_chars_2();
    lit_chars_3();
    lit_chars_34();
    lit_chars_38();
    lit_chars_30();
    lit_chars_45();
    lit_chars_46();
    lit_chars_47();
    lit_chars_50();
    lit_chars_48();
    lit_chars_49();
    lit_chars_17();
    lit_chars_37();
    lit_chars_15();
    lit_chars_42();
    lit_chars_40();
    lit_chars_41();
    lit_chars_43();
    lit_chars_35();
    lit_chars_8();
    lit_chars_11();
    lit_chars_13();
    lit_chars_14();
    lit_chars_12();
    lit_chars_7();
    lit_chars_9();
    lit_chars_10();
    lit_chars_6();
    lit_chars_32();
    lit_chars_0();
    lit_chars_1();
    lit_chars_33();
    lit_chars_36();
    lit_chars_20();
    lit_chars_44();
    lit_chars_25();
    lit_chars_31();
    lit_chars_4();
    lit_chars_22();
    lit_chars_24();
    lit_chars_29();
    lit_chars_18();
    lit_chars_19();
    lit_chars_23();
    lit_chars_39();
    lit_chars_21();
    lit_chars_26();
    lit_chars_27();
    lit_chars_28();
    lit_chars_5();
    lemma_target_flag_none(m, "--script-args"@, Some(v));
    lemma_host_discovery_flag_none(m, "--script-args"@, Some(v));
    lemma_technique_flag_none(m, "--script-args"@, Some(v));
    lemma_ports_flag_none(m, "--script-args"@, Some(v));
    lemma_service_flag_none(m, "--script-args"@, Some(v));
}

pub proof fn lemma_flag_script_scan_script_args_file(m: NmapScanV, v: Seq<char>)
    ensures
        spec_dispatch(m, "--script-args-file"@, Some(v)) == FlagOutcome::Ok1(NmapScanV { script_scan: ScriptScanV { script_args_file: Some(v), ..m.script_scan }, ..m }),
{
    reveal(spec_dispatch);
    reveal(spec_script_flag);
    lit_chars_16();
    lit_chars_2();
    lit_chars_3();
    lit_chars_34();
    lit_chars_38();
    lit_chars_30();
    lit_chars_45();
    lit_chars_46();
    lit_chars_47();
    lit_chars_50();
    lit_chars_48();
    lit_chars_49();
    lit_chars_17();
    lit_chars_37();
    lit_chars_15();
    lit_chars_42();
    lit_chars_40();
    lit_chars_41();
    lit_chars_43();
    lit_chars_35();
    lit_chars_8();
    lit_chars_11();
    lit_chars_13();
    lit_chars_14();
    lit_chars_12();
    lit_chars_7();
    lit_chars_9();
    lit_chars_10();
    lit_chars_6();
    lit_chars_32();
    lit_chars_0();
    lit_chars_1();
    lit_chars_33();
    lit_chars_36();
    lit_chars_20();
    lit_chars_44();
    lit_chars_25();
    lit_chars_31();
    lit_chars_4();
    lit_chars_22();
    lit_chars_24();
    lit_chars_29();
    lit_chars_18();
    lit_chars_19();
    lit_chars_23();
    lit_chars_39();
    lit_chars_21();
    lit_chars_26();
    lit_chars_27();
    lit_chars_28();
    lit_chars_5();
    lemma_target_flag_none(m, "--script-args-file"@, Some(v));
    lemma_host_discovery_flag_none(m, "--script-args-file"@, Some(v));
    lemma_technique_flag_none(m, "--script-args-file"@, Some(v));
    lemma_ports_flag_none(m, "--script-args-file"@, Some(v));
    lemma_service_flag_none(m, "--script-args-file"@, Some(v));
}

pub proof fn lemma_flag_script_scan_script_trace(m: NmapScanV, next: Option<Seq<char>>)
    ensures
        spec_dispatch(m, "--script-trace"@, next) == FlagOutcome::Ok0(NmapScanV { script_scan: ScriptScanV { script_trace: true, ..m.script_scan }, ..m }),
{
    reveal(spec_dispatch);
    reveal(spec_script_flag);
    lit_chars_16();
    lit_chars_2();
    lit_chars_3();
    lit_chars_34();
    lit_chars_38();
    lit_chars_30();
    lit_chars_45();
    lit_chars_46();
    lit_chars_47();
    lit_chars_50();
    lit_chars_48();
    lit_chars_49();
    lit_chars_17();
    lit_chars_37();
    lit_chars_15();
    lit_chars_42();
    lit_chars_40();
    lit_chars_41();
    lit_chars_43();
    lit_chars_35();
    lit_chars_8();
    lit_chars_11();
    lit_chars_13();
    lit_chars_14();
    lit_chars_12();
    lit_chars_7();
    lit_chars_9();
    lit_chars_10();
    lit_chars_6();
    lit_chars_32();
    lit_chars_0();
    lit_chars_1();
    lit_chars_33();
    lit_chars_36();
    lit_chars_20();
    lit_chars_44();
    lit_chars_25();
    lit_chars_31();
    lit_chars_4();
    lit_chars_22();
    lit_chars_24();
    lit_chars_29();
    lit_chars_18();
    lit_chars_19();
    lit_chars_23();
    lit_chars_39();
    lit_chars_21();
    lit_chars_26();
    lit_chars_27();
    lit_chars_28();
    lit_chars_5();
    lemma_target_flag_none(m, "--script-trace"@, next);
    lemma_host_discovery_flag_none(m, "--script-trace"@, next);
    lemma_technique_flag_none(m, "--script-trace"@, next);
    lemma_ports_flag_none(m, "--script-trace"@, next);
    lemma_service_flag_none(m, "--script-trace"@, next);
}

pub proof fn lemma_flag_script_scan_script_updatedb(m: NmapScanV, next: Option<Seq<char>>)
    ensures
        spec_dispatch(m, "--script-updatedb"@, next) == FlagOutcome::Ok0(NmapScanV { script_scan: ScriptScanV { script_updatedb: true, ..m.script_scan }, ..m }),
{
    reveal(spec_dispatch);
    reveal(spec_script_flag);
    lit_chars_16();
    lit_chars_2();
    lit_chars_3();
    lit_chars_34();
    lit_chars_38();
    lit_chars_30();
    lit_chars_45();
    lit_chars_46();
    lit_chars_47();
    lit_chars_50();
    lit_chars_48();
    lit_chars_49();
    lit_chars_17();
    lit_chars_37();
    lit_chars_15();
    lit_chars_42();
    lit_chars_40();
    lit_chars_41();
    lit_chars_43();
    lit_chars_35();
    lit_chars_8();
    lit_chars_11();
    lit_chars_13();
    lit_chars_14();
    lit_chars_12();
    lit_chars_7();
    lit_chars_9();
    lit_chars_10();
    lit_chars_6();
    lit_chars_32();
    lit_chars_0();
    lit_chars_1();
    lit_chars_33();
    lit_chars_36();
    lit_chars_20();
    lit_chars_44();
    lit_chars_25();
    lit_chars_31();
    lit_chars_4();
    lit_chars_22();
    lit_chars_24();
    lit_chars_29();
    lit_chars_18();
    lit_chars_19();
    lit_chars_23();
    lit_chars_39();
    lit_chars_21();
    lit_chars_26();
    lit_chars_27();
    lit_chars_28();
    lit_chars_5();
    lemma_target_flag_none(m, "--script-updatedb"@, next);
    lemma_host_discovery_flag_none(m, "--script-updatedb"@, next);
    lemma_technique_flag_none(m, "--script-updatedb"@, next);
    lemma_ports_flag_none(m, "--script-updatedb"@, next);
    lemma_service_flag_none(m, "--script-updatedb"@, next);
}

pub proof fn lemma_flag_script_scan_script_help(m: NmapScanV, v: Seq<char>)
    ensures
        spec_dispatch(m, "--script-help"@, Some(v)) == FlagOutcome::Ok1(NmapScanV { script_scan: ScriptScanV { script_help: Some(v), ..m.script_scan }, ..m }),
{
    reveal(spec_dispatch);
    reveal(spec_script_flag);
    lit_chars_16();
    lit_chars_2();
    lit_chars_3();
    lit_chars_34();
    lit_chars_38();
    lit_chars_30();
    lit_chars_45();
    lit_chars_46();
    lit_chars_47();
    lit_chars_50();
    lit_chars_48();
    lit_chars_49();
    lit_chars_17();
    lit_chars_37();
    lit_chars_15();
    lit_chars_42();
    lit_chars_40();
    lit_chars_41();
    lit_chars_43();
    lit_chars_35();
    lit_chars_8();
    lit_chars_11();
    lit_chars_13();
    lit_chars_14();
    lit_chars_12();
    lit_chars_7();
    lit_chars_9();
    lit_chars_10();
    lit_chars_6();
    lit_chars_32();
    lit_chars_0();
    lit_chars_1();
    lit_chars_33();
    lit_chars_36();
    lit_chars_20();
    lit_chars_44();
    lit_chars_25();
    lit_chars_31();
    lit_chars_4();
    lit_chars_22();
    lit_chars_24();
    lit_chars_29();
    lit_chars_18();
    lit_chars_19();
    lit_chars_23();
    lit_chars_39();
    lit_chars_21();
    lit_chars_26();
    lit_chars_27();
    lit_chars_28();
    lit_chars_5();
    lemma_target_flag_none(m, "--script-help"@, Some(v));
    lemma_host_discovery_flag_none(m, "--script-help"@, Some(v));
    lemma_technique_flag_none(m, "--script-help"@, Some(v));
    lemma_ports_flag_none(m, "--script-help"@, Some(v));
    lemma_service_flag_none(m, "--script-help"@, Some(v));
}

pub proof fn lemma_flag_os_detection_enabled(m: NmapScanV, next: Option<Seq<char>>)
    ensures
        spec_dispatch(m, "-O"@, next) == FlagOutcome::Ok0(NmapScanV { os_detection: OsDetectionV { enabled: true, ..m.os_detection }, ..m }),
{
    reveal(spec_dispatch);
    reveal(spec_os_flag);
    lit_chars_16();
    lit_chars_2();
    lit_chars_3();
    lit_chars_34();
    lit_chars_54();
    lit_chars_53();
    lit_chars_52();
    lit_chars_38();
    lit_chars_30();
    lit_chars_45();
    lit_chars_46();
    lit_chars_47();
    lit_chars_50();
    lit_chars_48();
    lit_chars_49();
    lit_chars_17();
    lit_chars_37();
    lit_chars_15();
    lit_chars_42();
    lit_chars_40();
    lit_chars_41();
    lit_chars_43();
    lit_chars_35();
    lit_chars_51();
    lit_chars_8();
    lit_chars_11();
    lit_chars_13();
    lit_chars_14();
    lit_chars_12();
    lit_chars_7();
    lit_chars_9();
    lit_chars_10();
    lit_chars_6();
    lit_chars_32();
    lit_chars_0();
    lit_chars_1();
    lit_chars_33();
    lit_chars_36();
    lit_chars_20();
    lit_chars_44();
    lit_chars_25();
    lit_chars_31();
    lit_chars_4();
    lit_chars_22();
    lit_chars_24();
    lit_chars_29();
    lit_chars_18();
    lit_chars_19();
    lit_chars_23();
    lit_chars_39();
    lit_chars_21();
    lit_chars_26();
    lit_chars_27();
    lit_chars_28();
    lit_chars_5();
    lemma_target_flag_none(m, "-O"@, next);
    lemma_host_discovery_flag_none(m, "-O"@, next);
    lemma_technique_flag_none(m, "-O"@, next);
    lemma_ports_flag_none(m, "-O"@, next);
    lemma_service_flag_none(m, "-O"@, next);
    lemma_script_flag_none(m, "-O"@, next);
}

pub proof fn lemma_flag_os_detection_limit(m: NmapScanV, next: Option<Seq<char>>)
    ensures
        spec_dispatch(m, "--osscan-limit"@, next) == FlagOutcome::Ok0(NmapScanV { os_detection: OsDetectionV { limit: true, ..m.os_detection }, ..m }),
{
    reveal(spec_dispatch);
    reveal(spec_os_flag);
    lit_chars_16();
    lit_chars_2();
    lit_chars_3();
    lit_chars_34();
    lit_chars_54();
    lit_chars_53();
    lit_chars_52();
    lit_chars_38();
    lit_chars_30();
    lit_chars_45();
    lit_chars_46();
    lit_chars_47();
    lit_chars_50();
    lit_chars_48();
    lit_chars_49();
    lit_chars_17();
    lit_chars_37();
    lit_chars_15();
    lit_chars_42();
    lit_chars_40();
    lit_chars_41();
    lit_chars_43();
    lit_chars_35();
    lit_chars_51();
    lit_chars_8();
    lit_chars_11();
    lit_chars_13();
    lit_chars_14();
    lit_chars_12();
    lit_chars_7();
    lit_chars_9();
    lit_chars_10();
    lit_chars_6();
    lit_chars_32();
    lit_chars_0();
    lit_chars_1();
    lit_chars_33();
    lit_chars_36();
    lit_chars_20();
    lit_chars_44();
    lit_chars_25();
    lit_chars_31();
    lit_chars_4();
    lit_chars_22();
    lit_chars_24();
    lit_chars_29();
    lit_chars_18();
    lit_chars_19();
    lit_chars_23();
    lit_chars_39();
    lit_chars_21();
    lit_chars_26();
    lit_chars_27();
    lit_chars_28();
    lit_chars_5();
    lemma_target_flag_none(m, "--osscan-limit"@, next);
    lemma_host_discovery_flag_none(m, "--osscan-limit"@, next);
    lemma_technique_flag_none(m, "--osscan-limit"@, next);
    lemma_ports_flag_none(m, "--osscan-limit"@, next);
    lemma_service_flag_none(m, "--osscan-limit"@, next);
    lemma_script_flag_none(m, "--osscan-limit"@, next);
}

pub proof fn lemma_flag_os_detection_guess(m: NmapScanV, next: Option<Seq<char>>)
    ensures
        spec_dispatch(m, "--osscan-guess"@, next) == FlagOutcome::Ok0(NmapScanV { os_detection: OsDetectionV { guess: true, ..m.os_detection }, ..m }),
{
    reveal(spec_dispatch);
    reveal(spec_os_flag);
    lit_chars_16();
    lit_chars_2();
    lit_chars_3();
    lit_chars_34();
    lit_chars_54();
    lit_chars_53();
    lit_chars_52();
    lit_chars_38();
    lit_chars_30();
    lit_chars_45();
    lit_chars_46();
    lit_chars_47();
    lit_chars_50();
    lit_chars_48();
    lit_chars_49();
    lit_chars_17();
    lit_chars_37();
    lit_chars_15();
    lit_chars_42();
    lit_chars_40();
    lit_chars_41();
    lit_chars_43();
    lit_chars_35();
    lit_chars_51();
    lit_chars_8();
    lit_chars_11();
    lit_chars_13();
    lit_chars_14();
    lit_chars_12();
    lit_chars_7();
    lit_chars_9();
    lit_chars_10();
    lit_chars_6();
    lit_chars_32();
    lit_chars_0();
    lit_chars_1();
    lit_chars_33();
    lit_chars_36();
    lit_chars_20();
    lit_chars_44();
    lit_chars_25();
    lit_chars_31();
    lit_chars_4();
    lit_chars_22();
    lit_chars_24();
    lit_chars_29();
    lit_chars_18();
    lit_chars_19();
    lit_chars_23();
    lit_chars_39();
    lit_chars_21();
    lit_chars_26();
    lit_chars_27();
    lit_chars_28();
    lit_chars_5();
    lemma_target_flag_none(m, "--osscan-guess"@, next);
    lemma_host_discovery_flag_none(m, "--osscan-guess"@, next);
    lemma_technique_flag_none(m, "--osscan-guess"@, next);
    lemma_ports_flag_none(m, "--osscan-guess"@, next);
    lemma_service_flag_none(m, "--osscan-guess"@, next);
    lemma_script_flag_none(m, "--osscan-guess"@, next);
}

pub proof fn lemma_flag_os_detection_max_retries(m: NmapScanV, n: u32)
    ensures
        spec_dispatch(m, "--max-os-tries"@, Some(dec_text(n as nat))) == FlagOutcome::Ok1(NmapScanV { os_detection: OsDetectionV { max_retries: Some(n), ..m.os_detection }, ..m }),
{
    reveal(spec_dispatch);
    reveal(spec_os_flag);
    lit_chars_16();
    lit_chars_2();
    lit_chars_3();
    lit_chars_34();
    lit_chars_54();
    lit_chars_53();
    lit_chars_52();
    lit_chars_38();
    lit_chars_30();
    lit_chars_45();
    lit_chars_46();
    lit_chars_47();
    lit_chars_50();
    lit_chars_48();
    lit_chars_49();
    lit_chars_17();
    lit_chars_37();
    lit_chars_15();
    lit_chars_42();
    lit_chars_40();
    lit_chars_41();
    lit_chars_43();
    lit_chars_35();
    lit_chars_51();
    lit_chars_8();
    lit_chars_11();
    lit_chars_13();
    lit_chars_14();
    lit_chars_12();
    lit_chars_7();
    lit_chars_9();
    lit_chars_10();
    lit_chars_6();
    lit_chars_32();
    lit_chars_0();
    lit_chars_1();
    lit_chars_33();
    lit_chars_36();
    lit_chars_20();
    lit_chars_44();
    lit_chars_25();
    lit_chars_31();
    lit_chars_4();
    lit_chars_22();
    lit_chars_24();
    lit_chars_29();
    lit_chars_18();
    lit_chars_19();
    lit_chars_23();
    lit_chars_39();
    lit_chars_21();
    lit_chars_26();
    lit_chars_27();
    lit_chars_28();
    lit_chars_5();
    lemma_dec_round_trip(n as nat, 0xffff_ffff);
    lemma_target_flag_none(m, "--max-os-tries"@, Some(dec_text(n as nat)));
    lemma_host_discovery_flag_none(m, "--max-os-tries"@, Some(dec_text(n as nat)));
    lemma_technique_flag_none(m, "--max-os-tries"@, Some(dec_text(n as nat)));
    lemma_ports_flag_none(m, "--max-os-tries"@, Some(dec_text(n as nat)));
    lemma_service_flag_none(m, "--max-os-tries"@, Some(dec_text(n as nat)));
    lemma_script_flag_none(m, "--max-os-tries"@, Some(dec_text(n as nat)));
}

pub proof fn lemma_flag_timing_template_0(m: NmapScanV, next: Option<Seq<char>>)
    ensures
        spec_dispatch(m, "-T"@ + dec_text(0), next) == FlagOutcome::Ok0(NmapScanV { timing: TimingPerformanceV { template: Some(TimingTemplate::Paranoid), ..m.timing }, ..m }),
{
    reveal(spec_dispatch);
    reveal(spec_timing_flag);
    lit_chars_76();
    lit_chars_75();
    lit_chars_16();
    lit_chars_2();
    lit_chars_3();
    lit_chars_34();
    lit_chars_69();
    lit_chars_67();
    lit_chars_62();
    lit_chars_54();
    lit_chars_64();
    lit_chars_74();
    lit_chars_68();
    lit_chars_66();
    lit_chars_72();
    lit_chars_61();
    lit_chars_63();
    lit_chars_73();
    lit_chars_65();
    lit_chars_77();
    lit_chars_53();
    lit_chars_52();
    lit_chars_38();
    lit_chars_71();
    lit_chars_30();
    lit_chars_45();
    lit_chars_46();
    lit_chars_47();
    lit_chars_50();
    lit_chars_70();
    lit_chars_48();
    lit_chars_49();
    lit_chars_17();
    lit_chars_37();
    lit_chars_15();
    lit_chars_42();
    lit_chars_40();
    lit_chars_41();
    lit_chars_43();
    lit_chars_35();
    lit_chars_51();
    lit_chars_8();
    lit_chars_11();
    lit_chars_13();
    lit_chars_14();
    lit_chars_12();
    lit_chars_7();
    lit_chars_9();
    lit_chars_10();
    lit_chars_6();
    lit_chars_129();
    lit_chars_55();
    lit_chars_56();
    lit_chars_57();
    lit_chars_58();
    lit_chars_59();
    lit_chars_60();
    lit_chars_32();
    lit_chars_0();
    lit_chars_1();
    lit_chars_33();
    lit_chars_36();
    lit_chars_20();
    lit_chars_44();
    lit_chars_25();
    lit_chars_31();
    lit_chars_4();
    lit_chars_22();
    lit_chars_24();
    lit_chars_29();
    lit_chars_18();
    lit_chars_19();
    lit_chars_23();
    lit_chars_39();
    lit_chars_21();
    lit_chars_26();
    lit_chars_27();
    lit_chars_28();
    lit_chars_5();
    assert("-T"@ + dec_text(0) =~= "-T0"@);
    lemma_target_flag_none(m, "-T"@ + dec_text(0), next);
    lemma_host_discovery_flag_none(m, "-T"@ + dec_text(0), next);
    lemma_technique_flag_none(m, "-T"@ + dec_text(0), next);
    lemma_ports_flag_none(m, "-T"@ + dec_text(0), next);
    lemma_service_flag_none(m, "-T"@ + dec_text(0), next);
    lemma_script_flag_none(m, "-T"@ + dec_text(0), next);
    lemma_os_flag_none(m, "-T"@ + dec_text(0), next);
}

pub proof fn lemma_flag_timing_template_1(m: NmapScanV, next: Option<Seq<char>>)
    ensures
        spec_dispatch(m, "-T"@ + dec_text(1), next) == FlagOutcome::Ok0(NmapScanV { timing: TimingPerformanceV { template: Some(TimingTemplate::Sneaky), ..m.timing }, ..m }),
{
    reveal(spec_dispatch);
    reveal(spec_timing_flag);
    lit_chars_76();
    lit_chars_75();
    lit_chars_16();
    lit_chars_2();
    lit_chars_3();
    lit_chars_34();
    lit_chars_69();
    lit_chars_67();
    lit_chars_62();
    lit_chars_54();
    lit_chars_64();
    lit_chars_74();
    lit_chars_68();
    lit_chars_66();
    lit_chars_72();
    lit_chars_61();
    lit_chars_63();
    lit_chars_73();
    lit_chars_65();
    lit_chars_77();
    lit_chars_53();
    lit_chars_52();
    lit_chars_38();
    lit_chars_71();
    lit_chars_30();
    lit_chars_45();
    lit_chars_46();
    lit_chars_47();
    lit_chars_50();
    lit_chars_70();
    lit_chars_48();
    lit_chars_49();
    lit_chars_17();
    lit_chars_37();
    lit_chars_15();
    lit_chars_42();
    lit_chars_40();
    lit_chars_41();
    lit_chars_43();
    lit_chars_35();
    lit_chars_51();
    lit_chars_8();
    lit_chars_11();
    lit_chars_13();
    lit_chars_14();
    lit_chars_12();
    lit_chars_7();
    lit_chars_9();
    lit_chars_10();
    lit_chars_6();
    lit_chars_129();
    lit_chars_55();
    lit_chars_56();
    lit_chars_57();
    lit_chars_58();
    lit_chars_59();
    lit_chars_60();
    lit_chars_32();
    lit_chars_0();
    lit_chars_1();
    lit_chars_33();
    lit_chars_36();
    lit_chars_20();
    lit_chars_44();
    lit_chars_25();
    lit_chars_31();
    lit_chars_4();
    lit_chars_22();
    lit_chars_24();
    lit_chars_29();
    lit_chars_18();
    lit_chars_19();
    lit_chars_23();
    lit_chars_39();
    lit_chars_21();
    lit_chars_26();
    lit_chars_27();
    lit_chars_28();
    lit_chars_5();
    assert("-T"@ + dec_text(1) =~= "-T1"@);
    lemma_target_flag_none(m, "-T"@ + dec_text(1), next);
    lemma_host_discovery_flag_none(m, "-T"@ + dec_text(1), next);
    lemma_technique_flag_none(m, "-T"@ + dec_text(1), next);
    lemma_ports_flag_none(m, "-T"@ + dec_text(1), next);
    lemma_service_flag_none(m, "-T"@ + dec_text(1), next);
    lemma_script_flag_none(m, "-T"@ + dec_text(1), next);
    lemma_os_flag_none(m, "-T"@ + dec_text(1), next);
}

pub proof fn lemma_flag_timing_template_2(m: NmapScanV, next: Option<Seq<char>>)
    ensures
        spec_dispatch(m, "-T"@ + dec_text(2), next) == FlagOutcome::Ok0(NmapScanV { timing: TimingPerformanceV { template: Some(TimingTemplate::Polite), ..m.timing }, ..m }),
{
    reveal(spec_dispatch);
    reveal(spec_timing_flag);
    lit_chars_76();
    lit_chars_75();
    lit_chars_16();
    lit_chars_2();
    lit_chars_3();
    lit_chars_34();
    lit_chars_69();
    lit_chars_67();
    lit_chars_62();
    lit_chars_54();
    lit_chars_64();
    lit_chars_74();
    lit_chars_68();
    lit_chars_66();
    lit_chars_72();
    lit_chars_61();
    lit_chars_63();
    lit_chars_73();
    lit_chars_65();
    lit_chars_77();
    lit_chars_53();
    lit_chars_52();
    lit_chars_38();
    lit_chars_71();
    lit_chars_30();
    lit_chars_45();
    lit_chars_46();
    lit_chars_47();
    lit_chars_50();
    lit_chars_70();
    lit_chars_48();
    lit_chars_49();
    lit_chars_17();
    lit_chars_37();
    lit_chars_15();
    lit_chars_42();
    lit_chars_40();
    lit_chars_41();
    lit_chars_43();
    lit_chars_35();
    lit_chars_51();
    lit_chars_8();
    lit_chars_11();
    lit_chars_13();
    lit_chars_14();
    lit_chars_12();
    lit_chars_7();
    lit_chars_9();
    lit_chars_10();
    lit_chars_6();
    lit_chars_129();
    lit_chars_55();
    lit_chars_56();
    lit_chars_57();
    lit_chars_58();
    lit_chars_59();
    lit_chars_60();
    lit_chars_32();
    lit_chars_0();
    lit_chars_1();
    lit_chars_33();
    lit_chars_36();
    lit_chars_20();
    lit_chars_44();
    lit_chars_25();
    lit_chars_31();
    lit_chars_4();
    lit_chars_22();
    lit_chars_24();
    lit_chars_29();
    lit_chars_18();
    lit_chars_19();
    lit_chars_23();
    lit_chars_39();
    lit_chars_21();
    lit_chars_26();
    lit_chars_27();
    lit_chars_28();
    lit_chars_5();
    assert("-T"@ + dec_text(2) =~= "-T2"@);
    lemma_target_flag_none(m, "-T"@ + dec_text(2), next);
    lemma_host_discovery_flag_none(m, "-T"@ + dec_text(2), next);
    lemma_technique_flag_none(m, "-T"@ + dec_text(2), next);
    lemma_ports_flag_none(m, "-T"@ + dec_text(2), next);
    lemma_service_flag_none(m, "-T"@ + dec_text(2), next);
    lemma_script_flag_none(m, "-T"@ + dec_text(2), next);
    lemma_os_flag_none(m, "-T"@ + dec_text(2), next);
}

pub proof fn lemma_flag_timing_template_3(m: NmapScanV, next: Option<Seq<char>>)
    ensures
        spec_dispatch(m, "-T"@ + dec_text(3), next) == FlagOutcome::Ok0(NmapScanV { timing: TimingPerformanceV { template: Some(TimingTemplate::Normal), ..m.timing }, ..m }),
{
    reveal(spec_dispatch);
    reveal(spec_timing_flag);
    lit_chars_76();
    lit_chars_75();
    lit_chars_16();
    lit_chars_2();
    lit_chars_3();
    lit_chars_34();
    lit_chars_69();
    lit_chars_67();
    lit_chars_62();
    lit_chars_54();
    lit_chars_64();
    lit_chars_74();
    lit_chars_68();
    lit_chars_66();
    lit_chars_72();
    lit_chars_61();
    lit_chars_63();
    lit_chars_73();
    lit_chars_65();
    lit_chars_77();
    lit_chars_53();
    lit_chars_52();
    lit_chars_38();
    lit_chars_71();
    lit_chars_30();
    lit_chars_45();
    lit_chars_46();
    lit_chars_47();
    lit_chars_50();
    lit_chars_70();
    lit_chars_48();
    lit_chars_49();
    lit_chars_17();
    lit_chars_37();
    lit_chars_15();
    lit_chars_42();
    lit_chars_40();
    lit_chars_41();
    lit_chars_43();
    lit_chars_35();
    lit_chars_51();
    lit_chars_8();
    lit_chars_11();
    lit_chars_13();
    lit_chars_14();
    lit_chars_12();
    lit_chars_7();
    lit_chars_9();
    lit_chars_10();
    lit_chars_6();
    lit_chars_129();
    lit_chars_55();
    lit_chars_56();
    lit_chars_57();
    lit_chars_58();
    lit_chars_59();
    lit_chars_60();
    lit_chars_32();
    lit_chars_0();
    lit_chars_1();
    lit_chars_33();
    lit_chars_36();
    lit_chars_20();
    lit_chars_44();
    lit_chars_25();
    lit_chars_31();
    lit_chars_4();
    lit_chars_22();
    lit_chars_24();
    lit_chars_29();
    lit_chars_18();
    lit_chars_19();
    lit_chars_23();
    lit_chars_39();
    lit_chars_21();
    lit_chars_26();
    lit_chars_27();
    lit_chars_28();
    lit_chars_5();
    assert("-T"@ + dec_text(3) =~= "-T3"@);
    lemma_target_flag_none(m, "-T"@ + dec_text(3), next);
    lemma_host_discovery_flag_none(m, "-T"@ + dec_text(3), next);
    lemma_technique_flag_none(m, "-T"@ + dec_text(3), next);
    lemma_ports_flag_none(m, "-T"@ + dec_text(3), next);
    lemma_service_flag_none(m, "-T"@ + dec_text(3), next);
    lemma_script_flag_none(m, "-T"@ + dec_text(3), next);
    lemma_os_flag_none(m, "-T"@ + dec_text(3), next);
}

pub proof fn lemma_flag_timing_template_4(m: NmapScanV, next: Option<Seq<char>>)
    ensures
        spec_dispatch(m, "-T"@ + dec_text(4), next) == FlagOutcome::Ok0(NmapScanV { timing: TimingPerformanceV { template: Some(TimingTemplate::Aggressive), ..m.timing }, ..m }),
{
    reveal(spec_dispatch);
    reveal(spec_timing_flag);
    lit_chars_76();
    lit_chars_75();
    lit_chars_16();
    lit_chars_2();
    lit_chars_3();
    lit_chars_34();
    lit_chars_69();
    lit_chars_67();
    lit_chars_62();
    lit_chars_54();
    lit_chars_64();
    lit_chars_74();
    lit_chars_68();
    lit_chars_66();
    lit_chars_72();
    lit_chars_61();
    lit_chars_63();
    lit_chars_73();
    lit_chars_65();
    lit_chars_77();
    lit_chars_53();
    lit_chars_52();
    lit_chars_38();
    lit_chars_71();
    lit_chars_30();
    lit_chars_45();
    lit_chars_46();
    lit_chars_47();
    lit_chars_50();
    lit_chars_70();
    lit_chars_48();
    lit_chars_49();
    lit_chars_17();
    lit_chars_37();
    lit_chars_15();
    lit_chars_42();
    lit_chars_40();
    lit_chars_41();
    lit_chars_43();
    lit_chars_35();
    lit_chars_51();
    lit_chars_8();
    lit_chars_11();
    lit_chars_13();
    lit_chars_14();
    lit_chars_12();
    lit_chars_7();
    lit_chars_9();
    lit_chars_10();
    lit_chars_6();
    lit_chars_129();
    lit_chars_55();
    lit_chars_56();
    lit_chars_57();
    lit_chars_58();
    lit_chars_59();
    lit_chars_60();
    lit_chars_32();
    lit_chars_0();
    lit_chars_1();
    lit_chars_33();
    lit_chars_36();
    lit_chars_20();
    lit_chars_44();
    lit_chars_25();
    lit_chars_31();
    lit_chars_4();
    lit_chars_22();
    lit_chars_24();
    lit_chars_29();
    lit_chars_18();
    lit_chars_19();
    lit_chars_23();
    lit_chars_39();
    lit_chars_21();
    lit_chars_26();
    lit_chars_27();
    lit_chars_28();
    lit_chars_5();
    assert("-T"@ + dec_text(4) =~= "-T4"@);
    lemma_target_flag_none(m, "-T"@ + dec_text(4), next);
    lemma_host_discovery_flag_none(m, "-T"@ + dec_text(4), next);
    lemma_technique_flag_none(m, "-T"@ + dec_text(4), next);
    lemma_ports_flag_none(m, "-T"@ + dec_text(4), next);
    lemma_service_flag_none(m, "-T"@ + dec_text(4), next);
    lemma_script_flag_none(m, "-T"@ + dec_text(4), next);
    lemma_os_flag_none(m, "-T"@ + dec_text(4), next);
}

pub proof fn lemma_flag_timing_template_5(m: NmapScanV, next: Option<Seq<char>>)
    ensures
        spec_dispatch(m, "-T"@ + dec_text(5), next) == FlagOutcome::Ok0(NmapScanV { timing: TimingPerformanceV { template: Some(TimingTemplate::Insane), ..m.timing }, ..m }),
{
    reveal(spec_dispatch);
    reveal(spec_timing_flag);
    lit_chars_76();
    lit_chars_75();
    lit_chars_16();
    lit_chars_2();
    lit_chars_3();
    lit_chars_34();
    lit_chars_69();
    lit_chars_67();
    lit_chars_62();
    lit_chars_54();
    lit_chars_64();
    lit_chars_74();
    lit_chars_68();
    lit_chars_66();
    lit_chars_72();
    lit_chars_61();
    lit_chars_63();
    lit_chars_73();
    lit_chars_65();
    lit_chars_77();
    lit_chars_53();
    lit_chars_52();
    lit_chars_38();
    lit_chars_71();
    lit_chars_30();
    lit_chars_45();
    lit_chars_46();
    lit_chars_47();
    lit_chars_50();
    lit_chars_70();
    lit_chars_48();
    lit_chars_49();
    lit_chars_17();
    lit_chars_37();
    lit_chars_15();
    lit_chars_42();
    lit_chars_40();
    lit_chars_41();
    lit_chars_43();
    lit_chars_35();
    lit_chars_51();
    lit_chars_8();
    lit_chars_11();
    lit_chars_13();
    lit_chars_14();
    lit_chars_12();
    lit_chars_7();
    lit_chars_9();
    lit_chars_10();
    lit_chars_6();
    lit_chars_129();
    lit_chars_55();
    lit_chars_56();
    lit_chars_57();
    lit_chars_58();
    lit_chars_59();
    lit_chars_60();
    lit_chars_32();
    lit_chars_0();
    lit_chars_1();
    lit_chars_33();
    lit_chars_36();
    lit_chars_20();
    lit_chars_44();
    lit_chars_25();
    lit_chars_31();
    lit_chars_4();
    lit_chars_22();
    lit_chars_24();
    lit_chars_29();
    lit_chars_18();
    lit_chars_19();
    lit_chars_23();
    lit_chars_39();
    lit_chars_21();
    lit_chars_26();
    lit_chars_27();
    lit_chars_28();
    lit_chars_5();
    assert("-T"@ + dec_text(5) =~= "-T5"@);
    lemma_target_flag_none(m, "-T"@ + dec_text(5), next);
    lemma_host_discovery_flag_none(m, "-T"@ + dec_text(5), next);
    lemma_technique_flag_none(m, "-T"@ + dec_text(5), next);
    lemma_ports_flag_none(m, "-T"@ + dec_text(5), next);
    lemma_service_flag_none(m, "-T"@ + dec_text(5), next);
    lemma_script_flag_none(m, "-T"@ + dec_text(5), next);
    lemma_os_flag_none(m, "-T"@ + dec_text(5), next);
}

pub proof fn lemma_flag_timing_min_hostgroup(m: NmapScanV, n: u32)
    ensures
        spec_dispatch(m, "--min-hostgroup"@, Some(dec_text(n as nat))) == FlagOutcome::Ok1(NmapScanV { timing: TimingPerformanceV { min_hostgroup: Some(n), ..m.timing }, ..m }),
{
    reveal(spec_dispatch);
    reveal(spec_timing_flag);
    lit_chars_76();
    lit_chars_75();
    lit_chars_16();
    lit_chars_2();
    lit_chars_3();
    lit_chars_34();
    lit_chars_69();
    lit_chars_67();
    lit_chars_62();
    lit_chars_54();
    lit_chars_64();
    lit_chars_74();
    lit_chars_68();
    lit_chars_66();
    lit_chars_72();
    lit_chars_61();
    lit_chars_63();
    lit_chars_73();
    lit_chars_65();
    lit_chars_77();
    lit_chars_53();
    lit_chars_52();
    lit_chars_38();
    lit_chars_71();
    lit_chars_30();
    lit_chars_45();
    lit_chars_46();
    lit_chars_47();
    lit_chars_50();
    lit_chars_70();
    lit_chars_48();
    lit_chars_49();
    lit_chars_17();
    lit_chars_37();
    lit_chars_15();
    lit_chars_42();
    lit_chars_40();
    lit_chars_41();
    lit_chars_43();
    lit_chars_35();
    lit_chars_51();
    lit_chars_8();
    lit_chars_11();
    lit_chars_13();
    lit_chars_14();
    lit_chars_12();
    lit_chars_7();
    lit_chars_9();
    lit_chars_10();
    lit_chars_6();
    lit_chars_55();
    lit_chars_56();
    lit_chars_57();
    lit_chars_58();
    lit_chars_59();
    lit_chars_60();
    lit_chars_32();
    lit_chars_0();
    lit_chars_1();
    lit_chars_33();
    lit_chars_36();
    lit_chars_20();
    lit_chars_44();
    lit_chars_25();
    lit_chars_31();
    lit_chars_4();
    lit_chars_22();
    lit_chars_24();
    lit_chars_29();
    lit_chars_18();
    lit_chars_19();
    lit_chars_23();
    lit_chars_39();
    lit_chars_21();
    lit_chars_26();
    lit_chars_27();
    lit_chars_28();
    lit_chars_5();
    lemma_dec_round_trip(n as nat, 0xffff_ffff);
    lemma_target_flag_none(m, "--min-hostgroup"@, Some(dec_text(n as nat)));
    lemma_host_discovery_flag_none(m, "--min-hostgroup"@, Some(dec_text(n as nat)));
    lemma_technique_flag_none(m, "--min-hostgroup"@, Some(dec_text(n as nat)));
    lemma_ports_flag_none(m, "--min-hostgroup"@, Some(dec_text(n as nat)));
    lemma_service_flag_none(m, "--min-hostgroup"@, Some(dec_text(n as nat)));
    lemma_script_flag_none(m, "--min-hostgroup"@, Some(dec_text(n as nat)));
    lemma_os_flag_none(m, "--min-hostgroup"@, Some(dec_text(n as nat)));
}

pub proof fn lemma_flag_timing_max_hostgroup(m: NmapScanV, n: u32)
    ensures
        spec_dispatch(m, "--max-hostgroup"@, Some(dec_text(n as nat))) == FlagOutcome::Ok1(NmapScanV { timing: TimingPerformanceV { max_hostgroup: Some(n), ..m.timing }, ..m }),
{
    reveal(spec_dispatch);
    reveal(spec_timing_flag);
    lit_chars_76();
    lit_chars_75();
    lit_chars_16();
    lit_chars_2();
    lit_chars_3();
    lit_chars_34();
    lit_chars_69();
    lit_chars_67();
    lit_chars_62();
    lit_chars_54();
    lit_chars_64();
    lit_chars_74();
    lit_chars_68();
    lit_chars_66();
    lit_chars_72();
    lit_chars_61();
    lit_chars_63();
    lit_chars_73();
    lit_chars_65();
    lit_chars_77();
    lit_chars_53();
    lit_chars_52();
    lit_chars_38();
    lit_chars_71();
    lit_chars_30();
    lit_chars_45();
    lit_chars_46();
    lit_chars_47();
    lit_chars_50();
    lit_chars_70();
    lit_chars_48();
    lit_chars_49();
    lit_chars_17();
    lit_chars_37();
    lit_chars_15();
    lit_chars_42();
    lit_chars_40();
    lit_chars_41();
    lit_chars_43();
    lit_chars_35();
    lit_chars_51();
    lit_chars_8();
    lit_chars_11();
    lit_chars_13();
    lit_chars_14();
    lit_chars_12();
    lit_chars_7();
    lit_chars_9();
    lit_chars_10();
    lit_chars_6();
    lit_chars_55();
    lit_chars_56();
    lit_chars_57();
    lit_chars_58();
    lit_chars_59();
    lit_chars_60();
    lit_chars_32();
    lit_chars_0();
    lit_chars_1();
    lit_chars_33();
    lit_chars_36();
    lit_chars_20();
    lit_chars_44();
    lit_chars_25();
    lit_chars_31();
    lit_chars_4();
    lit_chars_22();
    lit_chars_24();
    lit_chars_29();
    lit_chars_18();
    lit_chars_19();
    lit_chars_23();
    lit_chars_39();
    lit_chars_21();
    lit_chars_26();
    lit_chars_27();
    lit_chars_28();
    lit_chars_5();
    lemma_dec_round_trip(n as nat, 0xffff_ffff);
    lemma_target_flag_none(m, "--max-hostgroup"@, Some(dec_text(n as nat)));
    lemma_host_discovery_flag_none(m, "--max-hostgroup"@, Some(dec_text(n as nat)));
    lemma_technique_flag_none(m, "--max-hostgroup"@, Some(dec_text(n as nat)));
    lemma_ports_flag_none(m, "--max-hostgroup"@, Some(dec_text(n as nat)));
    lemma_service_flag_none(m, "--max-hostgroup"@, Some(dec_text(n as nat)));
    lemma_script_flag_none(m, "--max-hostgroup"@, Some(dec_text(n as nat)));
    lemma_os_flag_none(m, "--max-hostgroup"@, Some(dec_text(n as nat)));
}

pub proof fn lemma_flag_timing_min_parallelism(m: NmapScanV, n: u32)
    ensures
        spec_dispatch(m, "--min-parallelism"@, Some(dec_text(n as nat))) == FlagOutcome::Ok1(NmapScanV { timing: TimingPerformanceV { min_parallelism: Some(n), ..m.timing }, ..m }),
{
    reveal(spec_dispatch);
    reveal(spec_timing_flag);
    lit_chars_76();
    lit_chars_75();
    lit_chars_16();
    lit_chars_2();
    lit_chars_3();
    lit_chars_34();
    lit_chars_69();
    lit_chars_67();
    lit_chars_62();
    lit_chars_54();
    lit_chars_64();
    lit_chars_74();
    lit_chars_68();
    lit_chars_66();
    lit_chars_72();
    lit_chars_61();
    lit_chars_63();
    lit_chars_73();
    lit_chars_65();
    lit_chars_77();
    lit_chars_53();
    lit_chars_52();
    lit_chars_38();
    lit_chars_71();
    lit_chars_30();
    lit_chars_45();
    lit_chars_46();
    lit_chars_47();
    lit_chars_50();
    lit_chars_70();
    lit_chars_48();
    lit_chars_49();
    lit_chars_17();
    lit_chars_37();
    lit_chars_15();
    lit_chars_42();
    lit_chars_40();
    lit_chars_41();
    lit_chars_43();
    lit_chars_35();
    lit_chars_51();
    lit_chars_8();
    lit_chars_11();
    lit_chars_13();
    lit_chars_14();
    lit_chars_12();
    lit_chars_7();
    lit_chars_9();
    lit_chars_10();
    lit_chars_6();
    lit_chars_55();
    lit_chars_56();
    lit_chars_57();
    lit_chars_58();
    lit_chars_59();
    lit_chars_60();
    lit_chars_32();
    lit_chars_0();
    lit_chars_1();
    lit_chars_33();
    lit_chars_36();
    lit_chars_20();
    lit_chars_44();
    lit_chars_25();
    lit_chars_31();
    lit_chars_4();
    lit_chars_22();
    lit_chars_24();
    lit_chars_29();
    lit_chars_18();
    lit_chars_19();
    lit_chars_23();
    lit_chars_39();
    lit_chars_21();
    lit_chars_26();
    lit_chars_27();
    lit_chars_28();
    lit_chars_5();
    lemma_dec_round_trip(n as nat, 0xffff_ffff);
    lemma_target_flag_none(m, "--min-parallelism"@, Some(dec_text(n as nat)));
    lemma_host_discovery_flag_none(m, "--min-parallelism"@, Some(dec_text(n as nat)));
    lemma_technique_flag_none(m, "--min-parallelism"@, Some(dec_text(n as nat)));
    lemma_ports_flag_none(m, "--min-parallelism"@, Some(dec_text(n as nat)));
    lemma_service_flag_none(m, "--min-parallelism"@, Some(dec_text(n as nat)));
    lemma_script_flag_none(m, "--min-parallelism"@, Some(dec_text(n as nat)));
    lemma_os_flag_none(m, "--min-parallelism"@, Some(dec_text(n as nat)));
}

pub proof fn lemma_flag_timing_max_parallelism(m: NmapScanV, n: u32)
    ensures
        spec_dispatch(m, "--max-parallelism"@, Some(dec_text(n as nat))) == FlagOutcome::Ok1(NmapScanV { timing: TimingPerformanceV { max_parallelism: Some(n), ..m.timing }, ..m }),
{
    reveal(spec_dispatch);
    reveal(spec_timing_flag);
    lit_chars_76();
    lit_chars_75();
    lit_chars_16();
    lit_chars_2();
    lit_chars_3();
    lit_chars_34();
    lit_chars_69();
    lit_chars_67();
    lit_chars_62();
    lit_chars_54();
    lit_chars_64();
    lit_chars_74();
    lit_chars_68();
    lit_chars_66();
    lit_chars_72();
    lit_chars_61();
    lit_chars_63();
    lit_chars_73();
    lit_chars_65();
    lit_chars_77();
    lit_chars_53();
    lit_chars_52();
    lit_chars_38();
    lit_chars_71();
    lit_chars_30();
    lit_chars_45();
    lit_chars_46();
    lit_chars_47();
    lit_chars_50();
    lit_chars_70();
    lit_chars_48();
    lit_chars_49();
    lit_chars_17();
    lit_chars_37();
    lit_chars_15();
    lit_chars_42();
    lit_chars_40();
    lit_chars_41();
    lit_chars_43();
    lit_chars_35();
    lit_chars_51();
    lit_chars_8();
    lit_chars_11();
    lit_chars_13();
    lit_chars_14();
    lit_chars_12();
    lit_chars_7();
    lit_chars_9();
    lit_chars_10();
    lit_chars_6();
    lit_chars_55();
    lit_chars_56();
    lit_chars_57();
    lit_chars_58();
    lit_chars_59();
    lit_chars_60();
    lit_chars_32();
    lit_chars_0();
    lit_chars_1();
    lit_chars_33();
    lit_chars_36();
    lit_chars_20();
    lit_chars_44();
    lit_chars_25();
    lit_chars_31();
    lit_chars_4();
    lit_chars_22();
    lit_chars_24();
    lit_chars_29();
    lit_chars_18();
    lit_chars_19();
    lit_chars_23();
    lit_chars_39();
    lit_chars_21();
    lit_chars_26();
    lit_chars_27();
    lit_chars_28();
    lit_chars_5();
    lemma_dec_round_trip(n as nat, 0xffff_ffff);
    lemma_target_flag_none(m, "--max-parallelism"@, Some(dec_text(n as nat)));
    lemma_host_discovery_flag_none(m, "--max-parallelism"@, Some(dec_text(n as nat)));
    lemma_technique_flag_none(m, "--max-parallelism"@, Some(dec_text(n as nat)));
    lemma_ports_flag_none(m, "--max-parallelism"@, Some(dec_text(n as nat)));
    lemma_service_flag_none(m, "--max-parallelism"@, Some(dec_text(n as nat)));
    lemma_script_flag_none(m, "--max-parallelism"@, Some(dec_text(n as nat)));
    lemma_os_flag_none(m, "--max-parallelism"@, Some(dec_text(n as nat)));
}

pub proof fn lemma_flag_timing_min_rtt_timeout(m: NmapScanV, v: Seq<char>)
    ensures
        spec_dispatch(m, "--min-rtt-timeout"@, Some(v)) == FlagOutcome::Ok1(NmapScanV { timing: TimingPerformanceV { min_rtt_timeout: Some(v), ..m.timing }, ..m }),
{
    reveal(spec_dispatch);
    reveal(spec_timing_flag);
    lit_chars_76();
    lit_chars_75();
    lit_chars_16();
    lit_chars_2();
    lit_chars_3();
    lit_chars_34();
    lit_chars_69();
    lit_chars_67();
    lit_chars_62();
    lit_chars_54();
    lit_chars_64();
    lit_chars_74();
    lit_chars_68();
    lit_chars_66();
    lit_chars_72();
    lit_chars_61();
    lit_chars_63();
    lit_chars_73();
    lit_chars_65();
    lit_chars_77();
    lit_chars_53();
    lit_chars_52();
    lit_chars_38();
    lit_chars_71();
    lit_chars_30();
    lit_chars_45();
    lit_chars_46();
    lit_chars_47();
    lit_chars_50();
    lit_chars_70();
    lit_chars_48();
    lit_chars_49();
    lit_chars_17();
    lit_chars_37();
    lit_chars_15();
    lit_chars_42();
    lit_chars_40();
    lit_chars_41();
    lit_chars_43();
    lit_chars_35();
    lit_chars_51();
    lit_chars_8();
    lit_chars_11();
    lit_chars_13();
    lit_chars_14();
    lit_chars_12();
    lit_chars_7();
    lit_chars_9();
    lit_chars_10();
    lit_chars_6();
    lit_chars_55();
    lit_chars_56();
    lit_chars_57();
    lit_chars_58();
    lit_chars_59();
    lit_chars_60();
    lit_chars_32();
    lit_chars_0();
    lit_chars_1();
    lit_chars_33();
    lit_chars_36();
    lit_chars_20();
    lit_chars_44();
    lit_chars_25();
    lit_chars_31();
    lit_chars_4();
    lit_chars_22();
    lit_chars_24();
    lit_chars_29();
    lit_chars_18();
    lit_chars_19();
    lit_chars_23();
    lit_chars_39();
    lit_chars_21();
    lit_chars_26();
    lit_chars_27();
    lit_chars_28();
    lit_chars_5();
    lemma_target_flag_none(m, "--min-rtt-timeout"@, Some(v));
    lemma_host_discovery_flag_none(m, "--min-rtt-timeout"@, Some(v));
    lemma_technique_flag_none(m, "--min-rtt-timeout"@, Some(v));
    lemma_ports_flag_none(m, "--min-rtt-timeout"@, Some(v));
    lemma_service_flag_none(m, "--min-rtt-timeout"@, Some(v));
    lemma_script_flag_none(m, "--min-rtt-timeout"@, Some(v));
    lemma_os_flag_none(m, "--min-rtt-timeout"@, Some(v));
}

pub proof fn lemma_flag_timing_max_rtt_timeout(m: NmapScanV, v: Seq<char>)
    ensures
        spec_dispatch(m, "--max-rtt-timeout"@, Some(v)) == FlagOutcome::Ok1(NmapScanV { timing: TimingPerformanceV { max_rtt_timeout: Some(v), ..m.timing }, ..m }),
{
    reveal(spec_dispatch);
    reveal(spec_timing_flag);
    lit_chars_76();
    lit_chars_75();
    lit_chars_16();
    lit_chars_2();
    lit_chars_3();
    lit_chars_34();
    lit_chars_69();
    lit_chars_67();
    lit_chars_62();
    lit_chars_54();
    lit_chars_64();
    lit_chars_74();
    lit_chars_68();
    lit_chars_66();
    lit_chars_72();
    lit_chars_61();
    lit_chars_63();
    lit_chars_73();
    lit_chars_65();
    lit_chars_77();
    lit_chars_53();
    lit_chars_52();
    lit_chars_38();
    lit_chars_71();
    lit_chars_30();
    lit_chars_45();
    lit_chars_46();
    lit_chars_47();
    lit_chars_50();
    lit_chars_70();
    lit_chars_48();
    lit_chars_49();
    lit_chars_17();
    lit_chars_37();
    lit_chars_15();
    lit_chars_42();
    lit_chars_40();
    lit_chars_41();
    lit_chars_43();
    lit_chars_35();
    lit_chars_51();
    lit_chars_8();
    lit_chars_11();
    lit_chars_13();
    lit_chars_14();
    lit_chars_12();
    lit_chars_7();
    lit_chars_9();
    lit_chars_10();
    lit_chars_6();
    lit_chars_55();
    lit_chars_56();
    lit_chars_57();
    lit_chars_58();
    lit_chars_59();
    lit_chars_60();
    lit_chars_32();
    lit_chars_0();
    lit_chars_1();
    lit_chars_33();
    lit_chars_36();
    lit_chars_20();
    lit_chars_44();
    lit_chars_25();
    lit_chars_31();
    lit_chars_4();
    lit_chars_22();
    lit_chars_24();
    lit_chars_29();
    lit_chars_18();
    lit_chars_19();
    lit_chars_23();
    lit_chars_39();
    lit_chars_21();
    lit_chars_26();
    lit_chars_27();
    lit_chars_28();
    lit_chars_5();
    lemma_target_flag_none(m, "--max-rtt-timeout"@, Some(v));
    lemma_host_discovery_flag_none(m, "--max-rtt-timeout"@, Some(v));
    lemma_technique_flag_none(m, "--max-rtt-timeout"@, Some(v));
    lemma_ports_flag_none(m, "--max-rtt-timeout"@, Some(v));
    lemma_service_flag_none(m, "--max-rtt-timeout"@, Some(v));
    lemma_script_flag_none(m, "--max-rtt-timeout"@, Some(v));
    lemma_os_flag_none(m, "--max-rtt-timeout"@, Some(v));
}

pub proof fn lemma_flag_timing_initial_rtt_timeout(m: NmapScanV, v: Seq<char>)
    ensures
        spec_dispatch(m, "--initial-rtt-timeout"@, Some(v)) == FlagOutcome::Ok1(NmapScanV { timing: TimingPerformanceV { initial_rtt_timeout: Some(v), ..m.timing }, ..m }),
{
    reveal(spec_dispatch);
    reveal(spec_timing_flag);
    lit_chars_76();
    lit_chars_75();
    lit_chars_16();
    lit_chars_2();
    lit_chars_3();
    lit_chars_34();
    lit_chars_69();
    lit_chars_67();
    lit_chars_62();
    lit_chars_54();
    lit_chars_64();
    lit_chars_74();
    lit_chars_68();
    lit_chars_66();
    lit_chars_72();
    lit_chars_61();
    lit_chars_63();
    lit_chars_73();
    lit_chars_65();
    lit_chars_77();
    lit_chars_53();
    lit_chars_52();
    lit_chars_38();
    lit_chars_71();
    lit_chars_30();
    lit_chars_45();
    lit_chars_46();
    lit_chars_47();
    lit_chars_50();
    lit_chars_70();
    lit_chars_48();
    lit_chars_49();
    lit_chars_17();
    lit_chars_37();
    lit_chars_15();
    lit_chars_42();
    lit_chars_40();
    lit_chars_41();
    lit_chars_43();
    lit_chars_35();
    lit_chars_51();
    lit_chars_8();
    lit_chars_11();
    lit_chars_13();
    lit_chars_14();
    lit_chars_12();
    lit_chars_7();
    lit_chars_9();
    lit_chars_10();
    lit_chars_6();
    lit_chars_55();
    lit_chars_56();
    lit_chars_57();
    lit_chars_58();
    lit_chars_59();
    lit_chars_60();
    lit_chars_32();
    lit_chars_0();
    lit_chars_1();
    lit_chars_33();
    lit_chars_36();
    lit_chars_20();
    lit_chars_44();
    lit_chars_25();
    lit_chars_31();
    lit_chars_4();
    lit_chars_22();
    lit_chars_24();
    lit_chars_29();
    lit_chars_18();
    lit_chars_19();
    lit_chars_23();
    lit_chars_39();
    lit_chars_21();
    lit_chars_26();
    lit_chars_27();
    lit_chars_28();
    lit_chars_5();
    lemma_target_flag_none(m, "--initial-rtt-timeout"@, Some(v));
    lemma_host_discovery_flag_none(m, "--initial-rtt-timeout"@, Some(v));
    lemma_technique_flag_none(m, "--initial-rtt-timeout"@, Some(v));
    lemma_ports_flag_none(m, "--initial-rtt-timeout"@, Some(v));
    lemma_service_flag_none(m, "--initial-rtt-timeout"@, Some(v));
    lemma_script_flag_none(m, "--initial-rtt-timeout"@, Some(v));
    lemma_os_flag_none(m, "--initial-rtt-timeout"@, Some(v));
}

pub proof fn lemma_flag_timing_max_retries(m: NmapScanV, n: u32)
    ensures
        spec_dispatch(m, "--max-retries"@, Some(dec_text(n as nat))) == FlagOutcome::Ok1(NmapScanV { timing: TimingPerformanceV { max_retries: Some(n), ..m.timing }, ..m }),
{
    reveal(spec_dispatch);
    reveal(spec_timing_flag);
    lit_chars_76();
    lit_chars_75();
    lit_chars_16();
    lit_chars_2();
    lit_chars_3();
    lit_chars_34();
    lit_chars_69();
    lit_chars_67();
    lit_chars_62();
    lit_chars_54();
    lit_chars_64();
    lit_chars_74();
    lit_chars_68();
    lit_chars_66();
    lit_chars_72();
    lit_chars_61();
    lit_chars_63();
    lit_chars_73();
    lit_chars_65();
    lit_chars_77();
    lit_chars_53();
    lit_chars_52();
    lit_chars_38();
    lit_chars_71();
    lit_chars_30();
    lit_chars_45();
    lit_chars_46();
    lit_chars_47();
    lit_chars_50();
    lit_chars_70();
    lit_chars_48();
    lit_chars_49();
    lit_chars_17();
    lit_chars_37();
    lit_chars_15();
    lit_chars_42();
    lit_chars_40();
    lit_chars_41();
    lit_chars_43();
    lit_chars_35();
    lit_chars_51();
    lit_chars_8();
    lit_chars_11();
    lit_chars_13();
    lit_chars_14();
    lit_chars_12();
    lit_chars_7();
    lit_chars_9();
    lit_chars_10();
    lit_chars_6();
    lit_chars_55();
    lit_chars_56();
    lit_chars_57();
    lit_chars_58();
    lit_chars_59();
    lit_chars_60();
    lit_chars_32();
    lit_chars_0();
    lit_chars_1();
    lit_chars_33();
    lit_chars_36();
    lit_chars_20();
    lit_chars_44();
    lit_chars_25();
    lit_chars_31();
    lit_chars_4();
    lit_chars_22();
    lit_chars_24();
    lit_chars_29();
    lit_chars_18();
    lit_chars_19();
    lit_chars_23();
    lit_chars_39();
    lit_chars_21();
    lit_chars_26();
    lit_chars_27();
    lit_chars_28();
    lit_chars_5();
    lemma_dec_round_trip(n as nat, 0xffff_ffff);
    lemma_target_flag_none(m, "--max-retries"@, Some(dec_text(n as nat)));
    lemma_host_discovery_flag_none(m, "--max-retries"@, Some(dec_text(n as nat)));
    lemma_technique_flag_none(m, "--max-retries"@, Some(dec_text(n as nat)));
    lemma_ports_flag_none(m, "--max-retries"@, Some(dec_text(n as nat)));
    lemma_service_flag_none(m, "--max-retries"@, Some(dec_text(n as nat)));
    lemma_script_flag_none(m, "--max-retries"@, Some(dec_text(n as nat)));
    lemma_os_flag_none(m, "--max-retries"@, Some(dec_text(n as nat)));
}

pub proof fn lemma_flag_timing_host_timeout(m: NmapScanV, v: Seq<char>)
    ensures
        spec_dispatch(m, "--host-timeout"@, Some(v)) == FlagOutcome::Ok1(NmapScanV { timing: TimingPerformanceV { host_timeout: Some(v), ..m.timing }, ..m }),
{
    reveal(spec_dispatch);
    reveal(spec_timing_flag);
    lit_chars_76();
    lit_chars_75();
    lit_chars_16();
    lit_chars_2();
    lit_chars_3();
    lit_chars_34();
    lit_chars_69();
    lit_chars_67();
    lit_chars_62();
    lit_chars_54();
    lit_chars_64();
    lit_chars_74();
    lit_chars_68();
    lit_chars_66();
    lit_chars_72();
    lit_chars_61();
    lit_chars_63();
    lit_chars_73();
    lit_chars_65();
    lit_chars_77();
    lit_chars_53();
    lit_chars_52();
    lit_chars_38();
    lit_chars_71();
    lit_chars_30();
    lit_chars_45();
    lit_chars_46();
    lit_chars_47();
    lit_chars_50();
    lit_chars_70();
    lit_chars_48();
    lit_chars_49();
    lit_chars_17();
    lit_chars_37();
    lit_chars_15();
    lit_chars_42();
    lit_chars_40();
    lit_chars_41();
    lit_chars_43();
    lit_chars_35();
    lit_chars_51();
    lit_chars_8();
    lit_chars_11();
    lit_chars_13();
    lit_chars_14();
    lit_chars_12();
    lit_chars_7();
    lit_chars_9();
    lit_chars_10();
    lit_chars_6();
    lit_chars_55();
    lit_chars_56();
    lit_chars_57();
    lit_chars_58();
    lit_chars_59();
    lit_chars_60();
    lit_chars_32();
    lit_chars_0();
    lit_chars_1();
    lit_chars_33();
    lit_chars_36();
    lit_chars_20();
    lit_chars_44();
    lit_chars_25();
    lit_chars_31();
    lit_chars_4();
    lit_chars_22();
    lit_chars_24();
    lit_chars_29();
    lit_chars_18();
    lit_chars_19();
    lit_chars_23();
    lit_chars_39();
    lit_chars_21();
    lit_chars_26();
    lit_chars_27();
    lit_chars_28();
    lit_chars_5();
    lemma_target_flag_none(m, "--host-timeout"@, Some(v));
    lemma_host_discovery_flag_none(m, "--host-timeout"@, Some(v));
    lemma_technique_flag_none(m, "--host-timeout"@, Some(v));
    lemma_ports_flag_none(m, "--host-timeout"@, Some(v));
    lemma_service_flag_none(m, "--host-timeout"@, Some(v));
    lemma_script_flag_none(m, "--host-timeout"@, Some(v));
    lemma_os_flag_none(m, "--host-timeout"@, Some(v));
}

pub proof fn lemma_flag_timing_script_timeout(m: NmapScanV, v: Seq<char>)
    ensures
        spec_dispatch(m, "--script-timeout"@, Some(v)) == FlagOutcome::Ok1(NmapScanV { timing: TimingPerformanceV { script_timeout: Some(v), ..m.timing }, ..m }),
{
    reveal(spec_dispatch);
    reveal(spec_timing_flag);
    lit_chars_76();
    lit_chars_75();
    lit_chars_16();
    lit_chars_2();
    lit_chars_3();
    lit_chars_34();
    lit_chars_69();
    lit_chars_67();
    lit_chars_62();
    lit_chars_54();
    lit_chars_64();
    lit_chars_74();
    lit_chars_68();
    lit_chars_66();
    lit_chars_72();
    lit_chars_61();
    lit_chars_63();
    lit_chars_73();
    lit_chars_65();
    lit_chars_77();
    lit_chars_53();
    lit_chars_52();
    lit_chars_38();
    lit_chars_71();
    lit_chars_30();
    lit_chars_45();
    lit_chars_46();
    lit_chars_47();
    lit_chars_50();
    lit_chars_70();
    lit_chars_48();
    lit_chars_49();
    lit_chars_17();
    lit_chars_37();
    lit_chars_15();
    lit_chars_42();
    lit_chars_40();
    lit_chars_41();
    lit_chars_43();
    lit_chars_35();
    lit_chars_51();
    lit_chars_8();
    lit_chars_11();
    lit_chars_13();
    lit_chars_14();
    lit_chars_12();
    lit_chars_7();
    lit_chars_9();
    lit_chars_10();
    lit_chars_6();
    lit_chars_55();
    lit_chars_56();
    lit_chars_57();
    lit_chars_58();
    lit_chars_59();
    lit_chars_60();
    lit_chars_32();
    lit_chars_0();
    lit_chars_1();
    lit_chars_33();
    lit_chars_36();
    lit_chars_20();
    lit_chars_44();
    lit_chars_25();
    lit_chars_31();
    lit_chars_4();
    lit_chars_22();
    lit_chars_24();
    lit_chars_29();
    lit_chars_18();
    lit_chars_19();
    lit_chars_23();
    lit_chars_39();
    lit_chars_21();
    lit_chars_26();
    lit_chars_27();
    lit_chars_28();
    lit_chars_5();
    lemma_target_flag_none(m, "--script-timeout"@, Some(v));
    lemma_host_discovery_flag_none(m, "--script-timeout"@, Some(v));
    lemma_technique_flag_none(m, "--script-timeout"@, Some(v));
    lemma_ports_flag_none(m, "--script-timeout"@, Some(v));
    lemma_service_flag_none(m, "--script-timeout"@, Some(v));
    lemma_script_flag_none(m, "--script-timeout"@, Some(v));
    lemma_os_flag_none(m, "--script-timeout"@, Some(v));
}

pub proof fn lemma_flag_timing_scan_delay(m: NmapScanV, v: Seq<char>)
    ensures
        spec_dispatch(m, "--scan-delay"@, Some(v)) == FlagOutcome::Ok1(NmapScanV { timing: TimingPerformanceV { scan_delay: Some(v), ..m.timing }, ..m }),
{
    reveal(spec_dispatch);
    reveal(spec_timing_flag);
    lit_chars_76();
    lit_chars_75();
    lit_chars_16();
    lit_chars_2();
    lit_chars_3();
    lit_chars_34();
    lit_chars_69();
    lit_chars_67();
    lit_chars_62();
    lit_chars_54();
    lit_chars_64();
    lit_chars_74();
    lit_chars_68();
    lit_chars_66();
    lit_chars_72();
    lit_chars_61();
    lit_chars_63();
    lit_chars_73();
    lit_chars_65();
    lit_chars_77();
    lit_chars_53();
    lit_chars_52();
    lit_chars_38();
    lit_chars_71();
    lit_chars_30();
    lit_chars_45();
    lit_chars_46();
    lit_chars_47();
    lit_chars_50();
    lit_chars_70();
    lit_chars_48();
    lit_chars_49();
    lit_chars_17();
    lit_chars_37();
    lit_chars_15();
    lit_chars_42();
    lit_chars_40();
    lit_chars_41();
    lit_chars_43();
    lit_chars_35();
    lit_chars_51();
    lit_chars_8();
    lit_chars_11();
    lit_chars_13();
    lit_chars_14();
    lit_chars_12();
    lit_chars_7();
    lit_chars_9();
    lit_chars_10();
    lit_chars_6();
    lit_chars_55();
    lit_chars_56();
    lit_chars_57();
    lit_chars_58();
    lit_chars_59();
    lit_chars_60();
    lit_chars_32();
    lit_chars_0();
    lit_chars_1();
    lit_chars_33();
    lit_chars_36();
    lit_chars_20();
    lit_chars_44();
    lit_chars_25();
    lit_chars_31();
    lit_chars_4();
    lit_chars_22();
    lit_chars_24();
    lit_chars_29();
    lit_chars_18();
    lit_chars_19();
    lit_chars_23();
    lit_chars_39();
    lit_chars_21();
    lit_chars_26();
    lit_chars_27();
    lit_chars_28();
    lit_chars_5();
    lemma_target_flag_none(m, "--scan-delay"@, Some(v));
    lemma_host_discovery_flag_none(m, "--scan-delay"@, Some(v));
    lemma_technique_flag_none(m, "--scan-delay"@, Some(v));
    lemma_ports_flag_none(m, "--scan-delay"@, Some(v));
    lemma_service_flag_none(m, "--scan-delay"@, Some(v));
    lemma_script_flag_none(m, "--scan-delay"@, Some(v));
    lemma_os_flag_none(m, "--scan-delay"@, Some(v));
}

pub proof fn lemma_flag_timing_max_scan_delay(m: NmapScanV, v: Seq<char>)
    ensures
        spec_dispatch(m, "--max-scan-delay"@, Some(v)) == FlagOutcome::Ok1(NmapScanV { timing: TimingPerformanceV { max_scan_delay: Some(v), ..m.timing }, ..m }),
{
    reveal(spec_dispatch);
    reveal(spec_timing_flag);
    lit_chars_76();
    lit_chars_75();
    lit_chars_16();
    lit_chars_2();
    lit_chars_3();
    lit_chars_34();
    lit_chars_69();
    lit_chars_67();
    lit_chars_62();
    lit_chars_54();
    lit_chars_64();
    lit_chars_74();
    lit_chars_68();
    lit_chars_66();
    lit_chars_72();
    lit_chars_61();
    lit_chars_63();
    lit_chars_73();
    lit_chars_65();
    lit_chars_77();
    lit_chars_53();
    lit_chars_52();
    lit_chars_38();
    lit_chars_71();
    lit_chars_30();
    lit_chars_45();
    lit_chars_46();
    lit_chars_47();
    lit_chars_50();
    lit_chars_70();
    lit_chars_48();
    lit_chars_49();
    lit_chars_17();
    lit_chars_37();
    lit_chars_15();
    lit_chars_42();
    lit_chars_40();
    lit_chars_41();
    lit_chars_43();
    lit_chars_35();
    lit_chars_51();
    lit_chars_8();
    lit_chars_11();
    lit_chars_13();
    lit_chars_14();
    lit_chars_12();
    lit_chars_7();
    lit_chars_9();
    lit_chars_10();
    lit_chars_6();
    lit_chars_55();
    lit_chars_56();
    lit_chars_57();
    lit_chars_58();
    lit_chars_59();
    lit_chars_60();
    lit_chars_32();
    lit_chars_0();
    lit_chars_1();
    lit_chars_33();
    lit_chars_36();
    lit_chars_20();
    lit_chars_44();
    lit_chars_25();
    lit_chars_31();
    lit_chars_4();
    lit_chars_22();
    lit_chars_24();
    lit_chars_29();
    lit_chars_18();
    lit_chars_19();
    lit_chars_23();
    lit_chars_39();
    lit_chars_21();
    lit_chars_26();
    lit_chars_27();
    lit_chars_28();
    lit_chars_5();
    lemma_target_flag_none(m, "--max-scan-delay"@, Some(v));
    lemma_host_discovery_flag_none(m, "--max-scan-delay"@, Some(v));
    lemma_technique_flag_none(m, "--max-scan-delay"@, Some(v));
    lemma_ports_flag_none(m, "--max-scan-delay"@, Some(v));
    lemma_service_flag_none(m, "--max-scan-delay"@, Some(v));
    lemma_script_flag_none(m, "--max-scan-delay"@, Some(v));
    lemma_os_flag_none(m, "--max-scan-delay"@, Some(v));
}

pub proof fn lemma_flag_timing_min_rate(m: NmapScanV, n: u32)
    ensures
        spec_dispatch(m, "--min-rate"@, Some(dec_text(n as nat))) == FlagOutcome::Ok1(NmapScanV { timing: TimingPerformanceV { min_rate: Some(n), ..m.timing }, ..m }),
{
    reveal(spec_dispatch);
    reveal(spec_timing_flag);
    lit_chars_76();
    lit_chars_75();
    lit_chars_16();
    lit_chars_2();
    lit_chars_3();
    lit_chars_34();
    lit_chars_69();
    lit_chars_67();
    lit_chars_62();
    lit_chars_54();
    lit_chars_64();
    lit_chars_74();
    lit_chars_68();
    lit_chars_66();
    lit_chars_72();
    lit_chars_61();
    lit_chars_63();
    lit_chars_73();
    lit_chars_65();
    lit_chars_77();
    lit_chars_53();
    lit_chars_52();
    lit_chars_38();
    lit_chars_71();
    lit_chars_30();
    lit_chars_45();
    lit_chars_46();
    lit_chars_47();
    lit_chars_50();
    lit_chars_70();
    lit_chars_48();
    lit_chars_49();
    lit_chars_17();
    lit_chars_37();
    lit_chars_15();
    lit_chars_42();
    lit_chars_40();
    lit_chars_41();
    lit_chars_43();
    lit_chars_35();
    lit_chars_51();
    lit_chars_8();
    lit_chars_11();
    lit_chars_13();
    lit_chars_14();
    lit_chars_12();
    lit_chars_7();
    lit_chars_9();
    lit_chars_10();
    lit_chars_6();
    lit_chars_55();
    lit_chars_56();
    lit_chars_57();
    lit_chars_58();
    lit_chars_59();
    lit_chars_60();
    lit_chars_32();
    lit_chars_0();
    lit_chars_1();
    lit_chars_33();
    lit_chars_36();
    lit_chars_20();
    lit_chars_44();
    lit_chars_25();
    lit_chars_31();
    lit_chars_4();
    lit_chars_22();
    lit_chars_24();
    lit_chars_29();
    lit_chars_18();
    lit_chars_19();
    lit_chars_23();
    lit_chars_39();
    lit_chars_21();
    lit_chars_26();
    lit_chars_27();
    lit_chars_28();
    lit_chars_5();
    lemma_dec_round_trip(n as nat, 0xffff_ffff);
    lemma_target_flag_none(m, "--min-rate"@, Some(dec_text(n as nat)));
    lemma_host_discovery_flag_none(m, "--min-rate"@, Some(dec_text(n as nat)));
    lemma_technique_flag_none(m, "--min-rate"@, Some(dec_text(n as nat)));
    lemma_ports_flag_none(m, "--min-rate"@, Some(dec_text(n as nat)));
    lemma_service_flag_none(m, "--min-rate"@, Some(dec_text(n as nat)));
    lemma_script_flag_none(m, "--min-rate"@, Some(dec_text(n as nat)));
    lemma_os_flag_none(m, "--min-rate"@, Some(dec_text(n as nat)));
}

pub proof fn lemma_flag_timing_max_rate(m: NmapScanV, n: u32)
    ensures
        spec_dispatch(m, "--max-rate"@, Some(dec_text(n as nat))) == FlagOutcome::Ok1(NmapScanV { timing: TimingPerformanceV { max_rate: Some(n), ..m.timing }, ..m }),
{
    reveal(spec_dispatch);
    reveal(spec_timing_flag);
    lit_chars_76();
    lit_chars_75();
    lit_chars_16();
    lit_chars_2();
    lit_chars_3();
    lit_chars_34();
    lit_chars_69();
    lit_chars_67();
    lit_chars_62();
    lit_chars_54();
    lit_chars_64();
    lit_chars_74();
    lit_chars_68();
    lit_chars_66();
    lit_chars_72();
    lit_chars_61();
    lit_chars_63();
    lit_chars_73();
    lit_chars_65();
    lit_chars_77();
    lit_chars_53();
    lit_chars_52();
    lit_chars_38();
    lit_chars_71();
    lit_chars_30();
    lit_chars_45();
    lit_chars_46();
    lit_chars_47();
    lit_chars_50();
    lit_chars_70();
    lit_chars_48();
    lit_chars_49();
    lit_chars_17();
    lit_chars_37();
    lit_chars_15();
    lit_chars_42();
    lit_chars_40();
    lit_chars_41();
    lit_chars_43();
    lit_chars_35();
    lit_chars_51();
    lit_chars_8();
    lit_chars_11();
    lit_chars_13();
    lit_chars_14();
    lit_chars_12();
    lit_chars_7();
    lit_chars_9();
    lit_chars_10();
    lit_chars_6();
    lit_chars_55();
    lit_chars_56();
    lit_chars_57();
    lit_chars_58();
    lit_chars_59();
    lit_chars_60();
    lit_chars_32();
    lit_chars_0();
    lit_chars_1();
    lit_chars_33();
    lit_chars_36();
    lit_chars_20();
    lit_chars_44();
    lit_chars_25();
    lit_chars_31();
    lit_chars_4();
    lit_chars_22();
    lit_chars_24();
    lit_chars_29();
    lit_chars_18();
    lit_chars_19();
    lit_chars_23();
    lit_chars_39();
    lit_chars_21();
    lit_chars_26();
    lit_chars_27();
    lit_chars_28();
    lit_chars_5();
    lemma_dec_round_trip(n as nat, 0xffff_ffff);
    lemma_target_flag_none(m, "--max-rate"@, Some(dec_text(n as nat)));
    lemma_host_discovery_flag_none(m, "--max-rate"@, Some(dec_text(n as nat)));
    lemma_technique_flag_none(m, "--max-rate"@, Some(dec_text(n as nat)));
    lemma_ports_flag_none(m, "--max-rate"@, Some(dec_text(n as nat)));
    lemma_service_flag_none(m, "--max-rate"@, Some(dec_text(n as nat)));
    lemma_script_flag_none(m, "--max-rate"@, Some(dec_text(n as nat)));
    lemma_os_flag_none(m, "--max-rate"@, Some(dec_text(n as nat)));
}

pub proof fn lemma_flag_timing_defeat_rst_ratelimit(m: NmapScanV, next: Option<Seq<char>>)
    ensures
        spec_dispatch(m, "--defeat-rst-ratelimit"@, next) == FlagOutcome::Ok0(NmapScanV { timing: TimingPerformanceV { defeat_rst_ratelimit: true, ..m.timing }, ..m }),
{
    reveal(spec_dispatch);
    reveal(spec_timing_flag);
    lit_chars_76();
    lit_chars_75();
    lit_chars_16();
    lit_chars_2();
    lit_chars_3();
    lit_chars_34();
    lit_chars_69();
    lit_chars_67();
    lit_chars_62();
    lit_chars_54();
    lit_chars_64();
    lit_chars_74();
    lit_chars_68();
    lit_chars_66();
    lit_chars_72();
    lit_chars_61();
    lit_chars_63();
    lit_chars_73();
    lit_chars_65();
    lit_chars_77();
    lit_chars_53();
    lit_chars_52();
    lit_chars_38();
    lit_chars_71();
    lit_chars_30();
    lit_chars_45();
    lit_chars_46();
    lit_chars_47();
    lit_chars_50();
    lit_chars_70();
    lit_chars_48();
    lit_chars_49();
    lit_chars_17();
    lit_chars_37();
    lit_chars_15();
    lit_chars_42();
    lit_chars_40();
    lit_chars_41();
    lit_chars_43();
    lit_chars_35();
    lit_chars_51();
    lit_chars_8();
    lit_chars_11();
    lit_chars_13();
    lit_chars_14();
    lit_chars_12();
    lit_chars_7();
    lit_chars_9();
    lit_chars_10();
    lit_chars_6();
    lit_chars_55();
    lit_chars_56();
    lit_chars_57();
    lit_chars_58();
    lit_chars_59();
    lit_chars_60();
    lit_chars_32();
    lit_chars_0();
    lit_chars_1();
    lit_chars_33();
    lit_chars_36();
    lit_chars_20();
    lit_chars_44();
    lit_chars_25();
    lit_chars_31();
    lit_chars_4();
    lit_chars_22();
    lit_chars_24();
    lit_chars_29();
    lit_chars_18();
    lit_chars_19();
    lit_chars_23();
    lit_chars_39();
    lit_chars_21();
    lit_chars_26();
    lit_chars_27();
    lit_chars_28();
    lit_chars_5();
    lemma_target_flag_none(m, "--defeat-rst-ratelimit"@, next);
    lemma_host_discovery_flag_none(m, "--defeat-rst-ratelimit"@, next);
    lemma_technique_flag_none(m, "--defeat-rst-ratelimit"@, next);
    lemma_ports_flag_none(m, "--defeat-rst-ratelimit"@, next);
    lemma_service_flag_none(m, "--defeat-rst-ratelimit"@, next);
    lemma_script_flag_none(m, "--defeat-rst-ratelimit"@, next);
    lemma_os_flag_none(m, "--defeat-rst-ratelimit"@, next);
}

pub proof fn lemma_flag_timing_defeat_icmp_ratelimit(m: NmapScanV, next: Option<Seq<char>>)
    ensures
        spec_dispatch(m, "--defeat-icmp-ratelimit"@, next) == FlagOutcome::Ok0(NmapScanV { timing: TimingPerformanceV { defeat_icmp_ratelimit: true, ..m.timing }, ..m }),
{
    reveal(spec_dispatch);
    reveal(spec_timing_flag);
    lit_chars_76();
    lit_chars_75();
    lit_chars_16();
    lit_chars_2();
    lit_chars_3();
    lit_chars_34();
    lit_chars_69();
    lit_chars_67();
    lit_chars_62();
    lit_chars_54();
    lit_chars_64();
    lit_chars_74();
    lit_chars_68();
    lit_chars_66();
    lit_chars_72();
    lit_chars_61();
    lit_chars_63();
    lit_chars_73();
    lit_chars_65();
    lit_chars_77();
    lit_chars_53();
    lit_chars_52();
    lit_chars_38();
    lit_chars_71();
    lit_chars_30();
    lit_chars_45();
    lit_chars_46();
    lit_chars_47();
    lit_chars_50();
    lit_chars_70();
    lit_chars_48();
    lit_chars_49();
    lit_chars_17();
    lit_chars_37();
    lit_chars_15();
    lit_chars_42();
    lit_chars_40();
    lit_chars_41();
    lit_chars_43();
    lit_chars_35();
    lit_chars_51();
    lit_chars_8();
    lit_chars_11();
    lit_chars_13();
    lit_chars_14();
    lit_chars_12();
    lit_chars_7();
    lit_chars_9();
    lit_chars_10();
    lit_chars_6();
    lit_chars_55();
    lit_chars_56();
    lit_chars_57();
    lit_chars_58();
    lit_chars_59();
    lit_chars_60();
    lit_chars_32();
    lit_chars_0();
    lit_chars_1();
    lit_chars_33();
    lit_chars_36();
    lit_chars_20();
    lit_chars_44();
    lit_chars_25();
    lit_chars_31();
    lit_chars_4();
    lit_chars_22();
    lit_chars_24();
    lit_chars_29();
    lit_chars_18();
    lit_chars_19();
    lit_chars_23();
    lit_chars_39();
    lit_chars_21();
    lit_chars_26();
    lit_chars_27();
    lit_chars_28();
    lit_chars_5();
    lemma_target_flag_none(m, "--defeat-icmp-ratelimit"@, next);
    lemma_host_discovery_flag_none(m, "--defeat-icmp-ratelimit"@, next);
    lemma_technique_flag_none(m, "--defeat-icmp-ratelimit"@, next);
    lemma_ports_flag_none(m, "--defeat-icmp-ratelimit"@, next);
    lemma_service_flag_none(m, "--defeat-icmp-ratelimit"@, next);
    lemma_script_flag_none(m, "--defeat-icmp-ratelimit"@, next);
    lemma_os_flag_none(m, "--defeat-icmp-ratelimit"@, next);
}

pub proof fn lemma_flag_timing_nsock_engine(m: NmapScanV, v: Seq<char>)
    ensures
        spec_dispatch(m, "--nsock-engine"@, Some(v)) == FlagOutcome::Ok1(NmapScanV { timing: TimingPerformanceV { nsock_engine: Some(v), ..m.timing }, ..m }),
{
    reveal(spec_dispatch);
    reveal(spec_timing_flag);
    lit_chars_76();
    lit_chars_75();
    lit_chars_16();
    lit_chars_2();
    lit_chars_3();
    lit_chars_34();
    lit_chars_69();
    lit_chars_67();
    lit_chars_62();
    lit_chars_54();
    lit_chars_64();
    lit_chars_74();
    lit_chars_68();
    lit_chars_66();
    lit_chars_72();
    lit_chars_61();
    lit_chars_63();
    lit_chars_73();
    lit_chars_65();
    lit_chars_77();
    lit_chars_53();
    lit_chars_52();
    lit_chars_38();
    lit_chars_71();
    lit_chars_30();
    lit_chars_45();
    lit_chars_46();
    lit_chars_47();
    lit_chars_50();
    lit_chars_70();
    lit_chars_48();
    lit_chars_49();
    lit_chars_17();
    lit_chars_37();
    lit_chars_15();
    lit_chars_42();
    lit_chars_40();
    lit_chars_41();
    lit_chars_43();
    lit_chars_35();
    lit_chars_51();
    lit_chars_8();
    lit_chars_11();
    lit_chars_13();
    lit_chars_14();
    lit_chars_12();
    lit_chars_7();
    lit_chars_9();
    lit_chars_10();
    lit_chars_6();
    lit_chars_55();
    lit_chars_56();
    lit_chars_57();
    lit_chars_58();
    lit_chars_59();
    lit_chars_60();
    lit_chars_32();
    lit_chars_0();
    lit_chars_1();
    lit_chars_33();
    lit_chars_36();
    lit_chars_20();
    lit_chars_44();
    lit_chars_25();
    lit_chars_31();
    lit_chars_4();
    lit_chars_22();
    lit_chars_24();
    lit_chars_29();
    lit_chars_18();
    lit_chars_19();
    lit_chars_23();
    lit_chars_39();
    lit_chars_21();
    lit_chars_26();
    lit_chars_27();
    lit_chars_28();
    lit_chars_5();
    lemma_target_flag_none(m, "--nsock-engine"@, Some(v));
    lemma_host_discovery_flag_none(m, "--nsock-engine"@, Some(v));
    lemma_technique_flag_none(m, "--nsock-engine"@, Some(v));
    lemma_ports_flag_none(m, "--nsock-engine"@, Some(v));
    lemma_service_flag_none(m, "--nsock-engine"@, Some(v));
    lemma_script_flag_none(m, "--nsock-engine"@, Some(v));
    lemma_os_flag_none(m, "--nsock-engine"@, Some(v));
}

pub proof fn lemma_flag_evasion_fragment_packets(m: NmapScanV, next: Option<Seq<char>>)
    ensures
        spec_dispatch(m, "-f"@, next) == FlagOutcome::Ok0(NmapScanV { evasion: EvasionSpoofingV { fragment_packets: true, ..m.evasion }, ..m }),
{
    reveal(spec_dispatch);
    reveal(spec_evasion_flag);
    lit_chars_93();
    lit_chars_92();
    lit_chars_85();
    lit_chars_87();
    lit_chars_86();
    lit_chars_76();
    lit_chars_75();
    lit_chars_16();
    lit_chars_2();
    lit_chars_3();
    lit_chars_34();
    lit_chars_69();
    lit_chars_67();
    lit_chars_88();
    lit_chars_62();
    lit_chars_54();
    lit_chars_64();
    lit_chars_74();
    lit_chars_68();
    lit_chars_66();
    lit_chars_72();
    lit_chars_61();
    lit_chars_63();
    lit_chars_73();
    lit_chars_65();
    lit_chars_79();
    lit_chars_77();
    lit_chars_53();
    lit_chars_52();
    lit_chars_38();
    lit_chars_90();
    lit_chars_71();
    lit_chars_30();
    lit_chars_45();
    lit_chars_46();
    lit_chars_47();
    lit_chars_50();
    lit_chars_70();
    lit_chars_48();
    lit_chars_49();
    lit_chars_84();
    lit_chars_91();
    lit_chars_17();
    lit_chars_37();
    lit_chars_15();
    lit_chars_89();
    lit_chars_42();
    lit_chars_40();
    lit_chars_41();
    lit_chars_43();
    lit_chars_80();
    lit_chars_35();
    lit_chars_51();
    lit_chars_8();
    lit_chars_11();
    lit_chars_13();
    lit_chars_14();
    lit_chars_12();
    lit_chars_7();
    lit_chars_9();
    lit_chars_10();
    lit_chars_6();
    lit_chars_81();
    lit_chars_55();
    lit_chars_56();
    lit_chars_57();
    lit_chars_58();
    lit_chars_59();
    lit_chars_60();
    lit_chars_32();
    lit_chars_82();
    lit_chars_78();
    lit_chars_83();
    lit_chars_0();
    lit_chars_1();
    lit_chars_33();
    lit_chars_36();
    lit_chars_20();
    lit_chars_44();
    lit_chars_25();
    lit_chars_31();
    lit_chars_4();
    lit_chars_22();
    lit_chars_24();
    lit_chars_29();
    lit_chars_18();
    lit_chars_19();
    lit_chars_23();
    lit_chars_39();
    lit_chars_21();
    lit_chars_26();
    lit_chars_27();
    lit_chars_28();
    lit_chars_5();
    lemma_target_flag_none(m, "-f"@, next);
    lemma_host_discovery_flag_none(m, "-f"@, next);
    lemma_technique_flag_none(m, "-f"@, next);
    lemma_ports_flag_none(m, "-f"@, next);
    lemma_service_flag_none(m, "-f"@, next);
    lemma_script_flag_none(m, "-f"@, next);
    lemma_os_flag_none(m, "-f"@, next);
    lemma_timing_flag_none(m, "-f"@, next);
}

pub proof fn lemma_flag_evasion_mtu(m: NmapScanV, n: u32)
    ensures
        spec_dispatch(m, "--mtu"@, Some(dec_text(n as nat))) == FlagOutcome::Ok1(NmapScanV { evasion: EvasionSpoofingV { mtu: Some(n), ..m.evasion }, ..m }),
{
    reveal(spec_dispatch);
    reveal(spec_evasion_flag);
    lit_chars_93();
    lit_chars_92();
    lit_chars_85();
    lit_chars_87();
    lit_chars_86();
    lit_chars_76();
    lit_chars_75();
    lit_chars_16();
    lit_chars_2();
    lit_chars_3();
    lit_chars_34();
    lit_chars_69();
    lit_chars_67();
    lit_chars_88();
    lit_chars_62();
    lit_chars_54();
    lit_chars_64();
    lit_chars_74();
    lit_chars_68();
    lit_chars_66();
    lit_chars_72();
    lit_chars_61();
    lit_chars_63();
    lit_chars_73();
    lit_chars_65();
    lit_chars_79();
    lit_chars_77();
    lit_chars_53();
    lit_chars_52();
    lit_chars_38();
    lit_chars_90();
    lit_chars_71();
    lit_chars_30();
    lit_chars_45();
    lit_chars_46();
    lit_chars_47();
    lit_chars_50();
    lit_chars_70();
    lit_chars_48();
    lit_chars_49();
    lit_chars_84();
    lit_chars_91();
    lit_chars_17();
    lit_chars_37();
    lit_chars_15();
    lit_chars_89();
    lit_chars_42();
    lit_chars_40();
    lit_chars_41();
    lit_chars_43();
    lit_chars_80();
    lit_chars_35();
    lit_chars_51();
    lit_chars_8();
    lit_chars_11();
    lit_chars_13();
    lit_chars_14();
    lit_chars_12();
    lit_chars_7();
    lit_chars_9();
    lit_chars_10();
    lit_chars_6();
    lit_chars_81();
    lit_chars_55();
    lit_chars_56();
    lit_chars_57();
    lit_chars_58();
    lit_chars_59();
    lit_chars_60();
    lit_chars_32();
    lit_chars_82();
    lit_chars_78();
    lit_chars_83();
    lit_chars_0();
    lit_chars_1();
    lit_chars_33();
    lit_chars_36();
    lit_chars_20();
    lit_chars_44();
    lit_chars_25();
    lit_chars_31();
    lit_chars_4();
    lit_chars_22();
    lit_chars_24();
    lit_chars_29();
    lit_chars_18();
    lit_chars_19();
    lit_chars_23();
    lit_chars_39();
    lit_chars_21();
    lit_chars_26();
    lit_chars_27();
    lit_chars_28();
    lit_chars_5();
    lemma_dec_round_trip(n as nat, 0xffff_ffff);
    lemma_target_flag_none(m, "--mtu"@, Some(dec_text(n as nat)));
    lemma_host_discovery_flag_none(m, "--mtu"@, Some(dec_text(n as nat)));
    lemma_technique_flag_none(m, "--mtu"@, Some(dec_text(n as nat)));
    lemma_ports_flag_none(m, "--mtu"@, Some(dec_text(n as nat)));
    lemma_service_flag_none(m, "--mtu"@, Some(dec_text(n as nat)));
    lemma_script_flag_none(m, "--mtu"@, Some(dec_text(n as nat)));
    lemma_os_flag_none(m, "--mtu"@, Some(dec_text(n as nat)));
    lemma_timing_flag_none(m, "--mtu"@, Some(dec_text(n as nat)));
}

pub proof fn lemma_flag_evasion_decoys(m: NmapScanV, elems: Seq<Seq<char>>)
    requires
        elems.len() > 0,
        forall|i: int| 0 <= i < elems.len() ==> !(#[trigger] elems[i]).contains(','),
    ensures
        spec_dispatch(m, "-D"@, Some(join_comma(elems))) == FlagOutcome::Ok1(NmapScanV { evasion: EvasionSpoofingV { decoys: elems, ..m.evasion }, ..m }),
{
    reveal(spec_dispatch);
    reveal(spec_evasion_flag);
    lit_chars_93();
    lit_chars_92();
    lit_chars_85();
    lit_chars_87();
    lit_chars_86();
    lit_chars_76();
    lit_chars_75();
    lit_chars_16();
    lit_chars_2();
    lit_chars_3();
    lit_chars_34();
    lit_chars_69();
    lit_chars_67();
    lit_chars_88();
    lit_chars_62();
    lit_chars_54();
    lit_chars_64();
    lit_chars_74();
    lit_chars_68();
    lit_chars_66();
    lit_chars_72();
    lit_chars_61();
    lit_chars_63();
    lit_chars_73();
    lit_chars_65();
    lit_chars_79();
    lit_chars_77();
    lit_chars_53();
    lit_chars_52();
    lit_chars_38();
    lit_chars_90();
    lit_chars_71();
    lit_chars_30();
    lit_chars_45();
    lit_chars_46();
    lit_chars_47();
    lit_chars_50();
    lit_chars_70();
    lit_chars_48();
    lit_chars_49();
    lit_chars_84();
    lit_chars_91();
    lit_chars_17();
    lit_chars_37();
    lit_chars_15();
    lit_chars_89();
    lit_chars_42();
    lit_chars_40();
    lit_chars_41();
    lit_chars_43();
    lit_chars_80();
    lit_chars_35();
    lit_chars_51();
    lit_chars_8();
    lit_chars_11();
    lit_chars_13();
    lit_chars_14();
    lit_chars_12();
    lit_chars_7();
    lit_chars_9();
    lit_chars_10();
    lit_chars_6();
    lit_chars_81();
    lit_chars_55();
    lit_chars_56();
    lit_chars_57();
    lit_chars_58();
    lit_chars_59();
    lit_chars_60();
    lit_chars_32();
    lit_chars_82();
    lit_chars_78();
    lit_chars_83();
    lit_chars_0();
    lit_chars_1();
    lit_chars_33();
    lit_chars_36();
    lit_chars_20();
    lit_chars_44();
    lit_chars_25();
    lit_chars_31();
    lit_chars_4();
    lit_chars_22();
    lit_chars_24();
    lit_chars_29();
    lit_chars_18();
    lit_chars_19();
    lit_chars_23();
    lit_chars_39();
    lit_chars_21();
    lit_chars_26();
    lit_chars_27();
    lit_chars_28();
    lit_chars_5();
    lemma_split_comma_of_join(elems);
    lemma_target_flag_none(m, "-D"@, Some(join_comma(elems)));
    lemma_host_discovery_flag_none(m, "-D"@, Some(join_comma(elems)));
    lemma_technique_flag_none(m, "-D"@, Some(join_comma(elems)));
    lemma_ports_flag_none(m, "-D"@, Some(join_comma(elems)));
    lemma_service_flag_none(m, "-D"@, Some(join_comma(elems)));
    lemma_script_flag_none(m, "-D"@, Some(join_comma(elems)));
    lemma_os_flag_none(m, "-D"@, Some(join_comma(elems)));
    lemma_timing_flag_none(m, "-D"@, Some(join_comma(elems)));
}

pub proof fn lemma_flag_evasion_spoof_ip(m: NmapScanV, v: Seq<char>)
    requires
        crate::nettext::is_ip_text(v),
    ensures
        spec_dispatch(m, "-S"@, Some(v)) == FlagOutcome::Ok1(NmapScanV { evasion: EvasionSpoofingV { spoof_ip: Some(v), ..m.evasion }, ..m }),
{
    reveal(spec_dispatch);
    reveal(spec_evasion_flag);
    lit_chars_93();
    lit_chars_92();
    lit_chars_85();
    lit_chars_87();
    lit_chars_86();
    lit_chars_76();
    lit_chars_75();
    lit_chars_16();
    lit_chars_2();
    lit_chars_3();
    lit_chars_34();
    lit_chars_69();
    lit_chars_67();
    lit_chars_88();
    lit_chars_62();
    lit_chars_54();
    lit_chars_64();
    lit_chars_74();
    lit_chars_68();
    lit_chars_66();
    lit_chars_72();
    lit_chars_61();
    lit_chars_63();
    lit_chars_73();
    lit_chars_65();
    lit_chars_79();
    lit_chars_77();
    lit_chars_53();
    lit_chars_52();
    lit_chars_38();
    lit_chars_90();
    lit_chars_71();
    lit_chars_30();
    lit_chars_45();
    lit_chars_46();
    lit_chars_47();
    lit_chars_50();
    lit_chars_70();
    lit_chars_48();
    lit_chars_49();
    lit_chars_84();
    lit_chars_91();
    lit_chars_17();
    lit_chars_37();
    lit_chars_15();
    lit_chars_89();
    lit_chars_42();
    lit_chars_40();
    lit_chars_41();
    lit_chars_43();
    lit_chars_80();
    lit_chars_35();
    lit_chars_51();
    lit_chars_8();
    lit_chars_11();
    lit_chars_13();
    lit_chars_14();
    lit_chars_12();
    lit_chars_7();
    lit_chars_9();
    lit_chars_10();
    lit_chars_6();
    lit_chars_81();
    lit_chars_55();
    lit_chars_56();
    lit_chars_57();
    lit_chars_58();
    lit_chars_59();
    lit_chars_60();
    lit_chars_32();
    lit_chars_82();
    lit_chars_78();
    lit_chars_83();
    lit_chars_0();
    lit_chars_1();
    lit_chars_33();
    lit_chars_36();
    lit_chars_20();
    lit_chars_44();
    lit_chars_25();
    lit_chars_31();
    lit_chars_4();
    lit_chars_22();
    lit_chars_24();
    lit_chars_29();
    lit_chars_18();
    lit_chars_19();
    lit_chars_23();
    lit_chars_39();
    lit_chars_21();
    lit_chars_26();
    lit_chars_27();
    lit_chars_28();
    lit_chars_5();
    lemma_target_flag_none(m, "-S"@, Some(v));
    lemma_host_discovery_flag_none(m, "-S"@, Some(v));
    lemma_technique_flag_none(m, "-S"@, Some(v));
    lemma_ports_flag_none(m, "-S"@, Some(v));
    lemma_service_flag_none(m, "-S"@, Some(v));
    lemma_script_flag_none(m, "-S"@, Some(v));
    lemma_os_flag_none(m, "-S"@, Some(v));
    lemma_timing_flag_none(m, "-S"@, Some(v));
}

pub proof fn lemma_flag_evasion_interface(m: NmapScanV, v: Seq<char>)
    ensures
        spec_dispatch(m, "-e"@, Some(v)) == FlagOutcome::Ok1(NmapScanV { evasion: EvasionSpoofingV { interface: Some(v), ..m.evasion }, ..m }),
{
    reveal(spec_dispatch);
    reveal(spec_evasion_flag);
    lit_chars_93();
    lit_chars_92();
    lit_chars_85();
    lit_chars_87();
    lit_chars_86();
    lit_chars_76();
    lit_chars_75();
    lit_chars_16();
    lit_chars_2();
    lit_chars_3();
    lit_chars_34();
    lit_chars_69();
    lit_chars_67();
    lit_chars_88();
    lit_chars_62();
    lit_chars_54();
    lit_chars_64();
    lit_chars_74();
    lit_chars_68();
    lit_chars_66();
    lit_chars_72();
    lit_chars_61();
    lit_chars_63();
    lit_chars_73();
    lit_chars_65();
    lit_chars_79();
    lit_chars_77();
    lit_chars_53();
    lit_chars_52();
    lit_chars_38();
    lit_chars_90();
    lit_chars_71();
    lit_chars_30();
    lit_chars_45();
    lit_chars_46();
    lit_chars_47();
    lit_chars_50();
    lit_chars_70();
    lit_chars_48();
    lit_chars_49();
    lit_chars_84();
    lit_chars_91();
    lit_chars_17();
    lit_chars_37();
    lit_chars_15();
    lit_chars_89();
    lit_chars_42();
    lit_chars_40();
    lit_chars_41();
    lit_chars_43();
    lit_chars_80();
    lit_chars_35();
    lit_chars_51();
    lit_chars_8();
    lit_chars_11();
    lit_chars_13();
    lit_chars_14();
    lit_chars_12();
    lit_chars_7();
    lit_chars_9();
    lit_chars_10();
    lit_chars_6();
    lit_chars_81();
    lit_chars_55();
    lit_chars_56();
    lit_chars_57();
    lit_chars_58();
    lit_chars_59();
    lit_chars_60();
    lit_chars_32();
    lit_chars_82();
    lit_chars_78();
    lit_chars_83();
    lit_chars_0();
    lit_chars_1();
    lit_chars_33();
    lit_chars_36();
    lit_chars_20();
    lit_chars_44();
    lit_chars_25();
    lit_chars_31();
    lit_chars_4();
    lit_chars_22();
    lit_chars_24();
    lit_chars_29();
    lit_chars_18();
    lit_chars_19();
    lit_chars_23();
    lit_chars_39();
    lit_chars_21();
    lit_chars_26();
    lit_chars_27();
    lit_chars_28();
    lit_chars_5();
    lemma_target_flag_none(m, "-e"@, Some(v));
    lemma_host_discovery_flag_none(m, "-e"@, Some(v));
    lemma_technique_flag_none(m, "-e"@, Some(v));
    lemma_ports_flag_none(m, "-e"@, Some(v));
    lemma_service_flag_none(m, "-e"@, Some(v));
    lemma_script_flag_none(m, "-e"@, Some(v));
    lemma_os_flag_none(m, "-e"@, Some(v));
    lemma_timing_flag_none(m, "-e"@, Some(v));
}

pub proof fn lemma_flag_evasion_source_port(m: NmapScanV, n: u16)
    ensures
        spec_dispatch(m, "-g"@, Some(dec_text(n as nat))) == FlagOutcome::Ok1(NmapScanV { evasion: EvasionSpoofingV { source_port: Some(n), ..m.evasion }, ..m }),
{
    reveal(spec_dispatch);
    reveal(spec_evasion_flag);
    lit_chars_93();
    lit_chars_92();
    lit_chars_85();
    lit_chars_87();
    lit_chars_86();
    lit_chars_76();
    lit_chars_75();
    lit_chars_16();
    lit_chars_2();
    lit_chars_3();
    lit_chars_34();
    lit_chars_69();
    lit_chars_67();
    lit_chars_88();
    lit_chars_62();
    lit_chars_54();
    lit_chars_64();
    lit_chars_74();
    lit_chars_68();
    lit_chars_66();
    lit_chars_72();
    lit_chars_61();
    lit_chars_63();
    lit_chars_73();
    lit_chars_65();
    lit_chars_79();
    lit_chars_77();
    lit_chars_53();
    lit_chars_52();
    lit_chars_38();
    lit_chars_90();
    lit_chars_71();
    lit_chars_30();
    lit_chars_45();
    lit_chars_46();
    lit_chars_47();
    lit_chars_50();
    lit_chars_70();
    lit_chars_48();
    lit_chars_49();
    lit_chars_84();
    lit_chars_91();
    lit_chars_17();
    lit_chars_37();
    lit_chars_15();
    lit_chars_89();
    lit_chars_42();
    lit_chars_40();
    lit_chars_41();
    lit_chars_43();
    lit_chars_80();
    lit_chars_35();
    lit_chars_51();
    lit_chars_8();
    lit_chars_11();
    lit_chars_13();
    lit_chars_14();
    lit_chars_12();
    lit_chars_7();
    lit_chars_9();
    lit_chars_10();
    lit_chars_6();
    lit_chars_81();
    lit_chars_55();
    lit_chars_56();
    lit_chars_57();
    lit_chars_58();
    lit_chars_59();
    lit_chars_60();
    lit_chars_32();
    lit_chars_82();
    lit_chars_78();
    lit_chars_83();
    lit_chars_0();
    lit_chars_1();
    lit_chars_33();
    lit_chars_36();
    lit_chars_20();
    lit_chars_44();
    lit_chars_25();
    lit_chars_31();
    lit_chars_4();
    lit_chars_22();
    lit_chars_24();
    lit_chars_29();
    lit_chars_18();
    lit_chars_19();
    lit_chars_23();
    lit_chars_39();
    lit_chars_21();
    lit_chars_26();
    lit_chars_27();
    lit_chars_28();
    lit_chars_5();
    lemma_dec_round_trip(n as nat, 0xffff);
    lemma_target_flag_none(m, "-g"@, Some(dec_text(n as nat)));
    lemma_host_discovery_flag_none(m, "-g"@, Some(dec_text(n as nat)));
    lemma_technique_flag_none(m, "-g"@, Some(dec_text(n as nat)));
    lemma_ports_flag_none(m, "-g"@, Some(dec_text(n as nat)));
    lemma_service_flag_none(m, "-g"@, Some(dec_text(n as nat)));
    lemma_script_flag_none(m, "-g"@, Some(dec_text(n as nat)));
    lemma_os_flag_none(m, "-g"@, Some(dec_text(n as nat)));
    lemma_timing_flag_none(m, "-g"@, Some(dec_text(n as nat)));
}

pub proof fn lemma_flag_evasion_data(m: NmapScanV, v: Seq<char>)
    ensures
        spec_dispatch(m, "--data"@, Some(v)) == FlagOutcome::Ok1(NmapScanV { evasion: EvasionSpoofingV { data: Some(v), ..m.evasion }, ..m }),
{
    reveal(spec_dispatch);
    reveal(spec_evasion_flag);
    lit_chars_93();
    lit_chars_92();
    lit_chars_85();
    lit_chars_87();
    lit_chars_86();
    lit_chars_76();
    lit_chars_75();
    lit_chars_16();
    lit_chars_2();
    lit_chars_3();
    lit_chars_34();
    lit_chars_69();
    lit_chars_67();
    lit_chars_88();
    lit_chars_62();
    lit_chars_54();
    lit_chars_64();
    lit_chars_74();
    lit_chars_68();
    lit_chars_66();
    lit_chars_72();
    lit_chars_61();
    lit_chars_63();
    lit_chars_73();
    lit_chars_65();
    lit_chars_79();
    lit_chars_77();
    lit_chars_53();
    lit_chars_52();
    lit_chars_38();
    lit_chars_90();
    lit_chars_71();
    lit_chars_30();
    lit_chars_45();
    lit_chars_46();
    lit_chars_47();
    lit_chars_50();
    lit_chars_70();
    lit_chars_48();
    lit_chars_49();
    lit_chars_84();
    lit_chars_91();
    lit_chars_17();
    lit_chars_37();
    lit_chars_15();
    lit_chars_89();
    lit_chars_42();
    lit_chars_40();
    lit_chars_41();
    lit_chars_43();
    lit_chars_80();
    lit_chars_35();
    lit_chars_51();
    lit_chars_8();
    lit_chars_11();
    lit_chars_13();
    lit_chars_14();
    lit_chars_12();
    lit_chars_7();
    lit_chars_9();
    lit_chars_10();
    lit_chars_6();
    lit_chars_81();
    lit_chars_55();
    lit_chars_56();
    lit_chars_57();
    lit_chars_58();
    lit_chars_59();
    lit_chars_60();
    lit_chars_32();
    lit_chars_82();
    lit_chars_78();
    lit_chars_83();
    lit_chars_0();
    lit_chars_1();
    lit_chars_33();
    lit_chars_36();
    lit_chars_20();
    lit_chars_44();
    lit_chars_25();
    lit_chars_31();
    lit_chars_4();
    lit_chars_22();
    lit_chars_24();
    lit_chars_29();
    lit_chars_18();
    lit_chars_19();
    lit_chars_23();
    lit_chars_39();
    lit_chars_21();
    lit_chars_26();
    lit_chars_27();
    lit_chars_28();
    lit_chars_5();
    lemma_target_flag_none(m, "--data"@, Some(v));
    lemma_host_discovery_flag_none(m, "--data"@, Some(v));
    lemma_technique_flag_none(m, "--data"@, Some(v));
    lemma_ports_flag_none(m, "--data"@, Some(v));
    lemma_service_flag_none(m, "--data"@, Some(v));
    lemma_script_flag_none(m, "--data"@, Some(v));
    lemma_os_flag_none(m, "--data"@, Some(v));
    lemma_timing_flag_none(m, "--data"@, Some(v));
}

pub proof fn lemma_flag_evasion_data_string(m: NmapScanV, v: Seq<char>)
    ensures
        spec_dispatch(m, "--data-string"@, Some(v)) == FlagOutcome::Ok1(NmapScanV { evasion: EvasionSpoofingV { data_string: Some(v), ..m.evasion }, ..m }),
{
    reveal(spec_dispatch);
    reveal(spec_evasion_flag);
    lit_chars_93();
    lit_chars_92();
    lit_chars_85();
    lit_chars_87();
    lit_chars_86();
    lit_chars_76();
    lit_chars_75();
    lit_chars_16();
    lit_chars_2();
    lit_chars_3();
    lit_chars_34();
    lit_chars_69();
    lit_chars_67();
    lit_chars_88();
    lit_chars_62();
    lit_chars_54();
    lit_chars_64();
    lit_chars_74();
    lit_chars_68();
    lit_chars_66();
    lit_chars_72();
    lit_chars_61();
    lit_chars_63();
    lit_chars_73();
    lit_chars_65();
    lit_chars_79();
    lit_chars_77();
    lit_chars_53();
    lit_chars_52();
    lit_chars_38();
    lit_chars_90();
    lit_chars_71();
    lit_chars_30();
    lit_chars_45();
    lit_chars_46();
    lit_chars_47();
    lit_chars_50();
    lit_chars_70();
    lit_chars_48();
    lit_chars_49();
    lit_chars_84();
    lit_chars_91();
    lit_chars_17();
    lit_chars_37();
    lit_chars_15();
    lit_chars_89();
    lit_chars_42();
    lit_chars_40();
    lit_chars_41();
    lit_chars_43();
    lit_chars_80();
    lit_chars_35();
    lit_chars_51();
    lit_chars_8();
    lit_chars_11();
    lit_chars_13();
    lit_chars_14();
    lit_chars_12();
    lit_chars_7();
    lit_chars_9();
    lit_chars_10();
    lit_chars_6();
    lit_chars_81();
    lit_chars_55();
    lit_chars_56();
    lit_chars_57();
    lit_chars_58();
    lit_chars_59();
    lit_chars_60();
    lit_chars_32();
    lit_chars_82();
    lit_chars_78();
    lit_chars_83();
    lit_chars_0();
    lit_chars_1();
    lit_chars_33();
    lit_chars_36();
    lit_chars_20();
    lit_chars_44();
    lit_chars_25();
    lit_chars_31();
    lit_chars_4();
    lit_chars_22();
    lit_chars_24();
    lit_chars_29();
    lit_chars_18();
    lit_chars_19();
    lit_chars_23();
    lit_chars_39();
    lit_chars_21();
    lit_chars_26();
    lit_chars_27();
    lit_chars_28();
    lit_chars_5();
    lemma_target_flag_none(m, "--data-string"@, Some(v));
    lemma_host_discovery_flag_none(m, "--data-string"@, Some(v));
    lemma_technique_flag_none(m, "--data-string"@, Some(v));
    lemma_ports_flag_none(m, "--data-string"@, Some(v));
    lemma_service_flag_none(m, "--data-string"@, Some(v));
    lemma_script_flag_none(m, "--data-string"@, Some(v));
    lemma_os_flag_none(m, "--data-string"@, Some(v));
    lemma_timing_flag_none(m, "--data-string"@, Some(v));
}

pub proof fn lemma_flag_evasion_data_length(m: NmapScanV, n: u32)
    ensures
        spec_dispatch(m, "--data-length"@, Some(dec_text(n as nat))) == FlagOutcome::Ok1(NmapScanV { evasion: EvasionSpoofingV { data_length: Some(n), ..m.evasion }, ..m }),
{
    reveal(spec_dispatch);
    reveal(spec_evasion_flag);
    lit_chars_93();
    lit_chars_92();
    lit_chars_85();
    lit_chars_87();
    lit_chars_86();
    lit_chars_76();
    lit_chars_75();
    lit_chars_16();
    lit_chars_2();
    lit_chars_3();
    lit_chars_34();
    lit_chars_69();
    lit_chars_67();
    lit_chars_88();
    lit_chars_62();
    lit_chars_54();
    lit_chars_64();
    lit_chars_74();
    lit_chars_68();
    lit_chars_66();
    lit_chars_72();
    lit_chars_61();
    lit_chars_63();
    lit_chars_73();
    lit_chars_65();
    lit_chars_79();
    lit_chars_77();
    lit_chars_53();
    lit_chars_52();
    lit_chars_38();
    lit_chars_90();
    lit_chars_71();
    lit_chars_30();
    lit_chars_45();
    lit_chars_46();
    lit_chars_47();
    lit_chars_50();
    lit_chars_70();
    lit_chars_48();
    lit_chars_49();
    lit_chars_84();
    lit_chars_91();
    lit_chars_17();
    lit_chars_37();
    lit_chars_15();
    lit_chars_89();
    lit_chars_42();
    lit_chars_40();
    lit_chars_41();
    lit_chars_43();
    lit_chars_80();
    lit_chars_35();
    lit_chars_51();
    lit_chars_8();
    lit_chars_11();
    lit_chars_13();
    lit_chars_14();
    lit_chars_12();
    lit_chars_7();
    lit_chars_9();
    lit_chars_10();
    lit_chars_6();
    lit_chars_81();
    lit_chars_55();
    lit_chars_56();
    lit_chars_57();
    lit_chars_58();
    lit_chars_59();
    lit_chars_60();
    lit_chars_32();
    lit_chars_82();
    lit_chars_78();
    lit_chars_83();
    lit_chars_0();
    lit_chars_1();
    lit_chars_33();
    lit_chars_36();
    lit_chars_20();
    lit_chars_44();
    lit_chars_25();
    lit_chars_31();
    lit_chars_4();
    lit_chars_22();
    lit_chars_24();
    lit_chars_29();
    lit_chars_18();
    lit_chars_19();
    lit_chars_23();
    lit_chars_39();
    lit_chars_21();
    lit_chars_26();
    lit_chars_27();
    lit_chars_28();
    lit_chars_5();
    lemma_dec_round_trip(n as nat, 0xffff_ffff);
    lemma_target_flag_none(m, "--data-length"@, Some(dec_text(n as nat)));
    lemma_host_discovery_flag_none(m, "--data-length"@, Some(dec_text(n as nat)));
    lemma_technique_flag_none(m, "--data-length"@, Some(dec_text(n as nat)));
    lemma_ports_flag_none(m, "--data-length"@, Some(dec_text(n as nat)));
    lemma_service_flag_none(m, "--data-length"@, Some(dec_text(n as nat)));
    lemma_script_flag_none(m, "--data-length"@, Some(dec_text(n as nat)));
    lemma_os_flag_none(m, "--data-length"@, Some(dec_text(n as nat)));
    lemma_timing_flag_none(m, "--data-length"@, Some(dec_text(n as nat)));
}

pub proof fn lemma_flag_evasion_ip_options(m: NmapScanV, v: Seq<char>)
    ensures
        spec_dispatch(m, "--ip-options"@, Some(v)) == FlagOutcome::Ok1(NmapScanV { evasion: EvasionSpoofingV { ip_options: Some(v), ..m.evasion }, ..m }),
{
    reveal(spec_dispatch);
    reveal(spec_evasion_flag);
    lit_chars_93();
    lit_chars_92();
    lit_chars_85();
    lit_chars_87();
    lit_chars_86();
    lit_chars_76();
    lit_chars_75();
    lit_chars_16();
    lit_chars_2();
    lit_chars_3();
    lit_chars_34();
    lit_chars_69();
    lit_chars_67();
    lit_chars_88();
    lit_chars_62();
    lit_chars_54();
    lit_chars_64();
    lit_chars_74();
    lit_chars_68();
    lit_chars_66();
    lit_chars_72();
    lit_chars_61();
    lit_chars_63();
    lit_chars_73();
    lit_chars_65();
    lit_chars_79();
    lit_chars_77();
    lit_chars_53();
    lit_chars_52();
    lit_chars_38();
    lit_chars_90();
    lit_chars_71();
    lit_chars_30();
    lit_chars_45();
    lit_chars_46();
    lit_chars_47();
    lit_chars_50();
    lit_chars_70();
    lit_chars_48();
    lit_chars_49();
    lit_chars_84();
    lit_chars_91();
    lit_chars_17();
    lit_chars_37();
    lit_chars_15();
    lit_chars_89();
    lit_chars_42();
    lit_chars_40();
    lit_chars_41();
    lit_chars_43();
    lit_chars_80();
    lit_chars_35();
    lit_chars_51();
    lit_chars_8();
    lit_chars_11();
    lit_chars_13();
    lit_chars_14();
    lit_chars_12();
    lit_chars_7();
    lit_chars_9();
    lit_chars_10();
    lit_chars_6();
    lit_chars_81();
    lit_chars_55();
    lit_chars_56();
    lit_chars_57();
    lit_chars_58();
    lit_chars_59();
    lit_chars_60();
    lit_chars_32();
    lit_chars_82();
    lit_chars_78();
    lit_chars_83();
    lit_chars_0();
    lit_chars_1();
    lit_chars_33();
    lit_chars_36();
    lit_chars_20();
    lit_chars_44();
    lit_chars_25();
    lit_chars_31();
    lit_chars_4();
    lit_chars_22();
    lit_chars_24();
    lit_chars_29();
    lit_chars_18();
    lit_chars_19();
    lit_chars_23();
    lit_chars_39();
    lit_chars_21();
    lit_chars_26();
    lit_chars_27();
    lit_chars_28();
    lit_chars_5();
    lemma_target_flag_none(m, "--ip-options"@, Some(v));
    lemma_host_discovery_flag_none(m, "--ip-options"@, Some(v));
    lemma_technique_flag_none(m, "--ip-options"@, Some(v));
    lemma_ports_flag_none(m, "--ip-options"@, Some(v));
    lemma_service_flag_none(m, "--ip-options"@, Some(v));
    lemma_script_flag_none(m, "--ip-options"@, Some(v));
    lemma_os_flag_none(m, "--ip-options"@, Some(v));
    lemma_timing_flag_none(m, "--ip-options"@, Some(v));
}

pub proof fn lemma_flag_evasion_ttl(m: NmapScanV, n: u8)
    ensures
        spec_dispatch(m, "--ttl"@, Some(dec_text(n as nat))) == FlagOutcome::Ok1(NmapScanV { evasion: EvasionSpoofingV { ttl: Some(n), ..m.evasion }, ..m }),
{
    reveal(spec_dispatch);
    reveal(spec_evasion_flag);
    lit_chars_93();
    lit_chars_92();
    lit_chars_85();
    lit_chars_87();
    lit_chars_86();
    lit_chars_76();
    lit_chars_75();
    lit_chars_16();
    lit_chars_2();
    lit_chars_3();
    lit_chars_34();
    lit_chars_69();
    lit_chars_67();
    lit_chars_88();
    lit_chars_62();
    lit_chars_54();
    lit_chars_64();
    lit_chars_74();
    lit_chars_68();
    lit_chars_66();
    lit_chars_72();
    lit_chars_61();
    lit_chars_63();
    lit_chars_73();
    lit_chars_65();
    lit_chars_79();
    lit_chars_77();
    lit_chars_53();
    lit_chars_52();
    lit_chars_38();
    lit_chars_90();
    lit_chars_71();
    lit_chars_30();
    lit_chars_45();
    lit_chars_46();
    lit_chars_47();
    lit_chars_50();
    lit_chars_70();
    lit_chars_48();
    lit_chars_49();
    lit_chars_84();
    lit_chars_91();
    lit_chars_17();
    lit_chars_37();
    lit_chars_15();
    lit_chars_89();
    lit_chars_42();
    lit_chars_40();
    lit_chars_41();
    lit_chars_43();
    lit_chars_80();
    lit_chars_35();
    lit_chars_51();
    lit_chars_8();
    lit_chars_11();
    lit_chars_13();
    lit_chars_14();
    lit_chars_12();
    lit_chars_7();
    lit_chars_9();
    lit_chars_10();
    lit_chars_6();
    lit_chars_81();
    lit_chars_55();
    lit_chars_56();
    lit_chars_57();
    lit_chars_58();
    lit_chars_59();
    lit_chars_60();
    lit_chars_32();
    lit_chars_82();
    lit_chars_78();
    lit_chars_83();
    lit_chars_0();
    lit_chars_1();
    lit_chars_33();
    lit_chars_36();
    lit_chars_20();
    lit_chars_44();
    lit_chars_25();
    lit_chars_31();
    lit_chars_4();
    lit_chars_22();
    lit_chars_24();
    lit_chars_29();
    lit_chars_18();
    lit_chars_19();
    lit_chars_23();
    lit_chars_39();
    lit_chars_21();
    lit_chars_26();
    lit_chars_27();
    lit_chars_28();
    lit_chars_5();
    lemma_dec_round_trip(n as nat, 0xff);
    lemma_target_flag_none(m, "--ttl"@, Some(dec_text(n as nat)));
    lemma_host_discovery_flag_none(m, "--ttl"@, Some(dec_text(n as nat)));
    lemma_technique_flag_none(m, "--ttl"@, Some(dec_text(n as nat)));
    lemma_ports_flag_none(m, "--ttl"@, Some(dec_text(n as nat)));
    lemma_service_flag_none(m, "--ttl"@, Some(dec_text(n as nat)));
    lemma_script_flag_none(m, "--ttl"@, Some(dec_text(n as nat)));
    lemma_os_flag_none(m, "--ttl"@, Some(dec_text(n as nat)));
    lemma_timing_flag_none(m, "--ttl"@, Some(dec_text(n as nat)));
}

pub proof fn lemma_flag_evasion_randomize_hosts(m: NmapScanV, next: Option<Seq<char>>)
    ensures
        spec_dispatch(m, "--randomize-hosts"@, next) == FlagOutcome::Ok0(NmapScanV { evasion: EvasionSpoofingV { randomize_hosts: true, ..m.evasion }, ..m }),
{
    reveal(spec_dispatch);
    reveal(spec_evasion_flag);
    lit_chars_93();
    lit_chars_92();
    lit_chars_85();
    lit_chars_87();
    lit_chars_86();
    lit_chars_76();
    lit_chars_75();
    lit_chars_16();
    lit_chars_2();
    lit_chars_3();
    lit_chars_34();
    lit_chars_69();
    lit_chars_67();
    lit_chars_88();
    lit_chars_62();
    lit_chars_54();
    lit_chars_64();
    lit_chars_74();
    lit_chars_68();
    lit_chars_66();
    lit_chars_72();
    lit_chars_61();
    lit_chars_63();
    lit_chars_73();
    lit_chars_65();
    lit_chars_79();
    lit_chars_77();
    lit_chars_53();
    lit_chars_52();
    lit_chars_38();
    lit_chars_90();
    lit_chars_71();
    lit_chars_30();
    lit_chars_45();
    lit_chars_46();
    lit_chars_47();
    lit_chars_50();
    lit_chars_70();
    lit_chars_48();
    lit_chars_49();
    lit_chars_84();
    lit_chars_91();
    lit_chars_17();
    lit_chars_37();
    lit_chars_15();
    lit_chars_89();
    lit_chars_42();
    lit_chars_40();
    lit_chars_41();
    lit_chars_43();
    lit_chars_80();
    lit_chars_35();
    lit_chars_51();
    lit_chars_8();
    lit_chars_11();
    lit_chars_13();
    lit_chars_14();
    lit_chars_12();
    lit_chars_7();
    lit_chars_9();
    lit_chars_10();
    lit_chars_6();
    lit_chars_81();
    lit_chars_55();
    lit_chars_56();
    lit_chars_57();
    lit_chars_58();
    lit_chars_59();
    lit_chars_60();
    lit_chars_32();
    lit_chars_82();
    lit_chars_78();
    lit_chars_83();
    lit_chars_0();
    lit_chars_1();
    lit_chars_33();
    lit_chars_36();
    lit_chars_20();
    lit_chars_44();
    lit_chars_25();
    lit_chars_31();
    lit_chars_4();
    lit_chars_22();
    lit_chars_24();
    lit_chars_29();
    lit_chars_18();
    lit_chars_19();
    lit_chars_23();
    lit_chars_39();
    lit_chars_21();
    lit_chars_26();
    lit_chars_27();
    lit_chars_28();
    lit_chars_5();
    lemma_target_flag_none(m, "--randomize-hosts"@, next);
    lemma_host_discovery_flag_none(m, "--randomize-hosts"@, next);
    lemma_technique_flag_none(m, "--randomize-hosts"@, next);
    lemma_ports_flag_none(m, "--randomize-hosts"@, next);
    lemma_service_flag_none(m, "--randomize-hosts"@, next);
    lemma_script_flag_none(m, "--randomize-hosts"@, next);
    lemma_os_flag_none(m, "--randomize-hosts"@, next);
    lemma_timing_flag_none(m, "--randomize-hosts"@, next);
}

pub proof fn lemma_flag_evasion_spoof_mac(m: NmapScanV, v: Seq<char>)
    ensures
        spec_dispatch(m, "--spoof-mac"@, Some(v)) == FlagOutcome::Ok1(NmapScanV { evasion: EvasionSpoofingV { spoof_mac: Some(v), ..m.evasion }, ..m }),
{
    reveal(spec_dispatch);
    reveal(spec_evasion_flag);
    lit_chars_93();
    lit_chars_92();
    lit_chars_85();
    lit_chars_87();
    lit_chars_86();
    lit_chars_76();
    lit_chars_75();
    lit_chars_16();
    lit_chars_2();
    lit_chars_3();
    lit_chars_34();
    lit_chars_69();
    lit_chars_67();
    lit_chars_88();
    lit_chars_62();
    lit_chars_54();
    lit_chars_64();
    lit_chars_74();
    lit_chars_68();
    lit_chars_66();
    lit_chars_72();
    lit_chars_61();
    lit_chars_63();
    lit_chars_73();
    lit_chars_65();
    lit_chars_79();
    lit_chars_77();
    lit_chars_53();
    lit_chars_52();
    lit_chars_38();
    lit_chars_90();
    lit_chars_71();
    lit_chars_30();
    lit_chars_45();
    lit_chars_46();
    lit_chars_47();
    lit_chars_50();
    lit_chars_70();
    lit_chars_48();
    lit_chars_49();
    lit_chars_84();
    lit_chars_91();
    lit_chars_17();
    lit_chars_37();
    lit_chars_15();
    lit_chars_89();
    lit_chars_42();
    lit_chars_40();
    lit_chars_41();
    lit_chars_43();
    lit_chars_80();
    lit_chars_35();
    lit_chars_51();
    lit_chars_8();
    lit_chars_11();
    lit_chars_13();
    lit_chars_14();
    lit_chars_12();
    lit_chars_7();
    lit_chars_9();
    lit_chars_10();
    lit_chars_6();
    lit_chars_81();
    lit_chars_55();
    lit_chars_56();
    lit_chars_57();
    lit_chars_58();
    lit_chars_59();
    lit_chars_60();
    lit_chars_32();
    lit_chars_82();
    lit_chars_78();
    lit_chars_83();
    lit_chars_0();
    lit_chars_1();
    lit_chars_33();
    lit_chars_36();
    lit_chars_20();
    lit_chars_44();
    lit_chars_25();
    lit_chars_31();
    lit_chars_4();
    lit_chars_22();
    lit_chars_24();
    lit_chars_29();
    lit_chars_18();
    lit_chars_19();
    lit_chars_23();
    lit_chars_39();
    lit_chars_21();
    lit_chars_26();
    lit_chars_27();
    lit_chars_28();
    lit_chars_5();
    lemma_target_flag_none(m, "--spoof-mac"@, Some(v));
    lemma_host_discovery_flag_none(m, "--spoof-mac"@, Some(v));
    lemma_technique_flag_none(m, "--spoof-mac"@, Some(v));
    lemma_ports_flag_none(m, "--spoof-mac"@, Some(v));
    lemma_service_flag_none(m, "--spoof-mac"@, Some(v));
    lemma_script_flag_none(m, "--spoof-mac"@, Some(v));
    lemma_os_flag_none(m, "--spoof-mac"@, Some(v));
    lemma_timing_flag_none(m, "--spoof-mac"@, Some(v));
}

pub proof fn lemma_flag_evasion_badsum(m: NmapScanV, next: Option<Seq<char>>)
    ensures
        spec_dispatch(m, "--badsum"@, next) == FlagOutcome::Ok0(NmapScanV { evasion: EvasionSpoofingV { badsum: true, ..m.evasion }, ..m }),
{
    reveal(spec_dispatch);
    reveal(spec_evasion_flag);
    lit_chars_93();
    lit_chars_92();
    lit_chars_85();
    lit_chars_87();
    lit_chars_86();
    lit_chars_76();
    lit_chars_75();
    lit_chars_16();
    lit_chars_2();
    lit_chars_3();
    lit_chars_34();
    lit_chars_69();
    lit_chars_67();
    lit_chars_88();
    lit_chars_62();
    lit_chars_54();
    lit_chars_64();
    lit_chars_74();
    lit_chars_68();
    lit_chars_66();
    lit_chars_72();
    lit_chars_61();
    lit_chars_63();
    lit_chars_73();
    lit_chars_65();
    lit_chars_79();
    lit_chars_77();
    lit_chars_53();
    lit_chars_52();
    lit_chars_38();
    lit_chars_90();
    lit_chars_71();
    lit_chars_30();
    lit_chars_45();
    lit_chars_46();
    lit_chars_47();
    lit_chars_50();
    lit_chars_70();
    lit_chars_48();
    lit_chars_49();
    lit_chars_84();
    lit_chars_91();
    lit_chars_17();
    lit_chars_37();
    lit_chars_15();
    lit_chars_89();
    lit_chars_42();
    lit_chars_40();
    lit_chars_41();
    lit_chars_43();
    lit_chars_80();
    lit_chars_35();
    lit_chars_51();
    lit_chars_8();
    lit_chars_11();
    lit_chars_13();
    lit_chars_14();
    lit_chars_12();
    lit_chars_7();
    lit_chars_9();
    lit_chars_10();
    lit_chars_6();
    lit_chars_81();
    lit_chars_55();
    lit_chars_56();
    lit_chars_57();
    lit_chars_58();
    lit_chars_59();
    lit_chars_60();
    lit_chars_32();
    lit_chars_82();
    lit_chars_78();
    lit_chars_83();
    lit_chars_0();
    lit_chars_1();
    lit_chars_33();
    lit_chars_36();
    lit_chars_20();
    lit_chars_44();
    lit_chars_25();
    lit_chars_31();
    lit_chars_4();
    lit_chars_22();
    lit_chars_24();
    lit_chars_29();
    lit_chars_18();
    lit_chars_19();
    lit_chars_23();
    lit_chars_39();
    lit_chars_21();
    lit_chars_26();
    lit_chars_27();
    lit_chars_28();
    lit_chars_5();
    lemma_target_flag_none(m, "--badsum"@, next);
    lemma_host_discovery_flag_none(m, "--badsum"@, next);
    lemma_technique_flag_none(m, "--badsum"@, next);
    lemma_ports_flag_none(m, "--badsum"@, next);
    lemma_service_flag_none(m, "--badsum"@, next);
    lemma_script_flag_none(m, "--badsum"@, next);
    lemma_os_flag_none(m, "--badsum"@, next);
    lemma_timing_flag_none(m, "--badsum"@, next);
}

pub proof fn lemma_flag_evasion_adler32(m: NmapScanV, next: Option<Seq<char>>)
    ensures
        spec_dispatch(m, "--adler32"@, next) == FlagOutcome::Ok0(NmapScanV { evasion: EvasionSpoofingV { adler32: true, ..m.evasion }, ..m }),
{
    reveal(spec_dispatch);
    reveal(spec_evasion_flag);
    lit_chars_93();
    lit_chars_92();
    lit_chars_85();
    lit_chars_87();
    lit_chars_86();
    lit_chars_76();
    lit_chars_75();
    lit_chars_16();
    lit_chars_2();
    lit_chars_3();
    lit_chars_34();
    lit_chars_69();
    lit_chars_67();
    lit_chars_88();
    lit_chars_62();
    lit_chars_54();
    lit_chars_64();
    lit_chars_74();
    lit_chars_68();
    lit_chars_66();
    lit_chars_72();
    lit_chars_61();
    lit_chars_63();
    lit_chars_73();
    lit_chars_65();
    lit_chars_79();
    lit_chars_77();
    lit_chars_53();
    lit_chars_52();
    lit_chars_38();
    lit_chars_90();
    lit_chars_71();
    lit_chars_30();
    lit_chars_45();
    lit_chars_46();
    lit_chars_47();
    lit_chars_50();
    lit_chars_70();
    lit_chars_48();
    lit_chars_49();
    lit_chars_84();
    lit_chars_91();
    lit_chars_17();
    lit_chars_37();
    lit_chars_15();
    lit_chars_89();
    lit_chars_42();
    lit_chars_40();
    lit_chars_41();
    lit_chars_43();
    lit_chars_80();
    lit_chars_35();
    lit_chars_51();
    lit_chars_8();
    lit_chars_11();
    lit_chars_13();
    lit_chars_14();
    lit_chars_12();
    lit_chars_7();
    lit_chars_9();
    lit_chars_10();
    lit_chars_6();
    lit_chars_81();
    lit_chars_55();
    lit_chars_56();
    lit_chars_57();
    lit_chars_58();
    lit_chars_59();
    lit_chars_60();
    lit_chars_32();
    lit_chars_82();
    lit_chars_78();
    lit_chars_83();
    lit_chars_0();
    lit_chars_1();
    lit_chars_33();
    lit_chars_36();
    lit_chars_20();
    lit_chars_44();
    lit_chars_25();
    lit_chars_31();
    lit_chars_4();
    lit_chars_22();
    lit_chars_24();
    lit_chars_29();
    lit_chars_18();
    lit_chars_19();
    lit_chars_23();
    lit_chars_39();
    lit_chars_21();
    lit_chars_26();
    lit_chars_27();
    lit_chars_28();
    lit_chars_5();
    lemma_target_flag_none(m, "--adler32"@, next);
    lemma_host_discovery_flag_none(m, "--adler32"@, next);
    lemma_technique_flag_none(m, "--adler32"@, next);
    lemma_ports_flag_none(m, "--adler32"@, next);
    lemma_service_flag_none(m, "--adler32"@, next);
    lemma_script_flag_none(m, "--adler32"@, next);
    lemma_os_flag_none(m, "--adler32"@, next);
    lemma_timing_flag_none(m, "--adler32"@, next);
}

pub proof fn lemma_flag_output_normal(m: NmapScanV, v: Seq<char>)
    ensures
        spec_dispatch(m, "-oN"@, Some(v)) == FlagOutcome::Ok1(NmapScanV { output: OutputOptionsV { normal: Some(v), ..m.output }, ..m }),
{
    reveal(spec_dispatch);
    reveal(spec_output_flag);
    lit_chars_93();
    lit_chars_108();
    lit_chars_92();
    lit_chars_85();
    lit_chars_87();
    lit_chars_86();
    lit_chars_76();
    lit_chars_75();
    lit_chars_16();
    lit_chars_2();
    lit_chars_3();
    lit_chars_34();
    lit_chars_69();
    lit_chars_107();
    lit_chars_67();
    lit_chars_88();
    lit_chars_62();
    lit_chars_54();
    lit_chars_64();
    lit_chars_74();
    lit_chars_68();
    lit_chars_66();
    lit_chars_72();
    lit_chars_61();
    lit_chars_63();
    lit_chars_73();
    lit_chars_65();
    lit_chars_79();
    lit_chars_112();
    lit_chars_77();
    lit_chars_106();
    lit_chars_53();
    lit_chars_52();
    lit_chars_105();
    lit_chars_38();
    lit_chars_90();
    lit_chars_103();
    lit_chars_109();
    lit_chars_71();
    lit_chars_30();
    lit_chars_45();
    lit_chars_46();
    lit_chars_47();
    lit_chars_50();
    lit_chars_70();
    lit_chars_48();
    lit_chars_49();
    lit_chars_84();
    lit_chars_91();
    lit_chars_104();
    lit_chars_110();
    lit_chars_17();
    lit_chars_37();
    lit_chars_15();
    lit_chars_89();
    lit_chars_42();
    lit_chars_40();
    lit_chars_41();
    lit_chars_43();
    lit_chars_111();
    lit_chars_80();
    lit_chars_35();
    lit_chars_51();
    lit_chars_8();
    lit_chars_11();
    lit_chars_13();
    lit_chars_14();
    lit_chars_12();
    lit_chars_7();
    lit_chars_9();
    lit_chars_10();
    lit_chars_6();
    lit_chars_81();
    lit_chars_55();
    lit_chars_56();
    lit_chars_57();
    lit_chars_58();
    lit_chars_59();
    lit_chars_60();
    lit_chars_32();
    lit_chars_101();
    lit_chars_102();
    lit_chars_82();
    lit_chars_78();
    lit_chars_83();
    lit_chars_0();
    lit_chars_1();
    lit_chars_98();
    lit_chars_97();
    lit_chars_94();
    lit_chars_96();
    lit_chars_95();
    lit_chars_33();
    lit_chars_36();
    lit_chars_20();
    lit_chars_44();
    lit_chars_25();
    lit_chars_31();
    lit_chars_4();
    lit_chars_22();
    lit_chars_24();
    lit_chars_29();
    lit_chars_18();
    lit_chars_19();
    lit_chars_23();
    lit_chars_39();
    lit_chars_21();
    lit_chars_26();
    lit_chars_27();
    lit_chars_28();
    lit_chars_5();
    lit_chars_99();
    lit_chars_100();
    lemma_target_flag_none(m, "-oN"@, Some(v));
    lemma_host_discovery_flag_none(m, "-oN"@, Some(v));
    lemma_technique_flag_none(m, "-oN"@, Some(v));
    lemma_ports_flag_none(m, "-oN"@, Some(v));
    lemma_service_flag_none(m, "-oN"@, Some(v));
    lemma_script_flag_none(m, "-oN"@, Some(v));
    lemma_os_flag_none(m, "-oN"@, Some(v));
    lemma_timing_flag_none(m, "-oN"@, Some(v));
    lemma_evasion_flag_none(m, "-oN"@, Some(v));
}

pub proof fn lemma_flag_output_xml(m: NmapScanV, v: Seq<char>)
    ensures
        spec_dispatch(m, "-oX"@, Some(v)) == FlagOutcome::Ok1(NmapScanV { output: OutputOptionsV { xml: Some(v), ..m.output }, ..m }),
{
    reveal(spec_dispatch);
    reveal(spec_output_flag);
    lit_chars_93();
    lit_chars_108();
    lit_chars_92();
    lit_chars_85();
    lit_chars_87();
    lit_chars_86();
    lit_chars_76();
    lit_chars_75();
    lit_chars_16();
    lit_chars_2();
    lit_chars_3();
    lit_chars_34();
    lit_chars_69();
    lit_chars_107();
    lit_chars_67();
    lit_chars_88();
    lit_chars_62();
    lit_chars_54();
    lit_chars_64();
    lit_chars_74();
    lit_chars_68();
    lit_chars_66();
    lit_chars_72();
    lit_chars_61();
    lit_chars_63();
    lit_chars_73();
    lit_chars_65();
    lit_chars_79();
    lit_chars_112();
    lit_chars_77();
    lit_chars_106();
    lit_chars_53();
    lit_chars_52();
    lit_chars_105();
    lit_chars_38();
    lit_chars_90();
    lit_chars_103();
    lit_chars_109();
    lit_chars_71();
    lit_chars_30();
    lit_chars_45();
    lit_chars_46();
    lit_chars_47();
    lit_chars_50();
    lit_chars_70();
    lit_chars_48();
    lit_chars_49();
    lit_chars_84();
    lit_chars_91();
    lit_chars_104();
    lit_chars_110();
    lit_chars_17();
    lit_chars_37();
    lit_chars_15();
    lit_chars_89();
    lit_chars_42();
    lit_chars_40();
    lit_chars_41();
    lit_chars_43();
    lit_chars_111();
    lit_chars_80();
    lit_chars_35();
    lit_chars_51();
    lit_chars_8();
    lit_chars_11();
    lit_chars_13();
    lit_chars_14();
    lit_chars_12();
    lit_chars_7();
    lit_chars_9();
    lit_chars_10();
    lit_chars_6();
    lit_chars_81();
    lit_chars_55();
    lit_chars_56();
    lit_chars_57();
    lit_chars_58();
    lit_chars_59();
    lit_chars_60();
    lit_chars_32();
    lit_chars_101();
    lit_chars_102();
    lit_chars_82();
    lit_chars_78();
    lit_chars_83();
    lit_chars_0();
    lit_chars_1();
    lit_chars_98();
    lit_chars_97();
    lit_chars_94();
    lit_chars_96();
    lit_chars_95();
    lit_chars_33();
    lit_chars_36();
    lit_chars_20();
    lit_chars_44();
    lit_chars_25();
    lit_chars_31();
    lit_chars_4();
    lit_chars_22();
    lit_chars_24();
    lit_chars_29();
    lit_chars_18();
    lit_chars_19();
    lit_chars_23();
    lit_chars_39();
    lit_chars_21();
    lit_chars_26();
    lit_chars_27();
    lit_chars_28();
    lit_chars_5();
    lit_chars_99();
    lit_chars_100();
    lemma_target_flag_none(m, "-oX"@, Some(v));
    lemma_host_discovery_flag_none(m, "-oX"@, Some(v));
    lemma_technique_flag_none(m, "-oX"@, Some(v));
    lemma_ports_flag_none(m, "-oX"@, Some(v));
    lemma_service_flag_none(m, "-oX"@, Some(v));
    lemma_script_flag_none(m, "-oX"@, Some(v));
    lemma_os_flag_none(m, "-oX"@, Some(v));
    lemma_timing_flag_none(m, "-oX"@, Some(v));
    lemma_evasion_flag_none(m, "-oX"@, Some(v));
}

pub proof fn lemma_flag_output_script_kiddie(m: NmapScanV, v: Seq<char>)
    ensures
        spec_dispatch(m, "-oS"@, Some(v)) == FlagOutcome::Ok1(NmapScanV { output: OutputOptionsV { script_kiddie: Some(v), ..m.output }, ..m }),
{
    reveal(spec_dispatch);
    reveal(spec_output_flag);
    lit_chars_93();
    lit_chars_108();
    lit_chars_92();
    lit_chars_85();
    lit_chars_87();
    lit_chars_86();
    lit_chars_76();
    lit_chars_75();
    lit_chars_16();
    lit_chars_2();
    lit_chars_3();
    lit_chars_34();
    lit_chars_69();
    lit_chars_107();
    lit_chars_67();
    lit_chars_88();
    lit_chars_62();
    lit_chars_54();
    lit_chars_64();
    lit_chars_74();
    lit_chars_68();
    lit_chars_66();
    lit_chars_72();
    lit_chars_61();
    lit_chars_63();
    lit_chars_73();
    lit_chars_65();
    lit_chars_79();
    lit_chars_112();
    lit_chars_77();
    lit_chars_106();
    lit_chars_53();
    lit_chars_52();
    lit_chars_105();
    lit_chars_38();
    lit_chars_90();
    lit_chars_103();
    lit_chars_109();
    lit_chars_71();
    lit_chars_30();
    lit_chars_45();
    lit_chars_46();
    lit_chars_47();
    lit_chars_50();
    lit_chars_70();
    lit_chars_48();
    lit_chars_49();
    lit_chars_84();
    lit_chars_91();
    lit_chars_104();
    lit_chars_110();
    lit_chars_17();
    lit_chars_37();
    lit_chars_15();
    lit_chars_89();
    lit_chars_42();
    lit_chars_40();
    lit_chars_41();
    lit_chars_43();
    lit_chars_111();
    lit_chars_80();
    lit_chars_35();
    lit_chars_51();
    lit_chars_8();
    lit_chars_11();
    lit_chars_13();
    lit_chars_14();
    lit_chars_12();
    lit_chars_7();
    lit_chars_9();
    lit_chars_10();
    lit_chars_6();
    lit_chars_81();
    lit_chars_55();
    lit_chars_56();
    lit_chars_57();
    lit_chars_58();
    lit_chars_59();
    lit_chars_60();
    lit_chars_32();
    lit_chars_101();
    lit_chars_102();
    lit_chars_82();
    lit_chars_78();
    lit_chars_83();
    lit_chars_0();
    lit_chars_1();
    lit_chars_98();
    lit_chars_97();
    lit_chars_94();
    lit_chars_96();
    lit_chars_95();
    lit_chars_33();
    lit_chars_36();
    lit_chars_20();
    lit_chars_44();
    lit_chars_25();
    lit_chars_31();
    lit_chars_4();
    lit_chars_22();
    lit_chars_24();
    lit_chars_29();
    lit_chars_18();
    lit_chars_19();
    lit_chars_23();
    lit_chars_39();
    lit_chars_21();
    lit_chars_26();
    lit_chars_27();
    lit_chars_28();
    lit_chars_5();
    lit_chars_99();
    lit_chars_100();
    lemma_target_flag_none(m, "-oS"@, Some(v));
    lemma_host_discovery_flag_none(m, "-oS"@, Some(v));
    lemma_technique_flag_none(m, "-oS"@, Some(v));
    lemma_ports_flag_none(m, "-oS"@, Some(v));
    lemma_service_flag_none(m, "-oS"@, Some(v));
    lemma_script_flag_none(m, "-oS"@, Some(v));
    lemma_os_flag_none(m, "-oS"@, Some(v));
    lemma_timing_flag_none(m, "-oS"@, Some(v));
    lemma_evasion_flag_none(m, "-oS"@, Some(v));
}

pub proof fn lemma_flag_output_grepable(m: NmapScanV, v: Seq<char>)
    ensures
        spec_dispatch(m, "-oG"@, Some(v)) == FlagOutcome::Ok1(NmapScanV { output: OutputOptionsV { grepable: Some(v), ..m.output }, ..m }),
{
    reveal(spec_dispatch);
    reveal(spec_output_flag);
    lit_chars_93();
    lit_chars_108();
    lit_chars_92();
    lit_chars_85();
    lit_chars_87();
    lit_chars_86();
    lit_chars_76();
    lit_chars_75();
    lit_chars_16();
    lit_chars_2();
    lit_chars_3();
    lit_chars_34();
    lit_chars_69();
    lit_chars_107();
    lit_chars_67();
    lit_chars_88();
    lit_chars_62();
    lit_chars_54();
    lit_chars_64();
    lit_chars_74();
    lit_chars_68();
    lit_chars_66();
    lit_chars_72();
    lit_chars_61();
    lit_chars_63();
    lit_chars_73();
    lit_chars_65();
    lit_chars_79();
    lit_chars_112();
    lit_chars_77();
    lit_chars_106();
    lit_chars_53();
    lit_chars_52();
    lit_chars_105();
    lit_chars_38();
    lit_chars_90();
    lit_chars_103();
    lit_chars_109();
    lit_chars_71();
    lit_chars_30();
    lit_chars_45();
    lit_chars_46();
    lit_chars_47();
    lit_chars_50();
    lit_chars_70();
    lit_chars_48();
    lit_chars_49();
    lit_chars_84();
    lit_chars_91();
    lit_chars_104();
    lit_chars_110();
    lit_chars_17();
    lit_chars_37();
    lit_chars_15();
    lit_chars_89();
    lit_chars_42();
    lit_chars_40();
    lit_chars_41();
    lit_chars_43();
    lit_chars_111();
    lit_chars_80();
    lit_chars_35();
    lit_chars_51();
    lit_chars_8();
    lit_chars_11();
    lit_chars_13();
    lit_chars_14();
    lit_chars_12();
    lit_chars_7();
    lit_chars_9();
    lit_chars_10();
    lit_chars_6();
    lit_chars_81();
    lit_chars_55();
    lit_chars_56();
    lit_chars_57();
    lit_chars_58();
    lit_chars_59();
    lit_chars_60();
    lit_chars_32();
    lit_chars_101();
    lit_chars_102();
    lit_chars_82();
    lit_chars_78();
    lit_chars_83();
    lit_chars_0();
    lit_chars_1();
    lit_chars_98();
    lit_chars_97();
    lit_chars_94();
    lit_chars_96();
    lit_chars_95();
    lit_chars_33();
    lit_chars_36();
    lit_chars_20();
    lit_chars_44();
    lit_chars_25();
    lit_chars_31();
    lit_chars_4();
    lit_chars_22();
    lit_chars_24();
    lit_chars_29();
    lit_chars_18();
    lit_chars_19();
    lit_chars_23();
    lit_chars_39();
    lit_chars_21();
    lit_chars_26();
    lit_chars_27();
    lit_chars_28();
    lit_chars_5();
    lit_chars_99();
    lit_chars_100();
    lemma_target_flag_none(m, "-oG"@, Some(v));
    lemma_host_discovery_flag_none(m, "-oG"@, Some(v));
    lemma_technique_flag_none(m, "-oG"@, Some(v));
    lemma_ports_flag_none(m, "-oG"@, Some(v));
    lemma_service_flag_none(m, "-oG"@, Some(v));
    lemma_script_flag_none(m, "-oG"@, Some(v));
    lemma_os_flag_none(m, "-oG"@, Some(v));
    lemma_timing_flag_none(m, "-oG"@, Some(v));
    lemma_evasion_flag_none(m, "-oG"@, Some(v));
}

pub proof fn lemma_flag_output_all_formats(m: NmapScanV, v: Seq<char>)
    ensures
        spec_dispatch(m, "-oA"@, Some(v)) == FlagOutcome::Ok1(NmapScanV { output: OutputOptionsV { all_formats: Some(v), ..m.output }, ..m }),
{
    reveal(spec_dispatch);
    reveal(spec_output_flag);
    lit_chars_93();
    lit_chars_108();
    lit_chars_92();
    lit_chars_85();
    lit_chars_87();
    lit_chars_86();
    lit_chars_76();
    lit_chars_75();
    lit_chars_16();
    lit_chars_2();
    lit_chars_3();
    lit_chars_34();
    lit_chars_69();
    lit_chars_107();
    lit_chars_67();
    lit_chars_88();
    lit_chars_62();
    lit_chars_54();
    lit_chars_64();
    lit_chars_74();
    lit_chars_68();
    lit_chars_66();
    lit_chars_72();
    lit_chars_61();
    lit_chars_63();
    lit_chars_73();
    lit_chars_65();
    lit_chars_79();
    lit_chars_112();
    lit_chars_77();
    lit_chars_106();
    lit_chars_53();
    lit_chars_52();
    lit_chars_105();
    lit_chars_38();
    lit_chars_90();
    lit_chars_103();
    lit_chars_109();
    lit_chars_71();
    lit_chars_30();
    lit_chars_45();
    lit_chars_46();
    lit_chars_47();
    lit_chars_50();
    lit_chars_70();
    lit_chars_48();
    lit_chars_49();
    lit_chars_84();
    lit_chars_91();
    lit_chars_104();
    lit_chars_110();
    lit_chars_17();
    lit_chars_37();
    lit_chars_15();
    lit_chars_89();
    lit_chars_42();
    lit_chars_40();
    lit_chars_41();
    lit_chars_43();
    lit_chars_111();
    lit_chars_80();
    lit_chars_35();
    lit_chars_51();
    lit_chars_8();
    lit_chars_11();
    lit_chars_13();
    lit_chars_14();
    lit_chars_12();
    lit_chars_7();
    lit_chars_9();
    lit_chars_10();
    lit_chars_6();
    lit_chars_81();
    lit_chars_55();
    lit_chars_56();
    lit_chars_57();
    lit_chars_58();
    lit_chars_59();
    lit_chars_60();
    lit_chars_32();
    lit_chars_101();
    lit_chars_102();
    lit_chars_82();
    lit_chars_78();
    lit_chars_83();
    lit_chars_0();
    lit_chars_1();
    lit_chars_98();
    lit_chars_97();
    lit_chars_94();
    lit_chars_96();
    lit_chars_95();
    lit_chars_33();
    lit_chars_36();
    lit_chars_20();
    lit_chars_44();
    lit_chars_25();
    lit_chars_31();
    lit_chars_4();
    lit_chars_22();
    lit_chars_24();
    lit_chars_29();
    lit_chars_18();
    lit_chars_19();
    lit_chars_23();
    lit_chars_39();
    lit_chars_21();
    lit_chars_26();
    lit_chars_27();
    lit_chars_28();
    lit_chars_5();
    lit_chars_99();
    lit_chars_100();
    lemma_target_flag_none(m, "-oA"@, Some(v));
    lemma_host_discovery_flag_none(m, "-oA"@, Some(v));
    lemma_technique_flag_none(m, "-oA"@, Some(v));
    lemma_ports_flag_none(m, "-oA"@, Some(v));
    lemma_service_flag_none(m, "-oA"@, Some(v));
    lemma_script_flag_none(m, "-oA"@, Some(v));
    lemma_os_flag_none(m, "-oA"@, Some(v));
    lemma_timing_flag_none(m, "-oA"@, Some(v));
    lemma_evasion_flag_none(m, "-oA"@, Some(v));
}

pub proof fn lemma_flag_output_verbose_one(m: NmapScanV, next: Option<Seq<char>>)
    ensures
        spec_dispatch(m, "-v"@, next) == FlagOutcome::Ok0(NmapScanV { output: OutputOptionsV { verbose: (if m.output.verbose == 255 { 255u8 } else { (m.output.verbose + 1) as u8 }), ..m.output }, ..m }),
{
    reveal(spec_dispatch);
    reveal(spec_output_flag);
    lit_chars_93();
    lit_chars_108();
    lit_chars_92();
    lit_chars_85();
    lit_chars_87();
    lit_chars_86();
    lit_chars_76();
    lit_chars_75();
    lit_chars_16();
    lit_chars_2();
    lit_chars_3();
    lit_chars_34();
    lit_chars_69();
    lit_chars_107();
    lit_chars_67();
    lit_chars_88();
    lit_chars_62();
    lit_chars_54();
    lit_chars_64();
    lit_chars_74();
    lit_chars_68();
    lit_chars_66();
    lit_chars_72();
    lit_chars_61();
    lit_chars_63();
    lit_chars_73();
    lit_chars_65();
    lit_chars_79();
    lit_chars_112();
    lit_chars_77();
    lit_chars_106();
    lit_chars_53();
    lit_chars_52();
    lit_chars_105();
    lit_chars_38();
    lit_chars_90();
    lit_chars_103();
    lit_chars_109();
    lit_chars_71();
    lit_chars_30();
    lit_chars_45();
    lit_chars_46();
    lit_chars_47();
    lit_chars_50();
    lit_chars_70();
    lit_chars_48();
    lit_chars_49();
    lit_chars_84();
    lit_chars_91();
    lit_chars_104();
    lit_chars_110();
    lit_chars_17();
    lit_chars_37();
    lit_chars_15();
    lit_chars_89();
    lit_chars_42();
    lit_chars_40();
    lit_chars_41();
    lit_chars_43();
    lit_chars_111();
    lit_chars_80();
    lit_chars_35();
    lit_chars_51();
    lit_chars_8();
    lit_chars_11();
    lit_chars_13();
    lit_chars_14();
    lit_chars_12();
    lit_chars_7();
    lit_chars_9();
    lit_chars_10();
    lit_chars_6();
    lit_chars_81();
    lit_chars_55();
    lit_chars_56();
    lit_chars_57();
    lit_chars_58();
    lit_chars_59();
    lit_chars_60();
    lit_chars_32();
    lit_chars_101();
    lit_chars_102();
    lit_chars_82();
    lit_chars_78();
    lit_chars_83();
    lit_chars_0();
    lit_chars_1();
    lit_chars_98();
    lit_chars_97();
    lit_chars_94();
    lit_chars_96();
    lit_chars_95();
    lit_chars_33();
    lit_chars_36();
    lit_chars_20();
    lit_chars_44();
    lit_chars_25();
    lit_chars_31();
    lit_chars_4();
    lit_chars_22();
    lit_chars_24();
    lit_chars_29();
    lit_chars_18();
    lit_chars_19();
    lit_chars_23();
    lit_chars_39();
    lit_chars_21();
    lit_chars_26();
    lit_chars_27();
    lit_chars_28();
    lit_chars_5();
    lit_chars_99();
    lit_chars_100();
    lemma_target_flag_none(m, "-v"@, next);
    lemma_host_discovery_flag_none(m, "-v"@, next);
    lemma_technique_flag_none(m, "-v"@, next);
    lemma_ports_flag_none(m, "-v"@, next);
    lemma_service_flag_none(m, "-v"@, next);
    lemma_script_flag_none(m, "-v"@, next);
    lemma_os_flag_none(m, "-v"@, next);
    lemma_timing_flag_none(m, "-v"@, next);
    lemma_evasion_flag_none(m, "-v"@, next);
}

pub proof fn lemma_flag_output_verbose_two(m: NmapScanV, next: Option<Seq<char>>)
    ensures
        spec_dispatch(m, "-vv"@, next) == FlagOutcome::Ok0(NmapScanV { output: OutputOptionsV { verbose: (if m.output.verbose >= 254 { 255u8 } else { (m.output.verbose + 2) as u8 }), ..m.output }, ..m }),
{
    reveal(spec_dispatch);
    reveal(spec_output_flag);
    lit_chars_93();
    lit_chars_108();
    lit_chars_92();
    lit_chars_85();
    lit_chars_87();
    lit_chars_86();
    lit_chars_76();
    lit_chars_75();
    lit_chars_16();
    lit_chars_2();
    lit_chars_3();
    lit_chars_34();
    lit_chars_69();
    lit_chars_107();
    lit_chars_67();
    lit_chars_88();
    lit_chars_62();
    lit_chars_54();
    lit_chars_64();
    lit_chars_74();
    lit_chars_68();
    lit_chars_66();
    lit_chars_72();
    lit_chars_61();
    lit_chars_63();
    lit_chars_73();
    lit_chars_65();
    lit_chars_79();
    lit_chars_112();
    lit_chars_77();
    lit_chars_106();
    lit_chars_53();
    lit_chars_52();
    lit_chars_105();
    lit_chars_38();
    lit_chars_90();
    lit_chars_103();
    lit_chars_109();
    lit_chars_71();
    lit_chars_30();
    lit_chars_45();
    lit_chars_46();
    lit_chars_47();
    lit_chars_50();
    lit_chars_70();
    lit_chars_48();
    lit_chars_49();
    lit_chars_84();
    lit_chars_91();
    lit_chars_104();
    lit_chars_110();
    lit_chars_17();
    lit_chars_37();
    lit_chars_15();
    lit_chars_89();
    lit_chars_42();
    lit_chars_40();
    lit_chars_41();
    lit_chars_43();
    lit_chars_111();
    lit_chars_80();
    lit_chars_35();
    lit_chars_51();
    lit_chars_8();
    lit_chars_11();
    lit_chars_13();
    lit_chars_14();
    lit_chars_12();
    lit_chars_7();
    lit_chars_9();
    lit_chars_10();
    lit_chars_6();
    lit_chars_81();
    lit_chars_55();
    lit_chars_56();
    lit_chars_57();
    lit_chars_58();
    lit_chars_59();
    lit_chars_60();
    lit_chars_32();
    lit_chars_101();
    lit_chars_102();
    lit_chars_82();
    lit_chars_78();
    lit_chars_83();
    lit_chars_0();
    lit_chars_1();
    lit_chars_98();
    lit_chars_97();
    lit_chars_94();
    lit_chars_96();
    lit_chars_95();
    lit_chars_33();
    lit_chars_36();
    lit_chars_20();
    lit_chars_44();
    lit_chars_25();
    lit_chars_31();
    lit_chars_4();
    lit_chars_22();
    lit_chars_24();
    lit_chars_29();
    lit_chars_18();
    lit_chars_19();
    lit_chars_23();
    lit_chars_39();
    lit_chars_21();
    lit_chars_26();
    lit_chars_27();
    lit_chars_28();
    lit_chars_5();
    lit_chars_99();
    lit_chars_100();
    lemma_target_flag_none(m, "-vv"@, next);
    lemma_host_discovery_flag_none(m, "-vv"@, next);
    lemma_technique_flag_none(m, "-vv"@, next);
    lemma_ports_flag_none(m, "-vv"@, next);
    lemma_service_flag_none(m, "-vv"@, next);
    lemma_script_flag_none(m, "-vv"@, next);
    lemma_os_flag_none(m, "-vv"@, next);
    lemma_timing_flag_none(m, "-vv"@, next);
    lemma_evasion_flag_none(m, "-vv"@, next);
}

pub proof fn lemma_flag_output_debug_one(m: NmapScanV, next: Option<Seq<char>>)
    ensures
        spec_dispatch(m, "-d"@, next) == FlagOutcome::Ok0(NmapScanV { output: OutputOptionsV { debug: (if m.output.debug == 255 { 255u8 } else { (m.output.debug + 1) as u8 }), ..m.output }, ..m }),
{
    reveal(spec_dispatch);
    reveal(spec_output_flag);
    lit_chars_93();
    lit_chars_108();
    lit_chars_92();
    lit_chars_85();
    lit_chars_87();
    lit_chars_86();
    lit_chars_76();
    lit_chars_75();
    lit_chars_16();
    lit_chars_2();
    lit_chars_3();
    lit_chars_34();
    lit_chars_69();
    lit_chars_107();
    lit_chars_67();
    lit_chars_88();
    lit_chars_62();
    lit_chars_54();
    lit_chars_64();
    lit_chars_74();
    lit_chars_68();
    lit_chars_66();
    lit_chars_72();
    lit_chars_61();
    lit_chars_63();
    lit_chars_73();
    lit_chars_65();
    lit_chars_79();
    lit_chars_112();
    lit_chars_77();
    lit_chars_106();
    lit_chars_53();
    lit_chars_52();
    lit_chars_105();
    lit_chars_38();
    lit_chars_90();
    lit_chars_103();
    lit_chars_109();
    lit_chars_71();
    lit_chars_30();
    lit_chars_45();
    lit_chars_46();
    lit_chars_47();
    lit_chars_50();
    lit_chars_70();
    lit_chars_48();
    lit_chars_49();
    lit_chars_84();
    lit_chars_91();
    lit_chars_104();
    lit_chars_110();
    lit_chars_17();
    lit_chars_37();
    lit_chars_15();
    lit_chars_89();
    lit_chars_42();
    lit_chars_40();
    lit_chars_41();
    lit_chars_43();
    lit_chars_111();
    lit_chars_80();
    lit_chars_35();
    lit_chars_51();
    lit_chars_8();
    lit_chars_11();
    lit_chars_13();
    lit_chars_14();
    lit_chars_12();
    lit_chars_7();
    lit_chars_9();
    lit_chars_10();
    lit_chars_6();
    lit_chars_81();
    lit_chars_55();
    lit_chars_56();
    lit_chars_57();
    lit_chars_58();
    lit_chars_59();
    lit_chars_60();
    lit_chars_32();
    lit_chars_101();
    lit_chars_102();
    lit_chars_82();
    lit_chars_78();
    lit_chars_83();
    lit_chars_0();
    lit_chars_1();
    lit_chars_98();
    lit_chars_97();
    lit_chars_94();
    lit_chars_96();
    lit_chars_95();
    lit_chars_33();
    lit_chars_36();
    lit_chars_20();
    lit_chars_44();
    lit_chars_25();
    lit_chars_31();
    lit_chars_4();
    lit_chars_22();
    lit_chars_24();
    lit_chars_29();
    lit_chars_18();
    lit_chars_19();
    lit_chars_23();
    lit_chars_39();
    lit_chars_21();
    lit_chars_26();
    lit_chars_27();
    lit_chars_28();
    lit_chars_5();
    lit_chars_99();
    lit_chars_100();
    lemma_target_flag_none(m, "-d"@, next);
    lemma_host_discovery_flag_none(m, "-d"@, next);
    lemma_technique_flag_none(m, "-d"@, next);
    lemma_ports_flag_none(m, "-d"@, next);
    lemma_service_flag_none(m, "-d"@, next);
    lemma_script_flag_none(m, "-d"@, next);
    lemma_os_flag_none(m, "-d"@, next);
    lemma_timing_flag_none(m, "-d"@, next);
    lemma_evasion_flag_none(m, "-d"@, next);
}

pub proof fn lemma_flag_output_debug_two(m: NmapScanV, next: Option<Seq<char>>)
    ensures
        spec_dispatch(m, "-dd"@, next) == FlagOutcome::Ok0(NmapScanV { output: OutputOptionsV { debug: (if m.output.debug >= 254 { 255u8 } else { (m.output.debug + 2) as u8 }), ..m.output }, ..m }),
{
    reveal(spec_dispatch);
    reveal(spec_output_flag);
    lit_chars_93();
    lit_chars_108();
    lit_chars_92();
    lit_chars_85();
    lit_chars_87();
    lit_chars_86();
    lit_chars_76();
    lit_chars_75();
    lit_chars_16();
    lit_chars_2();
    lit_chars_3();
    lit_chars_34();
    lit_chars_69();
    lit_chars_107();
    lit_chars_67();
    lit_chars_88();
    lit_chars_62();
    lit_chars_54();
    lit_chars_64();
    lit_chars_74();
    lit_chars_68();
    lit_chars_66();
    lit_chars_72();
    lit_chars_61();
    lit_chars_63();
    lit_chars_73();
    lit_chars_65();
    lit_chars_79();
    lit_chars_112();
    lit_chars_77();
    lit_chars_106();
    lit_chars_53();
    lit_chars_52();
    lit_chars_105();
    lit_chars_38();
    lit_chars_90();
    lit_chars_103();
    lit_chars_109();
    lit_chars_71();
    lit_chars_30();
    lit_chars_45();
    lit_chars_46();
    lit_chars_47();
    lit_chars_50();
    lit_chars_70();
    lit_chars_48();
    lit_chars_49();
    lit_chars_84();
    lit_chars_91();
    lit_chars_104();
    lit_chars_110();
    lit_chars_17();
    lit_chars_37();
    lit_chars_15();
    lit_chars_89();
    lit_chars_42();
    lit_chars_40();
    lit_chars_41();
    lit_chars_43();
    lit_chars_111();
    lit_chars_80();
    lit_chars_35();
    lit_chars_51();
    lit_chars_8();
    lit_chars_11();
    lit_chars_13();
    lit_chars_14();
    lit_chars_12();
    lit_chars_7();
    lit_chars_9();
    lit_chars_10();
    lit_chars_6();
    lit_chars_81();
    lit_chars_55();
    lit_chars_56();
    lit_chars_57();
    lit_chars_58();
    lit_chars_59();
    lit_chars_60();
    lit_chars_32();
    lit_chars_101();
    lit_chars_102();
    lit_chars_82();
    lit_chars_78();
    lit_chars_83();
    lit_chars_0();
    lit_chars_1();
    lit_chars_98();
    lit_chars_97();
    lit_chars_94();
    lit_chars_96();
    lit_chars_95();
    lit_chars_33();
    lit_chars_36();
    lit_chars_20();
    lit_chars_44();
    lit_chars_25();
    lit_chars_31();
    lit_chars_4();
    lit_chars_22();
    lit_chars_24();
    lit_chars_29();
    lit_chars_18();
    lit_chars_19();
    lit_chars_23();
    lit_chars_39();
    lit_chars_21();
    lit_chars_26();
    lit_chars_27();
    lit_chars_28();
    lit_chars_5();
    lit_chars_99();
    lit_chars_100();
    lemma_target_flag_none(m, "-dd"@, next);
    lemma_host_discovery_flag_none(m, "-dd"@, next);
    lemma_technique_flag_none(m, "-dd"@, next);
    lemma_ports_flag_none(m, "-dd"@, next);
    lemma_service_flag_none(m, "-dd"@, next);
    lemma_script_flag_none(m, "-dd"@, next);
    lemma_os_flag_none(m, "-dd"@, next);
    lemma_timing_flag_none(m, "-dd"@, next);
    lemma_evasion_flag_none(m, "-dd"@, next);
}

pub proof fn lemma_flag_output_reason(m: NmapScanV, next: Option<Seq<char>>)
    ensures
        spec_dispatch(m, "--reason"@, next) == FlagOutcome::Ok0(NmapScanV { output: OutputOptionsV { reason: true, ..m.output }, ..m }),
{
    reveal(spec_dispatch);
    reveal(spec_output_flag);
    lit_chars_93();
    lit_chars_108();
    lit_chars_92();
    lit_chars_85();
    lit_chars_87();
    lit_chars_86();
    lit_chars_76();
    lit_chars_75();
    lit_chars_16();
    lit_chars_2();
    lit_chars_3();
    lit_chars_34();
    lit_chars_69();
    lit_chars_107();
    lit_chars_67();
    lit_chars_88();
    lit_chars_62();
    lit_chars_54();
    lit_chars_64();
    lit_chars_74();
    lit_chars_68();
    lit_chars_66();
    lit_chars_72();
    lit_chars_61();
    lit_chars_63();
    lit_chars_73();
    lit_chars_65();
    lit_chars_79();
    lit_chars_112();
    lit_chars_77();
    lit_chars_106();
    lit_chars_53();
    lit_chars_52();
    lit_chars_105();
    lit_chars_38();
    lit_chars_90();
    lit_chars_103();
    lit_chars_109();
    lit_chars_71();
    lit_chars_30();
    lit_chars_45();
    lit_chars_46();
    lit_chars_47();
    lit_chars_50();
    lit_chars_70();
    lit_chars_48();
    lit_chars_49();
    lit_chars_84();
    lit_chars_91();
    lit_chars_104();
    lit_chars_110();
    lit_chars_17();
    lit_chars_37();
    lit_chars_15();
    lit_chars_89();
    lit_chars_42();
    lit_chars_40();
    lit_chars_41();
    lit_chars_43();
    lit_chars_111();
    lit_chars_80();
    lit_chars_35();
    lit_chars_51();
    lit_chars_8();
    lit_chars_11();
    lit_chars_13();
    lit_chars_14();
    lit_chars_12();
    lit_chars_7();
    lit_chars_9();
    lit_chars_10();
    lit_chars_6();
    lit_chars_81();
    lit_chars_55();
    lit_chars_56();
    lit_chars_57();
    lit_chars_58();
    lit_chars_59();
    lit_chars_60();
    lit_chars_32();
    lit_chars_101();
    lit_chars_102();
    lit_chars_82();
    lit_chars_78();
    lit_chars_83();
    lit_chars_0();
    lit_chars_1();
    lit_chars_98();
    lit_chars_97();
    lit_chars_94();
    lit_chars_96();
    lit_chars_95();
    lit_chars_33();
    lit_chars_36();
    lit_chars_20();
    lit_chars_44();
    lit_chars_25();
    lit_chars_31();
    lit_chars_4();
    lit_chars_22();
    lit_chars_24();
    lit_chars_29();
    lit_chars_18();
    lit_chars_19();
    lit_chars_23();
    lit_chars_39();
    lit_chars_21();
    lit_chars_26();
    lit_chars_27();
    lit_chars_28();
    lit_chars_5();
    lit_chars_99();
    lit_chars_100();
    lemma_target_flag_none(m, "--reason"@, next);
    lemma_host_discovery_flag_none(m, "--reason"@, next);
    lemma_technique_flag_none(m, "--reason"@, next);
    lemma_ports_flag_none(m, "--reason"@, next);
    lemma_service_flag_none(m, "--reason"@, next);
    lemma_script_flag_none(m, "--reason"@, next);
    lemma_os_flag_none(m, "--reason"@, next);
    lemma_timing_flag_none(m, "--reason"@, next);
    lemma_evasion_flag_none(m, "--reason"@, next);
}

pub proof fn lemma_flag_output_stats_every(m: NmapScanV, v: Seq<char>)
    ensures
        spec_dispatch(m, "--stats-every"@, Some(v)) == FlagOutcome::Ok1(NmapScanV { output: OutputOptionsV { stats_every: Some(v), ..m.output }, ..m }),
{
    reveal(spec_dispatch);
    reveal(spec_output_flag);
    lit_chars_93();
    lit_chars_108();
    lit_chars_92();
    lit_chars_85();
    lit_chars_87();
    lit_chars_86();
    lit_chars_76();
    lit_chars_75();
    lit_chars_16();
    lit_chars_2();
    lit_chars_3();
    lit_chars_34();
    lit_chars_69();
    lit_chars_107();
    lit_chars_67();
    lit_chars_88();
    lit_chars_62();
    lit_chars_54();
    lit_chars_64();
    lit_chars_74();
    lit_chars_68();
    lit_chars_66();
    lit_chars_72();
    lit_chars_61();
    lit_chars_63();
    lit_chars_73();
    lit_chars_65();
    lit_chars_79();
    lit_chars_112();
    lit_chars_77();
    lit_chars_106();
    lit_chars_53();
    lit_chars_52();
    lit_chars_105();
    lit_chars_38();
    lit_chars_90();
    lit_chars_103();
    lit_chars_109();
    lit_chars_71();
    lit_chars_30();
    lit_chars_45();
    lit_chars_46();
    lit_chars_47();
    lit_chars_50();
    lit_chars_70();
    lit_chars_48();
    lit_chars_49();
    lit_chars_84();
    lit_chars_91();
    lit_chars_104();
    lit_chars_110();
    lit_chars_17();
    lit_chars_37();
    lit_chars_15();
    lit_chars_89();
    lit_chars_42();
    lit_chars_40();
    lit_chars_41();
    lit_chars_43();
    lit_chars_111();
    lit_chars_80();
    lit_chars_35();
    lit_chars_51();
    lit_chars_8();
    lit_chars_11();
    lit_chars_13();
    lit_chars_14();
    lit_chars_12();
    lit_chars_7();
    lit_chars_9();
    lit_chars_10();
    lit_chars_6();
    lit_chars_81();
    lit_chars_55();
    lit_chars_56();
    lit_chars_57();
    lit_chars_58();
    lit_chars_59();
    lit_chars_60();
    lit_chars_32();
    lit_chars_101();
    lit_chars_102();
    lit_chars_82();
    lit_chars_78();
    lit_chars_83();
    lit_chars_0();
    lit_chars_1();
    lit_chars_98();
    lit_chars_97();
    lit_chars_94();
    lit_chars_96();
    lit_chars_95();
    lit_chars_33();
    lit_chars_36();
    lit_chars_20();
    lit_chars_44();
    lit_chars_25();
    lit_chars_31();
    lit_chars_4();
    lit_chars_22();
    lit_chars_24();
    lit_chars_29();
    lit_chars_18();
    lit_chars_19();
    lit_chars_23();
    lit_chars_39();
    lit_chars_21();
    lit_chars_26();
    lit_chars_27();
    lit_chars_28();
    lit_chars_5();
    lit_chars_99();
    lit_chars_100();
    lemma_target_flag_none(m, "--stats-every"@, Some(v));
    lemma_host_discovery_flag_none(m, "--stats-every"@, Some(v));
    lemma_technique_flag_none(m, "--stats-every"@, Some(v));
    lemma_ports_flag_none(m, "--stats-every"@, Some(v));
    lemma_service_flag_none(m, "--stats-every"@, Some(v));
    lemma_script_flag_none(m, "--stats-every"@, Some(v));
    lemma_os_flag_none(m, "--stats-every"@, Some(v));
    lemma_timing_flag_none(m, "--stats-every"@, Some(v));
    lemma_evasion_flag_none(m, "--stats-every"@, Some(v));
}

pub proof fn lemma_flag_output_packet_trace(m: NmapScanV, next: Option<Seq<char>>)
    ensures
        spec_dispatch(m, "--packet-trace"@, next) == FlagOutcome::Ok0(NmapScanV { output: OutputOptionsV { packet_trace: true, ..m.output }, ..m }),
{
    reveal(spec_dispatch);
    reveal(spec_output_flag);
    lit_chars_93();
    lit_chars_108();
    lit_chars_92();
    lit_chars_85();
    lit_chars_87();
    lit_chars_86();
    lit_chars_76();
    lit_chars_75();
    lit_chars_16();
    lit_chars_2();
    lit_chars_3();
    lit_chars_34();
    lit_chars_69();
    lit_chars_107();
    lit_chars_67();
    lit_chars_88();
    lit_chars_62();
    lit_chars_54();
    lit_chars_64();
    lit_chars_74();
    lit_chars_68();
    lit_chars_66();
    lit_chars_72();
    lit_chars_61();
    lit_chars_63();
    lit_chars_73();
    lit_chars_65();
    lit_chars_79();
    lit_chars_112();
    lit_chars_77();
    lit_chars_106();
    lit_chars_53();
    lit_chars_52();
    lit_chars_105();
    lit_chars_38();
    lit_chars_90();
    lit_chars_103();
    lit_chars_109();
    lit_chars_71();
    lit_chars_30();
    lit_chars_45();
    lit_chars_46();
    lit_chars_47();
    lit_chars_50();
    lit_chars_70();
    lit_chars_48();
    lit_chars_49();
    lit_chars_84();
    lit_chars_91();
    lit_chars_104();
    lit_chars_110();
    lit_chars_17();
    lit_chars_37();
    lit_chars_15();
    lit_chars_89();
    lit_chars_42();
    lit_chars_40();
    lit_chars_41();
    lit_chars_43();
    lit_chars_111();
    lit_chars_80();
    lit_chars_35();
    lit_chars_51();
    lit_chars_8();
    lit_chars_11();
    lit_chars_13();
    lit_chars_14();
    lit_chars_12();
    lit_chars_7();
    lit_chars_9();
    lit_chars_10();
    lit_chars_6();
    lit_chars_81();
    lit_chars_55();
    lit_chars_56();
    lit_chars_57();
    lit_chars_58();
    lit_chars_59();
    lit_chars_60();
    lit_chars_32();
    lit_chars_101();
    lit_chars_102();
    lit_chars_82();
    lit_chars_78();
    lit_chars_83();
    lit_chars_0();
    lit_chars_1();
    lit_chars_98();
    lit_chars_97();
    lit_chars_94();
    lit_chars_96();
    lit_chars_95();
    lit_chars_33();
    lit_chars_36();
    lit_chars_20();
    lit_chars_44();
    lit_chars_25();
    lit_chars_31();
    lit_chars_4();
    lit_chars_22();
    lit_chars_24();
    lit_chars_29();
    lit_chars_18();
    lit_chars_19();
    lit_chars_23();
    lit_chars_39();
    lit_chars_21();
    lit_chars_26();
    lit_chars_27();
    lit_chars_28();
    lit_chars_5();
    lit_chars_99();
    lit_chars_100();
    lemma_target_flag_none(m, "--packet-trace"@, next);
    lemma_host_discovery_flag_none(m, "--packet-trace"@, next);
    lemma_technique_flag_none(m, "--packet-trace"@, next);
    lemma_ports_flag_none(m, "--packet-trace"@, next);
    lemma_service_flag_none(m, "--packet-trace"@, next);
    lemma_script_flag_none(m, "--packet-trace"@, next);
    lemma_os_flag_none(m, "--packet-trace"@, next);
    lemma_timing_flag_none(m, "--packet-trace"@, next);
    lemma_evasion_flag_none(m, "--packet-trace"@, next);
}

pub proof fn lemma_flag_output_open_only(m: NmapScanV, next: Option<Seq<char>>)
    ensures
        spec_dispatch(m, "--open"@, next) == FlagOutcome::Ok0(NmapScanV { output: OutputOptionsV { open_only: true, ..m.output }, ..m }),
{
    reveal(spec_dispatch);
    reveal(spec_output_flag);
    lit_chars_93();
    lit_chars_108();
    lit_chars_92();
    lit_chars_85();
    lit_chars_87();
    lit_chars_86();
    lit_chars_76();
    lit_chars_75();
    lit_chars_16();
    lit_chars_2();
    lit_chars_3();
    lit_chars_34();
    lit_chars_69();
    lit_chars_107();
    lit_chars_67();
    lit_chars_88();
    lit_chars_62();
    lit_chars_54();
    lit_chars_64();
    lit_chars_74();
    lit_chars_68();
    lit_chars_66();
    lit_chars_72();
    lit_chars_61();
    lit_chars_63();
    lit_chars_73();
    lit_chars_65();
    lit_chars_79();
    lit_chars_112();
    lit_chars_77();
    lit_chars_106();
    lit_chars_53();
    lit_chars_52();
    lit_chars_105();
    lit_chars_38();
    lit_chars_90();
    lit_chars_103();
    lit_chars_109();
    lit_chars_71();
    lit_chars_30();
    lit_chars_45();
    lit_chars_46();
    lit_chars_47();
    lit_chars_50();
    lit_chars_70();
    lit_chars_48();
    lit_chars_49();
    lit_chars_84();
    lit_chars_91();
    lit_chars_104();
    lit_chars_110();
    lit_chars_17();
    lit_chars_37();
    lit_chars_15();
    lit_chars_89();
    lit_chars_42();
    lit_chars_40();
    lit_chars_41();
    lit_chars_43();
    lit_chars_111();
    lit_chars_80();
    lit_chars_35();
    lit_chars_51();
    lit_chars_8();
    lit_chars_11();
    lit_chars_13();
    lit_chars_14();
    lit_chars_12();
    lit_chars_7();
    lit_chars_9();
    lit_chars_10();
    lit_chars_6();
    lit_chars_81();
    lit_chars_55();
    lit_chars_56();
    lit_chars_57();
    lit_chars_58();
    lit_chars_59();
    lit_chars_60();
    lit_chars_32();
    lit_chars_101();
    lit_chars_102();
    lit_chars_82();
    lit_chars_78();
    lit_chars_83();
    lit_chars_0();
    lit_chars_1();
    lit_chars_98();
    lit_chars_97();
    lit_chars_94();
    lit_chars_96();
    lit_chars_95();
    lit_chars_33();
    lit_chars_36();
    lit_chars_20();
    lit_chars_44();
    lit_chars_25();
    lit_chars_31();
    lit_chars_4();
    lit_chars_22();
    lit_chars_24();
    lit_chars_29();
    lit_chars_18();
    lit_chars_19();
    lit_chars_23();
    lit_chars_39();
    lit_chars_21();
    lit_chars_26();
    lit_chars_27();
    lit_chars_28();
    lit_chars_5();
    lit_chars_99();
    lit_chars_100();
    lemma_target_flag_none(m, "--open"@, next);
    lemma_host_discovery_flag_none(m, "--open"@, next);
    lemma_technique_flag_none(m, "--open"@, next);
    lemma_ports_flag_none(m, "--open"@, next);
    lemma_service_flag_none(m, "--open"@, next);
    lemma_script_flag_none(m, "--open"@, next);
    lemma_os_flag_none(m, "--open"@, next);
    lemma_timing_flag_none(m, "--open"@, next);
    lemma_evasion_flag_none(m, "--open"@, next);
}

pub proof fn lemma_flag_output_iflist(m: NmapScanV, next: Option<Seq<char>>)
    ensures
        spec_dispatch(m, "--iflist"@, next) == FlagOutcome::Ok0(NmapScanV { output: OutputOptionsV { iflist: true, ..m.output }, ..m }),
{
    reveal(spec_dispatch);
    reveal(spec_output_flag);
    lit_chars_93();
    lit_chars_108();
    lit_chars_92();
    lit_chars_85();
    lit_chars_87();
    lit_chars_86();
    lit_chars_76();
    lit_chars_75();
    lit_chars_16();
    lit_chars_2();
    lit_chars_3();
    lit_chars_34();
    lit_chars_69();
    lit_chars_107();
    lit_chars_67();
    lit_chars_88();
    lit_chars_62();
    lit_chars_54();
    lit_chars_64();
    lit_chars_74();
    lit_chars_68();
    lit_chars_66();
    lit_chars_72();
    lit_chars_61();
    lit_chars_63();
    lit_chars_73();
    lit_chars_65();
    lit_chars_79();
    lit_chars_112();
    lit_chars_77();
    lit_chars_106();
    lit_chars_53();
    lit_chars_52();
    lit_chars_105();
    lit_chars_38();
    lit_chars_90();
    lit_chars_103();
    lit_chars_109();
    lit_chars_71();
    lit_chars_30();
    lit_chars_45();
    lit_chars_46();
    lit_chars_47();
    lit_chars_50();
    lit_chars_70();
    lit_chars_48();
    lit_chars_49();
    lit_chars_84();
    lit_chars_91();
    lit_chars_104();
    lit_chars_110();
    lit_chars_17();
    lit_chars_37();
    lit_chars_15();
    lit_chars_89();
    lit_chars_42();
    lit_chars_40();
    lit_chars_41();
    lit_chars_43();
    lit_chars_111();
    lit_chars_80();
    lit_chars_35();
    lit_chars_51();
    lit_chars_8();
    lit_chars_11();
    lit_chars_13();
    lit_chars_14();
    lit_chars_12();
    lit_chars_7();
    lit_chars_9();
    lit_chars_10();
    lit_chars_6();
    lit_chars_81();
    lit_chars_55();
    lit_chars_56();
    lit_chars_57();
    lit_chars_58();
    lit_chars_59();
    lit_chars_60();
    lit_chars_32();
    lit_chars_101();
    lit_chars_102();
    lit_chars_82();
    lit_chars_78();
    lit_chars_83();
    lit_chars_0();
    lit_chars_1();
    lit_chars_98();
    lit_chars_97();
    lit_chars_94();
    lit_chars_96();
    lit_chars_95();
    lit_chars_33();
    lit_chars_36();
    lit_chars_20();
    lit_chars_44();
    lit_chars_25();
    lit_chars_31();
    lit_chars_4();
    lit_chars_22();
    lit_chars_24();
    lit_chars_29();
    lit_chars_18();
    lit_chars_19();
    lit_chars_23();
    lit_chars_39();
    lit_chars_21();
    lit_chars_26();
    lit_chars_27();
    lit_chars_28();
    lit_chars_5();
    lit_chars_99();
    lit_chars_100();
    lemma_target_flag_none(m, "--iflist"@, next);
    lemma_host_discovery_flag_none(m, "--iflist"@, next);
    lemma_technique_flag_none(m, "--iflist"@, next);
    lemma_ports_flag_none(m, "--iflist"@, next);
    lemma_service_flag_none(m, "--iflist"@, next);
    lemma_script_flag_none(m, "--iflist"@, next);
    lemma_os_flag_none(m, "--iflist"@, next);
    lemma_timing_flag_none(m, "--iflist"@, next);
    lemma_evasion_flag_none(m, "--iflist"@, next);
}

pub proof fn lemma_flag_output_append_output(m: NmapScanV, next: Option<Seq<char>>)
    ensures
        spec_dispatch(m, "--append-output"@, next) == FlagOutcome::Ok0(NmapScanV { output: OutputOptionsV { append_output: true, ..m.output }, ..m }),
{
    reveal(spec_dispatch);
    reveal(spec_output_flag);
    lit_chars_93();
    lit_chars_108();
    lit_chars_92();
    lit_chars_85();
    lit_chars_87();
    lit_chars_86();
    lit_chars_76();
    lit_chars_75();
    lit_chars_16();
    lit_chars_2();
    lit_chars_3();
    lit_chars_34();
    lit_chars_69();
    lit_chars_107();
    lit_chars_67();
    lit_chars_88();
    lit_chars_62();
    lit_chars_54();
    lit_chars_64();
    lit_chars_74();
    lit_chars_68();
    lit_chars_66();
    lit_chars_72();
    lit_chars_61();
    lit_chars_63();
    lit_chars_73();
    lit_chars_65();
    lit_chars_79();
    lit_chars_112();
    lit_chars_77();
    lit_chars_106();
    lit_chars_53();
    lit_chars_52();
    lit_chars_105();
    lit_chars_38();
    lit_chars_90();
    lit_chars_103();
    lit_chars_109();
    lit_chars_71();
    lit_chars_30();
    lit_chars_45();
    lit_chars_46();
    lit_chars_47();
    lit_chars_50();
    lit_chars_70();
    lit_chars_48();
    lit_chars_49();
    lit_chars_84();
    lit_chars_91();
    lit_chars_104();
    lit_chars_110();
    lit_chars_17();
    lit_chars_37();
    lit_chars_15();
    lit_chars_89();
    lit_chars_42();
    lit_chars_40();
    lit_chars_41();
    lit_chars_43();
    lit_chars_111();
    lit_chars_80();
    lit_chars_35();
    lit_chars_51();
    lit_chars_8();
    lit_chars_11();
    lit_chars_13();
    lit_chars_14();
    lit_chars_12();
    lit_chars_7();
    lit_chars_9();
    lit_chars_10();
    lit_chars_6();
    lit_chars_81();
    lit_chars_55();
    lit_chars_56();
    lit_chars_57();
    lit_chars_58();
    lit_chars_59();
    lit_chars_60();
    lit_chars_32();
    lit_chars_101();
    lit_chars_102();
    lit_chars_82();
    lit_chars_78();
    lit_chars_83();
    lit_chars_0();
    lit_chars_1();
    lit_chars_98();
    lit_chars_97();
    lit_chars_94();
    lit_chars_96();
    lit_chars_95();
    lit_chars_33();
    lit_chars_36();
    lit_chars_20();
    lit_chars_44();
    lit_chars_25();
    lit_chars_31();
    lit_chars_4();
    lit_chars_22();
    lit_chars_24();
    lit_chars_29();
    lit_chars_18();
    lit_chars_19();
    lit_chars_23();
    lit_chars_39();
    lit_chars_21();
    lit_chars_26();
    lit_chars_27();
    lit_chars_28();
    lit_chars_5();
    lit_chars_99();
    lit_chars_100();
    lemma_target_flag_none(m, "--append-output"@, next);
    lemma_host_discovery_flag_none(m, "--append-output"@, next);
    lemma_technique_flag_none(m, "--append-output"@, next);
    lemma_ports_flag_none(m, "--append-output"@, next);
    lemma_service_flag_none(m, "--append-output"@, next);
    lemma_script_flag_none(m, "--append-output"@, next);
    lemma_os_flag_none(m, "--append-output"@, next);
    lemma_timing_flag_none(m, "--append-output"@, next);
    lemma_evasion_flag_none(m, "--append-output"@, next);
}

pub proof fn lemma_flag_output_resume(m: NmapScanV, v: Seq<char>)
    ensures
        spec_dispatch(m, "--resume"@, Some(v)) == FlagOutcome::Ok1(NmapScanV { output: OutputOptionsV { resume: Some(v), ..m.output }, ..m }),
{
    reveal(spec_dispatch);
    reveal(spec_output_flag);
    lit_chars_93();
    lit_chars_108();
    lit_chars_92();
    lit_chars_85();
    lit_chars_87();
    lit_chars_86();
    lit_chars_76();
    lit_chars_75();
    lit_chars_16();
    lit_chars_2();
    lit_chars_3();
    lit_chars_34();
    lit_chars_69();
    lit_chars_107();
    lit_chars_67();
    lit_chars_88();
    lit_chars_62();
    lit_chars_54();
    lit_chars_64();
    lit_chars_74();
    lit_chars_68();
    lit_chars_66();
    lit_chars_72();
    lit_chars_61();
    lit_chars_63();
    lit_chars_73();
    lit_chars_65();
    lit_chars_79();
    lit_chars_112();
    lit_chars_77();
    lit_chars_106();
    lit_chars_53();
    lit_chars_52();
    lit_chars_105();
    lit_chars_38();
    lit_chars_90();
    lit_chars_103();
    lit_chars_109();
    lit_chars_71();
    lit_chars_30();
    lit_chars_45();
    lit_chars_46();
    lit_chars_47();
    lit_chars_50();
    lit_chars_70();
    lit_chars_48();
    lit_chars_49();
    lit_chars_84();
    lit_chars_91();
    lit_chars_104();
    lit_chars_110();
    lit_chars_17();
    lit_chars_37();
    lit_chars_15();
    lit_chars_89();
    lit_chars_42();
    lit_chars_40();
    lit_chars_41();
    lit_chars_43();
    lit_chars_111();
    lit_chars_80();
    lit_chars_35();
    lit_chars_51();
    lit_chars_8();
    lit_chars_11();
    lit_chars_13();
    lit_chars_14();
    lit_chars_12();
    lit_chars_7();
    lit_chars_9();
    lit_chars_10();
    lit_chars_6();
    lit_chars_81();
    lit_chars_55();
    lit_chars_56();
    lit_chars_57();
    lit_chars_58();
    lit_chars_59();
    lit_chars_60();
    lit_chars_32();
    lit_chars_101();
    lit_chars_102();
    lit_chars_82();
    lit_chars_78();
    lit_chars_83();
    lit_chars_0();
    lit_chars_1();
    lit_chars_98();
    lit_chars_97();
    lit_chars_94();
    lit_chars_96();
    lit_chars_95();
    lit_chars_33();
    lit_chars_36();
    lit_chars_20();
    lit_chars_44();
    lit_chars_25();
    lit_chars_31();
    lit_chars_4();
    lit_chars_22();
    lit_chars_24();
    lit_chars_29();
    lit_chars_18();
    lit_chars_19();
    lit_chars_23();
    lit_chars_39();
    lit_chars_21();
    lit_chars_26();
    lit_chars_27();
    lit_chars_28();
    lit_chars_5();
    lit_chars_99();
    lit_chars_100();
    lemma_target_flag_none(m, "--resume"@, Some(v));
    lemma_host_discovery_flag_none(m, "--resume"@, Some(v));
    lemma_technique_flag_none(m, "--resume"@, Some(v));
    lemma_ports_flag_none(m, "--resume"@, Some(v));
    lemma_service_flag_none(m, "--resume"@, Some(v));
    lemma_script_flag_none(m, "--resume"@, Some(v));
    lemma_os_flag_none(m, "--resume"@, Some(v));
    lemma_timing_flag_none(m, "--resume"@, Some(v));
    lemma_evasion_flag_none(m, "--resume"@, Some(v));
}

pub proof fn lemma_flag_output_stylesheet(m: NmapScanV, v: Seq<char>)
    ensures
        spec_dispatch(m, "--stylesheet"@, Some(v)) == FlagOutcome::Ok1(NmapScanV { output: OutputOptionsV { stylesheet: Some(v), ..m.output }, ..m }),
{
    reveal(spec_dispatch);
    reveal(spec_output_flag);
    lit_chars_93();
    lit_chars_108();
    lit_chars_92();
    lit_chars_85();
    lit_chars_87();
    lit_chars_86();
    lit_chars_76();
    lit_chars_75();
    lit_chars_16();
    lit_chars_2();
    lit_chars_3();
    lit_chars_34();
    lit_chars_69();
    lit_chars_107();
    lit_chars_67();
    lit_chars_88();
    lit_chars_62();
    lit_chars_54();
    lit_chars_64();
    lit_chars_74();
    lit_chars_68();
    lit_chars_66();
    lit_chars_72();
    lit_chars_61();
    lit_chars_63();
    lit_chars_73();
    lit_chars_65();
    lit_chars_79();
    lit_chars_112();
    lit_chars_77();
    lit_chars_106();
    lit_chars_53();
    lit_chars_52();
    lit_chars_105();
    lit_chars_38();
    lit_chars_90();
    lit_chars_103();
    lit_chars_109();
    lit_chars_71();
    lit_chars_30();
    lit_chars_45();
    lit_chars_46();
    lit_chars_47();
    lit_chars_50();
    lit_chars_70();
    lit_chars_48();
    lit_chars_49();
    lit_chars_84();
    lit_chars_91();
    lit_chars_104();
    lit_chars_110();
    lit_chars_17();
    lit_chars_37();
    lit_chars_15();
    lit_chars_89();
    lit_chars_42();
    lit_chars_40();
    lit_chars_41();
    lit_chars_43();
    lit_chars_111();
    lit_chars_80();
    lit_chars_35();
    lit_chars_51();
    lit_chars_8();
    lit_chars_11();
    lit_chars_13();
    lit_chars_14();
    lit_chars_12();
    lit_chars_7();
    lit_chars_9();
    lit_chars_10();
    lit_chars_6();
    lit_chars_81();
    lit_chars_55();
    lit_chars_56();
    lit_chars_57();
    lit_chars_58();
    lit_chars_59();
    lit_chars_60();
    lit_chars_32();
    lit_chars_101();
    lit_chars_102();
    lit_chars_82();
    lit_chars_78();
    lit_chars_83();
    lit_chars_0();
    lit_chars_1();
    lit_chars_98();
    lit_chars_97();
    lit_chars_94();
    lit_chars_96();
    lit_chars_95();
    lit_chars_33();
    lit_chars_36();
    lit_chars_20();
    lit_chars_44();
    lit_chars_25();
    lit_chars_31();
    lit_chars_4();
    lit_chars_22();
    lit_chars_24();
    lit_chars_29();
    lit_chars_18();
    lit_chars_19();
    lit_chars_23();
    lit_chars_39();
    lit_chars_21();
    lit_chars_26();
    lit_chars_27();
    lit_chars_28();
    lit_chars_5();
    lit_chars_99();
    lit_chars_100();
    lemma_target_flag_none(m, "--stylesheet"@, Some(v));
    lemma_host_discovery_flag_none(m, "--stylesheet"@, Some(v));
    lemma_technique_flag_none(m, "--stylesheet"@, Some(v));
    lemma_ports_flag_none(m, "--stylesheet"@, Some(v));
    lemma_service_flag_none(m, "--stylesheet"@, Some(v));
    lemma_script_flag_none(m, "--stylesheet"@, Some(v));
    lemma_os_flag_none(m, "--stylesheet"@, Some(v));
    lemma_timing_flag_none(m, "--stylesheet"@, Some(v));
    lemma_evasion_flag_none(m, "--stylesheet"@, Some(v));
}

pub proof fn lemma_flag_output_webxml(m: NmapScanV, next: Option<Seq<char>>)
    ensures
        spec_dispatch(m, "--webxml"@, next) == FlagOutcome::Ok0(NmapScanV { output: OutputOptionsV { webxml: true, ..m.output }, ..m }),
{
    reveal(spec_dispatch);
    reveal(spec_output_flag);
    lit_chars_93();
    lit_chars_108();
    lit_chars_92();
    lit_chars_85();
    lit_chars_87();
    lit_chars_86();
    lit_chars_76();
    lit_chars_75();
    lit_chars_16();
    lit_chars_2();
    lit_chars_3();
    lit_chars_34();
    lit_chars_69();
    lit_chars_107();
    lit_chars_67();
    lit_chars_88();
    lit_chars_62();
    lit_chars_54();
    lit_chars_64();
    lit_chars_74();
    lit_chars_68();
    lit_chars_66();
    lit_chars_72();
    lit_chars_61();
    lit_chars_63();
    lit_chars_73();
    lit_chars_65();
    lit_chars_79();
    lit_chars_112();
    lit_chars_77();
    lit_chars_106();
    lit_chars_53();
    lit_chars_52();
    lit_chars_105();
    lit_chars_38();
    lit_chars_90();
    lit_chars_103();
    lit_chars_109();
    lit_chars_71();
    lit_chars_30();
    lit_chars_45();
    lit_chars_46();
    lit_chars_47();
    lit_chars_50();
    lit_chars_70();
    lit_chars_48();
    lit_chars_49();
    lit_chars_84();
    lit_chars_91();
    lit_chars_104();
    lit_chars_110();
    lit_chars_17();
    lit_chars_37();
    lit_chars_15();
    lit_chars_89();
    lit_chars_42();
    lit_chars_40();
    lit_chars_41();
    lit_chars_43();
    lit_chars_111();
    lit_chars_80();
    lit_chars_35();
    lit_chars_51();
    lit_chars_8();
    lit_chars_11();
    lit_chars_13();
    lit_chars_14();
    lit_chars_12();
    lit_chars_7();
    lit_chars_9();
    lit_chars_10();
    lit_chars_6();
    lit_chars_81();
    lit_chars_55();
    lit_chars_56();
    lit_chars_57();
    lit_chars_58();
    lit_chars_59();
    lit_chars_60();
    lit_chars_32();
    lit_chars_101();
    lit_chars_102();
    lit_chars_82();
    lit_chars_78();
    lit_chars_83();
    lit_chars_0();
    lit_chars_1();
    lit_chars_98();
    lit_chars_97();
    lit_chars_94();
    lit_chars_96();
    lit_chars_95();
    lit_chars_33();
    lit_chars_36();
    lit_chars_20();
    lit_chars_44();
    lit_chars_25();
    lit_chars_31();
    lit_chars_4();
    lit_chars_22();
    lit_chars_24();
    lit_chars_29();
    lit_chars_18();
    lit_chars_19();
    lit_chars_23();
    lit_chars_39();
    lit_chars_21();
    lit_chars_26();
    lit_chars_27();
    lit_chars_28();
    lit_chars_5();
    lit_chars_99();
    lit_chars_100();
    lemma_target_flag_none(m, "--webxml"@, next);
    lemma_host_discovery_flag_none(m, "--webxml"@, next);
    lemma_technique_flag_none(m, "--webxml"@, next);
    lemma_ports_flag_none(m, "--webxml"@, next);
    lemma_service_flag_none(m, "--webxml"@, next);
    lemma_script_flag_none(m, "--webxml"@, next);
    lemma_os_flag_none(m, "--webxml"@, next);
    lemma_timing_flag_none(m, "--webxml"@, next);
    lemma_evasion_flag_none(m, "--webxml"@, next);
}

pub proof fn lemma_flag_output_no_stylesheet(m: NmapScanV, next: Option<Seq<char>>)
    ensures
        spec_dispatch(m, "--no-stylesheet"@, next) == FlagOutcome::Ok0(NmapScanV { output: OutputOptionsV { no_stylesheet: true, ..m.output }, ..m }),
{
    reveal(spec_dispatch);
    reveal(spec_output_flag);
    lit_chars_93();
    lit_chars_108();
    lit_chars_92();
    lit_chars_85();
    lit_chars_87();
    lit_chars_86();
    lit_chars_76();
    lit_chars_75();
    lit_chars_16();
    lit_chars_2();
    lit_chars_3();
    lit_chars_34();
    lit_chars_69();
    lit_chars_107();
    lit_chars_67();
    lit_chars_88();
    lit_chars_62();
    lit_chars_54();
    lit_chars_64();
    lit_chars_74();
    lit_chars_68();
    lit_chars_66();
    lit_chars_72();
    lit_chars_61();
    lit_chars_63();
    lit_chars_73();
    lit_chars_65();
    lit_chars_79();
    lit_chars_112();
    lit_chars_77();
    lit_chars_106();
    lit_chars_53();
    lit_chars_52();
    lit_chars_105();
    lit_chars_38();
    lit_chars_90();
    lit_chars_103();
    lit_chars_109();
    lit_chars_71();
    lit_chars_30();
    lit_chars_45();
    lit_chars_46();
    lit_chars_47();
    lit_chars_50();
    lit_chars_70();
    lit_chars_48();
    lit_chars_49();
    lit_chars_84();
    lit_chars_91();
    lit_chars_104();
    lit_chars_110();
    lit_chars_17();
    lit_chars_37();
    lit_chars_15();
    lit_chars_89();
    lit_chars_42();
    lit_chars_40();
    lit_chars_41();
    lit_chars_43();
    lit_chars_111();
    lit_chars_80();
    lit_chars_35();
    lit_chars_51();
    lit_chars_8();
    lit_chars_11();
    lit_chars_13();
    lit_chars_14();
    lit_chars_12();
    lit_chars_7();
    lit_chars_9();
    lit_chars_10();
    lit_chars_6();
    lit_chars_81();
    lit_chars_55();
    lit_chars_56();
    lit_chars_57();
    lit_chars_58();
    lit_chars_59();
    lit_chars_60();
    lit_chars_32();
    lit_chars_101();
    lit_chars_102();
    lit_chars_82();
    lit_chars_78();
    lit_chars_83();
    lit_chars_0();
    lit_chars_1();
    lit_chars_98();
    lit_chars_97();
    lit_chars_94();
    lit_chars_96();
    lit_chars_95();
    lit_chars_33();
    lit_chars_36();
    lit_chars_20();
    lit_chars_44();
    lit_chars_25();
    lit_chars_31();
    lit_chars_4();
    lit_chars_22();
    lit_chars_24();
    lit_chars_29();
    lit_chars_18();
    lit_chars_19();
    lit_chars_23();
    lit_chars_39();
    lit_chars_21();
    lit_chars_26();
    lit_chars_27();
    lit_chars_28();
    lit_chars_5();
    lit_chars_99();
    lit_chars_100();
    lemma_target_flag_none(m, "--no-stylesheet"@, next);
    lemma_host_discovery_flag_none(m, "--no-stylesheet"@, next);
    lemma_technique_flag_none(m, "--no-stylesheet"@, next);
    lemma_ports_flag_none(m, "--no-stylesheet"@, next);
    lemma_service_flag_none(m, "--no-stylesheet"@, next);
    lemma_script_flag_none(m, "--no-stylesheet"@, next);
    lemma_os_flag_none(m, "--no-stylesheet"@, next);
    lemma_timing_flag_none(m, "--no-stylesheet"@, next);
    lemma_evasion_flag_none(m, "--no-stylesheet"@, next);
}

pub proof fn lemma_flag_misc_ipv6(m: NmapScanV, next: Option<Seq<char>>)
    ensures
        spec_dispatch(m, "-6"@, next) == FlagOutcome::Ok0(NmapScanV { misc: MiscOptionsV { ipv6: true, ..m.misc }, ..m }),
{
    reveal(spec_dispatch);
    reveal(spec_misc_flag);
    lit_chars_93();
    lit_chars_108();
    lit_chars_92();
    lit_chars_85();
    lit_chars_87();
    lit_chars_86();
    lit_chars_115();
    lit_chars_76();
    lit_chars_75();
    lit_chars_16();
    lit_chars_2();
    lit_chars_3();
    lit_chars_34();
    lit_chars_124();
    lit_chars_69();
    lit_chars_107();
    lit_chars_67();
    lit_chars_88();
    lit_chars_128();
    lit_chars_62();
    lit_chars_54();
    lit_chars_64();
    lit_chars_74();
    lit_chars_68();
    lit_chars_66();
    lit_chars_72();
    lit_chars_61();
    lit_chars_63();
    lit_chars_73();
    lit_chars_65();
    lit_chars_79();
    lit_chars_112();
    lit_chars_77();
    lit_chars_106();
    lit_chars_53();
    lit_chars_52();
    lit_chars_105();
    lit_chars_38();
    lit_chars_118();
    lit_chars_90();
    lit_chars_103();
    lit_chars_120();
    lit_chars_109();
    lit_chars_71();
    lit_chars_30();
    lit_chars_45();
    lit_chars_46();
    lit_chars_47();
    lit_chars_50();
    lit_chars_70();
    lit_chars_48();
    lit_chars_49();
    lit_chars_116();
    lit_chars_117();
    lit_chars_84();
    lit_chars_91();
    lit_chars_104();
    lit_chars_110();
    lit_chars_17();
    lit_chars_37();
    lit_chars_15();
    lit_chars_89();
    lit_chars_127();
    lit_chars_119();
    lit_chars_122();
    lit_chars_42();
    lit_chars_40();
    lit_chars_41();
    lit_chars_43();
    lit_chars_111();
    lit_chars_113();
    lit_chars_114();
    lit_chars_80();
    lit_chars_35();
    lit_chars_51();
    lit_chars_8();
    lit_chars_11();
    lit_chars_13();
    lit_chars_14();
    lit_chars_12();
    lit_chars_7();
    lit_chars_9();
    lit_chars_10();
    lit_chars_6();
    lit_chars_125();
    lit_chars_81();
    lit_chars_55();
    lit_chars_56();
    lit_chars_57();
    lit_chars_58();
    lit_chars_59();
    lit_chars_60();
    lit_chars_121();
    lit_chars_32();
    lit_chars_101();
    lit_chars_102();
    lit_chars_82();
    lit_chars_78();
    lit_chars_83();
    lit_chars_123();
    lit_chars_0();
    lit_chars_1();
    lit_chars_126();
    lit_chars_98();
    lit_chars_97();
    lit_chars_94();
    lit_chars_96();
    lit_chars_95();
    lit_chars_33();
    lit_chars_36();
    lit_chars_20();
    lit_chars_44();
    lit_chars_25();
    lit_chars_31();
    lit_chars_4();
    lit_chars_22();
    lit_chars_24();
    lit_chars_29();
    lit_chars_18();
    lit_chars_19();
    lit_chars_23();
    lit_chars_39();
    lit_chars_21();
    lit_chars_26();
    lit_chars_27();
    lit_chars_28();
    lit_chars_5();
    lit_chars_99();
    lit_chars_100();
    lemma_target_flag_none(m, "-6"@, next);
    lemma_host_discovery_flag_none(m, "-6"@, next);
    lemma_technique_flag_none(m, "-6"@, next);
    lemma_ports_flag_none(m, "-6"@, next);
    lemma_service_flag_none(m, "-6"@, next);
    lemma_script_flag_none(m, "-6"@, next);
    lemma_os_flag_none(m, "-6"@, next);
    lemma_timing_flag_none(m, "-6"@, next);
    lemma_evasion_flag_none(m, "-6"@, next);
    lemma_output_flag_none(m, "-6"@, next);
}

pub proof fn lemma_flag_misc_aggressive(m: NmapScanV, next: Option<Seq<char>>)
    ensures
        spec_dispatch(m, "-A"@, next) == FlagOutcome::Ok0(NmapScanV { misc: MiscOptionsV { aggressive: true, ..m.misc }, ..m }),
{
    reveal(spec_dispatch);
    reveal(spec_misc_flag);
    lit_chars_93();
    lit_chars_108();
    lit_chars_92();
    lit_chars_85();
    lit_chars_87();
    lit_chars_86();
    lit_chars_115();
    lit_chars_76();
    lit_chars_75();
    lit_chars_16();
    lit_chars_2();
    lit_chars_3();
    lit_chars_34();
    lit_chars_124();
    lit_chars_69();
    lit_chars_107();
    lit_chars_67();
    lit_chars_88();
    lit_chars_128();
    lit_chars_62();
    lit_chars_54();
    lit_chars_64();
    lit_chars_74();
    lit_chars_68();
    lit_chars_66();
    lit_chars_72();
    lit_chars_61();
    lit_chars_63();
    lit_chars_73();
    lit_chars_65();
    lit_chars_79();
    lit_chars_112();
    lit_chars_77();
    lit_chars_106();
    lit_chars_53();
    lit_chars_52();
    lit_chars_105();
    lit_chars_38();
    lit_chars_118();
    lit_chars_90();
    lit_chars_103();
    lit_chars_120();
    lit_chars_109();
    lit_chars_71();
    lit_chars_30();
    lit_chars_45();
    lit_chars_46();
    lit_chars_47();
    lit_chars_50();
    lit_chars_70();
    lit_chars_48();
    lit_chars_49();
    lit_chars_116();
    lit_chars_117();
    lit_chars_84();
    lit_chars_91();
    lit_chars_104();
    lit_chars_110();
    lit_chars_17();
    lit_chars_37();
    lit_chars_15();
    lit_chars_89();
    lit_chars_127();
    lit_chars_119();
    lit_chars_122();
    lit_chars_42();
    lit_chars_40();
    lit_chars_41();
    lit_chars_43();
    lit_chars_111();
    lit_chars_113();
    lit_chars_114();
    lit_chars_80();
    lit_chars_35();
    lit_chars_51();
    lit_chars_8();
    lit_chars_11();
    lit_chars_13();
    lit_chars_14();
    lit_chars_12();
    lit_chars_7();
    lit_chars_9();
    lit_chars_10();
    lit_chars_6();
    lit_chars_125();
    lit_chars_81();
    lit_chars_55();
    lit_chars_56();
    lit_chars_57();
    lit_chars_58();
    lit_chars_59();
    lit_chars_60();
    lit_chars_121();
    lit_chars_32();
    lit_chars_101();
    lit_chars_102();
    lit_chars_82();
    lit_chars_78();
    lit_chars_83();
    lit_chars_123();
    lit_chars_0();
    lit_chars_1();
    lit_chars_126();
    lit_chars_98();
    lit_chars_97();
    lit_chars_94();
    lit_chars_96();
    lit_chars_95();
    lit_chars_33();
    lit_chars_36();
    lit_chars_20();
    lit_chars_44();
    lit_chars_25();
    lit_chars_31();
    lit_chars_4();
    lit_chars_22();
    lit_chars_24();
    lit_chars_29();
    lit_chars_18();
    lit_chars_19();
    lit_chars_23();
    lit_chars_39();
    lit_chars_21();
    lit_chars_26();
    lit_chars_27();
    lit_chars_28();
    lit_chars_5();
    lit_chars_99();
    lit_chars_100();
    lemma_target_flag_none(m, "-A"@, next);
    lemma_host_discovery_flag_none(m, "-A"@, next);
    lemma_technique_flag_none(m, "-A"@, next);
    lemma_ports_flag_none(m, "-A"@, next);
    lemma_service_flag_none(m, "-A"@, next);
    lemma_script_flag_none(m, "-A"@, next);
    lemma_os_flag_none(m, "-A"@, next);
    lemma_timing_flag_none(m, "-A"@, next);
    lemma_evasion_flag_none(m, "-A"@, next);
    lemma_output_flag_none(m, "-A"@, next);
}

pub proof fn lemma_flag_misc_datadir(m: NmapScanV, v: Seq<char>)
    ensures
        spec_dispatch(m, "--datadir"@, Some(v)) == FlagOutcome::Ok1(NmapScanV { misc: MiscOptionsV { datadir: Some(v), ..m.misc }, ..m }),
{
    reveal(spec_dispatch);
    reveal(spec_misc_flag);
    lit_chars_93();
    lit_chars_108();
    lit_chars_92();
    lit_chars_85();
    lit_chars_87();
    lit_chars_86();
    lit_chars_115();
    lit_chars_76();
    lit_chars_75();
    lit_chars_16();
    lit_chars_2();
    lit_chars_3();
    lit_chars_34();
    lit_chars_124();
    lit_chars_69();
    lit_chars_107();
    lit_chars_67();
    lit_chars_88();
    lit_chars_128();
    lit_chars_62();
    lit_chars_54();
    lit_chars_64();
    lit_chars_74();
    lit_chars_68();
    lit_chars_66();
    lit_chars_72();
    lit_chars_61();
    lit_chars_63();
    lit_chars_73();
    lit_chars_65();
    lit_chars_79();
    lit_chars_112();
    lit_chars_77();
    lit_chars_106();
    lit_chars_53();
    lit_chars_52();
    lit_chars_105();
    lit_chars_38();
    lit_chars_118();
    lit_chars_90();
    lit_chars_103();
    lit_chars_120();
    lit_chars_109();
    lit_chars_71();
    lit_chars_30();
    lit_chars_45();
    lit_chars_46();
    lit_chars_47();
    lit_chars_50();
    lit_chars_70();
    lit_chars_48();
    lit_chars_49();
    lit_chars_116();
    lit_chars_117();
    lit_chars_84();
    lit_chars_91();
    lit_chars_104();
    lit_chars_110();
    lit_chars_17();
    lit_chars_37();
    lit_chars_15();
    lit_chars_89();
    lit_chars_127();
    lit_chars_119();
    lit_chars_122();
    lit_chars_42();
    lit_chars_40();
    lit_chars_41();
    lit_chars_43();
    lit_chars_111();
    lit_chars_113();
    lit_chars_114();
    lit_chars_80();
    lit_chars_35();
    lit_chars_51();
    lit_chars_8();
    lit_chars_11();
    lit_chars_13();
    lit_chars_14();
    lit_chars_12();
    lit_chars_7();
    lit_chars_9();
    lit_chars_10();
    lit_chars_6();
    lit_chars_125();
    lit_chars_81();
    lit_chars_55();
    lit_chars_56();
    lit_chars_57();
    lit_chars_58();
    lit_chars_59();
    lit_chars_60();
    lit_chars_121();
    lit_chars_32();
    lit_chars_101();
    lit_chars_102();
    lit_chars_82();
    lit_chars_78();
    lit_chars_83();
    lit_chars_123();
    lit_chars_0();
    lit_chars_1();
    lit_chars_126();
    lit_chars_98();
    lit_chars_97();
    lit_chars_94();
    lit_chars_96();
    lit_chars_95();
    lit_chars_33();
    lit_chars_36();
    lit_chars_20();
    lit_chars_44();
    lit_chars_25();
    lit_chars_31();
    lit_chars_4();
    lit_chars_22();
    lit_chars_24();
    lit_chars_29();
    lit_chars_18();
    lit_chars_19();
    lit_chars_23();
    lit_chars_39();
    lit_chars_21();
    lit_chars_26();
    lit_chars_27();
    lit_chars_28();
    lit_chars_5();
    lit_chars_99();
    lit_chars_100();
    lemma_target_flag_none(m, "--datadir"@, Some(v));
    lemma_host_discovery_flag_none(m, "--datadir"@, Some(v));
    lemma_technique_flag_none(m, "--datadir"@, Some(v));
    lemma_ports_flag_none(m, "--datadir"@, Some(v));
    lemma_service_flag_none(m, "--datadir"@, Some(v));
    lemma_script_flag_none(m, "--datadir"@, Some(v));
    lemma_os_flag_none(m, "--datadir"@, Some(v));
    lemma_timing_flag_none(m, "--datadir"@, Some(v));
    lemma_evasion_flag_none(m, "--datadir"@, Some(v));
    lemma_output_flag_none(m, "--datadir"@, Some(v));
}

pub proof fn lemma_flag_misc_send_eth(m: NmapScanV, next: Option<Seq<char>>)
    ensures
        spec_dispatch(m, "--send-eth"@, next) == FlagOutcome::Ok0(NmapScanV { misc: MiscOptionsV { send_eth: true, ..m.misc }, ..m }),
{
    reveal(spec_dispatch);
    reveal(spec_misc_flag);
    lit_chars_93();
    lit_chars_108();
    lit_chars_92();
    lit_chars_85();
    lit_chars_87();
    lit_chars_86();
    lit_chars_115();
    lit_chars_76();
    lit_chars_75();
    lit_chars_16();
    lit_chars_2();
    lit_chars_3();
    lit_chars_34();
    lit_chars_124();
    lit_chars_69();
    lit_chars_107();
    lit_chars_67();
    lit_chars_88();
    lit_chars_128();
    lit_chars_62();
    lit_chars_54();
    lit_chars_64();
    lit_chars_74();
    lit_chars_68();
    lit_chars_66();
    lit_chars_72();
    lit_chars_61();
    lit_chars_63();
    lit_chars_73();
    lit_chars_65();
    lit_chars_79();
    lit_chars_112();
    lit_chars_77();
    lit_chars_106();
    lit_chars_53();
    lit_chars_52();
    lit_chars_105();
    lit_chars_38();
    lit_chars_118();
    lit_chars_90();
    lit_chars_103();
    lit_chars_120();
    lit_chars_109();
    lit_chars_71();
    lit_chars_30();
    lit_chars_45();
    lit_chars_46();
    lit_chars_47();
    lit_chars_50();
    lit_chars_70();
    lit_chars_48();
    lit_chars_49();
    lit_chars_116();
    lit_chars_117();
    lit_chars_84();
    lit_chars_91();
    lit_chars_104();
    lit_chars_110();
    lit_chars_17();
    lit_chars_37();
    lit_chars_15();
    lit_chars_89();
    lit_chars_127();
    lit_chars_119();
    lit_chars_122();
    lit_chars_42();
    lit_chars_40();
    lit_chars_41();
    lit_chars_43();
    lit_chars_111();
    lit_chars_113();
    lit_chars_114();
    lit_chars_80();
    lit_chars_35();
    lit_chars_51();
    lit_chars_8();
    lit_chars_11();
    lit_chars_13();
    lit_chars_14();
    lit_chars_12();
    lit_chars_7();
    lit_chars_9();
    lit_chars_10();
    lit_chars_6();
    lit_chars_125();
    lit_chars_81();
    lit_chars_55();
    lit_chars_56();
    lit_chars_57();
    lit_chars_58();
    lit_chars_59();
    lit_chars_60();
    lit_chars_121();
    lit_chars_32();
    lit_chars_101();
    lit_chars_102();
    lit_chars_82();
    lit_chars_78();
    lit_chars_83();
    lit_chars_123();
    lit_chars_0();
    lit_chars_1();
    lit_chars_126();
    lit_chars_98();
    lit_chars_97();
    lit_chars_94();
    lit_chars_96();
    lit_chars_95();
    lit_chars_33();
    lit_chars_36();
    lit_chars_20();
    lit_chars_44();
    lit_chars_25();
    lit_chars_31();
    lit_chars_4();
    lit_chars_22();
    lit_chars_24();
    lit_chars_29();
    lit_chars_18();
    lit_chars_19();
    lit_chars_23();
    lit_chars_39();
    lit_chars_21();
    lit_chars_26();
    lit_chars_27();
    lit_chars_28();
    lit_chars_5();
    lit_chars_99();
    lit_chars_100();
    lemma_target_flag_none(m, "--send-eth"@, next);
    lemma_host_discovery_flag_none(m, "--send-eth"@, next);
    lemma_technique_flag_none(m, "--send-eth"@, next);
    lemma_ports_flag_none(m, "--send-eth"@, next);
    lemma_service_flag_none(m, "--send-eth"@, next);
    lemma_script_flag_none(m, "--send-eth"@, next);
    lemma_os_flag_none(m, "--send-eth"@, next);
    lemma_timing_flag_none(m, "--send-eth"@, next);
    lemma_evasion_flag_none(m, "--send-eth"@, next);
    lemma_output_flag_none(m, "--send-eth"@, next);
}

pub proof fn lemma_flag_misc_send_ip(m: NmapScanV, next: Option<Seq<char>>)
    ensures
        spec_dispatch(m, "--send-ip"@, next) == FlagOutcome::Ok0(NmapScanV { misc: MiscOptionsV { send_ip: true, ..m.misc }, ..m }),
{
    reveal(spec_dispatch);
    reveal(spec_misc_flag);
    lit_chars_93();
    lit_chars_108();
    lit_chars_92();
    lit_chars_85();
    lit_chars_87();
    lit_chars_86();
    lit_chars_115();
    lit_chars_76();
    lit_chars_75();
    lit_chars_16();
    lit_chars_2();
    lit_chars_3();
    lit_chars_34();
    lit_chars_124();
    lit_chars_69();
    lit_chars_107();
    lit_chars_67();
    lit_chars_88();
    lit_chars_128();
    lit_chars_62();
    lit_chars_54();
    lit_chars_64();
    lit_chars_74();
    lit_chars_68();
    lit_chars_66();
    lit_chars_72();
    lit_chars_61();
    lit_chars_63();
    lit_chars_73();
    lit_chars_65();
    lit_chars_79();
    lit_chars_112();
    lit_chars_77();
    lit_chars_106();
    lit_chars_53();
    lit_chars_52();
    lit_chars_105();
    lit_chars_38();
    lit_chars_118();
    lit_chars_90();
    lit_chars_103();
    lit_chars_120();
    lit_chars_109();
    lit_chars_71();
    lit_chars_30();
    lit_chars_45();
    lit_chars_46();
    lit_chars_47();
    lit_chars_50();
    lit_chars_70();
    lit_chars_48();
    lit_chars_49();
    lit_chars_116();
    lit_chars_117();
    lit_chars_84();
    lit_chars_91();
    lit_chars_104();
    lit_chars_110();
    lit_chars_17();
    lit_chars_37();
    lit_chars_15();
    lit_chars_89();
    lit_chars_127();
    lit_chars_119();
    lit_chars_122();
    lit_chars_42();
    lit_chars_40();
    lit_chars_41();
    lit_chars_43();
    lit_chars_111();
    lit_chars_113();
    lit_chars_114();
    lit_chars_80();
    lit_chars_35();
    lit_chars_51();
    lit_chars_8();
    lit_chars_11();
    lit_chars_13();
    lit_chars_14();
    lit_chars_12();
    lit_chars_7();
    lit_chars_9();
    lit_chars_10();
    lit_chars_6();
    lit_chars_125();
    lit_chars_81();
    lit_chars_55();
    lit_chars_56();
    lit_chars_57();
    lit_chars_58();
    lit_chars_59();
    lit_chars_60();
    lit_chars_121();
    lit_chars_32();
    lit_chars_101();
    lit_chars_102();
    lit_chars_82();
    lit_chars_78();
    lit_chars_83();
    lit_chars_123();
    lit_chars_0();
    lit_chars_1();
    lit_chars_126();
    lit_chars_98();
    lit_chars_97();
    lit_chars_94();
    lit_chars_96();
    lit_chars_95();
    lit_chars_33();
    lit_chars_36();
    lit_chars_20();
    lit_chars_44();
    lit_chars_25();
    lit_chars_31();
    lit_chars_4();
    lit_chars_22();
    lit_chars_24();
    lit_chars_29();
    lit_chars_18();
    lit_chars_19();
    lit_chars_23();
    lit_chars_39();
    lit_chars_21();
    lit_chars_26();
    lit_chars_27();
    lit_chars_28();
    lit_chars_5();
    lit_chars_99();
    lit_chars_100();
    lemma_target_flag_none(m, "--send-ip"@, next);
    lemma_host_discovery_flag_none(m, "--send-ip"@, next);
    lemma_technique_flag_none(m, "--send-ip"@, next);
    lemma_ports_flag_none(m, "--send-ip"@, next);
    lemma_service_flag_none(m, "--send-ip"@, next);
    lemma_script_flag_none(m, "--send-ip"@, next);
    lemma_os_flag_none(m, "--send-ip"@, next);
    lemma_timing_flag_none(m, "--send-ip"@, next);
    lemma_evasion_flag_none(m, "--send-ip"@, next);
    lemma_output_flag_none(m, "--send-ip"@, next);
}

pub proof fn lemma_flag_misc_privileged(m: NmapScanV, next: Option<Seq<char>>)
    ensures
        spec_dispatch(m, "--privileged"@, next) == FlagOutcome::Ok0(NmapScanV { misc: MiscOptionsV { privileged: true, ..m.misc }, ..m }),
{
    reveal(spec_dispatch);
    reveal(spec_misc_flag);
    lit_chars_93();
    lit_chars_108();
    lit_chars_92();
    lit_chars_85();
    lit_chars_87();
    lit_chars_86();
    lit_chars_115();
    lit_chars_76();
    lit_chars_75();
    lit_chars_16();
    lit_chars_2();
    lit_chars_3();
    lit_chars_34();
    lit_chars_124();
    lit_chars_69();
    lit_chars_107();
    lit_chars_67();
    lit_chars_88();
    lit_chars_128();
    lit_chars_62();
    lit_chars_54();
    lit_chars_64();
    lit_chars_74();
    lit_chars_68();
    lit_chars_66();
    lit_chars_72();
    lit_chars_61();
    lit_chars_63();
    lit_chars_73();
    lit_chars_65();
    lit_chars_79();
    lit_chars_112();
    lit_chars_77();
    lit_chars_106();
    lit_chars_53();
    lit_chars_52();
    lit_chars_105();
    lit_chars_38();
    lit_chars_118();
    lit_chars_90();
    lit_chars_103();
    lit_chars_120();
    lit_chars_109();
    lit_chars_71();
    lit_chars_30();
    lit_chars_45();
    lit_chars_46();
    lit_chars_47();
    lit_chars_50();
    lit_chars_70();
    lit_chars_48();
    lit_chars_49();
    lit_chars_116();
    lit_chars_117();
    lit_chars_84();
    lit_chars_91();
    lit_chars_104();
    lit_chars_110();
    lit_chars_17();
    lit_chars_37();
    lit_chars_15();
    lit_chars_89();
    lit_chars_127();
    lit_chars_119();
    lit_chars_122();
    lit_chars_42();
    lit_chars_40();
    lit_chars_41();
    lit_chars_43();
    lit_chars_111();
    lit_chars_113();
    lit_chars_114();
    lit_chars_80();
    lit_chars_35();
    lit_chars_51();
    lit_chars_8();
    lit_chars_11();
    lit_chars_13();
    lit_chars_14();
    lit_chars_12();
    lit_chars_7();
    lit_chars_9();
    lit_chars_10();
    lit_chars_6();
    lit_chars_125();
    lit_chars_81();
    lit_chars_55();
    lit_chars_56();
    lit_chars_57();
    lit_chars_58();
    lit_chars_59();
    lit_chars_60();
    lit_chars_121();
    lit_chars_32();
    lit_chars_101();
    lit_chars_102();
    lit_chars_82();
    lit_chars_78();
    lit_chars_83();
    lit_chars_123();
    lit_chars_0();
    lit_chars_1();
    lit_chars_126();
    lit_chars_98();
    lit_chars_97();
    lit_chars_94();
    lit_chars_96();
    lit_chars_95();
    lit_chars_33();
    lit_chars_36();
    lit_chars_20();
    lit_chars_44();
    lit_chars_25();
    lit_chars_31();
    lit_chars_4();
    lit_chars_22();
    lit_chars_24();
    lit_chars_29();
    lit_chars_18();
    lit_chars_19();
    lit_chars_23();
    lit_chars_39();
    lit_chars_21();
    lit_chars_26();
    lit_chars_27();
    lit_chars_28();
    lit_chars_5();
    lit_chars_99();
    lit_chars_100();
    lemma_target_flag_none(m, "--privileged"@, next);
    lemma_host_discovery_flag_none(m, "--privileged"@, next);
    lemma_technique_flag_none(m, "--privileged"@, next);
    lemma_ports_flag_none(m, "--privileged"@, next);
    lemma_service_flag_none(m, "--privileged"@, next);
    lemma_script_flag_none(m, "--privileged"@, next);
    lemma_os_flag_none(m, "--privileged"@, next);
    lemma_timing_flag_none(m, "--privileged"@, next);
    lemma_evasion_flag_none(m, "--privileged"@, next);
    lemma_output_flag_none(m, "--privileged"@, next);
}

pub proof fn lemma_flag_misc_unprivileged(m: NmapScanV, next: Option<Seq<char>>)
    ensures
        spec_dispatch(m, "--unprivileged"@, next) == FlagOutcome::Ok0(NmapScanV { misc: MiscOptionsV { unprivileged: true, ..m.misc }, ..m }),
{
    reveal(spec_dispatch);
    reveal(spec_misc_flag);
    lit_chars_93();
    lit_chars_108();
    lit_chars_92();
    lit_chars_85();
    lit_chars_87();
    lit_chars_86();
    lit_chars_115();
    lit_chars_76();
    lit_chars_75();
    lit_chars_16();
    lit_chars_2();
    lit_chars_3();
    lit_chars_34();
    lit_chars_124();
    lit_chars_69();
    lit_chars_107();
    lit_chars_67();
    lit_chars_88();
    lit_chars_128();
    lit_chars_62();
    lit_chars_54();
    lit_chars_64();
    lit_chars_74();
    lit_chars_68();
    lit_chars_66();
    lit_chars_72();
    lit_chars_61();
    lit_chars_63();
    lit_chars_73();
    lit_chars_65();
    lit_chars_79();
    lit_chars_112();
    lit_chars_77();
    lit_chars_106();
    lit_chars_53();
    lit_chars_52();
    lit_chars_105();
    lit_chars_38();
    lit_chars_118();
    lit_chars_90();
    lit_chars_103();
    lit_chars_120();
    lit_chars_109();
    lit_chars_71();
    lit_chars_30();
    lit_chars_45();
    lit_chars_46();
    lit_chars_47();
    lit_chars_50();
    lit_chars_70();
    lit_chars_48();
    lit_chars_49();
    lit_chars_116();
    lit_chars_117();
    lit_chars_84();
    lit_chars_91();
    lit_chars_104();
    lit_chars_110();
    lit_chars_17();
    lit_chars_37();
    lit_chars_15();
    lit_chars_89();
    lit_chars_127();
    lit_chars_119();
    lit_chars_122();
    lit_chars_42();
    lit_chars_40();
    lit_chars_41();
    lit_chars_43();
    lit_chars_111();
    lit_chars_113();
    lit_chars_114();
    lit_chars_80();
    lit_chars_35();
    lit_chars_51();
    lit_chars_8();
    lit_chars_11();
    lit_chars_13();
    lit_chars_14();
    lit_chars_12();
    lit_chars_7();
    lit_chars_9();
    lit_chars_10();
    lit_chars_6();
    lit_chars_125();
    lit_chars_81();
    lit_chars_55();
    lit_chars_56();
    lit_chars_57();
    lit_chars_58();
    lit_chars_59();
    lit_chars_60();
    lit_chars_121();
    lit_chars_32();
    lit_chars_101();
    lit_chars_102();
    lit_chars_82();
    lit_chars_78();
    lit_chars_83();
    lit_chars_123();
    lit_chars_0();
    lit_chars_1();
    lit_chars_126();
    lit_chars_98();
    lit_chars_97();
    lit_chars_94();
    lit_chars_96();
    lit_chars_95();
    lit_chars_33();
    lit_chars_36();
    lit_chars_20();
    lit_chars_44();
    lit_chars_25();
    lit_chars_31();
    lit_chars_4();
    lit_chars_22();
    lit_chars_24();
    lit_chars_29();
    lit_chars_18();
    lit_chars_19();
    lit_chars_23();
    lit_chars_39();
    lit_chars_21();
    lit_chars_26();
    lit_chars_27();
    lit_chars_28();
    lit_chars_5();
    lit_chars_99();
    lit_chars_100();
    lemma_target_flag_none(m, "--unprivileged"@, next);
    lemma_host_discovery_flag_none(m, "--unprivileged"@, next);
    lemma_technique_flag_none(m, "--unprivileged"@, next);
    lemma_ports_flag_none(m, "--unprivileged"@, next);
    lemma_service_flag_none(m, "--unprivileged"@, next);
    lemma_script_flag_none(m, "--unprivileged"@, next);
    lemma_os_flag_none(m, "--unprivileged"@, next);
    lemma_timing_flag_none(m, "--unprivileged"@, next);
    lemma_evasion_flag_none(m, "--unprivileged"@, next);
    lemma_output_flag_none(m, "--unprivileged"@, next);
}

pub proof fn lemma_flag_misc_release_memory(m: NmapScanV, next: Option<Seq<char>>)
    ensures
        spec_dispatch(m, "--release-memory"@, next) == FlagOutcome::Ok0(NmapScanV { misc: MiscOptionsV { release_memory: true, ..m.misc }, ..m }),
{
    reveal(spec_dispatch);
    reveal(spec_misc_flag);
    lit_chars_93();
    lit_chars_108();
    lit_chars_92();
    lit_chars_85();
    lit_chars_87();
    lit_chars_86();
    lit_chars_115();
    lit_chars_76();
    lit_chars_75();
    lit_chars_16();
    lit_chars_2();
    lit_chars_3();
    lit_chars_34();
    lit_chars_124();
    lit_chars_69();
    lit_chars_107();
    lit_chars_67();
    lit_chars_88();
    lit_chars_128();
    lit_chars_62();
    lit_chars_54();
    lit_chars_64();
    lit_chars_74();
    lit_chars_68();
    lit_chars_66();
    lit_chars_72();
    lit_chars_61();
    lit_chars_63();
    lit_chars_73();
    lit_chars_65();
    lit_chars_79();
    lit_chars_112();
    lit_chars_77();
    lit_chars_106();
    lit_chars_53();
    lit_chars_52();
    lit_chars_105();
    lit_chars_38();
    lit_chars_118();
    lit_chars_90();
    lit_chars_103();
    lit_chars_120();
    lit_chars_109();
    lit_chars_71();
    lit_chars_30();
    lit_chars_45();
    lit_chars_46();
    lit_chars_47();
    lit_chars_50();
    lit_chars_70();
    lit_chars_48();
    lit_chars_49();
    lit_chars_116();
    lit_chars_117();
    lit_chars_84();
    lit_chars_91();
    lit_chars_104();
    lit_chars_110();
    lit_chars_17();
    lit_chars_37();
    lit_chars_15();
    lit_chars_89();
    lit_chars_127();
    lit_chars_119();
    lit_chars_122();
    lit_chars_42();
    lit_chars_40();
    lit_chars_41();
    lit_chars_43();
    lit_chars_111();
    lit_chars_113();
    lit_chars_114();
    lit_chars_80();
    lit_chars_35();
    lit_chars_51();
    lit_chars_8();
    lit_chars_11();
    lit_chars_13();
    lit_chars_14();
    lit_chars_12();
    lit_chars_7();
    lit_chars_9();
    lit_chars_10();
    lit_chars_6();
    lit_chars_125();
    lit_chars_81();
    lit_chars_55();
    lit_chars_56();
    lit_chars_57();
    lit_chars_58();
    lit_chars_59();
    lit_chars_60();
    lit_chars_121();
    lit_chars_32();
    lit_chars_101();
    lit_chars_102();
    lit_chars_82();
    lit_chars_78();
    lit_chars_83();
    lit_chars_123();
    lit_chars_0();
    lit_chars_1();
    lit_chars_126();
    lit_chars_98();
    lit_chars_97();
    lit_chars_94();
    lit_chars_96();
    lit_chars_95();
    lit_chars_33();
    lit_chars_36();
    lit_chars_20();
    lit_chars_44();
    lit_chars_25();
    lit_chars_31();
    lit_chars_4();
    lit_chars_22();
    lit_chars_24();
    lit_chars_29();
    lit_chars_18();
    lit_chars_19();
    lit_chars_23();
    lit_chars_39();
    lit_chars_21();
    lit_chars_26();
    lit_chars_27();
    lit_chars_28();
    lit_chars_5();
    lit_chars_99();
    lit_chars_100();
    lemma_target_flag_none(m, "--release-memory"@, next);
    lemma_host_discovery_flag_none(m, "--release-memory"@, next);
    lemma_technique_flag_none(m, "--release-memory"@, next);
    lemma_ports_flag_none(m, "--release-memory"@, next);
    lemma_service_flag_none(m, "--release-memory"@, next);
    lemma_script_flag_none(m, "--release-memory"@, next);
    lemma_os_flag_none(m, "--release-memory"@, next);
    lemma_timing_flag_none(m, "--release-memory"@, next);
    lemma_evasion_flag_none(m, "--release-memory"@, next);
    lemma_output_flag_none(m, "--release-memory"@, next);
}

pub proof fn lemma_flag_misc_version(m: NmapScanV, next: Option<Seq<char>>)
    ensures
        spec_dispatch(m, "-V"@, next) == FlagOutcome::Ok0(NmapScanV { misc: MiscOptionsV { version: true, ..m.misc }, ..m }),
{
    reveal(spec_dispatch);
    reveal(spec_misc_flag);
    lit_chars_93();
    lit_chars_108();
    lit_chars_92();
    lit_chars_85();
    lit_chars_87();
    lit_chars_86();
    lit_chars_115();
    lit_chars_76();
    lit_chars_75();
    lit_chars_16();
    lit_chars_2();
    lit_chars_3();
    lit_chars_34();
    lit_chars_124();
    lit_chars_69();
    lit_chars_107();
    lit_chars_67();
    lit_chars_88();
    lit_chars_128();
    lit_chars_62();
    lit_chars_54();
    lit_chars_64();
    lit_chars_74();
    lit_chars_68();
    lit_chars_66();
    lit_chars_72();
    lit_chars_61();
    lit_chars_63();
    lit_chars_73();
    lit_chars_65();
    lit_chars_79();
    lit_chars_112();
    lit_chars_77();
    lit_chars_106();
    lit_chars_53();
    lit_chars_52();
    lit_chars_105();
    lit_chars_38();
    lit_chars_118();
    lit_chars_90();
    lit_chars_103();
    lit_chars_120();
    lit_chars_109();
    lit_chars_71();
    lit_chars_30();
    lit_chars_45();
    lit_chars_46();
    lit_chars_47();
    lit_chars_50();
    lit_chars_70();
    lit_chars_48();
    lit_chars_49();
    lit_chars_116();
    lit_chars_117();
    lit_chars_84();
    lit_chars_91();
    lit_chars_104();
    lit_chars_110();
    lit_chars_17();
    lit_chars_37();
    lit_chars_15();
    lit_chars_89();
    lit_chars_127();
    lit_chars_119();
    lit_chars_122();
    lit_chars_42();
    lit_chars_40();
    lit_chars_41();
    lit_chars_43();
    lit_chars_111();
    lit_chars_113();
    lit_chars_114();
    lit_chars_80();
    lit_chars_35();
    lit_chars_51();
    lit_chars_8();
    lit_chars_11();
    lit_chars_13();
    lit_chars_14();
    lit_chars_12();
    lit_chars_7();
    lit_chars_9();
    lit_chars_10();
    lit_chars_6();
    lit_chars_125();
    lit_chars_81();
    lit_chars_55();
    lit_chars_56();
    lit_chars_57();
    lit_chars_58();
    lit_chars_59();
    lit_chars_60();
    lit_chars_121();
    lit_chars_32();
    lit_chars_101();
    lit_chars_102();
    lit_chars_82();
    lit_chars_78();
    lit_chars_83();
    lit_chars_123();
    lit_chars_0();
    lit_chars_1();
    lit_chars_126();
    lit_chars_98();
    lit_chars_97();
    lit_chars_94();
    lit_chars_96();
    lit_chars_95();
    lit_chars_33();
    lit_chars_36();
    lit_chars_20();
    lit_chars_44();
    lit_chars_25();
    lit_chars_31();
    lit_chars_4();
    lit_chars_22();
    lit_chars_24();
    lit_chars_29();
    lit_chars_18();
    lit_chars_19();
    lit_chars_23();
    lit_chars_39();
    lit_chars_21();
    lit_chars_26();
    lit_chars_27();
    lit_chars_28();
    lit_chars_5();
    lit_chars_99();
    lit_chars_100();
    lemma_target_flag_none(m, "-V"@, next);
    lemma_host_discovery_flag_none(m, "-V"@, next);
    lemma_technique_flag_none(m, "-V"@, next);
    lemma_ports_flag_none(m, "-V"@, next);
    lemma_service_flag_none(m, "-V"@, next);
    lemma_script_flag_none(m, "-V"@, next);
    lemma_os_flag_none(m, "-V"@, next);
    lemma_timing_flag_none(m, "-V"@, next);
    lemma_evasion_flag_none(m, "-V"@, next);
    lemma_output_flag_none(m, "-V"@, next);
}

pub proof fn lemma_flag_misc_help(m: NmapScanV, next: Option<Seq<char>>)
    ensures
        spec_dispatch(m, "-h"@, next) == FlagOutcome::Ok0(NmapScanV { misc: MiscOptionsV { help: true, ..m.misc }, ..m }),
{
    reveal(spec_dispatch);
    reveal(spec_misc_flag);
    lit_chars_93();
    lit_chars_108();
    lit_chars_92();
    lit_chars_85();
    lit_chars_87();
    lit_chars_86();
    lit_chars_115();
    lit_chars_76();
    lit_chars_75();
    lit_chars_16();
    lit_chars_2();
    lit_chars_3();
    lit_chars_34();
    lit_chars_124();
    lit_chars_69();
    lit_chars_107();
    lit_chars_67();
    lit_chars_88();
    lit_chars_128();
    lit_chars_62();
    lit_chars_54();
    lit_chars_64();
    lit_chars_74();
    lit_chars_68();
    lit_chars_66();
    lit_chars_72();
    lit_chars_61();
    lit_chars_63();
    lit_chars_73();
    lit_chars_65();
    lit_chars_79();
    lit_chars_112();
    lit_chars_77();
    lit_chars_106();
    lit_chars_53();
    lit_chars_52();
    lit_chars_105();
    lit_chars_38();
    lit_chars_118();
    lit_chars_90();
    lit_chars_103();
    lit_chars_120();
    lit_chars_109();
    lit_chars_71();
    lit_chars_30();
    lit_chars_45();
    lit_chars_46();
    lit_chars_47();
    lit_chars_50();
    lit_chars_70();
    lit_chars_48();
    lit_chars_49();
    lit_chars_116();
    lit_chars_117();
    lit_chars_84();
    lit_chars_91();
    lit_chars_104();
    lit_chars_110();
    lit_chars_17();
    lit_chars_37();
    lit_chars_15();
    lit_chars_89();
    lit_chars_127();
    lit_chars_119();
    lit_chars_122();
    lit_chars_42();
    lit_chars_40();
    lit_chars_41();
    lit_chars_43();
    lit_chars_111();
    lit_chars_113();
    lit_chars_114();
    lit_chars_80();
    lit_chars_35();
    lit_chars_51();
    lit_chars_8();
    lit_chars_11();
    lit_chars_13();
    lit_chars_14();
    lit_chars_12();
    lit_chars_7();
    lit_chars_9();
    lit_chars_10();
    lit_chars_6();
    lit_chars_125();
    lit_chars_81();
    lit_chars_55();
    lit_chars_56();
    lit_chars_57();
    lit_chars_58();
    lit_chars_59();
    lit_chars_60();
    lit_chars_121();
    lit_chars_32();
    lit_chars_101();
    lit_chars_102();
    lit_chars_82();
    lit_chars_78();
    lit_chars_83();
    lit_chars_123();
    lit_chars_0();
    lit_chars_1();
    lit_chars_126();
    lit_chars_98();
    lit_chars_97();
    lit_chars_94();
    lit_chars_96();
    lit_chars_95();
    lit_chars_33();
    lit_chars_36();
    lit_chars_20();
    lit_chars_44();
    lit_chars_25();
    lit_chars_31();
    lit_chars_4();
    lit_chars_22();
    lit_chars_24();
    lit_chars_29();
    lit_chars_18();
    lit_chars_19();
    lit_chars_23();
    lit_chars_39();
    lit_chars_21();
    lit_chars_26();
    lit_chars_27();
    lit_chars_28();
    lit_chars_5();
    lit_chars_99();
    lit_chars_100();
    lemma_target_flag_none(m, "-h"@, next);
    lemma_host_discovery_flag_none(m, "-h"@, next);
    lemma_technique_flag_none(m, "-h"@, next);
    lemma_ports_flag_none(m, "-h"@, next);
    lemma_service_flag_none(m, "-h"@, next);
    lemma_script_flag_none(m, "-h"@, next);
    lemma_os_flag_none(m, "-h"@, next);
    lemma_timing_flag_none(m, "-h"@, next);
    lemma_evasion_flag_none(m, "-h"@, next);
    lemma_output_flag_none(m, "-h"@, next);
}

pub proof fn lemma_flag_misc_resolve_all(m: NmapScanV, next: Option<Seq<char>>)
    ensures
        spec_dispatch(m, "-R"@, next) == FlagOutcome::Ok0(NmapScanV { misc: MiscOptionsV { resolve_all: true, ..m.misc }, ..m }),
{
    reveal(spec_dispatch);
    reveal(spec_misc_flag);
    lit_chars_93();
    lit_chars_108();
    lit_chars_92();
    lit_chars_85();
    lit_chars_87();
    lit_chars_86();
    lit_chars_115();
    lit_chars_76();
    lit_chars_75();
    lit_chars_16();
    lit_chars_2();
    lit_chars_3();
    lit_chars_34();
    lit_chars_124();
    lit_chars_69();
    lit_chars_107();
    lit_chars_67();
    lit_chars_88();
    lit_chars_128();
    lit_chars_62();
    lit_chars_54();
    lit_chars_64();
    lit_chars_74();
    lit_chars_68();
    lit_chars_66();
    lit_chars_72();
    lit_chars_61();
    lit_chars_63();
    lit_chars_73();
    lit_chars_65();
    lit_chars_79();
    lit_chars_112();
    lit_chars_77();
    lit_chars_106();
    lit_chars_53();
    lit_chars_52();
    lit_chars_105();
    lit_chars_38();
    lit_chars_118();
    lit_chars_90();
    lit_chars_103();
    lit_chars_120();
    lit_chars_109();
    lit_chars_71();
    lit_chars_30();
    lit_chars_45();
    lit_chars_46();
    lit_chars_47();
    lit_chars_50();
    lit_chars_70();
    lit_chars_48();
    lit_chars_49();
    lit_chars_116();
    lit_chars_117();
    lit_chars_84();
    lit_chars_91();
    lit_chars_104();
    lit_chars_110();
    lit_chars_17();
    lit_chars_37();
    lit_chars_15();
    lit_chars_89();
    lit_chars_127();
    lit_chars_119();
    lit_chars_122();
    lit_chars_42();
    lit_chars_40();
    lit_chars_41();
    lit_chars_43();
    lit_chars_111();
    lit_chars_113();
    lit_chars_114();
    lit_chars_80();
    lit_chars_35();
    lit_chars_51();
    lit_chars_8();
    lit_chars_11();
    lit_chars_13();
    lit_chars_14();
    lit_chars_12();
    lit_chars_7();
    lit_chars_9();
    lit_chars_10();
    lit_chars_6();
    lit_chars_125();
    lit_chars_81();
    lit_chars_55();
    lit_chars_56();
    lit_chars_57();
    lit_chars_58();
    lit_chars_59();
    lit_chars_60();
    lit_chars_121();
    lit_chars_32();
    lit_chars_101();
    lit_chars_102();
    lit_chars_82();
    lit_chars_78();
    lit_chars_83();
    lit_chars_123();
    lit_chars_0();
    lit_chars_1();
    lit_chars_126();
    lit_chars_98();
    lit_chars_97();
    lit_chars_94();
    lit_chars_96();
    lit_chars_95();
    lit_chars_33();
    lit_chars_36();
    lit_chars_20();
    lit_chars_44();
    lit_chars_25();
    lit_chars_31();
    lit_chars_4();
    lit_chars_22();
    lit_chars_24();
    lit_chars_29();
    lit_chars_18();
    lit_chars_19();
    lit_chars_23();
    lit_chars_39();
    lit_chars_21();
    lit_chars_26();
    lit_chars_27();
    lit_chars_28();
    lit_chars_5();
    lit_chars_99();
    lit_chars_100();
    lemma_target_flag_none(m, "-R"@, next);
    lemma_host_discovery_flag_none(m, "-R"@, next);
    lemma_technique_flag_none(m, "-R"@, next);
    lemma_ports_flag_none(m, "-R"@, next);
    lemma_service_flag_none(m, "-R"@, next);
    lemma_script_flag_none(m, "-R"@, next);
    lemma_os_flag_none(m, "-R"@, next);
    lemma_timing_flag_none(m, "-R"@, next);
    lemma_evasion_flag_none(m, "-R"@, next);
    lemma_output_flag_none(m, "-R"@, next);
}

pub proof fn lemma_flag_misc_no_resolve(m: NmapScanV, next: Option<Seq<char>>)
    ensures
        spec_dispatch(m, "-n"@, next) == FlagOutcome::Ok0(NmapScanV { misc: MiscOptionsV { no_resolve: true, ..m.misc }, ..m }),
{
    reveal(spec_dispatch);
    reveal(spec_misc_flag);
    lit_chars_93();
    lit_chars_108();
    lit_chars_92();
    lit_chars_85();
    lit_chars_87();
    lit_chars_86();
    lit_chars_115();
    lit_chars_76();
    lit_chars_75();
    lit_chars_16();
    lit_chars_2();
    lit_chars_3();
    lit_chars_34();
    lit_chars_124();
    lit_chars_69();
    lit_chars_107();
    lit_chars_67();
    lit_chars_88();
    lit_chars_128();
    lit_chars_62();
    lit_chars_54();
    lit_chars_64();
    lit_chars_74();
    lit_chars_68();
    lit_chars_66();
    lit_chars_72();
    lit_chars_61();
    lit_chars_63();
    lit_chars_73();
    lit_chars_65();
    lit_chars_79();
    lit_chars_112();
    lit_chars_77();
    lit_chars_106();
    lit_chars_53();
    lit_chars_52();
    lit_chars_105();
    lit_chars_38();
    lit_chars_118();
    lit_chars_90();
    lit_chars_103();
    lit_chars_120();
    lit_chars_109();
    lit_chars_71();
    lit_chars_30();
    lit_chars_45();
    lit_chars_46();
    lit_chars_47();
    lit_chars_50();
    lit_chars_70();
    lit_chars_48();
    lit_chars_49();
    lit_chars_116();
    lit_chars_117();
    lit_chars_84();
    lit_chars_91();
    lit_chars_104();
    lit_chars_110();
    lit_chars_17();
    lit_chars_37();
    lit_chars_15();
    lit_chars_89();
    lit_chars_127();
    lit_chars_119();
    lit_chars_122();
    lit_chars_42();
    lit_chars_40();
    lit_chars_41();
    lit_chars_43();
    lit_chars_111();
    lit_chars_113();
    lit_chars_114();
    lit_chars_80();
    lit_chars_35();
    lit_chars_51();
    lit_chars_8();
    lit_chars_11();
    lit_chars_13();
    lit_chars_14();
    lit_chars_12();
    lit_chars_7();
    lit_chars_9();
    lit_chars_10();
    lit_chars_6();
    lit_chars_125();
    lit_chars_81();
    lit_chars_55();
    lit_chars_56();
    lit_chars_57();
    lit_chars_58();
    lit_chars_59();
    lit_chars_60();
    lit_chars_121();
    lit_chars_32();
    lit_chars_101();
    lit_chars_102();
    lit_chars_82();
    lit_chars_78();
    lit_chars_83();
    lit_chars_123();
    lit_chars_0();
    lit_chars_1();
    lit_chars_126();
    lit_chars_98();
    lit_chars_97();
    lit_chars_94();
    lit_chars_96();
    lit_chars_95();
    lit_chars_33();
    lit_chars_36();
    lit_chars_20();
    lit_chars_44();
    lit_chars_25();
    lit_chars_31();
    lit_chars_4();
    lit_chars_22();
    lit_chars_24();
    lit_chars_29();
    lit_chars_18();
    lit_chars_19();
    lit_chars_23();
    lit_chars_39();
    lit_chars_21();
    lit_chars_26();
    lit_chars_27();
    lit_chars_28();
    lit_chars_5();
    lit_chars_99();
    lit_chars_100();
    lemma_target_flag_none(m, "-n"@, next);
    lemma_host_discovery_flag_none(m, "-n"@, next);
    lemma_technique_flag_none(m, "-n"@, next);
    lemma_ports_flag_none(m, "-n"@, next);
    lemma_service_flag_none(m, "-n"@, next);
    lemma_script_flag_none(m, "-n"@, next);
    lemma_os_flag_none(m, "-n"@, next);
    lemma_timing_flag_none(m, "-n"@, next);
    lemma_evasion_flag_none(m, "-n"@, next);
    lemma_output_flag_none(m, "-n"@, next);
}

pub proof fn lemma_flag_misc_unique(m: NmapScanV, next: Option<Seq<char>>)
    ensures
        spec_dispatch(m, "--unique"@, next) == FlagOutcome::Ok0(NmapScanV { misc: MiscOptionsV { unique: true, ..m.misc }, ..m }),
{
    reveal(spec_dispatch);
    reveal(spec_misc_flag);
    lit_chars_93();
    lit_chars_108();
    lit_chars_92();
    lit_chars_85();
    lit_chars_87();
    lit_chars_86();
    lit_chars_115();
    lit_chars_76();
    lit_chars_75();
    lit_chars_16();
    lit_chars_2();
    lit_chars_3();
    lit_chars_34();
    lit_chars_124();
    lit_chars_69();
    lit_chars_107();
    lit_chars_67();
    lit_chars_88();
    lit_chars_128();
    lit_chars_62();
    lit_chars_54();
    lit_chars_64();
    lit_chars_74();
    lit_chars_68();
    lit_chars_66();
    lit_chars_72();
    lit_chars_61();
    lit_chars_63();
    lit_chars_73();
    lit_chars_65();
    lit_chars_79();
    lit_chars_112();
    lit_chars_77();
    lit_chars_106();
    lit_chars_53();
    lit_chars_52();
    lit_chars_105();
    lit_chars_38();
    lit_chars_118();
    lit_chars_90();
    lit_chars_103();
    lit_chars_120();
    lit_chars_109();
    lit_chars_71();
    lit_chars_30();
    lit_chars_45();
    lit_chars_46();
    lit_chars_47();
    lit_chars_50();
    lit_chars_70();
    lit_chars_48();
    lit_chars_49();
    lit_chars_116();
    lit_chars_117();
    lit_chars_84();
    lit_chars_91();
    lit_chars_104();
    lit_chars_110();
    lit_chars_17();
    lit_chars_37();
    lit_chars_15();
    lit_chars_89();
    lit_chars_127();
    lit_chars_119();
    lit_chars_122();
    lit_chars_42();
    lit_chars_40();
    lit_chars_41();
    lit_chars_43();
    lit_chars_111();
    lit_chars_113();
    lit_chars_114();
    lit_chars_80();
    lit_chars_35();
    lit_chars_51();
    lit_chars_8();
    lit_chars_11();
    lit_chars_13();
    lit_chars_14();
    lit_chars_12();
    lit_chars_7();
    lit_chars_9();
    lit_chars_10();
    lit_chars_6();
    lit_chars_125();
    lit_chars_81();
    lit_chars_55();
    lit_chars_56();
    lit_chars_57();
    lit_chars_58();
    lit_chars_59();
    lit_chars_60();
    lit_chars_121();
    lit_chars_32();
    lit_chars_101();
    lit_chars_102();
    lit_chars_82();
    lit_chars_78();
    lit_chars_83();
    lit_chars_123();
    lit_chars_0();
    lit_chars_1();
    lit_chars_126();
    lit_chars_98();
    lit_chars_97();
    lit_chars_94();
    lit_chars_96();
    lit_chars_95();
    lit_chars_33();
    lit_chars_36();
    lit_chars_20();
    lit_chars_44();
    lit_chars_25();
    lit_chars_31();
    lit_chars_4();
    lit_chars_22();
    lit_chars_24();
    lit_chars_29();
    lit_chars_18();
    lit_chars_19();
    lit_chars_23();
    lit_chars_39();
    lit_chars_21();
    lit_chars_26();
    lit_chars_27();
    lit_chars_28();
    lit_chars_5();
    lit_chars_99();
    lit_chars_100();
    lemma_target_flag_none(m, "--unique"@, next);
    lemma_host_discovery_flag_none(m, "--unique"@, next);
    lemma_technique_flag_none(m, "--unique"@, next);
    lemma_ports_flag_none(m, "--unique"@, next);
    lemma_service_flag_none(m, "--unique"@, next);
    lemma_script_flag_none(m, "--unique"@, next);
    lemma_os_flag_none(m, "--unique"@, next);
    lemma_timing_flag_none(m, "--unique"@, next);
    lemma_evasion_flag_none(m, "--unique"@, next);
    lemma_output_flag_none(m, "--unique"@, next);
}

pub proof fn lemma_flag_misc_log_errors(m: NmapScanV, next: Option<Seq<char>>)
    ensures
        spec_dispatch(m, "--log-errors"@, next) == FlagOutcome::Ok0(NmapScanV { misc: MiscOptionsV { log_errors: true, ..m.misc }, ..m }),
{
    reveal(spec_dispatch);
    reveal(spec_misc_flag);
    lit_chars_93();
    lit_chars_108();
    lit_chars_92();
    lit_chars_85();
    lit_chars_87();
    lit_chars_86();
    lit_chars_115();
    lit_chars_76();
    lit_chars_75();
    lit_chars_16();
    lit_chars_2();
    lit_chars_3();
    lit_chars_34();
    lit_chars_124();
    lit_chars_69();
    lit_chars_107();
    lit_chars_67();
    lit_chars_88();
    lit_chars_128();
    lit_chars_62();
    lit_chars_54();
    lit_chars_64();
    lit_chars_74();
    lit_chars_68();
    lit_chars_66();
    lit_chars_72();
    lit_chars_61();
    lit_chars_63();
    lit_chars_73();
    lit_chars_65();
    lit_chars_79();
    lit_chars_112();
    lit_chars_77();
    lit_chars_106();
    lit_chars_53();
    lit_chars_52();
    lit_chars_105();
    lit_chars_38();
    lit_chars_118();
    lit_chars_90();
    lit_chars_103();
    lit_chars_120();
    lit_chars_109();
    lit_chars_71();
    lit_chars_30();
    lit_chars_45();
    lit_chars_46();
    lit_chars_47();
    lit_chars_50();
    lit_chars_70();
    lit_chars_48();
    lit_chars_49();
    lit_chars_116();
    lit_chars_117();
    lit_chars_84();
    lit_chars_91();
    lit_chars_104();
    lit_chars_110();
    lit_chars_17();
    lit_chars_37();
    lit_chars_15();
    lit_chars_89();
    lit_chars_127();
    lit_chars_119();
    lit_chars_122();
    lit_chars_42();
    lit_chars_40();
    lit_chars_41();
    lit_chars_43();
    lit_chars_111();
    lit_chars_113();
    lit_chars_114();
    lit_chars_80();
    lit_chars_35();
    lit_chars_51();
    lit_chars_8();
    lit_chars_11();
    lit_chars_13();
    lit_chars_14();
    lit_chars_12();
    lit_chars_7();
    lit_chars_9();
    lit_chars_10();
    lit_chars_6();
    lit_chars_125();
    lit_chars_81();
    lit_chars_55();
    lit_chars_56();
    lit_chars_57();
    lit_chars_58();
    lit_chars_59();
    lit_chars_60();
    lit_chars_121();
    lit_chars_32();
    lit_chars_101();
    lit_chars_102();
    lit_chars_82();
    lit_chars_78();
    lit_chars_83();
    lit_chars_123();
    lit_chars_0();
    lit_chars_1();
    lit_chars_126();
    lit_chars_98();
    lit_chars_97();
    lit_chars_94();
    lit_chars_96();
    lit_chars_95();
    lit_chars_33();
    lit_chars_36();
    lit_chars_20();
    lit_chars_44();
    lit_chars_25();
    lit_chars_31();
    lit_chars_4();
    lit_chars_22();
    lit_chars_24();
    lit_chars_29();
    lit_chars_18();
    lit_chars_19();
    lit_chars_23();
    lit_chars_39();
    lit_chars_21();
    lit_chars_26();
    lit_chars_27();
    lit_chars_28();
    lit_chars_5();
    lit_chars_99();
    lit_chars_100();
    lemma_target_flag_none(m, "--log-errors"@, next);
    lemma_host_discovery_flag_none(m, "--log-errors"@, next);
    lemma_technique_flag_none(m, "--log-errors"@, next);
    lemma_ports_flag_none(m, "--log-errors"@, next);
    lemma_service_flag_none(m, "--log-errors"@, next);
    lemma_script_flag_none(m, "--log-errors"@, next);
    lemma_os_flag_none(m, "--log-errors"@, next);
    lemma_timing_flag_none(m, "--log-errors"@, next);
    lemma_evasion_flag_none(m, "--log-errors"@, next);
    lemma_output_flag_none(m, "--log-errors"@, next);
}

pub proof fn lemma_flag_target_specification_input_file(m: NmapScanV, v: Seq<char>)
    ensures
        spec_dispatch(m, "-iL"@, Some(v)) == FlagOutcome::Ok1(NmapScanV { target_specification: TargetSpecificationV { input_file: Some(v), ..m.target_specification }, ..m }),
{
    reveal(spec_dispatch);
    reveal(spec_target_flag);
    lit_chars_2();
    lit_chars_3();
    lit_chars_0();
    lit_chars_1();
    
}

pub proof fn lemma_flag_target_specification_random_targets(m: NmapScanV, n: u32)
    ensures
        spec_dispatch(m, "-iR"@, Some(dec_text(n as nat))) == FlagOutcome::Ok1(NmapScanV { target_specification: TargetSpecificationV { random_targets: Some(n), ..m.target_specification }, ..m }),
{
    reveal(spec_dispatch);
    reveal(spec_target_flag);
    lit_chars_2();
    lit_chars_3();
    lit_chars_0();
    lit_chars_1();
    lemma_dec_round_trip(n as nat, 0xffff_ffff);
    
}

pub proof fn lemma_flag_target_specification_exclude(m: NmapScanV, elems: Seq<Seq<char>>)
    requires
        elems.len() > 0,
        forall|i: int| 0 <= i < elems.len() ==> !(#[trigger] elems[i]).contains(','),
    ensures
        spec_dispatch(m, "--exclude"@, Some(join_comma(elems))) == FlagOutcome::Ok1(NmapScanV { target_specification: TargetSpecificationV { exclude: elems, ..m.target_specification }, ..m }),
{
    reveal(spec_dispatch);
    reveal(spec_target_flag);
    lit_chars_2();
    lit_chars_3();
    lit_chars_0();
    lit_chars_1();
    lemma_split_comma_of_join(elems);
    
}

pub proof fn lemma_flag_target_specification_exclude_file(m: NmapScanV, v: Seq<char>)
    ensures
        spec_dispatch(m, "--exclude-file"@, Some(v)) == FlagOutcome::Ok1(NmapScanV { target_specification: TargetSpecificationV { exclude_file: Some(v), ..m.target_specification }, ..m }),
{
    reveal(spec_dispatch);
    reveal(spec_target_flag);
    lit_chars_2();
    lit_chars_3();
    lit_chars_0();
    lit_chars_1();
    
}

pub proof fn lemma_flag_tech_syn(m: NmapScanV, next: Option<Seq<char>>)
    ensures
        spec_dispatch(m, "-sS"@, next) == FlagOutcome::Ok0(NmapScanV { scan_technique: ScanTechniqueV::Syn, ..m }),
{
    reveal(spec_dispatch);
    reveal(spec_technique_flag);
    lit_chars_16();
    lit_chars_2();
    lit_chars_3();
    lit_chars_30();
    lit_chars_17();
    lit_chars_15();
    lit_chars_8();
    lit_chars_11();
    lit_chars_13();
    lit_chars_14();
    lit_chars_12();
    lit_chars_7();
    lit_chars_9();
    lit_chars_10();
    lit_chars_6();
    lit_chars_32();
    lit_chars_0();
    lit_chars_1();
    lit_chars_20();
    lit_chars_25();
    lit_chars_31();
    lit_chars_4();
    lit_chars_22();
    lit_chars_24();
    lit_chars_29();
    lit_chars_18();
    lit_chars_19();
    lit_chars_23();
    lit_chars_21();
    lit_chars_26();
    lit_chars_27();
    lit_chars_28();
    lit_chars_5();
    lemma_target_flag_none(m, "-sS"@, next);
    lemma_host_discovery_flag_none(m, "-sS"@, next);
}

pub proof fn lemma_flag_tech_connect(m: NmapScanV, next: Option<Seq<char>>)
    ensures
        spec_dispatch(m, "-sT"@, next) == FlagOutcome::Ok0(NmapScanV { scan_technique: ScanTechniqueV::Connect, ..m }),
{
    reveal(spec_dispatch);
    reveal(spec_technique_flag);
    lit_chars_16();
    lit_chars_2();
    lit_chars_3();
    lit_chars_30();
    lit_chars_17();
    lit_chars_15();
    lit_chars_8();
    lit_chars_11();
    lit_chars_13();
    lit_chars_14();
    lit_chars_12();
    lit_chars_7();
    lit_chars_9();
    lit_chars_10();
    lit_chars_6();
    lit_chars_32();
    lit_chars_0();
    lit_chars_1();
    lit_chars_20();
    lit_chars_25();
    lit_chars_31();
    lit_chars_4();
    lit_chars_22();
    lit_chars_24();
    lit_chars_29();
    lit_chars_18();
    lit_chars_19();
    lit_chars_23();
    lit_chars_21();
    lit_chars_26();
    lit_chars_27();
    lit_chars_28();
    lit_chars_5();
    lemma_target_flag_none(m, "-sT"@, next);
    lemma_host_discovery_flag_none(m, "-sT"@, next);
}

pub proof fn lemma_flag_tech_ack(m: NmapScanV, next: Option<Seq<char>>)
    ensures
        spec_dispatch(m, "-sA"@, next) == FlagOutcome::Ok0(NmapScanV { scan_technique: ScanTechniqueV::Ack, ..m }),
{
    reveal(spec_dispatch);
    reveal(spec_technique_flag);
    lit_chars_16();
    lit_chars_2();
    lit_chars_3();
    lit_chars_30();
    lit_chars_17();
    lit_chars_15();
    lit_chars_8();
    lit_chars_11();
    lit_chars_13();
    lit_chars_14();
    lit_chars_12();
    lit_chars_7();
    lit_chars_9();
    lit_chars_10();
    lit_chars_6();
    lit_chars_32();
    lit_chars_0();
    lit_chars_1();
    lit_chars_20();
    lit_chars_25();
    lit_chars_31();
    lit_chars_4();
    lit_chars_22();
    lit_chars_24();
    lit_chars_29();
    lit_chars_18();
    lit_chars_19();
    lit_chars_23();
    lit_chars_21();
    lit_chars_26();
    lit_chars_27();
    lit_chars_28();
    lit_chars_5();
    lemma_target_flag_none(m, "-sA"@, next);
    lemma_host_discovery_flag_none(m, "-sA"@, next);
}

pub proof fn lemma_flag_tech_window(m: NmapScanV, next: Option<Seq<char>>)
    ensures
        spec_dispatch(m, "-sW"@, next) == FlagOutcome::Ok0(NmapScanV { scan_technique: ScanTechniqueV::Window, ..m }),
{
    reveal(spec_dispatch);
    reveal(spec_technique_flag);
    lit_chars_16();
    lit_chars_2();
    lit_chars_3();
    lit_chars_30();
    lit_chars_17();
    lit_chars_15();
    lit_chars_8();
    lit_chars_11();
    lit_chars_13();
    lit_chars_14();
    lit_chars_12();
    lit_chars_7();
    lit_chars_9();
    lit_chars_10();
    lit_chars_6();
    lit_chars_32();
    lit_chars_0();
    lit_chars_1();
    lit_chars_20();
    lit_chars_25();
    lit_chars_31();
    lit_chars_4();
    lit_chars_22();
    lit_chars_24();
    lit_chars_29();
    lit_chars_18();
    lit_chars_19();
    lit_chars_23();
    lit_chars_21();
    lit_chars_26();
    lit_chars_27();
    lit_chars_28();
    lit_chars_5();
    lemma_target_flag_none(m, "-sW"@, next);
    lemma_host_discovery_flag_none(m, "-sW"@, next);
}

pub proof fn lemma_flag_tech_maimon(m: NmapScanV, next: Option<Seq<char>>)
    ensures
        spec_dispatch(m, "-sM"@, next) == FlagOutcome::Ok0(NmapScanV { scan_technique: ScanTechniqueV::Maimon, ..m }),
{
    reveal(spec_dispatch);
    reveal(spec_technique_flag);
    lit_chars_16();
    lit_chars_2();
    lit_chars_3();
    lit_chars_30();
    lit_chars_17();
    lit_chars_15();
    lit_chars_8();
    lit_chars_11();
    lit_chars_13();
    lit_chars_14();
    lit_chars_12();
    lit_chars_7();
    lit_chars_9();
    lit_chars_10();
    lit_chars_6();
    lit_chars_32();
    lit_chars_0();
    lit_chars_1();
    lit_chars_20();
    lit_chars_25();
    lit_chars_31();
    lit_chars_4();
    lit_chars_22();
    lit_chars_24();
    lit_chars_29();
    lit_chars_18();
    lit_chars_19();
    lit_chars_23();
    lit_chars_21();
    lit_chars_26();
    lit_chars_27();
    lit_chars_28();
    lit_chars_5();
    lemma_target_flag_none(m, "-sM"@, next);
    lemma_host_discovery_flag_none(m, "-sM"@, next);
}

pub proof fn lemma_flag_tech_udp(m: NmapScanV, next: Option<Seq<char>>)
    ensures
        spec_dispatch(m, "-sU"@, next) == FlagOutcome::Ok0(NmapScanV { scan_technique: ScanTechniqueV::Udp, ..m }),
{
    reveal(spec_dispatch);
    reveal(spec_technique_flag);
    lit_chars_16();
    lit_chars_2();
    lit_chars_3();
    lit_chars_30();
    lit_chars_17();
    lit_chars_15();
    lit_chars_8();
    lit_chars_11();
    lit_chars_13();
    lit_chars_14();
    lit_chars_12();
    lit_chars_7();
    lit_chars_9();
    lit_chars_10();
    lit_chars_6();
    lit_chars_32();
    lit_chars_0();
    lit_chars_1();
    lit_chars_20();
    lit_chars_25();
    lit_chars_31();
    lit_chars_4();
    lit_chars_22();
    lit_chars_24();
    lit_chars_29();
    lit_chars_18();
    lit_chars_19();
    lit_chars_23();
    lit_chars_21();
    lit_chars_26();
    lit_chars_27();
    lit_chars_28();
    lit_chars_5();
    lemma_target_flag_none(m, "-sU"@, next);
    lemma_host_discovery_flag_none(m, "-sU"@, next);
}

pub proof fn lemma_flag_tech_tcpnull(m: NmapScanV, next: Option<Seq<char>>)
    ensures
        spec_dispatch(m, "-sN"@, next) == FlagOutcome::Ok0(NmapScanV { scan_technique: ScanTechniqueV::TcpNull, ..m }),
{
    reveal(spec_dispatch);
    reveal(spec_technique_flag);
    lit_chars_16();
    lit_chars_2();
    lit_chars_3();
    lit_chars_30();
    lit_chars_17();
    lit_chars_15();
    lit_chars_8();
    lit_chars_11();
    lit_chars_13();
    lit_chars_14();
    lit_chars_12();
    lit_chars_7();
    lit_chars_9();
    lit_chars_10();
    lit_chars_6();
    lit_chars_32();
    lit_chars_0();
    lit_chars_1();
    lit_chars_20();
    lit_chars_25();
    lit_chars_31();
    lit_chars_4();
    lit_chars_22();
    lit_chars_24();
    lit_chars_29();
    lit_chars_18();
    lit_chars_19();
    lit_chars_23();
    lit_chars_21();
    lit_chars_26();
    lit_chars_27();
    lit_chars_28();
    lit_chars_5();
    lemma_target_flag_none(m, "-sN"@, next);
    lemma_host_discovery_flag_none(m, "-sN"@, next);
}

pub proof fn lemma_flag_tech_fin(m: NmapScanV, next: Option<Seq<char>>)
    ensures
        spec_dispatch(m, "-sF"@, next) == FlagOutcome::Ok0(NmapScanV { scan_technique: ScanTechniqueV::Fin, ..m }),
{
    reveal(spec_dispatch);
    reveal(spec_technique_flag);
    lit_chars_16();
    lit_chars_2();
    lit_chars_3();
    lit_chars_30();
    lit_chars_17();
    lit_chars_15();
    lit_chars_8();
    lit_chars_11();
    lit_chars_13();
    lit_chars_14();
    lit_chars_12();
    lit_chars_7();
    lit_chars_9();
    lit_chars_10();
    lit_chars_6();
    lit_chars_32();
    lit_chars_0();
    lit_chars_1();
    lit_chars_20();
    lit_chars_25();
    lit_chars_31();
    lit_chars_4();
    lit_chars_22();
    lit_chars_24();
    lit_chars_29();
    lit_chars_18();
    lit_chars_19();
    lit_chars_23();
    lit_chars_21();
    lit_chars_26();
    lit_chars_27();
    lit_chars_28();
    lit_chars_5();
    lemma_target_flag_none(m, "-sF"@, next);
    lemma_host_discovery_flag_none(m, "-sF"@, next);
}

pub proof fn lemma_flag_tech_xmas(m: NmapScanV, next: Option<Seq<char>>)
    ensures
        spec_dispatch(m, "-sX"@, next) == FlagOutcome::Ok0(NmapScanV { scan_technique: ScanTechniqueV::Xmas, ..m }),
{
    reveal(spec_dispatch);
    reveal(spec_technique_flag);
    lit_chars_16();
    lit_chars_2();
    lit_chars_3();
    lit_chars_30();
    lit_chars_17();
    lit_chars_15();
    lit_chars_8();
    lit_chars_11();
    lit_chars_13();
    lit_chars_14();
    lit_chars_12();
    lit_chars_7();
    lit_chars_9();
    lit_chars_10();
    lit_chars_6();
    lit_chars_32();
    lit_chars_0();
    lit_chars_1();
    lit_chars_20();
    lit_chars_25();
    lit_chars_31();
    lit_chars_4();
    lit_chars_22();
    lit_chars_24();
    lit_chars_29();
    lit_chars_18();
    lit_chars_19();
    lit_chars_23();
    lit_chars_21();
    lit_chars_26();
    lit_chars_27();
    lit_chars_28();
    lit_chars_5();
    lemma_target_flag_none(m, "-sX"@, next);
    lemma_host_discovery_flag_none(m, "-sX"@, next);
}

pub proof fn lemma_flag_tech_sctp_init(m: NmapScanV, next: Option<Seq<char>>)
    ensures
        spec_dispatch(m, "-sY"@, next) == FlagOutcome::Ok0(NmapScanV { scan_technique: ScanTechniqueV::Sctp(true), ..m }),
{
    reveal(spec_dispatch);
    reveal(spec_technique_flag);
    lit_chars_16();
    lit_chars_2();
    lit_chars_3();
    lit_chars_30();
    lit_chars_17();
    lit_chars_15();
    lit_chars_8();
    lit_chars_11();
    lit_chars_13();
    lit_chars_14();
    lit_chars_12();
    lit_chars_7();
    lit_chars_9();
    lit_chars_10();
    lit_chars_6();
    lit_chars_32();
    lit_chars_0();
    lit_chars_1();
    lit_chars_20();
    lit_chars_25();
    lit_chars_31();
    lit_chars_4();
    lit_chars_22();
    lit_chars_24();
    lit_chars_29();
    lit_chars_18();
    lit_chars_19();
    lit_chars_23();
    lit_chars_21();
    lit_chars_26();
    lit_chars_27();
    lit_chars_28();
    lit_chars_5();
    lemma_target_flag_none(m, "-sY"@, next);
    lemma_host_discovery_flag_none(m, "-sY"@, next);
}

pub proof fn lemma_flag_tech_sctp_cookie(m: NmapScanV, next: Option<Seq<char>>)
    ensures
        spec_dispatch(m, "-sZ"@, next) == FlagOutcome::Ok0(NmapScanV { scan_technique: ScanTechniqueV::Sctp(false), ..m }),
{
    reveal(spec_dispatch);
    reveal(spec_technique_flag);
    lit_chars_16();
    lit_chars_2();
    lit_chars_3();
    lit_chars_30();
    lit_chars_17();
    lit_chars_15();
    lit_chars_8();
    lit_chars_11();
    lit_chars_13();
    lit_chars_14();
    lit_chars_12();
    lit_chars_7();
    lit_chars_9();
    lit_chars_10();
    lit_chars_6();
    lit_chars_32();
    lit_chars_0();
    lit_chars_1();
    lit_chars_20();
    lit_chars_25();
    lit_chars_31();
    lit_chars_4();
    lit_chars_22();
    lit_chars_24();
    lit_chars_29();
    lit_chars_18();
    lit_chars_19();
    lit_chars_23();
    lit_chars_21();
    lit_chars_26();
    lit_chars_27();
    lit_chars_28();
    lit_chars_5();
    lemma_target_flag_none(m, "-sZ"@, next);
    lemma_host_discovery_flag_none(m, "-sZ"@, next);
}

pub proof fn lemma_flag_tech_ip_protocol(m: NmapScanV, next: Option<Seq<char>>)
    ensures
        spec_dispatch(m, "-sO"@, next) == FlagOutcome::Ok0(NmapScanV { scan_technique: ScanTechniqueV::IpProtocol, ..m }),
{
    reveal(spec_dispatch);
    reveal(spec_technique_flag);
    lit_chars_16();
    lit_chars_2();
    lit_chars_3();
    lit_chars_30();
    lit_chars_17();
    lit_chars_15();
    lit_chars_8();
    lit_chars_11();
    lit_chars_13();
    lit_chars_14();
    lit_chars_12();
    lit_chars_7();
    lit_chars_9();
    lit_chars_10();
    lit_chars_6();
    lit_chars_32();
    lit_chars_0();
    lit_chars_1();
    lit_chars_20();
    lit_chars_25();
    lit_chars_31();
    lit_chars_4();
    lit_chars_22();
    lit_chars_24();
    lit_chars_29();
    lit_chars_18();
    lit_chars_19();
    lit_chars_23();
    lit_chars_21();
    lit_chars_26();
    lit_chars_27();
    lit_chars_28();
    lit_chars_5();
    lemma_target_flag_none(m, "-sO"@, next);
    lemma_host_discovery_flag_none(m, "-sO"@, next);
}

pub proof fn lemma_flag_tech_scanflags(m: NmapScanV, v: Seq<char>)
    ensures
        spec_dispatch(m, "--scanflags"@, Some(v)) == FlagOutcome::Ok1(NmapScanV { scan_technique: ScanTechniqueV::Scanflags(v), ..m }),
{
    reveal(spec_dispatch);
    reveal(spec_technique_flag);
    lit_chars_16();
    lit_chars_2();
    lit_chars_3();
    lit_chars_30();
    lit_chars_17();
    lit_chars_15();
    lit_chars_8();
    lit_chars_11();
    lit_chars_13();
    lit_chars_14();
    lit_chars_12();
    lit_chars_7();
    lit_chars_9();
    lit_chars_10();
    lit_chars_6();
    lit_chars_32();
    lit_chars_0();
    lit_chars_1();
    lit_chars_20();
    lit_chars_25();
    lit_chars_31();
    lit_chars_4();
    lit_chars_22();
    lit_chars_24();
    lit_chars_29();
    lit_chars_18();
    lit_chars_19();
    lit_chars_23();
    lit_chars_21();
    lit_chars_26();
    lit_chars_27();
    lit_chars_28();
    lit_chars_5();
    lemma_target_flag_none(m, "--scanflags"@, Some(v));
    lemma_host_discovery_flag_none(m, "--scanflags"@, Some(v));
}

pub proof fn lemma_flag_tech_idle(m: NmapScanV, v: Seq<char>)
    ensures
        spec_dispatch(m, "-sI"@, Some(v)) == FlagOutcome::Ok1(NmapScanV { scan_technique: ScanTechniqueV::Idle(v), ..m }),
{
    reveal(spec_dispatch);
    reveal(spec_technique_flag);
    lit_chars_16();
    lit_chars_2();
    lit_chars_3();
    lit_chars_30();
    lit_chars_17();
    lit_chars_15();
    lit_chars_8();
    lit_chars_11();
    lit_chars_13();
    lit_chars_14();
    lit_chars_12();
    lit_chars_7();
    lit_chars_9();
    lit_chars_10();
    lit_chars_6();
    lit_chars_32();
    lit_chars_0();
    lit_chars_1();
    lit_chars_20();
    lit_chars_25();
    lit_chars_31();
    lit_chars_4();
    lit_chars_22();
    lit_chars_24();
    lit_chars_29();
    lit_chars_18();
    lit_chars_19();
    lit_chars_23();
    lit_chars_21();
    lit_chars_26();
    lit_chars_27();
    lit_chars_28();
    lit_chars_5();
    lemma_target_flag_none(m, "-sI"@, Some(v));
    lemma_host_discovery_flag_none(m, "-sI"@, Some(v));
}

pub proof fn lemma_flag_tech_ftp(m: NmapScanV, v: Seq<char>)
    ensures
        spec_dispatch(m, "-b"@, Some(v)) == FlagOutcome::Ok1(NmapScanV { scan_technique: ScanTechniqueV::Ftp(v), ..m }),
{
    reveal(spec_dispatch);
    reveal(spec_technique_flag);
    lit_chars_16();
    lit_chars_2();
    lit_chars_3();
    lit_chars_30();
    lit_chars_17();
    lit_chars_15();
    lit_chars_8();
    lit_chars_11();
    lit_chars_13();
    lit_chars_14();
    lit_chars_12();
    lit_chars_7();
    lit_chars_9();
    lit_chars_10();
    lit_chars_6();
    lit_chars_32();
    lit_chars_0();
    lit_chars_1();
    lit_chars_20();
    lit_chars_25();
    lit_chars_31();
    lit_chars_4();
    lit_chars_22();
    lit_chars_24();
    lit_chars_29();
    lit_chars_18();
    lit_chars_19();
    lit_chars_23();
    lit_chars_21();
    lit_chars_26();
    lit_chars_27();
    lit_chars_28();
    lit_chars_5();
    lemma_target_flag_none(m, "-b"@, Some(v));
    lemma_host_discovery_flag_none(m, "-b"@, Some(v));
}

/// Every token in the list is one the grammar carries losslessly.
pub open spec fn all_tokens_ok(toks: Seq<Seq<char>>) -> bool {
    forall|i: int| 0 <= i < toks.len() ==> token_ok(#[trigger] toks[i])
}

proof fn lemma_all_ok_concat(a: Seq<Seq<char>>, b: Seq<Seq<char>>)
    requires
        all_tokens_ok(a),
        all_tokens_ok(b),
    ensures
        all_tokens_ok(a + b),
{
    assert forall|i: int| 0 <= i < (a + b).len() implies token_ok(#[trigger] (a + b)[i]) by {
        if i < a.len() {
            assert((a + b)[i] == a[i]);
        } else {
            assert((a + b)[i] == b[i - a.len()]);
        }
    }
}

proof fn lemma_not_contains_concat(a: Seq<char>, b: Seq<char>, c: char)
    requires
        !a.contains(c),
        !b.contains(c),
    ensures
        !(a + b).contains(c),
{
    if (a + b).contains(c) {
        let i = choose|i: int| 0 <= i < (a + b).len() && (a + b)[i] == c;
        if i < a.len() {
            assert(a[i] == c);
        } else {
            assert(b[i - a.len()] == c);
        }
    }
}

/// The decimal text of a number is a sound token.
proof fn lemma_dec_token_ok(n: nat)
    ensures
        token_ok(dec_text(n)),
{
    lemma_dec_text_digits(n);
}

/// A rendered port list holds digits and commas only.
proof fn lemma_ptext_clean(l: Seq<u16>)
    ensures
        !port_list_text(l).contains(' '),
        !port_list_text(l).contains('\t'),
        !port_list_text(l).contains('"'),
        !port_list_text(l).contains('\n'),
        !port_list_text(l).contains('\\'),
{
    let texts = port_texts(l);
    assert forall|i: int| 0 <= i < texts.len() implies !(#[trigger] texts[i]).contains(' ')
        && !texts[i].contains('\t') && !texts[i].contains('"') && !texts[i].contains('\n')
        && !texts[i].contains('\\') by {
        lemma_dec_text_digits(l[i] as nat);
        assert forall|j: int| 0 <= j < texts[i].len() implies texts[i][j] != '\\' by {
            assert(crate::numbers::digit_of(texts[i][j]) is Some);
        }
        if texts[i].contains('\\') {
            let j = choose|j: int| 0 <= j < texts[i].len() && texts[i][j] == '\\';
        }
    }
    lemma_join_comma_chars(texts, ' ');
    lemma_join_comma_chars(texts, '\t');
    lemma_join_comma_chars(texts, '"');
    lemma_join_comma_chars(texts, '\n');
    lemma_join_comma_chars(texts, '\\');
}

/// A rendered protocol list holds digits and commas only.
proof fn lemma_prototext_clean(l: Seq<u8>)
    ensures
        !proto_list_text(l).contains(' '),
        !proto_list_text(l).contains('\t'),
        !proto_list_text(l).contains('"'),
        !proto_list_text(l).contains('\n'),
        !proto_list_text(l).contains('\\'),
{
    let texts = proto_texts(l);
    assert forall|i: int| 0 <= i < texts.len() implies !(#[trigger] texts[i]).contains(' ')
        && !texts[i].contains('\t') && !texts[i].contains('"') && !texts[i].contains('\n')
        && !texts[i].contains('\\') by {
        lemma_dec_text_digits(l[i] as nat);
        assert forall|j: int| 0 <= j < texts[i].len() implies texts[i][j] != '\\' by {
            assert(crate::numbers::digit_of(texts[i][j]) is Some);
        }
        if texts[i].contains('\\') {
            let j = choose|j: int| 0 <= j < texts[i].len() && texts[i][j] == '\\';
        }
    }
    lemma_join_comma_chars(texts, ' ');
    lemma_join_comma_chars(texts, '\t');
    lemma_join_comma_chars(texts, '"');
    lemma_join_comma_chars(texts, '\n');
    lemma_join_comma_chars(texts, '\\');
}

proof fn lemma_lit_ok_0()
    ensures
        token_ok("-iL"@),
        !needs_quote("-iL"@),
        !"-iL"@.contains(' '),
        !"-iL"@.contains('\t'),
        !"-iL"@.contains('"'),
        !"-iL"@.contains('\n'),
{
    lit_chars_0();
    assert(!"-iL"@.contains(' ')) by {
        if "-iL"@.contains(' ') {
            let i = choose|i: int| 0 <= i < "-iL"@.len() && "-iL"@[i] == ' ';
        }
    }
    assert(!"-iL"@.contains('\t')) by {
        if "-iL"@.contains('\t') {
            let i = choose|i: int| 0 <= i < "-iL"@.len() && "-iL"@[i] == '\t';
        }
    }
    assert(!"-iL"@.contains('"')) by {
        if "-iL"@.contains('"') {
            let i = choose|i: int| 0 <= i < "-iL"@.len() && "-iL"@[i] == '"';
        }
    }
    assert(!"-iL"@.contains('\n')) by {
        if "-iL"@.contains('\n') {
            let i = choose|i: int| 0 <= i < "-iL"@.len() && "-iL"@[i] == '\n';
        }
    }
}

proof fn lemma_lit_ok_1()
    ensures
        token_ok("-iR"@),
        !needs_quote("-iR"@),
        !"-iR"@.contains(' '),
        !"-iR"@.contains('\t'),
        !"-iR"@.contains('"'),
        !"-iR"@.contains('\n'),
{
    lit_chars_1();
    assert(!"-iR"@.contains(' ')) by {
        if "-iR"@.contains(' ') {
            let i = choose|i: int| 0 <= i < "-iR"@.len() && "-iR"@[i] == ' ';
        }
    }
    assert(!"-iR"@.contains('\t')) by {
        if "-iR"@.contains('\t') {
            let i = choose|i: int| 0 <= i < "-iR"@.len() && "-iR"@[i] == '\t';
        }
    }
    assert(!"-iR"@.contains('"')) by {
        if "-iR"@.contains('"') {
            let i = choose|i: int| 0 <= i < "-iR"@.len() && "-iR"@[i] == '"';
        }
    }
    assert(!"-iR"@.contains('\n')) by {
        if "-iR"@.contains('\n') {
            let i = choose|i: int| 0 <= i < "-iR"@.len() && "-iR"@[i] == '\n';
        }
    }
}

proof fn lemma_lit_ok_2()
    ensures
        token_ok("--exclude"@),
        !needs_quote("--exclude"@),
        !"--exclude"@.contains(' '),
        !"--exclude"@.contains('\t'),
        !"--exclude"@.contains('"'),
        !"--exclude"@.contains('\n'),
{
    lit_chars_2();
    assert(!"--exclude"@.contains(' ')) by {
        if "--exclude"@.contains(' ') {
            let i = choose|i: int| 0 <= i < "--exclude"@.len() && "--exclude"@[i] == ' ';
        }
    }
    assert(!"--exclude"@.contains('\t')) by {
        if "--exclude"@.contains('\t') {
            let i = choose|i: int| 0 <= i < "--exclude"@.len() && "--exclude"@[i] == '\t';
        }
    }
    assert(!"--exclude"@.contains('"')) by {
        if "--exclude"@.contains('"') {
            let i = choose|i: int| 0 <= i < "--exclude"@.len() && "--exclude"@[i] == '"';
        }
    }
    assert(!"--exclude"@.contains('\n')) by {
        if "--exclude"@.contains('\n') {
            let i = choose|i: int| 0 <= i < "--exclude"@.len() && "--exclude"@[i] == '\n';
        }
    }
}

proof fn lemma_lit_ok_3()
    ensures
        token_ok("--exclude-file"@),
        !needs_quote("--exclude-file"@),
        !"--exclude-file"@.contains(' '),
        !"--exclude-file"@.contains('\t'),
        !"--exclude-file"@.contains('"'),
        !"--exclude-file"@.contains('\n'),
{
    lit_chars_3();
    assert(!"--exclude-file"@.contains(' ')) by {
        if "--exclude-file"@.contains(' ') {
            let i = choose|i: int| 0 <= i < "--exclude-file"@.len() && "--exclude-file"@[i] == ' ';
        }
    }
    assert(!"--exclude-file"@.contains('\t')) by {
        if "--exclude-file"@.contains('\t') {
            let i = choose|i: int| 0 <= i < "--exclude-file"@.len() && "--exclude-file"@[i] == '\t';
        }
    }
    assert(!"--exclude-file"@.contains('"')) by {
        if "--exclude-file"@.contains('"') {
            let i = choose|i: int| 0 <= i < "--exclude-file"@.len() && "--exclude-file"@[i] == '"';
        }
    }
    assert(!"--exclude-file"@.contains('\n')) by {
        if "--exclude-file"@.contains('\n') {
            let i = choose|i: int| 0 <= i < "--exclude-file"@.len() && "--exclude-file"@[i] == '\n';
        }
    }
}

proof fn lemma_lit_ok_4()
    ensures
        token_ok("-sL"@),
        !needs_quote("-sL"@),
        !"-sL"@.contains(' '),
        !"-sL"@.contains('\t'),
        !"-sL"@.contains('"'),
        !"-sL"@.contains('\n'),
{
    lit_chars_4();
    assert(!"-sL"@.contains(' ')) by {
        if "-sL"@.contains(' ') {
            let i = choose|i: int| 0 <= i < "-sL"@.len() && "-sL"@[i] == ' ';
        }
    }
    assert(!"-sL"@.contains('\t')) by {
        if "-sL"@.contains('\t') {
            let i = choose|i: int| 0 <= i < "-sL"@.len() && "-sL"@[i] == '\t';
        }
    }
    assert(!"-sL"@.contains('"')) by {
        if "-sL"@.contains('"') {
            let i = choose|i: int| 0 <= i < "-sL"@.len() && "-sL"@[i] == '"';
        }
    }
    assert(!"-sL"@.contains('\n')) by {
        if "-sL"@.contains('\n') {
            let i = choose|i: int| 0 <= i < "-sL"@.len() && "-sL"@[i] == '\n';
        }
    }
}

proof fn lemma_lit_ok_5()
    ensures
        token_ok("-sn"@),
        !needs_quote("-sn"@),
        !"-sn"@.contains(' '),
        !"-sn"@.contains('\t'),
        !"-sn"@.contains('"'),
        !"-sn"@.contains('\n'),
{
    lit_chars_5();
    assert(!"-sn"@.contains(' ')) by {
        if "-sn"@.contains(' ') {
            let i = choose|i: int| 0 <= i < "-sn"@.len() && "-sn"@[i] == ' ';
        }
    }
    assert(!"-sn"@.contains('\t')) by {
        if "-sn"@.contains('\t') {
            let i = choose|i: int| 0 <= i < "-sn"@.len() && "-sn"@[i] == '\t';
        }
    }
    assert(!"-sn"@.contains('"')) by {
        if "-sn"@.contains('"') {
            let i = choose|i: int| 0 <= i < "-sn"@.len() && "-sn"@[i] == '"';
        }
    }
    assert(!"-sn"@.contains('\n')) by {
        if "-sn"@.contains('\n') {
            let i = choose|i: int| 0 <= i < "-sn"@.len() && "-sn"@[i] == '\n';
        }
    }
}

proof fn lemma_lit_ok_6()
    ensures
        token_ok("-Pn"@),
        !needs_quote("-Pn"@),
        !"-Pn"@.contains(' '),
        !"-Pn"@.contains('\t'),
        !"-Pn"@.contains('"'),
        !"-Pn"@.contains('\n'),
{
    lit_chars_6();
    assert(!"-Pn"@.contains(' ')) by {
        if "-Pn"@.contains(' ') {
            let i = choose|i: int| 0 <= i < "-Pn"@.len() && "-Pn"@[i] == ' ';
        }
    }
    assert(!"-Pn"@.contains('\t')) by {
        if "-Pn"@.contains('\t') {
            let i = choose|i: int| 0 <= i < "-Pn"@.len() && "-Pn"@[i] == '\t';
        }
    }
    assert(!"-Pn"@.contains('"')) by {
        if "-Pn"@.contains('"') {
            let i = choose|i: int| 0 <= i < "-Pn"@.len() && "-Pn"@[i] == '"';
        }
    }
    assert(!"-Pn"@.contains('\n')) by {
        if "-Pn"@.contains('\n') {
            let i = choose|i: int| 0 <= i < "-Pn"@.len() && "-Pn"@[i] == '\n';
        }
    }
}

proof fn lemma_lit_ok_7()
    ensures
        token_ok("-PS"@),
        !needs_quote("-PS"@),
        !"-PS"@.contains(' '),
        !"-PS"@.contains('\t'),
        !"-PS"@.contains('"'),
        !"-PS"@.contains('\n'),
{
    lit_chars_7();
    assert(!"-PS"@.contains(' ')) by {
        if "-PS"@.contains(' ') {
            let i = choose|i: int| 0 <= i < "-PS"@.len() && "-PS"@[i] == ' ';
        }
    }
    assert(!"-PS"@.contains('\t')) by {
        if "-PS"@.contains('\t') {
            let i = choose|i: int| 0 <= i < "-PS"@.len() && "-PS"@[i] == '\t';
        }
    }
    assert(!"-PS"@.contains('"')) by {
        if "-PS"@.contains('"') {
            let i = choose|i: int| 0 <= i < "-PS"@.len() && "-PS"@[i] == '"';
        }
    }
    assert(!"-PS"@.contains('\n')) by {
        if "-PS"@.contains('\n') {
            let i = choose|i: int| 0 <= i < "-PS"@.len() && "-PS"@[i] == '\n';
        }
    }
}

proof fn lemma_lit_ok_8()
    ensures
        token_ok("-PA"@),
        !needs_quote("-PA"@),
        !"-PA"@.contains(' '),
        !"-PA"@.contains('\t'),
        !"-PA"@.contains('"'),
        !"-PA"@.contains('\n'),
{
    lit_chars_8();
    assert(!"-PA"@.contains(' ')) by {
        if "-PA"@.contains(' ') {
            let i = choose|i: int| 0 <= i < "-PA"@.len() && "-PA"@[i] == ' ';
        }
    }
    assert(!"-PA"@.contains('\t')) by {
        if "-PA"@.contains('\t') {
            let i = choose|i: int| 0 <= i < "-PA"@.len() && "-PA"@[i] == '\t';
        }
    }
    assert(!"-PA"@.contains('"')) by {
        if "-PA"@.contains('"') {
            let i = choose|i: int| 0 <= i < "-PA"@.len() && "-PA"@[i] == '"';
        }
    }
    assert(!"-PA"@.contains('\n')) by {
        if "-PA"@.contains('\n') {
            let i = choose|i: int| 0 <= i < "-PA"@.len() && "-PA"@[i] == '\n';
        }
    }
}

proof fn lemma_lit_ok_9()
    ensures
        token_ok("-PU"@),
        !needs_quote("-PU"@),
        !"-PU"@.contains(' '),
        !"-PU"@.contains('\t'),
        !"-PU"@.contains('"'),
        !"-PU"@.contains('\n'),
{
    lit_chars_9();
    assert(!"-PU"@.contains(' ')) by {
        if "-PU"@.contains(' ') {
            let i = choose|i: int| 0 <= i < "-PU"@.len() && "-PU"@[i] == ' ';
        }
    }
    assert(!"-PU"@.contains('\t')) by {
        if "-PU"@.contains('\t') {
            let i = choose|i: int| 0 <= i < "-PU"@.len() && "-PU"@[i] == '\t';
        }
    }
    assert(!"-PU"@.contains('"')) by {
        if "-PU"@.contains('"') {
            let i = choose|i: int| 0 <= i < "-PU"@.len() && "-PU"@[i] == '"';
        }
    }
    assert(!"-PU"@.contains('\n')) by {
        if "-PU"@.contains('\n') {
            let i = choose|i: int| 0 <= i < "-PU"@.len() && "-PU"@[i] == '\n';
        }
    }
}

proof fn lemma_lit_ok_10()
    ensures
        token_ok("-PY"@),
        !needs_quote("-PY"@),
        !"-PY"@.contains(' '),
        !"-PY"@.contains('\t'),
        !"-PY"@.contains('"'),
        !"-PY"@.contains('\n'),
{
    lit_chars_10();
    assert(!"-PY"@.contains(' ')) by {
        if "-PY"@.contains(' ') {
            let i = choose|i: int| 0 <= i < "-PY"@.len() && "-PY"@[i] == ' ';
        }
    }
    assert(!"-PY"@.contains('\t')) by {
        if "-PY"@.contains('\t') {
            let i = choose|i: int| 0 <= i < "-PY"@.len() && "-PY"@[i] == '\t';
        }
    }
    assert(!"-PY"@.contains('"')) by {
        if "-PY"@.contains('"') {
            let i = choose|i: int| 0 <= i < "-PY"@.len() && "-PY"@[i] == '"';
        }
    }
    assert(!"-PY"@.contains('\n')) by {
        if "-PY"@.contains('\n') {
            let i = choose|i: int| 0 <= i < "-PY"@.len() && "-PY"@[i] == '\n';
        }
    }
}

proof fn lemma_lit_ok_11()
    ensures
        token_ok("-PE"@),
        !needs_quote("-PE"@),
        !"-PE"@.contains(' '),
        !"-PE"@.contains('\t'),
        !"-PE"@.contains('"'),
        !"-PE"@.contains('\n'),
{
    lit_chars_11();
    assert(!"-PE"@.contains(' ')) by {
        if "-PE"@.contains(' ') {
            let i = choose|i: int| 0 <= i < "-PE"@.len() && "-PE"@[i] == ' ';
        }
    }
    assert(!"-PE"@.contains('\t')) by {
        if "-PE"@.contains('\t') {
            let i = choose|i: int| 0 <= i < "-PE"@.len() && "-PE"@[i] == '\t';
        }
    }
    assert(!"-PE"@.contains('"')) by {
        if "-PE"@.contains('"') {
            let i = choose|i: int| 0 <= i < "-PE"@.len() && "-PE"@[i] == '"';
        }
    }
    assert(!"-PE"@.contains('\n')) by {
        if "-PE"@.contains('\n') {
            let i = choose|i: int| 0 <= i < "-PE"@.len() && "-PE"@[i] == '\n';
        }
    }
}

proof fn lemma_lit_ok_12()
    ensures
        token_ok("-PP"@),
        !needs_quote("-PP"@),
        !"-PP"@.contains(' '),
        !"-PP"@.contains('\t'),
        !"-PP"@.contains('"'),
        !"-PP"@.contains('\n'),
{
    lit_chars_12();
    assert(!"-PP"@.contains(' ')) by {
        if "-PP"@.contains(' ') {
            let i = choose|i: int| 0 <= i < "-PP"@.len() && "-PP"@[i] == ' ';
        }
    }
    assert(!"-PP"@.contains('\t')) by {
        if "-PP"@.contains('\t') {
            let i = choose|i: int| 0 <= i < "-PP"@.len() && "-PP"@[i] == '\t';
        }
    }
    assert(!"-PP"@.contains('"')) by {
        if "-PP"@.contains('"') {
            let i = choose|i: int| 0 <= i < "-PP"@.len() && "-PP"@[i] == '"';
        }
    }
    assert(!"-PP"@.contains('\n')) by {
        if "-PP"@.contains('\n') {
            let i = choose|i: int| 0 <= i < "-PP"@.len() && "-PP"@[i] == '\n';
        }
    }
}

proof fn lemma_lit_ok_13()
    ensures
        token_ok("-PM"@),
        !needs_quote("-PM"@),
        !"-PM"@.contains(' '),
        !"-PM"@.contains('\t'),
        !"-PM"@.contains('"'),
        !"-PM"@.contains('\n'),
{
    lit_chars_13();
    assert(!"-PM"@.contains(' ')) by {
        if "-PM"@.contains(' ') {
            let i = choose|i: int| 0 <= i < "-PM"@.len() && "-PM"@[i] == ' ';
        }
    }
    assert(!"-PM"@.contains('\t')) by {
        if "-PM"@.contains('\t') {
            let i = choose|i: int| 0 <= i < "-PM"@.len() && "-PM"@[i] == '\t';
        }
    }
    assert(!"-PM"@.contains('"')) by {
        if "-PM"@.contains('"') {
            let i = choose|i: int| 0 <= i < "-PM"@.len() && "-PM"@[i] == '"';
        }
    }
    assert(!"-PM"@.contains('\n')) by {
        if "-PM"@.contains('\n') {
            let i = choose|i: int| 0 <= i < "-PM"@.len() && "-PM"@[i] == '\n';
        }
    }
}

proof fn lemma_lit_ok_14()
    ensures
        token_ok("-PO"@),
        !needs_quote("-PO"@),
        !"-PO"@.contains(' '),
        !"-PO"@.contains('\t'),
        !"-PO"@.contains('"'),
        !"-PO"@.contains('\n'),
{
    lit_chars_14();
    assert(!"-PO"@.contains(' ')) by {
        if "-PO"@.contains(' ') {
            let i = choose|i: int| 0 <= i < "-PO"@.len() && "-PO"@[i] == ' ';
        }
    }
    assert(!"-PO"@.contains('\t')) by {
        if "-PO"@.contains('\t') {
            let i = choose|i: int| 0 <= i < "-PO"@.len() && "-PO"@[i] == '\t';
        }
    }
    assert(!"-PO"@.contains('"')) by {
        if "-PO"@.contains('"') {
            let i = choose|i: int| 0 <= i < "-PO"@.len() && "-PO"@[i] == '"';
        }
    }
    assert(!"-PO"@.contains('\n')) by {
        if "-PO"@.contains('\n') {
            let i = choose|i: int| 0 <= i < "-PO"@.len() && "-PO"@[i] == '\n';
        }
    }
}

proof fn lemma_lit_ok_15()
    ensures
        token_ok("--traceroute"@),
        !needs_quote("--traceroute"@),
        !"--traceroute"@.contains(' '),
        !"--traceroute"@.contains('\t'),
        !"--traceroute"@.contains('"'),
        !"--traceroute"@.contains('\n'),
{
    lit_chars_15();
    assert(!"--traceroute"@.contains(' ')) by {
        if "--traceroute"@.contains(' ') {
            let i = choose|i: int| 0 <= i < "--traceroute"@.len() && "--traceroute"@[i] == ' ';
        }
    }
    assert(!"--traceroute"@.contains('\t')) by {
        if "--traceroute"@.contains('\t') {
            let i = choose|i: int| 0 <= i < "--traceroute"@.len() && "--traceroute"@[i] == '\t';
        }
    }
    assert(!"--traceroute"@.contains('"')) by {
        if "--traceroute"@.contains('"') {
            let i = choose|i: int| 0 <= i < "--traceroute"@.len() && "--traceroute"@[i] == '"';
        }
    }
    assert(!"--traceroute"@.contains('\n')) by {
        if "--traceroute"@.contains('\n') {
            let i = choose|i: int| 0 <= i < "--traceroute"@.len() && "--traceroute"@[i] == '\n';
        }
    }
}

proof fn lemma_lit_ok_16()
    ensures
        token_ok("--dns-servers"@),
        !needs_quote("--dns-servers"@),
        !"--dns-servers"@.contains(' '),
        !"--dns-servers"@.contains('\t'),
        !"--dns-servers"@.contains('"'),
        !"--dns-servers"@.contains('\n'),
{
    lit_chars_16();
    assert(!"--dns-servers"@.contains(' ')) by {
        if "--dns-servers"@.contains(' ') {
            let i = choose|i: int| 0 <= i < "--dns-servers"@.len() && "--dns-servers"@[i] == ' ';
        }
    }
    assert(!"--dns-servers"@.contains('\t')) by {
        if "--dns-servers"@.contains('\t') {
            let i = choose|i: int| 0 <= i < "--dns-servers"@.len() && "--dns-servers"@[i] == '\t';
        }
    }
    assert(!"--dns-servers"@.contains('"')) by {
        if "--dns-servers"@.contains('"') {
            let i = choose|i: int| 0 <= i < "--dns-servers"@.len() && "--dns-servers"@[i] == '"';
        }
    }
    assert(!"--dns-servers"@.contains('\n')) by {
        if "--dns-servers"@.contains('\n') {
            let i = choose|i: int| 0 <= i < "--dns-servers"@.len() && "--dns-servers"@[i] == '\n';
        }
    }
}

proof fn lemma_lit_ok_17()
    ensures
        token_ok("--system-dns"@),
        !needs_quote("--system-dns"@),
        !"--system-dns"@.contains(' '),
        !"--system-dns"@.contains('\t'),
        !"--system-dns"@.contains('"'),
        !"--system-dns"@.contains('\n'),
{
    lit_chars_17();
    assert(!"--system-dns"@.contains(' ')) by {
        if "--system-dns"@.contains(' ') {
            let i = choose|i: int| 0 <= i < "--system-dns"@.len() && "--system-dns"@[i] == ' ';
        }
    }
    assert(!"--system-dns"@.contains('\t')) by {
        if "--system-dns"@.contains('\t') {
            let i = choose|i: int| 0 <= i < "--system-dns"@.len() && "--system-dns"@[i] == '\t';
        }
    }
    assert(!"--system-dns"@.contains('"')) by {
        if "--system-dns"@.contains('"') {
            let i = choose|i: int| 0 <= i < "--system-dns"@.len() && "--system-dns"@[i] == '"';
        }
    }
    assert(!"--system-dns"@.contains('\n')) by {
        if "--system-dns"@.contains('\n') {
            let i = choose|i: int| 0 <= i < "--system-dns"@.len() && "--system-dns"@[i] == '\n';
        }
    }
}

proof fn lemma_lit_ok_18()
    ensures
        token_ok("-sS"@),
        !needs_quote("-sS"@),
        !"-sS"@.contains(' '),
        !"-sS"@.contains('\t'),
        !"-sS"@.contains('"'),
        !"-sS"@.contains('\n'),
{
    lit_chars_18();
    assert(!"-sS"@.contains(' ')) by {
        if "-sS"@.contains(' ') {
            let i = choose|i: int| 0 <= i < "-sS"@.len() && "-sS"@[i] == ' ';
        }
    }
    assert(!"-sS"@.contains('\t')) by {
        if "-sS"@.contains('\t') {
            let i = choose|i: int| 0 <= i < "-sS"@.len() && "-sS"@[i] == '\t';
        }
    }
    assert(!"-sS"@.contains('"')) by {
        if "-sS"@.contains('"') {
            let i = choose|i: int| 0 <= i < "-sS"@.len() && "-sS"@[i] == '"';
        }
    }
    assert(!"-sS"@.contains('\n')) by {
        if "-sS"@.contains('\n') {
            let i = choose|i: int| 0 <= i < "-sS"@.len() && "-sS"@[i] == '\n';
        }
    }
}

proof fn lemma_lit_ok_19()
    ensures
        token_ok("-sT"@),
        !needs_quote("-sT"@),
        !"-sT"@.contains(' '),
        !"-sT"@.contains('\t'),
        !"-sT"@.contains('"'),
        !"-sT"@.contains('\n'),
{
    lit_chars_19();
    assert(!"-sT"@.contains(' ')) by {
        if "-sT"@.contains(' ') {
            let i = choose|i: int| 0 <= i < "-sT"@.len() && "-sT"@[i] == ' ';
        }
    }
    assert(!"-sT"@.contains('\t')) by {
        if "-sT"@.contains('\t') {
            let i = choose|i: int| 0 <= i < "-sT"@.len() && "-sT"@[i] == '\t';
        }
    }
    assert(!"-sT"@.contains('"')) by {
        if "-sT"@.contains('"') {
            let i = choose|i: int| 0 <= i < "-sT"@.len() && "-sT"@[i] == '"';
        }
    }
    assert(!"-sT"@.contains('\n')) by {
        if "-sT"@.contains('\n') {
            let i = choose|i: int| 0 <= i < "-sT"@.len() && "-sT"@[i] == '\n';
        }
    }
}

proof fn lemma_lit_ok_20()
    ensures
        token_ok("-sA"@),
        !needs_quote("-sA"@),
        !"-sA"@.contains(' '),
        !"-sA"@.contains('\t'),
        !"-sA"@.contains('"'),
        !"-sA"@.contains('\n'),
{
    lit_chars_20();
    assert(!"-sA"@.contains(' ')) by {
        if "-sA"@.contains(' ') {
            let i = choose|i: int| 0 <= i < "-sA"@.len() && "-sA"@[i] == ' ';
        }
    }
    assert(!"-sA"@.contains('\t')) by {
        if "-sA"@.contains('\t') {
            let i = choose|i: int| 0 <= i < "-sA"@.len() && "-sA"@[i] == '\t';
        }
    }
    assert(!"-sA"@.contains('"')) by {
        if "-sA"@.contains('"') {
            let i = choose|i: int| 0 <= i < "-sA"@.len() && "-sA"@[i] == '"';
        }
    }
    assert(!"-sA"@.contains('\n')) by {
        if "-sA"@.contains('\n') {
            let i = choose|i: int| 0 <= i < "-sA"@.len() && "-sA"@[i] == '\n';
        }
    }
}

proof fn lemma_lit_ok_21()
    ensures
        token_ok("-sW"@),
        !needs_quote("-sW"@),
        !"-sW"@.contains(' '),
        !"-sW"@.contains('\t'),
        !"-sW"@.contains('"'),
        !"-sW"@.contains('\n'),
{
    lit_chars_21();
    assert(!"-sW"@.contains(' ')) by {
        if "-sW"@.contains(' ') {
            let i = choose|i: int| 0 <= i < "-sW"@.len() && "-sW"@[i] == ' ';
        }
    }
    assert(!"-sW"@.contains('\t')) by {
        if "-sW"@.contains('\t') {
            let i = choose|i: int| 0 <= i < "-sW"@.len() && "-sW"@[i] == '\t';
        }
    }
    assert(!"-sW"@.contains('"')) by {
        if "-sW"@.contains('"') {
            let i = choose|i: int| 0 <= i < "-sW"@.len() && "-sW"@[i] == '"';
        }
    }
    assert(!"-sW"@.contains('\n')) by {
        if "-sW"@.contains('\n') {
            let i = choose|i: int| 0 <= i < "-sW"@.len() && "-sW"@[i] == '\n';
        }
    }
}

proof fn lemma_lit_ok_22()
    ensures
        token_ok("-sM"@),
        !needs_quote("-sM"@),
        !"-sM"@.contains(' '),
        !"-sM"@.contains('\t'),
        !"-sM"@.contains('"'),
        !"-sM"@.contains('\n'),
{
    lit_chars_22();
    assert(!"-sM"@.contains(' ')) by {
        if "-sM"@.contains(' ') {
            let i = choose|i: int| 0 <= i < "-sM"@.len() && "-sM"@[i] == ' ';
        }
    }
    assert(!"-sM"@.contains('\t')) by {
        if "-sM"@.contains('\t') {
            let i = choose|i: int| 0 <= i < "-sM"@.len() && "-sM"@[i] == '\t';
        }
    }
    assert(!"-sM"@.contains('"')) by {
        if "-sM"@.contains('"') {
            let i = choose|i: int| 0 <= i < "-sM"@.len() && "-sM"@[i] == '"';
        }
    }
    assert(!"-sM"@.contains('\n')) by {
        if "-sM"@.contains('\n') {
            let i = choose|i: int| 0 <= i < "-sM"@.len() && "-sM"@[i] == '\n';
        }
    }
}

proof fn lemma_lit_ok_23()
    ensures
        token_ok("-sU"@),
        !needs_quote("-sU"@),
        !"-sU"@.contains(' '),
        !"-sU"@.contains('\t'),
        !"-sU"@.contains('"'),
        !"-sU"@.contains('\n'),
{
    lit_chars_23();
    assert(!"-sU"@.contains(' ')) by {
        if "-sU"@.contains(' ') {
            let i = choose|i: int| 0 <= i < "-sU"@.len() && "-sU"@[i] == ' ';
        }
    }
    assert(!"-sU"@.contains('\t')) by {
        if "-sU"@.contains('\t') {
            let i = choose|i: int| 0 <= i < "-sU"@.len() && "-sU"@[i] == '\t';
        }
    }
    assert(!"-sU"@.contains('"')) by {
        if "-sU"@.contains('"') {
            let i = choose|i: int| 0 <= i < "-sU"@.len() && "-sU"@[i] == '"';
        }
    }
    assert(!"-sU"@.contains('\n')) by {
        if "-sU"@.contains('\n') {
            let i = choose|i: int| 0 <= i < "-sU"@.len() && "-sU"@[i] == '\n';
        }
    }
}

proof fn lemma_lit_ok_24()
    ensures
        token_ok("-sN"@),
        !needs_quote("-sN"@),
        !"-sN"@.contains(' '),
        !"-sN"@.contains('\t'),
        !"-sN"@.contains('"'),
        !"-sN"@.contains('\n'),
{
    lit_chars_24();
    assert(!"-sN"@.contains(' ')) by {
        if "-sN"@.contains(' ') {
            let i = choose|i: int| 0 <= i < "-sN"@.len() && "-sN"@[i] == ' ';
        }
    }
    assert(!"-sN"@.contains('\t')) by {
        if "-sN"@.contains('\t') {
            let i = choose|i: int| 0 <= i < "-sN"@.len() && "-sN"@[i] == '\t';
        }
    }
    assert(!"-sN"@.contains('"')) by {
        if "-sN"@.contains('"') {
            let i = choose|i: int| 0 <= i < "-sN"@.len() && "-sN"@[i] == '"';
        }
    }
    assert(!"-sN"@.contains('\n')) by {
        if "-sN"@.contains('\n') {
            let i = choose|i: int| 0 <= i < "-sN"@.len() && "-sN"@[i] == '\n';
        }
    }
}

proof fn lemma_lit_ok_25()
    ensures
        token_ok("-sF"@),
        !needs_quote("-sF"@),
        !"-sF"@.contains(' '),
        !"-sF"@.contains('\t'),
        !"-sF"@.contains('"'),
        !"-sF"@.contains('\n'),
{
    lit_chars_25();
    assert(!"-sF"@.contains(' ')) by {
        if "-sF"@.contains(' ') {
            let i = choose|i: int| 0 <= i < "-sF"@.len() && "-sF"@[i] == ' ';
        }
    }
    assert(!"-sF"@.contains('\t')) by {
        if "-sF"@.contains('\t') {
            let i = choose|i: int| 0 <= i < "-sF"@.len() && "-sF"@[i] == '\t';
        }
    }
    assert(!"-sF"@.contains('"')) by {
        if "-sF"@.contains('"') {
            let i = choose|i: int| 0 <= i < "-sF"@.len() && "-sF"@[i] == '"';
        }
    }
    assert(!"-sF"@.contains('\n')) by {
        if "-sF"@.contains('\n') {
            let i = choose|i: int| 0 <= i < "-sF"@.len() && "-sF"@[i] == '\n';
        }
    }
}

proof fn lemma_lit_ok_26()
    ensures
        token_ok("-sX"@),
        !needs_quote("-sX"@),
        !"-sX"@.contains(' '),
        !"-sX"@.contains('\t'),
        !"-sX"@.contains('"'),
        !"-sX"@.contains('\n'),
{
    lit_chars_26();
    assert(!"-sX"@.contains(' ')) by {
        if "-sX"@.contains(' ') {
            let i = choose|i: int| 0 <= i < "-sX"@.len() && "-sX"@[i] == ' ';
        }
    }
    assert(!"-sX"@.contains('\t')) by {
        if "-sX"@.contains('\t') {
            let i = choose|i: int| 0 <= i < "-sX"@.len() && "-sX"@[i] == '\t';
        }
    }
    assert(!"-sX"@.contains('"')) by {
        if "-sX"@.contains('"') {
            let i = choose|i: int| 0 <= i < "-sX"@.len() && "-sX"@[i] == '"';
        }
    }
    assert(!"-sX"@.contains('\n')) by {
        if "-sX"@.contains('\n') {
            let i = choose|i: int| 0 <= i < "-sX"@.len() && "-sX"@[i] == '\n';
        }
    }
}

proof fn lemma_lit_ok_27()
    ensures
        token_ok("-sY"@),
        !needs_quote("-sY"@),
        !"-sY"@.contains(' '),
        !"-sY"@.contains('\t'),
        !"-sY"@.contains('"'),
        !"-sY"@.contains('\n'),
{
    lit_chars_27();
    assert(!"-sY"@.contains(' ')) by {
        if "-sY"@.contains(' ') {
            let i = choose|i: int| 0 <= i < "-sY"@.len() && "-sY"@[i] == ' ';
        }
    }
    assert(!"-sY"@.contains('\t')) by {
        if "-sY"@.contains('\t') {
            let i = choose|i: int| 0 <= i < "-sY"@.len() && "-sY"@[i] == '\t';
        }
    }
    assert(!"-sY"@.contains('"')) by {
        if "-sY"@.contains('"') {
            let i = choose|i: int| 0 <= i < "-sY"@.len() && "-sY"@[i] == '"';
        }
    }
    assert(!"-sY"@.contains('\n')) by {
        if "-sY"@.contains('\n') {
            let i = choose|i: int| 0 <= i < "-sY"@.len() && "-sY"@[i] == '\n';
        }
    }
}

proof fn lemma_lit_ok_28()
    ensures
        token_ok("-sZ"@),
        !needs_quote("-sZ"@),
        !"-sZ"@.contains(' '),
        !"-sZ"@.contains('\t'),
        !"-sZ"@.contains('"'),
        !"-sZ"@.contains('\n'),
{
    lit_chars_28();
    assert(!"-sZ"@.contains(' ')) by {
        if "-sZ"@.contains(' ') {
            let i = choose|i: int| 0 <= i < "-sZ"@.len() && "-sZ"@[i] == ' ';
        }
    }
    assert(!"-sZ"@.contains('\t')) by {
        if "-sZ"@.contains('\t') {
            let i = choose|i: int| 0 <= i < "-sZ"@.len() && "-sZ"@[i] == '\t';
        }
    }
    assert(!"-sZ"@.contains('"')) by {
        if "-sZ"@.contains('"') {
            let i = choose|i: int| 0 <= i < "-sZ"@.len() && "-sZ"@[i] == '"';
        }
    }
    assert(!"-sZ"@.contains('\n')) by {
        if "-sZ"@.contains('\n') {
            let i = choose|i: int| 0 <= i < "-sZ"@.len() && "-sZ"@[i] == '\n';
        }
    }
}

proof fn lemma_lit_ok_29()
    ensures
        token_ok("-sO"@),
        !needs_quote("-sO"@),
        !"-sO"@.contains(' '),
        !"-sO"@.contains('\t'),
        !"-sO"@.contains('"'),
        !"-sO"@.contains('\n'),
{
    lit_chars_29();
    assert(!"-sO"@.contains(' ')) by {
        if "-sO"@.contains(' ') {
            let i = choose|i: int| 0 <= i < "-sO"@.len() && "-sO"@[i] == ' ';
        }
    }
    assert(!"-sO"@.contains('\t')) by {
        if "-sO"@.contains('\t') {
            let i = choose|i: int| 0 <= i < "-sO"@.len() && "-sO"@[i] == '\t';
        }
    }
    assert(!"-sO"@.contains('"')) by {
        if "-sO"@.contains('"') {
            let i = choose|i: int| 0 <= i < "-sO"@.len() && "-sO"@[i] == '"';
        }
    }
    assert(!"-sO"@.contains('\n')) by {
        if "-sO"@.contains('\n') {
            let i = choose|i: int| 0 <= i < "-sO"@.len() && "-sO"@[i] == '\n';
        }
    }
}

proof fn lemma_lit_ok_30()
    ensures
        token_ok("--scanflags"@),
        !needs_quote("--scanflags"@),
        !"--scanflags"@.contains(' '),
        !"--scanflags"@.contains('\t'),
        !"--scanflags"@.contains('"'),
        !"--scanflags"@.contains('\n'),
{
    lit_chars_30();
    assert(!"--scanflags"@.contains(' ')) by {
        if "--scanflags"@.contains(' ') {
            let i = choose|i: int| 0 <= i < "--scanflags"@.len() && "--scanflags"@[i] == ' ';
        }
    }
    assert(!"--scanflags"@.contains('\t')) by {
        if "--scanflags"@.contains('\t') {
            let i = choose|i: int| 0 <= i < "--scanflags"@.len() && "--scanflags"@[i] == '\t';
        }
    }
    assert(!"--scanflags"@.contains('"')) by {
        if "--scanflags"@.contains('"') {
            let i = choose|i: int| 0 <= i < "--scanflags"@.len() && "--scanflags"@[i] == '"';
        }
    }
    assert(!"--scanflags"@.contains('\n')) by {
        if "--scanflags"@.contains('\n') {
            let i = choose|i: int| 0 <= i < "--scanflags"@.len() && "--scanflags"@[i] == '\n';
        }
    }
}

proof fn lemma_lit_ok_31()
    ensures
        token_ok("-sI"@),
        !needs_quote("-sI"@),
        !"-sI"@.contains(' '),
        !"-sI"@.contains('\t'),
        !"-sI"@.contains('"'),
        !"-sI"@.contains('\n'),
{
    lit_chars_31();
    assert(!"-sI"@.contains(' ')) by {
        if "-sI"@.contains(' ') {
            let i = choose|i: int| 0 <= i < "-sI"@.len() && "-sI"@[i] == ' ';
        }
    }
    assert(!"-sI"@.contains('\t')) by {
        if "-sI"@.contains('\t') {
            let i = choose|i: int| 0 <= i < "-sI"@.len() && "-sI"@[i] == '\t';
        }
    }
    assert(!"-sI"@.contains('"')) by {
        if "-sI"@.contains('"') {
            let i = choose|i: int| 0 <= i < "-sI"@.len() && "-sI"@[i] == '"';
        }
    }
    assert(!"-sI"@.contains('\n')) by {
        if "-sI"@.contains('\n') {
            let i = choose|i: int| 0 <= i < "-sI"@.len() && "-sI"@[i] == '\n';
        }
    }
}

proof fn lemma_lit_ok_32()
    ensures
        token_ok("-b"@),
        !needs_quote("-b"@),
        !"-b"@.contains(' '),
        !"-b"@.contains('\t'),
        !"-b"@.contains('"'),
        !"-b"@.contains('\n'),
{
    lit_chars_32();
    assert(!"-b"@.contains(' ')) by {
        if "-b"@.contains(' ') {
            let i = choose|i: int| 0 <= i < "-b"@.len() && "-b"@[i] == ' ';
        }
    }
    assert(!"-b"@.contains('\t')) by {
        if "-b"@.contains('\t') {
            let i = choose|i: int| 0 <= i < "-b"@.len() && "-b"@[i] == '\t';
        }
    }
    assert(!"-b"@.contains('"')) by {
        if "-b"@.contains('"') {
            let i = choose|i: int| 0 <= i < "-b"@.len() && "-b"@[i] == '"';
        }
    }
    assert(!"-b"@.contains('\n')) by {
        if "-b"@.contains('\n') {
            let i = choose|i: int| 0 <= i < "-b"@.len() && "-b"@[i] == '\n';
        }
    }
}

proof fn lemma_lit_ok_33()
    ensures
        token_ok("-p"@),
        !needs_quote("-p"@),
        !"-p"@.contains(' '),
        !"-p"@.contains('\t'),
        !"-p"@.contains('"'),
        !"-p"@.contains('\n'),
{
    lit_chars_33();
    assert(!"-p"@.contains(' ')) by {
        if "-p"@.contains(' ') {
            let i = choose|i: int| 0 <= i < "-p"@.len() && "-p"@[i] == ' ';
        }
    }
    assert(!"-p"@.contains('\t')) by {
        if "-p"@.contains('\t') {
            let i = choose|i: int| 0 <= i < "-p"@.len() && "-p"@[i] == '\t';
        }
    }
    assert(!"-p"@.contains('"')) by {
        if "-p"@.contains('"') {
            let i = choose|i: int| 0 <= i < "-p"@.len() && "-p"@[i] == '"';
        }
    }
    assert(!"-p"@.contains('\n')) by {
        if "-p"@.contains('\n') {
            let i = choose|i: int| 0 <= i < "-p"@.len() && "-p"@[i] == '\n';
        }
    }
}

proof fn lemma_lit_ok_34()
    ensures
        token_ok("--exclude-ports"@),
        !needs_quote("--exclude-ports"@),
        !"--exclude-ports"@.contains(' '),
        !"--exclude-ports"@.contains('\t'),
        !"--exclude-ports"@.contains('"'),
        !"--exclude-ports"@.contains('\n'),
{
    lit_chars_34();
    assert(!"--exclude-ports"@.contains(' ')) by {
        if "--exclude-ports"@.contains(' ') {
            let i = choose|i: int| 0 <= i < "--exclude-ports"@.len() && "--exclude-ports"@[i] == ' ';
        }
    }
    assert(!"--exclude-ports"@.contains('\t')) by {
        if "--exclude-ports"@.contains('\t') {
            let i = choose|i: int| 0 <= i < "--exclude-ports"@.len() && "--exclude-ports"@[i] == '\t';
        }
    }
    assert(!"--exclude-ports"@.contains('"')) by {
        if "--exclude-ports"@.contains('"') {
            let i = choose|i: int| 0 <= i < "--exclude-ports"@.len() && "--exclude-ports"@[i] == '"';
        }
    }
    assert(!"--exclude-ports"@.contains('\n')) by {
        if "--exclude-ports"@.contains('\n') {
            let i = choose|i: int| 0 <= i < "--exclude-ports"@.len() && "--exclude-ports"@[i] == '\n';
        }
    }
}

proof fn lemma_lit_ok_35()
    ensures
        token_ok("-F"@),
        !needs_quote("-F"@),
        !"-F"@.contains(' '),
        !"-F"@.contains('\t'),
        !"-F"@.contains('"'),
        !"-F"@.contains('\n'),
{
    lit_chars_35();
    assert(!"-F"@.contains(' ')) by {
        if "-F"@.contains(' ') {
            let i = choose|i: int| 0 <= i < "-F"@.len() && "-F"@[i] == ' ';
        }
    }
    assert(!"-F"@.contains('\t')) by {
        if "-F"@.contains('\t') {
            let i = choose|i: int| 0 <= i < "-F"@.len() && "-F"@[i] == '\t';
        }
    }
    assert(!"-F"@.contains('"')) by {
        if "-F"@.contains('"') {
            let i = choose|i: int| 0 <= i < "-F"@.len() && "-F"@[i] == '"';
        }
    }
    assert(!"-F"@.contains('\n')) by {
        if "-F"@.contains('\n') {
            let i = choose|i: int| 0 <= i < "-F"@.len() && "-F"@[i] == '\n';
        }
    }
}

proof fn lemma_lit_ok_36()
    ensures
        token_ok("-r"@),
        !needs_quote("-r"@),
        !"-r"@.contains(' '),
        !"-r"@.contains('\t'),
        !"-r"@.contains('"'),
        !"-r"@.contains('\n'),
{
    lit_chars_36();
    assert(!"-r"@.contains(' ')) by {
        if "-r"@.contains(' ') {
            let i = choose|i: int| 0 <= i < "-r"@.len() && "-r"@[i] == ' ';
        }
    }
    assert(!"-r"@.contains('\t')) by {
        if "-r"@.contains('\t') {
            let i = choose|i: int| 0 <= i < "-r"@.len() && "-r"@[i] == '\t';
        }
    }
    assert(!"-r"@.contains('"')) by {
        if "-r"@.contains('"') {
            let i = choose|i: int| 0 <= i < "-r"@.len() && "-r"@[i] == '"';
        }
    }
    assert(!"-r"@.contains('\n')) by {
        if "-r"@.contains('\n') {
            let i = choose|i: int| 0 <= i < "-r"@.len() && "-r"@[i] == '\n';
        }
    }
}

proof fn lemma_lit_ok_37()
    ensures
        token_ok("--top-ports"@),
        !needs_quote("--top-ports"@),
        !"--top-ports"@.contains(' '),
        !"--top-ports"@.contains('\t'),
        !"--top-ports"@.contains('"'),
        !"--top-ports"@.contains('\n'),
{
    lit_chars_37();
    assert(!"--top-ports"@.contains(' ')) by {
        if "--top-ports"@.contains(' ') {
            let i = choose|i: int| 0 <= i < "--top-ports"@.len() && "--top-ports"@[i] == ' ';
        }
    }
    assert(!"--top-ports"@.contains('\t')) by {
        if "--top-ports"@.contains('\t') {
            let i = choose|i: int| 0 <= i < "--top-ports"@.len() && "--top-ports"@[i] == '\t';
        }
    }
    assert(!"--top-ports"@.contains('"')) by {
        if "--top-ports"@.contains('"') {
            let i = choose|i: int| 0 <= i < "--top-ports"@.len() && "--top-ports"@[i] == '"';
        }
    }
    assert(!"--top-ports"@.contains('\n')) by {
        if "--top-ports"@.contains('\n') {
            let i = choose|i: int| 0 <= i < "--top-ports"@.len() && "--top-ports"@[i] == '\n';
        }
    }
}

proof fn lemma_lit_ok_38()
    ensures
        token_ok("--port-ratio"@),
        !needs_quote("--port-ratio"@),
        !"--port-ratio"@.contains(' '),
        !"--port-ratio"@.contains('\t'),
        !"--port-ratio"@.contains('"'),
        !"--port-ratio"@.contains('\n'),
{
    lit_chars_38();
    assert(!"--port-ratio"@.contains(' ')) by {
        if "--port-ratio"@.contains(' ') {
            let i = choose|i: int| 0 <= i < "--port-ratio"@.len() && "--port-ratio"@[i] == ' ';
        }
    }
    assert(!"--port-ratio"@.contains('\t')) by {
        if "--port-ratio"@.contains('\t') {
            let i = choose|i: int| 0 <= i < "--port-ratio"@.len() && "--port-ratio"@[i] == '\t';
        }
    }
    assert(!"--port-ratio"@.contains('"')) by {
        if "--port-ratio"@.contains('"') {
            let i = choose|i: int| 0 <= i < "--port-ratio"@.len() && "--port-ratio"@[i] == '"';
        }
    }
    assert(!"--port-ratio"@.contains('\n')) by {
        if "--port-ratio"@.contains('\n') {
            let i = choose|i: int| 0 <= i < "--port-ratio"@.len() && "--port-ratio"@[i] == '\n';
        }
    }
}

proof fn lemma_lit_ok_39()
    ensures
        token_ok("-sV"@),
        !needs_quote("-sV"@),
        !"-sV"@.contains(' '),
        !"-sV"@.contains('\t'),
        !"-sV"@.contains('"'),
        !"-sV"@.contains('\n'),
{
    lit_chars_39();
    assert(!"-sV"@.contains(' ')) by {
        if "-sV"@.contains(' ') {
            let i = choose|i: int| 0 <= i < "-sV"@.len() && "-sV"@[i] == ' ';
        }
    }
    assert(!"-sV"@.contains('\t')) by {
        if "-sV"@.contains('\t') {
            let i = choose|i: int| 0 <= i < "-sV"@.len() && "-sV"@[i] == '\t';
        }
    }
    assert(!"-sV"@.contains('"')) by {
        if "-sV"@.contains('"') {
            let i = choose|i: int| 0 <= i < "-sV"@.len() && "-sV"@[i] == '"';
        }
    }
    assert(!"-sV"@.contains('\n')) by {
        if "-sV"@.contains('\n') {
            let i = choose|i: int| 0 <= i < "-sV"@.len() && "-sV"@[i] == '\n';
        }
    }
}

proof fn lemma_lit_ok_40()
    ensures
        token_ok("--version-intensity"@),
        !needs_quote("--version-intensity"@),
        !"--version-intensity"@.contains(' '),
        !"--version-intensity"@.contains('\t'),
        !"--version-intensity"@.contains('"'),
        !"--version-intensity"@.contains('\n'),
{
    lit_chars_40();
    assert(!"--version-intensity"@.contains(' ')) by {
        if "--version-intensity"@.contains(' ') {
            let i = choose|i: int| 0 <= i < "--version-intensity"@.len() && "--version-intensity"@[i] == ' ';
        }
    }
    assert(!"--version-intensity"@.contains('\t')) by {
        if "--version-intensity"@.contains('\t') {
            let i = choose|i: int| 0 <= i < "--version-intensity"@.len() && "--version-intensity"@[i] == '\t';
        }
    }
    assert(!"--version-intensity"@.contains('"')) by {
        if "--version-intensity"@.contains('"') {
            let i = choose|i: int| 0 <= i < "--version-intensity"@.len() && "--version-intensity"@[i] == '"';
        }
    }
    assert(!"--version-intensity"@.contains('\n')) by {
        if "--version-intensity"@.contains('\n') {
            let i = choose|i: int| 0 <= i < "--version-intensity"@.len() && "--version-intensity"@[i] == '\n';
        }
    }
}

proof fn lemma_lit_ok_41()
    ensures
        token_ok("--version-light"@),
        !needs_quote("--version-light"@),
        !"--version-light"@.contains(' '),
        !"--version-light"@.contains('\t'),
        !"--version-light"@.contains('"'),
        !"--version-light"@.contains('\n'),
{
    lit_chars_41();
    assert(!"--version-light"@.contains(' ')) by {
        if "--version-light"@.contains(' ') {
            let i = choose|i: int| 0 <= i < "--version-light"@.len() && "--version-light"@[i] == ' ';
        }
    }
    assert(!"--version-light"@.contains('\t')) by {
        if "--version-light"@.contains('\t') {
            let i = choose|i: int| 0 <= i < "--version-light"@.len() && "--version-light"@[i] == '\t';
        }
    }
    assert(!"--version-light"@.contains('"')) by {
        if "--version-light"@.contains('"') {
            let i = choose|i: int| 0 <= i < "--version-light"@.len() && "--version-light"@[i] == '"';
        }
    }
    assert(!"--version-light"@.contains('\n')) by {
        if "--version-light"@.contains('\n') {
            let i = choose|i: int| 0 <= i < "--version-light"@.len() && "--version-light"@[i] == '\n';
        }
    }
}

proof fn lemma_lit_ok_42()
    ensures
        token_ok("--version-all"@),
        !needs_quote("--version-all"@),
        !"--version-all"@.contains(' '),
        !"--version-all"@.contains('\t'),
        !"--version-all"@.contains('"'),
        !"--version-all"@.contains('\n'),
{
    lit_chars_42();
    assert(!"--version-all"@.contains(' ')) by {
        if "--version-all"@.contains(' ') {
            let i = choose|i: int| 0 <= i < "--version-all"@.len() && "--version-all"@[i] == ' ';
        }
    }
    assert(!"--version-all"@.contains('\t')) by {
        if "--version-all"@.contains('\t') {
            let i = choose|i: int| 0 <= i < "--version-all"@.len() && "--version-all"@[i] == '\t';
        }
    }
    assert(!"--version-all"@.contains('"')) by {
        if "--version-all"@.contains('"') {
            let i = choose|i: int| 0 <= i < "--version-all"@.len() && "--version-all"@[i] == '"';
        }
    }
    assert(!"--version-all"@.contains('\n')) by {
        if "--version-all"@.contains('\n') {
            let i = choose|i: int| 0 <= i < "--version-all"@.len() && "--version-all"@[i] == '\n';
        }
    }
}

proof fn lemma_lit_ok_43()
    ensures
        token_ok("--version-trace"@),
        !needs_quote("--version-trace"@),
        !"--version-trace"@.contains(' '),
        !"--version-trace"@.contains('\t'),
        !"--version-trace"@.contains('"'),
        !"--version-trace"@.contains('\n'),
{
    lit_chars_43();
    assert(!"--version-trace"@.contains(' ')) by {
        if "--version-trace"@.contains(' ') {
            let i = choose|i: int| 0 <= i < "--version-trace"@.len() && "--version-trace"@[i] == ' ';
        }
    }
    assert(!"--version-trace"@.contains('\t')) by {
        if "--version-trace"@.contains('\t') {
            let i = choose|i: int| 0 <= i < "--version-trace"@.len() && "--version-trace"@[i] == '\t';
        }
    }
    assert(!"--version-trace"@.contains('"')) by {
        if "--version-trace"@.contains('"') {
            let i = choose|i: int| 0 <= i < "--version-trace"@.len() && "--version-trace"@[i] == '"';
        }
    }
    assert(!"--version-trace"@.contains('\n')) by {
        if "--version-trace"@.contains('\n') {
            let i = choose|i: int| 0 <= i < "--version-trace"@.len() && "--version-trace"@[i] == '\n';
        }
    }
}

proof fn lemma_lit_ok_44()
    ensures
        token_ok("-sC"@),
        !needs_quote("-sC"@),
        !"-sC"@.contains(' '),
        !"-sC"@.contains('\t'),
        !"-sC"@.contains('"'),
        !"-sC"@.contains('\n'),
{
    lit_chars_44();
    assert(!"-sC"@.contains(' ')) by {
        if "-sC"@.contains(' ') {
            let i = choose|i: int| 0 <= i < "-sC"@.len() && "-sC"@[i] == ' ';
        }
    }
    assert(!"-sC"@.contains('\t')) by {
        if "-sC"@.contains('\t') {
            let i = choose|i: int| 0 <= i < "-sC"@.len() && "-sC"@[i] == '\t';
        }
    }
    assert(!"-sC"@.contains('"')) by {
        if "-sC"@.contains('"') {
            let i = choose|i: int| 0 <= i < "-sC"@.len() && "-sC"@[i] == '"';
        }
    }
    assert(!"-sC"@.contains('\n')) by {
        if "-sC"@.contains('\n') {
            let i = choose|i: int| 0 <= i < "-sC"@.len() && "-sC"@[i] == '\n';
        }
    }
}

proof fn lemma_lit_ok_45()
    ensures
        token_ok("--script"@),
        !needs_quote("--script"@),
        !"--script"@.contains(' '),
        !"--script"@.contains('\t'),
        !"--script"@.contains('"'),
        !"--script"@.contains('\n'),
{
    lit_chars_45();
    assert(!"--script"@.contains(' ')) by {
        if "--script"@.contains(' ') {
            let i = choose|i: int| 0 <= i < "--script"@.len() && "--script"@[i] == ' ';
        }
    }
    assert(!"--script"@.contains('\t')) by {
        if "--script"@.contains('\t') {
            let i = choose|i: int| 0 <= i < "--script"@.len() && "--script"@[i] == '\t';
        }
    }
    assert(!"--script"@.contains('"')) by {
        if "--script"@.contains('"') {
            let i = choose|i: int| 0 <= i < "--script"@.len() && "--script"@[i] == '"';
        }
    }
    assert(!"--script"@.contains('\n')) by {
        if "--script"@.contains('\n') {
            let i = choose|i: int| 0 <= i < "--script"@.len() && "--script"@[i] == '\n';
        }
    }
}

proof fn lemma_lit_ok_46()
    ensures
        token_ok("--script-args"@),
        !needs_quote("--script-args"@),
        !"--script-args"@.contains(' '),
        !"--script-args"@.contains('\t'),
        !"--script-args"@.contains('"'),
        !"--script-args"@.contains('\n'),
{
    lit_chars_46();
    assert(!"--script-args"@.contains(' ')) by {
        if "--script-args"@.contains(' ') {
            let i = choose|i: int| 0 <= i < "--script-args"@.len() && "--script-args"@[i] == ' ';
        }
    }
    assert(!"--script-args"@.contains('\t')) by {
        if "--script-args"@.contains('\t') {
            let i = choose|i: int| 0 <= i < "--script-args"@.len() && "--script-args"@[i] == '\t';
        }
    }
    assert(!"--script-args"@.contains('"')) by {
        if "--script-args"@.contains('"') {
            let i = choose|i: int| 0 <= i < "--script-args"@.len() && "--script-args"@[i] == '"';
        }
    }
    assert(!"--script-args"@.contains('\n')) by {
        if "--script-args"@.contains('\n') {
            let i = choose|i: int| 0 <= i < "--script-args"@.len() && "--script-args"@[i] == '\n';
        }
    }
}

proof fn lemma_lit_ok_47()
    ensures
        token_ok("--script-args-file"@),
        !needs_quote("--script-args-file"@),
        !"--script-args-file"@.contains(' '),
        !"--script-args-file"@.contains('\t'),
        !"--script-args-file"@.contains('"'),
        !"--script-args-file"@.contains('\n'),
{
    lit_chars_47();
    assert(!"--script-args-file"@.contains(' ')) by {
        if "--script-args-file"@.contains(' ') {
            let i = choose|i: int| 0 <= i < "--script-args-file"@.len() && "--script-args-file"@[i] == ' ';
        }
    }
    assert(!"--script-args-file"@.contains('\t')) by {
        if "--script-args-file"@.contains('\t') {
            let i = choose|i: int| 0 <= i < "--script-args-file"@.len() && "--script-args-file"@[i] == '\t';
        }
    }
    assert(!"--script-args-file"@.contains('"')) by {
        if "--script-args-file"@.contains('"') {
            let i = choose|i: int| 0 <= i < "--script-args-file"@.len() && "--script-args-file"@[i] == '"';
        }
    }
    assert(!"--script-args-file"@.contains('\n')) by {
        if "--script-args-file"@.contains('\n') {
            let i = choose|i: int| 0 <= i < "--script-args-file"@.len() && "--script-args-file"@[i] == '\n';
        }
    }
}

proof fn lemma_lit_ok_48()
    ensures
        token_ok("--script-trace"@),
        !needs_quote("--script-trace"@),
        !"--script-trace"@.contains(' '),
        !"--script-trace"@.contains('\t'),
        !"--script-trace"@.contains('"'),
        !"--script-trace"@.contains('\n'),
{
    lit_chars_48();
    assert(!"--script-trace"@.contains(' ')) by {
        if "--script-trace"@.contains(' ') {
            let i = choose|i: int| 0 <= i < "--script-trace"@.len() && "--script-trace"@[i] == ' ';
        }
    }
    assert(!"--script-trace"@.contains('\t')) by {
        if "--script-trace"@.contains('\t') {
            let i = choose|i: int| 0 <= i < "--script-trace"@.len() && "--script-trace"@[i] == '\t';
        }
    }
    assert(!"--script-trace"@.contains('"')) by {
        if "--script-trace"@.contains('"') {
            let i = choose|i: int| 0 <= i < "--script-trace"@.len() && "--script-trace"@[i] == '"';
        }
    }
    assert(!"--script-trace"@.contains('\n')) by {
        if "--script-trace"@.contains('\n') {
            let i = choose|i: int| 0 <= i < "--script-trace"@.len() && "--script-trace"@[i] == '\n';
        }
    }
}

proof fn lemma_lit_ok_49()
    ensures
        token_ok("--script-updatedb"@),
        !needs_quote("--script-updatedb"@),
        !"--script-updatedb"@.contains(' '),
        !"--script-updatedb"@.contains('\t'),
        !"--script-updatedb"@.contains('"'),
        !"--script-updatedb"@.contains('\n'),
{
    lit_chars_49();
    assert(!"--script-updatedb"@.contains(' ')) by {
        if "--script-updatedb"@.contains(' ') {
            let i = choose|i: int| 0 <= i < "--script-updatedb"@.len() && "--script-updatedb"@[i] == ' ';
        }
    }
    assert(!"--script-updatedb"@.contains('\t')) by {
        if "--script-updatedb"@.contains('\t') {
            let i = choose|i: int| 0 <= i < "--script-updatedb"@.len() && "--script-updatedb"@[i] == '\t';
        }
    }
    assert(!"--script-updatedb"@.contains('"')) by {
        if "--script-updatedb"@.contains('"') {
            let i = choose|i: int| 0 <= i < "--script-updatedb"@.len() && "--script-updatedb"@[i] == '"';
        }
    }
    assert(!"--script-updatedb"@.contains('\n')) by {
        if "--script-updatedb"@.contains('\n') {
            let i = choose|i: int| 0 <= i < "--script-updatedb"@.len() && "--script-updatedb"@[i] == '\n';
        }
    }
}

proof fn lemma_lit_ok_50()
    ensures
        token_ok("--script-help"@),
        !needs_quote("--script-help"@),
        !"--script-help"@.contains(' '),
        !"--script-help"@.contains('\t'),
        !"--script-help"@.contains('"'),
        !"--script-help"@.contains('\n'),
{
    lit_chars_50();
    assert(!"--script-help"@.contains(' ')) by {
        if "--script-help"@.contains(' ') {
            let i = choose|i: int| 0 <= i < "--script-help"@.len() && "--script-help"@[i] == ' ';
        }
    }
    assert(!"--script-help"@.contains('\t')) by {
        if "--script-help"@.contains('\t') {
            let i = choose|i: int| 0 <= i < "--script-help"@.len() && "--script-help"@[i] == '\t';
        }
    }
    assert(!"--script-help"@.contains('"')) by {
        if "--script-help"@.contains('"') {
            let i = choose|i: int| 0 <= i < "--script-help"@.len() && "--script-help"@[i] == '"';
        }
    }
    assert(!"--script-help"@.contains('\n')) by {
        if "--script-help"@.contains('\n') {
            let i = choose|i: int| 0 <= i < "--script-help"@.len() && "--script-help"@[i] == '\n';
        }
    }
}

proof fn lemma_lit_ok_51()
    ensures
        token_ok("-O"@),
        !needs_quote("-O"@),
        !"-O"@.contains(' '),
        !"-O"@.contains('\t'),
        !"-O"@.contains('"'),
        !"-O"@.contains('\n'),
{
    lit_chars_51();
    assert(!"-O"@.contains(' ')) by {
        if "-O"@.contains(' ') {
            let i = choose|i: int| 0 <= i < "-O"@.len() && "-O"@[i] == ' ';
        }
    }
    assert(!"-O"@.contains('\t')) by {
        if "-O"@.contains('\t') {
            let i = choose|i: int| 0 <= i < "-O"@.len() && "-O"@[i] == '\t';
        }
    }
    assert(!"-O"@.contains('"')) by {
        if "-O"@.contains('"') {
            let i = choose|i: int| 0 <= i < "-O"@.len() && "-O"@[i] == '"';
        }
    }
    assert(!"-O"@.contains('\n')) by {
        if "-O"@.contains('\n') {
            let i = choose|i: int| 0 <= i < "-O"@.len() && "-O"@[i] == '\n';
        }
    }
}

proof fn lemma_lit_ok_52()
    ensures
        token_ok("--osscan-limit"@),
        !needs_quote("--osscan-limit"@),
        !"--osscan-limit"@.contains(' '),
        !"--osscan-limit"@.contains('\t'),
        !"--osscan-limit"@.contains('"'),
        !"--osscan-limit"@.contains('\n'),
{
    lit_chars_52();
    assert(!"--osscan-limit"@.contains(' ')) by {
        if "--osscan-limit"@.contains(' ') {
            let i = choose|i: int| 0 <= i < "--osscan-limit"@.len() && "--osscan-limit"@[i] == ' ';
        }
    }
    assert(!"--osscan-limit"@.contains('\t')) by {
        if "--osscan-limit"@.contains('\t') {
            let i = choose|i: int| 0 <= i < "--osscan-limit"@.len() && "--osscan-limit"@[i] == '\t';
        }
    }
    assert(!"--osscan-limit"@.contains('"')) by {
        if "--osscan-limit"@.contains('"') {
            let i = choose|i: int| 0 <= i < "--osscan-limit"@.len() && "--osscan-limit"@[i] == '"';
        }
    }
    assert(!"--osscan-limit"@.contains('\n')) by {
        if "--osscan-limit"@.contains('\n') {
            let i = choose|i: int| 0 <= i < "--osscan-limit"@.len() && "--osscan-limit"@[i] == '\n';
        }
    }
}

proof fn lemma_lit_ok_53()
    ensures
        token_ok("--osscan-guess"@),
        !needs_quote("--osscan-guess"@),
        !"--osscan-guess"@.contains(' '),
        !"--osscan-guess"@.contains('\t'),
        !"--osscan-guess"@.contains('"'),
        !"--osscan-guess"@.contains('\n'),
{
    lit_chars_53();
    assert(!"--osscan-guess"@.contains(' ')) by {
        if "--osscan-guess"@.contains(' ') {
            let i = choose|i: int| 0 <= i < "--osscan-guess"@.len() && "--osscan-guess"@[i] == ' ';
        }
    }
    assert(!"--osscan-guess"@.contains('\t')) by {
        if "--osscan-guess"@.contains('\t') {
            let i = choose|i: int| 0 <= i < "--osscan-guess"@.len() && "--osscan-guess"@[i] == '\t';
        }
    }
    assert(!"--osscan-guess"@.contains('"')) by {
        if "--osscan-guess"@.contains('"') {
            let i = choose|i: int| 0 <= i < "--osscan-guess"@.len() && "--osscan-guess"@[i] == '"';
        }
    }
    assert(!"--osscan-guess"@.contains('\n')) by {
        if "--osscan-guess"@.contains('\n') {
            let i = choose|i: int| 0 <= i < "--osscan-guess"@.len() && "--osscan-guess"@[i] == '\n';
        }
    }
}

proof fn lemma_lit_ok_54()
    ensures
        token_ok("--max-os-tries"@),
        !needs_quote("--max-os-tries"@),
        !"--max-os-tries"@.contains(' '),
        !"--max-os-tries"@.contains('\t'),
        !"--max-os-tries"@.contains('"'),
        !"--max-os-tries"@.contains('\n'),
{
    lit_chars_54();
    assert(!"--max-os-tries"@.contains(' ')) by {
        if "--max-os-tries"@.contains(' ') {
            let i = choose|i: int| 0 <= i < "--max-os-tries"@.len() && "--max-os-tries"@[i] == ' ';
        }
    }
    assert(!"--max-os-tries"@.contains('\t')) by {
        if "--max-os-tries"@.contains('\t') {
            let i = choose|i: int| 0 <= i < "--max-os-tries"@.len() && "--max-os-tries"@[i] == '\t';
        }
    }
    assert(!"--max-os-tries"@.contains('"')) by {
        if "--max-os-tries"@.contains('"') {
            let i = choose|i: int| 0 <= i < "--max-os-tries"@.len() && "--max-os-tries"@[i] == '"';
        }
    }
    assert(!"--max-os-tries"@.contains('\n')) by {
        if "--max-os-tries"@.contains('\n') {
            let i = choose|i: int| 0 <= i < "--max-os-tries"@.len() && "--max-os-tries"@[i] == '\n';
        }
    }
}

proof fn lemma_lit_ok_55()
    ensures
        token_ok("-T0"@),
        !needs_quote("-T0"@),
        !"-T0"@.contains(' '),
        !"-T0"@.contains('\t'),
        !"-T0"@.contains('"'),
        !"-T0"@.contains('\n'),
{
    lit_chars_55();
    assert(!"-T0"@.contains(' ')) by {
        if "-T0"@.contains(' ') {
            let i = choose|i: int| 0 <= i < "-T0"@.len() && "-T0"@[i] == ' ';
        }
    }
    assert(!"-T0"@.contains('\t')) by {
        if "-T0"@.contains('\t') {
            let i = choose|i: int| 0 <= i < "-T0"@.len() && "-T0"@[i] == '\t';
        }
    }
    assert(!"-T0"@.contains('"')) by {
        if "-T0"@.contains('"') {
            let i = choose|i: int| 0 <= i < "-T0"@.len() && "-T0"@[i] == '"';
        }
    }
    assert(!"-T0"@.contains('\n')) by {
        if "-T0"@.contains('\n') {
            let i = choose|i: int| 0 <= i < "-T0"@.len() && "-T0"@[i] == '\n';
        }
    }
}

proof fn lemma_lit_ok_56()
    ensures
        token_ok("-T1"@),
        !needs_quote("-T1"@),
        !"-T1"@.contains(' '),
        !"-T1"@.contains('\t'),
        !"-T1"@.contains('"'),
        !"-T1"@.contains('\n'),
{
    lit_chars_56();
    assert(!"-T1"@.contains(' ')) by {
        if "-T1"@.contains(' ') {
            let i = choose|i: int| 0 <= i < "-T1"@.len() && "-T1"@[i] == ' ';
        }
    }
    assert(!"-T1"@.contains('\t')) by {
        if "-T1"@.contains('\t') {
            let i = choose|i: int| 0 <= i < "-T1"@.len() && "-T1"@[i] == '\t';
        }
    }
    assert(!"-T1"@.contains('"')) by {
        if "-T1"@.contains('"') {
            let i = choose|i: int| 0 <= i < "-T1"@.len() && "-T1"@[i] == '"';
        }
    }
    assert(!"-T1"@.contains('\n')) by {
        if "-T1"@.contains('\n') {
            let i = choose|i: int| 0 <= i < "-T1"@.len() && "-T1"@[i] == '\n';
        }
    }
}

proof fn lemma_lit_ok_57()
    ensures
        token_ok("-T2"@),
        !needs_quote("-T2"@),
        !"-T2"@.contains(' '),
        !"-T2"@.contains('\t'),
        !"-T2"@.contains('"'),
        !"-T2"@.contains('\n'),
{
    lit_chars_57();
    assert(!"-T2"@.contains(' ')) by {
        if "-T2"@.contains(' ') {
            let i = choose|i: int| 0 <= i < "-T2"@.len() && "-T2"@[i] == ' ';
        }
    }
    assert(!"-T2"@.contains('\t')) by {
        if "-T2"@.contains('\t') {
            let i = choose|i: int| 0 <= i < "-T2"@.len() && "-T2"@[i] == '\t';
        }
    }
    assert(!"-T2"@.contains('"')) by {
        if "-T2"@.contains('"') {
            let i = choose|i: int| 0 <= i < "-T2"@.len() && "-T2"@[i] == '"';
        }
    }
    assert(!"-T2"@.contains('\n')) by {
        if "-T2"@.contains('\n') {
            let i = choose|i: int| 0 <= i < "-T2"@.len() && "-T2"@[i] == '\n';
        }
    }
}

proof fn lemma_lit_ok_58()
    ensures
        token_ok("-T3"@),
        !needs_quote("-T3"@),
        !"-T3"@.contains(' '),
        !"-T3"@.contains('\t'),
        !"-T3"@.contains('"'),
        !"-T3"@.contains('\n'),
{
    lit_chars_58();
    assert(!"-T3"@.contains(' ')) by {
        if "-T3"@.contains(' ') {
            let i = choose|i: int| 0 <= i < "-T3"@.len() && "-T3"@[i] == ' ';
        }
    }
    assert(!"-T3"@.contains('\t')) by {
        if "-T3"@.contains('\t') {
            let i = choose|i: int| 0 <= i < "-T3"@.len() && "-T3"@[i] == '\t';
        }
    }
    assert(!"-T3"@.contains('"')) by {
        if "-T3"@.contains('"') {
            let i = choose|i: int| 0 <= i < "-T3"@.len() && "-T3"@[i] == '"';
        }
    }
    assert(!"-T3"@.contains('\n')) by {
        if "-T3"@.contains('\n') {
            let i = choose|i: int| 0 <= i < "-T3"@.len() && "-T3"@[i] == '\n';
        }
    }
}

proof fn lemma_lit_ok_59()
    ensures
        token_ok("-T4"@),
        !needs_quote("-T4"@),
        !"-T4"@.contains(' '),
        !"-T4"@.contains('\t'),
        !"-T4"@.contains('"'),
        !"-T4"@.contains('\n'),
{
    lit_chars_59();
    assert(!"-T4"@.contains(' ')) by {
        if "-T4"@.contains(' ') {
            let i = choose|i: int| 0 <= i < "-T4"@.len() && "-T4"@[i] == ' ';
        }
    }
    assert(!"-T4"@.contains('\t')) by {
        if "-T4"@.contains('\t') {
            let i = choose|i: int| 0 <= i < "-T4"@.len() && "-T4"@[i] == '\t';
        }
    }
    assert(!"-T4"@.contains('"')) by {
        if "-T4"@.contains('"') {
            let i = choose|i: int| 0 <= i < "-T4"@.len() && "-T4"@[i] == '"';
        }
    }
    assert(!"-T4"@.contains('\n')) by {
        if "-T4"@.contains('\n') {
            let i = choose|i: int| 0 <= i < "-T4"@.len() && "-T4"@[i] == '\n';
        }
    }
}

proof fn lemma_lit_ok_60()
    ensures
        token_ok("-T5"@),
        !needs_quote("-T5"@),
        !"-T5"@.contains(' '),
        !"-T5"@.contains('\t'),
        !"-T5"@.contains('"'),
        !"-T5"@.contains('\n'),
{
    lit_chars_60();
    assert(!"-T5"@.contains(' ')) by {
        if "-T5"@.contains(' ') {
            let i = choose|i: int| 0 <= i < "-T5"@.len() && "-T5"@[i] == ' ';
        }
    }
    assert(!"-T5"@.contains('\t')) by {
        if "-T5"@.contains('\t') {
            let i = choose|i: int| 0 <= i < "-T5"@.len() && "-T5"@[i] == '\t';
        }
    }
    assert(!"-T5"@.contains('"')) by {
        if "-T5"@.contains('"') {
            let i = choose|i: int| 0 <= i < "-T5"@.len() && "-T5"@[i] == '"';
        }
    }
    assert(!"-T5"@.contains('\n')) by {
        if "-T5"@.contains('\n') {
            let i = choose|i: int| 0 <= i < "-T5"@.len() && "-T5"@[i] == '\n';
        }
    }
}

proof fn lemma_lit_ok_61()
    ensures
        token_ok("--min-hostgroup"@),
        !needs_quote("--min-hostgroup"@),
        !"--min-hostgroup"@.contains(' '),
        !"--min-hostgroup"@.contains('\t'),
        !"--min-hostgroup"@.contains('"'),
        !"--min-hostgroup"@.contains('\n'),
{
    lit_chars_61();
    assert(!"--min-hostgroup"@.contains(' ')) by {
        if "--min-hostgroup"@.contains(' ') {
            let i = choose|i: int| 0 <= i < "--min-hostgroup"@.len() && "--min-hostgroup"@[i] == ' ';
        }
    }
    assert(!"--min-hostgroup"@.contains('\t')) by {
        if "--min-hostgroup"@.contains('\t') {
            let i = choose|i: int| 0 <= i < "--min-hostgroup"@.len() && "--min-hostgroup"@[i] == '\t';
        }
    }
    assert(!"--min-hostgroup"@.contains('"')) by {
        if "--min-hostgroup"@.contains('"') {
            let i = choose|i: int| 0 <= i < "--min-hostgroup"@.len() && "--min-hostgroup"@[i] == '"';
        }
    }
    assert(!"--min-hostgroup"@.contains('\n')) by {
        if "--min-hostgroup"@.contains('\n') {
            let i = choose|i: int| 0 <= i < "--min-hostgroup"@.len() && "--min-hostgroup"@[i] == '\n';
        }
    }
}

proof fn lemma_lit_ok_62()
    ensures
        token_ok("--max-hostgroup"@),
        !needs_quote("--max-hostgroup"@),
        !"--max-hostgroup"@.contains(' '),
        !"--max-hostgroup"@.contains('\t'),
        !"--max-hostgroup"@.contains('"'),
        !"--max-hostgroup"@.contains('\n'),
{
    lit_chars_62();
    assert(!"--max-hostgroup"@.contains(' ')) by {
        if "--max-hostgroup"@.contains(' ') {
            let i = choose|i: int| 0 <= i < "--max-hostgroup"@.len() && "--max-hostgroup"@[i] == ' ';
        }
    }
    assert(!"--max-hostgroup"@.contains('\t')) by {
        if "--max-hostgroup"@.contains('\t') {
            let i = choose|i: int| 0 <= i < "--max-hostgroup"@.len() && "--max-hostgroup"@[i] == '\t';
        }
    }
    assert(!"--max-hostgroup"@.contains('"')) by {
        if "--max-hostgroup"@.contains('"') {
            let i = choose|i: int| 0 <= i < "--max-hostgroup"@.len() && "--max-hostgroup"@[i] == '"';
        }
    }
    assert(!"--max-hostgroup"@.contains('\n')) by {
        if "--max-hostgroup"@.contains('\n') {
            let i = choose|i: int| 0 <= i < "--max-hostgroup"@.len() && "--max-hostgroup"@[i] == '\n';
        }
    }
}

proof fn lemma_lit_ok_63()
    ensures
        token_ok("--min-parallelism"@),
        !needs_quote("--min-parallelism"@),
        !"--min-parallelism"@.contains(' '),
        !"--min-parallelism"@.contains('\t'),
        !"--min-parallelism"@.contains('"'),
        !"--min-parallelism"@.contains('\n'),
{
    lit_chars_63();
    assert(!"--min-parallelism"@.contains(' ')) by {
        if "--min-parallelism"@.contains(' ') {
            let i = choose|i: int| 0 <= i < "--min-parallelism"@.len() && "--min-parallelism"@[i] == ' ';
        }
    }
    assert(!"--min-parallelism"@.contains('\t')) by {
        if "--min-parallelism"@.contains('\t') {
            let i = choose|i: int| 0 <= i < "--min-parallelism"@.len() && "--min-parallelism"@[i] == '\t';
        }
    }
    assert(!"--min-parallelism"@.contains('"')) by {
        if "--min-parallelism"@.contains('"') {
            let i = choose|i: int| 0 <= i < "--min-parallelism"@.len() && "--min-parallelism"@[i] == '"';
        }
    }
    assert(!"--min-parallelism"@.contains('\n')) by {
        if "--min-parallelism"@.contains('\n') {
            let i = choose|i: int| 0 <= i < "--min-parallelism"@.len() && "--min-parallelism"@[i] == '\n';
        }
    }
}

proof fn lemma_lit_ok_64()
    ensures
        token_ok("--max-parallelism"@),
        !needs_quote("--max-parallelism"@),
        !"--max-parallelism"@.contains(' '),
        !"--max-parallelism"@.contains('\t'),
        !"--max-parallelism"@.contains('"'),
        !"--max-parallelism"@.contains('\n'),
{
    lit_chars_64();
    assert(!"--max-parallelism"@.contains(' ')) by {
        if "--max-parallelism"@.contains(' ') {
            let i = choose|i: int| 0 <= i < "--max-parallelism"@.len() && "--max-parallelism"@[i] == ' ';
        }
    }
    assert(!"--max-parallelism"@.contains('\t')) by {
        if "--max-parallelism"@.contains('\t') {
            let i = choose|i: int| 0 <= i < "--max-parallelism"@.len() && "--max-parallelism"@[i] == '\t';
        }
    }
    assert(!"--max-parallelism"@.contains('"')) by {
        if "--max-parallelism"@.contains('"') {
            let i = choose|i: int| 0 <= i < "--max-parallelism"@.len() && "--max-parallelism"@[i] == '"';
        }
    }
    assert(!"--max-parallelism"@.contains('\n')) by {
        if "--max-parallelism"@.contains('\n') {
            let i = choose|i: int| 0 <= i < "--max-parallelism"@.len() && "--max-parallelism"@[i] == '\n';
        }
    }
}

proof fn lemma_lit_ok_65()
    ensures
        token_ok("--min-rtt-timeout"@),
        !needs_quote("--min-rtt-timeout"@),
        !"--min-rtt-timeout"@.contains(' '),
        !"--min-rtt-timeout"@.contains('\t'),
        !"--min-rtt-timeout"@.contains('"'),
        !"--min-rtt-timeout"@.contains('\n'),
{
    lit_chars_65();
    assert(!"--min-rtt-timeout"@.contains(' ')) by {
        if "--min-rtt-timeout"@.contains(' ') {
            let i = choose|i: int| 0 <= i < "--min-rtt-timeout"@.len() && "--min-rtt-timeout"@[i] == ' ';
        }
    }
    assert(!"--min-rtt-timeout"@.contains('\t')) by {
        if "--min-rtt-timeout"@.contains('\t') {
            let i = choose|i: int| 0 <= i < "--min-rtt-timeout"@.len() && "--min-rtt-timeout"@[i] == '\t';
        }
    }
    assert(!"--min-rtt-timeout"@.contains('"')) by {
        if "--min-rtt-timeout"@.contains('"') {
            let i = choose|i: int| 0 <= i < "--min-rtt-timeout"@.len() && "--min-rtt-timeout"@[i] == '"';
        }
    }
    assert(!"--min-rtt-timeout"@.contains('\n')) by {
        if "--min-rtt-timeout"@.contains('\n') {
            let i = choose|i: int| 0 <= i < "--min-rtt-timeout"@.len() && "--min-rtt-timeout"@[i] == '\n';
        }
    }
}

proof fn lemma_lit_ok_66()
    ensures
        token_ok("--max-rtt-timeout"@),
        !needs_quote("--max-rtt-timeout"@),
        !"--max-rtt-timeout"@.contains(' '),
        !"--max-rtt-timeout"@.contains('\t'),
        !"--max-rtt-timeout"@.contains('"'),
        !"--max-rtt-timeout"@.contains('\n'),
{
    lit_chars_66();
    assert(!"--max-rtt-timeout"@.contains(' ')) by {
        if "--max-rtt-timeout"@.contains(' ') {
            let i = choose|i: int| 0 <= i < "--max-rtt-timeout"@.len() && "--max-rtt-timeout"@[i] == ' ';
        }
    }
    assert(!"--max-rtt-timeout"@.contains('\t')) by {
        if "--max-rtt-timeout"@.contains('\t') {
            let i = choose|i: int| 0 <= i < "--max-rtt-timeout"@.len() && "--max-rtt-timeout"@[i] == '\t';
        }
    }
    assert(!"--max-rtt-timeout"@.contains('"')) by {
        if "--max-rtt-timeout"@.contains('"') {
            let i = choose|i: int| 0 <= i < "--max-rtt-timeout"@.len() && "--max-rtt-timeout"@[i] == '"';
        }
    }
    assert(!"--max-rtt-timeout"@.contains('\n')) by {
        if "--max-rtt-timeout"@.contains('\n') {
            let i = choose|i: int| 0 <= i < "--max-rtt-timeout"@.len() && "--max-rtt-timeout"@[i] == '\n';
        }
    }
}

proof fn lemma_lit_ok_67()
    ensures
        token_ok("--initial-rtt-timeout"@),
        !needs_quote("--initial-rtt-timeout"@),
        !"--initial-rtt-timeout"@.contains(' '),
        !"--initial-rtt-timeout"@.contains('\t'),
        !"--initial-rtt-timeout"@.contains('"'),
        !"--initial-rtt-timeout"@.contains('\n'),
{
    lit_chars_67();
    assert(!"--initial-rtt-timeout"@.contains(' ')) by {
        if "--initial-rtt-timeout"@.contains(' ') {
            let i = choose|i: int| 0 <= i < "--initial-rtt-timeout"@.len() && "--initial-rtt-timeout"@[i] == ' ';
        }
    }
    assert(!"--initial-rtt-timeout"@.contains('\t')) by {
        if "--initial-rtt-timeout"@.contains('\t') {
            let i = choose|i: int| 0 <= i < "--initial-rtt-timeout"@.len() && "--initial-rtt-timeout"@[i] == '\t';
        }
    }
    assert(!"--initial-rtt-timeout"@.contains('"')) by {
        if "--initial-rtt-timeout"@.contains('"') {
            let i = choose|i: int| 0 <= i < "--initial-rtt-timeout"@.len() && "--initial-rtt-timeout"@[i] == '"';
        }
    }
    assert(!"--initial-rtt-timeout"@.contains('\n')) by {
        if "--initial-rtt-timeout"@.contains('\n') {
            let i = choose|i: int| 0 <= i < "--initial-rtt-timeout"@.len() && "--initial-rtt-timeout"@[i] == '\n';
        }
    }
}

proof fn lemma_lit_ok_68()
    ensures
        token_ok("--max-retries"@),
        !needs_quote("--max-retries"@),
        !"--max-retries"@.contains(' '),
        !"--max-retries"@.contains('\t'),
        !"--max-retries"@.contains('"'),
        !"--max-retries"@.contains('\n'),
{
    lit_chars_68();
    assert(!"--max-retries"@.contains(' ')) by {
        if "--max-retries"@.contains(' ') {
            let i = choose|i: int| 0 <= i < "--max-retries"@.len() && "--max-retries"@[i] == ' ';
        }
    }
    assert(!"--max-retries"@.contains('\t')) by {
        if "--max-retries"@.contains('\t') {
            let i = choose|i: int| 0 <= i < "--max-retries"@.len() && "--max-retries"@[i] == '\t';
        }
    }
    assert(!"--max-retries"@.contains('"')) by {
        if "--max-retries"@.contains('"') {
            let i = choose|i: int| 0 <= i < "--max-retries"@.len() && "--max-retries"@[i] == '"';
        }
    }
    assert(!"--max-retries"@.contains('\n')) by {
        if "--max-retries"@.contains('\n') {
            let i = choose|i: int| 0 <= i < "--max-retries"@.len() && "--max-retries"@[i] == '\n';
        }
    }
}

proof fn lemma_lit_ok_69()
    ensures
        token_ok("--host-timeout"@),
        !needs_quote("--host-timeout"@),
        !"--host-timeout"@.contains(' '),
        !"--host-timeout"@.contains('\t'),
        !"--host-timeout"@.contains('"'),
        !"--host-timeout"@.contains('\n'),
{
    lit_chars_69();
    assert(!"--host-timeout"@.contains(' ')) by {
        if "--host-timeout"@.contains(' ') {
            let i = choose|i: int| 0 <= i < "--host-timeout"@.len() && "--host-timeout"@[i] == ' ';
        }
    }
    assert(!"--host-timeout"@.contains('\t')) by {
        if "--host-timeout"@.contains('\t') {
            let i = choose|i: int| 0 <= i < "--host-timeout"@.len() && "--host-timeout"@[i] == '\t';
        }
    }
    assert(!"--host-timeout"@.contains('"')) by {
        if "--host-timeout"@.contains('"') {
            let i = choose|i: int| 0 <= i < "--host-timeout"@.len() && "--host-timeout"@[i] == '"';
        }
    }
    assert(!"--host-timeout"@.contains('\n')) by {
        if "--host-timeout"@.contains('\n') {
            let i = choose|i: int| 0 <= i < "--host-timeout"@.len() && "--host-timeout"@[i] == '\n';
        }
    }
}

proof fn lemma_lit_ok_70()
    ensures
        token_ok("--script-timeout"@),
        !needs_quote("--script-timeout"@),
        !"--script-timeout"@.contains(' '),
        !"--script-timeout"@.contains('\t'),
        !"--script-timeout"@.contains('"'),
        !"--script-timeout"@.contains('\n'),
{
    lit_chars_70();
    assert(!"--script-timeout"@.contains(' ')) by {
        if "--script-timeout"@.contains(' ') {
            let i = choose|i: int| 0 <= i < "--script-timeout"@.len() && "--script-timeout"@[i] == ' ';
        }
    }
    assert(!"--script-timeout"@.contains('\t')) by {
        if "--script-timeout"@.contains('\t') {
            let i = choose|i: int| 0 <= i < "--script-timeout"@.len() && "--script-timeout"@[i] == '\t';
        }
    }
    assert(!"--script-timeout"@.contains('"')) by {
        if "--script-timeout"@.contains('"') {
            let i = choose|i: int| 0 <= i < "--script-timeout"@.len() && "--script-timeout"@[i] == '"';
        }
    }
    assert(!"--script-timeout"@.contains('\n')) by {
        if "--script-timeout"@.contains('\n') {
            let i = choose|i: int| 0 <= i < "--script-timeout"@.len() && "--script-timeout"@[i] == '\n';
        }
    }
}

proof fn lemma_lit_ok_71()
    ensures
        token_ok("--scan-delay"@),
        !needs_quote("--scan-delay"@),
        !"--scan-delay"@.contains(' '),
        !"--scan-delay"@.contains('\t'),
        !"--scan-delay"@.contains('"'),
        !"--scan-delay"@.contains('\n'),
{
    lit_chars_71();
    assert(!"--scan-delay"@.contains(' ')) by {
        if "--scan-delay"@.contains(' ') {
            let i = choose|i: int| 0 <= i < "--scan-delay"@.len() && "--scan-delay"@[i] == ' ';
        }
    }
    assert(!"--scan-delay"@.contains('\t')) by {
        if "--scan-delay"@.contains('\t') {
            let i = choose|i: int| 0 <= i < "--scan-delay"@.len() && "--scan-delay"@[i] == '\t';
        }
    }
    assert(!"--scan-delay"@.contains('"')) by {
        if "--scan-delay"@.contains('"') {
            let i = choose|i: int| 0 <= i < "--scan-delay"@.len() && "--scan-delay"@[i] == '"';
        }
    }
    assert(!"--scan-delay"@.contains('\n')) by {
        if "--scan-delay"@.contains('\n') {
            let i = choose|i: int| 0 <= i < "--scan-delay"@.len() && "--scan-delay"@[i] == '\n';
        }
    }
}

proof fn lemma_lit_ok_72()
    ensures
        token_ok("--max-scan-delay"@),
        !needs_quote("--max-scan-delay"@),
        !"--max-scan-delay"@.contains(' '),
        !"--max-scan-delay"@.contains('\t'),
        !"--max-scan-delay"@.contains('"'),
        !"--max-scan-delay"@.contains('\n'),
{
    lit_chars_72();
    assert(!"--max-scan-delay"@.contains(' ')) by {
        if "--max-scan-delay"@.contains(' ') {
            let i = choose|i: int| 0 <= i < "--max-scan-delay"@.len() && "--max-scan-delay"@[i] == ' ';
        }
    }
    assert(!"--max-scan-delay"@.contains('\t')) by {
        if "--max-scan-delay"@.contains('\t') {
            let i = choose|i: int| 0 <= i < "--max-scan-delay"@.len() && "--max-scan-delay"@[i] == '\t';
        }
    }
    assert(!"--max-scan-delay"@.contains('"')) by {
        if "--max-scan-delay"@.contains('"') {
            let i = choose|i: int| 0 <= i < "--max-scan-delay"@.len() && "--max-scan-delay"@[i] == '"';
        }
    }
    assert(!"--max-scan-delay"@.contains('\n')) by {
        if "--max-scan-delay"@.contains('\n') {
            let i = choose|i: int| 0 <= i < "--max-scan-delay"@.len() && "--max-scan-delay"@[i] == '\n';
        }
    }
}

proof fn lemma_lit_ok_73()
    ensures
        token_ok("--min-rate"@),
        !needs_quote("--min-rate"@),
        !"--min-rate"@.contains(' '),
        !"--min-rate"@.contains('\t'),
        !"--min-rate"@.contains('"'),
        !"--min-rate"@.contains('\n'),
{
    lit_chars_73();
    assert(!"--min-rate"@.contains(' ')) by {
        if "--min-rate"@.contains(' ') {
            let i = choose|i: int| 0 <= i < "--min-rate"@.len() && "--min-rate"@[i] == ' ';
        }
    }
    assert(!"--min-rate"@.contains('\t')) by {
        if "--min-rate"@.contains('\t') {
            let i = choose|i: int| 0 <= i < "--min-rate"@.len() && "--min-rate"@[i] == '\t';
        }
    }
    assert(!"--min-rate"@.contains('"')) by {
        if "--min-rate"@.contains('"') {
            let i = choose|i: int| 0 <= i < "--min-rate"@.len() && "--min-rate"@[i] == '"';
        }
    }
    assert(!"--min-rate"@.contains('\n')) by {
        if "--min-rate"@.contains('\n') {
            let i = choose|i: int| 0 <= i < "--min-rate"@.len() && "--min-rate"@[i] == '\n';
        }
    }
}

proof fn lemma_lit_ok_74()
    ensures
        token_ok("--max-rate"@),
        !needs_quote("--max-rate"@),
        !"--max-rate"@.contains(' '),
        !"--max-rate"@.contains('\t'),
        !"--max-rate"@.contains('"'),
        !"--max-rate"@.contains('\n'),
{
    lit_chars_74();
    assert(!"--max-rate"@.contains(' ')) by {
        if "--max-rate"@.contains(' ') {
            let i = choose|i: int| 0 <= i < "--max-rate"@.len() && "--max-rate"@[i] == ' ';
        }
    }
    assert(!"--max-rate"@.contains('\t')) by {
        if "--max-rate"@.contains('\t') {
            let i = choose|i: int| 0 <= i < "--max-rate"@.len() && "--max-rate"@[i] == '\t';
        }
    }
    assert(!"--max-rate"@.contains('"')) by {
        if "--max-rate"@.contains('"') {
            let i = choose|i: int| 0 <= i < "--max-rate"@.len() && "--max-rate"@[i] == '"';
        }
    }
    assert(!"--max-rate"@.contains('\n')) by {
        if "--max-rate"@.contains('\n') {
            let i = choose|i: int| 0 <= i < "--max-rate"@.len() && "--max-rate"@[i] == '\n';
        }
    }
}

proof fn lemma_lit_ok_75()
    ensures
        token_ok("--defeat-rst-ratelimit"@),
        !needs_quote("--defeat-rst-ratelimit"@),
        !"--defeat-rst-ratelimit"@.contains(' '),
        !"--defeat-rst-ratelimit"@.contains('\t'),
        !"--defeat-rst-ratelimit"@.contains('"'),
        !"--defeat-rst-ratelimit"@.contains('\n'),
{
    lit_chars_75();
    assert(!"--defeat-rst-ratelimit"@.contains(' ')) by {
        if "--defeat-rst-ratelimit"@.contains(' ') {
            let i = choose|i: int| 0 <= i < "--defeat-rst-ratelimit"@.len() && "--defeat-rst-ratelimit"@[i] == ' ';
        }
    }
    assert(!"--defeat-rst-ratelimit"@.contains('\t')) by {
        if "--defeat-rst-ratelimit"@.contains('\t') {
            let i = choose|i: int| 0 <= i < "--defeat-rst-ratelimit"@.len() && "--defeat-rst-ratelimit"@[i] == '\t';
        }
    }
    assert(!"--defeat-rst-ratelimit"@.contains('"')) by {
        if "--defeat-rst-ratelimit"@.contains('"') {
            let i = choose|i: int| 0 <= i < "--defeat-rst-ratelimit"@.len() && "--defeat-rst-ratelimit"@[i] == '"';
        }
    }
    assert(!"--defeat-rst-ratelimit"@.contains('\n')) by {
        if "--defeat-rst-ratelimit"@.contains('\n') {
            let i = choose|i: int| 0 <= i < "--defeat-rst-ratelimit"@.len() && "--defeat-rst-ratelimit"@[i] == '\n';
        }
    }
}

proof fn lemma_lit_ok_76()
    ensures
        token_ok("--defeat-icmp-ratelimit"@),
        !needs_quote("--defeat-icmp-ratelimit"@),
        !"--defeat-icmp-ratelimit"@.contains(' '),
        !"--defeat-icmp-ratelimit"@.contains('\t'),
        !"--defeat-icmp-ratelimit"@.contains('"'),
        !"--defeat-icmp-ratelimit"@.contains('\n'),
{
    lit_chars_76();
    assert(!"--defeat-icmp-ratelimit"@.contains(' ')) by {
        if "--defeat-icmp-ratelimit"@.contains(' ') {
            let i = choose|i: int| 0 <= i < "--defeat-icmp-ratelimit"@.len() && "--defeat-icmp-ratelimit"@[i] == ' ';
        }
    }
    assert(!"--defeat-icmp-ratelimit"@.contains('\t')) by {
        if "--defeat-icmp-ratelimit"@.contains('\t') {
            let i = choose|i: int| 0 <= i < "--defeat-icmp-ratelimit"@.len() && "--defeat-icmp-ratelimit"@[i] == '\t';
        }
    }
    assert(!"--defeat-icmp-ratelimit"@.contains('"')) by {
        if "--defeat-icmp-ratelimit"@.contains('"') {
            let i = choose|i: int| 0 <= i < "--defeat-icmp-ratelimit"@.len() && "--defeat-icmp-ratelimit"@[i] == '"';
        }
    }
    assert(!"--defeat-icmp-ratelimit"@.contains('\n')) by {
        if "--defeat-icmp-ratelimit"@.contains('\n') {
            let i = choose|i: int| 0 <= i < "--defeat-icmp-ratelimit"@.len() && "--defeat-icmp-ratelimit"@[i] == '\n';
        }
    }
}

proof fn lemma_lit_ok_77()
    ensures
        token_ok("--nsock-engine"@),
        !needs_quote("--nsock-engine"@),
        !"--nsock-engine"@.contains(' '),
        !"--nsock-engine"@.contains('\t'),
        !"--nsock-engine"@.contains('"'),
        !"--nsock-engine"@.contains('\n'),
{
    lit_chars_77();
    assert(!"--nsock-engine"@.contains(' ')) by {
        if "--nsock-engine"@.contains(' ') {
            let i = choose|i: int| 0 <= i < "--nsock-engine"@.len() && "--nsock-engine"@[i] == ' ';
        }
    }
    assert(!"--nsock-engine"@.contains('\t')) by {
        if "--nsock-engine"@.contains('\t') {
            let i = choose|i: int| 0 <= i < "--nsock-engine"@.len() && "--nsock-engine"@[i] == '\t';
        }
    }
    assert(!"--nsock-engine"@.contains('"')) by {
        if "--nsock-engine"@.contains('"') {
            let i = choose|i: int| 0 <= i < "--nsock-engine"@.len() && "--nsock-engine"@[i] == '"';
        }
    }
    assert(!"--nsock-engine"@.contains('\n')) by {
        if "--nsock-engine"@.contains('\n') {
            let i = choose|i: int| 0 <= i < "--nsock-engine"@.len() && "--nsock-engine"@[i] == '\n';
        }
    }
}

proof fn lemma_lit_ok_78()
    ensures
        token_ok("-f"@),
        !needs_quote("-f"@),
        !"-f"@.contains(' '),
        !"-f"@.contains('\t'),
        !"-f"@.contains('"'),
        !"-f"@.contains('\n'),
{
    lit_chars_78();
    assert(!"-f"@.contains(' ')) by {
        if "-f"@.contains(' ') {
            let i = choose|i: int| 0 <= i < "-f"@.len() && "-f"@[i] == ' ';
        }
    }
    assert(!"-f"@.contains('\t')) by {
        if "-f"@.contains('\t') {
            let i = choose|i: int| 0 <= i < "-f"@.len() && "-f"@[i] == '\t';
        }
    }
    assert(!"-f"@.contains('"')) by {
        if "-f"@.contains('"') {
            let i = choose|i: int| 0 <= i < "-f"@.len() && "-f"@[i] == '"';
        }
    }
    assert(!"-f"@.contains('\n')) by {
        if "-f"@.contains('\n') {
            let i = choose|i: int| 0 <= i < "-f"@.len() && "-f"@[i] == '\n';
        }
    }
}

proof fn lemma_lit_ok_79()
    ensures
        token_ok("--mtu"@),
        !needs_quote("--mtu"@),
        !"--mtu"@.contains(' '),
        !"--mtu"@.contains('\t'),
        !"--mtu"@.contains('"'),
        !"--mtu"@.contains('\n'),
{
    lit_chars_79();
    assert(!"--mtu"@.contains(' ')) by {
        if "--mtu"@.contains(' ') {
            let i = choose|i: int| 0 <= i < "--mtu"@.len() && "--mtu"@[i] == ' ';
        }
    }
    assert(!"--mtu"@.contains('\t')) by {
        if "--mtu"@.contains('\t') {
            let i = choose|i: int| 0 <= i < "--mtu"@.len() && "--mtu"@[i] == '\t';
        }
    }
    assert(!"--mtu"@.contains('"')) by {
        if "--mtu"@.contains('"') {
            let i = choose|i: int| 0 <= i < "--mtu"@.len() && "--mtu"@[i] == '"';
        }
    }
    assert(!"--mtu"@.contains('\n')) by {
        if "--mtu"@.contains('\n') {
            let i = choose|i: int| 0 <= i < "--mtu"@.len() && "--mtu"@[i] == '\n';
        }
    }
}

proof fn lemma_lit_ok_80()
    ensures
        token_ok("-D"@),
        !needs_quote("-D"@),
        !"-D"@.contains(' '),
        !"-D"@.contains('\t'),
        !"-D"@.contains('"'),
        !"-D"@.contains('\n'),
{
    lit_chars_80();
    assert(!"-D"@.contains(' ')) by {
        if "-D"@.contains(' ') {
            let i = choose|i: int| 0 <= i < "-D"@.len() && "-D"@[i] == ' ';
        }
    }
    assert(!"-D"@.contains('\t')) by {
        if "-D"@.contains('\t') {
            let i = choose|i: int| 0 <= i < "-D"@.len() && "-D"@[i] == '\t';
        }
    }
    assert(!"-D"@.contains('"')) by {
        if "-D"@.contains('"') {
            let i = choose|i: int| 0 <= i < "-D"@.len() && "-D"@[i] == '"';
        }
    }
    assert(!"-D"@.contains('\n')) by {
        if "-D"@.contains('\n') {
            let i = choose|i: int| 0 <= i < "-D"@.len() && "-D"@[i] == '\n';
        }
    }
}

proof fn lemma_lit_ok_81()
    ensures
        token_ok("-S"@),
        !needs_quote("-S"@),
        !"-S"@.contains(' '),
        !"-S"@.contains('\t'),
        !"-S"@.contains('"'),
        !"-S"@.contains('\n'),
{
    lit_chars_81();
    assert(!"-S"@.contains(' ')) by {
        if "-S"@.contains(' ') {
            let i = choose|i: int| 0 <= i < "-S"@.len() && "-S"@[i] == ' ';
        }
    }
    assert(!"-S"@.contains('\t')) by {
        if "-S"@.contains('\t') {
            let i = choose|i: int| 0 <= i < "-S"@.len() && "-S"@[i] == '\t';
        }
    }
    assert(!"-S"@.contains('"')) by {
        if "-S"@.contains('"') {
            let i = choose|i: int| 0 <= i < "-S"@.len() && "-S"@[i] == '"';
        }
    }
    assert(!"-S"@.contains('\n')) by {
        if "-S"@.contains('\n') {
            let i = choose|i: int| 0 <= i < "-S"@.len() && "-S"@[i] == '\n';
        }
    }
}

proof fn lemma_lit_ok_82()
    ensures
        token_ok("-e"@),
        !needs_quote("-e"@),
        !"-e"@.contains(' '),
        !"-e"@.contains('\t'),
        !"-e"@.contains('"'),
        !"-e"@.contains('\n'),
{
    lit_chars_82();
    assert(!"-e"@.contains(' ')) by {
        if "-e"@.contains(' ') {
            let i = choose|i: int| 0 <= i < "-e"@.len() && "-e"@[i] == ' ';
        }
    }
    assert(!"-e"@.contains('\t')) by {
        if "-e"@.contains('\t') {
            let i = choose|i: int| 0 <= i < "-e"@.len() && "-e"@[i] == '\t';
        }
    }
    assert(!"-e"@.contains('"')) by {
        if "-e"@.contains('"') {
            let i = choose|i: int| 0 <= i < "-e"@.len() && "-e"@[i] == '"';
        }
    }
    assert(!"-e"@.contains('\n')) by {
        if "-e"@.contains('\n') {
            let i = choose|i: int| 0 <= i < "-e"@.len() && "-e"@[i] == '\n';
        }
    }
}

proof fn lemma_lit_ok_83()
    ensures
        token_ok("-g"@),
        !needs_quote("-g"@),
        !"-g"@.contains(' '),
        !"-g"@.contains('\t'),
        !"-g"@.contains('"'),
        !"-g"@.contains('\n'),
{
    lit_chars_83();
    assert(!"-g"@.contains(' ')) by {
        if "-g"@.contains(' ') {
            let i = choose|i: int| 0 <= i < "-g"@.len() && "-g"@[i] == ' ';
        }
    }
    assert(!"-g"@.contains('\t')) by {
        if "-g"@.contains('\t') {
            let i = choose|i: int| 0 <= i < "-g"@.len() && "-g"@[i] == '\t';
        }
    }
    assert(!"-g"@.contains('"')) by {
        if "-g"@.contains('"') {
            let i = choose|i: int| 0 <= i < "-g"@.len() && "-g"@[i] == '"';
        }
    }
    assert(!"-g"@.contains('\n')) by {
        if "-g"@.contains('\n') {
            let i = choose|i: int| 0 <= i < "-g"@.len() && "-g"@[i] == '\n';
        }
    }
}

proof fn lemma_lit_ok_84()
    ensures
        token_ok("--source-port"@),
        !needs_quote("--source-port"@),
        !"--source-port"@.contains(' '),
        !"--source-port"@.contains('\t'),
        !"--source-port"@.contains('"'),
        !"--source-port"@.contains('\n'),
{
    lit_chars_84();
    assert(!"--source-port"@.contains(' ')) by {
        if "--source-port"@.contains(' ') {
            let i = choose|i: int| 0 <= i < "--source-port"@.len() && "--source-port"@[i] == ' ';
        }
    }
    assert(!"--source-port"@.contains('\t')) by {
        if "--source-port"@.contains('\t') {
            let i = choose|i: int| 0 <= i < "--source-port"@.len() && "--source-port"@[i] == '\t';
        }
    }
    assert(!"--source-port"@.contains('"')) by {
        if "--source-port"@.contains('"') {
            let i = choose|i: int| 0 <= i < "--source-port"@.len() && "--source-port"@[i] == '"';
        }
    }
    assert(!"--source-port"@.contains('\n')) by {
        if "--source-port"@.contains('\n') {
            let i = choose|i: int| 0 <= i < "--source-port"@.len() && "--source-port"@[i] == '\n';
        }
    }
}

proof fn lemma_lit_ok_85()
    ensures
        token_ok("--data"@),
        !needs_quote("--data"@),
        !"--data"@.contains(' '),
        !"--data"@.contains('\t'),
        !"--data"@.contains('"'),
        !"--data"@.contains('\n'),
{
    lit_chars_85();
    assert(!"--data"@.contains(' ')) by {
        if "--data"@.contains(' ') {
            let i = choose|i: int| 0 <= i < "--data"@.len() && "--data"@[i] == ' ';
        }
    }
    assert(!"--data"@.contains('\t')) by {
        if "--data"@.contains('\t') {
            let i = choose|i: int| 0 <= i < "--data"@.len() && "--data"@[i] == '\t';
        }
    }
    assert(!"--data"@.contains('"')) by {
        if "--data"@.contains('"') {
            let i = choose|i: int| 0 <= i < "--data"@.len() && "--data"@[i] == '"';
        }
    }
    assert(!"--data"@.contains('\n')) by {
        if "--data"@.contains('\n') {
            let i = choose|i: int| 0 <= i < "--data"@.len() && "--data"@[i] == '\n';
        }
    }
}

proof fn lemma_lit_ok_86()
    ensures
        token_ok("--data-string"@),
        !needs_quote("--data-string"@),
        !"--data-string"@.contains(' '),
        !"--data-string"@.contains('\t'),
        !"--data-string"@.contains('"'),
        !"--data-string"@.contains('\n'),
{
    lit_chars_86();
    assert(!"--data-string"@.contains(' ')) by {
        if "--data-string"@.contains(' ') {
            let i = choose|i: int| 0 <= i < "--data-string"@.len() && "--data-string"@[i] == ' ';
        }
    }
    assert(!"--data-string"@.contains('\t')) by {
        if "--data-string"@.contains('\t') {
            let i = choose|i: int| 0 <= i < "--data-string"@.len() && "--data-string"@[i] == '\t';
        }
    }
    assert(!"--data-string"@.contains('"')) by {
        if "--data-string"@.contains('"') {
            let i = choose|i: int| 0 <= i < "--data-string"@.len() && "--data-string"@[i] == '"';
        }
    }
    assert(!"--data-string"@.contains('\n')) by {
        if "--data-string"@.contains('\n') {
            let i = choose|i: int| 0 <= i < "--data-string"@.len() && "--data-string"@[i] == '\n';
        }
    }
}

proof fn lemma_lit_ok_87()
    ensures
        token_ok("--data-length"@),
        !needs_quote("--data-length"@),
        !"--data-length"@.contains(' '),
        !"--data-length"@.contains('\t'),
        !"--data-length"@.contains('"'),
        !"--data-length"@.contains('\n'),
{
    lit_chars_87();
    assert(!"--data-length"@.contains(' ')) by {
        if "--data-length"@.contains(' ') {
            let i = choose|i: int| 0 <= i < "--data-length"@.len() && "--data-length"@[i] == ' ';
        }
    }
    assert(!"--data-length"@.contains('\t')) by {
        if "--data-length"@.contains('\t') {
            let i = choose|i: int| 0 <= i < "--data-length"@.len() && "--data-length"@[i] == '\t';
        }
    }
    assert(!"--data-length"@.contains('"')) by {
        if "--data-length"@.contains('"') {
            let i = choose|i: int| 0 <= i < "--data-length"@.len() && "--data-length"@[i] == '"';
        }
    }
    assert(!"--data-length"@.contains('\n')) by {
        if "--data-length"@.contains('\n') {
            let i = choose|i: int| 0 <= i < "--data-length"@.len() && "--data-length"@[i] == '\n';
        }
    }
}

proof fn lemma_lit_ok_88()
    ensures
        token_ok("--ip-options"@),
        !needs_quote("--ip-options"@),
        !"--ip-options"@.contains(' '),
        !"--ip-options"@.contains('\t'),
        !"--ip-options"@.contains('"'),
        !"--ip-options"@.contains('\n'),
{
    lit_chars_88();
    assert(!"--ip-options"@.contains(' ')) by {
        if "--ip-options"@.contains(' ') {
            let i = choose|i: int| 0 <= i < "--ip-options"@.len() && "--ip-options"@[i] == ' ';
        }
    }
    assert(!"--ip-options"@.contains('\t')) by {
        if "--ip-options"@.contains('\t') {
            let i = choose|i: int| 0 <= i < "--ip-options"@.len() && "--ip-options"@[i] == '\t';
        }
    }
    assert(!"--ip-options"@.contains('"')) by {
        if "--ip-options"@.contains('"') {
            let i = choose|i: int| 0 <= i < "--ip-options"@.len() && "--ip-options"@[i] == '"';
        }
    }
    assert(!"--ip-options"@.contains('\n')) by {
        if "--ip-options"@.contains('\n') {
            let i = choose|i: int| 0 <= i < "--ip-options"@.len() && "--ip-options"@[i] == '\n';
        }
    }
}

proof fn lemma_lit_ok_89()
    ensures
        token_ok("--ttl"@),
        !needs_quote("--ttl"@),
        !"--ttl"@.contains(' '),
        !"--ttl"@.contains('\t'),
        !"--ttl"@.contains('"'),
        !"--ttl"@.contains('\n'),
{
    lit_chars_89();
    assert(!"--ttl"@.contains(' ')) by {
        if "--ttl"@.contains(' ') {
            let i = choose|i: int| 0 <= i < "--ttl"@.len() && "--ttl"@[i] == ' ';
        }
    }
    assert(!"--ttl"@.contains('\t')) by {
        if "--ttl"@.contains('\t') {
            let i = choose|i: int| 0 <= i < "--ttl"@.len() && "--ttl"@[i] == '\t';
        }
    }
    assert(!"--ttl"@.contains('"')) by {
        if "--ttl"@.contains('"') {
            let i = choose|i: int| 0 <= i < "--ttl"@.len() && "--ttl"@[i] == '"';
        }
    }
    assert(!"--ttl"@.contains('\n')) by {
        if "--ttl"@.contains('\n') {
            let i = choose|i: int| 0 <= i < "--ttl"@.len() && "--ttl"@[i] == '\n';
        }
    }
}

proof fn lemma_lit_ok_90()
    ensures
        token_ok("--randomize-hosts"@),
        !needs_quote("--randomize-hosts"@),
        !"--randomize-hosts"@.contains(' '),
        !"--randomize-hosts"@.contains('\t'),
        !"--randomize-hosts"@.contains('"'),
        !"--randomize-hosts"@.contains('\n'),
{
    lit_chars_90();
    assert(!"--randomize-hosts"@.contains(' ')) by {
        if "--randomize-hosts"@.contains(' ') {
            let i = choose|i: int| 0 <= i < "--randomize-hosts"@.len() && "--randomize-hosts"@[i] == ' ';
        }
    }
    assert(!"--randomize-hosts"@.contains('\t')) by {
        if "--randomize-hosts"@.contains('\t') {
            let i = choose|i: int| 0 <= i < "--randomize-hosts"@.len() && "--randomize-hosts"@[i] == '\t';
        }
    }
    assert(!"--randomize-hosts"@.contains('"')) by {
        if "--randomize-hosts"@.contains('"') {
            let i = choose|i: int| 0 <= i < "--randomize-hosts"@.len() && "--randomize-hosts"@[i] == '"';
        }
    }
    assert(!"--randomize-hosts"@.contains('\n')) by {
        if "--randomize-hosts"@.contains('\n') {
            let i = choose|i: int| 0 <= i < "--randomize-hosts"@.len() && "--randomize-hosts"@[i] == '\n';
        }
    }
}

proof fn lemma_lit_ok_91()
    ensures
        token_ok("--spoof-mac"@),
        !needs_quote("--spoof-mac"@),
        !"--spoof-mac"@.contains(' '),
        !"--spoof-mac"@.contains('\t'),
        !"--spoof-mac"@.contains('"'),
        !"--spoof-mac"@.contains('\n'),
{
    lit_chars_91();
    assert(!"--spoof-mac"@.contains(' ')) by {
        if "--spoof-mac"@.contains(' ') {
            let i = choose|i: int| 0 <= i < "--spoof-mac"@.len() && "--spoof-mac"@[i] == ' ';
        }
    }
    assert(!"--spoof-mac"@.contains('\t')) by {
        if "--spoof-mac"@.contains('\t') {
            let i = choose|i: int| 0 <= i < "--spoof-mac"@.len() && "--spoof-mac"@[i] == '\t';
        }
    }
    assert(!"--spoof-mac"@.contains('"')) by {
        if "--spoof-mac"@.contains('"') {
            let i = choose|i: int| 0 <= i < "--spoof-mac"@.len() && "--spoof-mac"@[i] == '"';
        }
    }
    assert(!"--spoof-mac"@.contains('\n')) by {
        if "--spoof-mac"@.contains('\n') {
            let i = choose|i: int| 0 <= i < "--spoof-mac"@.len() && "--spoof-mac"@[i] == '\n';
        }
    }
}

proof fn lemma_lit_ok_92()
    ensures
        token_ok("--badsum"@),
        !needs_quote("--badsum"@),
        !"--badsum"@.contains(' '),
        !"--badsum"@.contains('\t'),
        !"--badsum"@.contains('"'),
        !"--badsum"@.contains('\n'),
{
    lit_chars_92();
    assert(!"--badsum"@.contains(' ')) by {
        if "--badsum"@.contains(' ') {
            let i = choose|i: int| 0 <= i < "--badsum"@.len() && "--badsum"@[i] == ' ';
        }
    }
    assert(!"--badsum"@.contains('\t')) by {
        if "--badsum"@.contains('\t') {
            let i = choose|i: int| 0 <= i < "--badsum"@.len() && "--badsum"@[i] == '\t';
        }
    }
    assert(!"--badsum"@.contains('"')) by {
        if "--badsum"@.contains('"') {
            let i = choose|i: int| 0 <= i < "--badsum"@.len() && "--badsum"@[i] == '"';
        }
    }
    assert(!"--badsum"@.contains('\n')) by {
        if "--badsum"@.contains('\n') {
            let i = choose|i: int| 0 <= i < "--badsum"@.len() && "--badsum"@[i] == '\n';
        }
    }
}

proof fn lemma_lit_ok_93()
    ensures
        token_ok("--adler32"@),
        !needs_quote("--adler32"@),
        !"--adler32"@.contains(' '),
        !"--adler32"@.contains('\t'),
        !"--adler32"@.contains('"'),
        !"--adler32"@.contains('\n'),
{
    lit_chars_93();
    assert(!"--adler32"@.contains(' ')) by {
        if "--adler32"@.contains(' ') {
            let i = choose|i: int| 0 <= i < "--adler32"@.len() && "--adler32"@[i] == ' ';
        }
    }
    assert(!"--adler32"@.contains('\t')) by {
        if "--adler32"@.contains('\t') {
            let i = choose|i: int| 0 <= i < "--adler32"@.len() && "--adler32"@[i] == '\t';
        }
    }
    assert(!"--adler32"@.contains('"')) by {
        if "--adler32"@.contains('"') {
            let i = choose|i: int| 0 <= i < "--adler32"@.len() && "--adler32"@[i] == '"';
        }
    }
    assert(!"--adler32"@.contains('\n')) by {
        if "--adler32"@.contains('\n') {
            let i = choose|i: int| 0 <= i < "--adler32"@.len() && "--adler32"@[i] == '\n';
        }
    }
}

proof fn lemma_lit_ok_94()
    ensures
        token_ok("-oN"@),
        !needs_quote("-oN"@),
        !"-oN"@.contains(' '),
        !"-oN"@.contains('\t'),
        !"-oN"@.contains('"'),
        !"-oN"@.contains('\n'),
{
    lit_chars_94();
    assert(!"-oN"@.contains(' ')) by {
        if "-oN"@.contains(' ') {
            let i = choose|i: int| 0 <= i < "-oN"@.len() && "-oN"@[i] == ' ';
        }
    }
    assert(!"-oN"@.contains('\t')) by {
        if "-oN"@.contains('\t') {
            let i = choose|i: int| 0 <= i < "-oN"@.len() && "-oN"@[i] == '\t';
        }
    }
    assert(!"-oN"@.contains('"')) by {
        if "-oN"@.contains('"') {
            let i = choose|i: int| 0 <= i < "-oN"@.len() && "-oN"@[i] == '"';
        }
    }
    assert(!"-oN"@.contains('\n')) by {
        if "-oN"@.contains('\n') {
            let i = choose|i: int| 0 <= i < "-oN"@.len() && "-oN"@[i] == '\n';
        }
    }
}

proof fn lemma_lit_ok_95()
    ensures
        token_ok("-oX"@),
        !needs_quote("-oX"@),
        !"-oX"@.contains(' '),
        !"-oX"@.contains('\t'),
        !"-oX"@.contains('"'),
        !"-oX"@.contains('\n'),
{
    lit_chars_95();
    assert(!"-oX"@.contains(' ')) by {
        if "-oX"@.contains(' ') {
            let i = choose|i: int| 0 <= i < "-oX"@.len() && "-oX"@[i] == ' ';
        }
    }
    assert(!"-oX"@.contains('\t')) by {
        if "-oX"@.contains('\t') {
            let i = choose|i: int| 0 <= i < "-oX"@.len() && "-oX"@[i] == '\t';
        }
    }
    assert(!"-oX"@.contains('"')) by {
        if "-oX"@.contains('"') {
            let i = choose|i: int| 0 <= i < "-oX"@.len() && "-oX"@[i] == '"';
        }
    }
    assert(!"-oX"@.contains('\n')) by {
        if "-oX"@.contains('\n') {
            let i = choose|i: int| 0 <= i < "-oX"@.len() && "-oX"@[i] == '\n';
        }
    }
}

proof fn lemma_lit_ok_96()
    ensures
        token_ok("-oS"@),
        !needs_quote("-oS"@),
        !"-oS"@.contains(' '),
        !"-oS"@.contains('\t'),
        !"-oS"@.contains('"'),
        !"-oS"@.contains('\n'),
{
    lit_chars_96();
    assert(!"-oS"@.contains(' ')) by {
        if "-oS"@.contains(' ') {
            let i = choose|i: int| 0 <= i < "-oS"@.len() && "-oS"@[i] == ' ';
        }
    }
    assert(!"-oS"@.contains('\t')) by {
        if "-oS"@.contains('\t') {
            let i = choose|i: int| 0 <= i < "-oS"@.len() && "-oS"@[i] == '\t';
        }
    }
    assert(!"-oS"@.contains('"')) by {
        if "-oS"@.contains('"') {
            let i = choose|i: int| 0 <= i < "-oS"@.len() && "-oS"@[i] == '"';
        }
    }
    assert(!"-oS"@.contains('\n')) by {
        if "-oS"@.contains('\n') {
            let i = choose|i: int| 0 <= i < "-oS"@.len() && "-oS"@[i] == '\n';
        }
    }
}

proof fn lemma_lit_ok_97()
    ensures
        token_ok("-oG"@),
        !needs_quote("-oG"@),
        !"-oG"@.contains(' '),
        !"-oG"@.contains('\t'),
        !"-oG"@.contains('"'),
        !"-oG"@.contains('\n'),
{
    lit_chars_97();
    assert(!"-oG"@.contains(' ')) by {
        if "-oG"@.contains(' ') {
            let i = choose|i: int| 0 <= i < "-oG"@.len() && "-oG"@[i] == ' ';
        }
    }
    assert(!"-oG"@.contains('\t')) by {
        if "-oG"@.contains('\t') {
            let i = choose|i: int| 0 <= i < "-oG"@.len() && "-oG"@[i] == '\t';
        }
    }
    assert(!"-oG"@.contains('"')) by {
        if "-oG"@.contains('"') {
            let i = choose|i: int| 0 <= i < "-oG"@.len() && "-oG"@[i] == '"';
        }
    }
    assert(!"-oG"@.contains('\n')) by {
        if "-oG"@.contains('\n') {
            let i = choose|i: int| 0 <= i < "-oG"@.len() && "-oG"@[i] == '\n';
        }
    }
}

proof fn lemma_lit_ok_98()
    ensures
        token_ok("-oA"@),
        !needs_quote("-oA"@),
        !"-oA"@.contains(' '),
        !"-oA"@.contains('\t'),
        !"-oA"@.contains('"'),
        !"-oA"@.contains('\n'),
{
    lit_chars_98();
    assert(!"-oA"@.contains(' ')) by {
        if "-oA"@.contains(' ') {
            let i = choose|i: int| 0 <= i < "-oA"@.len() && "-oA"@[i] == ' ';
        }
    }
    assert(!"-oA"@.contains('\t')) by {
        if "-oA"@.contains('\t') {
            let i = choose|i: int| 0 <= i < "-oA"@.len() && "-oA"@[i] == '\t';
        }
    }
    assert(!"-oA"@.contains('"')) by {
        if "-oA"@.contains('"') {
            let i = choose|i: int| 0 <= i < "-oA"@.len() && "-oA"@[i] == '"';
        }
    }
    assert(!"-oA"@.contains('\n')) by {
        if "-oA"@.contains('\n') {
            let i = choose|i: int| 0 <= i < "-oA"@.len() && "-oA"@[i] == '\n';
        }
    }
}

proof fn lemma_lit_ok_99()
    ensures
        token_ok("-v"@),
        !needs_quote("-v"@),
        !"-v"@.contains(' '),
        !"-v"@.contains('\t'),
        !"-v"@.contains('"'),
        !"-v"@.contains('\n'),
{
    lit_chars_99();
    assert(!"-v"@.contains(' ')) by {
        if "-v"@.contains(' ') {
            let i = choose|i: int| 0 <= i < "-v"@.len() && "-v"@[i] == ' ';
        }
    }
    assert(!"-v"@.contains('\t')) by {
        if "-v"@.contains('\t') {
            let i = choose|i: int| 0 <= i < "-v"@.len() && "-v"@[i] == '\t';
        }
    }
    assert(!"-v"@.contains('"')) by {
        if "-v"@.contains('"') {
            let i = choose|i: int| 0 <= i < "-v"@.len() && "-v"@[i] == '"';
        }
    }
    assert(!"-v"@.contains('\n')) by {
        if "-v"@.contains('\n') {
            let i = choose|i: int| 0 <= i < "-v"@.len() && "-v"@[i] == '\n';
        }
    }
}

proof fn lemma_lit_ok_100()
    ensures
        token_ok("-vv"@),
        !needs_quote("-vv"@),
        !"-vv"@.contains(' '),
        !"-vv"@.contains('\t'),
        !"-vv"@.contains('"'),
        !"-vv"@.contains('\n'),
{
    lit_chars_100();
    assert(!"-vv"@.contains(' ')) by {
        if "-vv"@.contains(' ') {
            let i = choose|i: int| 0 <= i < "-vv"@.len() && "-vv"@[i] == ' ';
        }
    }
    assert(!"-vv"@.contains('\t')) by {
        if "-vv"@.contains('\t') {
            let i = choose|i: int| 0 <= i < "-vv"@.len() && "-vv"@[i] == '\t';
        }
    }
    assert(!"-vv"@.contains('"')) by {
        if "-vv"@.contains('"') {
            let i = choose|i: int| 0 <= i < "-vv"@.len() && "-vv"@[i] == '"';
        }
    }
    assert(!"-vv"@.contains('\n')) by {
        if "-vv"@.contains('\n') {
            let i = choose|i: int| 0 <= i < "-vv"@.len() && "-vv"@[i] == '\n';
        }
    }
}

proof fn lemma_lit_ok_101()
    ensures
        token_ok("-d"@),
        !needs_quote("-d"@),
        !"-d"@.contains(' '),
        !"-d"@.contains('\t'),
        !"-d"@.contains('"'),
        !"-d"@.contains('\n'),
{
    lit_chars_101();
    assert(!"-d"@.contains(' ')) by {
        if "-d"@.contains(' ') {
            let i = choose|i: int| 0 <= i < "-d"@.len() && "-d"@[i] == ' ';
        }
    }
    assert(!"-d"@.contains('\t')) by {
        if "-d"@.contains('\t') {
            let i = choose|i: int| 0 <= i < "-d"@.len() && "-d"@[i] == '\t';
        }
    }
    assert(!"-d"@.contains('"')) by {
        if "-d"@.contains('"') {
            let i = choose|i: int| 0 <= i < "-d"@.len() && "-d"@[i] == '"';
        }
    }
    assert(!"-d"@.contains('\n')) by {
        if "-d"@.contains('\n') {
            let i = choose|i: int| 0 <= i < "-d"@.len() && "-d"@[i] == '\n';
        }
    }
}

proof fn lemma_lit_ok_102()
    ensures
        token_ok("-dd"@),
        !needs_quote("-dd"@),
        !"-dd"@.contains(' '),
        !"-dd"@.contains('\t'),
        !"-dd"@.contains('"'),
        !"-dd"@.contains('\n'),
{
    lit_chars_102();
    assert(!"-dd"@.contains(' ')) by {
        if "-dd"@.contains(' ') {
            let i = choose|i: int| 0 <= i < "-dd"@.len() && "-dd"@[i] == ' ';
        }
    }
    assert(!"-dd"@.contains('\t')) by {
        if "-dd"@.contains('\t') {
            let i = choose|i: int| 0 <= i < "-dd"@.len() && "-dd"@[i] == '\t';
        }
    }
    assert(!"-dd"@.contains('"')) by {
        if "-dd"@.contains('"') {
            let i = choose|i: int| 0 <= i < "-dd"@.len() && "-dd"@[i] == '"';
        }
    }
    assert(!"-dd"@.contains('\n')) by {
        if "-dd"@.contains('\n') {
            let i = choose|i: int| 0 <= i < "-dd"@.len() && "-dd"@[i] == '\n';
        }
    }
}

proof fn lemma_lit_ok_103()
    ensures
        token_ok("--reason"@),
        !needs_quote("--reason"@),
        !"--reason"@.contains(' '),
        !"--reason"@.contains('\t'),
        !"--reason"@.contains('"'),
        !"--reason"@.contains('\n'),
{
    lit_chars_103();
    assert(!"--reason"@.contains(' ')) by {
        if "--reason"@.contains(' ') {
            let i = choose|i: int| 0 <= i < "--reason"@.len() && "--reason"@[i] == ' ';
        }
    }
    assert(!"--reason"@.contains('\t')) by {
        if "--reason"@.contains('\t') {
            let i = choose|i: int| 0 <= i < "--reason"@.len() && "--reason"@[i] == '\t';
        }
    }
    assert(!"--reason"@.contains('"')) by {
        if "--reason"@.contains('"') {
            let i = choose|i: int| 0 <= i < "--reason"@.len() && "--reason"@[i] == '"';
        }
    }
    assert(!"--reason"@.contains('\n')) by {
        if "--reason"@.contains('\n') {
            let i = choose|i: int| 0 <= i < "--reason"@.len() && "--reason"@[i] == '\n';
        }
    }
}

proof fn lemma_lit_ok_104()
    ensures
        token_ok("--stats-every"@),
        !needs_quote("--stats-every"@),
        !"--stats-every"@.contains(' '),
        !"--stats-every"@.contains('\t'),
        !"--stats-every"@.contains('"'),
        !"--stats-every"@.contains('\n'),
{
    lit_chars_104();
    assert(!"--stats-every"@.contains(' ')) by {
        if "--stats-every"@.contains(' ') {
            let i = choose|i: int| 0 <= i < "--stats-every"@.len() && "--stats-every"@[i] == ' ';
        }
    }
    assert(!"--stats-every"@.contains('\t')) by {
        if "--stats-every"@.contains('\t') {
            let i = choose|i: int| 0 <= i < "--stats-every"@.len() && "--stats-every"@[i] == '\t';
        }
    }
    assert(!"--stats-every"@.contains('"')) by {
        if "--stats-every"@.contains('"') {
            let i = choose|i: int| 0 <= i < "--stats-every"@.len() && "--stats-every"@[i] == '"';
        }
    }
    assert(!"--stats-every"@.contains('\n')) by {
        if "--stats-every"@.contains('\n') {
            let i = choose|i: int| 0 <= i < "--stats-every"@.len() && "--stats-every"@[i] == '\n';
        }
    }
}

proof fn lemma_lit_ok_105()
    ensures
        token_ok("--packet-trace"@),
        !needs_quote("--packet-trace"@),
        !"--packet-trace"@.contains(' '),
        !"--packet-trace"@.contains('\t'),
        !"--packet-trace"@.contains('"'),
        !"--packet-trace"@.contains('\n'),
{
    lit_chars_105();
    assert(!"--packet-trace"@.contains(' ')) by {
        if "--packet-trace"@.contains(' ') {
            let i = choose|i: int| 0 <= i < "--packet-trace"@.len() && "--packet-trace"@[i] == ' ';
        }
    }
    assert(!"--packet-trace"@.contains('\t')) by {
        if "--packet-trace"@.contains('\t') {
            let i = choose|i: int| 0 <= i < "--packet-trace"@.len() && "--packet-trace"@[i] == '\t';
        }
    }
    assert(!"--packet-trace"@.contains('"')) by {
        if "--packet-trace"@.contains('"') {
            let i = choose|i: int| 0 <= i < "--packet-trace"@.len() && "--packet-trace"@[i] == '"';
        }
    }
    assert(!"--packet-trace"@.contains('\n')) by {
        if "--packet-trace"@.contains('\n') {
            let i = choose|i: int| 0 <= i < "--packet-trace"@.len() && "--packet-trace"@[i] == '\n';
        }
    }
}

proof fn lemma_lit_ok_106()
    ensures
        token_ok("--open"@),
        !needs_quote("--open"@),
        !"--open"@.contains(' '),
        !"--open"@.contains('\t'),
        !"--open"@.contains('"'),
        !"--open"@.contains('\n'),
{
    lit_chars_106();
    assert(!"--open"@.contains(' ')) by {
        if "--open"@.contains(' ') {
            let i = choose|i: int| 0 <= i < "--open"@.len() && "--open"@[i] == ' ';
        }
    }
    assert(!"--open"@.contains('\t')) by {
        if "--open"@.contains('\t') {
            let i = choose|i: int| 0 <= i < "--open"@.len() && "--open"@[i] == '\t';
        }
    }
    assert(!"--open"@.contains('"')) by {
        if "--open"@.contains('"') {
            let i = choose|i: int| 0 <= i < "--open"@.len() && "--open"@[i] == '"';
        }
    }
    assert(!"--open"@.contains('\n')) by {
        if "--open"@.contains('\n') {
            let i = choose|i: int| 0 <= i < "--open"@.len() && "--open"@[i] == '\n';
        }
    }
}

proof fn lemma_lit_ok_107()
    ensures
        token_ok("--iflist"@),
        !needs_quote("--iflist"@),
        !"--iflist"@.contains(' '),
        !"--iflist"@.contains('\t'),
        !"--iflist"@.contains('"'),
        !"--iflist"@.contains('\n'),
{
    lit_chars_107();
    assert(!"--iflist"@.contains(' ')) by {
        if "--iflist"@.contains(' ') {
            let i = choose|i: int| 0 <= i < "--iflist"@.len() && "--iflist"@[i] == ' ';
        }
    }
    assert(!"--iflist"@.contains('\t')) by {
        if "--iflist"@.contains('\t') {
            let i = choose|i: int| 0 <= i < "--iflist"@.len() && "--iflist"@[i] == '\t';
        }
    }
    assert(!"--iflist"@.contains('"')) by {
        if "--iflist"@.contains('"') {
            let i = choose|i: int| 0 <= i < "--iflist"@.len() && "--iflist"@[i] == '"';
        }
    }
    assert(!"--iflist"@.contains('\n')) by {
        if "--iflist"@.contains('\n') {
            let i = choose|i: int| 0 <= i < "--iflist"@.len() && "--iflist"@[i] == '\n';
        }
    }
}

proof fn lemma_lit_ok_108()
    ensures
        token_ok("--append-output"@),
        !needs_quote("--append-output"@),
        !"--append-output"@.contains(' '),
        !"--append-output"@.contains('\t'),
        !"--append-output"@.contains('"'),
        !"--append-output"@.contains('\n'),
{
    lit_chars_108();
    assert(!"--append-output"@.contains(' ')) by {
        if "--append-output"@.contains(' ') {
            let i = choose|i: int| 0 <= i < "--append-output"@.len() && "--append-output"@[i] == ' ';
        }
    }
    assert(!"--append-output"@.contains('\t')) by {
        if "--append-output"@.contains('\t') {
            let i = choose|i: int| 0 <= i < "--append-output"@.len() && "--append-output"@[i] == '\t';
        }
    }
    assert(!"--append-output"@.contains('"')) by {
        if "--append-output"@.contains('"') {
            let i = choose|i: int| 0 <= i < "--append-output"@.len() && "--append-output"@[i] == '"';
        }
    }
    assert(!"--append-output"@.contains('\n')) by {
        if "--append-output"@.contains('\n') {
            let i = choose|i: int| 0 <= i < "--append-output"@.len() && "--append-output"@[i] == '\n';
        }
    }
}

proof fn lemma_lit_ok_109()
    ensures
        token_ok("--resume"@),
        !needs_quote("--resume"@),
        !"--resume"@.contains(' '),
        !"--resume"@.contains('\t'),
        !"--resume"@.contains('"'),
        !"--resume"@.contains('\n'),
{
    lit_chars_109();
    assert(!"--resume"@.contains(' ')) by {
        if "--resume"@.contains(' ') {
            let i = choose|i: int| 0 <= i < "--resume"@.len() && "--resume"@[i] == ' ';
        }
    }
    assert(!"--resume"@.contains('\t')) by {
        if "--resume"@.contains('\t') {
            let i = choose|i: int| 0 <= i < "--resume"@.len() && "--resume"@[i] == '\t';
        }
    }
    assert(!"--resume"@.contains('"')) by {
        if "--resume"@.contains('"') {
            let i = choose|i: int| 0 <= i < "--resume"@.len() && "--resume"@[i] == '"';
        }
    }
    assert(!"--resume"@.contains('\n')) by {
        if "--resume"@.contains('\n') {
            let i = choose|i: int| 0 <= i < "--resume"@.len() && "--resume"@[i] == '\n';
        }
    }
}

proof fn lemma_lit_ok_110()
    ensures
        token_ok("--stylesheet"@),
        !needs_quote("--stylesheet"@),
        !"--stylesheet"@.contains(' '),
        !"--stylesheet"@.contains('\t'),
        !"--stylesheet"@.contains('"'),
        !"--stylesheet"@.contains('\n'),
{
    lit_chars_110();
    assert(!"--stylesheet"@.contains(' ')) by {
        if "--stylesheet"@.contains(' ') {
            let i = choose|i: int| 0 <= i < "--stylesheet"@.len() && "--stylesheet"@[i] == ' ';
        }
    }
    assert(!"--stylesheet"@.contains('\t')) by {
        if "--stylesheet"@.contains('\t') {
            let i = choose|i: int| 0 <= i < "--stylesheet"@.len() && "--stylesheet"@[i] == '\t';
        }
    }
    assert(!"--stylesheet"@.contains('"')) by {
        if "--stylesheet"@.contains('"') {
            let i = choose|i: int| 0 <= i < "--stylesheet"@.len() && "--stylesheet"@[i] == '"';
        }
    }
    assert(!"--stylesheet"@.contains('\n')) by {
        if "--stylesheet"@.contains('\n') {
            let i = choose|i: int| 0 <= i < "--stylesheet"@.len() && "--stylesheet"@[i] == '\n';
        }
    }
}

proof fn lemma_lit_ok_111()
    ensures
        token_ok("--webxml"@),
        !needs_quote("--webxml"@),
        !"--webxml"@.contains(' '),
        !"--webxml"@.contains('\t'),
        !"--webxml"@.contains('"'),
        !"--webxml"@.contains('\n'),
{
    lit_chars_111();
    assert(!"--webxml"@.contains(' ')) by {
        if "--webxml"@.contains(' ') {
            let i = choose|i: int| 0 <= i < "--webxml"@.len() && "--webxml"@[i] == ' ';
        }
    }
    assert(!"--webxml"@.contains('\t')) by {
        if "--webxml"@.contains('\t') {
            let i = choose|i: int| 0 <= i < "--webxml"@.len() && "--webxml"@[i] == '\t';
        }
    }
    assert(!"--webxml"@.contains('"')) by {
        if "--webxml"@.contains('"') {
            let i = choose|i: int| 0 <= i < "--webxml"@.len() && "--webxml"@[i] == '"';
        }
    }
    assert(!"--webxml"@.contains('\n')) by {
        if "--webxml"@.contains('\n') {
            let i = choose|i: int| 0 <= i < "--webxml"@.len() && "--webxml"@[i] == '\n';
        }
    }
}

proof fn lemma_lit_ok_112()
    ensures
        token_ok("--no-stylesheet"@),
        !needs_quote("--no-stylesheet"@),
        !"--no-stylesheet"@.contains(' '),
        !"--no-stylesheet"@.contains('\t'),
        !"--no-stylesheet"@.contains('"'),
        !"--no-stylesheet"@.contains('\n'),
{
    lit_chars_112();
    assert(!"--no-stylesheet"@.contains(' ')) by {
        if "--no-stylesheet"@.contains(' ') {
            let i = choose|i: int| 0 <= i < "--no-stylesheet"@.len() && "--no-stylesheet"@[i] == ' ';
        }
    }
    assert(!"--no-stylesheet"@.contains('\t')) by {
        if "--no-stylesheet"@.contains('\t') {
            let i = choose|i: int| 0 <= i < "--no-stylesheet"@.len() && "--no-stylesheet"@[i] == '\t';
        }
    }
    assert(!"--no-stylesheet"@.contains('"')) by {
        if "--no-stylesheet"@.contains('"') {
            let i = choose|i: int| 0 <= i < "--no-stylesheet"@.len() && "--no-stylesheet"@[i] == '"';
        }
    }
    assert(!"--no-stylesheet"@.contains('\n')) by {
        if "--no-stylesheet"@.contains('\n') {
            let i = choose|i: int| 0 <= i < "--no-stylesheet"@.len() && "--no-stylesheet"@[i] == '\n';
        }
    }
}

proof fn lemma_lit_ok_113()
    ensures
        token_ok("-6"@),
        !needs_quote("-6"@),
        !"-6"@.contains(' '),
        !"-6"@.contains('\t'),
        !"-6"@.contains('"'),
        !"-6"@.contains('\n'),
{
    lit_chars_113();
    assert(!"-6"@.contains(' ')) by {
        if "-6"@.contains(' ') {
            let i = choose|i: int| 0 <= i < "-6"@.len() && "-6"@[i] == ' ';
        }
    }
    assert(!"-6"@.contains('\t')) by {
        if "-6"@.contains('\t') {
            let i = choose|i: int| 0 <= i < "-6"@.len() && "-6"@[i] == '\t';
        }
    }
    assert(!"-6"@.contains('"')) by {
        if "-6"@.contains('"') {
            let i = choose|i: int| 0 <= i < "-6"@.len() && "-6"@[i] == '"';
        }
    }
    assert(!"-6"@.contains('\n')) by {
        if "-6"@.contains('\n') {
            let i = choose|i: int| 0 <= i < "-6"@.len() && "-6"@[i] == '\n';
        }
    }
}

proof fn lemma_lit_ok_114()
    ensures
        token_ok("-A"@),
        !needs_quote("-A"@),
        !"-A"@.contains(' '),
        !"-A"@.contains('\t'),
        !"-A"@.contains('"'),
        !"-A"@.contains('\n'),
{
    lit_chars_114();
    assert(!"-A"@.contains(' ')) by {
        if "-A"@.contains(' ') {
            let i = choose|i: int| 0 <= i < "-A"@.len() && "-A"@[i] == ' ';
        }
    }
    assert(!"-A"@.contains('\t')) by {
        if "-A"@.contains('\t') {
            let i = choose|i: int| 0 <= i < "-A"@.len() && "-A"@[i] == '\t';
        }
    }
    assert(!"-A"@.contains('"')) by {
        if "-A"@.contains('"') {
            let i = choose|i: int| 0 <= i < "-A"@.len() && "-A"@[i] == '"';
        }
    }
    assert(!"-A"@.contains('\n')) by {
        if "-A"@.contains('\n') {
            let i = choose|i: int| 0 <= i < "-A"@.len() && "-A"@[i] == '\n';
        }
    }
}

proof fn lemma_lit_ok_115()
    ensures
        token_ok("--datadir"@),
        !needs_quote("--datadir"@),
        !"--datadir"@.contains(' '),
        !"--datadir"@.contains('\t'),
        !"--datadir"@.contains('"'),
        !"--datadir"@.contains('\n'),
{
    lit_chars_115();
    assert(!"--datadir"@.contains(' ')) by {
        if "--datadir"@.contains(' ') {
            let i = choose|i: int| 0 <= i < "--datadir"@.len() && "--datadir"@[i] == ' ';
        }
    }
    assert(!"--datadir"@.contains('\t')) by {
        if "--datadir"@.contains('\t') {
            let i = choose|i: int| 0 <= i < "--datadir"@.len() && "--datadir"@[i] == '\t';
        }
    }
    assert(!"--datadir"@.contains('"')) by {
        if "--datadir"@.contains('"') {
            let i = choose|i: int| 0 <= i < "--datadir"@.len() && "--datadir"@[i] == '"';
        }
    }
    assert(!"--datadir"@.contains('\n')) by {
        if "--datadir"@.contains('\n') {
            let i = choose|i: int| 0 <= i < "--datadir"@.len() && "--datadir"@[i] == '\n';
        }
    }
}

proof fn lemma_lit_ok_116()
    ensures
        token_ok("--send-eth"@),
        !needs_quote("--send-eth"@),
        !"--send-eth"@.contains(' '),
        !"--send-eth"@.contains('\t'),
        !"--send-eth"@.contains('"'),
        !"--send-eth"@.contains('\n'),
{
    lit_chars_116();
    assert(!"--send-eth"@.contains(' ')) by {
        if "--send-eth"@.contains(' ') {
            let i = choose|i: int| 0 <= i < "--send-eth"@.len() && "--send-eth"@[i] == ' ';
        }
    }
    assert(!"--send-eth"@.contains('\t')) by {
        if "--send-eth"@.contains('\t') {
            let i = choose|i: int| 0 <= i < "--send-eth"@.len() && "--send-eth"@[i] == '\t';
        }
    }
    assert(!"--send-eth"@.contains('"')) by {
        if "--send-eth"@.contains('"') {
            let i = choose|i: int| 0 <= i < "--send-eth"@.len() && "--send-eth"@[i] == '"';
        }
    }
    assert(!"--send-eth"@.contains('\n')) by {
        if "--send-eth"@.contains('\n') {
            let i = choose|i: int| 0 <= i < "--send-eth"@.len() && "--send-eth"@[i] == '\n';
        }
    }
}

proof fn lemma_lit_ok_117()
    ensures
        token_ok("--send-ip"@),
        !needs_quote("--send-ip"@),
        !"--send-ip"@.contains(' '),
        !"--send-ip"@.contains('\t'),
        !"--send-ip"@.contains('"'),
        !"--send-ip"@.contains('\n'),
{
    lit_chars_117();
    assert(!"--send-ip"@.contains(' ')) by {
        if "--send-ip"@.contains(' ') {
            let i = choose|i: int| 0 <= i < "--send-ip"@.len() && "--send-ip"@[i] == ' ';
        }
    }
    assert(!"--send-ip"@.contains('\t')) by {
        if "--send-ip"@.contains('\t') {
            let i = choose|i: int| 0 <= i < "--send-ip"@.len() && "--send-ip"@[i] == '\t';
        }
    }
    assert(!"--send-ip"@.contains('"')) by {
        if "--send-ip"@.contains('"') {
            let i = choose|i: int| 0 <= i < "--send-ip"@.len() && "--send-ip"@[i] == '"';
        }
    }
    assert(!"--send-ip"@.contains('\n')) by {
        if "--send-ip"@.contains('\n') {
            let i = choose|i: int| 0 <= i < "--send-ip"@.len() && "--send-ip"@[i] == '\n';
        }
    }
}

proof fn lemma_lit_ok_118()
    ensures
        token_ok("--privileged"@),
        !needs_quote("--privileged"@),
        !"--privileged"@.contains(' '),
        !"--privileged"@.contains('\t'),
        !"--privileged"@.contains('"'),
        !"--privileged"@.contains('\n'),
{
    lit_chars_118();
    assert(!"--privileged"@.contains(' ')) by {
        if "--privileged"@.contains(' ') {
            let i = choose|i: int| 0 <= i < "--privileged"@.len() && "--privileged"@[i] == ' ';
        }
    }
    assert(!"--privileged"@.contains('\t')) by {
        if "--privileged"@.contains('\t') {
            let i = choose|i: int| 0 <= i < "--privileged"@.len() && "--privileged"@[i] == '\t';
        }
    }
    assert(!"--privileged"@.contains('"')) by {
        if "--privileged"@.contains('"') {
            let i = choose|i: int| 0 <= i < "--privileged"@.len() && "--privileged"@[i] == '"';
        }
    }
    assert(!"--privileged"@.contains('\n')) by {
        if "--privileged"@.contains('\n') {
            let i = choose|i: int| 0 <= i < "--privileged"@.len() && "--privileged"@[i] == '\n';
        }
    }
}

proof fn lemma_lit_ok_119()
    ensures
        token_ok("--unprivileged"@),
        !needs_quote("--unprivileged"@),
        !"--unprivileged"@.contains(' '),
        !"--unprivileged"@.contains('\t'),
        !"--unprivileged"@.contains('"'),
        !"--unprivileged"@.contains('\n'),
{
    lit_chars_119();
    assert(!"--unprivileged"@.contains(' ')) by {
        if "--unprivileged"@.contains(' ') {
            let i = choose|i: int| 0 <= i < "--unprivileged"@.len() && "--unprivileged"@[i] == ' ';
        }
    }
    assert(!"--unprivileged"@.contains('\t')) by {
        if "--unprivileged"@.contains('\t') {
            let i = choose|i: int| 0 <= i < "--unprivileged"@.len() && "--unprivileged"@[i] == '\t';
        }
    }
    assert(!"--unprivileged"@.contains('"')) by {
        if "--unprivileged"@.contains('"') {
            let i = choose|i: int| 0 <= i < "--unprivileged"@.len() && "--unprivileged"@[i] == '"';
        }
    }
    assert(!"--unprivileged"@.contains('\n')) by {
        if "--unprivileged"@.contains('\n') {
            let i = choose|i: int| 0 <= i < "--unprivileged"@.len() && "--unprivileged"@[i] == '\n';
        }
    }
}

proof fn lemma_lit_ok_120()
    ensures
        token_ok("--release-memory"@),
        !needs_quote("--release-memory"@),
        !"--release-memory"@.contains(' '),
        !"--release-memory"@.contains('\t'),
        !"--release-memory"@.contains('"'),
        !"--release-memory"@.contains('\n'),
{
    lit_chars_120();
    assert(!"--release-memory"@.contains(' ')) by {
        if "--release-memory"@.contains(' ') {
            let i = choose|i: int| 0 <= i < "--release-memory"@.len() && "--release-memory"@[i] == ' ';
        }
    }
    assert(!"--release-memory"@.contains('\t')) by {
        if "--release-memory"@.contains('\t') {
            let i = choose|i: int| 0 <= i < "--release-memory"@.len() && "--release-memory"@[i] == '\t';
        }
    }
    assert(!"--release-memory"@.contains('"')) by {
        if "--release-memory"@.contains('"') {
            let i = choose|i: int| 0 <= i < "--release-memory"@.len() && "--release-memory"@[i] == '"';
        }
    }
    assert(!"--release-memory"@.contains('\n')) by {
        if "--release-memory"@.contains('\n') {
            let i = choose|i: int| 0 <= i < "--release-memory"@.len() && "--release-memory"@[i] == '\n';
        }
    }
}

proof fn lemma_lit_ok_121()
    ensures
        token_ok("-V"@),
        !needs_quote("-V"@),
        !"-V"@.contains(' '),
        !"-V"@.contains('\t'),
        !"-V"@.contains('"'),
        !"-V"@.contains('\n'),
{
    lit_chars_121();
    assert(!"-V"@.contains(' ')) by {
        if "-V"@.contains(' ') {
            let i = choose|i: int| 0 <= i < "-V"@.len() && "-V"@[i] == ' ';
        }
    }
    assert(!"-V"@.contains('\t')) by {
        if "-V"@.contains('\t') {
            let i = choose|i: int| 0 <= i < "-V"@.len() && "-V"@[i] == '\t';
        }
    }
    assert(!"-V"@.contains('"')) by {
        if "-V"@.contains('"') {
            let i = choose|i: int| 0 <= i < "-V"@.len() && "-V"@[i] == '"';
        }
    }
    assert(!"-V"@.contains('\n')) by {
        if "-V"@.contains('\n') {
            let i = choose|i: int| 0 <= i < "-V"@.len() && "-V"@[i] == '\n';
        }
    }
}

proof fn lemma_lit_ok_122()
    ensures
        token_ok("--version"@),
        !needs_quote("--version"@),
        !"--version"@.contains(' '),
        !"--version"@.contains('\t'),
        !"--version"@.contains('"'),
        !"--version"@.contains('\n'),
{
    lit_chars_122();
    assert(!"--version"@.contains(' ')) by {
        if "--version"@.contains(' ') {
            let i = choose|i: int| 0 <= i < "--version"@.len() && "--version"@[i] == ' ';
        }
    }
    assert(!"--version"@.contains('\t')) by {
        if "--version"@.contains('\t') {
            let i = choose|i: int| 0 <= i < "--version"@.len() && "--version"@[i] == '\t';
        }
    }
    assert(!"--version"@.contains('"')) by {
        if "--version"@.contains('"') {
            let i = choose|i: int| 0 <= i < "--version"@.len() && "--version"@[i] == '"';
        }
    }
    assert(!"--version"@.contains('\n')) by {
        if "--version"@.contains('\n') {
            let i = choose|i: int| 0 <= i < "--version"@.len() && "--version"@[i] == '\n';
        }
    }
}

proof fn lemma_lit_ok_123()
    ensures
        token_ok("-h"@),
        !needs_quote("-h"@),
        !"-h"@.contains(' '),
        !"-h"@.contains('\t'),
        !"-h"@.contains('"'),
        !"-h"@.contains('\n'),
{
    lit_chars_123();
    assert(!"-h"@.contains(' ')) by {
        if "-h"@.contains(' ') {
            let i = choose|i: int| 0 <= i < "-h"@.len() && "-h"@[i] == ' ';
        }
    }
    assert(!"-h"@.contains('\t')) by {
        if "-h"@.contains('\t') {
            let i = choose|i: int| 0 <= i < "-h"@.len() && "-h"@[i] == '\t';
        }
    }
    assert(!"-h"@.contains('"')) by {
        if "-h"@.contains('"') {
            let i = choose|i: int| 0 <= i < "-h"@.len() && "-h"@[i] == '"';
        }
    }
    assert(!"-h"@.contains('\n')) by {
        if "-h"@.contains('\n') {
            let i = choose|i: int| 0 <= i < "-h"@.len() && "-h"@[i] == '\n';
        }
    }
}

proof fn lemma_lit_ok_124()
    ensures
        token_ok("--help"@),
        !needs_quote("--help"@),
        !"--help"@.contains(' '),
        !"--help"@.contains('\t'),
        !"--help"@.contains('"'),
        !"--help"@.contains('\n'),
{
    lit_chars_124();
    assert(!"--help"@.contains(' ')) by {
        if "--help"@.contains(' ') {
            let i = choose|i: int| 0 <= i < "--help"@.len() && "--help"@[i] == ' ';
        }
    }
    assert(!"--help"@.contains('\t')) by {
        if "--help"@.contains('\t') {
            let i = choose|i: int| 0 <= i < "--help"@.len() && "--help"@[i] == '\t';
        }
    }
    assert(!"--help"@.contains('"')) by {
        if "--help"@.contains('"') {
            let i = choose|i: int| 0 <= i < "--help"@.len() && "--help"@[i] == '"';
        }
    }
    assert(!"--help"@.contains('\n')) by {
        if "--help"@.contains('\n') {
            let i = choose|i: int| 0 <= i < "--help"@.len() && "--help"@[i] == '\n';
        }
    }
}

proof fn lemma_lit_ok_125()
    ensures
        token_ok("-R"@),
        !needs_quote("-R"@),
        !"-R"@.contains(' '),
        !"-R"@.contains('\t'),
        !"-R"@.contains('"'),
        !"-R"@.contains('\n'),
{
    lit_chars_125();
    assert(!"-R"@.contains(' ')) by {
        if "-R"@.contains(' ') {
            let i = choose|i: int| 0 <= i < "-R"@.len() && "-R"@[i] == ' ';
        }
    }
    assert(!"-R"@.contains('\t')) by {
        if "-R"@.contains('\t') {
            let i = choose|i: int| 0 <= i < "-R"@.len() && "-R"@[i] == '\t';
        }
    }
    assert(!"-R"@.contains('"')) by {
        if "-R"@.contains('"') {
            let i = choose|i: int| 0 <= i < "-R"@.len() && "-R"@[i] == '"';
        }
    }
    assert(!"-R"@.contains('\n')) by {
        if "-R"@.contains('\n') {
            let i = choose|i: int| 0 <= i < "-R"@.len() && "-R"@[i] == '\n';
        }
    }
}

proof fn lemma_lit_ok_126()
    ensures
        token_ok("-n"@),
        !needs_quote("-n"@),
        !"-n"@.contains(' '),
        !"-n"@.contains('\t'),
        !"-n"@.contains('"'),
        !"-n"@.contains('\n'),
{
    lit_chars_126();
    assert(!"-n"@.contains(' ')) by {
        if "-n"@.contains(' ') {
            let i = choose|i: int| 0 <= i < "-n"@.len() && "-n"@[i] == ' ';
        }
    }
    assert(!"-n"@.contains('\t')) by {
        if "-n"@.contains('\t') {
            let i = choose|i: int| 0 <= i < "-n"@.len() && "-n"@[i] == '\t';
        }
    }
    assert(!"-n"@.contains('"')) by {
        if "-n"@.contains('"') {
            let i = choose|i: int| 0 <= i < "-n"@.len() && "-n"@[i] == '"';
        }
    }
    assert(!"-n"@.contains('\n')) by {
        if "-n"@.contains('\n') {
            let i = choose|i: int| 0 <= i < "-n"@.len() && "-n"@[i] == '\n';
        }
    }
}

proof fn lemma_lit_ok_127()
    ensures
        token_ok("--unique"@),
        !needs_quote("--unique"@),
        !"--unique"@.contains(' '),
        !"--unique"@.contains('\t'),
        !"--unique"@.contains('"'),
        !"--unique"@.contains('\n'),
{
    lit_chars_127();
    assert(!"--unique"@.contains(' ')) by {
        if "--unique"@.contains(' ') {
            let i = choose|i: int| 0 <= i < "--unique"@.len() && "--unique"@[i] == ' ';
        }
    }
    assert(!"--unique"@.contains('\t')) by {
        if "--unique"@.contains('\t') {
            let i = choose|i: int| 0 <= i < "--unique"@.len() && "--unique"@[i] == '\t';
        }
    }
    assert(!"--unique"@.contains('"')) by {
        if "--unique"@.contains('"') {
            let i = choose|i: int| 0 <= i < "--unique"@.len() && "--unique"@[i] == '"';
        }
    }
    assert(!"--unique"@.contains('\n')) by {
        if "--unique"@.contains('\n') {
            let i = choose|i: int| 0 <= i < "--unique"@.len() && "--unique"@[i] == '\n';
        }
    }
}

proof fn lemma_lit_ok_128()
    ensures
        token_ok("--log-errors"@),
        !needs_quote("--log-errors"@),
        !"--log-errors"@.contains(' '),
        !"--log-errors"@.contains('\t'),
        !"--log-errors"@.contains('"'),
        !"--log-errors"@.contains('\n'),
{
    lit_chars_128();
    assert(!"--log-errors"@.contains(' ')) by {
        if "--log-errors"@.contains(' ') {
            let i = choose|i: int| 0 <= i < "--log-errors"@.len() && "--log-errors"@[i] == ' ';
        }
    }
    assert(!"--log-errors"@.contains('\t')) by {
        if "--log-errors"@.contains('\t') {
            let i = choose|i: int| 0 <= i < "--log-errors"@.len() && "--log-errors"@[i] == '\t';
        }
    }
    assert(!"--log-errors"@.contains('"')) by {
        if "--log-errors"@.contains('"') {
            let i = choose|i: int| 0 <= i < "--log-errors"@.len() && "--log-errors"@[i] == '"';
        }
    }
    assert(!"--log-errors"@.contains('\n')) by {
        if "--log-errors"@.contains('\n') {
            let i = choose|i: int| 0 <= i < "--log-errors"@.len() && "--log-errors"@[i] == '\n';
        }
    }
}

proof fn lemma_lit_ok_129()
    ensures
        token_ok("-T"@),
        !needs_quote("-T"@),
        !"-T"@.contains(' '),
        !"-T"@.contains('\t'),
        !"-T"@.contains('"'),
        !"-T"@.contains('\n'),
{
    lit_chars_129();
    assert(!"-T"@.contains(' ')) by {
        if "-T"@.contains(' ') {
            let i = choose|i: int| 0 <= i < "-T"@.len() && "-T"@[i] == ' ';
        }
    }
    assert(!"-T"@.contains('\t')) by {
        if "-T"@.contains('\t') {
            let i = choose|i: int| 0 <= i < "-T"@.len() && "-T"@[i] == '\t';
        }
    }
    assert(!"-T"@.contains('"')) by {
        if "-T"@.contains('"') {
            let i = choose|i: int| 0 <= i < "-T"@.len() && "-T"@[i] == '"';
        }
    }
    assert(!"-T"@.contains('\n')) by {
        if "-T"@.contains('\n') {
            let i = choose|i: int| 0 <= i < "-T"@.len() && "-T"@[i] == '\n';
        }
    }
}

proof fn lemma_glued_token_ok(g: Seq<char>, p: Seq<char>)
    requires
        g.len() > 0,
        !g.contains(' '),
        !g.contains('\t'),
        !g.contains('"'),
        !g.contains('\n'),
        !p.contains(' '),
        !p.contains('\t'),
        !p.contains('"'),
        !p.contains('\n'),
    ensures
        token_ok(g + p),
{
    lemma_not_contains_concat(g, p, ' ');
    lemma_not_contains_concat(g, p, '\t');
    lemma_not_contains_concat(g, p, '"');
    lemma_not_contains_concat(g, p, '\n');
}

/// Every token of a repeated flag list is the flag itself.
proof fn lemma_rep_tokens_ok(f: Seq<char>, k: nat)
    requires
        token_ok(f),
    ensures
        all_tokens_ok(rep_tok(f, k)),
    decreases k,
{
    if k > 0 {
        lemma_rep_tokens_ok(f, (k - 1) as nat);
        assert forall|i: int| 0 <= i < rep_tok(f, k).len() implies token_ok(
            #[trigger] rep_tok(f, k)[i],
        ) by {
            if i == 0 {
                assert(rep_tok(f, k)[0] == f);
            } else {
                assert(rep_tok(f, k)[i] == rep_tok(f, (k - 1) as nat)[i - 1]);
            }
        }
    }
}

proof fn lemma_proc_rep_verbose(k: u8, m: NmapScanV, rest: Seq<Seq<char>>)
    requires
        m.output.verbose as int + k as int <= 255,
    ensures
        proc_tokens(rep_tok("-v"@, k as nat) + rest, m) == proc_tokens(
            rest,
            NmapScanV {
                output: OutputOptionsV { verbose: (m.output.verbose + k) as u8, ..m.output },
                ..m
            },
        ),
    decreases k,
{
    if k == 0 {
        assert(rep_tok("-v"@, 0) + rest =~= rest);
        assert(NmapScanV {
            output: OutputOptionsV { verbose: (m.output.verbose + 0) as u8, ..m.output },
            ..m
        } =~= m);
    } else {
        lit_chars_99();
        let t = "-v"@;
        let tail = rep_tok(t, (k - 1) as nat) + rest;
        let m2 = NmapScanV {
            output: OutputOptionsV { verbose: (m.output.verbose + 1) as u8, ..m.output },
            ..m
        };
        lemma_flag_output_verbose_one(m, if tail.len() > 0 { Some(tail[0]) } else { None });
        assert(rep_tok(t, k as nat) + rest =~= seq![t] + tail);
        lemma_step_ok0(m, m2, t, tail);
        lemma_proc_rep_verbose((k - 1) as u8, m2, rest);
        assert(NmapScanV {
            output: OutputOptionsV { verbose: (m2.output.verbose + (k - 1)) as u8, ..m2.output },
            ..m2
        } =~= NmapScanV {
            output: OutputOptionsV { verbose: (m.output.verbose + k) as u8, ..m.output },
            ..m
        });
    }
}

proof fn lemma_proc_rep_debug(k: u8, m: NmapScanV, rest: Seq<Seq<char>>)
    requires
        m.output.debug as int + k as int <= 255,
    ensures
        proc_tokens(rep_tok("-d"@, k as nat) + rest, m) == proc_tokens(
            rest,
            NmapScanV {
                output: OutputOptionsV { debug: (m.output.debug + k) as u8, ..m.output },
                ..m
            },
        ),
    decreases k,
{
    if k == 0 {
        assert(rep_tok("-d"@, 0) + rest =~= rest);
        assert(NmapScanV {
            output: OutputOptionsV { debug: (m.output.debug + 0) as u8, ..m.output },
            ..m
        } =~= m);
    } else {
        lit_chars_101();
        let t = "-d"@;
        let tail = rep_tok(t, (k - 1) as nat) + rest;
        let m2 = NmapScanV {
            output: OutputOptionsV { debug: (m.output.debug + 1) as u8, ..m.output },
            ..m
        };
        lemma_flag_output_debug_one(m, if tail.len() > 0 { Some(tail[0]) } else { None });
        assert(rep_tok(t, k as nat) + rest =~= seq![t] + tail);
        lemma_step_ok0(m, m2, t, tail);
        lemma_proc_rep_debug((k - 1) as u8, m2, rest);
        assert(NmapScanV {
            output: OutputOptionsV { debug: (m2.output.debug + (k - 1)) as u8, ..m2.output },
            ..m2
        } =~= NmapScanV {
            output: OutputOptionsV { debug: (m.output.debug + k) as u8, ..m.output },
            ..m
        });
    }
}

#[verifier::rlimit(100)]
#[verifier::spinoff_prover]
proof fn lemma_technique_tokens_ok(x: ScanTechniqueV)
    requires
        wf_technique(x),
    ensures
        all_tokens_ok(technique_tokens(x)),
{
    match x {
        ScanTechniqueV::Syn => {
            lemma_lit_ok_18();
            assert(all_tokens_ok(seq!["-sS"@]));
        },
        ScanTechniqueV::Connect => {
            lemma_lit_ok_19();
            assert(all_tokens_ok(seq!["-sT"@]));
        },
        ScanTechniqueV::Ack => {
            lemma_lit_ok_20();
            assert(all_tokens_ok(seq!["-sA"@]));
        },
        ScanTechniqueV::Window => {
            lemma_lit_ok_21();
            assert(all_tokens_ok(seq!["-sW"@]));
        },
        ScanTechniqueV::Maimon => {
            lemma_lit_ok_22();
            assert(all_tokens_ok(seq!["-sM"@]));
        },
        ScanTechniqueV::Udp => {
            lemma_lit_ok_23();
            assert(all_tokens_ok(seq!["-sU"@]));
        },
        ScanTechniqueV::TcpNull => {
            lemma_lit_ok_24();
            assert(all_tokens_ok(seq!["-sN"@]));
        },
        ScanTechniqueV::Fin => {
            lemma_lit_ok_25();
            assert(all_tokens_ok(seq!["-sF"@]));
        },
        ScanTechniqueV::Xmas => {
            lemma_lit_ok_26();
            assert(all_tokens_ok(seq!["-sX"@]));
        },
        ScanTechniqueV::IpProtocol => {
            lemma_lit_ok_29();
            assert(all_tokens_ok(seq!["-sO"@]));
        },
        ScanTechniqueV::Sctp(true) => {
            lemma_lit_ok_27();
            assert(all_tokens_ok(seq!["-sY"@]));
        },
        ScanTechniqueV::Sctp(false) => {
            lemma_lit_ok_28();
            assert(all_tokens_ok(seq!["-sZ"@]));
        },
        ScanTechniqueV::Scanflags(s) => {
            lemma_lit_ok_30();
            assert(all_tokens_ok(seq!["--scanflags"@, s]));
        },
        ScanTechniqueV::Idle(s) => {
            lemma_lit_ok_31();
            assert(all_tokens_ok(seq!["-sI"@, s]));
        },
        ScanTechniqueV::Ftp(s) => {
            lemma_lit_ok_32();
            assert(all_tokens_ok(seq!["-b"@, s]));
        },
        ScanTechniqueV::Multiple(_) => {
        },
    }
}

/// Reparsing the built scan-technique tokens restores the technique.
#[verifier::rlimit(100)]
#[verifier::spinoff_prover]
pub proof fn lemma_proc_technique(x: ScanTechniqueV, m: NmapScanV, rest: Seq<Seq<char>>)
    requires
        wf_technique(x),
    ensures
        proc_tokens(technique_tokens(x) + rest, m) == proc_tokens(
            rest,
            NmapScanV { scan_technique: x, ..m },
        ),
{
    match x {
        ScanTechniqueV::Syn => {
            lit_chars_18();
            lemma_flag_tech_syn(m, if rest.len() > 0 { Some(rest[0]) } else { None });
            assert(technique_tokens(x) + rest =~= seq!["-sS"@] + rest);
            lemma_step_ok0(m, NmapScanV { scan_technique: x, ..m }, "-sS"@, rest);
        },
        ScanTechniqueV::Connect => {
            lit_chars_19();
            lemma_flag_tech_connect(m, if rest.len() > 0 { Some(rest[0]) } else { None });
            assert(technique_tokens(x) + rest =~= seq!["-sT"@] + rest);
            lemma_step_ok0(m, NmapScanV { scan_technique: x, ..m }, "-sT"@, rest);
        },
        ScanTechniqueV::Ack => {
            lit_chars_20();
            lemma_flag_tech_ack(m, if rest.len() > 0 { Some(rest[0]) } else { None });
            assert(technique_tokens(x) + rest =~= seq!["-sA"@] + rest);
            lemma_step_ok0(m, NmapScanV { scan_technique: x, ..m }, "-sA"@, rest);
        },
        ScanTechniqueV::Window => {
            lit_chars_21();
            lemma_flag_tech_window(m, if rest.len() > 0 { Some(rest[0]) } else { None });
            assert(technique_tokens(x) + rest =~= seq!["-sW"@] + rest);
            lemma_step_ok0(m, NmapScanV { scan_technique: x, ..m }, "-sW"@, rest);
        },
        ScanTechniqueV::Maimon => {
            lit_chars_22();
            lemma_flag_tech_maimon(m, if rest.len() > 0 { Some(rest[0]) } else { None });
            assert(technique_tokens(x) + rest =~= seq!["-sM"@] + rest);
            lemma_step_ok0(m, NmapScanV { scan_technique: x, ..m }, "-sM"@, rest);
        },
        ScanTechniqueV::Udp => {
            lit_chars_23();
            lemma_flag_tech_udp(m, if rest.len() > 0 { Some(rest[0]) } else { None });
            assert(technique_tokens(x) + rest =~= seq!["-sU"@] + rest);
            lemma_step_ok0(m, NmapScanV { scan_technique: x, ..m }, "-sU"@, rest);
        },
        ScanTechniqueV::TcpNull => {
            lit_chars_24();
            lemma_flag_tech_tcpnull(m, if rest.len() > 0 { Some(rest[0]) } else { None });
            assert(technique_tokens(x) + rest =~= seq!["-sN"@] + rest);
            lemma_step_ok0(m, NmapScanV { scan_technique: x, ..m }, "-sN"@, rest);
        },
        ScanTechniqueV::Fin => {
            lit_chars_25();
            lemma_flag_tech_fin(m, if rest.len() > 0 { Some(rest[0]) } else { None });
            assert(technique_tokens(x) + rest =~= seq!["-sF"@] + rest);
            lemma_step_ok0(m, NmapScanV { scan_technique: x, ..m }, "-sF"@, rest);
        },
        ScanTechniqueV::Xmas => {
            lit_chars_26();
            lemma_flag_tech_xmas(m, if rest.len() > 0 { Some(rest[0]) } else { None });
            assert(technique_tokens(x) + rest =~= seq!["-sX"@] + rest);
            lemma_step_ok0(m, NmapScanV { scan_technique: x, ..m }, "-sX"@, rest);
        },
        ScanTechniqueV::IpProtocol => {
            lit_chars_29();
            lemma_flag_tech_ip_protocol(m, if rest.len() > 0 { Some(rest[0]) } else { None });
            assert(technique_tokens(x) + rest =~= seq!["-sO"@] + rest);
            lemma_step_ok0(m, NmapScanV { scan_technique: x, ..m }, "-sO"@, rest);
        },
        ScanTechniqueV::Sctp(true) => {
            lit_chars_27();
            lemma_flag_tech_sctp_init(m, if rest.len() > 0 { Some(rest[0]) } else { None });
            assert(technique_tokens(x) + rest =~= seq!["-sY"@] + rest);
            lemma_step_ok0(m, NmapScanV { scan_technique: x, ..m }, "-sY"@, rest);
        },
        ScanTechniqueV::Sctp(false) => {
            lit_chars_28();
            lemma_flag_tech_sctp_cookie(m, if rest.len() > 0 { Some(rest[0]) } else { None });
            assert(technique_tokens(x) + rest =~= seq!["-sZ"@] + rest);
            lemma_step_ok0(m, NmapScanV { scan_technique: x, ..m }, "-sZ"@, rest);
        },
        ScanTechniqueV::Scanflags(s) => {
            lit_chars_30();
            lemma_flag_tech_scanflags(m, s);
            assert(technique_tokens(x) + rest =~= seq!["--scanflags"@, s] + rest);
            lemma_step_ok1(m, NmapScanV { scan_technique: x, ..m }, "--scanflags"@, s, rest);
        },
        ScanTechniqueV::Idle(s) => {
            lit_chars_31();
            lemma_flag_tech_idle(m, s);
            assert(technique_tokens(x) + rest =~= seq!["-sI"@, s] + rest);
            lemma_step_ok1(m, NmapScanV { scan_technique: x, ..m }, "-sI"@, s, rest);
        },
        ScanTechniqueV::Ftp(s) => {
            lit_chars_32();
            lemma_flag_tech_ftp(m, s);
            assert(technique_tokens(x) + rest =~= seq!["-b"@, s] + rest);
            lemma_step_ok1(m, NmapScanV { scan_technique: x, ..m }, "-b"@, s, rest);
        },
        ScanTechniqueV::Multiple(_) => {
        },
    }
}

#[verifier::rlimit(100)]
#[verifier::spinoff_prover]
proof fn lemma_host_discovery_tokens_ok(x: HostDiscoveryV)
    requires
        wf_host_discovery(x),
    ensures
        all_tokens_ok(host_discovery_tokens(x)),
{
    let g1 = flag_tok(x.list_scan, "-sL"@);
    assert(all_tokens_ok(g1)) by {
        lemma_lit_ok_4();
    }
    let g2 = flag_tok(x.ping_scan, "-sn"@);
    assert(all_tokens_ok(g2)) by {
        lemma_lit_ok_5();
    }
    let g3 = flag_tok(x.skip_port_scan, "-Pn"@);
    assert(all_tokens_ok(g3)) by {
        lemma_lit_ok_6();
    }
    let g4 = glued_ports_tok(x.syn_discovery, "-PS"@);
    assert(all_tokens_ok(g4)) by {
        if x.syn_discovery.len() > 0 {
            lemma_lit_ok_7();
            lemma_ptext_clean(x.syn_discovery);
            lemma_glued_token_ok("-PS"@, port_list_text(x.syn_discovery));
        }
    }
    let g5 = glued_ports_tok(x.ack_discovery, "-PA"@);
    assert(all_tokens_ok(g5)) by {
        if x.ack_discovery.len() > 0 {
            lemma_lit_ok_8();
            lemma_ptext_clean(x.ack_discovery);
            lemma_glued_token_ok("-PA"@, port_list_text(x.ack_discovery));
        }
    }
    let g6 = glued_ports_tok(x.udp_discovery, "-PU"@);
    assert(all_tokens_ok(g6)) by {
        if x.udp_discovery.len() > 0 {
            lemma_lit_ok_9();
            lemma_ptext_clean(x.udp_discovery);
            lemma_glued_token_ok("-PU"@, port_list_text(x.udp_discovery));
        }
    }
    let g7 = glued_ports_tok(x.sctp_discovery, "-PY"@);
    assert(all_tokens_ok(g7)) by {
        if x.sctp_discovery.len() > 0 {
            lemma_lit_ok_10();
            lemma_ptext_clean(x.sctp_discovery);
            lemma_glued_token_ok("-PY"@, port_list_text(x.sctp_discovery));
        }
    }
    let g8 = flag_tok(x.icmp_echo, "-PE"@);
    assert(all_tokens_ok(g8)) by {
        lemma_lit_ok_11();
    }
    let g9 = flag_tok(x.icmp_timestamp, "-PP"@);
    assert(all_tokens_ok(g9)) by {
        lemma_lit_ok_12();
    }
    let g10 = flag_tok(x.icmp_netmask, "-PM"@);
    assert(all_tokens_ok(g10)) by {
        lemma_lit_ok_13();
    }
    let g11 = glued_protos_tok(x.ip_protocol_ping, "-PO"@);
    assert(all_tokens_ok(g11)) by {
        if x.ip_protocol_ping.len() > 0 {
            lemma_lit_ok_14();
            lemma_prototext_clean(x.ip_protocol_ping);
            lemma_glued_token_ok("-PO"@, proto_list_text(x.ip_protocol_ping));
        }
    }
    let g12 = flag_tok(x.traceroute, "--traceroute"@);
    assert(all_tokens_ok(g12)) by {
        lemma_lit_ok_15();
    }
    let g13 = list_tok(x.dns_servers, "--dns-servers"@);
    assert(all_tokens_ok(g13)) by {
        lemma_lit_ok_16();
    }
    let g14 = flag_tok(x.system_dns, "--system-dns"@);
    assert(all_tokens_ok(g14)) by {
        lemma_lit_ok_17();
    }
    lemma_all_ok_concat(g1, g2);
    lemma_all_ok_concat(g1 + g2, g3);
    lemma_all_ok_concat(g1 + g2 + g3, g4);
    lemma_all_ok_concat(g1 + g2 + g3 + g4, g5);
    lemma_all_ok_concat(g1 + g2 + g3 + g4 + g5, g6);
    lemma_all_ok_concat(g1 + g2 + g3 + g4 + g5 + g6, g7);
    lemma_all_ok_concat(g1 + g2 + g3 + g4 + g5 + g6 + g7, g8);
    lemma_all_ok_concat(g1 + g2 + g3 + g4 + g5 + g6 + g7 + g8, g9);
    lemma_all_ok_concat(g1 + g2 + g3 + g4 + g5 + g6 + g7 + g8 + g9, g10);
    lemma_all_ok_concat(g1 + g2 + g3 + g4 + g5 + g6 + g7 + g8 + g9 + g10, g11);
    lemma_all_ok_concat(g1 + g2 + g3 + g4 + g5 + g6 + g7 + g8 + g9 + g10 + g11, g12);
    lemma_all_ok_concat(g1 + g2 + g3 + g4 + g5 + g6 + g7 + g8 + g9 + g10 + g11 + g12, g13);
    lemma_all_ok_concat(g1 + g2 + g3 + g4 + g5 + g6 + g7 + g8 + g9 + g10 + g11 + g12 + g13, g14);
    assert(host_discovery_tokens(x) == g1 + g2 + g3 + g4 + g5 + g6 + g7 + g8 + g9 + g10 + g11 + g12 + g13 + g14);
}


#[verifier::rlimit(100)]
#[verifier::spinoff_prover]
proof fn lemma_ports_tokens_ok(x: PortSpecificationV)
    requires
        wf_ports(x),
    ensures
        all_tokens_ok(port_specification_tokens(x)),
{
    let g1 = val_tok(x.ports, "-p"@);
    assert(all_tokens_ok(g1)) by {
        lemma_lit_ok_33();
    }
    let g2 = val_tok(x.exclude_ports, "--exclude-ports"@);
    assert(all_tokens_ok(g2)) by {
        lemma_lit_ok_34();
    }
    let g3 = flag_tok(x.fast_mode, "-F"@);
    assert(all_tokens_ok(g3)) by {
        lemma_lit_ok_35();
    }
    let g4 = flag_tok(x.consecutive_ports, "-r"@);
    assert(all_tokens_ok(g4)) by {
        lemma_lit_ok_36();
    }
    let g5 = num_tok(match x.top_ports { Some(n) => Some(n as nat), None => None }, "--top-ports"@);
    assert(all_tokens_ok(g5)) by {
        lemma_lit_ok_37();
        match x.top_ports {
            Some(n) => {
                lemma_dec_token_ok(n as nat);
            },
            None => {
            },
        }
    }
    let g6 = val_tok(x.port_ratio, "--port-ratio"@);
    assert(all_tokens_ok(g6)) by {
        lemma_lit_ok_38();
    }
    lemma_all_ok_concat(g1, g2);
    lemma_all_ok_concat(g1 + g2, g3);
    lemma_all_ok_concat(g1 + g2 + g3, g4);
    lemma_all_ok_concat(g1 + g2 + g3 + g4, g5);
    lemma_all_ok_concat(g1 + g2 + g3 + g4 + g5, g6);
    assert(port_specification_tokens(x) == g1 + g2 + g3 + g4 + g5 + g6);
}

/// Reparsing the built port-specification tokens restores that section.
#[verifier::rlimit(100)]
#[verifier::spinoff_prover]
pub proof fn lemma_proc_ports(x: PortSpecificationV, m: NmapScanV, rest: Seq<Seq<char>>)
    requires
        wf_ports(x),
        m.ports == port_specification_default(),
    ensures
        proc_tokens(port_specification_tokens(x) + rest, m) == proc_tokens(rest, NmapScanV { ports: x, ..m }),
{
    let g1 = val_tok(x.ports, "-p"@);
    let g2 = val_tok(x.exclude_ports, "--exclude-ports"@);
    let g3 = flag_tok(x.fast_mode, "-F"@);
    let g4 = flag_tok(x.consecutive_ports, "-r"@);
    let g5 = num_tok(match x.top_ports { Some(n) => Some(n as nat), None => None }, "--top-ports"@);
    let g6 = val_tok(x.port_ratio, "--port-ratio"@);
    let r6 = rest;
    let r5 = g6 + r6;
    let r4 = g5 + r5;
    let r3 = g4 + r4;
    let r2 = g3 + r3;
    let r1 = g2 + r2;
    let r0 = g1 + r1;
    vstd::seq_lib::lemma_concat_associative(g1 + g2 + g3 + g4 + g5, g6, r6);
    vstd::seq_lib::lemma_concat_associative(g1 + g2 + g3 + g4, g5, r5);
    vstd::seq_lib::lemma_concat_associative(g1 + g2 + g3, g4, r4);
    vstd::seq_lib::lemma_concat_associative(g1 + g2, g3, r3);
    vstd::seq_lib::lemma_concat_associative(g1, g2, r2);
    assert(port_specification_tokens(x) + rest == r0);
    let m0 = m;
    let m1 = match x.ports { Some(p) => NmapScanV { ports: PortSpecificationV { ports: Some(p), ..m0.ports }, ..m0 }, None => m0 };
    match x.ports {
        Some(p) => {
            lit_chars_33();
            lemma_flag_ports_ports(m0, p);
            assert(r0 =~= seq!["-p"@, p] + r1);
            lemma_step_ok1(m0, m1, "-p"@, p, r1);
        },
        None => {
            assert(r0 =~= r1);
        },
    }
    assert(proc_tokens(r0, m0) == proc_tokens(r1, m1));
    let m2 = match x.exclude_ports { Some(p) => NmapScanV { ports: PortSpecificationV { exclude_ports: Some(p), ..m1.ports }, ..m1 }, None => m1 };
    match x.exclude_ports {
        Some(p) => {
            lit_chars_34();
            lemma_flag_ports_exclude_ports(m1, p);
            assert(r1 =~= seq!["--exclude-ports"@, p] + r2);
            lemma_step_ok1(m1, m2, "--exclude-ports"@, p, r2);
        },
        None => {
            assert(r1 =~= r2);
        },
    }
    assert(proc_tokens(r1, m1) == proc_tokens(r2, m2));
    let m3 = if x.fast_mode { NmapScanV { ports: PortSpecificationV { fast_mode: true, ..m2.ports }, ..m2 } } else { m2 };
    if x.fast_mode {
        lit_chars_35();
        lemma_flag_ports_fast_mode(m2, (if r3.len() > 0 { Some(r3[0]) } else { None }));
        assert(r2 =~= seq!["-F"@] + r3);
        lemma_step_ok0(m2, m3, "-F"@, r3);
    } else {
        assert(r2 =~= r3);
    }
    assert(proc_tokens(r2, m2) == proc_tokens(r3, m3));
    let m4 = if x.consecutive_ports { NmapScanV { ports: PortSpecificationV { consecutive_ports: true, ..m3.ports }, ..m3 } } else { m3 };
    if x.consecutive_ports {
        lit_chars_36();
        lemma_flag_ports_consecutive_ports(m3, (if r4.len() > 0 { Some(r4[0]) } else { None }));
        assert(r3 =~= seq!["-r"@] + r4);
        lemma_step_ok0(m3, m4, "-r"@, r4);
    } else {
        assert(r3 =~= r4);
    }
    assert(proc_tokens(r3, m3) == proc_tokens(r4, m4));
    let m5 = match x.top_ports { Some(p) => NmapScanV { ports: PortSpecificationV { top_ports: Some(p), ..m4.ports }, ..m4 }, None => m4 };
    match x.top_ports {
        Some(p) => {
            lit_chars_37();
            lemma_flag_ports_top_ports(m4, p);
            assert(r4 =~= seq!["--top-ports"@, dec_text(p as nat)] + r5);
            lemma_step_ok1(m4, m5, "--top-ports"@, dec_text(p as nat), r5);
        },
        None => {
            assert(r4 =~= r5);
        },
    }
    assert(proc_tokens(r4, m4) == proc_tokens(r5, m5));
    let m6 = match x.port_ratio { Some(p) => NmapScanV { ports: PortSpecificationV { port_ratio: Some(p), ..m5.ports }, ..m5 }, None => m5 };
    match x.port_ratio {
        Some(p) => {
            lit_chars_38();
            lemma_flag_ports_port_ratio(m5, p);
            assert(r5 =~= seq!["--port-ratio"@, p] + r6);
            lemma_step_ok1(m5, m6, "--port-ratio"@, p, r6);
        },
        None => {
            assert(r5 =~= r6);
        },
    }
    assert(proc_tokens(r5, m5) == proc_tokens(r6, m6));
    assert(m6 =~= NmapScanV { ports: x, ..m });
}

#[verifier::rlimit(100)]
#[verifier::spinoff_prover]
proof fn lemma_service_detection_tokens_ok(x: ServiceDetectionV)
    ensures
        all_tokens_ok(service_detection_tokens(x)),
{
    let g1 = flag_tok(x.enabled, "-sV"@);
    assert(all_tokens_ok(g1)) by {
        lemma_lit_ok_39();
    }
    let g2 = num_tok(match x.intensity { Some(n) => Some(n as nat), None => None }, "--version-intensity"@);
    assert(all_tokens_ok(g2)) by {
        lemma_lit_ok_40();
        match x.intensity {
            Some(n) => {
                lemma_dec_token_ok(n as nat);
            },
            None => {
            },
        }
    }
    let g3 = flag_tok(x.light, "--version-light"@);
    assert(all_tokens_ok(g3)) by {
        lemma_lit_ok_41();
    }
    let g4 = flag_tok(x.all, "--version-all"@);
    assert(all_tokens_ok(g4)) by {
        lemma_lit_ok_42();
    }
    let g5 = flag_tok(x.trace, "--version-trace"@);
    assert(all_tokens_ok(g5)) by {
        lemma_lit_ok_43();
    }
    lemma_all_ok_concat(g1, g2);
    lemma_all_ok_concat(g1 + g2, g3);
    lemma_all_ok_concat(g1 + g2 + g3, g4);
    lemma_all_ok_concat(g1 + g2 + g3 + g4, g5);
    assert(service_detection_tokens(x) == g1 + g2 + g3 + g4 + g5);
}

/// Reparsing the built service-detection tokens restores that section.
#[verifier::rlimit(100)]
#[verifier::spinoff_prover]
pub proof fn lemma_proc_service_detection(x: ServiceDetectionV, m: NmapScanV, rest: Seq<Seq<char>>)
    requires
        m.service_detection == service_detection_default(),
    ensures
        proc_tokens(service_detection_tokens(x) + rest, m) == proc_tokens(rest, NmapScanV { service_detection: x, ..m }),
{
    let g1 = flag_tok(x.enabled, "-sV"@);
    let g2 = num_tok(match x.intensity { Some(n) => Some(n as nat), None => None }, "--version-intensity"@);
    let g3 = flag_tok(x.light, "--version-light"@);
    let g4 = flag_tok(x.all, "--version-all"@);
    let g5 = flag_tok(x.trace, "--version-trace"@);
    let r5 = rest;
    let r4 = g5 + r5;
    let r3 = g4 + r4;
    let r2 = g3 + r3;
    let r1 = g2 + r2;
    let r0 = g1 + r1;
    vstd::seq_lib::lemma_concat_associative(g1 + g2 + g3 + g4, g5, r5);
    vstd::seq_lib::lemma_concat_associative(g1 + g2 + g3, g4, r4);
    vstd::seq_lib::lemma_concat_associative(g1 + g2, g3, r3);
    vstd::seq_lib::lemma_concat_associative(g1, g2, r2);
    assert(service_detection_tokens(x) + rest == r0);
    let m0 = m;
    let m1 = if x.enabled { NmapScanV { service_detection: ServiceDetectionV { enabled: true, ..m0.service_detection }, ..m0 } } else { m0 };
    if x.enabled {
        lit_chars_39();
        lemma_flag_service_detection_enabled(m0, (if r1.len() > 0 { Some(r1[0]) } else { None }));
        assert(r0 =~= seq!["-sV"@] + r1);
        lemma_step_ok0(m0, m1, "-sV"@, r1);
    } else {
        assert(r0 =~= r1);
    }
    assert(proc_tokens(r0, m0) == proc_tokens(r1, m1));
    let m2 = match x.intensity { Some(p) => NmapScanV { service_detection: ServiceDetectionV { intensity: Some(p), ..m1.service_detection }, ..m1 }, None => m1 };
    match x.intensity {
        Some(p) => {
            lit_chars_40();
            lemma_flag_service_detection_intensity(m1, p);
            assert(r1 =~= seq!["--version-intensity"@, dec_text(p as nat)] + r2);
            lemma_step_ok1(m1, m2, "--version-intensity"@, dec_text(p as nat), r2);
        },
        None => {
            assert(r1 =~= r2);
        },
    }
    assert(proc_tokens(r1, m1) == proc_tokens(r2, m2));
    let m3 = if x.light { NmapScanV { service_detection: ServiceDetectionV { light: true, ..m2.service_detection }, ..m2 } } else { m2 };
    if x.light {
        lit_chars_41();
        lemma_flag_service_detection_light(m2, (if r3.len() > 0 { Some(r3[0]) } else { None }));
        assert(r2 =~= seq!["--version-light"@] + r3);
        lemma_step_ok0(m2, m3, "--version-light"@, r3);
    } else {
        assert(r2 =~= r3);
    }
    assert(proc_tokens(r2, m2) == proc_tokens(r3, m3));
    let m4 = if x.all { NmapScanV { service_detection: ServiceDetectionV { all: true, ..m3.service_detection }, ..m3 } } else { m3 };
    if x.all {
        lit_chars_42();
        lemma_flag_service_detection_all(m3, (if r4.len() > 0 { Some(r4[0]) } else { None }));
        assert(r3 =~= seq!["--version-all"@] + r4);
        lemma_step_ok0(m3, m4, "--version-all"@, r4);
    } else {
        assert(r3 =~= r4);
    }
    assert(proc_tokens(r3, m3) == proc_tokens(r4, m4));
    let m5 = if x.trace { NmapScanV { service_detection: ServiceDetectionV { trace: true, ..m4.service_detection }, ..m4 } } else { m4 };
    if x.trace {
        lit_chars_43();
        lemma_flag_service_detection_trace(m4, (if r5.len() > 0 { Some(r5[0]) } else { None }));
        assert(r4 =~= seq!["--version-trace"@] + r5);
        lemma_step_ok0(m4, m5, "--version-trace"@, r5);
    } else {
        assert(r4 =~= r5);
    }
    assert(proc_tokens(r4, m4) == proc_tokens(r5, m5));
    assert(m5 =~= NmapScanV { service_detection: x, ..m });
}

#[verifier::rlimit(100)]
#[verifier::spinoff_prover]
proof fn lemma_script_scan_tokens_ok(x: ScriptScanV)
    requires
        wf_script_scan(x),
    ensures
        all_tokens_ok(script_scan_tokens(x)),
{
    let g1 = flag_tok(x.default, "-sC"@);
    assert(all_tokens_ok(g1)) by {
        lemma_lit_ok_44();
    }
    let g2 = list_tok(x.scripts, "--script"@);
    assert(all_tokens_ok(g2)) by {
        lemma_lit_ok_45();
    }
    let g3 = val_tok(x.script_args, "--script-args"@);
    assert(all_tokens_ok(g3)) by {
        lemma_lit_ok_46();
    }
    let g4 = val_tok(x.script_args_file, "--script-args-file"@);
    assert(all_tokens_ok(g4)) by {
        lemma_lit_ok_47();
    }
    let g5 = flag_tok(x.script_trace, "--script-trace"@);
    assert(all_tokens_ok(g5)) by {
        lemma_lit_ok_48();
    }
    let g6 = flag_tok(x.script_updatedb, "--script-updatedb"@);
    assert(all_tokens_ok(g6)) by {
        lemma_lit_ok_49();
    }
    let g7 = val_tok(x.script_help, "--script-help"@);
    assert(all_tokens_ok(g7)) by {
        lemma_lit_ok_50();
    }
    lemma_all_ok_concat(g1, g2);
    lemma_all_ok_concat(g1 + g2, g3);
    lemma_all_ok_concat(g1 + g2 + g3, g4);
    lemma_all_ok_concat(g1 + g2 + g3 + g4, g5);
    lemma_all_ok_concat(g1 + g2 + g3 + g4 + g5, g6);
    lemma_all_ok_concat(g1 + g2 + g3 + g4 + g5 + g6, g7);
    assert(script_scan_tokens(x) == g1 + g2 + g3 + g4 + g5 + g6 + g7);
}

/// Reparsing the built script-scan tokens restores that section.
#[verifier::rlimit(100)]
#[verifier::spinoff_prover]
pub proof fn lemma_proc_script_scan(x: ScriptScanV, m: NmapScanV, rest: Seq<Seq<char>>)
    requires
        wf_script_scan(x),
        m.script_scan == script_scan_default(),
    ensures
        proc_tokens(script_scan_tokens(x) + rest, m) == proc_tokens(rest, NmapScanV { script_scan: x, ..m }),
{
    let g1 = flag_tok(x.default, "-sC"@);
    let g2 = list_tok(x.scripts, "--script"@);
    let g3 = val_tok(x.script_args, "--script-args"@);
    let g4 = val_tok(x.script_args_file, "--script-args-file"@);
    let g5 = flag_tok(x.script_trace, "--script-trace"@);
    let g6 = flag_tok(x.script_updatedb, "--script-updatedb"@);
    let g7 = val_tok(x.script_help, "--script-help"@);
    let r7 = rest;
    let r6 = g7 + r7;
    let r5 = g6 + r6;
    let r4 = g5 + r5;
    let r3 = g4 + r4;
    let r2 = g3 + r3;
    let r1 = g2 + r2;
    let r0 = g1 + r1;
    vstd::seq_lib::lemma_concat_associative(g1 + g2 + g3 + g4 + g5 + g6, g7, r7);
    vstd::seq_lib::lemma_concat_associative(g1 + g2 + g3 + g4 + g5, g6, r6);
    vstd::seq_lib::lemma_concat_associative(g1 + g2 + g3 + g4, g5, r5);
    vstd::seq_lib::lemma_concat_associative(g1 + g2 + g3, g4, r4);
    vstd::seq_lib::lemma_concat_associative(g1 + g2, g3, r3);
    vstd::seq_lib::lemma_concat_associative(g1, g2, r2);
    assert(script_scan_tokens(x) + rest == r0);
    let m0 = m;
    let m1 = if x.default { NmapScanV { script_scan: ScriptScanV { default: true, ..m0.script_scan }, ..m0 } } else { m0 };
    if x.default {
        lit_chars_44();
        lemma_flag_script_scan_default(m0, (if r1.len() > 0 { Some(r1[0]) } else { None }));
        assert(r0 =~= seq!["-sC"@] + r1);
        lemma_step_ok0(m0, m1, "-sC"@, r1);
    } else {
        assert(r0 =~= r1);
    }
    assert(proc_tokens(r0, m0) == proc_tokens(r1, m1));
    let m2 = if x.scripts.len() > 0 { NmapScanV { script_scan: ScriptScanV { scripts: x.scripts, ..m1.script_scan }, ..m1 } } else { m1 };
    if x.scripts.len() > 0 {
        lit_chars_45();
        lemma_flag_script_scan_scripts(m1, x.scripts);
        assert(r1 =~= seq!["--script"@, join_comma(x.scripts)] + r2);
        lemma_step_ok1(m1, m2, "--script"@, join_comma(x.scripts), r2);
    } else {
        assert(r1 =~= r2);
    }
    assert(proc_tokens(r1, m1) == proc_tokens(r2, m2));
    let m3 = match x.script_args { Some(p) => NmapScanV { script_scan: ScriptScanV { script_args: Some(p), ..m2.script_scan }, ..m2 }, None => m2 };
    match x.script_args {
        Some(p) => {
            lit_chars_46();
            lemma_flag_script_scan_script_args(m2, p);
            assert(r2 =~= seq!["--script-args"@, p] + r3);
            lemma_step_ok1(m2, m3, "--script-args"@, p, r3);
        },
        None => {
            assert(r2 =~= r3);
        },
    }
    assert(proc_tokens(r2, m2) == proc_tokens(r3, m3));
    let m4 = match x.script_args_file { Some(p) => NmapScanV { script_scan: ScriptScanV { script_args_file: Some(p), ..m3.script_scan }, ..m3 }, None => m3 };
    match x.script_args_file {
        Some(p) => {
            lit_chars_47();
            lemma_flag_script_scan_script_args_file(m3, p);
            assert(r3 =~= seq!["--script-args-file"@, p] + r4);
            lemma_step_ok1(m3, m4, "--script-args-file"@, p, r4);
        },
        None => {
            assert(r3 =~= r4);
        },
    }
    assert(proc_tokens(r3, m3) == proc_tokens(r4, m4));
    let m5 = if x.script_trace { NmapScanV { script_scan: ScriptScanV { script_trace: true, ..m4.script_scan }, ..m4 } } else { m4 };
    if x.script_trace {
        lit_chars_48();
        lemma_flag_script_scan_script_trace(m4, (if r5.len() > 0 { Some(r5[0]) } else { None }));
        assert(r4 =~= seq!["--script-trace"@] + r5);
        lemma_step_ok0(m4, m5, "--script-trace"@, r5);
    } else {
        assert(r4 =~= r5);
    }
    assert(proc_tokens(r4, m4) == proc_tokens(r5, m5));
    let m6 = if x.script_updatedb { NmapScanV { script_scan: ScriptScanV { script_updatedb: true, ..m5.script_scan }, ..m5 } } else { m5 };
    if x.script_updatedb {
        lit_chars_49();
        lemma_flag_script_scan_script_updatedb(m5, (if r6.len() > 0 { Some(r6[0]) } else { None }));
        assert(r5 =~= seq!["--script-updatedb"@] + r6);
        lemma_step_ok0(m5, m6, "--script-updatedb"@, r6);
    } else {
        assert(r5 =~= r6);
    }
    assert(proc_tokens(r5, m5) == proc_tokens(r6, m6));
    let m7 = match x.script_help { Some(p) => NmapScanV { script_scan: ScriptScanV { script_help: Some(p), ..m6.script_scan }, ..m6 }, None => m6 };
    match x.script_help {
        Some(p) => {
            lit_chars_50();
            lemma_flag_script_scan_script_help(m6, p);
            assert(r6 =~= seq!["--script-help"@, p] + r7);
            lemma_step_ok1(m6, m7, "--script-help"@, p, r7);
        },
        None => {
            assert(r6 =~= r7);
        },
    }
    assert(proc_tokens(r6, m6) == proc_tokens(r7, m7));
    assert(m7 =~= NmapScanV { script_scan: x, ..m });
}

#[verifier::rlimit(100)]
#[verifier::spinoff_prover]
proof fn lemma_os_detection_tokens_ok(x: OsDetectionV)
    ensures
        all_tokens_ok(os_detection_tokens(x)),
{
    let g1 = flag_tok(x.enabled, "-O"@);
    assert(all_tokens_ok(g1)) by {
        lemma_lit_ok_51();
    }
    let g2 = flag_tok(x.limit, "--osscan-limit"@);
    assert(all_tokens_ok(g2)) by {
        lemma_lit_ok_52();
    }
    let g3 = flag_tok(x.guess, "--osscan-guess"@);
    assert(all_tokens_ok(g3)) by {
        lemma_lit_ok_53();
    }
    let g4 = num_tok(match x.max_retries { Some(n) => Some(n as nat), None => None }, "--max-os-tries"@);
    assert(all_tokens_ok(g4)) by {
        lemma_lit_ok_54();
        match x.max_retries {
            Some(n) => {
                lemma_dec_token_ok(n as nat);
            },
            None => {
            },
        }
    }
    lemma_all_ok_concat(g1, g2);
    lemma_all_ok_concat(g1 + g2, g3);
    lemma_all_ok_concat(g1 + g2 + g3, g4);
    assert(os_detection_tokens(x) == g1 + g2 + g3 + g4);
}

/// Reparsing the built OS-detection tokens restores that section.
#[verifier::rlimit(100)]
#[verifier::spinoff_prover]
pub proof fn lemma_proc_os_detection(x: OsDetectionV, m: NmapScanV, rest: Seq<Seq<char>>)
    requires
        m.os_detection == os_detection_default(),
    ensures
        proc_tokens(os_detection_tokens(x) + rest, m) == proc_tokens(rest, NmapScanV { os_detection: x, ..m }),
{
    let g1 = flag_tok(x.enabled, "-O"@);
    let g2 = flag_tok(x.limit, "--osscan-limit"@);
    let g3 = flag_tok(x.guess, "--osscan-guess"@);
    let g4 = num_tok(match x.max_retries { Some(n) => Some(n as nat), None => None }, "--max-os-tries"@);
    let r4 = rest;
    let r3 = g4 + r4;
    let r2 = g3 + r3;
    let r1 = g2 + r2;
    let r0 = g1 + r1;
    vstd::seq_lib::lemma_concat_associative(g1 + g2 + g3, g4, r4);
    vstd::seq_lib::lemma_concat_associative(g1 + g2, g3, r3);
    vstd::seq_lib::lemma_concat_associative(g1, g2, r2);
    assert(os_detection_tokens(x) + rest == r0);
    let m0 = m;
    let m1 = if x.enabled { NmapScanV { os_detection: OsDetectionV { enabled: true, ..m0.os_detection }, ..m0 } } else { m0 };
    if x.enabled {
        lit_chars_51();
        lemma_flag_os_detection_enabled(m0, (if r1.len() > 0 { Some(r1[0]) } else { None }));
        assert(r0 =~= seq!["-O"@] + r1);
        lemma_step_ok0(m0, m1, "-O"@, r1);
    } else {
        assert(r0 =~= r1);
    }
    assert(proc_tokens(r0, m0) == proc_tokens(r1, m1));
    let m2 = if x.limit { NmapScanV { os_detection: OsDetectionV { limit: true, ..m1.os_detection }, ..m1 } } else { m1 };
    if x.limit {
        lit_chars_52();
        lemma_flag_os_detection_limit(m1, (if r2.len() > 0 { Some(r2[0]) } else { None }));
        assert(r1 =~= seq!["--osscan-limit"@] + r2);
        lemma_step_ok0(m1, m2, "--osscan-limit"@, r2);
    } else {
        assert(r1 =~= r2);
    }
    assert(proc_tokens(r1, m1) == proc_tokens(r2, m2));
    let m3 = if x.guess { NmapScanV { os_detection: OsDetectionV { guess: true, ..m2.os_detection }, ..m2 } } else { m2 };
    if x.guess {
        lit_chars_53();
        lemma_flag_os_detection_guess(m2, (if r3.len() > 0 { Some(r3[0]) } else { None }));
        assert(r2 =~= seq!["--osscan-guess"@] + r3);
        lemma_step_ok0(m2, m3, "--osscan-guess"@, r3);
    } else {
        assert(r2 =~= r3);
    }
    assert(proc_tokens(r2, m2) == proc_tokens(r3, m3));
    let m4 = match x.max_retries { Some(p) => NmapScanV { os_detection: OsDetectionV { max_retries: Some(p), ..m3.os_detection }, ..m3 }, None => m3 };
    match x.max_retries {
        Some(p) => {
            lit_chars_54();
            lemma_flag_os_detection_max_retries(m3, p);
            assert(r3 =~= seq!["--max-os-tries"@, dec_text(p as nat)] + r4);
            lemma_step_ok1(m3, m4, "--max-os-tries"@, dec_text(p as nat), r4);
        },
        None => {
            assert(r3 =~= r4);
        },
    }
    assert(proc_tokens(r3, m3) == proc_tokens(r4, m4));
    assert(m4 =~= NmapScanV { os_detection: x, ..m });
}

#[verifier::rlimit(100)]
#[verifier::spinoff_prover]
proof fn lemma_timing_tokens_ok(x: TimingPerformanceV)
    requires
        wf_timing(x),
    ensures
        all_tokens_ok(timing_performance_tokens(x)),
{
    let g1 = template_tok(x.template);
    assert(all_tokens_ok(g1)) by {
        lit_chars_129();
        match x.template {
            Some(TimingTemplate::Paranoid) => {
                lit_chars_55();
                assert("-T"@ + dec_text(0) =~= "-T0"@);
                lemma_lit_ok_55();
            },
            Some(TimingTemplate::Sneaky) => {
                lit_chars_56();
                assert("-T"@ + dec_text(1) =~= "-T1"@);
                lemma_lit_ok_56();
            },
            Some(TimingTemplate::Polite) => {
                lit_chars_57();
                assert("-T"@ + dec_text(2) =~= "-T2"@);
                lemma_lit_ok_57();
            },
            Some(TimingTemplate::Normal) => {
                lit_chars_58();
                assert("-T"@ + dec_text(3) =~= "-T3"@);
                lemma_lit_ok_58();
            },
            Some(TimingTemplate::Aggressive) => {
                lit_chars_59();
                assert("-T"@ + dec_text(4) =~= "-T4"@);
                lemma_lit_ok_59();
            },
            Some(TimingTemplate::Insane) => {
                lit_chars_60();
                assert("-T"@ + dec_text(5) =~= "-T5"@);
                lemma_lit_ok_60();
            },
            None => {
            },
        }
    }
    let g2 = num_tok(match x.min_hostgroup { Some(n) => Some(n as nat), None => None }, "--min-hostgroup"@);
    assert(all_tokens_ok(g2)) by {
        lemma_lit_ok_61();
        match x.min_hostgroup {
            Some(n) => {
                lemma_dec_token_ok(n as nat);
            },
            None => {
            },
        }
    }
    let g3 = num_tok(match x.max_hostgroup { Some(n) => Some(n as nat), None => None }, "--max-hostgroup"@);
    assert(all_tokens_ok(g3)) by {
        lemma_lit_ok_62();
        match x.max_hostgroup {
            Some(n) => {
                lemma_dec_token_ok(n as nat);
            },
            None => {
            },
        }
    }
    let g4 = num_tok(match x.min_parallelism { Some(n) => Some(n as nat), None => None }, "--min-parallelism"@);
    assert(all_tokens_ok(g4)) by {
        lemma_lit_ok_63();
        match x.min_parallelism {
            Some(n) => {
                lemma_dec_token_ok(n as nat);
            },
            None => {
            },
        }
    }
    let g5 = num_tok(match x.max_parallelism { Some(n) => Some(n as nat), None => None }, "--max-parallelism"@);
    assert(all_tokens_ok(g5)) by {
        lemma_lit_ok_64();
        match x.max_parallelism {
            Some(n) => {
                lemma_dec_token_ok(n as nat);
            },
            None => {
            },
        }
    }
    let g6 = val_tok(x.min_rtt_timeout, "--min-rtt-timeout"@);
    assert(all_tokens_ok(g6)) by {
        lemma_lit_ok_65();
    }
    let g7 = val_tok(x.max_rtt_timeout, "--max-rtt-timeout"@);
    assert(all_tokens_ok(g7)) by {
        lemma_lit_ok_66();
    }
    let g8 = val_tok(x.initial_rtt_timeout, "--initial-rtt-timeout"@);
    assert(all_tokens_ok(g8)) by {
        lemma_lit_ok_67();
    }
    let g9 = num_tok(match x.max_retries { Some(n) => Some(n as nat), None => None }, "--max-retries"@);
    assert(all_tokens_ok(g9)) by {
        lemma_lit_ok_68();
        match x.max_retries {
            Some(n) => {
                lemma_dec_token_ok(n as nat);
            },
            None => {
            },
        }
    }
    let g10 = val_tok(x.host_timeout, "--host-timeout"@);
    assert(all_tokens_ok(g10)) by {
        lemma_lit_ok_69();
    }
    let g11 = val_tok(x.script_timeout, "--script-timeout"@);
    assert(all_tokens_ok(g11)) by {
        lemma_lit_ok_70();
    }
    let g12 = val_tok(x.scan_delay, "--scan-delay"@);
    assert(all_tokens_ok(g12)) by {
        lemma_lit_ok_71();
    }
    let g13 = val_tok(x.max_scan_delay, "--max-scan-delay"@);
    assert(all_tokens_ok(g13)) by {
        lemma_lit_ok_72();
    }
    let g14 = num_tok(match x.min_rate { Some(n) => Some(n as nat), None => None }, "--min-rate"@);
    assert(all_tokens_ok(g14)) by {
        lemma_lit_ok_73();
        match x.min_rate {
            Some(n) => {
                lemma_dec_token_ok(n as nat);
            },
            None => {
            },
        }
    }
    let g15 = num_tok(match x.max_rate { Some(n) => Some(n as nat), None => None }, "--max-rate"@);
    assert(all_tokens_ok(g15)) by {
        lemma_lit_ok_74();
        match x.max_rate {
            Some(n) => {
                lemma_dec_token_ok(n as nat);
            },
            None => {
            },
        }
    }
    let g16 = flag_tok(x.defeat_rst_ratelimit, "--defeat-rst-ratelimit"@);
    assert(all_tokens_ok(g16)) by {
        lemma_lit_ok_75();
    }
    let g17 = flag_tok(x.defeat_icmp_ratelimit, "--defeat-icmp-ratelimit"@);
    assert(all_tokens_ok(g17)) by {
        lemma_lit_ok_76();
    }
    let g18 = val_tok(x.nsock_engine, "--nsock-engine"@);
    assert(all_tokens_ok(g18)) by {
        lemma_lit_ok_77();
    }
    lemma_all_ok_concat(g1, g2);
    lemma_all_ok_concat(g1 + g2, g3);
    lemma_all_ok_concat(g1 + g2 + g3, g4);
    lemma_all_ok_concat(g1 + g2 + g3 + g4, g5);
    lemma_all_ok_concat(g1 + g2 + g3 + g4 + g5, g6);
    lemma_all_ok_concat(g1 + g2 + g3 + g4 + g5 + g6, g7);
    lemma_all_ok_concat(g1 + g2 + g3 + g4 + g5 + g6 + g7, g8);
    lemma_all_ok_concat(g1 + g2 + g3 + g4 + g5 + g6 + g7 + g8, g9);
    lemma_all_ok_concat(g1 + g2 + g3 + g4 + g5 + g6 + g7 + g8 + g9, g10);
    lemma_all_ok_concat(g1 + g2 + g3 + g4 + g5 + g6 + g7 + g8 + g9 + g10, g11);
    lemma_all_ok_concat(g1 + g2 + g3 + g4 + g5 + g6 + g7 + g8 + g9 + g10 + g11, g12);
    lemma_all_ok_concat(g1 + g2 + g3 + g4 + g5 + g6 + g7 + g8 + g9 + g10 + g11 + g12, g13);
    lemma_all_ok_concat(g1 + g2 + g3 + g4 + g5 + g6 + g7 + g8 + g9 + g10 + g11 + g12 + g13, g14);
    lemma_all_ok_concat(g1 + g2 + g3 + g4 + g5 + g6 + g7 + g8 + g9 + g10 + g11 + g12 + g13 + g14, g15);
    lemma_all_ok_concat(g1 + g2 + g3 + g4 + g5 + g6 + g7 + g8 + g9 + g10 + g11 + g12 + g13 + g14 + g15, g16);
    lemma_all_ok_concat(g1 + g2 + g3 + g4 + g5 + g6 + g7 + g8 + g9 + g10 + g11 + g12 + g13 + g14 + g15 + g16, g17);
    lemma_all_ok_concat(g1 + g2 + g3 + g4 + g5 + g6 + g7 + g8 + g9 + g10 + g11 + g12 + g13 + g14 + g15 + g16 + g17, g18);
    assert(timing_performance_tokens(x) == g1 + g2 + g3 + g4 + g5 + g6 + g7 + g8 + g9 + g10 + g11 + g12 + g13 + g14 + g15 + g16 + g17 + g18);
}


#[verifier::rlimit(100)]
#[verifier::spinoff_prover]
proof fn lemma_evasion_tokens_ok(x: EvasionSpoofingV)
    requires
        wf_evasion(x),
    ensures
        all_tokens_ok(evasion_spoofing_tokens(x)),
{
    let g1 = flag_tok(x.fragment_packets, "-f"@);
    assert(all_tokens_ok(g1)) by {
        lemma_lit_ok_78();
    }
    let g2 = num_tok(match x.mtu { Some(n) => Some(n as nat), None => None }, "--mtu"@);
    assert(all_tokens_ok(g2)) by {
        lemma_lit_ok_79();
        match x.mtu {
            Some(n) => {
                lemma_dec_token_ok(n as nat);
            },
            None => {
            },
        }
    }
    let g3 = list_tok(x.decoys, "-D"@);
    assert(all_tokens_ok(g3)) by {
        lemma_lit_ok_80();
    }
    let g4 = val_tok(x.spoof_ip, "-S"@);
    assert(all_tokens_ok(g4)) by {
        lemma_lit_ok_81();
    }
    let g5 = val_tok(x.interface, "-e"@);
    assert(all_tokens_ok(g5)) by {
        lemma_lit_ok_82();
    }
    let g6 = num_tok(match x.source_port { Some(n) => Some(n as nat), None => None }, "-g"@);
    assert(all_tokens_ok(g6)) by {
        lemma_lit_ok_83();
        match x.source_port {
            Some(n) => {
                lemma_dec_token_ok(n as nat);
            },
            None => {
            },
        }
    }
    let g7 = val_tok(x.data, "--data"@);
    assert(all_tokens_ok(g7)) by {
        lemma_lit_ok_85();
    }
    let g8 = val_tok(x.data_string, "--data-string"@);
    assert(all_tokens_ok(g8)) by {
        lemma_lit_ok_86();
    }
    let g9 = num_tok(match x.data_length { Some(n) => Some(n as nat), None => None }, "--data-length"@);
    assert(all_tokens_ok(g9)) by {
        lemma_lit_ok_87();
        match x.data_length {
            Some(n) => {
                lemma_dec_token_ok(n as nat);
            },
            None => {
            },
        }
    }
    let g10 = val_tok(x.ip_options, "--ip-options"@);
    assert(all_tokens_ok(g10)) by {
        lemma_lit_ok_88();
    }
    let g11 = num_tok(match x.ttl { Some(n) => Some(n as nat), None => None }, "--ttl"@);
    assert(all_tokens_ok(g11)) by {
        lemma_lit_ok_89();
        match x.ttl {
            Some(n) => {
                lemma_dec_token_ok(n as nat);
            },
            None => {
            },
        }
    }
    let g12 = flag_tok(x.randomize_hosts, "--randomize-hosts"@);
    assert(all_tokens_ok(g12)) by {
        lemma_lit_ok_90();
    }
    let g13 = val_tok(x.spoof_mac, "--spoof-mac"@);
    assert(all_tokens_ok(g13)) by {
        lemma_lit_ok_91();
    }
    let g14 = flag_tok(x.badsum, "--badsum"@);
    assert(all_tokens_ok(g14)) by {
        lemma_lit_ok_92();
    }
    let g15 = flag_tok(x.adler32, "--adler32"@);
    assert(all_tokens_ok(g15)) by {
        lemma_lit_ok_93();
    }
    lemma_all_ok_concat(g1, g2);
    lemma_all_ok_concat(g1 + g2, g3);
    lemma_all_ok_concat(g1 + g2 + g3, g4);
    lemma_all_ok_concat(g1 + g2 + g3 + g4, g5);
    lemma_all_ok_concat(g1 + g2 + g3 + g4 + g5, g6);
    lemma_all_ok_concat(g1 + g2 + g3 + g4 + g5 + g6, g7);
    lemma_all_ok_concat(g1 + g2 + g3 + g4 + g5 + g6 + g7, g8);
    lemma_all_ok_concat(g1 + g2 + g3 + g4 + g5 + g6 + g7 + g8, g9);
    lemma_all_ok_concat(g1 + g2 + g3 + g4 + g5 + g6 + g7 + g8 + g9, g10);
    lemma_all_ok_concat(g1 + g2 + g3 + g4 + g5 + g6 + g7 + g8 + g9 + g10, g11);
    lemma_all_ok_concat(g1 + g2 + g3 + g4 + g5 + g6 + g7 + g8 + g9 + g10 + g11, g12);
    lemma_all_ok_concat(g1 + g2 + g3 + g4 + g5 + g6 + g7 + g8 + g9 + g10 + g11 + g12, g13);
    lemma_all_ok_concat(g1 + g2 + g3 + g4 + g5 + g6 + g7 + g8 + g9 + g10 + g11 + g12 + g13, g14);
    lemma_all_ok_concat(g1 + g2 + g3 + g4 + g5 + g6 + g7 + g8 + g9 + g10 + g11 + g12 + g13 + g14, g15);
    assert(evasion_spoofing_tokens(x) == g1 + g2 + g3 + g4 + g5 + g6 + g7 + g8 + g9 + g10 + g11 + g12 + g13 + g14 + g15);
}


#[verifier::rlimit(100)]
#[verifier::spinoff_prover]
proof fn lemma_output_tokens_ok(x: OutputOptionsV)
    requires
        wf_output(x),
    ensures
        all_tokens_ok(output_options_tokens(x)),
{
    let g1 = val_tok(x.normal, "-oN"@);
    assert(all_tokens_ok(g1)) by {
        lemma_lit_ok_94();
    }
    let g2 = val_tok(x.xml, "-oX"@);
    assert(all_tokens_ok(g2)) by {
        lemma_lit_ok_95();
    }
    let g3 = val_tok(x.script_kiddie, "-oS"@);
    assert(all_tokens_ok(g3)) by {
        lemma_lit_ok_96();
    }
    let g4 = val_tok(x.grepable, "-oG"@);
    assert(all_tokens_ok(g4)) by {
        lemma_lit_ok_97();
    }
    let g5 = val_tok(x.all_formats, "-oA"@);
    assert(all_tokens_ok(g5)) by {
        lemma_lit_ok_98();
    }
    let g6 = stacked_tok(x.verbose, "-v"@, "-vv"@);
    assert(all_tokens_ok(g6)) by {
        lemma_lit_ok_99();
        lemma_lit_ok_100();
        lemma_rep_tokens_ok("-v"@, x.verbose as nat);
    }
    let g7 = stacked_tok(x.debug, "-d"@, "-dd"@);
    assert(all_tokens_ok(g7)) by {
        lemma_lit_ok_101();
        lemma_lit_ok_102();
        lemma_rep_tokens_ok("-d"@, x.debug as nat);
    }
    let g8 = flag_tok(x.reason, "--reason"@);
    assert(all_tokens_ok(g8)) by {
        lemma_lit_ok_103();
    }
    let g9 = val_tok(x.stats_every, "--stats-every"@);
    assert(all_tokens_ok(g9)) by {
        lemma_lit_ok_104();
    }
    let g10 = flag_tok(x.packet_trace, "--packet-trace"@);
    assert(all_tokens_ok(g10)) by {
        lemma_lit_ok_105();
    }
    let g11 = flag_tok(x.open_only, "--open"@);
    assert(all_tokens_ok(g11)) by {
        lemma_lit_ok_106();
    }
    let g12 = flag_tok(x.iflist, "--iflist"@);
    assert(all_tokens_ok(g12)) by {
        lemma_lit_ok_107();
    }
    let g13 = flag_tok(x.append_output, "--append-output"@);
    assert(all_tokens_ok(g13)) by {
        lemma_lit_ok_108();
    }
    let g14 = val_tok(x.resume, "--resume"@);
    assert(all_tokens_ok(g14)) by {
        lemma_lit_ok_109();
    }
    let g15 = val_tok(x.stylesheet, "--stylesheet"@);
    assert(all_tokens_ok(g15)) by {
        lemma_lit_ok_110();
    }
    let g16 = flag_tok(x.webxml, "--webxml"@);
    assert(all_tokens_ok(g16)) by {
        lemma_lit_ok_111();
    }
    let g17 = flag_tok(x.no_stylesheet, "--no-stylesheet"@);
    assert(all_tokens_ok(g17)) by {
        lemma_lit_ok_112();
    }
    lemma_all_ok_concat(g1, g2);
    lemma_all_ok_concat(g1 + g2, g3);
    lemma_all_ok_concat(g1 + g2 + g3, g4);
    lemma_all_ok_concat(g1 + g2 + g3 + g4, g5);
    lemma_all_ok_concat(g1 + g2 + g3 + g4 + g5, g6);
    lemma_all_ok_concat(g1 + g2 + g3 + g4 + g5 + g6, g7);
    lemma_all_ok_concat(g1 + g2 + g3 + g4 + g5 + g6 + g7, g8);
    lemma_all_ok_concat(g1 + g2 + g3 + g4 + g5 + g6 + g7 + g8, g9);
    lemma_all_ok_concat(g1 + g2 + g3 + g4 + g5 + g6 + g7 + g8 + g9, g10);
    lemma_all_ok_concat(g1 + g2 + g3 + g4 + g5 + g6 + g7 + g8 + g9 + g10, g11);
    lemma_all_ok_concat(g1 + g2 + g3 + g4 + g5 + g6 + g7 + g8 + g9 + g10 + g11, g12);
    lemma_all_ok_concat(g1 + g2 + g3 + g4 + g5 + g6 + g7 + g8 + g9 + g10 + g11 + g12, g13);
    lemma_all_ok_concat(g1 + g2 + g3 + g4 + g5 + g6 + g7 + g8 + g9 + g10 + g11 + g12 + g13, g14);
    lemma_all_ok_concat(g1 + g2 + g3 + g4 + g5 + g6 + g7 + g8 + g9 + g10 + g11 + g12 + g13 + g14, g15);
    lemma_all_ok_concat(g1 + g2 + g3 + g4 + g5 + g6 + g7 + g8 + g9 + g10 + g11 + g12 + g13 + g14 + g15, g16);
    lemma_all_ok_concat(g1 + g2 + g3 + g4 + g5 + g6 + g7 + g8 + g9 + g10 + g11 + g12 + g13 + g14 + g15 + g16, g17);
    assert(output_options_tokens(x) == g1 + g2 + g3 + g4 + g5 + g6 + g7 + g8 + g9 + g10 + g11 + g12 + g13 + g14 + g15 + g16 + g17);
}




#[verifier::rlimit(100)]
#[verifier::spinoff_prover]
proof fn lemma_target_specification_tokens_ok(x: TargetSpecificationV)
    requires
        wf_target_specification(x),
    ensures
        all_tokens_ok(target_specification_tokens(x)),
{
    let g1 = val_tok(x.input_file, "-iL"@);
    assert(all_tokens_ok(g1)) by {
        lemma_lit_ok_0();
    }
    let g2 = num_tok(match x.random_targets { Some(n) => Some(n as nat), None => None }, "-iR"@);
    assert(all_tokens_ok(g2)) by {
        lemma_lit_ok_1();
        match x.random_targets {
            Some(n) => {
                lemma_dec_token_ok(n as nat);
            },
            None => {
            },
        }
    }
    let g3 = list_tok(x.exclude, "--exclude"@);
    assert(all_tokens_ok(g3)) by {
        lemma_lit_ok_2();
    }
    let g4 = val_tok(x.exclude_file, "--exclude-file"@);
    assert(all_tokens_ok(g4)) by {
        lemma_lit_ok_3();
    }
    let g5 = x.targets;
    assert(all_tokens_ok(g5));
    lemma_all_ok_concat(g1, g2);
    lemma_all_ok_concat(g1 + g2, g3);
    lemma_all_ok_concat(g1 + g2 + g3, g4);
    lemma_all_ok_concat(g1 + g2 + g3 + g4, g5);
    assert(target_specification_tokens(x) == g1 + g2 + g3 + g4 + g5);
}

/// Reparsing the built target-specification tokens and targets restores that section.
#[verifier::rlimit(100)]
#[verifier::spinoff_prover]
pub proof fn lemma_proc_target_specification(x: TargetSpecificationV, m: NmapScanV, rest: Seq<Seq<char>>)
    requires
        wf_target_specification(x),
        rest.len() == 0,
        m.target_specification == target_specification_default(),
    ensures
        proc_tokens(target_specification_tokens(x) + rest, m) == proc_tokens(rest, NmapScanV { target_specification: x, ..m }),
{
    let g1 = val_tok(x.input_file, "-iL"@);
    let g2 = num_tok(match x.random_targets { Some(n) => Some(n as nat), None => None }, "-iR"@);
    let g3 = list_tok(x.exclude, "--exclude"@);
    let g4 = val_tok(x.exclude_file, "--exclude-file"@);
    let g5 = x.targets;
    let r5 = rest;
    let r4 = g5 + r5;
    let r3 = g4 + r4;
    let r2 = g3 + r3;
    let r1 = g2 + r2;
    let r0 = g1 + r1;
    vstd::seq_lib::lemma_concat_associative(g1 + g2 + g3 + g4, g5, r5);
    vstd::seq_lib::lemma_concat_associative(g1 + g2 + g3, g4, r4);
    vstd::seq_lib::lemma_concat_associative(g1 + g2, g3, r3);
    vstd::seq_lib::lemma_concat_associative(g1, g2, r2);
    assert(target_specification_tokens(x) + rest == r0);
    let m0 = m;
    let m1 = match x.input_file { Some(p) => NmapScanV { target_specification: TargetSpecificationV { input_file: Some(p), ..m0.target_specification }, ..m0 }, None => m0 };
    match x.input_file {
        Some(p) => {
            lit_chars_0();
            lemma_flag_target_specification_input_file(m0, p);
            assert(r0 =~= seq!["-iL"@, p] + r1);
            lemma_step_ok1(m0, m1, "-iL"@, p, r1);
        },
        None => {
            assert(r0 =~= r1);
        },
    }
    assert(proc_tokens(r0, m0) == proc_tokens(r1, m1));
    let m2 = match x.random_targets { Some(p) => NmapScanV { target_specification: TargetSpecificationV { random_targets: Some(p), ..m1.target_specification }, ..m1 }, None => m1 };
    match x.random_targets {
        Some(p) => {
            lit_chars_1();
            lemma_flag_target_specification_random_targets(m1, p);
            assert(r1 =~= seq!["-iR"@, dec_text(p as nat)] + r2);
            lemma_step_ok1(m1, m2, "-iR"@, dec_text(p as nat), r2);
        },
        None => {
            assert(r1 =~= r2);
        },
    }
    assert(proc_tokens(r1, m1) == proc_tokens(r2, m2));
    let m3 = if x.exclude.len() > 0 { NmapScanV { target_specification: TargetSpecificationV { exclude: x.exclude, ..m2.target_specification }, ..m2 } } else { m2 };
    if x.exclude.len() > 0 {
        lit_chars_2();
        lemma_flag_target_specification_exclude(m2, x.exclude);
        assert(r2 =~= seq!["--exclude"@, join_comma(x.exclude)] + r3);
        lemma_step_ok1(m2, m3, "--exclude"@, join_comma(x.exclude), r3);
    } else {
        assert(r2 =~= r3);
    }
    assert(proc_tokens(r2, m2) == proc_tokens(r3, m3));
    let m4 = match x.exclude_file { Some(p) => NmapScanV { target_specification: TargetSpecificationV { exclude_file: Some(p), ..m3.target_specification }, ..m3 }, None => m3 };
    match x.exclude_file {
        Some(p) => {
            lit_chars_3();
            lemma_flag_target_specification_exclude_file(m3, p);
            assert(r3 =~= seq!["--exclude-file"@, p] + r4);
            lemma_step_ok1(m3, m4, "--exclude-file"@, p, r4);
        },
        None => {
            assert(r3 =~= r4);
        },
    }
    assert(proc_tokens(r3, m3) == proc_tokens(r4, m4));
    let m5 = NmapScanV { target_specification: TargetSpecificationV { targets: m4.target_specification.targets + x.targets, ..m4.target_specification }, ..m4 };
    lemma_proc_targets(x.targets, m4, r5);
    assert(proc_tokens(r4, m4) == proc_tokens(r5, m5));
    assert(m5 =~= NmapScanV { target_specification: x, ..m });
}

#[verifier::rlimit(100)]
#[verifier::spinoff_prover]
proof fn lemma_misc_tokens_ok_a(x: MiscOptionsV)
    requires
        wf_misc(x),
    ensures
        all_tokens_ok(flag_tok(x.ipv6, "-6"@) + flag_tok(x.aggressive, "-A"@) + val_tok(x.datadir, "--datadir"@) + flag_tok(x.send_eth, "--send-eth"@) + flag_tok(x.send_ip, "--send-ip"@) + flag_tok(x.privileged, "--privileged"@) + flag_tok(x.unprivileged, "--unprivileged"@)),
{
    let g1 = flag_tok(x.ipv6, "-6"@);
    assert(all_tokens_ok(g1)) by {
        lemma_lit_ok_113();
    }
    let g2 = flag_tok(x.aggressive, "-A"@);
    assert(all_tokens_ok(g2)) by {
        lemma_lit_ok_114();
    }
    let g3 = val_tok(x.datadir, "--datadir"@);
    assert(all_tokens_ok(g3)) by {
        lemma_lit_ok_115();
    }
    let g4 = flag_tok(x.send_eth, "--send-eth"@);
    assert(all_tokens_ok(g4)) by {
        lemma_lit_ok_116();
    }
    let g5 = flag_tok(x.send_ip, "--send-ip"@);
    assert(all_tokens_ok(g5)) by {
        lemma_lit_ok_117();
    }
    let g6 = flag_tok(x.privileged, "--privileged"@);
    assert(all_tokens_ok(g6)) by {
        lemma_lit_ok_118();
    }
    let g7 = flag_tok(x.unprivileged, "--unprivileged"@);
    assert(all_tokens_ok(g7)) by {
        lemma_lit_ok_119();
    }
    lemma_all_ok_concat(g1, g2);
    lemma_all_ok_concat(g1 + g2, g3);
    lemma_all_ok_concat(g1 + g2 + g3, g4);
    lemma_all_ok_concat(g1 + g2 + g3 + g4, g5);
    lemma_all_ok_concat(g1 + g2 + g3 + g4 + g5, g6);
    lemma_all_ok_concat(g1 + g2 + g3 + g4 + g5 + g6, g7);
}

#[verifier::rlimit(100)]
#[verifier::spinoff_prover]
proof fn lemma_misc_tokens_ok_b(x: MiscOptionsV)
    requires
        wf_misc(x),
    ensures
        all_tokens_ok(flag_tok(x.release_memory, "--release-memory"@) + flag_tok(x.version, "-V"@) + flag_tok(x.help, "-h"@) + flag_tok(x.resolve_all, "-R"@) + flag_tok(x.no_resolve, "-n"@) + flag_tok(x.unique, "--unique"@) + flag_tok(x.log_errors, "--log-errors"@)),
{
    let g1 = flag_tok(x.release_memory, "--release-memory"@);
    assert(all_tokens_ok(g1)) by {
        lemma_lit_ok_120();
    }
    let g2 = flag_tok(x.version, "-V"@);
    assert(all_tokens_ok(g2)) by {
        lemma_lit_ok_121();
    }
    let g3 = flag_tok(x.help, "-h"@);
    assert(all_tokens_ok(g3)) by {
        lemma_lit_ok_123();
    }
    let g4 = flag_tok(x.resolve_all, "-R"@);
    assert(all_tokens_ok(g4)) by {
        lemma_lit_ok_125();
    }
    let g5 = flag_tok(x.no_resolve, "-n"@);
    assert(all_tokens_ok(g5)) by {
        lemma_lit_ok_126();
    }
    let g6 = flag_tok(x.unique, "--unique"@);
    assert(all_tokens_ok(g6)) by {
        lemma_lit_ok_127();
    }
    let g7 = flag_tok(x.log_errors, "--log-errors"@);
    assert(all_tokens_ok(g7)) by {
        lemma_lit_ok_128();
    }
    lemma_all_ok_concat(g1, g2);
    lemma_all_ok_concat(g1 + g2, g3);
    lemma_all_ok_concat(g1 + g2 + g3, g4);
    lemma_all_ok_concat(g1 + g2 + g3 + g4, g5);
    lemma_all_ok_concat(g1 + g2 + g3 + g4 + g5, g6);
    lemma_all_ok_concat(g1 + g2 + g3 + g4 + g5 + g6, g7);
}

#[verifier::rlimit(100)]
#[verifier::spinoff_prover]
proof fn lemma_misc_tokens_ok(x: MiscOptionsV)
    requires
        wf_misc(x),
    ensures
        all_tokens_ok(misc_options_tokens(x)),
{
    let g1 = flag_tok(x.ipv6, "-6"@);
    let g2 = flag_tok(x.aggressive, "-A"@);
    let g3 = val_tok(x.datadir, "--datadir"@);
    let g4 = flag_tok(x.send_eth, "--send-eth"@);
    let g5 = flag_tok(x.send_ip, "--send-ip"@);
    let g6 = flag_tok(x.privileged, "--privileged"@);
    let g7 = flag_tok(x.unprivileged, "--unprivileged"@);
    let g8 = flag_tok(x.release_memory, "--release-memory"@);
    let g9 = flag_tok(x.version, "-V"@);
    let g10 = flag_tok(x.help, "-h"@);
    let g11 = flag_tok(x.resolve_all, "-R"@);
    let g12 = flag_tok(x.no_resolve, "-n"@);
    let g13 = flag_tok(x.unique, "--unique"@);
    let g14 = flag_tok(x.log_errors, "--log-errors"@);
    let ca = g1 + g2 + g3 + g4 + g5 + g6 + g7;
    let cb = g8 + g9 + g10 + g11 + g12 + g13 + g14;
    vstd::seq_lib::lemma_concat_associative(ca, g8, g9);
    vstd::seq_lib::lemma_concat_associative(ca, g8 + g9, g10);
    vstd::seq_lib::lemma_concat_associative(ca, g8 + g9 + g10, g11);
    vstd::seq_lib::lemma_concat_associative(ca, g8 + g9 + g10 + g11, g12);
    vstd::seq_lib::lemma_concat_associative(ca, g8 + g9 + g10 + g11 + g12, g13);
    vstd::seq_lib::lemma_concat_associative(ca, g8 + g9 + g10 + g11 + g12 + g13, g14);
    assert(misc_options_tokens(x) == ca + cb);
    lemma_misc_tokens_ok_a(x);
    lemma_misc_tokens_ok_b(x);
    lemma_all_ok_concat(ca, cb);
}

#[verifier::rlimit(100)]
#[verifier::spinoff_prover]
proof fn lemma_proc_host_discovery_part1(x: HostDiscoveryV, m: NmapScanV, rest: Seq<Seq<char>>)
    requires
        wf_host_discovery(x),
        m.host_discovery.list_scan == false,
        m.host_discovery.ping_scan == false,
        m.host_discovery.skip_port_scan == false,
        m.host_discovery.syn_discovery == Seq::<u16>::empty(),
        m.host_discovery.ack_discovery == Seq::<u16>::empty(),
    ensures
        proc_tokens(flag_tok(x.list_scan, "-sL"@) + flag_tok(x.ping_scan, "-sn"@) + flag_tok(x.skip_port_scan, "-Pn"@) + glued_ports_tok(x.syn_discovery, "-PS"@) + glued_ports_tok(x.ack_discovery, "-PA"@) + rest, m) == proc_tokens(
            rest,
            NmapScanV {
                host_discovery: HostDiscoveryV {
                    list_scan: x.list_scan, ping_scan: x.ping_scan, skip_port_scan: x.skip_port_scan, syn_discovery: x.syn_discovery, ack_discovery: x.ack_discovery,
                    ..m.host_discovery
                },
                ..m
            },
        ),
{
    let g1 = flag_tok(x.list_scan, "-sL"@);
    let g2 = flag_tok(x.ping_scan, "-sn"@);
    let g3 = flag_tok(x.skip_port_scan, "-Pn"@);
    let g4 = glued_ports_tok(x.syn_discovery, "-PS"@);
    let g5 = glued_ports_tok(x.ack_discovery, "-PA"@);
    let r5 = rest;
    let r4 = g5 + r5;
    let r3 = g4 + r4;
    let r2 = g3 + r3;
    let r1 = g2 + r2;
    let r0 = g1 + r1;
    vstd::seq_lib::lemma_concat_associative(g1 + g2 + g3 + g4, g5, r5);
    vstd::seq_lib::lemma_concat_associative(g1 + g2 + g3, g4, r4);
    vstd::seq_lib::lemma_concat_associative(g1 + g2, g3, r3);
    vstd::seq_lib::lemma_concat_associative(g1, g2, r2);
    assert(g1 + g2 + g3 + g4 + g5 + rest == r0);
    let m0 = m;
    let m1 = if x.list_scan { NmapScanV { host_discovery: HostDiscoveryV { list_scan: true, ..m0.host_discovery }, ..m0 } } else { m0 };
    assert(proc_tokens(r0, m0) == proc_tokens(r1, m1)) by {
        if x.list_scan {
            lit_chars_4();
            lemma_flag_host_discovery_list_scan(m0, (if r1.len() > 0 { Some(r1[0]) } else { None }));
            assert(r0 =~= seq!["-sL"@] + r1);
            lemma_step_ok0(m0, m1, "-sL"@, r1);
        } else {
            assert(r0 =~= r1);
        }
    }
    let m2 = if x.ping_scan { NmapScanV { host_discovery: HostDiscoveryV { ping_scan: true, ..m1.host_discovery }, ..m1 } } else { m1 };
    assert(proc_tokens(r1, m1) == proc_tokens(r2, m2)) by {
        if x.ping_scan {
            lit_chars_5();
            lemma_flag_host_discovery_ping_scan(m1, (if r2.len() > 0 { Some(r2[0]) } else { None }));
            assert(r1 =~= seq!["-sn"@] + r2);
            lemma_step_ok0(m1, m2, "-sn"@, r2);
        } else {
            assert(r1 =~= r2);
        }
    }
    let m3 = if x.skip_port_scan { NmapScanV { host_discovery: HostDiscoveryV { skip_port_scan: true, ..m2.host_discovery }, ..m2 } } else { m2 };
    assert(proc_tokens(r2, m2) == proc_tokens(r3, m3)) by {
        if x.skip_port_scan {
            lit_chars_6();
            lemma_flag_host_discovery_skip_port_scan(m2, (if r3.len() > 0 { Some(r3[0]) } else { None }));
            assert(r2 =~= seq!["-Pn"@] + r3);
            lemma_step_ok0(m2, m3, "-Pn"@, r3);
        } else {
            assert(r2 =~= r3);
        }
    }
    let m4 = if x.syn_discovery.len() > 0 { NmapScanV { host_discovery: HostDiscoveryV { syn_discovery: x.syn_discovery, ..m3.host_discovery }, ..m3 } } else { m3 };
    assert(proc_tokens(r3, m3) == proc_tokens(r4, m4)) by {
        if x.syn_discovery.len() > 0 {
            lit_chars_7();
            lemma_port_list_text_len(x.syn_discovery);
            let t = "-PS"@ + port_list_text(x.syn_discovery);
            assert(t[0] == '-');
            lemma_flag_host_discovery_syn_discovery(m3, x.syn_discovery, (if r4.len() > 0 { Some(r4[0]) } else { None }));
            assert(r3 =~= seq![t] + r4);
            lemma_step_ok0(m3, m4, t, r4);
        } else {
            assert(r3 =~= r4);
        }
    }
    let m5 = if x.ack_discovery.len() > 0 { NmapScanV { host_discovery: HostDiscoveryV { ack_discovery: x.ack_discovery, ..m4.host_discovery }, ..m4 } } else { m4 };
    assert(proc_tokens(r4, m4) == proc_tokens(r5, m5)) by {
        if x.ack_discovery.len() > 0 {
            lit_chars_8();
            lemma_port_list_text_len(x.ack_discovery);
            let t = "-PA"@ + port_list_text(x.ack_discovery);
            assert(t[0] == '-');
            lemma_flag_host_discovery_ack_discovery(m4, x.ack_discovery, (if r5.len() > 0 { Some(r5[0]) } else { None }));
            assert(r4 =~= seq![t] + r5);
            lemma_step_ok0(m4, m5, t, r5);
        } else {
            assert(r4 =~= r5);
        }
    }
    assert(m5 =~= NmapScanV {
        host_discovery: HostDiscoveryV {
            list_scan: x.list_scan, ping_scan: x.ping_scan, skip_port_scan: x.skip_port_scan, syn_discovery: x.syn_discovery, ack_discovery: x.ack_discovery,
            ..m.host_discovery
        },
        ..m
    });
}

#[verifier::rlimit(100)]
#[verifier::spinoff_prover]
proof fn lemma_proc_host_discovery_part2(x: HostDiscoveryV, m: NmapScanV, rest: Seq<Seq<char>>)
    requires
        wf_host_discovery(x),
        m.host_discovery.udp_discovery == Seq::<u16>::empty(),
        m.host_discovery.sctp_discovery == Seq::<u16>::empty(),
        m.host_discovery.icmp_echo == false,
        m.host_discovery.icmp_timestamp == false,
        m.host_discovery.icmp_netmask == false,
    ensures
        proc_tokens(glued_ports_tok(x.udp_discovery, "-PU"@) + glued_ports_tok(x.sctp_discovery, "-PY"@) + flag_tok(x.icmp_echo, "-PE"@) + flag_tok(x.icmp_timestamp, "-PP"@) + flag_tok(x.icmp_netmask, "-PM"@) + rest, m) == proc_tokens(
            rest,
            NmapScanV {
                host_discovery: HostDiscoveryV {
                    udp_discovery: x.udp_discovery, sctp_discovery: x.sctp_discovery, icmp_echo: x.icmp_echo, icmp_timestamp: x.icmp_timestamp, icmp_netmask: x.icmp_netmask,
                    ..m.host_discovery
                },
                ..m
            },
        ),
{
    let g1 = glued_ports_tok(x.udp_discovery, "-PU"@);
    let g2 = glued_ports_tok(x.sctp_discovery, "-PY"@);
    let g3 = flag_tok(x.icmp_echo, "-PE"@);
    let g4 = flag_tok(x.icmp_timestamp, "-PP"@);
    let g5 = flag_tok(x.icmp_netmask, "-PM"@);
    let r5 = rest;
    let r4 = g5 + r5;
    let r3 = g4 + r4;
    let r2 = g3 + r3;
    let r1 = g2 + r2;
    let r0 = g1 + r1;
    vstd::seq_lib::lemma_concat_associative(g1 + g2 + g3 + g4, g5, r5);
    vstd::seq_lib::lemma_concat_associative(g1 + g2 + g3, g4, r4);
    vstd::seq_lib::lemma_concat_associative(g1 + g2, g3, r3);
    vstd::seq_lib::lemma_concat_associative(g1, g2, r2);
    assert(g1 + g2 + g3 + g4 + g5 + rest == r0);
    let m0 = m;
    let m1 = if x.udp_discovery.len() > 0 { NmapScanV { host_discovery: HostDiscoveryV { udp_discovery: x.udp_discovery, ..m0.host_discovery }, ..m0 } } else { m0 };
    assert(proc_tokens(r0, m0) == proc_tokens(r1, m1)) by {
        if x.udp_discovery.len() > 0 {
            lit_chars_9();
            lemma_port_list_text_len(x.udp_discovery);
            let t = "-PU"@ + port_list_text(x.udp_discovery);
            assert(t[0] == '-');
            lemma_flag_host_discovery_udp_discovery(m0, x.udp_discovery, (if r1.len() > 0 { Some(r1[0]) } else { None }));
            assert(r0 =~= seq![t] + r1);
            lemma_step_ok0(m0, m1, t, r1);
        } else {
            assert(r0 =~= r1);
        }
    }
    let m2 = if x.sctp_discovery.len() > 0 { NmapScanV { host_discovery: HostDiscoveryV { sctp_discovery: x.sctp_discovery, ..m1.host_discovery }, ..m1 } } else { m1 };
    assert(proc_tokens(r1, m1) == proc_tokens(r2, m2)) by {
        if x.sctp_discovery.len() > 0 {
            lit_chars_10();
            lemma_port_list_text_len(x.sctp_discovery);
            let t = "-PY"@ + port_list_text(x.sctp_discovery);
            assert(t[0] == '-');
            lemma_flag_host_discovery_sctp_discovery(m1, x.sctp_discovery, (if r2.len() > 0 { Some(r2[0]) } else { None }));
            assert(r1 =~= seq![t] + r2);
            lemma_step_ok0(m1, m2, t, r2);
        } else {
            assert(r1 =~= r2);
        }
    }
    let m3 = if x.icmp_echo { NmapScanV { host_discovery: HostDiscoveryV { icmp_echo: true, ..m2.host_discovery }, ..m2 } } else { m2 };
    assert(proc_tokens(r2, m2) == proc_tokens(r3, m3)) by {
        if x.icmp_echo {
            lit_chars_11();
            lemma_flag_host_discovery_icmp_echo(m2, (if r3.len() > 0 { Some(r3[0]) } else { None }));
            assert(r2 =~= seq!["-PE"@] + r3);
            lemma_step_ok0(m2, m3, "-PE"@, r3);
        } else {
            assert(r2 =~= r3);
        }
    }
    let m4 = if x.icmp_timestamp { NmapScanV { host_discovery: HostDiscoveryV { icmp_timestamp: true, ..m3.host_discovery }, ..m3 } } else { m3 };
    assert(proc_tokens(r3, m3) == proc_tokens(r4, m4)) by {
        if x.icmp_timestamp {
            lit_chars_12();
            lemma_flag_host_discovery_icmp_timestamp(m3, (if r4.len() > 0 { Some(r4[0]) } else { None }));
            assert(r3 =~= seq!["-PP"@] + r4);
            lemma_step_ok0(m3, m4, "-PP"@, r4);
        } else {
            assert(r3 =~= r4);
        }
    }
    let m5 = if x.icmp_netmask { NmapScanV { host_discovery: HostDiscoveryV { icmp_netmask: true, ..m4.host_discovery }, ..m4 } } else { m4 };
    assert(proc_tokens(r4, m4) == proc_tokens(r5, m5)) by {
        if x.icmp_netmask {
            lit_chars_13();
            lemma_flag_host_discovery_icmp_netmask(m4, (if r5.len() > 0 { Some(r5[0]) } else { None }));
            assert(r4 =~= seq!["-PM"@] + r5);
            lemma_step_ok0(m4, m5, "-PM"@, r5);
        } else {
            assert(r4 =~= r5);
        }
    }
    assert(m5 =~= NmapScanV {
        host_discovery: HostDiscoveryV {
            udp_discovery: x.udp_discovery, sctp_discovery: x.sctp_discovery, icmp_echo: x.icmp_echo, icmp_timestamp: x.icmp_timestamp, icmp_netmask: x.icmp_netmask,
            ..m.host_discovery
        },
        ..m
    });
}

#[verifier::rlimit(100)]
#[verifier::spinoff_prover]
proof fn lemma_proc_host_discovery_part3(x: HostDiscoveryV, m: NmapScanV, rest: Seq<Seq<char>>)
    requires
        wf_host_discovery(x),
        m.host_discovery.ip_protocol_ping == Seq::<u8>::empty(),
        m.host_discovery.traceroute == false,
        m.host_discovery.dns_servers == Seq::<Seq<char>>::empty(),
        m.host_discovery.system_dns == false,
    ensures
        proc_tokens(glued_protos_tok(x.ip_protocol_ping, "-PO"@) + flag_tok(x.traceroute, "--traceroute"@) + list_tok(x.dns_servers, "--dns-servers"@) + flag_tok(x.system_dns, "--system-dns"@) + rest, m) == proc_tokens(
            rest,
            NmapScanV {
                host_discovery: HostDiscoveryV {
                    ip_protocol_ping: x.ip_protocol_ping, traceroute: x.traceroute, dns_servers: x.dns_servers, system_dns: x.system_dns,
                    ..m.host_discovery
                },
                ..m
            },
        ),
{
    let g1 = glued_protos_tok(x.ip_protocol_ping, "-PO"@);
    let g2 = flag_tok(x.traceroute, "--traceroute"@);
    let g3 = list_tok(x.dns_servers, "--dns-servers"@);
    let g4 = flag_tok(x.system_dns, "--system-dns"@);
    let r4 = rest;
    let r3 = g4 + r4;
    let r2 = g3 + r3;
    let r1 = g2 + r2;
    let r0 = g1 + r1;
    vstd::seq_lib::lemma_concat_associative(g1 + g2 + g3, g4, r4);
    vstd::seq_lib::lemma_concat_associative(g1 + g2, g3, r3);
    vstd::seq_lib::lemma_concat_associative(g1, g2, r2);
    assert(g1 + g2 + g3 + g4 + rest == r0);
    let m0 = m;
    let m1 = if x.ip_protocol_ping.len() > 0 { NmapScanV { host_discovery: HostDiscoveryV { ip_protocol_ping: x.ip_protocol_ping, ..m0.host_discovery }, ..m0 } } else { m0 };
    assert(proc_tokens(r0, m0) == proc_tokens(r1, m1)) by {
        if x.ip_protocol_ping.len() > 0 {
            lit_chars_14();
            lemma_proto_list_text_len(x.ip_protocol_ping);
            let t = "-PO"@ + proto_list_text(x.ip_protocol_ping);
            assert(t[0] == '-');
            lemma_flag_host_discovery_ip_protocol_ping(m0, x.ip_protocol_ping, (if r1.len() > 0 { Some(r1[0]) } else { None }));
            assert(r0 =~= seq![t] + r1);
            lemma_step_ok0(m0, m1, t, r1);
        } else {
            assert(r0 =~= r1);
        }
    }
    let m2 = if x.traceroute { NmapScanV { host_discovery: HostDiscoveryV { traceroute: true, ..m1.host_discovery }, ..m1 } } else { m1 };
    assert(proc_tokens(r1, m1) == proc_tokens(r2, m2)) by {
        if x.traceroute {
            lit_chars_15();
            lemma_flag_host_discovery_traceroute(m1, (if r2.len() > 0 { Some(r2[0]) } else { None }));
            assert(r1 =~= seq!["--traceroute"@] + r2);
            lemma_step_ok0(m1, m2, "--traceroute"@, r2);
        } else {
            assert(r1 =~= r2);
        }
    }
    let m3 = if x.dns_servers.len() > 0 { NmapScanV { host_discovery: HostDiscoveryV { dns_servers: x.dns_servers, ..m2.host_discovery }, ..m2 } } else { m2 };
    assert(proc_tokens(r2, m2) == proc_tokens(r3, m3)) by {
        if x.dns_servers.len() > 0 {
            lit_chars_16();
            lemma_flag_host_discovery_dns_servers(m2, x.dns_servers);
            assert(r2 =~= seq!["--dns-servers"@, join_comma(x.dns_servers)] + r3);
            lemma_step_ok1(m2, m3, "--dns-servers"@, join_comma(x.dns_servers), r3);
        } else {
            assert(r2 =~= r3);
        }
    }
    let m4 = if x.system_dns { NmapScanV { host_discovery: HostDiscoveryV { system_dns: true, ..m3.host_discovery }, ..m3 } } else { m3 };
    assert(proc_tokens(r3, m3) == proc_tokens(r4, m4)) by {
        if x.system_dns {
            lit_chars_17();
            lemma_flag_host_discovery_system_dns(m3, (if r4.len() > 0 { Some(r4[0]) } else { None }));
            assert(r3 =~= seq!["--system-dns"@] + r4);
            lemma_step_ok0(m3, m4, "--system-dns"@, r4);
        } else {
            assert(r3 =~= r4);
        }
    }
    assert(m4 =~= NmapScanV {
        host_discovery: HostDiscoveryV {
            ip_protocol_ping: x.ip_protocol_ping, traceroute: x.traceroute, dns_servers: x.dns_servers, system_dns: x.system_dns,
            ..m.host_discovery
        },
        ..m
    });
}

/// Reparsing the built host discovery tokens restores that section.
#[verifier::rlimit(100)]
#[verifier::spinoff_prover]
pub proof fn lemma_proc_host_discovery(x: HostDiscoveryV, m: NmapScanV, rest: Seq<Seq<char>>)
    requires
        wf_host_discovery(x),
        m.host_discovery == host_discovery_default(),
    ensures
        proc_tokens(host_discovery_tokens(x) + rest, m) == proc_tokens(
            rest,
            NmapScanV { host_discovery: x, ..m },
        ),
{
    let g1 = flag_tok(x.list_scan, "-sL"@);
    let g2 = flag_tok(x.ping_scan, "-sn"@);
    let g3 = flag_tok(x.skip_port_scan, "-Pn"@);
    let g4 = glued_ports_tok(x.syn_discovery, "-PS"@);
    let g5 = glued_ports_tok(x.ack_discovery, "-PA"@);
    let g6 = glued_ports_tok(x.udp_discovery, "-PU"@);
    let g7 = glued_ports_tok(x.sctp_discovery, "-PY"@);
    let g8 = flag_tok(x.icmp_echo, "-PE"@);
    let g9 = flag_tok(x.icmp_timestamp, "-PP"@);
    let g10 = flag_tok(x.icmp_netmask, "-PM"@);
    let g11 = glued_protos_tok(x.ip_protocol_ping, "-PO"@);
    let g12 = flag_tok(x.traceroute, "--traceroute"@);
    let g13 = list_tok(x.dns_servers, "--dns-servers"@);
    let g14 = flag_tok(x.system_dns, "--system-dns"@);
    let c1 = g1 + g2 + g3 + g4 + g5;
    let c2 = g6 + g7 + g8 + g9 + g10;
    let c3 = g11 + g12 + g13 + g14;
    vstd::seq_lib::lemma_concat_associative(c1, g6, g7);
    vstd::seq_lib::lemma_concat_associative(c1, g6 + g7, g8);
    vstd::seq_lib::lemma_concat_associative(c1, g6 + g7 + g8, g9);
    vstd::seq_lib::lemma_concat_associative(c1, g6 + g7 + g8 + g9, g10);
    vstd::seq_lib::lemma_concat_associative(c1 + c2, g11, g12);
    vstd::seq_lib::lemma_concat_associative(c1 + c2, g11 + g12, g13);
    vstd::seq_lib::lemma_concat_associative(c1 + c2, g11 + g12 + g13, g14);
    assert(host_discovery_tokens(x) == c1 + c2 + c3);
    let q3 = rest;
    let q2 = c3 + q3;
    let q1 = c2 + q2;
    let q0 = c1 + q1;
    vstd::seq_lib::lemma_concat_associative(c1 + c2, c3, q3);
    vstd::seq_lib::lemma_concat_associative(c1, c2, q2);
    assert(host_discovery_tokens(x) + rest == q0);
    let n0 = m;
    lemma_proc_host_discovery_part1(x, n0, q1);
    let n1 = NmapScanV {
        host_discovery: HostDiscoveryV {
            list_scan: x.list_scan, ping_scan: x.ping_scan, skip_port_scan: x.skip_port_scan, syn_discovery: x.syn_discovery, ack_discovery: x.ack_discovery,
            ..n0.host_discovery
        },
        ..n0
    };
    assert(proc_tokens(q0, n0) == proc_tokens(q1, n1));
    lemma_proc_host_discovery_part2(x, n1, q2);
    let n2 = NmapScanV {
        host_discovery: HostDiscoveryV {
            udp_discovery: x.udp_discovery, sctp_discovery: x.sctp_discovery, icmp_echo: x.icmp_echo, icmp_timestamp: x.icmp_timestamp, icmp_netmask: x.icmp_netmask,
            ..n1.host_discovery
        },
        ..n1
    };
    assert(proc_tokens(q1, n1) == proc_tokens(q2, n2));
    lemma_proc_host_discovery_part3(x, n2, q3);
    let n3 = NmapScanV {
        host_discovery: HostDiscoveryV {
            ip_protocol_ping: x.ip_protocol_ping, traceroute: x.traceroute, dns_servers: x.dns_servers, system_dns: x.system_dns,
            ..n2.host_discovery
        },
        ..n2
    };
    assert(proc_tokens(q2, n2) == proc_tokens(q3, n3));
    assert(n3 =~= NmapScanV { host_discovery: x, ..m });
}

#[verifier::rlimit(100)]
#[verifier::spinoff_prover]
proof fn lemma_proc_timing_part1(x: TimingPerformanceV, m: NmapScanV, rest: Seq<Seq<char>>)
    requires
        wf_timing(x),
        m.timing.template is None,
        m.timing.min_hostgroup is None,
        m.timing.max_hostgroup is None,
        m.timing.min_parallelism is None,
        m.timing.max_parallelism is None,
    ensures
        proc_tokens(template_tok(x.template) + num_tok(match x.min_hostgroup { Some(n) => Some(n as nat), None => None }, "--min-hostgroup"@) + num_tok(match x.max_hostgroup { Some(n) => Some(n as nat), None => None }, "--max-hostgroup"@) + num_tok(match x.min_parallelism { Some(n) => Some(n as nat), None => None }, "--min-parallelism"@) + num_tok(match x.max_parallelism { Some(n) => Some(n as nat), None => None }, "--max-parallelism"@) + rest, m) == proc_tokens(
            rest,
            NmapScanV {
                timing: TimingPerformanceV {
                    template: x.template, min_hostgroup: x.min_hostgroup, max_hostgroup: x.max_hostgroup, min_parallelism: x.min_parallelism, max_parallelism: x.max_parallelism,
                    ..m.timing
                },
                ..m
            },
        ),
{
    let g1 = template_tok(x.template);
    let g2 = num_tok(match x.min_hostgroup { Some(n) => Some(n as nat), None => None }, "--min-hostgroup"@);
    let g3 = num_tok(match x.max_hostgroup { Some(n) => Some(n as nat), None => None }, "--max-hostgroup"@);
    let g4 = num_tok(match x.min_parallelism { Some(n) => Some(n as nat), None => None }, "--min-parallelism"@);
    let g5 = num_tok(match x.max_parallelism { Some(n) => Some(n as nat), None => None }, "--max-parallelism"@);
    let r5 = rest;
    let r4 = g5 + r5;
    let r3 = g4 + r4;
    let r2 = g3 + r3;
    let r1 = g2 + r2;
    let r0 = g1 + r1;
    vstd::seq_lib::lemma_concat_associative(g1 + g2 + g3 + g4, g5, r5);
    vstd::seq_lib::lemma_concat_associative(g1 + g2 + g3, g4, r4);
    vstd::seq_lib::lemma_concat_associative(g1 + g2, g3, r3);
    vstd::seq_lib::lemma_concat_associative(g1, g2, r2);
    assert(g1 + g2 + g3 + g4 + g5 + rest == r0);
    let m0 = m;
    let m1 = match x.template { Some(tv) => NmapScanV { timing: TimingPerformanceV { template: Some(tv), ..m0.timing }, ..m0 }, None => m0 };
    assert(proc_tokens(r0, m0) == proc_tokens(r1, m1)) by {
        match x.template {
            Some(TimingTemplate::Paranoid) => {
                lit_chars_55();
                lit_chars_129();
                let t = "-T"@ + dec_text(0);
                assert(t[0] == '-');
                lemma_flag_timing_template_0(m0, (if r1.len() > 0 { Some(r1[0]) } else { None }));
                assert(r0 =~= seq![t] + r1);
                lemma_step_ok0(m0, NmapScanV { timing: TimingPerformanceV { template: Some(TimingTemplate::Paranoid), ..m0.timing }, ..m0 }, t, r1);
            },
            Some(TimingTemplate::Sneaky) => {
                lit_chars_56();
                lit_chars_129();
                let t = "-T"@ + dec_text(1);
                assert(t[0] == '-');
                lemma_flag_timing_template_1(m0, (if r1.len() > 0 { Some(r1[0]) } else { None }));
                assert(r0 =~= seq![t] + r1);
                lemma_step_ok0(m0, NmapScanV { timing: TimingPerformanceV { template: Some(TimingTemplate::Sneaky), ..m0.timing }, ..m0 }, t, r1);
            },
            Some(TimingTemplate::Polite) => {
                lit_chars_57();
                lit_chars_129();
                let t = "-T"@ + dec_text(2);
                assert(t[0] == '-');
                lemma_flag_timing_template_2(m0, (if r1.len() > 0 { Some(r1[0]) } else { None }));
                assert(r0 =~= seq![t] + r1);
                lemma_step_ok0(m0, NmapScanV { timing: TimingPerformanceV { template: Some(TimingTemplate::Polite), ..m0.timing }, ..m0 }, t, r1);
            },
            Some(TimingTemplate::Normal) => {
                lit_chars_58();
                lit_chars_129();
                let t = "-T"@ + dec_text(3);
                assert(t[0] == '-');
                lemma_flag_timing_template_3(m0, (if r1.len() > 0 { Some(r1[0]) } else { None }));
                assert(r0 =~= seq![t] + r1);
                lemma_step_ok0(m0, NmapScanV { timing: TimingPerformanceV { template: Some(TimingTemplate::Normal), ..m0.timing }, ..m0 }, t, r1);
            },
            Some(TimingTemplate::Aggressive) => {
                lit_chars_59();
                lit_chars_129();
                let t = "-T"@ + dec_text(4);
                assert(t[0] == '-');
                lemma_flag_timing_template_4(m0, (if r1.len() > 0 { Some(r1[0]) } else { None }));
                assert(r0 =~= seq![t] + r1);
                lemma_step_ok0(m0, NmapScanV { timing: TimingPerformanceV { template: Some(TimingTemplate::Aggressive), ..m0.timing }, ..m0 }, t, r1);
            },
            Some(TimingTemplate::Insane) => {
                lit_chars_60();
                lit_chars_129();
                let t = "-T"@ + dec_text(5);
                assert(t[0] == '-');
                lemma_flag_timing_template_5(m0, (if r1.len() > 0 { Some(r1[0]) } else { None }));
                assert(r0 =~= seq![t] + r1);
                lemma_step_ok0(m0, NmapScanV { timing: TimingPerformanceV { template: Some(TimingTemplate::Insane), ..m0.timing }, ..m0 }, t, r1);
            },
            None => {
                assert(r0 =~= r1);
            },
        }
    }
    let m2 = match x.min_hostgroup { Some(p) => NmapScanV { timing: TimingPerformanceV { min_hostgroup: Some(p), ..m1.timing }, ..m1 }, None => m1 };
    assert(proc_tokens(r1, m1) == proc_tokens(r2, m2)) by {
        match x.min_hostgroup {
            Some(p) => {
                lit_chars_61();
                lemma_flag_timing_min_hostgroup(m1, p);
                assert(r1 =~= seq!["--min-hostgroup"@, dec_text(p as nat)] + r2);
                lemma_step_ok1(m1, m2, "--min-hostgroup"@, dec_text(p as nat), r2);
            },
            None => {
                assert(r1 =~= r2);
            },
        }
    }
    let m3 = match x.max_hostgroup { Some(p) => NmapScanV { timing: TimingPerformanceV { max_hostgroup: Some(p), ..m2.timing }, ..m2 }, None => m2 };
    assert(proc_tokens(r2, m2) == proc_tokens(r3, m3)) by {
        match x.max_hostgroup {
            Some(p) => {
                lit_chars_62();
                lemma_flag_timing_max_hostgroup(m2, p);
                assert(r2 =~= seq!["--max-hostgroup"@, dec_text(p as nat)] + r3);
                lemma_step_ok1(m2, m3, "--max-hostgroup"@, dec_text(p as nat), r3);
            },
            None => {
                assert(r2 =~= r3);
            },
        }
    }
    let m4 = match x.min_parallelism { Some(p) => NmapScanV { timing: TimingPerformanceV { min_parallelism: Some(p), ..m3.timing }, ..m3 }, None => m3 };
    assert(proc_tokens(r3, m3) == proc_tokens(r4, m4)) by {
        match x.min_parallelism {
            Some(p) => {
                lit_chars_63();
                lemma_flag_timing_min_parallelism(m3, p);
                assert(r3 =~= seq!["--min-parallelism"@, dec_text(p as nat)] + r4);
                lemma_step_ok1(m3, m4, "--min-parallelism"@, dec_text(p as nat), r4);
            },
            None => {
                assert(r3 =~= r4);
            },
        }
    }
    let m5 = match x.max_parallelism { Some(p) => NmapScanV { timing: TimingPerformanceV { max_parallelism: Some(p), ..m4.timing }, ..m4 }, None => m4 };
    assert(proc_tokens(r4, m4) == proc_tokens(r5, m5)) by {
        match x.max_parallelism {
            Some(p) => {
                lit_chars_64();
                lemma_flag_timing_max_parallelism(m4, p);
                assert(r4 =~= seq!["--max-parallelism"@, dec_text(p as nat)] + r5);
                lemma_step_ok1(m4, m5, "--max-parallelism"@, dec_text(p as nat), r5);
            },
            None => {
                assert(r4 =~= r5);
            },
        }
    }
    assert(m5 =~= NmapScanV {
        timing: TimingPerformanceV {
            template: x.template, min_hostgroup: x.min_hostgroup, max_hostgroup: x.max_hostgroup, min_parallelism: x.min_parallelism, max_parallelism: x.max_parallelism,
            ..m.timing
        },
        ..m
    });
}

#[verifier::rlimit(100)]
#[verifier::spinoff_prover]
proof fn lemma_proc_timing_part2(x: TimingPerformanceV, m: NmapScanV, rest: Seq<Seq<char>>)
    requires
        wf_timing(x),
        m.timing.min_rtt_timeout is None,
        m.timing.max_rtt_timeout is None,
        m.timing.initial_rtt_timeout is None,
        m.timing.max_retries is None,
        m.timing.host_timeout is None,
    ensures
        proc_tokens(val_tok(x.min_rtt_timeout, "--min-rtt-timeout"@) + val_tok(x.max_rtt_timeout, "--max-rtt-timeout"@) + val_tok(x.initial_rtt_timeout, "--initial-rtt-timeout"@) + num_tok(match x.max_retries { Some(n) => Some(n as nat), None => None }, "--max-retries"@) + val_tok(x.host_timeout, "--host-timeout"@) + rest, m) == proc_tokens(
            rest,
            NmapScanV {
                timing: TimingPerformanceV {
                    min_rtt_timeout: x.min_rtt_timeout, max_rtt_timeout: x.max_rtt_timeout, initial_rtt_timeout: x.initial_rtt_timeout, max_retries: x.max_retries, host_timeout: x.host_timeout,
                    ..m.timing
                },
                ..m
            },
        ),
{
    let g1 = val_tok(x.min_rtt_timeout, "--min-rtt-timeout"@);
    let g2 = val_tok(x.max_rtt_timeout, "--max-rtt-timeout"@);
    let g3 = val_tok(x.initial_rtt_timeout, "--initial-rtt-timeout"@);
    let g4 = num_tok(match x.max_retries { Some(n) => Some(n as nat), None => None }, "--max-retries"@);
    let g5 = val_tok(x.host_timeout, "--host-timeout"@);
    let r5 = rest;
    let r4 = g5 + r5;
    let r3 = g4 + r4;
    let r2 = g3 + r3;
    let r1 = g2 + r2;
    let r0 = g1 + r1;
    vstd::seq_lib::lemma_concat_associative(g1 + g2 + g3 + g4, g5, r5);
    vstd::seq_lib::lemma_concat_associative(g1 + g2 + g3, g4, r4);
    vstd::seq_lib::lemma_concat_associative(g1 + g2, g3, r3);
    vstd::seq_lib::lemma_concat_associative(g1, g2, r2);
    assert(g1 + g2 + g3 + g4 + g5 + rest == r0);
    let m0 = m;
    let m1 = match x.min_rtt_timeout { Some(p) => NmapScanV { timing: TimingPerformanceV { min_rtt_timeout: Some(p), ..m0.timing }, ..m0 }, None => m0 };
    assert(proc_tokens(r0, m0) == proc_tokens(r1, m1)) by {
        match x.min_rtt_timeout {
            Some(p) => {
                lit_chars_65();
                lemma_flag_timing_min_rtt_timeout(m0, p);
                assert(r0 =~= seq!["--min-rtt-timeout"@, p] + r1);
                lemma_step_ok1(m0, m1, "--min-rtt-timeout"@, p, r1);
            },
            None => {
                assert(r0 =~= r1);
            },
        }
    }
    let m2 = match x.max_rtt_timeout { Some(p) => NmapScanV { timing: TimingPerformanceV { max_rtt_timeout: Some(p), ..m1.timing }, ..m1 }, None => m1 };
    assert(proc_tokens(r1, m1) == proc_tokens(r2, m2)) by {
        match x.max_rtt_timeout {
            Some(p) => {
                lit_chars_66();
                lemma_flag_timing_max_rtt_timeout(m1, p);
                assert(r1 =~= seq!["--max-rtt-timeout"@, p] + r2);
                lemma_step_ok1(m1, m2, "--max-rtt-timeout"@, p, r2);
            },
            None => {
                assert(r1 =~= r2);
            },
        }
    }
    let m3 = match x.initial_rtt_timeout { Some(p) => NmapScanV { timing: TimingPerformanceV { initial_rtt_timeout: Some(p), ..m2.timing }, ..m2 }, None => m2 };
    assert(proc_tokens(r2, m2) == proc_tokens(r3, m3)) by {
        match x.initial_rtt_timeout {
            Some(p) => {
                lit_chars_67();
                lemma_flag_timing_initial_rtt_timeout(m2, p);
                assert(r2 =~= seq!["--initial-rtt-timeout"@, p] + r3);
                lemma_step_ok1(m2, m3, "--initial-rtt-timeout"@, p, r3);
            },
            None => {
                assert(r2 =~= r3);
            },
        }
    }
    let m4 = match x.max_retries { Some(p) => NmapScanV { timing: TimingPerformanceV { max_retries: Some(p), ..m3.timing }, ..m3 }, None => m3 };
    assert(proc_tokens(r3, m3) == proc_tokens(r4, m4)) by {
        match x.max_retries {
            Some(p) => {
                lit_chars_68();
                lemma_flag_timing_max_retries(m3, p);
                assert(r3 =~= seq!["--max-retries"@, dec_text(p as nat)] + r4);
                lemma_step_ok1(m3, m4, "--max-retries"@, dec_text(p as nat), r4);
            },
            None => {
                assert(r3 =~= r4);
            },
        }
    }
    let m5 = match x.host_timeout { Some(p) => NmapScanV { timing: TimingPerformanceV { host_timeout: Some(p), ..m4.timing }, ..m4 }, None => m4 };
    assert(proc_tokens(r4, m4) == proc_tokens(r5, m5)) by {
        match x.host_timeout {
            Some(p) => {
                lit_chars_69();
                lemma_flag_timing_host_timeout(m4, p);
                assert(r4 =~= seq!["--host-timeout"@, p] + r5);
                lemma_step_ok1(m4, m5, "--host-timeout"@, p, r5);
            },
            None => {
                assert(r4 =~= r5);
            },
        }
    }
    assert(m5 =~= NmapScanV {
        timing: TimingPerformanceV {
            min_rtt_timeout: x.min_rtt_timeout, max_rtt_timeout: x.max_rtt_timeout, initial_rtt_timeout: x.initial_rtt_timeout, max_retries: x.max_retries, host_timeout: x.host_timeout,
            ..m.timing
        },
        ..m
    });
}

#[verifier::rlimit(100)]
#[verifier::spinoff_prover]
proof fn lemma_proc_timing_part3(x: TimingPerformanceV, m: NmapScanV, rest: Seq<Seq<char>>)
    requires
        wf_timing(x),
        m.timing.script_timeout is None,
        m.timing.scan_delay is None,
        m.timing.max_scan_delay is None,
        m.timing.min_rate is None,
        m.timing.max_rate is None,
    ensures
        proc_tokens(val_tok(x.script_timeout, "--script-timeout"@) + val_tok(x.scan_delay, "--scan-delay"@) + val_tok(x.max_scan_delay, "--max-scan-delay"@) + num_tok(match x.min_rate { Some(n) => Some(n as nat), None => None }, "--min-rate"@) + num_tok(match x.max_rate { Some(n) => Some(n as nat), None => None }, "--max-rate"@) + rest, m) == proc_tokens(
            rest,
            NmapScanV {
                timing: TimingPerformanceV {
                    script_timeout: x.script_timeout, scan_delay: x.scan_delay, max_scan_delay: x.max_scan_delay, min_rate: x.min_rate, max_rate: x.max_rate,
                    ..m.timing
                },
                ..m
            },
        ),
{
    let g1 = val_tok(x.script_timeout, "--script-timeout"@);
    let g2 = val_tok(x.scan_delay, "--scan-delay"@);
    let g3 = val_tok(x.max_scan_delay, "--max-scan-delay"@);
    let g4 = num_tok(match x.min_rate { Some(n) => Some(n as nat), None => None }, "--min-rate"@);
    let g5 = num_tok(match x.max_rate { Some(n) => Some(n as nat), None => None }, "--max-rate"@);
    let r5 = rest;
    let r4 = g5 + r5;
    let r3 = g4 + r4;
    let r2 = g3 + r3;
    let r1 = g2 + r2;
    let r0 = g1 + r1;
    vstd::seq_lib::lemma_concat_associative(g1 + g2 + g3 + g4, g5, r5);
    vstd::seq_lib::lemma_concat_associative(g1 + g2 + g3, g4, r4);
    vstd::seq_lib::lemma_concat_associative(g1 + g2, g3, r3);
    vstd::seq_lib::lemma_concat_associative(g1, g2, r2);
    assert(g1 + g2 + g3 + g4 + g5 + rest == r0);
    let m0 = m;
    let m1 = match x.script_timeout { Some(p) => NmapScanV { timing: TimingPerformanceV { script_timeout: Some(p), ..m0.timing }, ..m0 }, None => m0 };
    assert(proc_tokens(r0, m0) == proc_tokens(r1, m1)) by {
        match x.script_timeout {
            Some(p) => {
                lit_chars_70();
                lemma_flag_timing_script_timeout(m0, p);
                assert(r0 =~= seq!["--script-timeout"@, p] + r1);
                lemma_step_ok1(m0, m1, "--script-timeout"@, p, r1);
            },
            None => {
                assert(r0 =~= r1);
            },
        }
    }
    let m2 = match x.scan_delay { Some(p) => NmapScanV { timing: TimingPerformanceV { scan_delay: Some(p), ..m1.timing }, ..m1 }, None => m1 };
    assert(proc_tokens(r1, m1) == proc_tokens(r2, m2)) by {
        match x.scan_delay {
            Some(p) => {
                lit_chars_71();
                lemma_flag_timing_scan_delay(m1, p);
                assert(r1 =~= seq!["--scan-delay"@, p] + r2);
                lemma_step_ok1(m1, m2, "--scan-delay"@, p, r2);
            },
            None => {
                assert(r1 =~= r2);
            },
        }
    }
    let m3 = match x.max_scan_delay { Some(p) => NmapScanV { timing: TimingPerformanceV { max_scan_delay: Some(p), ..m2.timing }, ..m2 }, None => m2 };
    assert(proc_tokens(r2, m2) == proc_tokens(r3, m3)) by {
        match x.max_scan_delay {
            Some(p) => {
                lit_chars_72();
                lemma_flag_timing_max_scan_delay(m2, p);
                assert(r2 =~= seq!["--max-scan-delay"@, p] + r3);
                lemma_step_ok1(m2, m3, "--max-scan-delay"@, p, r3);
            },
            None => {
                assert(r2 =~= r3);
            },
        }
    }
    let m4 = match x.min_rate { Some(p) => NmapScanV { timing: TimingPerformanceV { min_rate: Some(p), ..m3.timing }, ..m3 }, None => m3 };
    assert(proc_tokens(r3, m3) == proc_tokens(r4, m4)) by {
        match x.min_rate {
            Some(p) => {
                lit_chars_73();
                lemma_flag_timing_min_rate(m3, p);
                assert(r3 =~= seq!["--min-rate"@, dec_text(p as nat)] + r4);
                lemma_step_ok1(m3, m4, "--min-rate"@, dec_text(p as nat), r4);
            },
            None => {
                assert(r3 =~= r4);
            },
        }
    }
    let m5 = match x.max_rate { Some(p) => NmapScanV { timing: TimingPerformanceV { max_rate: Some(p), ..m4.timing }, ..m4 }, None => m4 };
    assert(proc_tokens(r4, m4) == proc_tokens(r5, m5)) by {
        match x.max_rate {
            Some(p) => {
                lit_chars_74();
                lemma_flag_timing_max_rate(m4, p);
                assert(r4 =~= seq!["--max-rate"@, dec_text(p as nat)] + r5);
                lemma_step_ok1(m4, m5, "--max-rate"@, dec_text(p as nat), r5);
            },
            None => {
                assert(r4 =~= r5);
            },
        }
    }
    assert(m5 =~= NmapScanV {
        timing: TimingPerformanceV {
            script_timeout: x.script_timeout, scan_delay: x.scan_delay, max_scan_delay: x.max_scan_delay, min_rate: x.min_rate, max_rate: x.max_rate,
            ..m.timing
        },
        ..m
    });
}

#[verifier::rlimit(100)]
#[verifier::spinoff_prover]
proof fn lemma_proc_timing_part4(x: TimingPerformanceV, m: NmapScanV, rest: Seq<Seq<char>>)
    requires
        wf_timing(x),
        m.timing.defeat_rst_ratelimit == false,
        m.timing.defeat_icmp_ratelimit == false,
        m.timing.nsock_engine is None,
    ensures
        proc_tokens(flag_tok(x.defeat_rst_ratelimit, "--defeat-rst-ratelimit"@) + flag_tok(x.defeat_icmp_ratelimit, "--defeat-icmp-ratelimit"@) + val_tok(x.nsock_engine, "--nsock-engine"@) + rest, m) == proc_tokens(
            rest,
            NmapScanV {
                timing: TimingPerformanceV {
                    defeat_rst_ratelimit: x.defeat_rst_ratelimit, defeat_icmp_ratelimit: x.defeat_icmp_ratelimit, nsock_engine: x.nsock_engine,
                    ..m.timing
                },
                ..m
            },
        ),
{
    let g1 = flag_tok(x.defeat_rst_ratelimit, "--defeat-rst-ratelimit"@);
    let g2 = flag_tok(x.defeat_icmp_ratelimit, "--defeat-icmp-ratelimit"@);
    let g3 = val_tok(x.nsock_engine, "--nsock-engine"@);
    let r3 = rest;
    let r2 = g3 + r3;
    let r1 = g2 + r2;
    let r0 = g1 + r1;
    vstd::seq_lib::lemma_concat_associative(g1 + g2, g3, r3);
    vstd::seq_lib::lemma_concat_associative(g1, g2, r2);
    assert(g1 + g2 + g3 + rest == r0);
    let m0 = m;
    let m1 = if x.defeat_rst_ratelimit { NmapScanV { timing: TimingPerformanceV { defeat_rst_ratelimit: true, ..m0.timing }, ..m0 } } else { m0 };
    assert(proc_tokens(r0, m0) == proc_tokens(r1, m1)) by {
        if x.defeat_rst_ratelimit {
            lit_chars_75();
            lemma_flag_timing_defeat_rst_ratelimit(m0, (if r1.len() > 0 { Some(r1[0]) } else { None }));
            assert(r0 =~= seq!["--defeat-rst-ratelimit"@] + r1);
            lemma_step_ok0(m0, m1, "--defeat-rst-ratelimit"@, r1);
        } else {
            assert(r0 =~= r1);
        }
    }
    let m2 = if x.defeat_icmp_ratelimit { NmapScanV { timing: TimingPerformanceV { defeat_icmp_ratelimit: true, ..m1.timing }, ..m1 } } else { m1 };
    assert(proc_tokens(r1, m1) == proc_tokens(r2, m2)) by {
        if x.defeat_icmp_ratelimit {
            lit_chars_76();
            lemma_flag_timing_defeat_icmp_ratelimit(m1, (if r2.len() > 0 { Some(r2[0]) } else { None }));
            assert(r1 =~= seq!["--defeat-icmp-ratelimit"@] + r2);
            lemma_step_ok0(m1, m2, "--defeat-icmp-ratelimit"@, r2);
        } else {
            assert(r1 =~= r2);
        }
    }
    let m3 = match x.nsock_engine { Some(p) => NmapScanV { timing: TimingPerformanceV { nsock_engine: Some(p), ..m2.timing }, ..m2 }, None => m2 };
    assert(proc_tokens(r2, m2) == proc_tokens(r3, m3)) by {
        match x.nsock_engine {
            Some(p) => {
                lit_chars_77();
                lemma_flag_timing_nsock_engine(m2, p);
                assert(r2 =~= seq!["--nsock-engine"@, p] + r3);
                lemma_step_ok1(m2, m3, "--nsock-engine"@, p, r3);
            },
            None => {
                assert(r2 =~= r3);
            },
        }
    }
    assert(m3 =~= NmapScanV {
        timing: TimingPerformanceV {
            defeat_rst_ratelimit: x.defeat_rst_ratelimit, defeat_icmp_ratelimit: x.defeat_icmp_ratelimit, nsock_engine: x.nsock_engine,
            ..m.timing
        },
        ..m
    });
}

/// Reparsing the built timing tokens restores that section.
#[verifier::rlimit(100)]
#[verifier::spinoff_prover]
pub proof fn lemma_proc_timing(x: TimingPerformanceV, m: NmapScanV, rest: Seq<Seq<char>>)
    requires
        wf_timing(x),
        m.timing == timing_performance_default(),
    ensures
        proc_tokens(timing_performance_tokens(x) + rest, m) == proc_tokens(
            rest,
            NmapScanV { timing: x, ..m },
        ),
{
    let g1 = template_tok(x.template);
    let g2 = num_tok(match x.min_hostgroup { Some(n) => Some(n as nat), None => None }, "--min-hostgroup"@);
    let g3 = num_tok(match x.max_hostgroup { Some(n) => Some(n as nat), None => None }, "--max-hostgroup"@);
    let g4 = num_tok(match x.min_parallelism { Some(n) => Some(n as nat), None => None }, "--min-parallelism"@);
    let g5 = num_tok(match x.max_parallelism { Some(n) => Some(n as nat), None => None }, "--max-parallelism"@);
    let g6 = val_tok(x.min_rtt_timeout, "--min-rtt-timeout"@);
    let g7 = val_tok(x.max_rtt_timeout, "--max-rtt-timeout"@);
    let g8 = val_tok(x.initial_rtt_timeout, "--initial-rtt-timeout"@);
    let g9 = num_tok(match x.max_retries { Some(n) => Some(n as nat), None => None }, "--max-retries"@);
    let g10 = val_tok(x.host_timeout, "--host-timeout"@);
    let g11 = val_tok(x.script_timeout, "--script-timeout"@);
    let g12 = val_tok(x.scan_delay, "--scan-delay"@);
    let g13 = val_tok(x.max_scan_delay, "--max-scan-delay"@);
    let g14 = num_tok(match x.min_rate { Some(n) => Some(n as nat), None => None }, "--min-rate"@);
    let g15 = num_tok(match x.max_rate { Some(n) => Some(n as nat), None => None }, "--max-rate"@);
    let g16 = flag_tok(x.defeat_rst_ratelimit, "--defeat-rst-ratelimit"@);
    let g17 = flag_tok(x.defeat_icmp_ratelimit, "--defeat-icmp-ratelimit"@);
    let g18 = val_tok(x.nsock_engine, "--nsock-engine"@);
    let c1 = g1 + g2 + g3 + g4 + g5;
    let c2 = g6 + g7 + g8 + g9 + g10;
    let c3 = g11 + g12 + g13 + g14 + g15;
    let c4 = g16 + g17 + g18;
    vstd::seq_lib::lemma_concat_associative(c1, g6, g7);
    vstd::seq_lib::lemma_concat_associative(c1, g6 + g7, g8);
    vstd::seq_lib::lemma_concat_associative(c1, g6 + g7 + g8, g9);
    vstd::seq_lib::lemma_concat_associative(c1, g6 + g7 + g8 + g9, g10);
    vstd::seq_lib::lemma_concat_associative(c1 + c2, g11, g12);
    vstd::seq_lib::lemma_concat_associative(c1 + c2, g11 + g12, g13);
    vstd::seq_lib::lemma_concat_associative(c1 + c2, g11 + g12 + g13, g14);
    vstd::seq_lib::lemma_concat_associative(c1 + c2, g11 + g12 + g13 + g14, g15);
    vstd::seq_lib::lemma_concat_associative(c1 + c2 + c3, g16, g17);
    vstd::seq_lib::lemma_concat_associative(c1 + c2 + c3, g16 + g17, g18);
    assert(timing_performance_tokens(x) == c1 + c2 + c3 + c4);
    let q4 = rest;
    let q3 = c4 + q4;
    let q2 = c3 + q3;
    let q1 = c2 + q2;
    let q0 = c1 + q1;
    vstd::seq_lib::lemma_concat_associative(c1 + c2 + c3, c4, q4);
    vstd::seq_lib::lemma_concat_associative(c1 + c2, c3, q3);
    vstd::seq_lib::lemma_concat_associative(c1, c2, q2);
    assert(timing_performance_tokens(x) + rest == q0);
    let n0 = m;
    lemma_proc_timing_part1(x, n0, q1);
    let n1 = NmapScanV {
        timing: TimingPerformanceV {
            template: x.template, min_hostgroup: x.min_hostgroup, max_hostgroup: x.max_hostgroup, min_parallelism: x.min_parallelism, max_parallelism: x.max_parallelism,
            ..n0.timing
        },
        ..n0
    };
    assert(proc_tokens(q0, n0) == proc_tokens(q1, n1));
    lemma_proc_timing_part2(x, n1, q2);
    let n2 = NmapScanV {
        timing: TimingPerformanceV {
            min_rtt_timeout: x.min_rtt_timeout, max_rtt_timeout: x.max_rtt_timeout, initial_rtt_timeout: x.initial_rtt_timeout, max_retries: x.max_retries, host_timeout: x.host_timeout,
            ..n1.timing
        },
        ..n1
    };
    assert(proc_tokens(q1, n1) == proc_tokens(q2, n2));
    lemma_proc_timing_part3(x, n2, q3);
    let n3 = NmapScanV {
        timing: TimingPerformanceV {
            script_timeout: x.script_timeout, scan_delay: x.scan_delay, max_scan_delay: x.max_scan_delay, min_rate: x.min_rate, max_rate: x.max_rate,
            ..n2.timing
        },
        ..n2
    };
    assert(proc_tokens(q2, n2) == proc_tokens(q3, n3));
    lemma_proc_timing_part4(x, n3, q4);
    let n4 = NmapScanV {
        timing: TimingPerformanceV {
            defeat_rst_ratelimit: x.defeat_rst_ratelimit, defeat_icmp_ratelimit: x.defeat_icmp_ratelimit, nsock_engine: x.nsock_engine,
            ..n3.timing
        },
        ..n3
    };
    assert(proc_tokens(q3, n3) == proc_tokens(q4, n4));
    assert(n4 =~= NmapScanV { timing: x, ..m });
}

#[verifier::rlimit(100)]
#[verifier::spinoff_prover]
proof fn lemma_proc_evasion_part1(x: EvasionSpoofingV, m: NmapScanV, rest: Seq<Seq<char>>)
    requires
        wf_evasion(x),
        m.evasion.fragment_packets == false,
        m.evasion.mtu is None,
        m.evasion.decoys == Seq::<Seq<char>>::empty(),
        m.evasion.spoof_ip is None,
        m.evasion.interface is None,
    ensures
        proc_tokens(flag_tok(x.fragment_packets, "-f"@) + num_tok(match x.mtu { Some(n) => Some(n as nat), None => None }, "--mtu"@) + list_tok(x.decoys, "-D"@) + val_tok(x.spoof_ip, "-S"@) + val_tok(x.interface, "-e"@) + rest, m) == proc_tokens(
            rest,
            NmapScanV {
                evasion: EvasionSpoofingV {
                    fragment_packets: x.fragment_packets, mtu: x.mtu, decoys: x.decoys, spoof_ip: x.spoof_ip, interface: x.interface,
                    ..m.evasion
                },
                ..m
            },
        ),
{
    let g1 = flag_tok(x.fragment_packets, "-f"@);
    let g2 = num_tok(match x.mtu { Some(n) => Some(n as nat), None => None }, "--mtu"@);
    let g3 = list_tok(x.decoys, "-D"@);
    let g4 = val_tok(x.spoof_ip, "-S"@);
    let g5 = val_tok(x.interface, "-e"@);
    let r5 = rest;
    let r4 = g5 + r5;
    let r3 = g4 + r4;
    let r2 = g3 + r3;
    let r1 = g2 + r2;
    let r0 = g1 + r1;
    vstd::seq_lib::lemma_concat_associative(g1 + g2 + g3 + g4, g5, r5);
    vstd::seq_lib::lemma_concat_associative(g1 + g2 + g3, g4, r4);
    vstd::seq_lib::lemma_concat_associative(g1 + g2, g3, r3);
    vstd::seq_lib::lemma_concat_associative(g1, g2, r2);
    assert(g1 + g2 + g3 + g4 + g5 + rest == r0);
    let m0 = m;
    let m1 = if x.fragment_packets { NmapScanV { evasion: EvasionSpoofingV { fragment_packets: true, ..m0.evasion }, ..m0 } } else { m0 };
    assert(proc_tokens(r0, m0) == proc_tokens(r1, m1)) by {
        if x.fragment_packets {
            lit_chars_78();
            lemma_flag_evasion_fragment_packets(m0, (if r1.len() > 0 { Some(r1[0]) } else { None }));
            assert(r0 =~= seq!["-f"@] + r1);
            lemma_step_ok0(m0, m1, "-f"@, r1);
        } else {
            assert(r0 =~= r1);
        }
    }
    let m2 = match x.mtu { Some(p) => NmapScanV { evasion: EvasionSpoofingV { mtu: Some(p), ..m1.evasion }, ..m1 }, None => m1 };
    assert(proc_tokens(r1, m1) == proc_tokens(r2, m2)) by {
        match x.mtu {
            Some(p) => {
                lit_chars_79();
                lemma_flag_evasion_mtu(m1, p);
                assert(r1 =~= seq!["--mtu"@, dec_text(p as nat)] + r2);
                lemma_step_ok1(m1, m2, "--mtu"@, dec_text(p as nat), r2);
            },
            None => {
                assert(r1 =~= r2);
            },
        }
    }
    let m3 = if x.decoys.len() > 0 { NmapScanV { evasion: EvasionSpoofingV { decoys: x.decoys, ..m2.evasion }, ..m2 } } else { m2 };
    assert(proc_tokens(r2, m2) == proc_tokens(r3, m3)) by {
        if x.decoys.len() > 0 {
            lit_chars_80();
            lemma_flag_evasion_decoys(m2, x.decoys);
            assert(r2 =~= seq!["-D"@, join_comma(x.decoys)] + r3);
            lemma_step_ok1(m2, m3, "-D"@, join_comma(x.decoys), r3);
        } else {
            assert(r2 =~= r3);
        }
    }
    let m4 = match x.spoof_ip { Some(p) => NmapScanV { evasion: EvasionSpoofingV { spoof_ip: Some(p), ..m3.evasion }, ..m3 }, None => m3 };
    assert(proc_tokens(r3, m3) == proc_tokens(r4, m4)) by {
        match x.spoof_ip {
            Some(p) => {
                lit_chars_81();
                lemma_flag_evasion_spoof_ip(m3, p);
                assert(r3 =~= seq!["-S"@, p] + r4);
                lemma_step_ok1(m3, m4, "-S"@, p, r4);
            },
            None => {
                assert(r3 =~= r4);
            },
        }
    }
    let m5 = match x.interface { Some(p) => NmapScanV { evasion: EvasionSpoofingV { interface: Some(p), ..m4.evasion }, ..m4 }, None => m4 };
    assert(proc_tokens(r4, m4) == proc_tokens(r5, m5)) by {
        match x.interface {
            Some(p) => {
                lit_chars_82();
                lemma_flag_evasion_interface(m4, p);
                assert(r4 =~= seq!["-e"@, p] + r5);
                lemma_step_ok1(m4, m5, "-e"@, p, r5);
            },
            None => {
                assert(r4 =~= r5);
            },
        }
    }
    assert(m5 =~= NmapScanV {
        evasion: EvasionSpoofingV {
            fragment_packets: x.fragment_packets, mtu: x.mtu, decoys: x.decoys, spoof_ip: x.spoof_ip, interface: x.interface,
            ..m.evasion
        },
        ..m
    });
}

#[verifier::rlimit(100)]
#[verifier::spinoff_prover]
proof fn lemma_proc_evasion_part2(x: EvasionSpoofingV, m: NmapScanV, rest: Seq<Seq<char>>)
    requires
        wf_evasion(x),
        m.evasion.source_port is None,
        m.evasion.data is None,
        m.evasion.data_string is None,
        m.evasion.data_length is None,
        m.evasion.ip_options is None,
    ensures
        proc_tokens(num_tok(match x.source_port { Some(n) => Some(n as nat), None => None }, "-g"@) + val_tok(x.data, "--data"@) + val_tok(x.data_string, "--data-string"@) + num_tok(match x.data_length { Some(n) => Some(n as nat), None => None }, "--data-length"@) + val_tok(x.ip_options, "--ip-options"@) + rest, m) == proc_tokens(
            rest,
            NmapScanV {
                evasion: EvasionSpoofingV {
                    source_port: x.source_port, data: x.data, data_string: x.data_string, data_length: x.data_length, ip_options: x.ip_options,
                    ..m.evasion
                },
                ..m
            },
        ),
{
    let g1 = num_tok(match x.source_port { Some(n) => Some(n as nat), None => None }, "-g"@);
    let g2 = val_tok(x.data, "--data"@);
    let g3 = val_tok(x.data_string, "--data-string"@);
    let g4 = num_tok(match x.data_length { Some(n) => Some(n as nat), None => None }, "--data-length"@);
    let g5 = val_tok(x.ip_options, "--ip-options"@);
    let r5 = rest;
    let r4 = g5 + r5;
    let r3 = g4 + r4;
    let r2 = g3 + r3;
    let r1 = g2 + r2;
    let r0 = g1 + r1;
    vstd::seq_lib::lemma_concat_associative(g1 + g2 + g3 + g4, g5, r5);
    vstd::seq_lib::lemma_concat_associative(g1 + g2 + g3, g4, r4);
    vstd::seq_lib::lemma_concat_associative(g1 + g2, g3, r3);
    vstd::seq_lib::lemma_concat_associative(g1, g2, r2);
    assert(g1 + g2 + g3 + g4 + g5 + rest == r0);
    let m0 = m;
    let m1 = match x.source_port { Some(p) => NmapScanV { evasion: EvasionSpoofingV { source_port: Some(p), ..m0.evasion }, ..m0 }, None => m0 };
    assert(proc_tokens(r0, m0) == proc_tokens(r1, m1)) by {
        match x.source_port {
            Some(p) => {
                lit_chars_83();
                lemma_flag_evasion_source_port(m0, p);
                assert(r0 =~= seq!["-g"@, dec_text(p as nat)] + r1);
                lemma_step_ok1(m0, m1, "-g"@, dec_text(p as nat), r1);
            },
            None => {
                assert(r0 =~= r1);
            },
        }
    }
    let m2 = match x.data { Some(p) => NmapScanV { evasion: EvasionSpoofingV { data: Some(p), ..m1.evasion }, ..m1 }, None => m1 };
    assert(proc_tokens(r1, m1) == proc_tokens(r2, m2)) by {
        match x.data {
            Some(p) => {
                lit_chars_85();
                lemma_flag_evasion_data(m1, p);
                assert(r1 =~= seq!["--data"@, p] + r2);
                lemma_step_ok1(m1, m2, "--data"@, p, r2);
            },
            None => {
                assert(r1 =~= r2);
            },
        }
    }
    let m3 = match x.data_string { Some(p) => NmapScanV { evasion: EvasionSpoofingV { data_string: Some(p), ..m2.evasion }, ..m2 }, None => m2 };
    assert(proc_tokens(r2, m2) == proc_tokens(r3, m3)) by {
        match x.data_string {
            Some(p) => {
                lit_chars_86();
                lemma_flag_evasion_data_string(m2, p);
                assert(r2 =~= seq!["--data-string"@, p] + r3);
                lemma_step_ok1(m2, m3, "--data-string"@, p, r3);
            },
            None => {
                assert(r2 =~= r3);
            },
        }
    }
    let m4 = match x.data_length { Some(p) => NmapScanV { evasion: EvasionSpoofingV { data_length: Some(p), ..m3.evasion }, ..m3 }, None => m3 };
    assert(proc_tokens(r3, m3) == proc_tokens(r4, m4)) by {
        match x.data_length {
            Some(p) => {
                lit_chars_87();
                lemma_flag_evasion_data_length(m3, p);
                assert(r3 =~= seq!["--data-length"@, dec_text(p as nat)] + r4);
                lemma_step_ok1(m3, m4, "--data-length"@, dec_text(p as nat), r4);
            },
            None => {
                assert(r3 =~= r4);
            },
        }
    }
    let m5 = match x.ip_options { Some(p) => NmapScanV { evasion: EvasionSpoofingV { ip_options: Some(p), ..m4.evasion }, ..m4 }, None => m4 };
    assert(proc_tokens(r4, m4) == proc_tokens(r5, m5)) by {
        match x.ip_options {
            Some(p) => {
                lit_chars_88();
                lemma_flag_evasion_ip_options(m4, p);
                assert(r4 =~= seq!["--ip-options"@, p] + r5);
                lemma_step_ok1(m4, m5, "--ip-options"@, p, r5);
            },
            None => {
                assert(r4 =~= r5);
            },
        }
    }
    assert(m5 =~= NmapScanV {
        evasion: EvasionSpoofingV {
            source_port: x.source_port, data: x.data, data_string: x.data_string, data_length: x.data_length, ip_options: x.ip_options,
            ..m.evasion
        },
        ..m
    });
}

#[verifier::rlimit(100)]
#[verifier::spinoff_prover]
proof fn lemma_proc_evasion_part3(x: EvasionSpoofingV, m: NmapScanV, rest: Seq<Seq<char>>)
    requires
        wf_evasion(x),
        m.evasion.ttl is None,
        m.evasion.randomize_hosts == false,
        m.evasion.spoof_mac is None,
        m.evasion.badsum == false,
        m.evasion.adler32 == false,
    ensures
        proc_tokens(num_tok(match x.ttl { Some(n) => Some(n as nat), None => None }, "--ttl"@) + flag_tok(x.randomize_hosts, "--randomize-hosts"@) + val_tok(x.spoof_mac, "--spoof-mac"@) + flag_tok(x.badsum, "--badsum"@) + flag_tok(x.adler32, "--adler32"@) + rest, m) == proc_tokens(
            rest,
            NmapScanV {
                evasion: EvasionSpoofingV {
                    ttl: x.ttl, randomize_hosts: x.randomize_hosts, spoof_mac: x.spoof_mac, badsum: x.badsum, adler32: x.adler32,
                    ..m.evasion
                },
                ..m
            },
        ),
{
    let g1 = num_tok(match x.ttl { Some(n) => Some(n as nat), None => None }, "--ttl"@);
    let g2 = flag_tok(x.randomize_hosts, "--randomize-hosts"@);
    let g3 = val_tok(x.spoof_mac, "--spoof-mac"@);
    let g4 = flag_tok(x.badsum, "--badsum"@);
    let g5 = flag_tok(x.adler32, "--adler32"@);
    let r5 = rest;
    let r4 = g5 + r5;
    let r3 = g4 + r4;
    let r2 = g3 + r3;
    let r1 = g2 + r2;
    let r0 = g1 + r1;
    vstd::seq_lib::lemma_concat_associative(g1 + g2 + g3 + g4, g5, r5);
    vstd::seq_lib::lemma_concat_associative(g1 + g2 + g3, g4, r4);
    vstd::seq_lib::lemma_concat_associative(g1 + g2, g3, r3);
    vstd::seq_lib::lemma_concat_associative(g1, g2, r2);
    assert(g1 + g2 + g3 + g4 + g5 + rest == r0);
    let m0 = m;
    let m1 = match x.ttl { Some(p) => NmapScanV { evasion: EvasionSpoofingV { ttl: Some(p), ..m0.evasion }, ..m0 }, None => m0 };
    assert(proc_tokens(r0, m0) == proc_tokens(r1, m1)) by {
        match x.ttl {
            Some(p) => {
                lit_chars_89();
                lemma_flag_evasion_ttl(m0, p);
                assert(r0 =~= seq!["--ttl"@, dec_text(p as nat)] + r1);
                lemma_step_ok1(m0, m1, "--ttl"@, dec_text(p as nat), r1);
            },
            None => {
                assert(r0 =~= r1);
            },
        }
    }
    let m2 = if x.randomize_hosts { NmapScanV { evasion: EvasionSpoofingV { randomize_hosts: true, ..m1.evasion }, ..m1 } } else { m1 };
    assert(proc_tokens(r1, m1) == proc_tokens(r2, m2)) by {
        if x.randomize_hosts {
            lit_chars_90();
            lemma_flag_evasion_randomize_hosts(m1, (if r2.len() > 0 { Some(r2[0]) } else { None }));
            assert(r1 =~= seq!["--randomize-hosts"@] + r2);
            lemma_step_ok0(m1, m2, "--randomize-hosts"@, r2);
        } else {
            assert(r1 =~= r2);
        }
    }
    let m3 = match x.spoof_mac { Some(p) => NmapScanV { evasion: EvasionSpoofingV { spoof_mac: Some(p), ..m2.evasion }, ..m2 }, None => m2 };
    assert(proc_tokens(r2, m2) == proc_tokens(r3, m3)) by {
        match x.spoof_mac {
            Some(p) => {
                lit_chars_91();
                lemma_flag_evasion_spoof_mac(m2, p);
                assert(r2 =~= seq!["--spoof-mac"@, p] + r3);
                lemma_step_ok1(m2, m3, "--spoof-mac"@, p, r3);
            },
            None => {
                assert(r2 =~= r3);
            },
        }
    }
    let m4 = if x.badsum { NmapScanV { evasion: EvasionSpoofingV { badsum: true, ..m3.evasion }, ..m3 } } else { m3 };
    assert(proc_tokens(r3, m3) == proc_tokens(r4, m4)) by {
        if x.badsum {
            lit_chars_92();
            lemma_flag_evasion_badsum(m3, (if r4.len() > 0 { Some(r4[0]) } else { None }));
            assert(r3 =~= seq!["--badsum"@] + r4);
            lemma_step_ok0(m3, m4, "--badsum"@, r4);
        } else {
            assert(r3 =~= r4);
        }
    }
    let m5 = if x.adler32 { NmapScanV { evasion: EvasionSpoofingV { adler32: true, ..m4.evasion }, ..m4 } } else { m4 };
    assert(proc_tokens(r4, m4) == proc_tokens(r5, m5)) by {
        if x.adler32 {
            lit_chars_93();
            lemma_flag_evasion_adler32(m4, (if r5.len() > 0 { Some(r5[0]) } else { None }));
            assert(r4 =~= seq!["--adler32"@] + r5);
            lemma_step_ok0(m4, m5, "--adler32"@, r5);
        } else {
            assert(r4 =~= r5);
        }
    }
    assert(m5 =~= NmapScanV {
        evasion: EvasionSpoofingV {
            ttl: x.ttl, randomize_hosts: x.randomize_hosts, spoof_mac: x.spoof_mac, badsum: x.badsum, adler32: x.adler32,
            ..m.evasion
        },
        ..m
    });
}

/// Reparsing the built evasion tokens restores that section.
#[verifier::rlimit(100)]
#[verifier::spinoff_prover]
pub proof fn lemma_proc_evasion(x: EvasionSpoofingV, m: NmapScanV, rest: Seq<Seq<char>>)
    requires
        wf_evasion(x),
        m.evasion == evasion_spoofing_default(),
    ensures
        proc_tokens(evasion_spoofing_tokens(x) + rest, m) == proc_tokens(
            rest,
            NmapScanV { evasion: x, ..m },
        ),
{
    let g1 = flag_tok(x.fragment_packets, "-f"@);
    let g2 = num_tok(match x.mtu { Some(n) => Some(n as nat), None => None }, "--mtu"@);
    let g3 = list_tok(x.decoys, "-D"@);
    let g4 = val_tok(x.spoof_ip, "-S"@);
    let g5 = val_tok(x.interface, "-e"@);
    let g6 = num_tok(match x.source_port { Some(n) => Some(n as nat), None => None }, "-g"@);
    let g7 = val_tok(x.data, "--data"@);
    let g8 = val_tok(x.data_string, "--data-string"@);
    let g9 = num_tok(match x.data_length { Some(n) => Some(n as nat), None => None }, "--data-length"@);
    let g10 = val_tok(x.ip_options, "--ip-options"@);
    let g11 = num_tok(match x.ttl { Some(n) => Some(n as nat), None => None }, "--ttl"@);
    let g12 = flag_tok(x.randomize_hosts, "--randomize-hosts"@);
    let g13 = val_tok(x.spoof_mac, "--spoof-mac"@);
    let g14 = flag_tok(x.badsum, "--badsum"@);
    let g15 = flag_tok(x.adler32, "--adler32"@);
    let c1 = g1 + g2 + g3 + g4 + g5;
    let c2 = g6 + g7 + g8 + g9 + g10;
    let c3 = g11 + g12 + g13 + g14 + g15;
    vstd::seq_lib::lemma_concat_associative(c1, g6, g7);
    vstd::seq_lib::lemma_concat_associative(c1, g6 + g7, g8);
    vstd::seq_lib::lemma_concat_associative(c1, g6 + g7 + g8, g9);
    vstd::seq_lib::lemma_concat_associative(c1, g6 + g7 + g8 + g9, g10);
    vstd::seq_lib::lemma_concat_associative(c1 + c2, g11, g12);
    vstd::seq_lib::lemma_concat_associative(c1 + c2, g11 + g12, g13);
    vstd::seq_lib::lemma_concat_associative(c1 + c2, g11 + g12 + g13, g14);
    vstd::seq_lib::lemma_concat_associative(c1 + c2, g11 + g12 + g13 + g14, g15);
    assert(evasion_spoofing_tokens(x) == c1 + c2 + c3);
    let q3 = rest;
    let q2 = c3 + q3;
    let q1 = c2 + q2;
    let q0 = c1 + q1;
    vstd::seq_lib::lemma_concat_associative(c1 + c2, c3, q3);
    vstd::seq_lib::lemma_concat_associative(c1, c2, q2);
    assert(evasion_spoofing_tokens(x) + rest == q0);
    let n0 = m;
    lemma_proc_evasion_part1(x, n0, q1);
    let n1 = NmapScanV {
        evasion: EvasionSpoofingV {
            fragment_packets: x.fragment_packets, mtu: x.mtu, decoys: x.decoys, spoof_ip: x.spoof_ip, interface: x.interface,
            ..n0.evasion
        },
        ..n0
    };
    assert(proc_tokens(q0, n0) == proc_tokens(q1, n1));
    lemma_proc_evasion_part2(x, n1, q2);
    let n2 = NmapScanV {
        evasion: EvasionSpoofingV {
            source_port: x.source_port, data: x.data, data_string: x.data_string, data_length: x.data_length, ip_options: x.ip_options,
            ..n1.evasion
        },
        ..n1
    };
    assert(proc_tokens(q1, n1) == proc_tokens(q2, n2));
    lemma_proc_evasion_part3(x, n2, q3);
    let n3 = NmapScanV {
        evasion: EvasionSpoofingV {
            ttl: x.ttl, randomize_hosts: x.randomize_hosts, spoof_mac: x.spoof_mac, badsum: x.badsum, adler32: x.adler32,
            ..n2.evasion
        },
        ..n2
    };
    assert(proc_tokens(q2, n2) == proc_tokens(q3, n3));
    assert(n3 =~= NmapScanV { evasion: x, ..m });
}

#[verifier::rlimit(100)]
#[verifier::spinoff_prover]
proof fn lemma_proc_output_part1(x: OutputOptionsV, m: NmapScanV, rest: Seq<Seq<char>>)
    requires
        wf_output(x),
        m.output.normal is None,
        m.output.xml is None,
        m.output.script_kiddie is None,
        m.output.grepable is None,
        m.output.all_formats is None,
    ensures
        proc_tokens(val_tok(x.normal, "-oN"@) + val_tok(x.xml, "-oX"@) + val_tok(x.script_kiddie, "-oS"@) + val_tok(x.grepable, "-oG"@) + val_tok(x.all_formats, "-oA"@) + rest, m) == proc_tokens(
            rest,
            NmapScanV {
                output: OutputOptionsV {
                    normal: x.normal, xml: x.xml, script_kiddie: x.script_kiddie, grepable: x.grepable, all_formats: x.all_formats,
                    ..m.output
                },
                ..m
            },
        ),
{
    let g1 = val_tok(x.normal, "-oN"@);
    let g2 = val_tok(x.xml, "-oX"@);
    let g3 = val_tok(x.script_kiddie, "-oS"@);
    let g4 = val_tok(x.grepable, "-oG"@);
    let g5 = val_tok(x.all_formats, "-oA"@);
    let r5 = rest;
    let r4 = g5 + r5;
    let r3 = g4 + r4;
    let r2 = g3 + r3;
    let r1 = g2 + r2;
    let r0 = g1 + r1;
    vstd::seq_lib::lemma_concat_associative(g1 + g2 + g3 + g4, g5, r5);
    vstd::seq_lib::lemma_concat_associative(g1 + g2 + g3, g4, r4);
    vstd::seq_lib::lemma_concat_associative(g1 + g2, g3, r3);
    vstd::seq_lib::lemma_concat_associative(g1, g2, r2);
    assert(g1 + g2 + g3 + g4 + g5 + rest == r0);
    let m0 = m;
    let m1 = match x.normal { Some(p) => NmapScanV { output: OutputOptionsV { normal: Some(p), ..m0.output }, ..m0 }, None => m0 };
    assert(proc_tokens(r0, m0) == proc_tokens(r1, m1)) by {
        match x.normal {
            Some(p) => {
                lit_chars_94();
                lemma_flag_output_normal(m0, p);
                assert(r0 =~= seq!["-oN"@, p] + r1);
                lemma_step_ok1(m0, m1, "-oN"@, p, r1);
            },
            None => {
                assert(r0 =~= r1);
            },
        }
    }
    let m2 = match x.xml { Some(p) => NmapScanV { output: OutputOptionsV { xml: Some(p), ..m1.output }, ..m1 }, None => m1 };
    assert(proc_tokens(r1, m1) == proc_tokens(r2, m2)) by {
        match x.xml {
            Some(p) => {
                lit_chars_95();
                lemma_flag_output_xml(m1, p);
                assert(r1 =~= seq!["-oX"@, p] + r2);
                lemma_step_ok1(m1, m2, "-oX"@, p, r2);
            },
            None => {
                assert(r1 =~= r2);
            },
        }
    }
    let m3 = match x.script_kiddie { Some(p) => NmapScanV { output: OutputOptionsV { script_kiddie: Some(p), ..m2.output }, ..m2 }, None => m2 };
    assert(proc_tokens(r2, m2) == proc_tokens(r3, m3)) by {
        match x.script_kiddie {
            Some(p) => {
                lit_chars_96();
                lemma_flag_output_script_kiddie(m2, p);
                assert(r2 =~= seq!["-oS"@, p] + r3);
                lemma_step_ok1(m2, m3, "-oS"@, p, r3);
            },
            None => {
                assert(r2 =~= r3);
            },
        }
    }
    let m4 = match x.grepable { Some(p) => NmapScanV { output: OutputOptionsV { grepable: Some(p), ..m3.output }, ..m3 }, None => m3 };
    assert(proc_tokens(r3, m3) == proc_tokens(r4, m4)) by {
        match x.grepable {
            Some(p) => {
                lit_chars_97();
                lemma_flag_output_grepable(m3, p);
                assert(r3 =~= seq!["-oG"@, p] + r4);
                lemma_step_ok1(m3, m4, "-oG"@, p, r4);
            },
            None => {
                assert(r3 =~= r4);
            },
        }
    }
    let m5 = match x.all_formats { Some(p) => NmapScanV { output: OutputOptionsV { all_formats: Some(p), ..m4.output }, ..m4 }, None => m4 };
    assert(proc_tokens(r4, m4) == proc_tokens(r5, m5)) by {
        match x.all_formats {
            Some(p) => {
                lit_chars_98();
                lemma_flag_output_all_formats(m4, p);
                assert(r4 =~= seq!["-oA"@, p] + r5);
                lemma_step_ok1(m4, m5, "-oA"@, p, r5);
            },
            None => {
                assert(r4 =~= r5);
            },
        }
    }
    assert(m5 =~= NmapScanV {
        output: OutputOptionsV {
            normal: x.normal, xml: x.xml, script_kiddie: x.script_kiddie, grepable: x.grepable, all_formats: x.all_formats,
            ..m.output
        },
        ..m
    });
}

#[verifier::rlimit(100)]
#[verifier::spinoff_prover]
proof fn lemma_proc_output_part2(x: OutputOptionsV, m: NmapScanV, rest: Seq<Seq<char>>)
    requires
        wf_output(x),
        m.output.verbose == 0,
        m.output.debug == 0,
        m.output.reason == false,
        m.output.stats_every is None,
    ensures
        proc_tokens(stacked_tok(x.verbose, "-v"@, "-vv"@) + stacked_tok(x.debug, "-d"@, "-dd"@) + flag_tok(x.reason, "--reason"@) + val_tok(x.stats_every, "--stats-every"@) + rest, m) == proc_tokens(
            rest,
            NmapScanV {
                output: OutputOptionsV {
                    verbose: x.verbose, debug: x.debug, reason: x.reason, stats_every: x.stats_every,
                    ..m.output
                },
                ..m
            },
        ),
{
    let g1 = stacked_tok(x.verbose, "-v"@, "-vv"@);
    let g2 = stacked_tok(x.debug, "-d"@, "-dd"@);
    let g3 = flag_tok(x.reason, "--reason"@);
    let g4 = val_tok(x.stats_every, "--stats-every"@);
    let r4 = rest;
    let r3 = g4 + r4;
    let r2 = g3 + r3;
    let r1 = g2 + r2;
    let r0 = g1 + r1;
    vstd::seq_lib::lemma_concat_associative(g1 + g2 + g3, g4, r4);
    vstd::seq_lib::lemma_concat_associative(g1 + g2, g3, r3);
    vstd::seq_lib::lemma_concat_associative(g1, g2, r2);
    assert(g1 + g2 + g3 + g4 + rest == r0);
    let m0 = m;
    let m1 = NmapScanV { output: OutputOptionsV { verbose: x.verbose, ..m0.output }, ..m0 };
    assert(proc_tokens(r0, m0) == proc_tokens(r1, m1)) by {
        if x.verbose == 0 {
            assert(r0 =~= r1);
            assert(m1 =~= m0);
        } else if x.verbose == 1 {
            lit_chars_99();
            lemma_flag_output_verbose_one(m0, (if r1.len() > 0 { Some(r1[0]) } else { None }));
            assert(r0 =~= seq!["-v"@] + r1);
            lemma_step_ok0(m0, m1, "-v"@, r1);
        } else if x.verbose == 2 {
            lit_chars_100();
            lemma_flag_output_verbose_two(m0, (if r1.len() > 0 { Some(r1[0]) } else { None }));
            assert(r0 =~= seq!["-vv"@] + r1);
            lemma_step_ok0(m0, m1, "-vv"@, r1);
        } else {
            assert(r0 =~= rep_tok("-v"@, x.verbose as nat) + r1);
            lemma_proc_rep_verbose(x.verbose, m0, r1);
        }
    }
    let m2 = NmapScanV { output: OutputOptionsV { debug: x.debug, ..m1.output }, ..m1 };
    assert(proc_tokens(r1, m1) == proc_tokens(r2, m2)) by {
        if x.debug == 0 {
            assert(r1 =~= r2);
            assert(m2 =~= m1);
        } else if x.debug == 1 {
            lit_chars_101();
            lemma_flag_output_debug_one(m1, (if r2.len() > 0 { Some(r2[0]) } else { None }));
            assert(r1 =~= seq!["-d"@] + r2);
            lemma_step_ok0(m1, m2, "-d"@, r2);
        } else if x.debug == 2 {
            lit_chars_102();
            lemma_flag_output_debug_two(m1, (if r2.len() > 0 { Some(r2[0]) } else { None }));
            assert(r1 =~= seq!["-dd"@] + r2);
            lemma_step_ok0(m1, m2, "-dd"@, r2);
        } else {
            assert(r1 =~= rep_tok("-d"@, x.debug as nat) + r2);
            lemma_proc_rep_debug(x.debug, m1, r2);
        }
    }
    let m3 = if x.reason { NmapScanV { output: OutputOptionsV { reason: true, ..m2.output }, ..m2 } } else { m2 };
    assert(proc_tokens(r2, m2) == proc_tokens(r3, m3)) by {
        if x.reason {
            lit_chars_103();
            lemma_flag_output_reason(m2, (if r3.len() > 0 { Some(r3[0]) } else { None }));
            assert(r2 =~= seq!["--reason"@] + r3);
            lemma_step_ok0(m2, m3, "--reason"@, r3);
        } else {
            assert(r2 =~= r3);
        }
    }
    let m4 = match x.stats_every { Some(p) => NmapScanV { output: OutputOptionsV { stats_every: Some(p), ..m3.output }, ..m3 }, None => m3 };
    assert(proc_tokens(r3, m3) == proc_tokens(r4, m4)) by {
        match x.stats_every {
            Some(p) => {
                lit_chars_104();
                lemma_flag_output_stats_every(m3, p);
                assert(r3 =~= seq!["--stats-every"@, p] + r4);
                lemma_step_ok1(m3, m4, "--stats-every"@, p, r4);
            },
            None => {
                assert(r3 =~= r4);
            },
        }
    }
    assert(m4 =~= NmapScanV {
        output: OutputOptionsV {
            verbose: x.verbose, debug: x.debug, reason: x.reason, stats_every: x.stats_every,
            ..m.output
        },
        ..m
    });
}

#[verifier::rlimit(100)]
#[verifier::spinoff_prover]
proof fn lemma_proc_output_part3(x: OutputOptionsV, m: NmapScanV, rest: Seq<Seq<char>>)
    requires
        wf_output(x),
        m.output.packet_trace == false,
        m.output.open_only == false,
        m.output.iflist == false,
        m.output.append_output == false,
        m.output.resume is None,
    ensures
        proc_tokens(flag_tok(x.packet_trace, "--packet-trace"@) + flag_tok(x.open_only, "--open"@) + flag_tok(x.iflist, "--iflist"@) + flag_tok(x.append_output, "--append-output"@) + val_tok(x.resume, "--resume"@) + rest, m) == proc_tokens(
            rest,
            NmapScanV {
                output: OutputOptionsV {
                    packet_trace: x.packet_trace, open_only: x.open_only, iflist: x.iflist, append_output: x.append_output, resume: x.resume,
                    ..m.output
                },
                ..m
            },
        ),
{
    let g1 = flag_tok(x.packet_trace, "--packet-trace"@);
    let g2 = flag_tok(x.open_only, "--open"@);
    let g3 = flag_tok(x.iflist, "--iflist"@);
    let g4 = flag_tok(x.append_output, "--append-output"@);
    let g5 = val_tok(x.resume, "--resume"@);
    let r5 = rest;
    let r4 = g5 + r5;
    let r3 = g4 + r4;
    let r2 = g3 + r3;
    let r1 = g2 + r2;
    let r0 = g1 + r1;
    vstd::seq_lib::lemma_concat_associative(g1 + g2 + g3 + g4, g5, r5);
    vstd::seq_lib::lemma_concat_associative(g1 + g2 + g3, g4, r4);
    vstd::seq_lib::lemma_concat_associative(g1 + g2, g3, r3);
    vstd::seq_lib::lemma_concat_associative(g1, g2, r2);
    assert(g1 + g2 + g3 + g4 + g5 + rest == r0);
    let m0 = m;
    let m1 = if x.packet_trace { NmapScanV { output: OutputOptionsV { packet_trace: true, ..m0.output }, ..m0 } } else { m0 };
    assert(proc_tokens(r0, m0) == proc_tokens(r1, m1)) by {
        if x.packet_trace {
            lit_chars_105();
            lemma_flag_output_packet_trace(m0, (if r1.len() > 0 { Some(r1[0]) } else { None }));
            assert(r0 =~= seq!["--packet-trace"@] + r1);
            lemma_step_ok0(m0, m1, "--packet-trace"@, r1);
        } else {
            assert(r0 =~= r1);
        }
    }
    let m2 = if x.open_only { NmapScanV { output: OutputOptionsV { open_only: true, ..m1.output }, ..m1 } } else { m1 };
    assert(proc_tokens(r1, m1) == proc_tokens(r2, m2)) by {
        if x.open_only {
            lit_chars_106();
            lemma_flag_output_open_only(m1, (if r2.len() > 0 { Some(r2[0]) } else { None }));
            assert(r1 =~= seq!["--open"@] + r2);
            lemma_step_ok0(m1, m2, "--open"@, r2);
        } else {
            assert(r1 =~= r2);
        }
    }
    let m3 = if x.iflist { NmapScanV { output: OutputOptionsV { iflist: true, ..m2.output }, ..m2 } } else { m2 };
    assert(proc_tokens(r2, m2) == proc_tokens(r3, m3)) by {
        if x.iflist {
            lit_chars_107();
            lemma_flag_output_iflist(m2, (if r3.len() > 0 { Some(r3[0]) } else { None }));
            assert(r2 =~= seq!["--iflist"@] + r3);
            lemma_step_ok0(m2, m3, "--iflist"@, r3);
        } else {
            assert(r2 =~= r3);
        }
    }
    let m4 = if x.append_output { NmapScanV { output: OutputOptionsV { append_output: true, ..m3.output }, ..m3 } } else { m3 };
    assert(proc_tokens(r3, m3) == proc_tokens(r4, m4)) by {
        if x.append_output {
            lit_chars_108();
            lemma_flag_output_append_output(m3, (if r4.len() > 0 { Some(r4[0]) } else { None }));
            assert(r3 =~= seq!["--append-output"@] + r4);
            lemma_step_ok0(m3, m4, "--append-output"@, r4);
        } else {
            assert(r3 =~= r4);
        }
    }
    let m5 = match x.resume { Some(p) => NmapScanV { output: OutputOptionsV { resume: Some(p), ..m4.output }, ..m4 }, None => m4 };
    assert(proc_tokens(r4, m4) == proc_tokens(r5, m5)) by {
        match x.resume {
            Some(p) => {
                lit_chars_109();
                lemma_flag_output_resume(m4, p);
                assert(r4 =~= seq!["--resume"@, p] + r5);
                lemma_step_ok1(m4, m5, "--resume"@, p, r5);
            },
            None => {
                assert(r4 =~= r5);
            },
        }
    }
    assert(m5 =~= NmapScanV {
        output: OutputOptionsV {
            packet_trace: x.packet_trace, open_only: x.open_only, iflist: x.iflist, append_output: x.append_output, resume: x.resume,
            ..m.output
        },
        ..m
    });
}

#[verifier::rlimit(100)]
#[verifier::spinoff_prover]
proof fn lemma_proc_output_part4(x: OutputOptionsV, m: NmapScanV, rest: Seq<Seq<char>>)
    requires
        wf_output(x),
        m.output.stylesheet is None,
        m.output.webxml == false,
        m.output.no_stylesheet == false,
    ensures
        proc_tokens(val_tok(x.stylesheet, "--stylesheet"@) + flag_tok(x.webxml, "--webxml"@) + flag_tok(x.no_stylesheet, "--no-stylesheet"@) + rest, m) == proc_tokens(
            rest,
            NmapScanV {
                output: OutputOptionsV {
                    stylesheet: x.stylesheet, webxml: x.webxml, no_stylesheet: x.no_stylesheet,
                    ..m.output
                },
                ..m
            },
        ),
{
    let g1 = val_tok(x.stylesheet, "--stylesheet"@);
    let g2 = flag_tok(x.webxml, "--webxml"@);
    let g3 = flag_tok(x.no_stylesheet, "--no-stylesheet"@);
    let r3 = rest;
    let r2 = g3 + r3;
    let r1 = g2 + r2;
    let r0 = g1 + r1;
    vstd::seq_lib::lemma_concat_associative(g1 + g2, g3, r3);
    vstd::seq_lib::lemma_concat_associative(g1, g2, r2);
    assert(g1 + g2 + g3 + rest == r0);
    let m0 = m;
    let m1 = match x.stylesheet { Some(p) => NmapScanV { output: OutputOptionsV { stylesheet: Some(p), ..m0.output }, ..m0 }, None => m0 };
    assert(proc_tokens(r0, m0) == proc_tokens(r1, m1)) by {
        match x.stylesheet {
            Some(p) => {
                lit_chars_110();
                lemma_flag_output_stylesheet(m0, p);
                assert(r0 =~= seq!["--stylesheet"@, p] + r1);
                lemma_step_ok1(m0, m1, "--stylesheet"@, p, r1);
            },
            None => {
                assert(r0 =~= r1);
            },
        }
    }
    let m2 = if x.webxml { NmapScanV { output: OutputOptionsV { webxml: true, ..m1.output }, ..m1 } } else { m1 };
    assert(proc_tokens(r1, m1) == proc_tokens(r2, m2)) by {
        if x.webxml {
            lit_chars_111();
            lemma_flag_output_webxml(m1, (if r2.len() > 0 { Some(r2[0]) } else { None }));
            assert(r1 =~= seq!["--webxml"@] + r2);
            lemma_step_ok0(m1, m2, "--webxml"@, r2);
        } else {
            assert(r1 =~= r2);
        }
    }
    let m3 = if x.no_stylesheet { NmapScanV { output: OutputOptionsV { no_stylesheet: true, ..m2.output }, ..m2 } } else { m2 };
    assert(proc_tokens(r2, m2) == proc_tokens(r3, m3)) by {
        if x.no_stylesheet {
            lit_chars_112();
            lemma_flag_output_no_stylesheet(m2, (if r3.len() > 0 { Some(r3[0]) } else { None }));
            assert(r2 =~= seq!["--no-stylesheet"@] + r3);
            lemma_step_ok0(m2, m3, "--no-stylesheet"@, r3);
        } else {
            assert(r2 =~= r3);
        }
    }
    assert(m3 =~= NmapScanV {
        output: OutputOptionsV {
            stylesheet: x.stylesheet, webxml: x.webxml, no_stylesheet: x.no_stylesheet,
            ..m.output
        },
        ..m
    });
}

/// Reparsing the built output tokens restores that section.
#[verifier::rlimit(100)]
#[verifier::spinoff_prover]
pub proof fn lemma_proc_output(x: OutputOptionsV, m: NmapScanV, rest: Seq<Seq<char>>)
    requires
        wf_output(x),
        m.output == output_options_default(),
    ensures
        proc_tokens(output_options_tokens(x) + rest, m) == proc_tokens(
            rest,
            NmapScanV { output: x, ..m },
        ),
{
    let g1 = val_tok(x.normal, "-oN"@);
    let g2 = val_tok(x.xml, "-oX"@);
    let g3 = val_tok(x.script_kiddie, "-oS"@);
    let g4 = val_tok(x.grepable, "-oG"@);
    let g5 = val_tok(x.all_formats, "-oA"@);
    let g6 = stacked_tok(x.verbose, "-v"@, "-vv"@);
    let g7 = stacked_tok(x.debug, "-d"@, "-dd"@);
    let g8 = flag_tok(x.reason, "--reason"@);
    let g9 = val_tok(x.stats_every, "--stats-every"@);
    let g10 = flag_tok(x.packet_trace, "--packet-trace"@);
    let g11 = flag_tok(x.open_only, "--open"@);
    let g12 = flag_tok(x.iflist, "--iflist"@);
    let g13 = flag_tok(x.append_output, "--append-output"@);
    let g14 = val_tok(x.resume, "--resume"@);
    let g15 = val_tok(x.stylesheet, "--stylesheet"@);
    let g16 = flag_tok(x.webxml, "--webxml"@);
    let g17 = flag_tok(x.no_stylesheet, "--no-stylesheet"@);
    let c1 = g1 + g2 + g3 + g4 + g5;
    let c2 = g6 + g7 + g8 + g9;
    let c3 = g10 + g11 + g12 + g13 + g14;
    let c4 = g15 + g16 + g17;
    vstd::seq_lib::lemma_concat_associative(c1, g6, g7);
    vstd::seq_lib::lemma_concat_associative(c1, g6 + g7, g8);
    vstd::seq_lib::lemma_concat_associative(c1, g6 + g7 + g8, g9);
    vstd::seq_lib::lemma_concat_associative(c1 + c2, g10, g11);
    vstd::seq_lib::lemma_concat_associative(c1 + c2, g10 + g11, g12);
    vstd::seq_lib::lemma_concat_associative(c1 + c2, g10 + g11 + g12, g13);
    vstd::seq_lib::lemma_concat_associative(c1 + c2, g10 + g11 + g12 + g13, g14);
    vstd::seq_lib::lemma_concat_associative(c1 + c2 + c3, g15, g16);
    vstd::seq_lib::lemma_concat_associative(c1 + c2 + c3, g15 + g16, g17);
    assert(output_options_tokens(x) == c1 + c2 + c3 + c4);
    let q4 = rest;
    let q3 = c4 + q4;
    let q2 = c3 + q3;
    let q1 = c2 + q2;
    let q0 = c1 + q1;
    vstd::seq_lib::lemma_concat_associative(c1 + c2 + c3, c4, q4);
    vstd::seq_lib::lemma_concat_associative(c1 + c2, c3, q3);
    vstd::seq_lib::lemma_concat_associative(c1, c2, q2);
    assert(output_options_tokens(x) + rest == q0);
    let n0 = m;
    lemma_proc_output_part1(x, n0, q1);
    let n1 = NmapScanV {
        output: OutputOptionsV {
            normal: x.normal, xml: x.xml, script_kiddie: x.script_kiddie, grepable: x.grepable, all_formats: x.all_formats,
            ..n0.output
        },
        ..n0
    };
    assert(proc_tokens(q0, n0) == proc_tokens(q1, n1));
    lemma_proc_output_part2(x, n1, q2);
    let n2 = NmapScanV {
        output: OutputOptionsV {
            verbose: x.verbose, debug: x.debug, reason: x.reason, stats_every: x.stats_every,
            ..n1.output
        },
        ..n1
    };
    assert(proc_tokens(q1, n1) == proc_tokens(q2, n2));
    lemma_proc_output_part3(x, n2, q3);
    let n3 = NmapScanV {
        output: OutputOptionsV {
            packet_trace: x.packet_trace, open_only: x.open_only, iflist: x.iflist, append_output: x.append_output, resume: x.resume,
            ..n2.output
        },
        ..n2
    };
    assert(proc_tokens(q2, n2) == proc_tokens(q3, n3));
    lemma_proc_output_part4(x, n3, q4);
    let n4 = NmapScanV {
        output: OutputOptionsV {
            stylesheet: x.stylesheet, webxml: x.webxml, no_stylesheet: x.no_stylesheet,
            ..n3.output
        },
        ..n3
    };
    assert(proc_tokens(q3, n3) == proc_tokens(q4, n4));
    assert(n4 =~= NmapScanV { output: x, ..m });
}

#[verifier::rlimit(100)]
#[verifier::spinoff_prover]
proof fn lemma_proc_misc_part1(x: MiscOptionsV, m: NmapScanV, rest: Seq<Seq<char>>)
    requires
        wf_misc(x),
        m.misc.ipv6 == false,
        m.misc.aggressive == false,
        m.misc.datadir is None,
    ensures
        proc_tokens(flag_tok(x.ipv6, "-6"@) + flag_tok(x.aggressive, "-A"@) + val_tok(x.datadir, "--datadir"@) + rest, m) == proc_tokens(
            rest,
            NmapScanV {
                misc: MiscOptionsV {
                    ipv6: x.ipv6, aggressive: x.aggressive, datadir: x.datadir,
                    ..m.misc
                },
                ..m
            },
        ),
{
    let g1 = flag_tok(x.ipv6, "-6"@);
    let g2 = flag_tok(x.aggressive, "-A"@);
    let g3 = val_tok(x.datadir, "--datadir"@);
    let r3 = rest;
    let r2 = g3 + r3;
    let r1 = g2 + r2;
    let r0 = g1 + r1;
    vstd::seq_lib::lemma_concat_associative(g1 + g2, g3, r3);
    vstd::seq_lib::lemma_concat_associative(g1, g2, r2);
    assert(g1 + g2 + g3 + rest == r0);
    let m0 = m;
    let m1 = if x.ipv6 { NmapScanV { misc: MiscOptionsV { ipv6: true, ..m0.misc }, ..m0 } } else { m0 };
    assert(proc_tokens(r0, m0) == proc_tokens(r1, m1)) by {
        if x.ipv6 {
            lit_chars_113();
            lemma_flag_misc_ipv6(m0, (if r1.len() > 0 { Some(r1[0]) } else { None }));
            assert(r0 =~= seq!["-6"@] + r1);
            lemma_step_ok0(m0, m1, "-6"@, r1);
        } else {
            assert(r0 =~= r1);
        }
    }
    let m2 = if x.aggressive { NmapScanV { misc: MiscOptionsV { aggressive: true, ..m1.misc }, ..m1 } } else { m1 };
    assert(proc_tokens(r1, m1) == proc_tokens(r2, m2)) by {
        if x.aggressive {
            lit_chars_114();
            lemma_flag_misc_aggressive(m1, (if r2.len() > 0 { Some(r2[0]) } else { None }));
            assert(r1 =~= seq!["-A"@] + r2);
            lemma_step_ok0(m1, m2, "-A"@, r2);
        } else {
            assert(r1 =~= r2);
        }
    }
    let m3 = match x.datadir { Some(p) => NmapScanV { misc: MiscOptionsV { datadir: Some(p), ..m2.misc }, ..m2 }, None => m2 };
    assert(proc_tokens(r2, m2) == proc_tokens(r3, m3)) by {
        match x.datadir {
            Some(p) => {
                lit_chars_115();
                lemma_flag_misc_datadir(m2, p);
                assert(r2 =~= seq!["--datadir"@, p] + r3);
                lemma_step_ok1(m2, m3, "--datadir"@, p, r3);
            },
            None => {
                assert(r2 =~= r3);
            },
        }
    }
    assert(m3 =~= NmapScanV {
        misc: MiscOptionsV {
            ipv6: x.ipv6, aggressive: x.aggressive, datadir: x.datadir,
            ..m.misc
        },
        ..m
    });
}

#[verifier::rlimit(100)]
#[verifier::spinoff_prover]
proof fn lemma_proc_misc_part2(x: MiscOptionsV, m: NmapScanV, rest: Seq<Seq<char>>)
    requires
        wf_misc(x),
        m.misc.send_eth == false,
        m.misc.send_ip == false,
        m.misc.privileged == false,
    ensures
        proc_tokens(flag_tok(x.send_eth, "--send-eth"@) + flag_tok(x.send_ip, "--send-ip"@) + flag_tok(x.privileged, "--privileged"@) + rest, m) == proc_tokens(
            rest,
            NmapScanV {
                misc: MiscOptionsV {
                    send_eth: x.send_eth, send_ip: x.send_ip, privileged: x.privileged,
                    ..m.misc
                },
                ..m
            },
        ),
{
    let g1 = flag_tok(x.send_eth, "--send-eth"@);
    let g2 = flag_tok(x.send_ip, "--send-ip"@);
    let g3 = flag_tok(x.privileged, "--privileged"@);
    let r3 = rest;
    let r2 = g3 + r3;
    let r1 = g2 + r2;
    let r0 = g1 + r1;
    vstd::seq_lib::lemma_concat_associative(g1 + g2, g3, r3);
    vstd::seq_lib::lemma_concat_associative(g1, g2, r2);
    assert(g1 + g2 + g3 + rest == r0);
    let m0 = m;
    let m1 = if x.send_eth { NmapScanV { misc: MiscOptionsV { send_eth: true, ..m0.misc }, ..m0 } } else { m0 };
    assert(proc_tokens(r0, m0) == proc_tokens(r1, m1)) by {
        if x.send_eth {
            lit_chars_116();
            lemma_flag_misc_send_eth(m0, (if r1.len() > 0 { Some(r1[0]) } else { None }));
            assert(r0 =~= seq!["--send-eth"@] + r1);
            lemma_step_ok0(m0, m1, "--send-eth"@, r1);
        } else {
            assert(r0 =~= r1);
        }
    }
    let m2 = if x.send_ip { NmapScanV { misc: MiscOptionsV { send_ip: true, ..m1.misc }, ..m1 } } else { m1 };
    assert(proc_tokens(r1, m1) == proc_tokens(r2, m2)) by {
        if x.send_ip {
            lit_chars_117();
            lemma_flag_misc_send_ip(m1, (if r2.len() > 0 { Some(r2[0]) } else { None }));
            assert(r1 =~= seq!["--send-ip"@] + r2);
            lemma_step_ok0(m1, m2, "--send-ip"@, r2);
        } else {
            assert(r1 =~= r2);
        }
    }
    let m3 = if x.privileged { NmapScanV { misc: MiscOptionsV { privileged: true, ..m2.misc }, ..m2 } } else { m2 };
    assert(proc_tokens(r2, m2) == proc_tokens(r3, m3)) by {
        if x.privileged {
            lit_chars_118();
            lemma_flag_misc_privileged(m2, (if r3.len() > 0 { Some(r3[0]) } else { None }));
            assert(r2 =~= seq!["--privileged"@] + r3);
            lemma_step_ok0(m2, m3, "--privileged"@, r3);
        } else {
            assert(r2 =~= r3);
        }
    }
    assert(m3 =~= NmapScanV {
        misc: MiscOptionsV {
            send_eth: x.send_eth, send_ip: x.send_ip, privileged: x.privileged,
            ..m.misc
        },
        ..m
    });
}

#[verifier::rlimit(100)]
#[verifier::spinoff_prover]
proof fn lemma_proc_misc_part3(x: MiscOptionsV, m: NmapScanV, rest: Seq<Seq<char>>)
    requires
        wf_misc(x),
        m.misc.unprivileged == false,
        m.misc.release_memory == false,
        m.misc.version == false,
    ensures
        proc_tokens(flag_tok(x.unprivileged, "--unprivileged"@) + flag_tok(x.release_memory, "--release-memory"@) + flag_tok(x.version, "-V"@) + rest, m) == proc_tokens(
            rest,
            NmapScanV {
                misc: MiscOptionsV {
                    unprivileged: x.unprivileged, release_memory: x.release_memory, version: x.version,
                    ..m.misc
                },
                ..m
            },
        ),
{
    let g1 = flag_tok(x.unprivileged, "--unprivileged"@);
    let g2 = flag_tok(x.release_memory, "--release-memory"@);
    let g3 = flag_tok(x.version, "-V"@);
    let r3 = rest;
    let r2 = g3 + r3;
    let r1 = g2 + r2;
    let r0 = g1 + r1;
    vstd::seq_lib::lemma_concat_associative(g1 + g2, g3, r3);
    vstd::seq_lib::lemma_concat_associative(g1, g2, r2);
    assert(g1 + g2 + g3 + rest == r0);
    let m0 = m;
    let m1 = if x.unprivileged { NmapScanV { misc: MiscOptionsV { unprivileged: true, ..m0.misc }, ..m0 } } else { m0 };
    assert(proc_tokens(r0, m0) == proc_tokens(r1, m1)) by {
        if x.unprivileged {
            lit_chars_119();
            lemma_flag_misc_unprivileged(m0, (if r1.len() > 0 { Some(r1[0]) } else { None }));
            assert(r0 =~= seq!["--unprivileged"@] + r1);
            lemma_step_ok0(m0, m1, "--unprivileged"@, r1);
        } else {
            assert(r0 =~= r1);
        }
    }
    let m2 = if x.release_memory { NmapScanV { misc: MiscOptionsV { release_memory: true, ..m1.misc }, ..m1 } } else { m1 };
    assert(proc_tokens(r1, m1) == proc_tokens(r2, m2)) by {
        if x.release_memory {
            lit_chars_120();
            lemma_flag_misc_release_memory(m1, (if r2.len() > 0 { Some(r2[0]) } else { None }));
            assert(r1 =~= seq!["--release-memory"@] + r2);
            lemma_step_ok0(m1, m2, "--release-memory"@, r2);
        } else {
            assert(r1 =~= r2);
        }
    }
    let m3 = if x.version { NmapScanV { misc: MiscOptionsV { version: true, ..m2.misc }, ..m2 } } else { m2 };
    assert(proc_tokens(r2, m2) == proc_tokens(r3, m3)) by {
        if x.version {
            lit_chars_121();
            lemma_flag_misc_version(m2, (if r3.len() > 0 { Some(r3[0]) } else { None }));
            assert(r2 =~= seq!["-V"@] + r3);
            lemma_step_ok0(m2, m3, "-V"@, r3);
        } else {
            assert(r2 =~= r3);
        }
    }
    assert(m3 =~= NmapScanV {
        misc: MiscOptionsV {
            unprivileged: x.unprivileged, release_memory: x.release_memory, version: x.version,
            ..m.misc
        },
        ..m
    });
}

#[verifier::rlimit(100)]
#[verifier::spinoff_prover]
proof fn lemma_proc_misc_part4(x: MiscOptionsV, m: NmapScanV, rest: Seq<Seq<char>>)
    requires
        wf_misc(x),
        m.misc.help == false,
        m.misc.resolve_all == false,
        m.misc.no_resolve == false,
    ensures
        proc_tokens(flag_tok(x.help, "-h"@) + flag_tok(x.resolve_all, "-R"@) + flag_tok(x.no_resolve, "-n"@) + rest, m) == proc_tokens(
            rest,
            NmapScanV {
                misc: MiscOptionsV {
                    help: x.help, resolve_all: x.resolve_all, no_resolve: x.no_resolve,
                    ..m.misc
                },
                ..m
            },
        ),
{
    let g1 = flag_tok(x.help, "-h"@);
    let g2 = flag_tok(x.resolve_all, "-R"@);
    let g3 = flag_tok(x.no_resolve, "-n"@);
    let r3 = rest;
    let r2 = g3 + r3;
    let r1 = g2 + r2;
    let r0 = g1 + r1;
    vstd::seq_lib::lemma_concat_associative(g1 + g2, g3, r3);
    vstd::seq_lib::lemma_concat_associative(g1, g2, r2);
    assert(g1 + g2 + g3 + rest == r0);
    let m0 = m;
    let m1 = if x.help { NmapScanV { misc: MiscOptionsV { help: true, ..m0.misc }, ..m0 } } else { m0 };
    assert(proc_tokens(r0, m0) == proc_tokens(r1, m1)) by {
        if x.help {
            lit_chars_123();
            lemma_flag_misc_help(m0, (if r1.len() > 0 { Some(r1[0]) } else { None }));
            assert(r0 =~= seq!["-h"@] + r1);
            lemma_step_ok0(m0, m1, "-h"@, r1);
        } else {
            assert(r0 =~= r1);
        }
    }
    let m2 = if x.resolve_all { NmapScanV { misc: MiscOptionsV { resolve_all: true, ..m1.misc }, ..m1 } } else { m1 };
    assert(proc_tokens(r1, m1) == proc_tokens(r2, m2)) by {
        if x.resolve_all {
            lit_chars_125();
            lemma_flag_misc_resolve_all(m1, (if r2.len() > 0 { Some(r2[0]) } else { None }));
            assert(r1 =~= seq!["-R"@] + r2);
            lemma_step_ok0(m1, m2, "-R"@, r2);
        } else {
            assert(r1 =~= r2);
        }
    }
    let m3 = if x.no_resolve { NmapScanV { misc: MiscOptionsV { no_resolve: true, ..m2.misc }, ..m2 } } else { m2 };
    assert(proc_tokens(r2, m2) == proc_tokens(r3, m3)) by {
        if x.no_resolve {
            lit_chars_126();
            lemma_flag_misc_no_resolve(m2, (if r3.len() > 0 { Some(r3[0]) } else { None }));
            assert(r2 =~= seq!["-n"@] + r3);
            lemma_step_ok0(m2, m3, "-n"@, r3);
        } else {
            assert(r2 =~= r3);
        }
    }
    assert(m3 =~= NmapScanV {
        misc: MiscOptionsV {
            help: x.help, resolve_all: x.resolve_all, no_resolve: x.no_resolve,
            ..m.misc
        },
        ..m
    });
}

#[verifier::rlimit(100)]
#[verifier::spinoff_prover]
proof fn lemma_proc_misc_part5(x: MiscOptionsV, m: NmapScanV, rest: Seq<Seq<char>>)
    requires
        wf_misc(x),
        m.misc.unique == false,
        m.misc.log_errors == false,
    ensures
        proc_tokens(flag_tok(x.unique, "--unique"@) + flag_tok(x.log_errors, "--log-errors"@) + rest, m) == proc_tokens(
            rest,
            NmapScanV {
                misc: MiscOptionsV {
                    unique: x.unique, log_errors: x.log_errors,
                    ..m.misc
                },
                ..m
            },
        ),
{
    let g1 = flag_tok(x.unique, "--unique"@);
    let g2 = flag_tok(x.log_errors, "--log-errors"@);
    let r2 = rest;
    let r1 = g2 + r2;
    let r0 = g1 + r1;
    vstd::seq_lib::lemma_concat_associative(g1, g2, r2);
    assert(g1 + g2 + rest == r0);
    let m0 = m;
    let m1 = if x.unique { NmapScanV { misc: MiscOptionsV { unique: true, ..m0.misc }, ..m0 } } else { m0 };
    assert(proc_tokens(r0, m0) == proc_tokens(r1, m1)) by {
        if x.unique {
            lit_chars_127();
            lemma_flag_misc_unique(m0, (if r1.len() > 0 { Some(r1[0]) } else { None }));
            assert(r0 =~= seq!["--unique"@] + r1);
            lemma_step_ok0(m0, m1, "--unique"@, r1);
        } else {
            assert(r0 =~= r1);
        }
    }
    let m2 = if x.log_errors { NmapScanV { misc: MiscOptionsV { log_errors: true, ..m1.misc }, ..m1 } } else { m1 };
    assert(proc_tokens(r1, m1) == proc_tokens(r2, m2)) by {
        if x.log_errors {
            lit_chars_128();
            lemma_flag_misc_log_errors(m1, (if r2.len() > 0 { Some(r2[0]) } else { None }));
            assert(r1 =~= seq!["--log-errors"@] + r2);
            lemma_step_ok0(m1, m2, "--log-errors"@, r2);
        } else {
            assert(r1 =~= r2);
        }
    }
    assert(m2 =~= NmapScanV {
        misc: MiscOptionsV {
            unique: x.unique, log_errors: x.log_errors,
            ..m.misc
        },
        ..m
    });
}

#[verifier::rlimit(100)]
#[verifier::spinoff_prover]
proof fn lemma_misc_tokens_split(x: MiscOptionsV)
    ensures
        misc_options_tokens(x) == (flag_tok(x.ipv6, "-6"@) + flag_tok(x.aggressive, "-A"@) + val_tok(x.datadir, "--datadir"@)) + (flag_tok(x.send_eth, "--send-eth"@) + flag_tok(x.send_ip, "--send-ip"@) + flag_tok(x.privileged, "--privileged"@)) + (flag_tok(x.unprivileged, "--unprivileged"@) + flag_tok(x.release_memory, "--release-memory"@) + flag_tok(x.version, "-V"@)) + (flag_tok(x.help, "-h"@) + flag_tok(x.resolve_all, "-R"@) + flag_tok(x.no_resolve, "-n"@)) + (flag_tok(x.unique, "--unique"@) + flag_tok(x.log_errors, "--log-errors"@)),
{
    let g1 = flag_tok(x.ipv6, "-6"@);
    let g2 = flag_tok(x.aggressive, "-A"@);
    let g3 = val_tok(x.datadir, "--datadir"@);
    let g4 = flag_tok(x.send_eth, "--send-eth"@);
    let g5 = flag_tok(x.send_ip, "--send-ip"@);
    let g6 = flag_tok(x.privileged, "--privileged"@);
    let g7 = flag_tok(x.unprivileged, "--unprivileged"@);
    let g8 = flag_tok(x.release_memory, "--release-memory"@);
    let g9 = flag_tok(x.version, "-V"@);
    let g10 = flag_tok(x.help, "-h"@);
    let g11 = flag_tok(x.resolve_all, "-R"@);
    let g12 = flag_tok(x.no_resolve, "-n"@);
    let g13 = flag_tok(x.unique, "--unique"@);
    let g14 = flag_tok(x.log_errors, "--log-errors"@);
    let c1 = g1 + g2 + g3;
    let c2 = g4 + g5 + g6;
    let c3 = g7 + g8 + g9;
    let c4 = g10 + g11 + g12;
    let c5 = g13 + g14;
    vstd::seq_lib::lemma_concat_associative(c1, g4, g5);
    vstd::seq_lib::lemma_concat_associative(c1, g4 + g5, g6);
    vstd::seq_lib::lemma_concat_associative(c1 + c2, g7, g8);
    vstd::seq_lib::lemma_concat_associative(c1 + c2, g7 + g8, g9);
    vstd::seq_lib::lemma_concat_associative(c1 + c2 + c3, g10, g11);
    vstd::seq_lib::lemma_concat_associative(c1 + c2 + c3, g10 + g11, g12);
    vstd::seq_lib::lemma_concat_associative(c1 + c2 + c3 + c4, g13, g14);
    assert(misc_options_tokens(x) == c1 + c2 + c3 + c4 + c5);
}

#[verifier::rlimit(100)]
#[verifier::spinoff_prover]
proof fn lemma_proc_misc_front(x: MiscOptionsV, m: NmapScanV, rest: Seq<Seq<char>>)
    requires
        wf_misc(x),
        m.misc == misc_options_default(),
    ensures
        proc_tokens(
            (flag_tok(x.ipv6, "-6"@) + flag_tok(x.aggressive, "-A"@) + val_tok(x.datadir, "--datadir"@)) + (flag_tok(x.send_eth, "--send-eth"@) + flag_tok(x.send_ip, "--send-ip"@) + flag_tok(x.privileged, "--privileged"@)) + (flag_tok(x.unprivileged, "--unprivileged"@) + flag_tok(x.release_memory, "--release-memory"@) + flag_tok(x.version, "-V"@)) + rest,
            m,
        ) == proc_tokens(
            rest,
            NmapScanV {
                misc: MiscOptionsV {
                    ipv6: x.ipv6, aggressive: x.aggressive, datadir: x.datadir, send_eth: x.send_eth, send_ip: x.send_ip, privileged: x.privileged, unprivileged: x.unprivileged, release_memory: x.release_memory, version: x.version,
                    ..m.misc
                },
                ..m
            },
        ),
{
    let c1 = flag_tok(x.ipv6, "-6"@) + flag_tok(x.aggressive, "-A"@) + val_tok(x.datadir, "--datadir"@);
    let c2 = flag_tok(x.send_eth, "--send-eth"@) + flag_tok(x.send_ip, "--send-ip"@) + flag_tok(x.privileged, "--privileged"@);
    let c3 = flag_tok(x.unprivileged, "--unprivileged"@) + flag_tok(x.release_memory, "--release-memory"@) + flag_tok(x.version, "-V"@);
    let q3 = rest;
    let q2 = c3 + q3;
    let q1 = c2 + q2;
    let q0 = c1 + q1;
    vstd::seq_lib::lemma_concat_associative(c1 + c2, c3, q3);
    vstd::seq_lib::lemma_concat_associative(c1, c2, q2);
    assert(c1 + c2 + c3 + rest == q0);
    let n0 = m;
    lemma_proc_misc_part1(x, n0, q1);
    let n1 = NmapScanV {
        misc: MiscOptionsV {
            ipv6: x.ipv6, aggressive: x.aggressive, datadir: x.datadir,
            ..m.misc
        },
        ..m
    };
    assert(proc_tokens(q0, n0) == proc_tokens(q1, n1)) by {
        assert(NmapScanV {
            misc: MiscOptionsV {
                ipv6: x.ipv6, aggressive: x.aggressive, datadir: x.datadir,
                ..n0.misc
            },
            ..n0
        } =~= n1);
    }
    lemma_proc_misc_part2(x, n1, q2);
    let n2 = NmapScanV {
        misc: MiscOptionsV {
            ipv6: x.ipv6, aggressive: x.aggressive, datadir: x.datadir, send_eth: x.send_eth, send_ip: x.send_ip, privileged: x.privileged,
            ..m.misc
        },
        ..m
    };
    assert(proc_tokens(q1, n1) == proc_tokens(q2, n2)) by {
        assert(NmapScanV {
            misc: MiscOptionsV {
                send_eth: x.send_eth, send_ip: x.send_ip, privileged: x.privileged,
                ..n1.misc
            },
            ..n1
        } =~= n2);
    }
    lemma_proc_misc_part3(x, n2, q3);
    let n3 = NmapScanV {
        misc: MiscOptionsV {
            ipv6: x.ipv6, aggressive: x.aggressive, datadir: x.datadir, send_eth: x.send_eth, send_ip: x.send_ip, privileged: x.privileged, unprivileged: x.unprivileged, release_memory: x.release_memory, version: x.version,
            ..m.misc
        },
        ..m
    };
    assert(proc_tokens(q2, n2) == proc_tokens(q3, n3)) by {
        assert(NmapScanV {
            misc: MiscOptionsV {
                unprivileged: x.unprivileged, release_memory: x.release_memory, version: x.version,
                ..n2.misc
            },
            ..n2
        } =~= n3);
    }
}

/// Every token the builder emits for a well-formed configuration is
/// carried losslessly by the grammar.
#[verifier::rlimit(100)]
#[verifier::spinoff_prover]
pub proof fn lemma_scan_tokens_ok(v: NmapScanV)
    requires
        wf_scan(v),
    ensures
        all_tokens_ok(scan_tokens(v)),
{
    let s1 = host_discovery_tokens(v.host_discovery);
    let s2 = technique_tokens(v.scan_technique);
    let s3 = port_specification_tokens(v.ports);
    let s4 = service_detection_tokens(v.service_detection);
    let s5 = script_scan_tokens(v.script_scan);
    let s6 = os_detection_tokens(v.os_detection);
    let s7 = timing_performance_tokens(v.timing);
    let s8 = evasion_spoofing_tokens(v.evasion);
    let s9 = output_options_tokens(v.output);
    let s10 = misc_options_tokens(v.misc);
    let s11 = target_specification_tokens(v.target_specification);
    lemma_host_discovery_tokens_ok(v.host_discovery);
    lemma_technique_tokens_ok(v.scan_technique);
    lemma_ports_tokens_ok(v.ports);
    lemma_service_detection_tokens_ok(v.service_detection);
    lemma_script_scan_tokens_ok(v.script_scan);
    lemma_os_detection_tokens_ok(v.os_detection);
    lemma_timing_tokens_ok(v.timing);
    lemma_evasion_tokens_ok(v.evasion);
    lemma_output_tokens_ok(v.output);
    lemma_misc_tokens_ok(v.misc);
    lemma_target_specification_tokens_ok(v.target_specification);
    lemma_all_ok_concat(s1, s2);
    lemma_all_ok_concat(s1 + s2, s3);
    lemma_all_ok_concat(s1 + s2 + s3, s4);
    lemma_all_ok_concat(s1 + s2 + s3 + s4, s5);
    lemma_all_ok_concat(s1 + s2 + s3 + s4 + s5, s6);
    lemma_all_ok_concat(s1 + s2 + s3 + s4 + s5 + s6, s7);
    lemma_all_ok_concat(s1 + s2 + s3 + s4 + s5 + s6 + s7, s8);
    lemma_all_ok_concat(s1 + s2 + s3 + s4 + s5 + s6 + s7 + s8, s9);
    lemma_all_ok_concat(s1 + s2 + s3 + s4 + s5 + s6 + s7 + s8 + s9, s10);
    lemma_all_ok_concat(s1 + s2 + s3 + s4 + s5 + s6 + s7 + s8 + s9 + s10, s11);
}

/// Building is deterministic: two command strings that each satisfy the
/// builder's contract for one unmodified configuration are identical.
pub proof fn lemma_build_deterministic(v: NmapScanV, r1: Seq<char>, r2: Seq<char>)
    requires
        r1 == spec_build(v),
        r2 == spec_build(v),
    ensures
        r1 == r2,
{
}

} // verus!
