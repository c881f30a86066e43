//! The command builder: a total, deterministic function from a scan
//! configuration to the scanner's command line. Its contract pins the
//! whole string: the rendered form of the token list that the section
//! specs below define.
use vstd::prelude::*;
use crate::chars::{quote_string, needs_quote, quote_token};
use crate::model::{NmapScan, HostDiscovery, ScanTechnique, SctpScanType, PortSpecification,
    ServiceDetection, ScriptScan, OsDetection, TimingPerformance, EvasionSpoofing, OutputOptions,
    MiscOptions, TargetSpecification, TimingTemplate, NmapScanV, HostDiscoveryV, ScanTechniqueV,
    PortSpecificationV, ServiceDetectionV, ScriptScanV, OsDetectionV, TimingPerformanceV,
    EvasionSpoofingV, OutputOptionsV, MiscOptionsV, TargetSpecificationV, template_level,
    technique_view};
use crate::numbers::{dec_text, format_u32};
use crate::lists::{join_comma, port_list_text, proto_list_text, join_string_list, format_port_list,
    format_protocol_list};
use crate::tokens::{render_tok, render_tail, lemma_render_tail_concat, lemma_render_tail_single,
    lemma_render_tail_pair};

verus! {

broadcast use vstd::seq::axiom_seq_index_decreases, vstd::seq::axiom_seq_subrange_decreases;

/// The token of a bare flag, when it is set.
pub open spec fn flag_tok(b: bool, f: Seq<char>) -> Seq<Seq<char>> {
    if b {
        seq![f]
    } else {
        Seq::empty()
    }
}

/// A flag and its value token, when the value is set.
pub open spec fn val_tok(o: Option<Seq<char>>, f: Seq<char>) -> Seq<Seq<char>> {
    match o {
        Some(v) => seq![f, v],
        None => Seq::empty(),
    }
}

/// A flag and a numeric value's decimal token, when the value is set.
pub open spec fn num_tok(o: Option<nat>, f: Seq<char>) -> Seq<Seq<char>> {
    match o {
        Some(n) => seq![f, dec_text(n)],
        None => Seq::empty(),
    }
}

/// A flag and the comma-joined list token, when the list is not empty.
pub open spec fn list_tok(l: Seq<Seq<char>>, f: Seq<char>) -> Seq<Seq<char>> {
    if l.len() > 0 {
        seq![f, join_comma(l)]
    } else {
        Seq::empty()
    }
}

/// A discovery flag with its port list glued on, when the list is not
/// empty.
pub open spec fn glued_ports_tok(l: Seq<u16>, f: Seq<char>) -> Seq<Seq<char>> {
    if l.len() > 0 {
        seq![f + port_list_text(l)]
    } else {
        Seq::empty()
    }
}

/// A discovery flag with its protocol list glued on, when the list is
/// not empty.
pub open spec fn glued_protos_tok(l: Seq<u8>, f: Seq<char>) -> Seq<Seq<char>> {
    if l.len() > 0 {
        seq![f + proto_list_text(l)]
    } else {
        Seq::empty()
    }
}

/// The timing template's glued flag token, when a template is set.
pub open spec fn template_tok(o: Option<TimingTemplate>) -> Seq<Seq<char>> {
    match o {
        Some(t) => seq!["-T"@ + dec_text(template_level(t) as nat)],
        None => Seq::empty(),
    }
}

/// The same flag token repeated.
pub open spec fn rep_tok(f: Seq<char>, k: nat) -> Seq<Seq<char>>
    decreases k,
{
    if k == 0 {
        Seq::empty()
    } else {
        seq![f] + rep_tok(f, (k - 1) as nat)
    }
}

/// The verbosity tokens: the combined short token for one or two, one
/// token per unit above that.
pub open spec fn stacked_tok(n: u8, one: Seq<char>, two: Seq<char>) -> Seq<Seq<char>> {
    if n == 0 {
        Seq::empty()
    } else if n == 1 {
        seq![one]
    } else if n == 2 {
        seq![two]
    } else {
        rep_tok(one, n as nat)
    }
}

/// The host discovery section's tokens, in declared order.
pub open spec fn host_discovery_tokens(v: HostDiscoveryV) -> Seq<Seq<char>> {
    flag_tok(v.list_scan, "-sL"@) + flag_tok(v.ping_scan, "-sn"@) + flag_tok(v.skip_port_scan, "-Pn"@) + glued_ports_tok(v.syn_discovery, "-PS"@) + glued_ports_tok(v.ack_discovery, "-PA"@) + glued_ports_tok(v.udp_discovery, "-PU"@) + glued_ports_tok(v.sctp_discovery, "-PY"@) + flag_tok(v.icmp_echo, "-PE"@) + flag_tok(v.icmp_timestamp, "-PP"@) + flag_tok(v.icmp_netmask, "-PM"@) + glued_protos_tok(v.ip_protocol_ping, "-PO"@) + flag_tok(v.traceroute, "--traceroute"@) + list_tok(v.dns_servers, "--dns-servers"@) + flag_tok(v.system_dns, "--system-dns"@)
}

/// The port specification section's tokens.
pub open spec fn port_specification_tokens(v: PortSpecificationV) -> Seq<Seq<char>> {
    val_tok(v.ports, "-p"@) + val_tok(v.exclude_ports, "--exclude-ports"@) + flag_tok(v.fast_mode, "-F"@) + flag_tok(v.consecutive_ports, "-r"@) + num_tok(match v.top_ports { Some(n) => Some(n as nat), None => None }, "--top-ports"@) + val_tok(v.port_ratio, "--port-ratio"@)
}

/// The service detection section's tokens.
pub open spec fn service_detection_tokens(v: ServiceDetectionV) -> Seq<Seq<char>> {
    flag_tok(v.enabled, "-sV"@) + num_tok(match v.intensity { Some(n) => Some(n as nat), None => None }, "--version-intensity"@) + flag_tok(v.light, "--version-light"@) + flag_tok(v.all, "--version-all"@) + flag_tok(v.trace, "--version-trace"@)
}

/// The script scan section's tokens.
pub open spec fn script_scan_tokens(v: ScriptScanV) -> Seq<Seq<char>> {
    flag_tok(v.default, "-sC"@) + list_tok(v.scripts, "--script"@) + val_tok(v.script_args, "--script-args"@) + val_tok(v.script_args_file, "--script-args-file"@) + flag_tok(v.script_trace, "--script-trace"@) + flag_tok(v.script_updatedb, "--script-updatedb"@) + val_tok(v.script_help, "--script-help"@)
}

/// The OS detection section's tokens.
pub open spec fn os_detection_tokens(v: OsDetectionV) -> Seq<Seq<char>> {
    flag_tok(v.enabled, "-O"@) + flag_tok(v.limit, "--osscan-limit"@) + flag_tok(v.guess, "--osscan-guess"@) + num_tok(match v.max_retries { Some(n) => Some(n as nat), None => None }, "--max-os-tries"@)
}

/// The timing and performance section's tokens.
pub open spec fn timing_performance_tokens(v: TimingPerformanceV) -> Seq<Seq<char>> {
    template_tok(v.template) + num_tok(match v.min_hostgroup { Some(n) => Some(n as nat), None => None }, "--min-hostgroup"@) + num_tok(match v.max_hostgroup { Some(n) => Some(n as nat), None => None }, "--max-hostgroup"@) + num_tok(match v.min_parallelism { Some(n) => Some(n as nat), None => None }, "--min-parallelism"@) + num_tok(match v.max_parallelism { Some(n) => Some(n as nat), None => None }, "--max-parallelism"@) + val_tok(v.min_rtt_timeout, "--min-rtt-timeout"@) + val_tok(v.max_rtt_timeout, "--max-rtt-timeout"@) + val_tok(v.initial_rtt_timeout, "--initial-rtt-timeout"@) + num_tok(match v.max_retries { Some(n) => Some(n as nat), None => None }, "--max-retries"@) + val_tok(v.host_timeout, "--host-timeout"@) + val_tok(v.script_timeout, "--script-timeout"@) + val_tok(v.scan_delay, "--scan-delay"@) + val_tok(v.max_scan_delay, "--max-scan-delay"@) + num_tok(match v.min_rate { Some(n) => Some(n as nat), None => None }, "--min-rate"@) + num_tok(match v.max_rate { Some(n) => Some(n as nat), None => None }, "--max-rate"@) + flag_tok(v.defeat_rst_ratelimit, "--defeat-rst-ratelimit"@) + flag_tok(v.defeat_icmp_ratelimit, "--defeat-icmp-ratelimit"@) + val_tok(v.nsock_engine, "--nsock-engine"@)
}

/// The evasion and spoofing section's tokens.
pub open spec fn evasion_spoofing_tokens(v: EvasionSpoofingV) -> Seq<Seq<char>> {
    flag_tok(v.fragment_packets, "-f"@) + num_tok(match v.mtu { Some(n) => Some(n as nat), None => None }, "--mtu"@) + list_tok(v.decoys, "-D"@) + val_tok(v.spoof_ip, "-S"@) + val_tok(v.interface, "-e"@) + num_tok(match v.source_port { Some(n) => Some(n as nat), None => None }, "-g"@) + val_tok(v.data, "--data"@) + val_tok(v.data_string, "--data-string"@) + num_tok(match v.data_length { Some(n) => Some(n as nat), None => None }, "--data-length"@) + val_tok(v.ip_options, "--ip-options"@) + num_tok(match v.ttl { Some(n) => Some(n as nat), None => None }, "--ttl"@) + flag_tok(v.randomize_hosts, "--randomize-hosts"@) + val_tok(v.spoof_mac, "--spoof-mac"@) + flag_tok(v.badsum, "--badsum"@) + flag_tok(v.adler32, "--adler32"@)
}

/// The output section's tokens.
pub open spec fn output_options_tokens(v: OutputOptionsV) -> Seq<Seq<char>> {
    val_tok(v.normal, "-oN"@) + val_tok(v.xml, "-oX"@) + val_tok(v.script_kiddie, "-oS"@) + val_tok(v.grepable, "-oG"@) + val_tok(v.all_formats, "-oA"@) + stacked_tok(v.verbose, "-v"@, "-vv"@) + stacked_tok(v.debug, "-d"@, "-dd"@) + flag_tok(v.reason, "--reason"@) + val_tok(v.stats_every, "--stats-every"@) + flag_tok(v.packet_trace, "--packet-trace"@) + flag_tok(v.open_only, "--open"@) + flag_tok(v.iflist, "--iflist"@) + flag_tok(v.append_output, "--append-output"@) + val_tok(v.resume, "--resume"@) + val_tok(v.stylesheet, "--stylesheet"@) + flag_tok(v.webxml, "--webxml"@) + flag_tok(v.no_stylesheet, "--no-stylesheet"@)
}

/// The miscellaneous section's tokens.
pub open spec fn misc_options_tokens(v: MiscOptionsV) -> Seq<Seq<char>> {
    flag_tok(v.ipv6, "-6"@) + flag_tok(v.aggressive, "-A"@) + val_tok(v.datadir, "--datadir"@) + flag_tok(v.send_eth, "--send-eth"@) + flag_tok(v.send_ip, "--send-ip"@) + flag_tok(v.privileged, "--privileged"@) + flag_tok(v.unprivileged, "--unprivileged"@) + flag_tok(v.release_memory, "--release-memory"@) + flag_tok(v.version, "-V"@) + flag_tok(v.help, "-h"@) + flag_tok(v.resolve_all, "-R"@) + flag_tok(v.no_resolve, "-n"@) + flag_tok(v.unique, "--unique"@) + flag_tok(v.log_errors, "--log-errors"@)
}

/// The target specification section's tokens; the targets come last.
pub open spec fn target_specification_tokens(v: TargetSpecificationV) -> Seq<Seq<char>> {
    val_tok(v.input_file, "-iL"@) + num_tok(match v.random_targets { Some(n) => Some(n as nat), None => None }, "-iR"@) + list_tok(v.exclude, "--exclude"@) + val_tok(v.exclude_file, "--exclude-file"@) + v.targets
}

/// The scan technique's tokens; a composite technique emits each
/// member's tokens in list order.
pub open spec fn technique_tokens(t: ScanTechniqueV) -> Seq<Seq<char>>
    decreases t, 0int,
{
    match t {
        ScanTechniqueV::Syn => seq!["-sS"@],
        ScanTechniqueV::Connect => seq!["-sT"@],
        ScanTechniqueV::Ack => seq!["-sA"@],
        ScanTechniqueV::Window => seq!["-sW"@],
        ScanTechniqueV::Maimon => seq!["-sM"@],
        ScanTechniqueV::Udp => seq!["-sU"@],
        ScanTechniqueV::TcpNull => seq!["-sN"@],
        ScanTechniqueV::Fin => seq!["-sF"@],
        ScanTechniqueV::Xmas => seq!["-sX"@],
        ScanTechniqueV::Scanflags(s) => seq!["--scanflags"@, s],
        ScanTechniqueV::Idle(z) => seq!["-sI"@, z],
        ScanTechniqueV::Sctp(init) => if init {
            seq!["-sY"@]
        } else {
            seq!["-sZ"@]
        },
        ScanTechniqueV::IpProtocol => seq!["-sO"@],
        ScanTechniqueV::Ftp(r) => seq!["-b"@, r],
        ScanTechniqueV::Multiple(ts) => multiple_tokens(ts),
    }
}

/// The tokens of a list of techniques, one member after the other.
pub open spec fn multiple_tokens(ts: Seq<ScanTechniqueV>) -> Seq<Seq<char>>
    decreases ts, ts.len(),
{
    if ts.len() == 0 {
        Seq::empty()
    } else {
        technique_tokens(ts[0]) + multiple_tokens(ts.skip(1))
    }
}

/// Every token of a configuration, section by section, targets last.
pub open spec fn scan_tokens(v: NmapScanV) -> Seq<Seq<char>> {
    host_discovery_tokens(v.host_discovery) + technique_tokens(v.scan_technique)
        + port_specification_tokens(v.ports) + service_detection_tokens(v.service_detection)
        + script_scan_tokens(v.script_scan) + os_detection_tokens(v.os_detection)
        + timing_performance_tokens(v.timing) + evasion_spoofing_tokens(v.evasion)
        + output_options_tokens(v.output) + misc_options_tokens(v.misc)
        + target_specification_tokens(v.target_specification)
}

/// The whole command: the program name, then the rendered tokens.
pub open spec fn spec_build(v: NmapScanV) -> Seq<char> {
    "nmap"@ + render_tail(scan_tokens(v))
}

/// Appends one rendered token: a space, then the quoted form.
fn push_tok(cmd: &mut String, tok: &str)
    ensures
        final(cmd)@ == old(cmd)@ + render_tok(tok@),
{
    cmd.push(' ');
    let q = quote_string(tok);
    cmd.append(q.as_str());
    proof {
        assert(cmd@ =~= old(cmd)@ + render_tok(tok@));
    }
}

fn push_flag_if(cmd: &mut String, b: bool, f: &str)
    ensures
        final(cmd)@ == old(cmd)@ + render_tail(flag_tok(b, f@)),
{
    if b {
        push_tok(cmd, f);
        proof {
            lemma_render_tail_single(f@);
        }
    } else {
        proof {
            assert(cmd@ =~= old(cmd)@ + render_tail(flag_tok(b, f@)));
        }
    }
}

fn push_val_opt(cmd: &mut String, o: &Option<String>, f: &str)
    ensures
        final(cmd)@ == old(cmd)@ + render_tail(val_tok(o.deep_view(), f@)),
{
    match o {
        Some(v) => {
            push_tok(cmd, f);
            push_tok(cmd, v.as_str());
            proof {
                lemma_render_tail_pair(f@, v@);
                assert(cmd@ =~= old(cmd)@ + render_tail(val_tok(o.deep_view(), f@)));
            }
        },
        None => {
            proof {
                assert(cmd@ =~= old(cmd)@ + render_tail(val_tok(o.deep_view(), f@)));
            }
        },
    }
}

fn push_num_u32(cmd: &mut String, o: &Option<u32>, f: &str)
    ensures
        final(cmd)@ == old(cmd)@ + render_tail(
            num_tok(
                match *o {
                    Some(n) => Some(n as nat),
                    None => None,
                },
                f@,
            ),
        ),
{
    match o {
        Some(n) => {
            push_tok(cmd, f);
            let d = format_u32(*n);
            push_tok(cmd, d.as_str());
            proof {
                let toks = seq![f@, dec_text(*n as nat)];
                lemma_render_tail_pair(f@, dec_text(*n as nat));
                assert(cmd@ =~= old(cmd)@ + render_tail(toks));
            }
        },
        None => {
        },
    }
}

fn push_num_u16(cmd: &mut String, o: &Option<u16>, f: &str)
    ensures
        final(cmd)@ == old(cmd)@ + render_tail(
            num_tok(
                match *o {
                    Some(n) => Some(n as nat),
                    None => None,
                },
                f@,
            ),
        ),
{
    match o {
        Some(n) => {
            push_tok(cmd, f);
            let d = format_u32(*n as u32);
            push_tok(cmd, d.as_str());
            proof {
                let toks = seq![f@, dec_text(*n as nat)];
                lemma_render_tail_pair(f@, dec_text(*n as nat));
                assert(cmd@ =~= old(cmd)@ + render_tail(toks));
            }
        },
        None => {
        },
    }
}

fn push_num_u8(cmd: &mut String, o: &Option<u8>, f: &str)
    ensures
        final(cmd)@ == old(cmd)@ + render_tail(
            num_tok(
                match *o {
                    Some(n) => Some(n as nat),
                    None => None,
                },
                f@,
            ),
        ),
{
    match o {
        Some(n) => {
            push_tok(cmd, f);
            let d = format_u32(*n as u32);
            push_tok(cmd, d.as_str());
            proof {
                let toks = seq![f@, dec_text(*n as nat)];
                lemma_render_tail_pair(f@, dec_text(*n as nat));
                assert(cmd@ =~= old(cmd)@ + render_tail(toks));
            }
        },
        None => {
        },
    }
}

fn push_list(cmd: &mut String, l: &Vec<String>, f: &str)
    ensures
        final(cmd)@ == old(cmd)@ + render_tail(list_tok(l.deep_view(), f@)),
{
    if l.len() > 0 {
        push_tok(cmd, f);
        let j = join_string_list(l);
        push_tok(cmd, j.as_str());
        proof {
            let toks = seq![f@, join_comma(l.deep_view())];
            lemma_render_tail_pair(f@, join_comma(l.deep_view()));
            assert(l.deep_view().len() == l@.len());
            assert(cmd@ =~= old(cmd)@ + render_tail(toks));
        }
    } else {
        proof {
            assert(l.deep_view().len() == l@.len());
        }
    }
}

fn push_glued_ports(cmd: &mut String, l: &Vec<u16>, f: &str)
    ensures
        final(cmd)@ == old(cmd)@ + render_tail(glued_ports_tok(l@, f@)),
{
    if l.len() > 0 {
        let mut t = f.to_owned();
        let p = format_port_list(l);
        t.append(p.as_str());
        push_tok(cmd, t.as_str());
        proof {
            lemma_render_tail_single(f@ + port_list_text(l@));
        }
    }
}

fn push_glued_protos(cmd: &mut String, l: &Vec<u8>, f: &str)
    ensures
        final(cmd)@ == old(cmd)@ + render_tail(glued_protos_tok(l@, f@)),
{
    if l.len() > 0 {
        let mut t = f.to_owned();
        let p = format_protocol_list(l);
        t.append(p.as_str());
        push_tok(cmd, t.as_str());
        proof {
            lemma_render_tail_single(f@ + proto_list_text(l@));
        }
    }
}

fn push_template(cmd: &mut String, o: &Option<TimingTemplate>)
    ensures
        final(cmd)@ == old(cmd)@ + render_tail(template_tok(*o)),
{
    match o {
        Some(t) => {
            let level: u32 = match t {
                TimingTemplate::Paranoid => 0,
                TimingTemplate::Sneaky => 1,
                TimingTemplate::Polite => 2,
                TimingTemplate::Normal => 3,
                TimingTemplate::Aggressive => 4,
                TimingTemplate::Insane => 5,
            };
            proof {
                assert(level == template_level(*t));
            }
            let mut g = "-T".to_owned();
            let d = format_u32(level);
            g.append(d.as_str());
            push_tok(cmd, g.as_str());
            proof {
                lemma_render_tail_single("-T"@ + dec_text(template_level(*t) as nat));
            }
        },
        None => {
        },
    }
}

/// One repeated short token per unit of the count.
fn push_repeat(cmd: &mut String, n: u8, f: &str)
    ensures
        final(cmd)@ == old(cmd)@ + render_tail(rep_tok(f@, n as nat)),
    decreases n,
{
    if n > 0 {
        push_tok(cmd, f);
        push_repeat(cmd, n - 1, f);
        proof {
            assert(render_tail(rep_tok(f@, n as nat)) =~= render_tok(f@) + render_tail(
                rep_tok(f@, (n - 1) as nat),
            )) by {
                assert(rep_tok(f@, n as nat) == seq![f@] + rep_tok(f@, (n - 1) as nat));
                lemma_render_tail_concat(seq![f@], rep_tok(f@, (n - 1) as nat));
                lemma_render_tail_single(f@);
            }
        }
    }
}

/// A stacked count: the combined short token for one or two, repeats
/// above that.
fn push_stacked(cmd: &mut String, n: u8, one: &str, two: &str)
    ensures
        final(cmd)@ == old(cmd)@ + render_tail(stacked_tok(n, one@, two@)),
{
    if n == 0 {
    } else if n == 1 {
        push_tok(cmd, one);
        proof {
            lemma_render_tail_single(one@);
        }
    } else if n == 2 {
        push_tok(cmd, two);
        proof {
            lemma_render_tail_single(two@);
        }
    } else {
        push_repeat(cmd, n, one);
    }
}

/// Appends each target as its own token.
fn push_targets(cmd: &mut String, targets: &Vec<String>)
    ensures
        final(cmd)@ == old(cmd)@ + render_tail(targets.deep_view()),
{
    let mut i: usize = 0;
    proof {
        assert(targets.deep_view().take(0) =~= Seq::<Seq<char>>::empty());
        assert(cmd@ =~= old(cmd)@ + render_tail(targets.deep_view().take(0)));
    }
    while i < targets.len()
        invariant
            i <= targets@.len(),
            targets.deep_view().len() == targets@.len(),
            cmd@ == old(cmd)@ + render_tail(targets.deep_view().take(i as int)),
        decreases targets@.len() - i,
    {
        push_tok(cmd, targets[i].as_str());
        i = i + 1;
        proof {
            let dv = targets.deep_view();
            assert(dv.take(i as int) =~= dv.take(i - 1) + seq![dv[i - 1]]);
            lemma_render_tail_concat(dv.take(i - 1), seq![dv[i - 1]]);
            lemma_render_tail_single(dv[i - 1]);
            assert(cmd@ =~= old(cmd)@ + render_tail(dv.take(i as int)));
        }
    }
    proof {
        assert(targets.deep_view().take(i as int) =~= targets.deep_view());
    }
}

/// Builder for converting scan configurations into command strings.
pub struct NmapCommandBuilder;

impl NmapCommandBuilder {
    /// The complete command string of a configuration. It never fails,
    /// and its value is exactly the rendered token list of the views.
    #[verifier::rlimit(100)]
    #[verifier::spinoff_prover]
    pub fn build(scan: &NmapScan) -> (r: String)
        ensures
            r@ == spec_build(scan@),
    {
        let mut cmd = "nmap".to_owned();
        build_host_discovery(&mut cmd, &scan.host_discovery);
        build_scan_technique(&mut cmd, &scan.scan_technique);
        build_port_specification(&mut cmd, &scan.ports);
        build_service_detection(&mut cmd, &scan.service_detection);
        build_script_scan(&mut cmd, &scan.script_scan);
        build_os_detection(&mut cmd, &scan.os_detection);
        build_timing_performance(&mut cmd, &scan.timing);
        build_evasion_spoofing(&mut cmd, &scan.evasion);
        build_output(&mut cmd, &scan.output);
        build_misc(&mut cmd, &scan.misc);
        build_target_specification(&mut cmd, &scan.target_specification);
        proof {
            let v = scan@;
            let t1 = host_discovery_tokens(v.host_discovery);
            let t2 = technique_tokens(v.scan_technique);
            let t3 = port_specification_tokens(v.ports);
            let t4 = service_detection_tokens(v.service_detection);
            let t5 = script_scan_tokens(v.script_scan);
            let t6 = os_detection_tokens(v.os_detection);
            let t7 = timing_performance_tokens(v.timing);
            let t8 = evasion_spoofing_tokens(v.evasion);
            let t9 = output_options_tokens(v.output);
            let t10 = misc_options_tokens(v.misc);
            let t11 = target_specification_tokens(v.target_specification);
            lemma_render_tail_concat(t1, t2);
            lemma_render_tail_concat(t1 + t2, t3);
            lemma_render_tail_concat(t1 + t2 + t3, t4);
            lemma_render_tail_concat(t1 + t2 + t3 + t4, t5);
            lemma_render_tail_concat(t1 + t2 + t3 + t4 + t5, t6);
            lemma_render_tail_concat(t1 + t2 + t3 + t4 + t5 + t6, t7);
            lemma_render_tail_concat(t1 + t2 + t3 + t4 + t5 + t6 + t7, t8);
            lemma_render_tail_concat(t1 + t2 + t3 + t4 + t5 + t6 + t7 + t8, t9);
            lemma_render_tail_concat(t1 + t2 + t3 + t4 + t5 + t6 + t7 + t8 + t9, t10);
            lemma_render_tail_concat(t1 + t2 + t3 + t4 + t5 + t6 + t7 + t8 + t9 + t10, t11);
            assert(cmd@ =~= spec_build(v));
        }
        cmd
    }

    /// The quoted form of a value: wrapped in double quotes, inner
    /// quotes escaped, when it holds a space, tab or quote.
    pub fn quote_if_needed(s: &str) -> (r: String)
        ensures
            r@ == quote_token(s@),
    {
        quote_string(s)
    }

    /// The quoted form of a path's text.
    pub fn quote_path(path: &str) -> (r: String)
        ensures
            r@ == quote_token(path@),
    {
        quote_string(path)
    }

    /// The comma-joined decimal text of a port list.
    pub fn format_port_list(ports: &Vec<u16>) -> (r: String)
        ensures
            r@ == port_list_text(ports@),
    {
        format_port_list(ports)
    }

    /// The comma-joined decimal text of a protocol list.
    pub fn format_protocol_list(protocols: &Vec<u8>) -> (r: String)
        ensures
            r@ == proto_list_text(protocols@),
    {
        format_protocol_list(protocols)
    }
}

/// Emits the scan technique's tokens; a composite technique emits each
/// member in order.
pub fn build_scan_technique(cmd: &mut String, st: &ScanTechnique)
    ensures
        final(cmd)@ == old(cmd)@ + render_tail(technique_tokens(st@)),
    decreases *st, 0int,
{
    match st {
        ScanTechnique::Syn => push_single(cmd, "-sS"),
        ScanTechnique::Connect => push_single(cmd, "-sT"),
        ScanTechnique::Ack => push_single(cmd, "-sA"),
        ScanTechnique::Window => push_single(cmd, "-sW"),
        ScanTechnique::Maimon => push_single(cmd, "-sM"),
        ScanTechnique::Udp => push_single(cmd, "-sU"),
        ScanTechnique::TcpNull => push_single(cmd, "-sN"),
        ScanTechnique::Fin => push_single(cmd, "-sF"),
        ScanTechnique::Xmas => push_single(cmd, "-sX"),
        ScanTechnique::Scanflags(flags) => push_pair(cmd, "--scanflags", flags.as_str()),
        ScanTechnique::Idle(zombie) => push_pair(cmd, "-sI", zombie.as_str()),
        ScanTechnique::Sctp(SctpScanType::Init) => push_single(cmd, "-sY"),
        ScanTechnique::Sctp(SctpScanType::Cookie) => push_single(cmd, "-sZ"),
        ScanTechnique::IpProtocol => push_single(cmd, "-sO"),
        ScanTechnique::Ftp(relay) => push_pair(cmd, "-b", relay.as_str()),
        ScanTechnique::Multiple(techniques) => {
            build_multiple(cmd, techniques, 0);
            proof {
                let views = technique_list_view(techniques@);
                assert(st@ matches ScanTechniqueV::Multiple(_));
                assert(st@->Multiple_0 =~= views);
                assert(views.skip(0) =~= views);
            }
        },
    }
}

fn push_single(cmd: &mut String, f: &str)
    ensures
        final(cmd)@ == old(cmd)@ + render_tail(seq![f@]),
{
    push_tok(cmd, f);
    proof {
        lemma_render_tail_single(f@);
    }
}

fn push_pair(cmd: &mut String, f: &str, v: &str)
    ensures
        final(cmd)@ == old(cmd)@ + render_tail(seq![f@, v@]),
{
    push_tok(cmd, f);
    push_tok(cmd, v);
    proof {
        lemma_render_tail_pair(f@, v@);
        assert(cmd@ =~= old(cmd)@ + render_tail(seq![f@, v@]));
    }
}

/// Emits the members of a composite technique from position `i` on.
fn build_multiple(cmd: &mut String, techniques: &Vec<ScanTechnique>, i: usize)
    requires
        i <= techniques@.len(),
    ensures
        final(cmd)@ == old(cmd)@ + render_tail(
            multiple_tokens(technique_list_view(techniques@).skip(i as int)),
        ),
    decreases *techniques, techniques@.len() - i,
{
    if i == techniques.len() {
        proof {
            assert(technique_list_view(techniques@).skip(i as int)
                =~= Seq::<ScanTechniqueV>::empty());
        }
    } else {
        proof {
            assert(decreases_to!(*techniques => techniques@[i as int]));
        }
        build_scan_technique(cmd, &techniques[i]);
        build_multiple(cmd, techniques, i + 1);
        proof {
            let views = technique_list_view(techniques@);
            assert(views.skip(i as int)[0] == views[i as int]);
            assert(views.skip(i as int).skip(1) =~= views.skip(i + 1));
            assert(multiple_tokens(views.skip(i as int)) == technique_tokens(views[i as int])
                + multiple_tokens(views.skip(i + 1)));
            lemma_render_tail_concat(
                technique_tokens(views[i as int]),
                multiple_tokens(views.skip(i + 1)),
            );
            assert(cmd@ =~= old(cmd)@ + render_tail(multiple_tokens(views.skip(i as int))));
        }
    }
}

/// The views of a list of techniques, element by element.
pub open spec fn technique_list_view(ts: Seq<ScanTechnique>) -> Seq<ScanTechniqueV> {
    ts.map_values(|t: ScanTechnique| technique_view(t))
}

/// Emits the host discovery section.
pub fn build_host_discovery(cmd: &mut String, hd: &HostDiscovery)
    ensures
        final(cmd)@ == old(cmd)@ + render_tail(host_discovery_tokens(hd@)),
{
    let ghost w = hd@;
    let ghost t1 = flag_tok(w.list_scan, "-sL"@);
    let ghost t2 = flag_tok(w.ping_scan, "-sn"@);
    let ghost t3 = flag_tok(w.skip_port_scan, "-Pn"@);
    let ghost t4 = glued_ports_tok(w.syn_discovery, "-PS"@);
    let ghost t5 = glued_ports_tok(w.ack_discovery, "-PA"@);
    let ghost t6 = glued_ports_tok(w.udp_discovery, "-PU"@);
    let ghost t7 = glued_ports_tok(w.sctp_discovery, "-PY"@);
    let ghost t8 = flag_tok(w.icmp_echo, "-PE"@);
    let ghost t9 = flag_tok(w.icmp_timestamp, "-PP"@);
    let ghost t10 = flag_tok(w.icmp_netmask, "-PM"@);
    let ghost t11 = glued_protos_tok(w.ip_protocol_ping, "-PO"@);
    let ghost t12 = flag_tok(w.traceroute, "--traceroute"@);
    let ghost t13 = list_tok(w.dns_servers, "--dns-servers"@);
    let ghost t14 = flag_tok(w.system_dns, "--system-dns"@);
    let ghost a1 = t1;
    let ghost a2 = a1 + t2;
    let ghost a3 = a2 + t3;
    let ghost a4 = a3 + t4;
    let ghost a5 = a4 + t5;
    let ghost a6 = a5 + t6;
    let ghost a7 = a6 + t7;
    let ghost a8 = a7 + t8;
    let ghost a9 = a8 + t9;
    let ghost a10 = a9 + t10;
    let ghost a11 = a10 + t11;
    let ghost a12 = a11 + t12;
    let ghost a13 = a12 + t13;
    let ghost a14 = a13 + t14;
    push_flag_if(cmd, hd.list_scan, "-sL");
    proof {
        assert(cmd@ == old(cmd)@ + render_tail(a1));
    }
    push_flag_if(cmd, hd.ping_scan, "-sn");
    proof {
        lemma_render_tail_concat(a1, t2);
        vstd::seq_lib::lemma_concat_associative(old(cmd)@, render_tail(a1), render_tail(t2));
        assert(cmd@ == old(cmd)@ + render_tail(a2));
    }
    push_flag_if(cmd, hd.skip_port_scan, "-Pn");
    proof {
        lemma_render_tail_concat(a2, t3);
        vstd::seq_lib::lemma_concat_associative(old(cmd)@, render_tail(a2), render_tail(t3));
        assert(cmd@ == old(cmd)@ + render_tail(a3));
    }
    push_glued_ports(cmd, &hd.syn_discovery, "-PS");
    proof {
        lemma_render_tail_concat(a3, t4);
        vstd::seq_lib::lemma_concat_associative(old(cmd)@, render_tail(a3), render_tail(t4));
        assert(cmd@ == old(cmd)@ + render_tail(a4));
    }
    push_glued_ports(cmd, &hd.ack_discovery, "-PA");
    proof {
        lemma_render_tail_concat(a4, t5);
        vstd::seq_lib::lemma_concat_associative(old(cmd)@, render_tail(a4), render_tail(t5));
        assert(cmd@ == old(cmd)@ + render_tail(a5));
    }
    push_glued_ports(cmd, &hd.udp_discovery, "-PU");
    proof {
        lemma_render_tail_concat(a5, t6);
        vstd::seq_lib::lemma_concat_associative(old(cmd)@, render_tail(a5), render_tail(t6));
        assert(cmd@ == old(cmd)@ + render_tail(a6));
    }
    push_glued_ports(cmd, &hd.sctp_discovery, "-PY");
    proof {
        lemma_render_tail_concat(a6, t7);
        vstd::seq_lib::lemma_concat_associative(old(cmd)@, render_tail(a6), render_tail(t7));
        assert(cmd@ == old(cmd)@ + render_tail(a7));
    }
    push_flag_if(cmd, hd.icmp_echo, "-PE");
    proof {
        lemma_render_tail_concat(a7, t8);
        vstd::seq_lib::lemma_concat_associative(old(cmd)@, render_tail(a7), render_tail(t8));
        assert(cmd@ == old(cmd)@ + render_tail(a8));
    }
    push_flag_if(cmd, hd.icmp_timestamp, "-PP");
    proof {
        lemma_render_tail_concat(a8, t9);
        vstd::seq_lib::lemma_concat_associative(old(cmd)@, render_tail(a8), render_tail(t9));
        assert(cmd@ == old(cmd)@ + render_tail(a9));
    }
    push_flag_if(cmd, hd.icmp_netmask, "-PM");
    proof {
        lemma_render_tail_concat(a9, t10);
        vstd::seq_lib::lemma_concat_associative(old(cmd)@, render_tail(a9), render_tail(t10));
        assert(cmd@ == old(cmd)@ + render_tail(a10));
    }
    push_glued_protos(cmd, &hd.ip_protocol_ping, "-PO");
    proof {
        lemma_render_tail_concat(a10, t11);
        vstd::seq_lib::lemma_concat_associative(old(cmd)@, render_tail(a10), render_tail(t11));
        assert(cmd@ == old(cmd)@ + render_tail(a11));
    }
    push_flag_if(cmd, hd.traceroute, "--traceroute");
    proof {
        lemma_render_tail_concat(a11, t12);
        vstd::seq_lib::lemma_concat_associative(old(cmd)@, render_tail(a11), render_tail(t12));
        assert(cmd@ == old(cmd)@ + render_tail(a12));
    }
    push_list(cmd, &hd.dns_servers, "--dns-servers");
    proof {
        lemma_render_tail_concat(a12, t13);
        vstd::seq_lib::lemma_concat_associative(old(cmd)@, render_tail(a12), render_tail(t13));
        assert(cmd@ == old(cmd)@ + render_tail(a13));
    }
    push_flag_if(cmd, hd.system_dns, "--system-dns");
    proof {
        lemma_render_tail_concat(a13, t14);
        vstd::seq_lib::lemma_concat_associative(old(cmd)@, render_tail(a13), render_tail(t14));
        assert(cmd@ == old(cmd)@ + render_tail(a14));
    }
    proof {
        assert(host_discovery_tokens(w) == a14);
    }
}

/// Emits the port specification section.
pub fn build_port_specification(cmd: &mut String, ps: &PortSpecification)
    ensures
        final(cmd)@ == old(cmd)@ + render_tail(port_specification_tokens(ps@)),
{
    let ghost w = ps@;
    let ghost t1 = val_tok(w.ports, "-p"@);
    let ghost t2 = val_tok(w.exclude_ports, "--exclude-ports"@);
    let ghost t3 = flag_tok(w.fast_mode, "-F"@);
    let ghost t4 = flag_tok(w.consecutive_ports, "-r"@);
    let ghost t5 = num_tok(match w.top_ports { Some(n) => Some(n as nat), None => None }, "--top-ports"@);
    let ghost t6 = val_tok(w.port_ratio, "--port-ratio"@);
    let ghost a1 = t1;
    let ghost a2 = a1 + t2;
    let ghost a3 = a2 + t3;
    let ghost a4 = a3 + t4;
    let ghost a5 = a4 + t5;
    let ghost a6 = a5 + t6;
    push_val_opt(cmd, &ps.ports, "-p");
    proof {
        assert(cmd@ == old(cmd)@ + render_tail(a1));
    }
    push_val_opt(cmd, &ps.exclude_ports, "--exclude-ports");
    proof {
        lemma_render_tail_concat(a1, t2);
        vstd::seq_lib::lemma_concat_associative(old(cmd)@, render_tail(a1), render_tail(t2));
        assert(cmd@ == old(cmd)@ + render_tail(a2));
    }
    push_flag_if(cmd, ps.fast_mode, "-F");
    proof {
        lemma_render_tail_concat(a2, t3);
        vstd::seq_lib::lemma_concat_associative(old(cmd)@, render_tail(a2), render_tail(t3));
        assert(cmd@ == old(cmd)@ + render_tail(a3));
    }
    push_flag_if(cmd, ps.consecutive_ports, "-r");
    proof {
        lemma_render_tail_concat(a3, t4);
        vstd::seq_lib::lemma_concat_associative(old(cmd)@, render_tail(a3), render_tail(t4));
        assert(cmd@ == old(cmd)@ + render_tail(a4));
    }
    push_num_u32(cmd, &ps.top_ports, "--top-ports");
    proof {
        lemma_render_tail_concat(a4, t5);
        vstd::seq_lib::lemma_concat_associative(old(cmd)@, render_tail(a4), render_tail(t5));
        assert(cmd@ == old(cmd)@ + render_tail(a5));
    }
    push_val_opt(cmd, &ps.port_ratio, "--port-ratio");
    proof {
        lemma_render_tail_concat(a5, t6);
        vstd::seq_lib::lemma_concat_associative(old(cmd)@, render_tail(a5), render_tail(t6));
        assert(cmd@ == old(cmd)@ + render_tail(a6));
    }
    proof {
        assert(port_specification_tokens(w) == a6);
    }
}

/// Emits the service detection section.
pub fn build_service_detection(cmd: &mut String, sd: &ServiceDetection)
    ensures
        final(cmd)@ == old(cmd)@ + render_tail(service_detection_tokens(sd@)),
{
    let ghost w = sd@;
    let ghost t1 = flag_tok(w.enabled, "-sV"@);
    let ghost t2 = num_tok(match w.intensity { Some(n) => Some(n as nat), None => None }, "--version-intensity"@);
    let ghost t3 = flag_tok(w.light, "--version-light"@);
    let ghost t4 = flag_tok(w.all, "--version-all"@);
    let ghost t5 = flag_tok(w.trace, "--version-trace"@);
    let ghost a1 = t1;
    let ghost a2 = a1 + t2;
    let ghost a3 = a2 + t3;
    let ghost a4 = a3 + t4;
    let ghost a5 = a4 + t5;
    push_flag_if(cmd, sd.enabled, "-sV");
    proof {
        assert(cmd@ == old(cmd)@ + render_tail(a1));
    }
    push_num_u8(cmd, &sd.intensity, "--version-intensity");
    proof {
        lemma_render_tail_concat(a1, t2);
        vstd::seq_lib::lemma_concat_associative(old(cmd)@, render_tail(a1), render_tail(t2));
        assert(cmd@ == old(cmd)@ + render_tail(a2));
    }
    push_flag_if(cmd, sd.light, "--version-light");
    proof {
        lemma_render_tail_concat(a2, t3);
        vstd::seq_lib::lemma_concat_associative(old(cmd)@, render_tail(a2), render_tail(t3));
        assert(cmd@ == old(cmd)@ + render_tail(a3));
    }
    push_flag_if(cmd, sd.all, "--version-all");
    proof {
        lemma_render_tail_concat(a3, t4);
        vstd::seq_lib::lemma_concat_associative(old(cmd)@, render_tail(a3), render_tail(t4));
        assert(cmd@ == old(cmd)@ + render_tail(a4));
    }
    push_flag_if(cmd, sd.trace, "--version-trace");
    proof {
        lemma_render_tail_concat(a4, t5);
        vstd::seq_lib::lemma_concat_associative(old(cmd)@, render_tail(a4), render_tail(t5));
        assert(cmd@ == old(cmd)@ + render_tail(a5));
    }
    proof {
        assert(service_detection_tokens(w) == a5);
    }
}

/// Emits the script scan section.
pub fn build_script_scan(cmd: &mut String, ss: &ScriptScan)
    ensures
        final(cmd)@ == old(cmd)@ + render_tail(script_scan_tokens(ss@)),
{
    let ghost w = ss@;
    let ghost t1 = flag_tok(w.default, "-sC"@);
    let ghost t2 = list_tok(w.scripts, "--script"@);
    let ghost t3 = val_tok(w.script_args, "--script-args"@);
    let ghost t4 = val_tok(w.script_args_file, "--script-args-file"@);
    let ghost t5 = flag_tok(w.script_trace, "--script-trace"@);
    let ghost t6 = flag_tok(w.script_updatedb, "--script-updatedb"@);
    let ghost t7 = val_tok(w.script_help, "--script-help"@);
    let ghost a1 = t1;
    let ghost a2 = a1 + t2;
    let ghost a3 = a2 + t3;
    let ghost a4 = a3 + t4;
    let ghost a5 = a4 + t5;
    let ghost a6 = a5 + t6;
    let ghost a7 = a6 + t7;
    push_flag_if(cmd, ss.default, "-sC");
    proof {
        assert(cmd@ == old(cmd)@ + render_tail(a1));
    }
    push_list(cmd, &ss.scripts, "--script");
    proof {
        lemma_render_tail_concat(a1, t2);
        vstd::seq_lib::lemma_concat_associative(old(cmd)@, render_tail(a1), render_tail(t2));
        assert(cmd@ == old(cmd)@ + render_tail(a2));
    }
    push_val_opt(cmd, &ss.script_args, "--script-args");
    proof {
        lemma_render_tail_concat(a2, t3);
        vstd::seq_lib::lemma_concat_associative(old(cmd)@, render_tail(a2), render_tail(t3));
        assert(cmd@ == old(cmd)@ + render_tail(a3));
    }
    push_val_opt(cmd, &ss.script_args_file, "--script-args-file");
    proof {
        lemma_render_tail_concat(a3, t4);
        vstd::seq_lib::lemma_concat_associative(old(cmd)@, render_tail(a3), render_tail(t4));
        assert(cmd@ == old(cmd)@ + render_tail(a4));
    }
    push_flag_if(cmd, ss.script_trace, "--script-trace");
    proof {
        lemma_render_tail_concat(a4, t5);
        vstd::seq_lib::lemma_concat_associative(old(cmd)@, render_tail(a4), render_tail(t5));
        assert(cmd@ == old(cmd)@ + render_tail(a5));
    }
    push_flag_if(cmd, ss.script_updatedb, "--script-updatedb");
    proof {
        lemma_render_tail_concat(a5, t6);
        vstd::seq_lib::lemma_concat_associative(old(cmd)@, render_tail(a5), render_tail(t6));
        assert(cmd@ == old(cmd)@ + render_tail(a6));
    }
    push_val_opt(cmd, &ss.script_help, "--script-help");
    proof {
        lemma_render_tail_concat(a6, t7);
        vstd::seq_lib::lemma_concat_associative(old(cmd)@, render_tail(a6), render_tail(t7));
        assert(cmd@ == old(cmd)@ + render_tail(a7));
    }
    proof {
        assert(script_scan_tokens(w) == a7);
    }
}

/// Emits the OS detection section.
pub fn build_os_detection(cmd: &mut String, od: &OsDetection)
    ensures
        final(cmd)@ == old(cmd)@ + render_tail(os_detection_tokens(od@)),
{
    let ghost w = od@;
    let ghost t1 = flag_tok(w.enabled, "-O"@);
    let ghost t2 = flag_tok(w.limit, "--osscan-limit"@);
    let ghost t3 = flag_tok(w.guess, "--osscan-guess"@);
    let ghost t4 = num_tok(match w.max_retries { Some(n) => Some(n as nat), None => None }, "--max-os-tries"@);
    let ghost a1 = t1;
    let ghost a2 = a1 + t2;
    let ghost a3 = a2 + t3;
    let ghost a4 = a3 + t4;
    push_flag_if(cmd, od.enabled, "-O");
    proof {
        assert(cmd@ == old(cmd)@ + render_tail(a1));
    }
    push_flag_if(cmd, od.limit, "--osscan-limit");
    proof {
        lemma_render_tail_concat(a1, t2);
        vstd::seq_lib::lemma_concat_associative(old(cmd)@, render_tail(a1), render_tail(t2));
        assert(cmd@ == old(cmd)@ + render_tail(a2));
    }
    push_flag_if(cmd, od.guess, "--osscan-guess");
    proof {
        lemma_render_tail_concat(a2, t3);
        vstd::seq_lib::lemma_concat_associative(old(cmd)@, render_tail(a2), render_tail(t3));
        assert(cmd@ == old(cmd)@ + render_tail(a3));
    }
    push_num_u32(cmd, &od.max_retries, "--max-os-tries");
    proof {
        lemma_render_tail_concat(a3, t4);
        vstd::seq_lib::lemma_concat_associative(old(cmd)@, render_tail(a3), render_tail(t4));
        assert(cmd@ == old(cmd)@ + render_tail(a4));
    }
    proof {
        assert(os_detection_tokens(w) == a4);
    }
}

/// Emits the timing and performance section.
pub fn build_timing_performance(cmd: &mut String, tp: &TimingPerformance)
    ensures
        final(cmd)@ == old(cmd)@ + render_tail(timing_performance_tokens(tp@)),
{
    let ghost w = tp@;
    let ghost t1 = template_tok(w.template);
    let ghost t2 = num_tok(match w.min_hostgroup { Some(n) => Some(n as nat), None => None }, "--min-hostgroup"@);
    let ghost t3 = num_tok(match w.max_hostgroup { Some(n) => Some(n as nat), None => None }, "--max-hostgroup"@);
    let ghost t4 = num_tok(match w.min_parallelism { Some(n) => Some(n as nat), None => None }, "--min-parallelism"@);
    let ghost t5 = num_tok(match w.max_parallelism { Some(n) => Some(n as nat), None => None }, "--max-parallelism"@);
    let ghost t6 = val_tok(w.min_rtt_timeout, "--min-rtt-timeout"@);
    let ghost t7 = val_tok(w.max_rtt_timeout, "--max-rtt-timeout"@);
    let ghost t8 = val_tok(w.initial_rtt_timeout, "--initial-rtt-timeout"@);
    let ghost t9 = num_tok(match w.max_retries { Some(n) => Some(n as nat), None => None }, "--max-retries"@);
    let ghost t10 = val_tok(w.host_timeout, "--host-timeout"@);
    let ghost t11 = val_tok(w.script_timeout, "--script-timeout"@);
    let ghost t12 = val_tok(w.scan_delay, "--scan-delay"@);
    let ghost t13 = val_tok(w.max_scan_delay, "--max-scan-delay"@);
    let ghost t14 = num_tok(match w.min_rate { Some(n) => Some(n as nat), None => None }, "--min-rate"@);
    let ghost t15 = num_tok(match w.max_rate { Some(n) => Some(n as nat), None => None }, "--max-rate"@);
    let ghost t16 = flag_tok(w.defeat_rst_ratelimit, "--defeat-rst-ratelimit"@);
    let ghost t17 = flag_tok(w.defeat_icmp_ratelimit, "--defeat-icmp-ratelimit"@);
    let ghost t18 = val_tok(w.nsock_engine, "--nsock-engine"@);
    let ghost a1 = t1;
    let ghost a2 = a1 + t2;
    let ghost a3 = a2 + t3;
    let ghost a4 = a3 + t4;
    let ghost a5 = a4 + t5;
    let ghost a6 = a5 + t6;
    let ghost a7 = a6 + t7;
    let ghost a8 = a7 + t8;
    let ghost a9 = a8 + t9;
    let ghost a10 = a9 + t10;
    let ghost a11 = a10 + t11;
    let ghost a12 = a11 + t12;
    let ghost a13 = a12 + t13;
    let ghost a14 = a13 + t14;
    let ghost a15 = a14 + t15;
    let ghost a16 = a15 + t16;
    let ghost a17 = a16 + t17;
    let ghost a18 = a17 + t18;
    push_template(cmd, &tp.template);
    proof {
        assert(cmd@ == old(cmd)@ + render_tail(a1));
    }
    push_num_u32(cmd, &tp.min_hostgroup, "--min-hostgroup");
    proof {
        lemma_render_tail_concat(a1, t2);
        vstd::seq_lib::lemma_concat_associative(old(cmd)@, render_tail(a1), render_tail(t2));
        assert(cmd@ == old(cmd)@ + render_tail(a2));
    }
    push_num_u32(cmd, &tp.max_hostgroup, "--max-hostgroup");
    proof {
        lemma_render_tail_concat(a2, t3);
        vstd::seq_lib::lemma_concat_associative(old(cmd)@, render_tail(a2), render_tail(t3));
        assert(cmd@ == old(cmd)@ + render_tail(a3));
    }
    push_num_u32(cmd, &tp.min_parallelism, "--min-parallelism");
    proof {
        lemma_render_tail_concat(a3, t4);
        vstd::seq_lib::lemma_concat_associative(old(cmd)@, render_tail(a3), render_tail(t4));
        assert(cmd@ == old(cmd)@ + render_tail(a4));
    }
    push_num_u32(cmd, &tp.max_parallelism, "--max-parallelism");
    proof {
        lemma_render_tail_concat(a4, t5);
        vstd::seq_lib::lemma_concat_associative(old(cmd)@, render_tail(a4), render_tail(t5));
        assert(cmd@ == old(cmd)@ + render_tail(a5));
    }
    push_val_opt(cmd, &tp.min_rtt_timeout, "--min-rtt-timeout");
    proof {
        lemma_render_tail_concat(a5, t6);
        vstd::seq_lib::lemma_concat_associative(old(cmd)@, render_tail(a5), render_tail(t6));
        assert(cmd@ == old(cmd)@ + render_tail(a6));
    }
    push_val_opt(cmd, &tp.max_rtt_timeout, "--max-rtt-timeout");
    proof {
        lemma_render_tail_concat(a6, t7);
        vstd::seq_lib::lemma_concat_associative(old(cmd)@, render_tail(a6), render_tail(t7));
        assert(cmd@ == old(cmd)@ + render_tail(a7));
    }
    push_val_opt(cmd, &tp.initial_rtt_timeout, "--initial-rtt-timeout");
    proof {
        lemma_render_tail_concat(a7, t8);
        vstd::seq_lib::lemma_concat_associative(old(cmd)@, render_tail(a7), render_tail(t8));
        assert(cmd@ == old(cmd)@ + render_tail(a8));
    }
    push_num_u32(cmd, &tp.max_retries, "--max-retries");
    proof {
        lemma_render_tail_concat(a8, t9);
        vstd::seq_lib::lemma_concat_associative(old(cmd)@, render_tail(a8), render_tail(t9));
        assert(cmd@ == old(cmd)@ + render_tail(a9));
    }
    push_val_opt(cmd, &tp.host_timeout, "--host-timeout");
    proof {
        lemma_render_tail_concat(a9, t10);
        vstd::seq_lib::lemma_concat_associative(old(cmd)@, render_tail(a9), render_tail(t10));
        assert(cmd@ == old(cmd)@ + render_tail(a10));
    }
    push_val_opt(cmd, &tp.script_timeout, "--script-timeout");
    proof {
        lemma_render_tail_concat(a10, t11);
        vstd::seq_lib::lemma_concat_associative(old(cmd)@, render_tail(a10), render_tail(t11));
        assert(cmd@ == old(cmd)@ + render_tail(a11));
    }
    push_val_opt(cmd, &tp.scan_delay, "--scan-delay");
    proof {
        lemma_render_tail_concat(a11, t12);
        vstd::seq_lib::lemma_concat_associative(old(cmd)@, render_tail(a11), render_tail(t12));
        assert(cmd@ == old(cmd)@ + render_tail(a12));
    }
    push_val_opt(cmd, &tp.max_scan_delay, "--max-scan-delay");
    proof {
        lemma_render_tail_concat(a12, t13);
        vstd::seq_lib::lemma_concat_associative(old(cmd)@, render_tail(a12), render_tail(t13));
        assert(cmd@ == old(cmd)@ + render_tail(a13));
    }
    push_num_u32(cmd, &tp.min_rate, "--min-rate");
    proof {
        lemma_render_tail_concat(a13, t14);
        vstd::seq_lib::lemma_concat_associative(old(cmd)@, render_tail(a13), render_tail(t14));
        assert(cmd@ == old(cmd)@ + render_tail(a14));
    }
    push_num_u32(cmd, &tp.max_rate, "--max-rate");
    proof {
        lemma_render_tail_concat(a14, t15);
        vstd::seq_lib::lemma_concat_associative(old(cmd)@, render_tail(a14), render_tail(t15));
        assert(cmd@ == old(cmd)@ + render_tail(a15));
    }
    push_flag_if(cmd, tp.defeat_rst_ratelimit, "--defeat-rst-ratelimit");
    proof {
        lemma_render_tail_concat(a15, t16);
        vstd::seq_lib::lemma_concat_associative(old(cmd)@, render_tail(a15), render_tail(t16));
        assert(cmd@ == old(cmd)@ + render_tail(a16));
    }
    push_flag_if(cmd, tp.defeat_icmp_ratelimit, "--defeat-icmp-ratelimit");
    proof {
        lemma_render_tail_concat(a16, t17);
        vstd::seq_lib::lemma_concat_associative(old(cmd)@, render_tail(a16), render_tail(t17));
        assert(cmd@ == old(cmd)@ + render_tail(a17));
    }
    push_val_opt(cmd, &tp.nsock_engine, "--nsock-engine");
    proof {
        lemma_render_tail_concat(a17, t18);
        vstd::seq_lib::lemma_concat_associative(old(cmd)@, render_tail(a17), render_tail(t18));
        assert(cmd@ == old(cmd)@ + render_tail(a18));
    }
    proof {
        assert(timing_performance_tokens(w) == a18);
    }
}

/// Emits the evasion and spoofing section.
pub fn build_evasion_spoofing(cmd: &mut String, es: &EvasionSpoofing)
    ensures
        final(cmd)@ == old(cmd)@ + render_tail(evasion_spoofing_tokens(es@)),
{
    let ghost w = es@;
    let ghost t1 = flag_tok(w.fragment_packets, "-f"@);
    let ghost t2 = num_tok(match w.mtu { Some(n) => Some(n as nat), None => None }, "--mtu"@);
    let ghost t3 = list_tok(w.decoys, "-D"@);
    let ghost t4 = val_tok(w.spoof_ip, "-S"@);
    let ghost t5 = val_tok(w.interface, "-e"@);
    let ghost t6 = num_tok(match w.source_port { Some(n) => Some(n as nat), None => None }, "-g"@);
    let ghost t7 = val_tok(w.data, "--data"@);
    let ghost t8 = val_tok(w.data_string, "--data-string"@);
    let ghost t9 = num_tok(match w.data_length { Some(n) => Some(n as nat), None => None }, "--data-length"@);
    let ghost t10 = val_tok(w.ip_options, "--ip-options"@);
    let ghost t11 = num_tok(match w.ttl { Some(n) => Some(n as nat), None => None }, "--ttl"@);
    let ghost t12 = flag_tok(w.randomize_hosts, "--randomize-hosts"@);
    let ghost t13 = val_tok(w.spoof_mac, "--spoof-mac"@);
    let ghost t14 = flag_tok(w.badsum, "--badsum"@);
    let ghost t15 = flag_tok(w.adler32, "--adler32"@);
    let ghost a1 = t1;
    let ghost a2 = a1 + t2;
    let ghost a3 = a2 + t3;
    let ghost a4 = a3 + t4;
    let ghost a5 = a4 + t5;
    let ghost a6 = a5 + t6;
    let ghost a7 = a6 + t7;
    let ghost a8 = a7 + t8;
    let ghost a9 = a8 + t9;
    let ghost a10 = a9 + t10;
    let ghost a11 = a10 + t11;
    let ghost a12 = a11 + t12;
    let ghost a13 = a12 + t13;
    let ghost a14 = a13 + t14;
    let ghost a15 = a14 + t15;
    push_flag_if(cmd, es.fragment_packets, "-f");
    proof {
        assert(cmd@ == old(cmd)@ + render_tail(a1));
    }
    push_num_u32(cmd, &es.mtu, "--mtu");
    proof {
        lemma_render_tail_concat(a1, t2);
        vstd::seq_lib::lemma_concat_associative(old(cmd)@, render_tail(a1), render_tail(t2));
        assert(cmd@ == old(cmd)@ + render_tail(a2));
    }
    push_list(cmd, &es.decoys, "-D");
    proof {
        lemma_render_tail_concat(a2, t3);
        vstd::seq_lib::lemma_concat_associative(old(cmd)@, render_tail(a2), render_tail(t3));
        assert(cmd@ == old(cmd)@ + render_tail(a3));
    }
    push_val_opt(cmd, &es.spoof_ip, "-S");
    proof {
        lemma_render_tail_concat(a3, t4);
        vstd::seq_lib::lemma_concat_associative(old(cmd)@, render_tail(a3), render_tail(t4));
        assert(cmd@ == old(cmd)@ + render_tail(a4));
    }
    push_val_opt(cmd, &es.interface, "-e");
    proof {
        lemma_render_tail_concat(a4, t5);
        vstd::seq_lib::lemma_concat_associative(old(cmd)@, render_tail(a4), render_tail(t5));
        assert(cmd@ == old(cmd)@ + render_tail(a5));
    }
    push_num_u16(cmd, &es.source_port, "-g");
    proof {
        lemma_render_tail_concat(a5, t6);
        vstd::seq_lib::lemma_concat_associative(old(cmd)@, render_tail(a5), render_tail(t6));
        assert(cmd@ == old(cmd)@ + render_tail(a6));
    }
    push_val_opt(cmd, &es.data, "--data");
    proof {
        lemma_render_tail_concat(a6, t7);
        vstd::seq_lib::lemma_concat_associative(old(cmd)@, render_tail(a6), render_tail(t7));
        assert(cmd@ == old(cmd)@ + render_tail(a7));
    }
    push_val_opt(cmd, &es.data_string, "--data-string");
    proof {
        lemma_render_tail_concat(a7, t8);
        vstd::seq_lib::lemma_concat_associative(old(cmd)@, render_tail(a7), render_tail(t8));
        assert(cmd@ == old(cmd)@ + render_tail(a8));
    }
    push_num_u32(cmd, &es.data_length, "--data-length");
    proof {
        lemma_render_tail_concat(a8, t9);
        vstd::seq_lib::lemma_concat_associative(old(cmd)@, render_tail(a8), render_tail(t9));
        assert(cmd@ == old(cmd)@ + render_tail(a9));
    }
    push_val_opt(cmd, &es.ip_options, "--ip-options");
    proof {
        lemma_render_tail_concat(a9, t10);
        vstd::seq_lib::lemma_concat_associative(old(cmd)@, render_tail(a9), render_tail(t10));
        assert(cmd@ == old(cmd)@ + render_tail(a10));
    }
    push_num_u8(cmd, &es.ttl, "--ttl");
    proof {
        lemma_render_tail_concat(a10, t11);
        vstd::seq_lib::lemma_concat_associative(old(cmd)@, render_tail(a10), render_tail(t11));
        assert(cmd@ == old(cmd)@ + render_tail(a11));
    }
    push_flag_if(cmd, es.randomize_hosts, "--randomize-hosts");
    proof {
        lemma_render_tail_concat(a11, t12);
        vstd::seq_lib::lemma_concat_associative(old(cmd)@, render_tail(a11), render_tail(t12));
        assert(cmd@ == old(cmd)@ + render_tail(a12));
    }
    push_val_opt(cmd, &es.spoof_mac, "--spoof-mac");
    proof {
        lemma_render_tail_concat(a12, t13);
        vstd::seq_lib::lemma_concat_associative(old(cmd)@, render_tail(a12), render_tail(t13));
        assert(cmd@ == old(cmd)@ + render_tail(a13));
    }
    push_flag_if(cmd, es.badsum, "--badsum");
    proof {
        lemma_render_tail_concat(a13, t14);
        vstd::seq_lib::lemma_concat_associative(old(cmd)@, render_tail(a13), render_tail(t14));
        assert(cmd@ == old(cmd)@ + render_tail(a14));
    }
    push_flag_if(cmd, es.adler32, "--adler32");
    proof {
        lemma_render_tail_concat(a14, t15);
        vstd::seq_lib::lemma_concat_associative(old(cmd)@, render_tail(a14), render_tail(t15));
        assert(cmd@ == old(cmd)@ + render_tail(a15));
    }
    proof {
        assert(evasion_spoofing_tokens(w) == a15);
    }
}

/// Emits the output section.
pub fn build_output(cmd: &mut String, out: &OutputOptions)
    ensures
        final(cmd)@ == old(cmd)@ + render_tail(output_options_tokens(out@)),
{
    let ghost w = out@;
    let ghost t1 = val_tok(w.normal, "-oN"@);
    let ghost t2 = val_tok(w.xml, "-oX"@);
    let ghost t3 = val_tok(w.script_kiddie, "-oS"@);
    let ghost t4 = val_tok(w.grepable, "-oG"@);
    let ghost t5 = val_tok(w.all_formats, "-oA"@);
    let ghost t6 = stacked_tok(w.verbose, "-v"@, "-vv"@);
    let ghost t7 = stacked_tok(w.debug, "-d"@, "-dd"@);
    let ghost t8 = flag_tok(w.reason, "--reason"@);
    let ghost t9 = val_tok(w.stats_every, "--stats-every"@);
    let ghost t10 = flag_tok(w.packet_trace, "--packet-trace"@);
    let ghost t11 = flag_tok(w.open_only, "--open"@);
    let ghost t12 = flag_tok(w.iflist, "--iflist"@);
    let ghost t13 = flag_tok(w.append_output, "--append-output"@);
    let ghost t14 = val_tok(w.resume, "--resume"@);
    let ghost t15 = val_tok(w.stylesheet, "--stylesheet"@);
    let ghost t16 = flag_tok(w.webxml, "--webxml"@);
    let ghost t17 = flag_tok(w.no_stylesheet, "--no-stylesheet"@);
    let ghost a1 = t1;
    let ghost a2 = a1 + t2;
    let ghost a3 = a2 + t3;
    let ghost a4 = a3 + t4;
    let ghost a5 = a4 + t5;
    let ghost a6 = a5 + t6;
    let ghost a7 = a6 + t7;
    let ghost a8 = a7 + t8;
    let ghost a9 = a8 + t9;
    let ghost a10 = a9 + t10;
    let ghost a11 = a10 + t11;
    let ghost a12 = a11 + t12;
    let ghost a13 = a12 + t13;
    let ghost a14 = a13 + t14;
    let ghost a15 = a14 + t15;
    let ghost a16 = a15 + t16;
    let ghost a17 = a16 + t17;
    push_val_opt(cmd, &out.normal, "-oN");
    proof {
        assert(cmd@ == old(cmd)@ + render_tail(a1));
    }
    push_val_opt(cmd, &out.xml, "-oX");
    proof {
        lemma_render_tail_concat(a1, t2);
        vstd::seq_lib::lemma_concat_associative(old(cmd)@, render_tail(a1), render_tail(t2));
        assert(cmd@ == old(cmd)@ + render_tail(a2));
    }
    push_val_opt(cmd, &out.script_kiddie, "-oS");
    proof {
        lemma_render_tail_concat(a2, t3);
        vstd::seq_lib::lemma_concat_associative(old(cmd)@, render_tail(a2), render_tail(t3));
        assert(cmd@ == old(cmd)@ + render_tail(a3));
    }
    push_val_opt(cmd, &out.grepable, "-oG");
    proof {
        lemma_render_tail_concat(a3, t4);
        vstd::seq_lib::lemma_concat_associative(old(cmd)@, render_tail(a3), render_tail(t4));
        assert(cmd@ == old(cmd)@ + render_tail(a4));
    }
    push_val_opt(cmd, &out.all_formats, "-oA");
    proof {
        lemma_render_tail_concat(a4, t5);
        vstd::seq_lib::lemma_concat_associative(old(cmd)@, render_tail(a4), render_tail(t5));
        assert(cmd@ == old(cmd)@ + render_tail(a5));
    }
    push_stacked(cmd, out.verbose, "-v", "-vv");
    proof {
        lemma_render_tail_concat(a5, t6);
        vstd::seq_lib::lemma_concat_associative(old(cmd)@, render_tail(a5), render_tail(t6));
        assert(cmd@ == old(cmd)@ + render_tail(a6));
    }
    push_stacked(cmd, out.debug, "-d", "-dd");
    proof {
        lemma_render_tail_concat(a6, t7);
        vstd::seq_lib::lemma_concat_associative(old(cmd)@, render_tail(a6), render_tail(t7));
        assert(cmd@ == old(cmd)@ + render_tail(a7));
    }
    push_flag_if(cmd, out.reason, "--reason");
    proof {
        lemma_render_tail_concat(a7, t8);
        vstd::seq_lib::lemma_concat_associative(old(cmd)@, render_tail(a7), render_tail(t8));
        assert(cmd@ == old(cmd)@ + render_tail(a8));
    }
    push_val_opt(cmd, &out.stats_every, "--stats-every");
    proof {
        lemma_render_tail_concat(a8, t9);
        vstd::seq_lib::lemma_concat_associative(old(cmd)@, render_tail(a8), render_tail(t9));
        assert(cmd@ == old(cmd)@ + render_tail(a9));
    }
    push_flag_if(cmd, out.packet_trace, "--packet-trace");
    proof {
        lemma_render_tail_concat(a9, t10);
        vstd::seq_lib::lemma_concat_associative(old(cmd)@, render_tail(a9), render_tail(t10));
        assert(cmd@ == old(cmd)@ + render_tail(a10));
    }
    push_flag_if(cmd, out.open_only, "--open");
    proof {
        lemma_render_tail_concat(a10, t11);
        vstd::seq_lib::lemma_concat_associative(old(cmd)@, render_tail(a10), render_tail(t11));
        assert(cmd@ == old(cmd)@ + render_tail(a11));
    }
    push_flag_if(cmd, out.iflist, "--iflist");
    proof {
        lemma_render_tail_concat(a11, t12);
        vstd::seq_lib::lemma_concat_associative(old(cmd)@, render_tail(a11), render_tail(t12));
        assert(cmd@ == old(cmd)@ + render_tail(a12));
    }
    push_flag_if(cmd, out.append_output, "--append-output");
    proof {
        lemma_render_tail_concat(a12, t13);
        vstd::seq_lib::lemma_concat_associative(old(cmd)@, render_tail(a12), render_tail(t13));
        assert(cmd@ == old(cmd)@ + render_tail(a13));
    }
    push_val_opt(cmd, &out.resume, "--resume");
    proof {
        lemma_render_tail_concat(a13, t14);
        vstd::seq_lib::lemma_concat_associative(old(cmd)@, render_tail(a13), render_tail(t14));
        assert(cmd@ == old(cmd)@ + render_tail(a14));
    }
    push_val_opt(cmd, &out.stylesheet, "--stylesheet");
    proof {
        lemma_render_tail_concat(a14, t15);
        vstd::seq_lib::lemma_concat_associative(old(cmd)@, render_tail(a14), render_tail(t15));
        assert(cmd@ == old(cmd)@ + render_tail(a15));
    }
    push_flag_if(cmd, out.webxml, "--webxml");
    proof {
        lemma_render_tail_concat(a15, t16);
        vstd::seq_lib::lemma_concat_associative(old(cmd)@, render_tail(a15), render_tail(t16));
        assert(cmd@ == old(cmd)@ + render_tail(a16));
    }
    push_flag_if(cmd, out.no_stylesheet, "--no-stylesheet");
    proof {
        lemma_render_tail_concat(a16, t17);
        vstd::seq_lib::lemma_concat_associative(old(cmd)@, render_tail(a16), render_tail(t17));
        assert(cmd@ == old(cmd)@ + render_tail(a17));
    }
    proof {
        assert(output_options_tokens(w) == a17);
    }
}

/// Emits the miscellaneous section.
#[verifier::spinoff_prover]
#[verifier::rlimit(100)]
pub fn build_misc(cmd: &mut String, misc: &MiscOptions)
    ensures
        final(cmd)@ == old(cmd)@ + render_tail(misc_options_tokens(misc@)),
{
    let ghost w = misc@;
    let ghost t1 = flag_tok(w.ipv6, "-6"@);
    let ghost t2 = flag_tok(w.aggressive, "-A"@);
    let ghost t3 = val_tok(w.datadir, "--datadir"@);
    let ghost t4 = flag_tok(w.send_eth, "--send-eth"@);
    let ghost t5 = flag_tok(w.send_ip, "--send-ip"@);
    let ghost t6 = flag_tok(w.privileged, "--privileged"@);
    let ghost t7 = flag_tok(w.unprivileged, "--unprivileged"@);
    let ghost t8 = flag_tok(w.release_memory, "--release-memory"@);
    let ghost t9 = flag_tok(w.version, "-V"@);
    let ghost t10 = flag_tok(w.help, "-h"@);
    let ghost t11 = flag_tok(w.resolve_all, "-R"@);
    let ghost t12 = flag_tok(w.no_resolve, "-n"@);
    let ghost t13 = flag_tok(w.unique, "--unique"@);
    let ghost t14 = flag_tok(w.log_errors, "--log-errors"@);
    let ghost a1 = t1;
    let ghost a2 = a1 + t2;
    let ghost a3 = a2 + t3;
    let ghost a4 = a3 + t4;
    let ghost a5 = a4 + t5;
    let ghost a6 = a5 + t6;
    let ghost a7 = a6 + t7;
    let ghost a8 = a7 + t8;
    let ghost a9 = a8 + t9;
    let ghost a10 = a9 + t10;
    let ghost a11 = a10 + t11;
    let ghost a12 = a11 + t12;
    let ghost a13 = a12 + t13;
    let ghost a14 = a13 + t14;
    push_flag_if(cmd, misc.ipv6, "-6");
    proof {
        assert(cmd@ == old(cmd)@ + render_tail(a1));
    }
    push_flag_if(cmd, misc.aggressive, "-A");
    proof {
        lemma_render_tail_concat(a1, t2);
        vstd::seq_lib::lemma_concat_associative(old(cmd)@, render_tail(a1), render_tail(t2));
        assert(cmd@ == old(cmd)@ + render_tail(a2));
    }
    push_val_opt(cmd, &misc.datadir, "--datadir");
    proof {
        lemma_render_tail_concat(a2, t3);
        vstd::seq_lib::lemma_concat_associative(old(cmd)@, render_tail(a2), render_tail(t3));
        assert(cmd@ == old(cmd)@ + render_tail(a3));
    }
    push_flag_if(cmd, misc.send_eth, "--send-eth");
    proof {
        lemma_render_tail_concat(a3, t4);
        vstd::seq_lib::lemma_concat_associative(old(cmd)@, render_tail(a3), render_tail(t4));
        assert(cmd@ == old(cmd)@ + render_tail(a4));
    }
    push_flag_if(cmd, misc.send_ip, "--send-ip");
    proof {
        lemma_render_tail_concat(a4, t5);
        vstd::seq_lib::lemma_concat_associative(old(cmd)@, render_tail(a4), render_tail(t5));
        assert(cmd@ == old(cmd)@ + render_tail(a5));
    }
    push_flag_if(cmd, misc.privileged, "--privileged");
    proof {
        lemma_render_tail_concat(a5, t6);
        vstd::seq_lib::lemma_concat_associative(old(cmd)@, render_tail(a5), render_tail(t6));
        assert(cmd@ == old(cmd)@ + render_tail(a6));
    }
    push_flag_if(cmd, misc.unprivileged, "--unprivileged");
    proof {
        lemma_render_tail_concat(a6, t7);
        vstd::seq_lib::lemma_concat_associative(old(cmd)@, render_tail(a6), render_tail(t7));
        assert(cmd@ == old(cmd)@ + render_tail(a7));
    }
    push_flag_if(cmd, misc.release_memory, "--release-memory");
    proof {
        lemma_render_tail_concat(a7, t8);
        vstd::seq_lib::lemma_concat_associative(old(cmd)@, render_tail(a7), render_tail(t8));
        assert(cmd@ == old(cmd)@ + render_tail(a8));
    }
    push_flag_if(cmd, misc.version, "-V");
    proof {
        lemma_render_tail_concat(a8, t9);
        vstd::seq_lib::lemma_concat_associative(old(cmd)@, render_tail(a8), render_tail(t9));
        assert(cmd@ == old(cmd)@ + render_tail(a9));
    }
    push_flag_if(cmd, misc.help, "-h");
    proof {
        lemma_render_tail_concat(a9, t10);
        vstd::seq_lib::lemma_concat_associative(old(cmd)@, render_tail(a9), render_tail(t10));
        assert(cmd@ == old(cmd)@ + render_tail(a10));
    }
    push_flag_if(cmd, misc.resolve_all, "-R");
    proof {
        lemma_render_tail_concat(a10, t11);
        vstd::seq_lib::lemma_concat_associative(old(cmd)@, render_tail(a10), render_tail(t11));
        assert(cmd@ == old(cmd)@ + render_tail(a11));
    }
    push_flag_if(cmd, misc.no_resolve, "-n");
    proof {
        lemma_render_tail_concat(a11, t12);
        vstd::seq_lib::lemma_concat_associative(old(cmd)@, render_tail(a11), render_tail(t12));
        assert(cmd@ == old(cmd)@ + render_tail(a12));
    }
    push_flag_if(cmd, misc.unique, "--unique");
    proof {
        lemma_render_tail_concat(a12, t13);
        vstd::seq_lib::lemma_concat_associative(old(cmd)@, render_tail(a12), render_tail(t13));
        assert(cmd@ == old(cmd)@ + render_tail(a13));
    }
    push_flag_if(cmd, misc.log_errors, "--log-errors");
    proof {
        lemma_render_tail_concat(a13, t14);
        vstd::seq_lib::lemma_concat_associative(old(cmd)@, render_tail(a13), render_tail(t14));
        assert(cmd@ == old(cmd)@ + render_tail(a14));
    }
    proof {
        assert(misc_options_tokens(w) == a14);
    }
}

/// Emits the target specification section, targets last.
pub fn build_target_specification(cmd: &mut String, ts: &TargetSpecification)
    ensures
        final(cmd)@ == old(cmd)@ + render_tail(target_specification_tokens(ts@)),
{
    let ghost w = ts@;
    let ghost t1 = val_tok(w.input_file, "-iL"@);
    let ghost t2 = num_tok(match w.random_targets { Some(n) => Some(n as nat), None => None }, "-iR"@);
    let ghost t3 = list_tok(w.exclude, "--exclude"@);
    let ghost t4 = val_tok(w.exclude_file, "--exclude-file"@);
    let ghost t5 = w.targets;
    let ghost a1 = t1;
    let ghost a2 = a1 + t2;
    let ghost a3 = a2 + t3;
    let ghost a4 = a3 + t4;
    let ghost a5 = a4 + t5;
    push_val_opt(cmd, &ts.input_file, "-iL");
    proof {
        assert(cmd@ == old(cmd)@ + render_tail(a1));
    }
    push_num_u32(cmd, &ts.random_targets, "-iR");
    proof {
        lemma_render_tail_concat(a1, t2);
        vstd::seq_lib::lemma_concat_associative(old(cmd)@, render_tail(a1), render_tail(t2));
        assert(cmd@ == old(cmd)@ + render_tail(a2));
    }
    push_list(cmd, &ts.exclude, "--exclude");
    proof {
        lemma_render_tail_concat(a2, t3);
        vstd::seq_lib::lemma_concat_associative(old(cmd)@, render_tail(a2), render_tail(t3));
        assert(cmd@ == old(cmd)@ + render_tail(a3));
    }
    push_val_opt(cmd, &ts.exclude_file, "--exclude-file");
    proof {
        lemma_render_tail_concat(a3, t4);
        vstd::seq_lib::lemma_concat_associative(old(cmd)@, render_tail(a3), render_tail(t4));
        assert(cmd@ == old(cmd)@ + render_tail(a4));
    }
    push_targets(cmd, &ts.targets);
    proof {
        lemma_render_tail_concat(a4, t5);
        vstd::seq_lib::lemma_concat_associative(old(cmd)@, render_tail(a4), render_tail(t5));
        assert(cmd@ == old(cmd)@ + render_tail(a5));
    }
    proof {
        assert(target_specification_tokens(w) == a5);
    }
}

} // verus!
