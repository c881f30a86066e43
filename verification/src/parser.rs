//! The command parser: the builder's inverse. It tokenizes, classifies,
//! dispatches each flag against the scanner's fixed vocabulary, coerces
//! values, and yields either a complete configuration or one structured
//! error, never a partial configuration.
use vstd::prelude::*;
use crate::chars::{string_of_chars, chars_of_str, chars_eq_str};
use crate::model::{NmapScan, NmapScanV, TargetSpecificationV, HostDiscoveryV, PortSpecificationV,
    ServiceDetectionV, ScriptScanV, OsDetectionV, TimingPerformanceV, EvasionSpoofingV,
    OutputOptionsV, MiscOptionsV, ScanTechnique, ScanTechniqueV, SctpScanType, TimingTemplate,
    nmap_scan_default};
use crate::numbers::{parse_dec, parse_dec_chars};
use crate::lists::{split_comma, port_list_of, proto_list_of, parse_port_list,
    parse_protocol_list, split_string_list};
use crate::nettext::{is_ip_text, is_ratio_text, ip_string_check, ratio_string_check};
use crate::tokens::{spec_tokenize, tok_rec};

verus! {

/// Why a command string was rejected.
#[derive(Debug, Clone)]
pub enum ParseError {
    InvalidFlag(String),
    InvalidValue(String, String),
    MissingValue(String),
    ConflictingFlags(String, String),
}

/// The mathematical view of a rejection.
pub enum ParseErrorV {
    InvalidFlag(Seq<char>),
    InvalidValue(Seq<char>, Seq<char>),
    MissingValue(Seq<char>),
    ConflictingFlags(Seq<char>, Seq<char>),
}

impl View for ParseError {
    type V = ParseErrorV;

    open spec fn view(&self) -> ParseErrorV {
        match self {
            ParseError::InvalidFlag(f) => ParseErrorV::InvalidFlag(f@),
            ParseError::InvalidValue(f, v) => ParseErrorV::InvalidValue(f@, v@),
            ParseError::MissingValue(f) => ParseErrorV::MissingValue(f@),
            ParseError::ConflictingFlags(a, b) => ParseErrorV::ConflictingFlags(a@, b@),
        }
    }
}

impl ParseError {
    /// The readable description of the rejection, one fixed text per
    /// error kind around the offending tokens.
    pub fn message(&self) -> (r: String)
        ensures
            r@ == (match self@ {
                ParseErrorV::InvalidFlag(f) => "Invalid flag: "@ + f,
                ParseErrorV::InvalidValue(f, v) => "Invalid value '"@ + v + "' for flag "@ + f,
                ParseErrorV::MissingValue(f) => "Missing value for flag "@ + f,
                ParseErrorV::ConflictingFlags(a, b) => "Conflicting flags: "@ + a + " and "@ + b,
            }),
    {
        let mut s = String::new();
        match self {
            ParseError::InvalidFlag(flag) => {
                s.append("Invalid flag: ");
                s.append(flag.as_str());
                proof {
                    assert(s@ =~= "Invalid flag: "@ + flag@);
                }
            },
            ParseError::InvalidValue(flag, val) => {
                s.append("Invalid value '");
                s.append(val.as_str());
                s.append("' for flag ");
                s.append(flag.as_str());
                proof {
                    assert(s@ =~= "Invalid value '"@ + val@ + "' for flag "@ + flag@);
                }
            },
            ParseError::MissingValue(flag) => {
                s.append("Missing value for flag ");
                s.append(flag.as_str());
                proof {
                    assert(s@ =~= "Missing value for flag "@ + flag@);
                }
            },
            ParseError::ConflictingFlags(a, b) => {
                s.append("Conflicting flags: ");
                s.append(a.as_str());
                s.append(" and ");
                s.append(b.as_str());
                proof {
                    assert(s@ =~= "Conflicting flags: "@ + a@ + " and "@ + b@);
                }
            },
        }
        s
    }
}

/// What one flag does to the configuration: proceeds without a value,
/// proceeds consuming the next token, or fails.
pub enum FlagOutcome {
    Ok0(NmapScanV),
    Ok1(NmapScanV),
    Fail(ParseErrorV),
}

/// The executable counterpart of one dispatch step.
pub enum FlagStep {
    NotMine,
    Ok0,
    Ok1,
    Fail(ParseError),
}

/// The view of the token that may follow the flag.
pub open spec fn next_view(next: Option<&String>) -> Option<Seq<char>> {
    match next {
        Some(s) => Some(s@),
        None => None,
    }
}

/// The target flags' dispatch rules.
#[verifier::opaque]
pub open spec fn spec_target_flag(m: NmapScanV, t: Seq<char>, next: Option<Seq<char>>) -> Option<
    FlagOutcome,
> {
    if t == "-iL"@ {
        Some(match next {
        None => FlagOutcome::Fail(ParseErrorV::MissingValue(t)),
        Some(v) => FlagOutcome::Ok1(NmapScanV { target_specification: TargetSpecificationV { input_file: Some(v), ..m.target_specification }, ..m }),
    })
    } else if t == "-iR"@ {
        Some(match next {
        None => FlagOutcome::Fail(ParseErrorV::MissingValue(t)),
        Some(v) => match parse_dec(v, 0xffff_ffff) {
            Some(nv) => FlagOutcome::Ok1(NmapScanV { target_specification: TargetSpecificationV { random_targets: Some(nv as u32), ..m.target_specification }, ..m }),
            None => FlagOutcome::Fail(ParseErrorV::InvalidValue(t, v)),
        },
    })
    } else if t == "--exclude"@ {
        Some(match next {
        None => FlagOutcome::Fail(ParseErrorV::MissingValue(t)),
        Some(v) => FlagOutcome::Ok1(NmapScanV { target_specification: TargetSpecificationV { exclude: split_comma(v), ..m.target_specification }, ..m }),
    })
    } else if t == "--exclude-file"@ {
        Some(match next {
        None => FlagOutcome::Fail(ParseErrorV::MissingValue(t)),
        Some(v) => FlagOutcome::Ok1(NmapScanV { target_specification: TargetSpecificationV { exclude_file: Some(v), ..m.target_specification }, ..m }),
    })
    } else {
        None
    }
}

/// The host_discovery flags' dispatch rules.
#[verifier::opaque]
pub open spec fn spec_host_discovery_flag(m: NmapScanV, t: Seq<char>, next: Option<Seq<char>>) -> Option<
    FlagOutcome,
> {
    if t == "-sL"@ {
        Some(FlagOutcome::Ok0(NmapScanV { host_discovery: HostDiscoveryV { list_scan: true, ..m.host_discovery }, ..m }))
    } else if t == "-sn"@ {
        Some(FlagOutcome::Ok0(NmapScanV { host_discovery: HostDiscoveryV { ping_scan: true, ..m.host_discovery }, ..m }))
    } else if t == "-Pn"@ {
        Some(FlagOutcome::Ok0(NmapScanV { host_discovery: HostDiscoveryV { skip_port_scan: true, ..m.host_discovery }, ..m }))
    } else if t == "-PS"@ {
        Some(match next {
        None => FlagOutcome::Ok0(m),
        Some(v) => if v.len() > 0 && v[0] == '-' {
            FlagOutcome::Ok0(m)
        } else {
            FlagOutcome::Ok1(NmapScanV { host_discovery: HostDiscoveryV { syn_discovery: port_list_of(v), ..m.host_discovery }, ..m })
        },
    })
    } else if t == "-PA"@ {
        Some(match next {
        None => FlagOutcome::Ok0(m),
        Some(v) => if v.len() > 0 && v[0] == '-' {
            FlagOutcome::Ok0(m)
        } else {
            FlagOutcome::Ok1(NmapScanV { host_discovery: HostDiscoveryV { ack_discovery: port_list_of(v), ..m.host_discovery }, ..m })
        },
    })
    } else if t == "-PU"@ {
        Some(match next {
        None => FlagOutcome::Ok0(m),
        Some(v) => if v.len() > 0 && v[0] == '-' {
            FlagOutcome::Ok0(m)
        } else {
            FlagOutcome::Ok1(NmapScanV { host_discovery: HostDiscoveryV { udp_discovery: port_list_of(v), ..m.host_discovery }, ..m })
        },
    })
    } else if t == "-PY"@ {
        Some(match next {
        None => FlagOutcome::Ok0(m),
        Some(v) => if v.len() > 0 && v[0] == '-' {
            FlagOutcome::Ok0(m)
        } else {
            FlagOutcome::Ok1(NmapScanV { host_discovery: HostDiscoveryV { sctp_discovery: port_list_of(v), ..m.host_discovery }, ..m })
        },
    })
    } else if t == "-PE"@ {
        Some(FlagOutcome::Ok0(NmapScanV { host_discovery: HostDiscoveryV { icmp_echo: true, ..m.host_discovery }, ..m }))
    } else if t == "-PP"@ {
        Some(FlagOutcome::Ok0(NmapScanV { host_discovery: HostDiscoveryV { icmp_timestamp: true, ..m.host_discovery }, ..m }))
    } else if t == "-PM"@ {
        Some(FlagOutcome::Ok0(NmapScanV { host_discovery: HostDiscoveryV { icmp_netmask: true, ..m.host_discovery }, ..m }))
    } else if t == "-PO"@ {
        Some(match next {
        None => FlagOutcome::Ok0(m),
        Some(v) => if v.len() > 0 && v[0] == '-' {
            FlagOutcome::Ok0(m)
        } else {
            FlagOutcome::Ok1(NmapScanV { host_discovery: HostDiscoveryV { ip_protocol_ping: proto_list_of(v), ..m.host_discovery }, ..m })
        },
    })
    } else if t == "--traceroute"@ {
        Some(FlagOutcome::Ok0(NmapScanV { host_discovery: HostDiscoveryV { traceroute: true, ..m.host_discovery }, ..m }))
    } else if t == "--dns-servers"@ {
        Some(match next {
        None => FlagOutcome::Fail(ParseErrorV::MissingValue(t)),
        Some(v) => FlagOutcome::Ok1(NmapScanV { host_discovery: HostDiscoveryV { dns_servers: split_comma(v), ..m.host_discovery }, ..m }),
    })
    } else if t == "--system-dns"@ {
        Some(FlagOutcome::Ok0(NmapScanV { host_discovery: HostDiscoveryV { system_dns: true, ..m.host_discovery }, ..m }))
    } else if t.len() > 3 && t[0] == '-' && t[1] == 'P' && t[2] == 'S' {
        Some(FlagOutcome::Ok0(NmapScanV { host_discovery: HostDiscoveryV { syn_discovery: port_list_of(t.skip(3)), ..m.host_discovery }, ..m }))
    } else if t.len() > 3 && t[0] == '-' && t[1] == 'P' && t[2] == 'A' {
        Some(FlagOutcome::Ok0(NmapScanV { host_discovery: HostDiscoveryV { ack_discovery: port_list_of(t.skip(3)), ..m.host_discovery }, ..m }))
    } else if t.len() > 3 && t[0] == '-' && t[1] == 'P' && t[2] == 'U' {
        Some(FlagOutcome::Ok0(NmapScanV { host_discovery: HostDiscoveryV { udp_discovery: port_list_of(t.skip(3)), ..m.host_discovery }, ..m }))
    } else if t.len() > 3 && t[0] == '-' && t[1] == 'P' && t[2] == 'Y' {
        Some(FlagOutcome::Ok0(NmapScanV { host_discovery: HostDiscoveryV { sctp_discovery: port_list_of(t.skip(3)), ..m.host_discovery }, ..m }))
    } else if t.len() > 3 && t[0] == '-' && t[1] == 'P' && t[2] == 'O' {
        Some(FlagOutcome::Ok0(NmapScanV { host_discovery: HostDiscoveryV { ip_protocol_ping: proto_list_of(t.skip(3)), ..m.host_discovery }, ..m }))
    } else {
        None
    }
}

/// The technique flags' dispatch rules.
#[verifier::opaque]
pub open spec fn spec_technique_flag(m: NmapScanV, t: Seq<char>, next: Option<Seq<char>>) -> Option<
    FlagOutcome,
> {
    if t == "-sS"@ {
        Some(FlagOutcome::Ok0(NmapScanV { scan_technique: ScanTechniqueV::Syn, ..m }))
    } else if t == "-sT"@ {
        Some(FlagOutcome::Ok0(NmapScanV { scan_technique: ScanTechniqueV::Connect, ..m }))
    } else if t == "-sA"@ {
        Some(FlagOutcome::Ok0(NmapScanV { scan_technique: ScanTechniqueV::Ack, ..m }))
    } else if t == "-sW"@ {
        Some(FlagOutcome::Ok0(NmapScanV { scan_technique: ScanTechniqueV::Window, ..m }))
    } else if t == "-sM"@ {
        Some(FlagOutcome::Ok0(NmapScanV { scan_technique: ScanTechniqueV::Maimon, ..m }))
    } else if t == "-sU"@ {
        Some(FlagOutcome::Ok0(NmapScanV { scan_technique: ScanTechniqueV::Udp, ..m }))
    } else if t == "-sN"@ {
        Some(FlagOutcome::Ok0(NmapScanV { scan_technique: ScanTechniqueV::TcpNull, ..m }))
    } else if t == "-sF"@ {
        Some(FlagOutcome::Ok0(NmapScanV { scan_technique: ScanTechniqueV::Fin, ..m }))
    } else if t == "-sX"@ {
        Some(FlagOutcome::Ok0(NmapScanV { scan_technique: ScanTechniqueV::Xmas, ..m }))
    } else if t == "-sY"@ {
        Some(FlagOutcome::Ok0(NmapScanV { scan_technique: ScanTechniqueV::Sctp(true), ..m }))
    } else if t == "-sZ"@ {
        Some(FlagOutcome::Ok0(NmapScanV { scan_technique: ScanTechniqueV::Sctp(false), ..m }))
    } else if t == "-sO"@ {
        Some(FlagOutcome::Ok0(NmapScanV { scan_technique: ScanTechniqueV::IpProtocol, ..m }))
    } else if t == "--scanflags"@ {
        Some(match next {
        None => FlagOutcome::Fail(ParseErrorV::MissingValue(t)),
        Some(v) => FlagOutcome::Ok1(NmapScanV { scan_technique: ScanTechniqueV::Scanflags(v), ..m }),
    })
    } else if t == "-sI"@ {
        Some(match next {
        None => FlagOutcome::Fail(ParseErrorV::MissingValue(t)),
        Some(v) => FlagOutcome::Ok1(NmapScanV { scan_technique: ScanTechniqueV::Idle(v), ..m }),
    })
    } else if t == "-b"@ {
        Some(match next {
        None => FlagOutcome::Fail(ParseErrorV::MissingValue(t)),
        Some(v) => FlagOutcome::Ok1(NmapScanV { scan_technique: ScanTechniqueV::Ftp(v), ..m }),
    })
    } else {
        None
    }
}

/// The ports flags' dispatch rules.
#[verifier::opaque]
pub open spec fn spec_ports_flag(m: NmapScanV, t: Seq<char>, next: Option<Seq<char>>) -> Option<
    FlagOutcome,
> {
    if t == "-p"@ {
        Some(match next {
        None => FlagOutcome::Fail(ParseErrorV::MissingValue(t)),
        Some(v) => FlagOutcome::Ok1(NmapScanV { ports: PortSpecificationV { ports: Some(v), ..m.ports }, ..m }),
    })
    } else if t.len() > 2 && t[0] == '-' && t[1] == 'p' {
        Some(FlagOutcome::Ok0(NmapScanV { ports: PortSpecificationV { ports: Some(t.skip(2)), ..m.ports }, ..m }))
    } else if t == "--exclude-ports"@ {
        Some(match next {
        None => FlagOutcome::Fail(ParseErrorV::MissingValue(t)),
        Some(v) => FlagOutcome::Ok1(NmapScanV { ports: PortSpecificationV { exclude_ports: Some(v), ..m.ports }, ..m }),
    })
    } else if t == "-F"@ {
        Some(FlagOutcome::Ok0(NmapScanV { ports: PortSpecificationV { fast_mode: true, ..m.ports }, ..m }))
    } else if t == "-r"@ {
        Some(FlagOutcome::Ok0(NmapScanV { ports: PortSpecificationV { consecutive_ports: true, ..m.ports }, ..m }))
    } else if t == "--top-ports"@ {
        Some(match next {
        None => FlagOutcome::Fail(ParseErrorV::MissingValue(t)),
        Some(v) => match parse_dec(v, 0xffff_ffff) {
            Some(nv) => FlagOutcome::Ok1(NmapScanV { ports: PortSpecificationV { top_ports: Some(nv as u32), ..m.ports }, ..m }),
            None => FlagOutcome::Fail(ParseErrorV::InvalidValue(t, v)),
        },
    })
    } else if t == "--port-ratio"@ {
        Some(match next {
        None => FlagOutcome::Fail(ParseErrorV::MissingValue(t)),
        Some(v) => if is_ratio_text(v) {
            FlagOutcome::Ok1(NmapScanV { ports: PortSpecificationV { port_ratio: Some(v), ..m.ports }, ..m })
        } else {
            FlagOutcome::Fail(ParseErrorV::InvalidValue(t, v))
        },
    })
    } else {
        None
    }
}

/// The service flags' dispatch rules.
#[verifier::opaque]
pub open spec fn spec_service_flag(m: NmapScanV, t: Seq<char>, next: Option<Seq<char>>) -> Option<
    FlagOutcome,
> {
    if t == "-sV"@ {
        Some(FlagOutcome::Ok0(NmapScanV { service_detection: ServiceDetectionV { enabled: true, ..m.service_detection }, ..m }))
    } else if t == "--version-intensity"@ {
        Some(match next {
        None => FlagOutcome::Fail(ParseErrorV::MissingValue(t)),
        Some(v) => match parse_dec(v, 0xff) {
            Some(nv) => FlagOutcome::Ok1(NmapScanV { service_detection: ServiceDetectionV { intensity: Some(nv as u8), ..m.service_detection }, ..m }),
            None => FlagOutcome::Fail(ParseErrorV::InvalidValue(t, v)),
        },
    })
    } else if t == "--version-light"@ {
        Some(FlagOutcome::Ok0(NmapScanV { service_detection: ServiceDetectionV { light: true, ..m.service_detection }, ..m }))
    } else if t == "--version-all"@ {
        Some(FlagOutcome::Ok0(NmapScanV { service_detection: ServiceDetectionV { all: true, ..m.service_detection }, ..m }))
    } else if t == "--version-trace"@ {
        Some(FlagOutcome::Ok0(NmapScanV { service_detection: ServiceDetectionV { trace: true, ..m.service_detection }, ..m }))
    } else {
        None
    }
}

/// The script flags' dispatch rules.
#[verifier::opaque]
pub open spec fn spec_script_flag(m: NmapScanV, t: Seq<char>, next: Option<Seq<char>>) -> Option<
    FlagOutcome,
> {
    if t == "-sC"@ {
        Some(FlagOutcome::Ok0(NmapScanV { script_scan: ScriptScanV { default: true, ..m.script_scan }, ..m }))
    } else if t == "--script"@ {
        Some(match next {
        None => FlagOutcome::Fail(ParseErrorV::MissingValue(t)),
        Some(v) => FlagOutcome::Ok1(NmapScanV { script_scan: ScriptScanV { scripts: split_comma(v), ..m.script_scan }, ..m }),
    })
    } else if t == "--script-args"@ {
        Some(match next {
        None => FlagOutcome::Fail(ParseErrorV::MissingValue(t)),
        Some(v) => FlagOutcome::Ok1(NmapScanV { script_scan: ScriptScanV { script_args: Some(v), ..m.script_scan }, ..m }),
    })
    } else if t == "--script-args-file"@ {
        Some(match next {
        None => FlagOutcome::Fail(ParseErrorV::MissingValue(t)),
        Some(v) => FlagOutcome::Ok1(NmapScanV { script_scan: ScriptScanV { script_args_file: Some(v), ..m.script_scan }, ..m }),
    })
    } else if t == "--script-trace"@ {
        Some(FlagOutcome::Ok0(NmapScanV { script_scan: ScriptScanV { script_trace: true, ..m.script_scan }, ..m }))
    } else if t == "--script-updatedb"@ {
        Some(FlagOutcome::Ok0(NmapScanV { script_scan: ScriptScanV { script_updatedb: true, ..m.script_scan }, ..m }))
    } else if t == "--script-help"@ {
        Some(match next {
        None => FlagOutcome::Fail(ParseErrorV::MissingValue(t)),
        Some(v) => FlagOutcome::Ok1(NmapScanV { script_scan: ScriptScanV { script_help: Some(v), ..m.script_scan }, ..m }),
    })
    } else {
        None
    }
}

/// The os flags' dispatch rules.
#[verifier::opaque]
pub open spec fn spec_os_flag(m: NmapScanV, t: Seq<char>, next: Option<Seq<char>>) -> Option<
    FlagOutcome,
> {
    if t == "-O"@ {
        Some(FlagOutcome::Ok0(NmapScanV { os_detection: OsDetectionV { enabled: true, ..m.os_detection }, ..m }))
    } else if t == "--osscan-limit"@ {
        Some(FlagOutcome::Ok0(NmapScanV { os_detection: OsDetectionV { limit: true, ..m.os_detection }, ..m }))
    } else if t == "--osscan-guess"@ {
        Some(FlagOutcome::Ok0(NmapScanV { os_detection: OsDetectionV { guess: true, ..m.os_detection }, ..m }))
    } else if t == "--max-os-tries"@ {
        Some(match next {
        None => FlagOutcome::Fail(ParseErrorV::MissingValue(t)),
        Some(v) => match parse_dec(v, 0xffff_ffff) {
            Some(nv) => FlagOutcome::Ok1(NmapScanV { os_detection: OsDetectionV { max_retries: Some(nv as u32), ..m.os_detection }, ..m }),
            None => FlagOutcome::Fail(ParseErrorV::InvalidValue(t, v)),
        },
    })
    } else {
        None
    }
}

/// The timing flags' dispatch rules.
#[verifier::opaque]
pub open spec fn spec_timing_flag(m: NmapScanV, t: Seq<char>, next: Option<Seq<char>>) -> Option<
    FlagOutcome,
> {
    if t == "-T0"@ {
        Some(FlagOutcome::Ok0(NmapScanV { timing: TimingPerformanceV { template: Some(TimingTemplate::Paranoid), ..m.timing }, ..m }))
    } else if t == "-T1"@ {
        Some(FlagOutcome::Ok0(NmapScanV { timing: TimingPerformanceV { template: Some(TimingTemplate::Sneaky), ..m.timing }, ..m }))
    } else if t == "-T2"@ {
        Some(FlagOutcome::Ok0(NmapScanV { timing: TimingPerformanceV { template: Some(TimingTemplate::Polite), ..m.timing }, ..m }))
    } else if t == "-T3"@ {
        Some(FlagOutcome::Ok0(NmapScanV { timing: TimingPerformanceV { template: Some(TimingTemplate::Normal), ..m.timing }, ..m }))
    } else if t == "-T4"@ {
        Some(FlagOutcome::Ok0(NmapScanV { timing: TimingPerformanceV { template: Some(TimingTemplate::Aggressive), ..m.timing }, ..m }))
    } else if t == "-T5"@ {
        Some(FlagOutcome::Ok0(NmapScanV { timing: TimingPerformanceV { template: Some(TimingTemplate::Insane), ..m.timing }, ..m }))
    } else if t == "--min-hostgroup"@ {
        Some(match next {
        None => FlagOutcome::Fail(ParseErrorV::MissingValue(t)),
        Some(v) => match parse_dec(v, 0xffff_ffff) {
            Some(nv) => FlagOutcome::Ok1(NmapScanV { timing: TimingPerformanceV { min_hostgroup: Some(nv as u32), ..m.timing }, ..m }),
            None => FlagOutcome::Fail(ParseErrorV::InvalidValue(t, v)),
        },
    })
    } else if t == "--max-hostgroup"@ {
        Some(match next {
        None => FlagOutcome::Fail(ParseErrorV::MissingValue(t)),
        Some(v) => match parse_dec(v, 0xffff_ffff) {
            Some(nv) => FlagOutcome::Ok1(NmapScanV { timing: TimingPerformanceV { max_hostgroup: Some(nv as u32), ..m.timing }, ..m }),
            None => FlagOutcome::Fail(ParseErrorV::InvalidValue(t, v)),
        },
    })
    } else if t == "--min-parallelism"@ {
        Some(match next {
        None => FlagOutcome::Fail(ParseErrorV::MissingValue(t)),
        Some(v) => match parse_dec(v, 0xffff_ffff) {
            Some(nv) => FlagOutcome::Ok1(NmapScanV { timing: TimingPerformanceV { min_parallelism: Some(nv as u32), ..m.timing }, ..m }),
            None => FlagOutcome::Fail(ParseErrorV::InvalidValue(t, v)),
        },
    })
    } else if t == "--max-parallelism"@ {
        Some(match next {
        None => FlagOutcome::Fail(ParseErrorV::MissingValue(t)),
        Some(v) => match parse_dec(v, 0xffff_ffff) {
            Some(nv) => FlagOutcome::Ok1(NmapScanV { timing: TimingPerformanceV { max_parallelism: Some(nv as u32), ..m.timing }, ..m }),
            None => FlagOutcome::Fail(ParseErrorV::InvalidValue(t, v)),
        },
    })
    } else if t == "--min-rtt-timeout"@ {
        Some(match next {
        None => FlagOutcome::Fail(ParseErrorV::MissingValue(t)),
        Some(v) => FlagOutcome::Ok1(NmapScanV { timing: TimingPerformanceV { min_rtt_timeout: Some(v), ..m.timing }, ..m }),
    })
    } else if t == "--max-rtt-timeout"@ {
        Some(match next {
        None => FlagOutcome::Fail(ParseErrorV::MissingValue(t)),
        Some(v) => FlagOutcome::Ok1(NmapScanV { timing: TimingPerformanceV { max_rtt_timeout: Some(v), ..m.timing }, ..m }),
    })
    } else if t == "--initial-rtt-timeout"@ {
        Some(match next {
        None => FlagOutcome::Fail(ParseErrorV::MissingValue(t)),
        Some(v) => FlagOutcome::Ok1(NmapScanV { timing: TimingPerformanceV { initial_rtt_timeout: Some(v), ..m.timing }, ..m }),
    })
    } else if t == "--max-retries"@ {
        Some(match next {
        None => FlagOutcome::Fail(ParseErrorV::MissingValue(t)),
        Some(v) => match parse_dec(v, 0xffff_ffff) {
            Some(nv) => FlagOutcome::Ok1(NmapScanV { timing: TimingPerformanceV { max_retries: Some(nv as u32), ..m.timing }, ..m }),
            None => FlagOutcome::Fail(ParseErrorV::InvalidValue(t, v)),
        },
    })
    } else if t == "--host-timeout"@ {
        Some(match next {
        None => FlagOutcome::Fail(ParseErrorV::MissingValue(t)),
        Some(v) => FlagOutcome::Ok1(NmapScanV { timing: TimingPerformanceV { host_timeout: Some(v), ..m.timing }, ..m }),
    })
    } else if t == "--script-timeout"@ {
        Some(match next {
        None => FlagOutcome::Fail(ParseErrorV::MissingValue(t)),
        Some(v) => FlagOutcome::Ok1(NmapScanV { timing: TimingPerformanceV { script_timeout: Some(v), ..m.timing }, ..m }),
    })
    } else if t == "--scan-delay"@ {
        Some(match next {
        None => FlagOutcome::Fail(ParseErrorV::MissingValue(t)),
        Some(v) => FlagOutcome::Ok1(NmapScanV { timing: TimingPerformanceV { scan_delay: Some(v), ..m.timing }, ..m }),
    })
    } else if t == "--max-scan-delay"@ {
        Some(match next {
        None => FlagOutcome::Fail(ParseErrorV::MissingValue(t)),
        Some(v) => FlagOutcome::Ok1(NmapScanV { timing: TimingPerformanceV { max_scan_delay: Some(v), ..m.timing }, ..m }),
    })
    } else if t == "--min-rate"@ {
        Some(match next {
        None => FlagOutcome::Fail(ParseErrorV::MissingValue(t)),
        Some(v) => match parse_dec(v, 0xffff_ffff) {
            Some(nv) => FlagOutcome::Ok1(NmapScanV { timing: TimingPerformanceV { min_rate: Some(nv as u32), ..m.timing }, ..m }),
            None => FlagOutcome::Fail(ParseErrorV::InvalidValue(t, v)),
        },
    })
    } else if t == "--max-rate"@ {
        Some(match next {
        None => FlagOutcome::Fail(ParseErrorV::MissingValue(t)),
        Some(v) => match parse_dec(v, 0xffff_ffff) {
            Some(nv) => FlagOutcome::Ok1(NmapScanV { timing: TimingPerformanceV { max_rate: Some(nv as u32), ..m.timing }, ..m }),
            None => FlagOutcome::Fail(ParseErrorV::InvalidValue(t, v)),
        },
    })
    } else if t == "--defeat-rst-ratelimit"@ {
        Some(FlagOutcome::Ok0(NmapScanV { timing: TimingPerformanceV { defeat_rst_ratelimit: true, ..m.timing }, ..m }))
    } else if t == "--defeat-icmp-ratelimit"@ {
        Some(FlagOutcome::Ok0(NmapScanV { timing: TimingPerformanceV { defeat_icmp_ratelimit: true, ..m.timing }, ..m }))
    } else if t == "--nsock-engine"@ {
        Some(match next {
        None => FlagOutcome::Fail(ParseErrorV::MissingValue(t)),
        Some(v) => FlagOutcome::Ok1(NmapScanV { timing: TimingPerformanceV { nsock_engine: Some(v), ..m.timing }, ..m }),
    })
    } else {
        None
    }
}

/// The evasion flags' dispatch rules.
#[verifier::opaque]
pub open spec fn spec_evasion_flag(m: NmapScanV, t: Seq<char>, next: Option<Seq<char>>) -> Option<
    FlagOutcome,
> {
    if t == "-f"@ {
        Some(FlagOutcome::Ok0(NmapScanV { evasion: EvasionSpoofingV { fragment_packets: true, ..m.evasion }, ..m }))
    } else if t == "--mtu"@ {
        Some(match next {
        None => FlagOutcome::Fail(ParseErrorV::MissingValue(t)),
        Some(v) => match parse_dec(v, 0xffff_ffff) {
            Some(nv) => FlagOutcome::Ok1(NmapScanV { evasion: EvasionSpoofingV { mtu: Some(nv as u32), ..m.evasion }, ..m }),
            None => FlagOutcome::Fail(ParseErrorV::InvalidValue(t, v)),
        },
    })
    } else if t == "-D"@ {
        Some(match next {
        None => FlagOutcome::Fail(ParseErrorV::MissingValue(t)),
        Some(v) => FlagOutcome::Ok1(NmapScanV { evasion: EvasionSpoofingV { decoys: split_comma(v), ..m.evasion }, ..m }),
    })
    } else if t == "-S"@ {
        Some(match next {
        None => FlagOutcome::Fail(ParseErrorV::MissingValue(t)),
        Some(v) => if is_ip_text(v) {
            FlagOutcome::Ok1(NmapScanV { evasion: EvasionSpoofingV { spoof_ip: Some(v), ..m.evasion }, ..m })
        } else {
            FlagOutcome::Fail(ParseErrorV::InvalidValue(t, v))
        },
    })
    } else if t == "-e"@ {
        Some(match next {
        None => FlagOutcome::Fail(ParseErrorV::MissingValue(t)),
        Some(v) => FlagOutcome::Ok1(NmapScanV { evasion: EvasionSpoofingV { interface: Some(v), ..m.evasion }, ..m }),
    })
    } else if t == "-g"@ || t == "--source-port"@ {
        Some(match next {
        None => FlagOutcome::Fail(ParseErrorV::MissingValue(t)),
        Some(v) => match parse_dec(v, 0xffff) {
            Some(nv) => FlagOutcome::Ok1(NmapScanV { evasion: EvasionSpoofingV { source_port: Some(nv as u16), ..m.evasion }, ..m }),
            None => FlagOutcome::Fail(ParseErrorV::InvalidValue(t, v)),
        },
    })
    } else if t == "--data"@ {
        Some(match next {
        None => FlagOutcome::Fail(ParseErrorV::MissingValue(t)),
        Some(v) => FlagOutcome::Ok1(NmapScanV { evasion: EvasionSpoofingV { data: Some(v), ..m.evasion }, ..m }),
    })
    } else if t == "--data-string"@ {
        Some(match next {
        None => FlagOutcome::Fail(ParseErrorV::MissingValue(t)),
        Some(v) => FlagOutcome::Ok1(NmapScanV { evasion: EvasionSpoofingV { data_string: Some(v), ..m.evasion }, ..m }),
    })
    } else if t == "--data-length"@ {
        Some(match next {
        None => FlagOutcome::Fail(ParseErrorV::MissingValue(t)),
        Some(v) => match parse_dec(v, 0xffff_ffff) {
            Some(nv) => FlagOutcome::Ok1(NmapScanV { evasion: EvasionSpoofingV { data_length: Some(nv as u32), ..m.evasion }, ..m }),
            None => FlagOutcome::Fail(ParseErrorV::InvalidValue(t, v)),
        },
    })
    } else if t == "--ip-options"@ {
        Some(match next {
        None => FlagOutcome::Fail(ParseErrorV::MissingValue(t)),
        Some(v) => FlagOutcome::Ok1(NmapScanV { evasion: EvasionSpoofingV { ip_options: Some(v), ..m.evasion }, ..m }),
    })
    } else if t == "--ttl"@ {
        Some(match next {
        None => FlagOutcome::Fail(ParseErrorV::MissingValue(t)),
        Some(v) => match parse_dec(v, 0xff) {
            Some(nv) => FlagOutcome::Ok1(NmapScanV { evasion: EvasionSpoofingV { ttl: Some(nv as u8), ..m.evasion }, ..m }),
            None => FlagOutcome::Fail(ParseErrorV::InvalidValue(t, v)),
        },
    })
    } else if t == "--randomize-hosts"@ {
        Some(FlagOutcome::Ok0(NmapScanV { evasion: EvasionSpoofingV { randomize_hosts: true, ..m.evasion }, ..m }))
    } else if t == "--spoof-mac"@ {
        Some(match next {
        None => FlagOutcome::Fail(ParseErrorV::MissingValue(t)),
        Some(v) => FlagOutcome::Ok1(NmapScanV { evasion: EvasionSpoofingV { spoof_mac: Some(v), ..m.evasion }, ..m }),
    })
    } else if t == "--badsum"@ {
        Some(FlagOutcome::Ok0(NmapScanV { evasion: EvasionSpoofingV { badsum: true, ..m.evasion }, ..m }))
    } else if t == "--adler32"@ {
        Some(FlagOutcome::Ok0(NmapScanV { evasion: EvasionSpoofingV { adler32: true, ..m.evasion }, ..m }))
    } else {
        None
    }
}

/// The output flags' dispatch rules.
#[verifier::opaque]
pub open spec fn spec_output_flag(m: NmapScanV, t: Seq<char>, next: Option<Seq<char>>) -> Option<
    FlagOutcome,
> {
    if t == "-oN"@ {
        Some(match next {
        None => FlagOutcome::Fail(ParseErrorV::MissingValue(t)),
        Some(v) => FlagOutcome::Ok1(NmapScanV { output: OutputOptionsV { normal: Some(v), ..m.output }, ..m }),
    })
    } else if t == "-oX"@ {
        Some(match next {
        None => FlagOutcome::Fail(ParseErrorV::MissingValue(t)),
        Some(v) => FlagOutcome::Ok1(NmapScanV { output: OutputOptionsV { xml: Some(v), ..m.output }, ..m }),
    })
    } else if t == "-oS"@ {
        Some(match next {
        None => FlagOutcome::Fail(ParseErrorV::MissingValue(t)),
        Some(v) => FlagOutcome::Ok1(NmapScanV { output: OutputOptionsV { script_kiddie: Some(v), ..m.output }, ..m }),
    })
    } else if t == "-oG"@ {
        Some(match next {
        None => FlagOutcome::Fail(ParseErrorV::MissingValue(t)),
        Some(v) => FlagOutcome::Ok1(NmapScanV { output: OutputOptionsV { grepable: Some(v), ..m.output }, ..m }),
    })
    } else if t == "-oA"@ {
        Some(match next {
        None => FlagOutcome::Fail(ParseErrorV::MissingValue(t)),
        Some(v) => FlagOutcome::Ok1(NmapScanV { output: OutputOptionsV { all_formats: Some(v), ..m.output }, ..m }),
    })
    } else if t == "-v"@ {
        Some(FlagOutcome::Ok0(NmapScanV { output: OutputOptionsV { verbose: (if m.output.verbose == 255 { 255u8 } else { (m.output.verbose + 1) as u8 }), ..m.output }, ..m }))
    } else if t == "-vv"@ {
        Some(FlagOutcome::Ok0(NmapScanV { output: OutputOptionsV { verbose: (if m.output.verbose >= 254 { 255u8 } else { (m.output.verbose + 2) as u8 }), ..m.output }, ..m }))
    } else if t == "-d"@ {
        Some(FlagOutcome::Ok0(NmapScanV { output: OutputOptionsV { debug: (if m.output.debug == 255 { 255u8 } else { (m.output.debug + 1) as u8 }), ..m.output }, ..m }))
    } else if t == "-dd"@ {
        Some(FlagOutcome::Ok0(NmapScanV { output: OutputOptionsV { debug: (if m.output.debug >= 254 { 255u8 } else { (m.output.debug + 2) as u8 }), ..m.output }, ..m }))
    } else if t == "--reason"@ {
        Some(FlagOutcome::Ok0(NmapScanV { output: OutputOptionsV { reason: true, ..m.output }, ..m }))
    } else if t == "--stats-every"@ {
        Some(match next {
        None => FlagOutcome::Fail(ParseErrorV::MissingValue(t)),
        Some(v) => FlagOutcome::Ok1(NmapScanV { output: OutputOptionsV { stats_every: Some(v), ..m.output }, ..m }),
    })
    } else if t == "--packet-trace"@ {
        Some(FlagOutcome::Ok0(NmapScanV { output: OutputOptionsV { packet_trace: true, ..m.output }, ..m }))
    } else if t == "--open"@ {
        Some(FlagOutcome::Ok0(NmapScanV { output: OutputOptionsV { open_only: true, ..m.output }, ..m }))
    } else if t == "--iflist"@ {
        Some(FlagOutcome::Ok0(NmapScanV { output: OutputOptionsV { iflist: true, ..m.output }, ..m }))
    } else if t == "--append-output"@ {
        Some(FlagOutcome::Ok0(NmapScanV { output: OutputOptionsV { append_output: true, ..m.output }, ..m }))
    } else if t == "--resume"@ {
        Some(match next {
        None => FlagOutcome::Fail(ParseErrorV::MissingValue(t)),
        Some(v) => FlagOutcome::Ok1(NmapScanV { output: OutputOptionsV { resume: Some(v), ..m.output }, ..m }),
    })
    } else if t == "--stylesheet"@ {
        Some(match next {
        None => FlagOutcome::Fail(ParseErrorV::MissingValue(t)),
        Some(v) => FlagOutcome::Ok1(NmapScanV { output: OutputOptionsV { stylesheet: Some(v), ..m.output }, ..m }),
    })
    } else if t == "--webxml"@ {
        Some(FlagOutcome::Ok0(NmapScanV { output: OutputOptionsV { webxml: true, ..m.output }, ..m }))
    } else if t == "--no-stylesheet"@ {
        Some(FlagOutcome::Ok0(NmapScanV { output: OutputOptionsV { no_stylesheet: true, ..m.output }, ..m }))
    } else {
        None
    }
}

/// The misc flags' dispatch rules.
#[verifier::opaque]
pub open spec fn spec_misc_flag(m: NmapScanV, t: Seq<char>, next: Option<Seq<char>>) -> Option<
    FlagOutcome,
> {
    if t == "-6"@ {
        Some(FlagOutcome::Ok0(NmapScanV { misc: MiscOptionsV { ipv6: true, ..m.misc }, ..m }))
    } else if t == "-A"@ {
        Some(FlagOutcome::Ok0(NmapScanV { misc: MiscOptionsV { aggressive: true, ..m.misc }, ..m }))
    } else if t == "--datadir"@ {
        Some(match next {
        None => FlagOutcome::Fail(ParseErrorV::MissingValue(t)),
        Some(v) => FlagOutcome::Ok1(NmapScanV { misc: MiscOptionsV { datadir: Some(v), ..m.misc }, ..m }),
    })
    } else if t == "--send-eth"@ {
        Some(FlagOutcome::Ok0(NmapScanV { misc: MiscOptionsV { send_eth: true, ..m.misc }, ..m }))
    } else if t == "--send-ip"@ {
        Some(FlagOutcome::Ok0(NmapScanV { misc: MiscOptionsV { send_ip: true, ..m.misc }, ..m }))
    } else if t == "--privileged"@ {
        Some(FlagOutcome::Ok0(NmapScanV { misc: MiscOptionsV { privileged: true, ..m.misc }, ..m }))
    } else if t == "--unprivileged"@ {
        Some(FlagOutcome::Ok0(NmapScanV { misc: MiscOptionsV { unprivileged: true, ..m.misc }, ..m }))
    } else if t == "--release-memory"@ {
        Some(FlagOutcome::Ok0(NmapScanV { misc: MiscOptionsV { release_memory: true, ..m.misc }, ..m }))
    } else if t == "-V"@ || t == "--version"@ {
        Some(FlagOutcome::Ok0(NmapScanV { misc: MiscOptionsV { version: true, ..m.misc }, ..m }))
    } else if t == "-h"@ || t == "--help"@ {
        Some(FlagOutcome::Ok0(NmapScanV { misc: MiscOptionsV { help: true, ..m.misc }, ..m }))
    } else if t == "-R"@ {
        Some(FlagOutcome::Ok0(NmapScanV { misc: MiscOptionsV { resolve_all: true, ..m.misc }, ..m }))
    } else if t == "-n"@ {
        Some(FlagOutcome::Ok0(NmapScanV { misc: MiscOptionsV { no_resolve: true, ..m.misc }, ..m }))
    } else if t == "--unique"@ {
        Some(FlagOutcome::Ok0(NmapScanV { misc: MiscOptionsV { unique: true, ..m.misc }, ..m }))
    } else if t == "--log-errors"@ {
        Some(FlagOutcome::Ok0(NmapScanV { misc: MiscOptionsV { log_errors: true, ..m.misc }, ..m }))
    } else {
        None
    }
}

/// One flag token against the whole vocabulary; a spelling no rule
/// covers is an invalid flag.
#[verifier::opaque]
pub open spec fn spec_dispatch(m: NmapScanV, t: Seq<char>, next: Option<Seq<char>>) -> FlagOutcome {
    if spec_target_flag(m, t, next) is Some {
        spec_target_flag(m, t, next)->Some_0
    } else if spec_host_discovery_flag(m, t, next) is Some {
        spec_host_discovery_flag(m, t, next)->Some_0
    } else if spec_technique_flag(m, t, next) is Some {
        spec_technique_flag(m, t, next)->Some_0
    } else if spec_ports_flag(m, t, next) is Some {
        spec_ports_flag(m, t, next)->Some_0
    } else if spec_service_flag(m, t, next) is Some {
        spec_service_flag(m, t, next)->Some_0
    } else if spec_script_flag(m, t, next) is Some {
        spec_script_flag(m, t, next)->Some_0
    } else if spec_os_flag(m, t, next) is Some {
        spec_os_flag(m, t, next)->Some_0
    } else if spec_timing_flag(m, t, next) is Some {
        spec_timing_flag(m, t, next)->Some_0
    } else if spec_evasion_flag(m, t, next) is Some {
        spec_evasion_flag(m, t, next)->Some_0
    } else if spec_output_flag(m, t, next) is Some {
        spec_output_flag(m, t, next)->Some_0
    } else if spec_misc_flag(m, t, next) is Some {
        spec_misc_flag(m, t, next)->Some_0
    } else {
        FlagOutcome::Fail(ParseErrorV::InvalidFlag(t))
    }
}

/// Consumes the token list: the program name at the front is skipped,
/// a token that starts with a dash is dispatched, any other token is a
/// target.
pub open spec fn proc_tokens(toks: Seq<Seq<char>>, m: NmapScanV) -> Result<NmapScanV, ParseErrorV>
    decreases toks.len(),
{
    if toks.len() == 0 {
        Ok(m)
    } else {
        let t = toks[0];
        if t.len() > 0 && t[0] == '-' {
            match spec_dispatch(
                m,
                t,
                if toks.len() > 1 {
                    Some(toks[1])
                } else {
                    None
                },
            ) {
                FlagOutcome::Ok0(m2) => proc_tokens(toks.skip(1), m2),
                FlagOutcome::Ok1(m2) => if toks.len() >= 2 {
                    proc_tokens(toks.skip(2), m2)
                } else {
                    proc_tokens(toks.skip(1), m2)
                },
                FlagOutcome::Fail(e) => Err(e),
            }
        } else {
            proc_tokens(
                toks.skip(1),
                NmapScanV {
                    target_specification: TargetSpecificationV {
                        targets: m.target_specification.targets.push(t),
                        ..m.target_specification
                    },
                    ..m
                },
            )
        }
    }
}

/// The whole parse: tokenize, skip a leading program name, process.
pub open spec fn spec_parse(s: Seq<char>) -> Result<NmapScanV, ParseErrorV> {
    let toks = spec_tokenize(s);
    let rest = if toks.len() > 0 && toks[0] == "nmap"@ {
        toks.skip(1)
    } else {
        toks
    };
    proc_tokens(rest, nmap_scan_default())
}

/// The characters of a token from the given position on.
fn vec_suffix(t: &Vec<char>, from: usize) -> (r: Vec<char>)
    requires
        from <= t@.len(),
    ensures
        r@ == t@.skip(from as int),
{
    let mut r: Vec<char> = Vec::new();
    let mut i: usize = from;
    while i < t.len()
        invariant
            from <= i <= t@.len(),
            r@ == t@.skip(from as int).take(i - from),
        decreases t@.len() - i,
    {
        let c = t[i];
        r.push(c);
        i = i + 1;
        proof {
            assert(r@ =~= t@.skip(from as int).take(i - from));
        }
    }
    proof {
        assert(r@ =~= t@.skip(from as int));
    }
    r
}

/// Applies one target flag, if the token is one.
#[verifier::rlimit(100)]
#[verifier::spinoff_prover]
fn try_target_flag(scan: &mut NmapScan, t: &Vec<char>, next: Option<&String>) -> (r: FlagStep)
    ensures
        match spec_target_flag(old(scan)@, t@, next_view(next)) {
            None => r is NotMine && final(scan)@ == old(scan)@,
            Some(FlagOutcome::Ok0(m2)) => r is Ok0 && final(scan)@ == m2,
            Some(FlagOutcome::Ok1(m2)) => r is Ok1 && final(scan)@ == m2,
            Some(FlagOutcome::Fail(e)) => (r matches FlagStep::Fail(pe) && pe@ == e),
        },
        r is Ok1 ==> next is Some,
{
    proof {
        reveal(spec_target_flag);
    }
    if chars_eq_str(t, "-iL") {
        match next {
            None => {
                return FlagStep::Fail(ParseError::MissingValue(string_of_chars(t)));
            },
            Some(v) => {
                scan.target_specification.input_file = Some((*v).clone());
                return FlagStep::Ok1;
            },
        }
    }
    if chars_eq_str(t, "-iR") {
        match next {
            None => {
                return FlagStep::Fail(ParseError::MissingValue(string_of_chars(t)));
            },
            Some(v) => {
                let pc = chars_of_str(v.as_str());
                match parse_dec_chars(&pc, 0xffff_ffff) {
                    Some(nv) => {
                        scan.target_specification.random_targets = Some(nv);
                        return FlagStep::Ok1;
                    },
                    None => {
                        return FlagStep::Fail(ParseError::InvalidValue(
                            string_of_chars(t),
                            (*v).clone(),
                        ));
                    },
                }
            },
        }
    }
    if chars_eq_str(t, "--exclude") {
        match next {
            None => {
                return FlagStep::Fail(ParseError::MissingValue(string_of_chars(t)));
            },
            Some(v) => {
                let pc = chars_of_str(v.as_str());
                let parts = split_string_list(&pc);
                scan.target_specification.exclude = parts;
                return FlagStep::Ok1;
            },
        }
    }
    if chars_eq_str(t, "--exclude-file") {
        match next {
            None => {
                return FlagStep::Fail(ParseError::MissingValue(string_of_chars(t)));
            },
            Some(v) => {
                scan.target_specification.exclude_file = Some((*v).clone());
                return FlagStep::Ok1;
            },
        }
    }
    FlagStep::NotMine
}

/// Applies one host_discovery flag, if the token is one.
#[verifier::rlimit(100)]
#[verifier::spinoff_prover]
fn try_host_discovery_flag(scan: &mut NmapScan, t: &Vec<char>, next: Option<&String>) -> (r: FlagStep)
    ensures
        match spec_host_discovery_flag(old(scan)@, t@, next_view(next)) {
            None => r is NotMine && final(scan)@ == old(scan)@,
            Some(FlagOutcome::Ok0(m2)) => r is Ok0 && final(scan)@ == m2,
            Some(FlagOutcome::Ok1(m2)) => r is Ok1 && final(scan)@ == m2,
            Some(FlagOutcome::Fail(e)) => (r matches FlagStep::Fail(pe) && pe@ == e),
        },
        r is Ok1 ==> next is Some,
{
    proof {
        reveal(spec_host_discovery_flag);
    }
    if chars_eq_str(t, "-sL") {
        scan.host_discovery.list_scan = true;
        return FlagStep::Ok0;
    }
    if chars_eq_str(t, "-sn") {
        scan.host_discovery.ping_scan = true;
        return FlagStep::Ok0;
    }
    if chars_eq_str(t, "-Pn") {
        scan.host_discovery.skip_port_scan = true;
        return FlagStep::Ok0;
    }
    if chars_eq_str(t, "-PS") {
        match next {
            None => {
                return FlagStep::Ok0;
            },
            Some(v) => {
                let pc = chars_of_str(v.as_str());
                if pc.len() > 0 && pc[0] == '-' {
                    return FlagStep::Ok0;
                }
                let l = parse_port_list(&pc);
                scan.host_discovery.syn_discovery = l;
                return FlagStep::Ok1;
            },
        }
    }
    if chars_eq_str(t, "-PA") {
        match next {
            None => {
                return FlagStep::Ok0;
            },
            Some(v) => {
                let pc = chars_of_str(v.as_str());
                if pc.len() > 0 && pc[0] == '-' {
                    return FlagStep::Ok0;
                }
                let l = parse_port_list(&pc);
                scan.host_discovery.ack_discovery = l;
                return FlagStep::Ok1;
            },
        }
    }
    if chars_eq_str(t, "-PU") {
        match next {
            None => {
                return FlagStep::Ok0;
            },
            Some(v) => {
                let pc = chars_of_str(v.as_str());
                if pc.len() > 0 && pc[0] == '-' {
                    return FlagStep::Ok0;
                }
                let l = parse_port_list(&pc);
                scan.host_discovery.udp_discovery = l;
                return FlagStep::Ok1;
            },
        }
    }
    if chars_eq_str(t, "-PY") {
        match next {
            None => {
                return FlagStep::Ok0;
            },
            Some(v) => {
                let pc = chars_of_str(v.as_str());
                if pc.len() > 0 && pc[0] == '-' {
                    return FlagStep::Ok0;
                }
                let l = parse_port_list(&pc);
                scan.host_discovery.sctp_discovery = l;
                return FlagStep::Ok1;
            },
        }
    }
    if chars_eq_str(t, "-PE") {
        scan.host_discovery.icmp_echo = true;
        return FlagStep::Ok0;
    }
    if chars_eq_str(t, "-PP") {
        scan.host_discovery.icmp_timestamp = true;
        return FlagStep::Ok0;
    }
    if chars_eq_str(t, "-PM") {
        scan.host_discovery.icmp_netmask = true;
        return FlagStep::Ok0;
    }
    if chars_eq_str(t, "-PO") {
        match next {
            None => {
                return FlagStep::Ok0;
            },
            Some(v) => {
                let pc = chars_of_str(v.as_str());
                if pc.len() > 0 && pc[0] == '-' {
                    return FlagStep::Ok0;
                }
                let l = parse_protocol_list(&pc);
                scan.host_discovery.ip_protocol_ping = l;
                return FlagStep::Ok1;
            },
        }
    }
    if chars_eq_str(t, "--traceroute") {
        scan.host_discovery.traceroute = true;
        return FlagStep::Ok0;
    }
    if chars_eq_str(t, "--dns-servers") {
        match next {
            None => {
                return FlagStep::Fail(ParseError::MissingValue(string_of_chars(t)));
            },
            Some(v) => {
                let pc = chars_of_str(v.as_str());
                let parts = split_string_list(&pc);
                scan.host_discovery.dns_servers = parts;
                return FlagStep::Ok1;
            },
        }
    }
    if chars_eq_str(t, "--system-dns") {
        scan.host_discovery.system_dns = true;
        return FlagStep::Ok0;
    }
    if t.len() > 3 && t[0] == '-' && t[1] == 'P' && t[2] == 'S' {
        let rest = vec_suffix(t, 3);
        let l = parse_port_list(&rest);
        scan.host_discovery.syn_discovery = l;
        return FlagStep::Ok0;
    }
    if t.len() > 3 && t[0] == '-' && t[1] == 'P' && t[2] == 'A' {
        let rest = vec_suffix(t, 3);
        let l = parse_port_list(&rest);
        scan.host_discovery.ack_discovery = l;
        return FlagStep::Ok0;
    }
    if t.len() > 3 && t[0] == '-' && t[1] == 'P' && t[2] == 'U' {
        let rest = vec_suffix(t, 3);
        let l = parse_port_list(&rest);
        scan.host_discovery.udp_discovery = l;
        return FlagStep::Ok0;
    }
    if t.len() > 3 && t[0] == '-' && t[1] == 'P' && t[2] == 'Y' {
        let rest = vec_suffix(t, 3);
        let l = parse_port_list(&rest);
        scan.host_discovery.sctp_discovery = l;
        return FlagStep::Ok0;
    }
    if t.len() > 3 && t[0] == '-' && t[1] == 'P' && t[2] == 'O' {
        let rest = vec_suffix(t, 3);
        let l = parse_protocol_list(&rest);
        scan.host_discovery.ip_protocol_ping = l;
        return FlagStep::Ok0;
    }
    FlagStep::NotMine
}

/// Applies one technique flag, if the token is one.
#[verifier::rlimit(100)]
#[verifier::spinoff_prover]
fn try_technique_flag(scan: &mut NmapScan, t: &Vec<char>, next: Option<&String>) -> (r: FlagStep)
    ensures
        match spec_technique_flag(old(scan)@, t@, next_view(next)) {
            None => r is NotMine && final(scan)@ == old(scan)@,
            Some(FlagOutcome::Ok0(m2)) => r is Ok0 && final(scan)@ == m2,
            Some(FlagOutcome::Ok1(m2)) => r is Ok1 && final(scan)@ == m2,
            Some(FlagOutcome::Fail(e)) => (r matches FlagStep::Fail(pe) && pe@ == e),
        },
        r is Ok1 ==> next is Some,
{
    proof {
        reveal(spec_technique_flag);
    }
    if chars_eq_str(t, "-sS") {
        scan.scan_technique = ScanTechnique::Syn;
        return FlagStep::Ok0;
    }
    if chars_eq_str(t, "-sT") {
        scan.scan_technique = ScanTechnique::Connect;
        return FlagStep::Ok0;
    }
    if chars_eq_str(t, "-sA") {
        scan.scan_technique = ScanTechnique::Ack;
        return FlagStep::Ok0;
    }
    if chars_eq_str(t, "-sW") {
        scan.scan_technique = ScanTechnique::Window;
        return FlagStep::Ok0;
    }
    if chars_eq_str(t, "-sM") {
        scan.scan_technique = ScanTechnique::Maimon;
        return FlagStep::Ok0;
    }
    if chars_eq_str(t, "-sU") {
        scan.scan_technique = ScanTechnique::Udp;
        return FlagStep::Ok0;
    }
    if chars_eq_str(t, "-sN") {
        scan.scan_technique = ScanTechnique::TcpNull;
        return FlagStep::Ok0;
    }
    if chars_eq_str(t, "-sF") {
        scan.scan_technique = ScanTechnique::Fin;
        return FlagStep::Ok0;
    }
    if chars_eq_str(t, "-sX") {
        scan.scan_technique = ScanTechnique::Xmas;
        return FlagStep::Ok0;
    }
    if chars_eq_str(t, "-sY") {
        scan.scan_technique = ScanTechnique::Sctp(SctpScanType::Init);
        return FlagStep::Ok0;
    }
    if chars_eq_str(t, "-sZ") {
        scan.scan_technique = ScanTechnique::Sctp(SctpScanType::Cookie);
        return FlagStep::Ok0;
    }
    if chars_eq_str(t, "-sO") {
        scan.scan_technique = ScanTechnique::IpProtocol;
        return FlagStep::Ok0;
    }
    if chars_eq_str(t, "--scanflags") {
        match next {
            None => {
                return FlagStep::Fail(ParseError::MissingValue(string_of_chars(t)));
            },
            Some(v) => {
                scan.scan_technique = ScanTechnique::Scanflags((*v).clone());
                return FlagStep::Ok1;
            },
        }
    }
    if chars_eq_str(t, "-sI") {
        match next {
            None => {
                return FlagStep::Fail(ParseError::MissingValue(string_of_chars(t)));
            },
            Some(v) => {
                scan.scan_technique = ScanTechnique::Idle((*v).clone());
                return FlagStep::Ok1;
            },
        }
    }
    if chars_eq_str(t, "-b") {
        match next {
            None => {
                return FlagStep::Fail(ParseError::MissingValue(string_of_chars(t)));
            },
            Some(v) => {
                scan.scan_technique = ScanTechnique::Ftp((*v).clone());
                return FlagStep::Ok1;
            },
        }
    }
    FlagStep::NotMine
}

/// Applies one ports flag, if the token is one.
#[verifier::rlimit(100)]
#[verifier::spinoff_prover]
fn try_ports_flag(scan: &mut NmapScan, t: &Vec<char>, next: Option<&String>) -> (r: FlagStep)
    ensures
        match spec_ports_flag(old(scan)@, t@, next_view(next)) {
            None => r is NotMine && final(scan)@ == old(scan)@,
            Some(FlagOutcome::Ok0(m2)) => r is Ok0 && final(scan)@ == m2,
            Some(FlagOutcome::Ok1(m2)) => r is Ok1 && final(scan)@ == m2,
            Some(FlagOutcome::Fail(e)) => (r matches FlagStep::Fail(pe) && pe@ == e),
        },
        r is Ok1 ==> next is Some,
{
    proof {
        reveal(spec_ports_flag);
    }
    if chars_eq_str(t, "-p") {
        match next {
            None => {
                return FlagStep::Fail(ParseError::MissingValue(string_of_chars(t)));
            },
            Some(v) => {
                scan.ports.ports = Some((*v).clone());
                return FlagStep::Ok1;
            },
        }
    }
    if t.len() > 2 && t[0] == '-' && t[1] == 'p' {
        let rest = vec_suffix(t, 2);
        let v = string_of_chars(&rest);
        scan.ports.ports = Some(v);
        return FlagStep::Ok0;
    }
    if chars_eq_str(t, "--exclude-ports") {
        match next {
            None => {
                return FlagStep::Fail(ParseError::MissingValue(string_of_chars(t)));
            },
            Some(v) => {
                scan.ports.exclude_ports = Some((*v).clone());
                return FlagStep::Ok1;
            },
        }
    }
    if chars_eq_str(t, "-F") {
        scan.ports.fast_mode = true;
        return FlagStep::Ok0;
    }
    if chars_eq_str(t, "-r") {
        scan.ports.consecutive_ports = true;
        return FlagStep::Ok0;
    }
    if chars_eq_str(t, "--top-ports") {
        match next {
            None => {
                return FlagStep::Fail(ParseError::MissingValue(string_of_chars(t)));
            },
            Some(v) => {
                let pc = chars_of_str(v.as_str());
                match parse_dec_chars(&pc, 0xffff_ffff) {
                    Some(nv) => {
                        scan.ports.top_ports = Some(nv);
                        return FlagStep::Ok1;
                    },
                    None => {
                        return FlagStep::Fail(ParseError::InvalidValue(
                            string_of_chars(t),
                            (*v).clone(),
                        ));
                    },
                }
            },
        }
    }
    if chars_eq_str(t, "--port-ratio") {
        match next {
            None => {
                return FlagStep::Fail(ParseError::MissingValue(string_of_chars(t)));
            },
            Some(v) => {
                if ratio_string_check(v.as_str()) {
                    scan.ports.port_ratio = Some((*v).clone());
                    return FlagStep::Ok1;
                }
                return FlagStep::Fail(ParseError::InvalidValue(string_of_chars(t), (*v).clone()));
            },
        }
    }
    FlagStep::NotMine
}

/// Applies one service flag, if the token is one.
#[verifier::rlimit(100)]
#[verifier::spinoff_prover]
fn try_service_flag(scan: &mut NmapScan, t: &Vec<char>, next: Option<&String>) -> (r: FlagStep)
    ensures
        match spec_service_flag(old(scan)@, t@, next_view(next)) {
            None => r is NotMine && final(scan)@ == old(scan)@,
            Some(FlagOutcome::Ok0(m2)) => r is Ok0 && final(scan)@ == m2,
            Some(FlagOutcome::Ok1(m2)) => r is Ok1 && final(scan)@ == m2,
            Some(FlagOutcome::Fail(e)) => (r matches FlagStep::Fail(pe) && pe@ == e),
        },
        r is Ok1 ==> next is Some,
{
    proof {
        reveal(spec_service_flag);
    }
    if chars_eq_str(t, "-sV") {
        scan.service_detection.enabled = true;
        return FlagStep::Ok0;
    }
    if chars_eq_str(t, "--version-intensity") {
        match next {
            None => {
                return FlagStep::Fail(ParseError::MissingValue(string_of_chars(t)));
            },
            Some(v) => {
                let pc = chars_of_str(v.as_str());
                match parse_dec_chars(&pc, 0xff) {
                    Some(nv) => {
                        scan.service_detection.intensity = Some(nv as u8);
                        return FlagStep::Ok1;
                    },
                    None => {
                        return FlagStep::Fail(ParseError::InvalidValue(
                            string_of_chars(t),
                            (*v).clone(),
                        ));
                    },
                }
            },
        }
    }
    if chars_eq_str(t, "--version-light") {
        scan.service_detection.light = true;
        return FlagStep::Ok0;
    }
    if chars_eq_str(t, "--version-all") {
        scan.service_detection.all = true;
        return FlagStep::Ok0;
    }
    if chars_eq_str(t, "--version-trace") {
        scan.service_detection.trace = true;
        return FlagStep::Ok0;
    }
    FlagStep::NotMine
}

/// Applies one script flag, if the token is one.
#[verifier::rlimit(100)]
#[verifier::spinoff_prover]
fn try_script_flag(scan: &mut NmapScan, t: &Vec<char>, next: Option<&String>) -> (r: FlagStep)
    ensures
        match spec_script_flag(old(scan)@, t@, next_view(next)) {
            None => r is NotMine && final(scan)@ == old(scan)@,
            Some(FlagOutcome::Ok0(m2)) => r is Ok0 && final(scan)@ == m2,
            Some(FlagOutcome::Ok1(m2)) => r is Ok1 && final(scan)@ == m2,
            Some(FlagOutcome::Fail(e)) => (r matches FlagStep::Fail(pe) && pe@ == e),
        },
        r is Ok1 ==> next is Some,
{
    proof {
        reveal(spec_script_flag);
    }
    if chars_eq_str(t, "-sC") {
        scan.script_scan.default = true;
        return FlagStep::Ok0;
    }
    if chars_eq_str(t, "--script") {
        match next {
            None => {
                return FlagStep::Fail(ParseError::MissingValue(string_of_chars(t)));
            },
            Some(v) => {
                let pc = chars_of_str(v.as_str());
                let parts = split_string_list(&pc);
                scan.script_scan.scripts = parts;
                return FlagStep::Ok1;
            },
        }
    }
    if chars_eq_str(t, "--script-args") {
        match next {
            None => {
                return FlagStep::Fail(ParseError::MissingValue(string_of_chars(t)));
            },
            Some(v) => {
                scan.script_scan.script_args = Some((*v).clone());
                return FlagStep::Ok1;
            },
        }
    }
    if chars_eq_str(t, "--script-args-file") {
        match next {
            None => {
                return FlagStep::Fail(ParseError::MissingValue(string_of_chars(t)));
            },
            Some(v) => {
                scan.script_scan.script_args_file = Some((*v).clone());
                return FlagStep::Ok1;
            },
        }
    }
    if chars_eq_str(t, "--script-trace") {
        scan.script_scan.script_trace = true;
        return FlagStep::Ok0;
    }
    if chars_eq_str(t, "--script-updatedb") {
        scan.script_scan.script_updatedb = true;
        return FlagStep::Ok0;
    }
    if chars_eq_str(t, "--script-help") {
        match next {
            None => {
                return FlagStep::Fail(ParseError::MissingValue(string_of_chars(t)));
            },
            Some(v) => {
                scan.script_scan.script_help = Some((*v).clone());
                return FlagStep::Ok1;
            },
        }
    }
    FlagStep::NotMine
}

/// Applies one os flag, if the token is one.
#[verifier::rlimit(100)]
#[verifier::spinoff_prover]
fn try_os_flag(scan: &mut NmapScan, t: &Vec<char>, next: Option<&String>) -> (r: FlagStep)
    ensures
        match spec_os_flag(old(scan)@, t@, next_view(next)) {
            None => r is NotMine && final(scan)@ == old(scan)@,
            Some(FlagOutcome::Ok0(m2)) => r is Ok0 && final(scan)@ == m2,
            Some(FlagOutcome::Ok1(m2)) => r is Ok1 && final(scan)@ == m2,
            Some(FlagOutcome::Fail(e)) => (r matches FlagStep::Fail(pe) && pe@ == e),
        },
        r is Ok1 ==> next is Some,
{
    proof {
        reveal(spec_os_flag);
    }
    if chars_eq_str(t, "-O") {
        scan.os_detection.enabled = true;
        return FlagStep::Ok0;
    }
    if chars_eq_str(t, "--osscan-limit") {
        scan.os_detection.limit = true;
        return FlagStep::Ok0;
    }
    if chars_eq_str(t, "--osscan-guess") {
        scan.os_detection.guess = true;
        return FlagStep::Ok0;
    }
    if chars_eq_str(t, "--max-os-tries") {
        match next {
            None => {
                return FlagStep::Fail(ParseError::MissingValue(string_of_chars(t)));
            },
            Some(v) => {
                let pc = chars_of_str(v.as_str());
                match parse_dec_chars(&pc, 0xffff_ffff) {
                    Some(nv) => {
                        scan.os_detection.max_retries = Some(nv);
                        return FlagStep::Ok1;
                    },
                    None => {
                        return FlagStep::Fail(ParseError::InvalidValue(
                            string_of_chars(t),
                            (*v).clone(),
                        ));
                    },
                }
            },
        }
    }
    FlagStep::NotMine
}

/// Applies one timing flag, if the token is one.
#[verifier::rlimit(100)]
#[verifier::spinoff_prover]
fn try_timing_flag(scan: &mut NmapScan, t: &Vec<char>, next: Option<&String>) -> (r: FlagStep)
    ensures
        match spec_timing_flag(old(scan)@, t@, next_view(next)) {
            None => r is NotMine && final(scan)@ == old(scan)@,
            Some(FlagOutcome::Ok0(m2)) => r is Ok0 && final(scan)@ == m2,
            Some(FlagOutcome::Ok1(m2)) => r is Ok1 && final(scan)@ == m2,
            Some(FlagOutcome::Fail(e)) => (r matches FlagStep::Fail(pe) && pe@ == e),
        },
        r is Ok1 ==> next is Some,
{
    proof {
        reveal(spec_timing_flag);
    }
    if chars_eq_str(t, "-T0") {
        scan.timing.template = Some(TimingTemplate::Paranoid);
        return FlagStep::Ok0;
    }
    if chars_eq_str(t, "-T1") {
        scan.timing.template = Some(TimingTemplate::Sneaky);
        return FlagStep::Ok0;
    }
    if chars_eq_str(t, "-T2") {
        scan.timing.template = Some(TimingTemplate::Polite);
        return FlagStep::Ok0;
    }
    if chars_eq_str(t, "-T3") {
        scan.timing.template = Some(TimingTemplate::Normal);
        return FlagStep::Ok0;
    }
    if chars_eq_str(t, "-T4") {
        scan.timing.template = Some(TimingTemplate::Aggressive);
        return FlagStep::Ok0;
    }
    if chars_eq_str(t, "-T5") {
        scan.timing.template = Some(TimingTemplate::Insane);
        return FlagStep::Ok0;
    }
    if chars_eq_str(t, "--min-hostgroup") {
        match next {
            None => {
                return FlagStep::Fail(ParseError::MissingValue(string_of_chars(t)));
            },
            Some(v) => {
                let pc = chars_of_str(v.as_str());
                match parse_dec_chars(&pc, 0xffff_ffff) {
                    Some(nv) => {
                        scan.timing.min_hostgroup = Some(nv);
                        return FlagStep::Ok1;
                    },
                    None => {
                        return FlagStep::Fail(ParseError::InvalidValue(
                            string_of_chars(t),
                            (*v).clone(),
                        ));
                    },
                }
            },
        }
    }
    if chars_eq_str(t, "--max-hostgroup") {
        match next {
            None => {
                return FlagStep::Fail(ParseError::MissingValue(string_of_chars(t)));
            },
            Some(v) => {
                let pc = chars_of_str(v.as_str());
                match parse_dec_chars(&pc, 0xffff_ffff) {
                    Some(nv) => {
                        scan.timing.max_hostgroup = Some(nv);
                        return FlagStep::Ok1;
                    },
                    None => {
                        return FlagStep::Fail(ParseError::InvalidValue(
                            string_of_chars(t),
                            (*v).clone(),
                        ));
                    },
                }
            },
        }
    }
    if chars_eq_str(t, "--min-parallelism") {
        match next {
            None => {
                return FlagStep::Fail(ParseError::MissingValue(string_of_chars(t)));
            },
            Some(v) => {
                let pc = chars_of_str(v.as_str());
                match parse_dec_chars(&pc, 0xffff_ffff) {
                    Some(nv) => {
                        scan.timing.min_parallelism = Some(nv);
                        return FlagStep::Ok1;
                    },
                    None => {
                        return FlagStep::Fail(ParseError::InvalidValue(
                            string_of_chars(t),
                            (*v).clone(),
                        ));
                    },
                }
            },
        }
    }
    if chars_eq_str(t, "--max-parallelism") {
        match next {
            None => {
                return FlagStep::Fail(ParseError::MissingValue(string_of_chars(t)));
            },
            Some(v) => {
                let pc = chars_of_str(v.as_str());
                match parse_dec_chars(&pc, 0xffff_ffff) {
                    Some(nv) => {
                        scan.timing.max_parallelism = Some(nv);
                        return FlagStep::Ok1;
                    },
                    None => {
                        return FlagStep::Fail(ParseError::InvalidValue(
                            string_of_chars(t),
                            (*v).clone(),
                        ));
                    },
                }
            },
        }
    }
    if chars_eq_str(t, "--min-rtt-timeout") {
        match next {
            None => {
                return FlagStep::Fail(ParseError::MissingValue(string_of_chars(t)));
            },
            Some(v) => {
                scan.timing.min_rtt_timeout = Some((*v).clone());
                return FlagStep::Ok1;
            },
        }
    }
    if chars_eq_str(t, "--max-rtt-timeout") {
        match next {
            None => {
                return FlagStep::Fail(ParseError::MissingValue(string_of_chars(t)));
            },
            Some(v) => {
                scan.timing.max_rtt_timeout = Some((*v).clone());
                return FlagStep::Ok1;
            },
        }
    }
    if chars_eq_str(t, "--initial-rtt-timeout") {
        match next {
            None => {
                return FlagStep::Fail(ParseError::MissingValue(string_of_chars(t)));
            },
            Some(v) => {
                scan.timing.initial_rtt_timeout = Some((*v).clone());
                return FlagStep::Ok1;
            },
        }
    }
    if chars_eq_str(t, "--max-retries") {
        match next {
            None => {
                return FlagStep::Fail(ParseError::MissingValue(string_of_chars(t)));
            },
            Some(v) => {
                let pc = chars_of_str(v.as_str());
                match parse_dec_chars(&pc, 0xffff_ffff) {
                    Some(nv) => {
                        scan.timing.max_retries = Some(nv);
                        return FlagStep::Ok1;
                    },
                    None => {
                        return FlagStep::Fail(ParseError::InvalidValue(
                            string_of_chars(t),
                            (*v).clone(),
                        ));
                    },
                }
            },
        }
    }
    if chars_eq_str(t, "--host-timeout") {
        match next {
            None => {
                return FlagStep::Fail(ParseError::MissingValue(string_of_chars(t)));
            },
            Some(v) => {
                scan.timing.host_timeout = Some((*v).clone());
                return FlagStep::Ok1;
            },
        }
    }
    if chars_eq_str(t, "--script-timeout") {
        match next {
            None => {
                return FlagStep::Fail(ParseError::MissingValue(string_of_chars(t)));
            },
            Some(v) => {
                scan.timing.script_timeout = Some((*v).clone());
                return FlagStep::Ok1;
            },
        }
    }
    if chars_eq_str(t, "--scan-delay") {
        match next {
            None => {
                return FlagStep::Fail(ParseError::MissingValue(string_of_chars(t)));
            },
            Some(v) => {
                scan.timing.scan_delay = Some((*v).clone());
                return FlagStep::Ok1;
            },
        }
    }
    if chars_eq_str(t, "--max-scan-delay") {
        match next {
            None => {
                return FlagStep::Fail(ParseError::MissingValue(string_of_chars(t)));
            },
            Some(v) => {
                scan.timing.max_scan_delay = Some((*v).clone());
                return FlagStep::Ok1;
            },
        }
    }
    if chars_eq_str(t, "--min-rate") {
        match next {
            None => {
                return FlagStep::Fail(ParseError::MissingValue(string_of_chars(t)));
            },
            Some(v) => {
                let pc = chars_of_str(v.as_str());
                match parse_dec_chars(&pc, 0xffff_ffff) {
                    Some(nv) => {
                        scan.timing.min_rate = Some(nv);
                        return FlagStep::Ok1;
                    },
                    None => {
                        return FlagStep::Fail(ParseError::InvalidValue(
                            string_of_chars(t),
                            (*v).clone(),
                        ));
                    },
                }
            },
        }
    }
    if chars_eq_str(t, "--max-rate") {
        match next {
            None => {
                return FlagStep::Fail(ParseError::MissingValue(string_of_chars(t)));
            },
            Some(v) => {
                let pc = chars_of_str(v.as_str());
                match parse_dec_chars(&pc, 0xffff_ffff) {
                    Some(nv) => {
                        scan.timing.max_rate = Some(nv);
                        return FlagStep::Ok1;
                    },
                    None => {
                        return FlagStep::Fail(ParseError::InvalidValue(
                            string_of_chars(t),
                            (*v).clone(),
                        ));
                    },
                }
            },
        }
    }
    if chars_eq_str(t, "--defeat-rst-ratelimit") {
        scan.timing.defeat_rst_ratelimit = true;
        return FlagStep::Ok0;
    }
    if chars_eq_str(t, "--defeat-icmp-ratelimit") {
        scan.timing.defeat_icmp_ratelimit = true;
        return FlagStep::Ok0;
    }
    if chars_eq_str(t, "--nsock-engine") {
        match next {
            None => {
                return FlagStep::Fail(ParseError::MissingValue(string_of_chars(t)));
            },
            Some(v) => {
                scan.timing.nsock_engine = Some((*v).clone());
                return FlagStep::Ok1;
            },
        }
    }
    FlagStep::NotMine
}

/// Applies one evasion flag, if the token is one.
#[verifier::rlimit(100)]
#[verifier::spinoff_prover]
fn try_evasion_flag(scan: &mut NmapScan, t: &Vec<char>, next: Option<&String>) -> (r: FlagStep)
    ensures
        match spec_evasion_flag(old(scan)@, t@, next_view(next)) {
            None => r is NotMine && final(scan)@ == old(scan)@,
            Some(FlagOutcome::Ok0(m2)) => r is Ok0 && final(scan)@ == m2,
            Some(FlagOutcome::Ok1(m2)) => r is Ok1 && final(scan)@ == m2,
            Some(FlagOutcome::Fail(e)) => (r matches FlagStep::Fail(pe) && pe@ == e),
        },
        r is Ok1 ==> next is Some,
{
    proof {
        reveal(spec_evasion_flag);
    }
    if chars_eq_str(t, "-f") {
        scan.evasion.fragment_packets = true;
        return FlagStep::Ok0;
    }
    if chars_eq_str(t, "--mtu") {
        match next {
            None => {
                return FlagStep::Fail(ParseError::MissingValue(string_of_chars(t)));
            },
            Some(v) => {
                let pc = chars_of_str(v.as_str());
                match parse_dec_chars(&pc, 0xffff_ffff) {
                    Some(nv) => {
                        scan.evasion.mtu = Some(nv);
                        return FlagStep::Ok1;
                    },
                    None => {
                        return FlagStep::Fail(ParseError::InvalidValue(
                            string_of_chars(t),
                            (*v).clone(),
                        ));
                    },
                }
            },
        }
    }
    if chars_eq_str(t, "-D") {
        match next {
            None => {
                return FlagStep::Fail(ParseError::MissingValue(string_of_chars(t)));
            },
            Some(v) => {
                let pc = chars_of_str(v.as_str());
                let parts = split_string_list(&pc);
                scan.evasion.decoys = parts;
                return FlagStep::Ok1;
            },
        }
    }
    if chars_eq_str(t, "-S") {
        match next {
            None => {
                return FlagStep::Fail(ParseError::MissingValue(string_of_chars(t)));
            },
            Some(v) => {
                if ip_string_check(v.as_str()) {
                    scan.evasion.spoof_ip = Some((*v).clone());
                    return FlagStep::Ok1;
                }
                return FlagStep::Fail(ParseError::InvalidValue(string_of_chars(t), (*v).clone()));
            },
        }
    }
    if chars_eq_str(t, "-e") {
        match next {
            None => {
                return FlagStep::Fail(ParseError::MissingValue(string_of_chars(t)));
            },
            Some(v) => {
                scan.evasion.interface = Some((*v).clone());
                return FlagStep::Ok1;
            },
        }
    }
    if chars_eq_str(t, "-g") || chars_eq_str(t, "--source-port") {
        match next {
            None => {
                return FlagStep::Fail(ParseError::MissingValue(string_of_chars(t)));
            },
            Some(v) => {
                let pc = chars_of_str(v.as_str());
                match parse_dec_chars(&pc, 0xffff) {
                    Some(nv) => {
                        scan.evasion.source_port = Some(nv as u16);
                        return FlagStep::Ok1;
                    },
                    None => {
                        return FlagStep::Fail(ParseError::InvalidValue(
                            string_of_chars(t),
                            (*v).clone(),
                        ));
                    },
                }
            },
        }
    }
    if chars_eq_str(t, "--data") {
        match next {
            None => {
                return FlagStep::Fail(ParseError::MissingValue(string_of_chars(t)));
            },
            Some(v) => {
                scan.evasion.data = Some((*v).clone());
                return FlagStep::Ok1;
            },
        }
    }
    if chars_eq_str(t, "--data-string") {
        match next {
            None => {
                return FlagStep::Fail(ParseError::MissingValue(string_of_chars(t)));
            },
            Some(v) => {
                scan.evasion.data_string = Some((*v).clone());
                return FlagStep::Ok1;
            },
        }
    }
    if chars_eq_str(t, "--data-length") {
        match next {
            None => {
                return FlagStep::Fail(ParseError::MissingValue(string_of_chars(t)));
            },
            Some(v) => {
                let pc = chars_of_str(v.as_str());
                match parse_dec_chars(&pc, 0xffff_ffff) {
                    Some(nv) => {
                        scan.evasion.data_length = Some(nv);
                        return FlagStep::Ok1;
                    },
                    None => {
                        return FlagStep::Fail(ParseError::InvalidValue(
                            string_of_chars(t),
                            (*v).clone(),
                        ));
                    },
                }
            },
        }
    }
    if chars_eq_str(t, "--ip-options") {
        match next {
            None => {
                return FlagStep::Fail(ParseError::MissingValue(string_of_chars(t)));
            },
            Some(v) => {
                scan.evasion.ip_options = Some((*v).clone());
                return FlagStep::Ok1;
            },
        }
    }
    if chars_eq_str(t, "--ttl") {
        match next {
            None => {
                return FlagStep::Fail(ParseError::MissingValue(string_of_chars(t)));
            },
            Some(v) => {
                let pc = chars_of_str(v.as_str());
                match parse_dec_chars(&pc, 0xff) {
                    Some(nv) => {
                        scan.evasion.ttl = Some(nv as u8);
                        return FlagStep::Ok1;
                    },
                    None => {
                        return FlagStep::Fail(ParseError::InvalidValue(
                            string_of_chars(t),
                            (*v).clone(),
                        ));
                    },
                }
            },
        }
    }
    if chars_eq_str(t, "--randomize-hosts") {
        scan.evasion.randomize_hosts = true;
        return FlagStep::Ok0;
    }
    if chars_eq_str(t, "--spoof-mac") {
        match next {
            None => {
                return FlagStep::Fail(ParseError::MissingValue(string_of_chars(t)));
            },
            Some(v) => {
                scan.evasion.spoof_mac = Some((*v).clone());
                return FlagStep::Ok1;
            },
        }
    }
    if chars_eq_str(t, "--badsum") {
        scan.evasion.badsum = true;
        return FlagStep::Ok0;
    }
    if chars_eq_str(t, "--adler32") {
        scan.evasion.adler32 = true;
        return FlagStep::Ok0;
    }
    FlagStep::NotMine
}

/// Applies one output flag, if the token is one.
#[verifier::rlimit(100)]
#[verifier::spinoff_prover]
fn try_output_flag(scan: &mut NmapScan, t: &Vec<char>, next: Option<&String>) -> (r: FlagStep)
    ensures
        match spec_output_flag(old(scan)@, t@, next_view(next)) {
            None => r is NotMine && final(scan)@ == old(scan)@,
            Some(FlagOutcome::Ok0(m2)) => r is Ok0 && final(scan)@ == m2,
            Some(FlagOutcome::Ok1(m2)) => r is Ok1 && final(scan)@ == m2,
            Some(FlagOutcome::Fail(e)) => (r matches FlagStep::Fail(pe) && pe@ == e),
        },
        r is Ok1 ==> next is Some,
{
    proof {
        reveal(spec_output_flag);
    }
    if chars_eq_str(t, "-oN") {
        match next {
            None => {
                return FlagStep::Fail(ParseError::MissingValue(string_of_chars(t)));
            },
            Some(v) => {
                scan.output.normal = Some((*v).clone());
                return FlagStep::Ok1;
            },
        }
    }
    if chars_eq_str(t, "-oX") {
        match next {
            None => {
                return FlagStep::Fail(ParseError::MissingValue(string_of_chars(t)));
            },
            Some(v) => {
                scan.output.xml = Some((*v).clone());
                return FlagStep::Ok1;
            },
        }
    }
    if chars_eq_str(t, "-oS") {
        match next {
            None => {
                return FlagStep::Fail(ParseError::MissingValue(string_of_chars(t)));
            },
            Some(v) => {
                scan.output.script_kiddie = Some((*v).clone());
                return FlagStep::Ok1;
            },
        }
    }
    if chars_eq_str(t, "-oG") {
        match next {
            None => {
                return FlagStep::Fail(ParseError::MissingValue(string_of_chars(t)));
            },
            Some(v) => {
                scan.output.grepable = Some((*v).clone());
                return FlagStep::Ok1;
            },
        }
    }
    if chars_eq_str(t, "-oA") {
        match next {
            None => {
                return FlagStep::Fail(ParseError::MissingValue(string_of_chars(t)));
            },
            Some(v) => {
                scan.output.all_formats = Some((*v).clone());
                return FlagStep::Ok1;
            },
        }
    }
    if chars_eq_str(t, "-v") {
        let cur = scan.output.verbose;
        scan.output.verbose = if cur == 255 {
            255
        } else {
            cur + 1
        };
        return FlagStep::Ok0;
    }
    if chars_eq_str(t, "-vv") {
        let cur = scan.output.verbose;
        scan.output.verbose = if cur >= 254 {
            255
        } else {
            cur + 2
        };
        return FlagStep::Ok0;
    }
    if chars_eq_str(t, "-d") {
        let cur = scan.output.debug;
        scan.output.debug = if cur == 255 {
            255
        } else {
            cur + 1
        };
        return FlagStep::Ok0;
    }
    if chars_eq_str(t, "-dd") {
        let cur = scan.output.debug;
        scan.output.debug = if cur >= 254 {
            255
        } else {
            cur + 2
        };
        return FlagStep::Ok0;
    }
    if chars_eq_str(t, "--reason") {
        scan.output.reason = true;
        return FlagStep::Ok0;
    }
    if chars_eq_str(t, "--stats-every") {
        match next {
            None => {
                return FlagStep::Fail(ParseError::MissingValue(string_of_chars(t)));
            },
            Some(v) => {
                scan.output.stats_every = Some((*v).clone());
                return FlagStep::Ok1;
            },
        }
    }
    if chars_eq_str(t, "--packet-trace") {
        scan.output.packet_trace = true;
        return FlagStep::Ok0;
    }
    if chars_eq_str(t, "--open") {
        scan.output.open_only = true;
        return FlagStep::Ok0;
    }
    if chars_eq_str(t, "--iflist") {
        scan.output.iflist = true;
        return FlagStep::Ok0;
    }
    if chars_eq_str(t, "--append-output") {
        scan.output.append_output = true;
        return FlagStep::Ok0;
    }
    if chars_eq_str(t, "--resume") {
        match next {
            None => {
                return FlagStep::Fail(ParseError::MissingValue(string_of_chars(t)));
            },
            Some(v) => {
                scan.output.resume = Some((*v).clone());
                return FlagStep::Ok1;
            },
        }
    }
    if chars_eq_str(t, "--stylesheet") {
        match next {
            None => {
                return FlagStep::Fail(ParseError::MissingValue(string_of_chars(t)));
            },
            Some(v) => {
                scan.output.stylesheet = Some((*v).clone());
                return FlagStep::Ok1;
            },
        }
    }
    if chars_eq_str(t, "--webxml") {
        scan.output.webxml = true;
        return FlagStep::Ok0;
    }
    if chars_eq_str(t, "--no-stylesheet") {
        scan.output.no_stylesheet = true;
        return FlagStep::Ok0;
    }
    FlagStep::NotMine
}

/// Applies one misc flag, if the token is one.
#[verifier::rlimit(100)]
#[verifier::spinoff_prover]
fn try_misc_flag(scan: &mut NmapScan, t: &Vec<char>, next: Option<&String>) -> (r: FlagStep)
    ensures
        match spec_misc_flag(old(scan)@, t@, next_view(next)) {
            None => r is NotMine && final(scan)@ == old(scan)@,
            Some(FlagOutcome::Ok0(m2)) => r is Ok0 && final(scan)@ == m2,
            Some(FlagOutcome::Ok1(m2)) => r is Ok1 && final(scan)@ == m2,
            Some(FlagOutcome::Fail(e)) => (r matches FlagStep::Fail(pe) && pe@ == e),
        },
        r is Ok1 ==> next is Some,
{
    proof {
        reveal(spec_misc_flag);
    }
    if chars_eq_str(t, "-6") {
        scan.misc.ipv6 = true;
        return FlagStep::Ok0;
    }
    if chars_eq_str(t, "-A") {
        scan.misc.aggressive = true;
        return FlagStep::Ok0;
    }
    if chars_eq_str(t, "--datadir") {
        match next {
            None => {
                return FlagStep::Fail(ParseError::MissingValue(string_of_chars(t)));
            },
            Some(v) => {
                scan.misc.datadir = Some((*v).clone());
                return FlagStep::Ok1;
            },
        }
    }
    if chars_eq_str(t, "--send-eth") {
        scan.misc.send_eth = true;
        return FlagStep::Ok0;
    }
    if chars_eq_str(t, "--send-ip") {
        scan.misc.send_ip = true;
        return FlagStep::Ok0;
    }
    if chars_eq_str(t, "--privileged") {
        scan.misc.privileged = true;
        return FlagStep::Ok0;
    }
    if chars_eq_str(t, "--unprivileged") {
        scan.misc.unprivileged = true;
        return FlagStep::Ok0;
    }
    if chars_eq_str(t, "--release-memory") {
        scan.misc.release_memory = true;
        return FlagStep::Ok0;
    }
    if chars_eq_str(t, "-V") || chars_eq_str(t, "--version") {
        scan.misc.version = true;
        return FlagStep::Ok0;
    }
    if chars_eq_str(t, "-h") || chars_eq_str(t, "--help") {
        scan.misc.help = true;
        return FlagStep::Ok0;
    }
    if chars_eq_str(t, "-R") {
        scan.misc.resolve_all = true;
        return FlagStep::Ok0;
    }
    if chars_eq_str(t, "-n") {
        scan.misc.no_resolve = true;
        return FlagStep::Ok0;
    }
    if chars_eq_str(t, "--unique") {
        scan.misc.unique = true;
        return FlagStep::Ok0;
    }
    if chars_eq_str(t, "--log-errors") {
        scan.misc.log_errors = true;
        return FlagStep::Ok0;
    }
    FlagStep::NotMine
}

/// Applies one flag token, whichever section it belongs to.
fn dispatch_flag(scan: &mut NmapScan, t: &Vec<char>, next: Option<&String>) -> (r: FlagStep)
    ensures
        match spec_dispatch(old(scan)@, t@, next_view(next)) {
            FlagOutcome::Ok0(m2) => r is Ok0 && final(scan)@ == m2,
            FlagOutcome::Ok1(m2) => r is Ok1 && final(scan)@ == m2,
            FlagOutcome::Fail(e) => (r matches FlagStep::Fail(pe) && pe@ == e),
        },
        r is Ok1 ==> next is Some,
{
    proof {
        reveal(spec_dispatch);
    }
    let r = try_target_flag(scan, t, next);
    match r {
        FlagStep::NotMine => {
        },
        _ => {
            return r;
        },
    }
    let r = try_host_discovery_flag(scan, t, next);
    match r {
        FlagStep::NotMine => {
        },
        _ => {
            return r;
        },
    }
    let r = try_technique_flag(scan, t, next);
    match r {
        FlagStep::NotMine => {
        },
        _ => {
            return r;
        },
    }
    let r = try_ports_flag(scan, t, next);
    match r {
        FlagStep::NotMine => {
        },
        _ => {
            return r;
        },
    }
    let r = try_service_flag(scan, t, next);
    match r {
        FlagStep::NotMine => {
        },
        _ => {
            return r;
        },
    }
    let r = try_script_flag(scan, t, next);
    match r {
        FlagStep::NotMine => {
        },
        _ => {
            return r;
        },
    }
    let r = try_os_flag(scan, t, next);
    match r {
        FlagStep::NotMine => {
        },
        _ => {
            return r;
        },
    }
    let r = try_timing_flag(scan, t, next);
    match r {
        FlagStep::NotMine => {
        },
        _ => {
            return r;
        },
    }
    let r = try_evasion_flag(scan, t, next);
    match r {
        FlagStep::NotMine => {
        },
        _ => {
            return r;
        },
    }
    let r = try_output_flag(scan, t, next);
    match r {
        FlagStep::NotMine => {
        },
        _ => {
            return r;
        },
    }
    let r = try_misc_flag(scan, t, next);
    match r {
        FlagStep::NotMine => {
        },
        _ => {
            return r;
        },
    }
    FlagStep::Fail(ParseError::InvalidFlag(string_of_chars(t)))
}

/// Parser for the scanner's command strings.
pub struct NmapParser;

impl NmapParser {
    /// Splits a command string into tokens: unquoted whitespace
    /// separates, double quotes toggle quoted mode, a backslash inside
    /// quotes escapes the next character, an unterminated quote closes
    /// at the end.
    pub fn tokenize(command: &str) -> (r: Vec<String>)
        ensures
            r.deep_view() == spec_tokenize(command@),
    {
        let cs = chars_of_str(command);
        let mut out: Vec<String> = Vec::new();
        let mut cur: Vec<char> = Vec::new();
        let mut inq: bool = false;
        let mut i: usize = 0;
        proof {
            assert(out.deep_view() =~= Seq::<Seq<char>>::empty());
            assert(cs@.skip(0) =~= cs@);
            assert(out.deep_view() + tok_rec(cs@, cur@, inq, Seq::empty()) =~= tok_rec(
                cs@,
                cur@,
                inq,
                Seq::empty(),
            ));
            assert(spec_tokenize(command@) == tok_rec(cs@, cur@, inq, out.deep_view()));
        }
        while i < cs.len()
            invariant
                i <= cs@.len(),
                cs@ == command@,
                spec_tokenize(command@) == tok_rec(cs@.skip(i as int), cur@, inq, out.deep_view()),
            decreases cs@.len() - i,
        {
            proof {
                assert(cs@.skip(i as int)[0] == cs@[i as int]);
                assert(cs@.skip(i as int).skip(1) =~= cs@.skip(i + 1));
            }
            let c = cs[i];
            if c == '"' {
                inq = !inq;
                i = i + 1;
            } else if (c == ' ' || c == '\t' || c == '\n') && !inq {
                if cur.len() > 0 {
                    let ghost prev_dv = out.deep_view();
                    let ghost prev_cur = cur@;
                    let piece = string_of_chars(&cur);
                    out.push(piece);
                    cur = Vec::new();
                    proof {
                        assert(out.deep_view() =~= prev_dv.push(prev_cur));
                        assert(cur@ =~= Seq::<char>::empty());
                    }
                }
                i = i + 1;
            } else if c == '\\' && inq {
                if i + 1 < cs.len() {
                    proof {
                        assert(cs@.skip(i as int)[1] == cs@[i + 1]);
                        assert(cs@.skip(i as int).skip(2) =~= cs@.skip(i + 2));
                    }
                    let c2 = cs[i + 1];
                    cur.push(c2);
                    i = i + 2;
                } else {
                    i = i + 1;
                }
            } else {
                cur.push(c);
                i = i + 1;
            }
        }
        proof {
            assert(cs@.skip(i as int) =~= Seq::<char>::empty());
        }
        if cur.len() > 0 {
            let ghost prev_dv = out.deep_view();
            let ghost prev_cur = cur@;
            let piece = string_of_chars(&cur);
            out.push(piece);
            proof {
                assert(out.deep_view() =~= prev_dv.push(prev_cur));
            }
        }
        out
    }

    /// A decimal value of at most `max`, as flag values are coerced;
    /// a leading plus sign is allowed.
    pub fn parse_number(s: &str, max: u32) -> (r: Option<u32>)
        ensures
            match r {
                Some(v) => parse_dec(s@, max as nat) == Some(v as nat),
                None => parse_dec(s@, max as nat) is None,
            },
    {
        let pc = chars_of_str(s);
        parse_dec_chars(&pc, max)
    }

    /// The port numbers of a comma-separated value; entries that are
    /// not port numbers are dropped.
    pub fn parse_port_list(s: &str) -> (r: Vec<u16>)
        ensures
            r@ == port_list_of(s@),
    {
        let pc = chars_of_str(s);
        parse_port_list(&pc)
    }

    /// The protocol numbers of a comma-separated value; entries that
    /// are not protocol numbers are dropped.
    pub fn parse_protocol_list(s: &str) -> (r: Vec<u8>)
        ensures
            r@ == proto_list_of(s@),
    {
        let pc = chars_of_str(s);
        parse_protocol_list(&pc)
    }

    /// Parses a command string into a configuration, or rejects it with
    /// the first error; a rejected parse yields no configuration at
    /// all.
    #[verifier::rlimit(100)]
    #[verifier::spinoff_prover]
    pub fn parse(command: &str) -> (r: Result<NmapScan, ParseError>)
        ensures
            r is Ok <==> spec_parse(command@) is Ok,
            spec_parse(command@) matches Ok(mv) ==> (r matches Ok(scan) && scan@ == mv),
            spec_parse(command@) matches Err(e) ==> (r matches Err(pe) && pe@ == e),
    {
        let toks = Self::tokenize(command);
        let ghost all = toks.deep_view();
        let mut scan = NmapScan::new();
        let mut i: usize = 0;
        if toks.len() > 0 {
            let t0 = chars_of_str(toks[0].as_str());
            if chars_eq_str(&t0, "nmap") {
                i = 1;
            }
        }
        let ghost rest = if all.len() > 0 && all[0] == "nmap"@ {
            all.skip(1)
        } else {
            all
        };
        proof {
            if i == 1 {
                assert(all.skip(1).skip(0) =~= all.skip(1));
            } else {
                assert(all.skip(0) =~= all);
            }
            assert(proc_tokens(all.skip(i as int), scan@) == proc_tokens(
                rest,
                nmap_scan_default(),
            ));
        }
        while i < toks.len()
            invariant
                i <= toks@.len(),
                all == toks.deep_view(),
                all.len() == toks@.len(),
                spec_parse(command@) == proc_tokens(rest, nmap_scan_default()),
                proc_tokens(all.skip(i as int), scan@) == proc_tokens(rest, nmap_scan_default()),
            decreases toks@.len() - i,
        {
            proof {
                assert(all.skip(i as int)[0] == all[i as int]);
                assert(all[i as int] == toks@[i as int]@);
                assert(all.skip(i as int).skip(1) =~= all.skip(i + 1));
            }
            let t = chars_of_str(toks[i].as_str());
            if t.len() > 0 && t[0] == '-' {
                let step = if i + 1 < toks.len() {
                    proof {
                        assert(all[i + 1] == toks@[i + 1]@);
                    }
                    dispatch_flag(&mut scan, &t, Some(&toks[i + 1]))
                } else {
                    dispatch_flag(&mut scan, &t, None)
                };
                match step {
                    FlagStep::Ok0 => {
                        i = i + 1;
                    },
                    FlagStep::Ok1 => {
                        proof {
                            assert(i + 2 <= toks@.len());
                            assert(all.skip(i as int).skip(2) =~= all.skip(i + 2));
                        }
                        i = i + 2;
                    },
                    FlagStep::Fail(e) => {
                        proof {
                            assert(proc_tokens(rest, nmap_scan_default()) == Err::<NmapScanV, ParseErrorV>(e@));
                        }
                        return Err(e);
                    },
                    FlagStep::NotMine => {
                        proof {
                            assert(false);
                        }
                    },
                }
            } else {
                let ghost prev = scan@;
                let piece = toks[i].clone();
                scan.target_specification.targets.push(piece);
                proof {
                    assert(scan@.target_specification.targets
                        =~= prev.target_specification.targets.push(t@));
                    assert(scan@ == NmapScanV {
                        target_specification: TargetSpecificationV {
                            targets: prev.target_specification.targets.push(t@),
                            ..prev.target_specification
                        },
                        ..prev
                    });
                }
                i = i + 1;
            }
        }
        proof {
            assert(all.skip(i as int) =~= Seq::<Seq<char>>::empty());
            assert(proc_tokens(rest, nmap_scan_default()) == Ok::<NmapScanV, ParseErrorV>(scan@));
        }
        Ok(scan)
    }
}

} // verus!
