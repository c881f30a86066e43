//! The configuration model: one value object per option group, and a
//! mathematical view of each, over which the builder's and the parser's
//! contracts are stated.
//!
//! Addresses, the port ratio and file paths are held as their text; the
//! parser admits a value only when it matches the field's grammar, so the
//! model never holds an address or ratio that the scanner's syntax cannot
//! carry.
use vstd::prelude::*;

verus! {

broadcast use vstd::std_specs::vec::axiom_vec_decreases_to_view, vstd::seq::axiom_seq_index_decreases;

/// A complete scan configuration.
#[derive(Debug, Clone)]
pub struct NmapScan {
    pub target_specification: TargetSpecification,
    pub host_discovery: HostDiscovery,
    pub scan_technique: ScanTechnique,
    pub ports: PortSpecification,
    pub service_detection: ServiceDetection,
    pub script_scan: ScriptScan,
    pub os_detection: OsDetection,
    pub timing: TimingPerformance,
    pub evasion: EvasionSpoofing,
    pub output: OutputOptions,
    pub misc: MiscOptions,
}

#[derive(Debug, Clone)]
pub struct TargetSpecification {
    pub targets: Vec<String>,
    pub input_file: Option<String>,
    pub random_targets: Option<u32>,
    pub exclude: Vec<String>,
    pub exclude_file: Option<String>,
}

/// Host discovery options.
#[derive(Debug, Clone)]
pub struct HostDiscovery {
    pub list_scan: bool,  // -sL
    pub ping_scan: bool,  // -sn
    pub skip_port_scan: bool,  // -Pn
    pub syn_discovery: Vec<u16>,  // -PS
    pub ack_discovery: Vec<u16>,  // -PA
    pub udp_discovery: Vec<u16>,  // -PU
    pub sctp_discovery: Vec<u16>,  // -PY
    pub icmp_echo: bool,  // -PE
    pub icmp_timestamp: bool,  // -PP
    pub icmp_netmask: bool,  // -PM
    pub ip_protocol_ping: Vec<u8>,  // -PO
    pub dns_servers: Vec<String>,  // --dns-servers
    pub system_dns: bool,  // --system-dns
    pub traceroute: bool,  // --traceroute
}

/// Scan technique options.
#[derive(Debug)]
pub enum ScanTechnique {
    Syn,  // -sS (default)
    Connect,  // -sT
    Ack,  // -sA
    Window,  // -sW
    Maimon,  // -sM
    Udp,  // -sU
    TcpNull,  // -sN
    Fin,  // -sF
    Xmas,  // -sX
    Scanflags(String),  // --scanflags
    Idle(String),  // -sI (zombie host)
    Sctp(SctpScanType),  // -sY, -sZ
    IpProtocol,  // -sO
    Ftp(String),  // -b (FTP bounce)
    Multiple(Vec<ScanTechnique>),
}

#[derive(Debug)]
pub enum SctpScanType {
    Init,  // -sY
    Cookie,  // -sZ
}

/// Port specification.
#[derive(Debug, Clone)]
pub struct PortSpecification {
    pub ports: Option<String>,  // -p
    pub exclude_ports: Option<String>,  // --exclude-ports
    pub fast_mode: bool,  // -F
    pub consecutive_ports: bool,  // -r
    pub top_ports: Option<u32>,  // --top-ports
    pub port_ratio: Option<String>,  // --port-ratio, a decimal fraction's text
}

/// Service and version detection.
#[derive(Debug, Clone)]
pub struct ServiceDetection {
    pub enabled: bool,  // -sV
    pub intensity: Option<u8>,  // --version-intensity (0-9)
    pub light: bool,  // --version-light
    pub all: bool,  // --version-all
    pub trace: bool,  // --version-trace
}

/// Script scanning options.
#[derive(Debug, Clone)]
pub struct ScriptScan {
    pub default: bool,  // -sC
    pub scripts: Vec<String>,  // --script
    pub script_args: Option<String>,  // --script-args
    pub script_args_file: Option<String>,  // --script-args-file
    pub script_trace: bool,  // --script-trace
    pub script_updatedb: bool,  // --script-updatedb
    pub script_help: Option<String>,  // --script-help
}

/// OS detection options.
#[derive(Debug, Clone)]
pub struct OsDetection {
    pub enabled: bool,  // -O
    pub limit: bool,  // --osscan-limit
    pub guess: bool,  // --osscan-guess
    pub max_retries: Option<u32>,  // --max-os-tries
}

/// Timing and performance options.
#[derive(Debug, Clone)]
pub struct TimingPerformance {
    pub template: Option<TimingTemplate>,  // -T<0-5>
    pub min_hostgroup: Option<u32>,  // --min-hostgroup
    pub max_hostgroup: Option<u32>,  // --max-hostgroup
    pub min_parallelism: Option<u32>,  // --min-parallelism
    pub max_parallelism: Option<u32>,  // --max-parallelism
    pub min_rtt_timeout: Option<String>,  // --min-rtt-timeout
    pub max_rtt_timeout: Option<String>,  // --max-rtt-timeout
    pub initial_rtt_timeout: Option<String>,  // --initial-rtt-timeout
    pub max_retries: Option<u32>,  // --max-retries
    pub host_timeout: Option<String>,  // --host-timeout
    pub script_timeout: Option<String>,  // --script-timeout
    pub scan_delay: Option<String>,  // --scan-delay
    pub max_scan_delay: Option<String>,  // --max-scan-delay
    pub min_rate: Option<u32>,  // --min-rate
    pub max_rate: Option<u32>,  // --max-rate
    pub defeat_rst_ratelimit: bool,  // --defeat-rst-ratelimit
    pub defeat_icmp_ratelimit: bool,  // --defeat-icmp-ratelimit
    pub nsock_engine: Option<String>,  // --nsock-engine
}

#[derive(Debug, Clone, Copy, PartialEq, Eq)]
pub enum TimingTemplate {
    Paranoid,  // -T0
    Sneaky,  // -T1
    Polite,  // -T2
    Normal,  // -T3
    Aggressive,  // -T4
    Insane,  // -T5
}

/// The digit of a timing template's flag.
pub open spec fn template_level(t: TimingTemplate) -> u32 {
    match t {
        TimingTemplate::Paranoid => 0,
        TimingTemplate::Sneaky => 1,
        TimingTemplate::Polite => 2,
        TimingTemplate::Normal => 3,
        TimingTemplate::Aggressive => 4,
        TimingTemplate::Insane => 5,
    }
}

/// Firewall/IDS evasion and spoofing.
#[derive(Debug, Clone)]
pub struct EvasionSpoofing {
    pub fragment_packets: bool,  // -f
    pub mtu: Option<u32>,  // --mtu
    pub decoys: Vec<String>,  // -D
    pub spoof_ip: Option<String>,  // -S, an address's text
    pub interface: Option<String>,  // -e
    pub source_port: Option<u16>,  // -g/--source-port
    pub data: Option<String>,  // --data
    pub data_string: Option<String>,  // --data-string
    pub data_length: Option<u32>,  // --data-length
    pub ip_options: Option<String>,  // --ip-options
    pub ttl: Option<u8>,  // --ttl
    pub randomize_hosts: bool,  // --randomize-hosts
    pub spoof_mac: Option<String>,  // --spoof-mac
    pub badsum: bool,  // --badsum
    pub adler32: bool,  // --adler32
}

/// Output options.
#[derive(Debug, Clone)]
pub struct OutputOptions {
    pub normal: Option<String>,  // -oN
    pub xml: Option<String>,  // -oX
    pub script_kiddie: Option<String>,  // -oS
    pub grepable: Option<String>,  // -oG
    pub all_formats: Option<String>,  // -oA (base filename)
    pub verbose: u8,  // -v, -vv, etc.
    pub debug: u8,  // -d, -dd, etc.
    pub reason: bool,  // --reason
    pub stats_every: Option<String>,  // --stats-every
    pub packet_trace: bool,  // --packet-trace
    pub open_only: bool,  // --open
    pub iflist: bool,  // --iflist
    pub append_output: bool,  // --append-output
    pub resume: Option<String>,  // --resume
    pub stylesheet: Option<String>,  // --stylesheet
    pub webxml: bool,  // --webxml
    pub no_stylesheet: bool,  // --no-stylesheet
}

/// Miscellaneous options.
#[derive(Debug, Clone)]
pub struct MiscOptions {
    pub ipv6: bool,  // -6
    pub aggressive: bool,  // -A
    pub datadir: Option<String>,  // --datadir
    pub send_eth: bool,  // --send-eth
    pub send_ip: bool,  // --send-ip
    pub privileged: bool,  // --privileged
    pub unprivileged: bool,  // --unprivileged
    pub release_memory: bool,  // --release-memory
    pub version: bool,  // -V
    pub help: bool,  // -h
    pub resolve_all: bool,  // -R
    pub no_resolve: bool,  // -n
    pub unique: bool,  // --unique
    pub log_errors: bool,  // --log-errors
}

// ---------------------------------------------------------------------
// Mathematical views
// ---------------------------------------------------------------------
#[verifier::ext_equal]
pub struct NmapScanV {
    pub target_specification: TargetSpecificationV,
    pub host_discovery: HostDiscoveryV,
    pub scan_technique: ScanTechniqueV,
    pub ports: PortSpecificationV,
    pub service_detection: ServiceDetectionV,
    pub script_scan: ScriptScanV,
    pub os_detection: OsDetectionV,
    pub timing: TimingPerformanceV,
    pub evasion: EvasionSpoofingV,
    pub output: OutputOptionsV,
    pub misc: MiscOptionsV,
}

#[verifier::ext_equal]
pub struct TargetSpecificationV {
    pub targets: Seq<Seq<char>>,
    pub input_file: Option<Seq<char>>,
    pub random_targets: Option<u32>,
    pub exclude: Seq<Seq<char>>,
    pub exclude_file: Option<Seq<char>>,
}

#[verifier::ext_equal]
pub struct HostDiscoveryV {
    pub list_scan: bool,
    pub ping_scan: bool,
    pub skip_port_scan: bool,
    pub syn_discovery: Seq<u16>,
    pub ack_discovery: Seq<u16>,
    pub udp_discovery: Seq<u16>,
    pub sctp_discovery: Seq<u16>,
    pub icmp_echo: bool,
    pub icmp_timestamp: bool,
    pub icmp_netmask: bool,
    pub ip_protocol_ping: Seq<u8>,
    pub dns_servers: Seq<Seq<char>>,
    pub system_dns: bool,
    pub traceroute: bool,
}

#[verifier::ext_equal]
pub enum ScanTechniqueV {
    Syn,
    Connect,
    Ack,
    Window,
    Maimon,
    Udp,
    TcpNull,
    Fin,
    Xmas,
    Scanflags(Seq<char>),
    Idle(Seq<char>),
    Sctp(bool),  // true for INIT, false for COOKIE
    IpProtocol,
    Ftp(Seq<char>),
    Multiple(Seq<ScanTechniqueV>),
}

#[verifier::ext_equal]
pub struct PortSpecificationV {
    pub ports: Option<Seq<char>>,
    pub exclude_ports: Option<Seq<char>>,
    pub fast_mode: bool,
    pub consecutive_ports: bool,
    pub top_ports: Option<u32>,
    pub port_ratio: Option<Seq<char>>,
}

#[verifier::ext_equal]
pub struct ServiceDetectionV {
    pub enabled: bool,
    pub intensity: Option<u8>,
    pub light: bool,
    pub all: bool,
    pub trace: bool,
}

#[verifier::ext_equal]
pub struct ScriptScanV {
    pub default: bool,
    pub scripts: Seq<Seq<char>>,
    pub script_args: Option<Seq<char>>,
    pub script_args_file: Option<Seq<char>>,
    pub script_trace: bool,
    pub script_updatedb: bool,
    pub script_help: Option<Seq<char>>,
}

#[verifier::ext_equal]
pub struct OsDetectionV {
    pub enabled: bool,
    pub limit: bool,
    pub guess: bool,
    pub max_retries: Option<u32>,
}

#[verifier::ext_equal]
pub struct TimingPerformanceV {
    pub template: Option<TimingTemplate>,
    pub min_hostgroup: Option<u32>,
    pub max_hostgroup: Option<u32>,
    pub min_parallelism: Option<u32>,
    pub max_parallelism: Option<u32>,
    pub min_rtt_timeout: Option<Seq<char>>,
    pub max_rtt_timeout: Option<Seq<char>>,
    pub initial_rtt_timeout: Option<Seq<char>>,
    pub max_retries: Option<u32>,
    pub host_timeout: Option<Seq<char>>,
    pub script_timeout: Option<Seq<char>>,
    pub scan_delay: Option<Seq<char>>,
    pub max_scan_delay: Option<Seq<char>>,
    pub min_rate: Option<u32>,
    pub max_rate: Option<u32>,
    pub defeat_rst_ratelimit: bool,
    pub defeat_icmp_ratelimit: bool,
    pub nsock_engine: Option<Seq<char>>,
}

#[verifier::ext_equal]
pub struct EvasionSpoofingV {
    pub fragment_packets: bool,
    pub mtu: Option<u32>,
    pub decoys: Seq<Seq<char>>,
    pub spoof_ip: Option<Seq<char>>,
    pub interface: Option<Seq<char>>,
    pub source_port: Option<u16>,
    pub data: Option<Seq<char>>,
    pub data_string: Option<Seq<char>>,
    pub data_length: Option<u32>,
    pub ip_options: Option<Seq<char>>,
    pub ttl: Option<u8>,
    pub randomize_hosts: bool,
    pub spoof_mac: Option<Seq<char>>,
    pub badsum: bool,
    pub adler32: bool,
}

#[verifier::ext_equal]
pub struct OutputOptionsV {
    pub normal: Option<Seq<char>>,
    pub xml: Option<Seq<char>>,
    pub script_kiddie: Option<Seq<char>>,
    pub grepable: Option<Seq<char>>,
    pub all_formats: Option<Seq<char>>,
    pub verbose: u8,
    pub debug: u8,
    pub reason: bool,
    pub stats_every: Option<Seq<char>>,
    pub packet_trace: bool,
    pub open_only: bool,
    pub iflist: bool,
    pub append_output: bool,
    pub resume: Option<Seq<char>>,
    pub stylesheet: Option<Seq<char>>,
    pub webxml: bool,
    pub no_stylesheet: bool,
}

#[verifier::ext_equal]
pub struct MiscOptionsV {
    pub ipv6: bool,
    pub aggressive: bool,
    pub datadir: Option<Seq<char>>,
    pub send_eth: bool,
    pub send_ip: bool,
    pub privileged: bool,
    pub unprivileged: bool,
    pub release_memory: bool,
    pub version: bool,
    pub help: bool,
    pub resolve_all: bool,
    pub no_resolve: bool,
    pub unique: bool,
    pub log_errors: bool,
}

pub open spec fn technique_view(t: ScanTechnique) -> ScanTechniqueV
    decreases t,
{
    match t {
        ScanTechnique::Syn => ScanTechniqueV::Syn,
        ScanTechnique::Connect => ScanTechniqueV::Connect,
        ScanTechnique::Ack => ScanTechniqueV::Ack,
        ScanTechnique::Window => ScanTechniqueV::Window,
        ScanTechnique::Maimon => ScanTechniqueV::Maimon,
        ScanTechnique::Udp => ScanTechniqueV::Udp,
        ScanTechnique::TcpNull => ScanTechniqueV::TcpNull,
        ScanTechnique::Fin => ScanTechniqueV::Fin,
        ScanTechnique::Xmas => ScanTechniqueV::Xmas,
        ScanTechnique::Scanflags(s) => ScanTechniqueV::Scanflags(s@),
        ScanTechnique::Idle(s) => ScanTechniqueV::Idle(s@),
        ScanTechnique::Sctp(SctpScanType::Init) => ScanTechniqueV::Sctp(true),
        ScanTechnique::Sctp(SctpScanType::Cookie) => ScanTechniqueV::Sctp(false),
        ScanTechnique::IpProtocol => ScanTechniqueV::IpProtocol,
        ScanTechnique::Ftp(s) => ScanTechniqueV::Ftp(s@),
        ScanTechnique::Multiple(v) => ScanTechniqueV::Multiple(
            Seq::new(
                v@.len(),
                |i: int|
                    if 0 <= i < v@.len() {
                        technique_view(v@[i])
                    } else {
                        ScanTechniqueV::Syn
                    },
            ),
        ),
    }
}

impl Clone for SctpScanType {
    fn clone(&self) -> (r: Self)
        ensures
            r matches SctpScanType::Init <==> self matches SctpScanType::Init,
    {
        match self {
            SctpScanType::Init => SctpScanType::Init,
            SctpScanType::Cookie => SctpScanType::Cookie,
        }
    }
}

impl Clone for ScanTechnique {
    fn clone(&self) -> (r: Self)
        ensures
            r@ == self@,
        decreases *self, 0int,
    {
        match self {
            ScanTechnique::Syn => ScanTechnique::Syn,
            ScanTechnique::Connect => ScanTechnique::Connect,
            ScanTechnique::Ack => ScanTechnique::Ack,
            ScanTechnique::Window => ScanTechnique::Window,
            ScanTechnique::Maimon => ScanTechnique::Maimon,
            ScanTechnique::Udp => ScanTechnique::Udp,
            ScanTechnique::TcpNull => ScanTechnique::TcpNull,
            ScanTechnique::Fin => ScanTechnique::Fin,
            ScanTechnique::Xmas => ScanTechnique::Xmas,
            ScanTechnique::Scanflags(s) => ScanTechnique::Scanflags(s.clone()),
            ScanTechnique::Idle(s) => ScanTechnique::Idle(s.clone()),
            ScanTechnique::Sctp(t) => ScanTechnique::Sctp(t.clone()),
            ScanTechnique::IpProtocol => ScanTechnique::IpProtocol,
            ScanTechnique::Ftp(s) => ScanTechnique::Ftp(s.clone()),
            ScanTechnique::Multiple(v) => {
                let out = clone_techniques(v, 0, Vec::new());
                proof {
                    assert(out@.len() == v@.len());
                    assert forall|j: int| 0 <= j < v@.len() implies (#[trigger] out@[j])@
                        == v@[j]@ by {
                        assert(out@[0 + j]@ == v@[0 + j]@);
                    }
                }
                let r = ScanTechnique::Multiple(out);
                proof {
                    let sv = self@;
                    let rv = r@;
                    assert(rv matches ScanTechniqueV::Multiple(_));
                    assert(rv->Multiple_0 =~= sv->Multiple_0);
                }
                r
            },
        }
    }
}

/// Clones the techniques from position `i` on, after those already in
/// `acc`.
fn clone_techniques(v: &Vec<ScanTechnique>, i: usize, acc: Vec<ScanTechnique>) -> (out: Vec<
    ScanTechnique,
>)
    requires
        i <= v@.len(),
    ensures
        out@.len() == acc@.len() + (v@.len() - i),
        forall|j: int| 0 <= j < acc@.len() ==> out@[j] == acc@[j],
        forall|j: int|
            0 <= j < v@.len() - i ==> (#[trigger] out@[acc@.len() + j])@ == v@[i + j]@,
    decreases *v, v@.len() - i,
{
    if i == v.len() {
        acc
    } else {
        proof {
            assert(decreases_to!(*v => v@[i as int]));
        }
        let c = v[i].clone();
        let ghost accv = acc@;
        let mut acc2 = acc;
        acc2.push(c);
        let out = clone_techniques(v, i + 1, acc2);
        proof {
            assert(acc2@.len() == accv.len() + 1);
            assert forall|j: int| 0 <= j < v@.len() - i implies (#[trigger] out@[accv.len() + j])@
                == v@[i + j]@ by {
                if j == 0 {
                    assert(out@[accv.len() as int] == acc2@[accv.len() as int]);
                    assert(acc2@[accv.len() as int] == c);
                } else {
                    assert(out@[acc2@.len() + (j - 1)]@ == v@[i + 1 + (j - 1)]@);
                    assert(accv.len() + j == acc2@.len() + (j - 1));
                }
            }
        }
        out
    }
}

impl View for ScanTechnique {
    type V = ScanTechniqueV;

    open spec fn view(&self) -> ScanTechniqueV {
        technique_view(*self)
    }
}

impl View for TargetSpecification {
    type V = TargetSpecificationV;

    open spec fn view(&self) -> TargetSpecificationV {
        TargetSpecificationV {
            targets: self.targets.deep_view(),
            input_file: self.input_file.deep_view(),
            random_targets: self.random_targets,
            exclude: self.exclude.deep_view(),
            exclude_file: self.exclude_file.deep_view(),
        }
    }
}

impl View for HostDiscovery {
    type V = HostDiscoveryV;

    open spec fn view(&self) -> HostDiscoveryV {
        HostDiscoveryV {
            list_scan: self.list_scan,
            ping_scan: self.ping_scan,
            skip_port_scan: self.skip_port_scan,
            syn_discovery: self.syn_discovery@,
            ack_discovery: self.ack_discovery@,
            udp_discovery: self.udp_discovery@,
            sctp_discovery: self.sctp_discovery@,
            icmp_echo: self.icmp_echo,
            icmp_timestamp: self.icmp_timestamp,
            icmp_netmask: self.icmp_netmask,
            ip_protocol_ping: self.ip_protocol_ping@,
            dns_servers: self.dns_servers.deep_view(),
            system_dns: self.system_dns,
            traceroute: self.traceroute,
        }
    }
}

impl View for PortSpecification {
    type V = PortSpecificationV;

    open spec fn view(&self) -> PortSpecificationV {
        PortSpecificationV {
            ports: self.ports.deep_view(),
            exclude_ports: self.exclude_ports.deep_view(),
            fast_mode: self.fast_mode,
            consecutive_ports: self.consecutive_ports,
            top_ports: self.top_ports,
            port_ratio: self.port_ratio.deep_view(),
        }
    }
}

impl View for ServiceDetection {
    type V = ServiceDetectionV;

    open spec fn view(&self) -> ServiceDetectionV {
        ServiceDetectionV {
            enabled: self.enabled,
            intensity: self.intensity,
            light: self.light,
            all: self.all,
            trace: self.trace,
        }
    }
}

impl View for ScriptScan {
    type V = ScriptScanV;

    open spec fn view(&self) -> ScriptScanV {
        ScriptScanV {
            default: self.default,
            scripts: self.scripts.deep_view(),
            script_args: self.script_args.deep_view(),
            script_args_file: self.script_args_file.deep_view(),
            script_trace: self.script_trace,
            script_updatedb: self.script_updatedb,
            script_help: self.script_help.deep_view(),
        }
    }
}

impl View for OsDetection {
    type V = OsDetectionV;

    open spec fn view(&self) -> OsDetectionV {
        OsDetectionV {
            enabled: self.enabled,
            limit: self.limit,
            guess: self.guess,
            max_retries: self.max_retries,
        }
    }
}

impl View for TimingPerformance {
    type V = TimingPerformanceV;

    open spec fn view(&self) -> TimingPerformanceV {
        TimingPerformanceV {
            template: self.template,
            min_hostgroup: self.min_hostgroup,
            max_hostgroup: self.max_hostgroup,
            min_parallelism: self.min_parallelism,
            max_parallelism: self.max_parallelism,
            min_rtt_timeout: self.min_rtt_timeout.deep_view(),
            max_rtt_timeout: self.max_rtt_timeout.deep_view(),
            initial_rtt_timeout: self.initial_rtt_timeout.deep_view(),
            max_retries: self.max_retries,
            host_timeout: self.host_timeout.deep_view(),
            script_timeout: self.script_timeout.deep_view(),
            scan_delay: self.scan_delay.deep_view(),
            max_scan_delay: self.max_scan_delay.deep_view(),
            min_rate: self.min_rate,
            max_rate: self.max_rate,
            defeat_rst_ratelimit: self.defeat_rst_ratelimit,
            defeat_icmp_ratelimit: self.defeat_icmp_ratelimit,
            nsock_engine: self.nsock_engine.deep_view(),
        }
    }
}

impl View for EvasionSpoofing {
    type V = EvasionSpoofingV;

    open spec fn view(&self) -> EvasionSpoofingV {
        EvasionSpoofingV {
            fragment_packets: self.fragment_packets,
            mtu: self.mtu,
            decoys: self.decoys.deep_view(),
            spoof_ip: self.spoof_ip.deep_view(),
            interface: self.interface.deep_view(),
            source_port: self.source_port,
            data: self.data.deep_view(),
            data_string: self.data_string.deep_view(),
            data_length: self.data_length,
            ip_options: self.ip_options.deep_view(),
            ttl: self.ttl,
            randomize_hosts: self.randomize_hosts,
            spoof_mac: self.spoof_mac.deep_view(),
            badsum: self.badsum,
            adler32: self.adler32,
        }
    }
}

impl View for OutputOptions {
    type V = OutputOptionsV;

    open spec fn view(&self) -> OutputOptionsV {
        OutputOptionsV {
            normal: self.normal.deep_view(),
            xml: self.xml.deep_view(),
            script_kiddie: self.script_kiddie.deep_view(),
            grepable: self.grepable.deep_view(),
            all_formats: self.all_formats.deep_view(),
            verbose: self.verbose,
            debug: self.debug,
            reason: self.reason,
            stats_every: self.stats_every.deep_view(),
            packet_trace: self.packet_trace,
            open_only: self.open_only,
            iflist: self.iflist,
            append_output: self.append_output,
            resume: self.resume.deep_view(),
            stylesheet: self.stylesheet.deep_view(),
            webxml: self.webxml,
            no_stylesheet: self.no_stylesheet,
        }
    }
}

impl View for MiscOptions {
    type V = MiscOptionsV;

    open spec fn view(&self) -> MiscOptionsV {
        MiscOptionsV {
            ipv6: self.ipv6,
            aggressive: self.aggressive,
            datadir: self.datadir.deep_view(),
            send_eth: self.send_eth,
            send_ip: self.send_ip,
            privileged: self.privileged,
            unprivileged: self.unprivileged,
            release_memory: self.release_memory,
            version: self.version,
            help: self.help,
            resolve_all: self.resolve_all,
            no_resolve: self.no_resolve,
            unique: self.unique,
            log_errors: self.log_errors,
        }
    }
}

impl View for NmapScan {
    type V = NmapScanV;

    open spec fn view(&self) -> NmapScanV {
        NmapScanV {
            target_specification: self.target_specification@,
            host_discovery: self.host_discovery@,
            scan_technique: self.scan_technique@,
            ports: self.ports@,
            service_detection: self.service_detection@,
            script_scan: self.script_scan@,
            os_detection: self.os_detection@,
            timing: self.timing@,
            evasion: self.evasion@,
            output: self.output@,
            misc: self.misc@,
        }
    }
}

// ---------------------------------------------------------------------
// Defaults: every flag off, every option unset, the default technique
// ---------------------------------------------------------------------
pub open spec fn target_specification_default() -> TargetSpecificationV {
    TargetSpecificationV {
        targets: Seq::empty(),
        input_file: None,
        random_targets: None,
        exclude: Seq::empty(),
        exclude_file: None,
    }
}

pub open spec fn host_discovery_default() -> HostDiscoveryV {
    HostDiscoveryV {
        list_scan: false,
        ping_scan: false,
        skip_port_scan: false,
        syn_discovery: Seq::empty(),
        ack_discovery: Seq::empty(),
        udp_discovery: Seq::empty(),
        sctp_discovery: Seq::empty(),
        icmp_echo: false,
        icmp_timestamp: false,
        icmp_netmask: false,
        ip_protocol_ping: Seq::empty(),
        dns_servers: Seq::empty(),
        system_dns: false,
        traceroute: false,
    }
}

pub open spec fn port_specification_default() -> PortSpecificationV {
    PortSpecificationV {
        ports: None,
        exclude_ports: None,
        fast_mode: false,
        consecutive_ports: false,
        top_ports: None,
        port_ratio: None,
    }
}

pub open spec fn service_detection_default() -> ServiceDetectionV {
    ServiceDetectionV { enabled: false, intensity: None, light: false, all: false, trace: false }
}

pub open spec fn script_scan_default() -> ScriptScanV {
    ScriptScanV {
        default: false,
        scripts: Seq::empty(),
        script_args: None,
        script_args_file: None,
        script_trace: false,
        script_updatedb: false,
        script_help: None,
    }
}

pub open spec fn os_detection_default() -> OsDetectionV {
    OsDetectionV { enabled: false, limit: false, guess: false, max_retries: None }
}

pub open spec fn timing_performance_default() -> TimingPerformanceV {
    TimingPerformanceV {
        template: None,
        min_hostgroup: None,
        max_hostgroup: None,
        min_parallelism: None,
        max_parallelism: None,
        min_rtt_timeout: None,
        max_rtt_timeout: None,
        initial_rtt_timeout: None,
        max_retries: None,
        host_timeout: None,
        script_timeout: None,
        scan_delay: None,
        max_scan_delay: None,
        min_rate: None,
        max_rate: None,
        defeat_rst_ratelimit: false,
        defeat_icmp_ratelimit: false,
        nsock_engine: None,
    }
}

pub open spec fn evasion_spoofing_default() -> EvasionSpoofingV {
    EvasionSpoofingV {
        fragment_packets: false,
        mtu: None,
        decoys: Seq::empty(),
        spoof_ip: None,
        interface: None,
        source_port: None,
        data: None,
        data_string: None,
        data_length: None,
        ip_options: None,
        ttl: None,
        randomize_hosts: false,
        spoof_mac: None,
        badsum: false,
        adler32: false,
    }
}

pub open spec fn output_options_default() -> OutputOptionsV {
    OutputOptionsV {
        normal: None,
        xml: None,
        script_kiddie: None,
        grepable: None,
        all_formats: None,
        verbose: 0,
        debug: 0,
        reason: false,
        stats_every: None,
        packet_trace: false,
        open_only: false,
        iflist: false,
        append_output: false,
        resume: None,
        stylesheet: None,
        webxml: false,
        no_stylesheet: false,
    }
}

pub open spec fn misc_options_default() -> MiscOptionsV {
    MiscOptionsV {
        ipv6: false,
        aggressive: false,
        datadir: None,
        send_eth: false,
        send_ip: false,
        privileged: false,
        unprivileged: false,
        release_memory: false,
        version: false,
        help: false,
        resolve_all: false,
        no_resolve: false,
        unique: false,
        log_errors: false,
    }
}

pub open spec fn nmap_scan_default() -> NmapScanV {
    NmapScanV {
        target_specification: target_specification_default(),
        host_discovery: host_discovery_default(),
        scan_technique: ScanTechniqueV::Syn,
        ports: port_specification_default(),
        service_detection: service_detection_default(),
        script_scan: script_scan_default(),
        os_detection: os_detection_default(),
        timing: timing_performance_default(),
        evasion: evasion_spoofing_default(),
        output: output_options_default(),
        misc: misc_options_default(),
    }
}

impl Default for TargetSpecification {
    fn default() -> (r: Self)
        ensures
            r@ == target_specification_default(),
    {
        let r = TargetSpecification {
            targets: Vec::new(),
            input_file: None,
            random_targets: None,
            exclude: Vec::new(),
            exclude_file: None,
        };
        proof {
            assert(r@.targets =~= target_specification_default().targets);
            assert(r@.exclude =~= target_specification_default().exclude);
        }
        r
    }
}

impl Default for HostDiscovery {
    fn default() -> (r: Self)
        ensures
            r@ == host_discovery_default(),
    {
        let r = HostDiscovery {
            list_scan: false,
            ping_scan: false,
            skip_port_scan: false,
            syn_discovery: Vec::new(),
            ack_discovery: Vec::new(),
            udp_discovery: Vec::new(),
            sctp_discovery: Vec::new(),
            icmp_echo: false,
            icmp_timestamp: false,
            icmp_netmask: false,
            ip_protocol_ping: Vec::new(),
            dns_servers: Vec::new(),
            system_dns: false,
            traceroute: false,
        };
        proof {
            assert(r@.syn_discovery =~= host_discovery_default().syn_discovery);
            assert(r@.ack_discovery =~= host_discovery_default().ack_discovery);
            assert(r@.udp_discovery =~= host_discovery_default().udp_discovery);
            assert(r@.sctp_discovery =~= host_discovery_default().sctp_discovery);
            assert(r@.ip_protocol_ping =~= host_discovery_default().ip_protocol_ping);
            assert(r@.dns_servers =~= host_discovery_default().dns_servers);
        }
        r
    }
}

impl Default for ScanTechnique {
    fn default() -> (r: Self)
        ensures
            r@ == ScanTechniqueV::Syn,
    {
        ScanTechnique::Syn
    }
}

impl Default for PortSpecification {
    fn default() -> (r: Self)
        ensures
            r@ == port_specification_default(),
    {
        PortSpecification {
            ports: None,
            exclude_ports: None,
            fast_mode: false,
            consecutive_ports: false,
            top_ports: None,
            port_ratio: None,
        }
    }
}

impl Default for ServiceDetection {
    fn default() -> (r: Self)
        ensures
            r@ == service_detection_default(),
    {
        ServiceDetection { enabled: false, intensity: None, light: false, all: false, trace: false }
    }
}

impl Default for ScriptScan {
    fn default() -> (r: Self)
        ensures
            r@ == script_scan_default(),
    {
        let r = ScriptScan {
            default: false,
            scripts: Vec::new(),
            script_args: None,
            script_args_file: None,
            script_trace: false,
            script_updatedb: false,
            script_help: None,
        };
        proof {
            assert(r@.scripts =~= script_scan_default().scripts);
        }
        r
    }
}

impl Default for OsDetection {
    fn default() -> (r: Self)
        ensures
            r@ == os_detection_default(),
    {
        OsDetection { enabled: false, limit: false, guess: false, max_retries: None }
    }
}

impl Default for TimingPerformance {
    fn default() -> (r: Self)
        ensures
            r@ == timing_performance_default(),
    {
        TimingPerformance {
            template: None,
            min_hostgroup: None,
            max_hostgroup: None,
            min_parallelism: None,
            max_parallelism: None,
            min_rtt_timeout: None,
            max_rtt_timeout: None,
            initial_rtt_timeout: None,
            max_retries: None,
            host_timeout: None,
            script_timeout: None,
            scan_delay: None,
            max_scan_delay: None,
            min_rate: None,
            max_rate: None,
            defeat_rst_ratelimit: false,
            defeat_icmp_ratelimit: false,
            nsock_engine: None,
        }
    }
}

impl Default for EvasionSpoofing {
    fn default() -> (r: Self)
        ensures
            r@ == evasion_spoofing_default(),
    {
        let r = EvasionSpoofing {
            fragment_packets: false,
            mtu: None,
            decoys: Vec::new(),
            spoof_ip: None,
            interface: None,
            source_port: None,
            data: None,
            data_string: None,
            data_length: None,
            ip_options: None,
            ttl: None,
            randomize_hosts: false,
            spoof_mac: None,
            badsum: false,
            adler32: false,
        };
        proof {
            assert(r@.decoys =~= evasion_spoofing_default().decoys);
        }
        r
    }
}

impl Default for OutputOptions {
    fn default() -> (r: Self)
        ensures
            r@ == output_options_default(),
    {
        OutputOptions {
            normal: None,
            xml: None,
            script_kiddie: None,
            grepable: None,
            all_formats: None,
            verbose: 0,
            debug: 0,
            reason: false,
            stats_every: None,
            packet_trace: false,
            open_only: false,
            iflist: false,
            append_output: false,
            resume: None,
            stylesheet: None,
            webxml: false,
            no_stylesheet: false,
        }
    }
}

impl Default for MiscOptions {
    fn default() -> (r: Self)
        ensures
            r@ == misc_options_default(),
    {
        MiscOptions {
            ipv6: false,
            aggressive: false,
            datadir: None,
            send_eth: false,
            send_ip: false,
            privileged: false,
            unprivileged: false,
            release_memory: false,
            version: false,
            help: false,
            resolve_all: false,
            no_resolve: false,
            unique: false,
            log_errors: false,
        }
    }
}

impl Default for NmapScan {
    fn default() -> (r: Self)
        ensures
            r@ == nmap_scan_default(),
    {
        NmapScan {
            target_specification: TargetSpecification::default(),
            host_discovery: HostDiscovery::default(),
            scan_technique: ScanTechnique::default(),
            ports: PortSpecification::default(),
            service_detection: ServiceDetection::default(),
            script_scan: ScriptScan::default(),
            os_detection: OsDetection::default(),
            timing: TimingPerformance::default(),
            evasion: EvasionSpoofing::default(),
            output: OutputOptions::default(),
            misc: MiscOptions::default(),
        }
    }
}

impl NmapScan {
    /// A scan configuration with every option at its default.
    pub fn new() -> (r: Self)
        ensures
            r@ == nmap_scan_default(),
    {
        Self::default()
    }
}

} // verus!
