//! The field registry: a fixed, declared enumeration of addressable
//! configuration fields, cyclic navigation over it, and typed accessors
//! into the model.
use vstd::prelude::*;
use crate::model::{NmapScan, NmapScanV, TargetSpecificationV, HostDiscoveryV,
    TimingPerformanceV, MiscOptionsV, TimingTemplate};

verus! {

/// The addressable fields, in their one declared enumeration order.
#[derive(Debug, Clone, Copy, PartialEq, Eq)]
pub enum NmapFlag {
    Targets,
    InputFile,
    Exclude,
    ExcludeFile,
    RandomTargets,
    ListScan,
    PingScan,
    SkipPortScan,
    Traceroute,
    SynDiscovery,
    AckDiscovery,
    UdpDiscovery,
    SctpDiscovery,
    IcmpEcho,
    IcmpTimestamp,
    IcmpNetmask,
    IpProtocolPing,
    SystemDns,
    NoResolve,
    AlwaysResolve,
    DnsServers,
    TimingTemplate,
}

/// The position of a field in the declared enumeration.
pub open spec fn flag_index(f: NmapFlag) -> int {
    match f {
        NmapFlag::Targets => 0,
        NmapFlag::InputFile => 1,
        NmapFlag::Exclude => 2,
        NmapFlag::ExcludeFile => 3,
        NmapFlag::RandomTargets => 4,
        NmapFlag::ListScan => 5,
        NmapFlag::PingScan => 6,
        NmapFlag::SkipPortScan => 7,
        NmapFlag::Traceroute => 8,
        NmapFlag::SynDiscovery => 9,
        NmapFlag::AckDiscovery => 10,
        NmapFlag::UdpDiscovery => 11,
        NmapFlag::SctpDiscovery => 12,
        NmapFlag::IcmpEcho => 13,
        NmapFlag::IcmpTimestamp => 14,
        NmapFlag::IcmpNetmask => 15,
        NmapFlag::IpProtocolPing => 16,
        NmapFlag::SystemDns => 17,
        NmapFlag::NoResolve => 18,
        NmapFlag::AlwaysResolve => 19,
        NmapFlag::DnsServers => 20,
        NmapFlag::TimingTemplate => 21,
    }
}

/// The declared enumeration, as a sequence.
pub open spec fn flag_order() -> Seq<NmapFlag> {
    seq![
        NmapFlag::Targets,
        NmapFlag::InputFile,
        NmapFlag::Exclude,
        NmapFlag::ExcludeFile,
        NmapFlag::RandomTargets,
        NmapFlag::ListScan,
        NmapFlag::PingScan,
        NmapFlag::SkipPortScan,
        NmapFlag::Traceroute,
        NmapFlag::SynDiscovery,
        NmapFlag::AckDiscovery,
        NmapFlag::UdpDiscovery,
        NmapFlag::SctpDiscovery,
        NmapFlag::IcmpEcho,
        NmapFlag::IcmpTimestamp,
        NmapFlag::IcmpNetmask,
        NmapFlag::IpProtocolPing,
        NmapFlag::SystemDns,
        NmapFlag::NoResolve,
        NmapFlag::AlwaysResolve,
        NmapFlag::DnsServers,
        NmapFlag::TimingTemplate,
    ]
}

pub proof fn lemma_flag_order_index(f: NmapFlag)
    ensures
        0 <= flag_index(f) < flag_order().len(),
        flag_order()[flag_index(f)] == f,
{
}

/// A typed snapshot of one field's value; the registry's setter takes
/// the same shape back.
pub enum FlagValue {
    Bool(bool),
    Int(Option<u32>),
    VecInt(Vec<u32>),
    VecString(Vec<String>),
    Path(Option<String>),
    TimingTemplate(Option<TimingTemplate>),
}

/// The mathematical view of a typed field snapshot.
pub enum FlagValueV {
    Bool(bool),
    Int(Option<u32>),
    VecInt(Seq<u32>),
    VecString(Seq<Seq<char>>),
    Path(Option<Seq<char>>),
    TimingTemplate(Option<TimingTemplate>),
}

impl View for FlagValue {
    type V = FlagValueV;

    open spec fn view(&self) -> FlagValueV {
        match self {
            FlagValue::Bool(b) => FlagValueV::Bool(*b),
            FlagValue::Int(o) => FlagValueV::Int(*o),
            FlagValue::VecInt(v) => FlagValueV::VecInt(v@),
            FlagValue::VecString(v) => FlagValueV::VecString(v.deep_view()),
            FlagValue::Path(o) => FlagValueV::Path(o.deep_view()),
            FlagValue::TimingTemplate(o) => FlagValueV::TimingTemplate(*o),
        }
    }
}

/// The one typed accessor value of each field: the tag is the field's
/// declared type, the payload is exactly that field of the model, port
/// and protocol lists widened one for one to the integer-list type.
pub open spec fn spec_flag_value(f: NmapFlag, v: NmapScanV) -> FlagValueV {
    match f {
        NmapFlag::Targets => FlagValueV::VecString(v.target_specification.targets),
        NmapFlag::InputFile => FlagValueV::Path(v.target_specification.input_file),
        NmapFlag::Exclude => FlagValueV::VecString(v.target_specification.exclude),
        NmapFlag::ExcludeFile => FlagValueV::Path(v.target_specification.exclude_file),
        NmapFlag::RandomTargets => FlagValueV::Int(v.target_specification.random_targets),
        NmapFlag::ListScan => FlagValueV::Bool(v.host_discovery.list_scan),
        NmapFlag::PingScan => FlagValueV::Bool(v.host_discovery.ping_scan),
        NmapFlag::SkipPortScan => FlagValueV::Bool(v.host_discovery.skip_port_scan),
        NmapFlag::Traceroute => FlagValueV::Bool(v.host_discovery.traceroute),
        NmapFlag::SynDiscovery => FlagValueV::VecInt(
            v.host_discovery.syn_discovery.map_values(|p: u16| p as u32),
        ),
        NmapFlag::AckDiscovery => FlagValueV::VecInt(
            v.host_discovery.ack_discovery.map_values(|p: u16| p as u32),
        ),
        NmapFlag::UdpDiscovery => FlagValueV::VecInt(
            v.host_discovery.udp_discovery.map_values(|p: u16| p as u32),
        ),
        NmapFlag::SctpDiscovery => FlagValueV::VecInt(
            v.host_discovery.sctp_discovery.map_values(|p: u16| p as u32),
        ),
        NmapFlag::IcmpEcho => FlagValueV::Bool(v.host_discovery.icmp_echo),
        NmapFlag::IcmpTimestamp => FlagValueV::Bool(v.host_discovery.icmp_timestamp),
        NmapFlag::IcmpNetmask => FlagValueV::Bool(v.host_discovery.icmp_netmask),
        NmapFlag::IpProtocolPing => FlagValueV::VecInt(
            v.host_discovery.ip_protocol_ping.map_values(|p: u8| p as u32),
        ),
        NmapFlag::SystemDns => FlagValueV::Bool(v.host_discovery.system_dns),
        NmapFlag::NoResolve => FlagValueV::Bool(v.misc.no_resolve),
        NmapFlag::AlwaysResolve => FlagValueV::Bool(v.misc.resolve_all),
        NmapFlag::DnsServers => FlagValueV::VecString(v.host_discovery.dns_servers),
        NmapFlag::TimingTemplate => FlagValueV::TimingTemplate(v.timing.template),
    }
}

/// What storing a typed value does. On the field's declared tag (and,
/// for an integer list, values within the field's range) exactly the
/// addressed field takes the value and every other field keeps its
/// value; any other store is refused and changes nothing.
pub open spec fn spec_set_flag_value(f: NmapFlag, m: NmapScanV, val: FlagValueV) -> Option<
    NmapScanV,
> {
    match f {
        NmapFlag::Targets => match val {
            FlagValueV::VecString(v) => Some(NmapScanV { target_specification: TargetSpecificationV { targets: v, ..m.target_specification }, ..m }),
            _ => None,
        },
        NmapFlag::InputFile => match val {
            FlagValueV::Path(v) => Some(NmapScanV { target_specification: TargetSpecificationV { input_file: v, ..m.target_specification }, ..m }),
            _ => None,
        },
        NmapFlag::Exclude => match val {
            FlagValueV::VecString(v) => Some(NmapScanV { target_specification: TargetSpecificationV { exclude: v, ..m.target_specification }, ..m }),
            _ => None,
        },
        NmapFlag::ExcludeFile => match val {
            FlagValueV::Path(v) => Some(NmapScanV { target_specification: TargetSpecificationV { exclude_file: v, ..m.target_specification }, ..m }),
            _ => None,
        },
        NmapFlag::RandomTargets => match val {
            FlagValueV::Int(v) => Some(NmapScanV { target_specification: TargetSpecificationV { random_targets: v, ..m.target_specification }, ..m }),
            _ => None,
        },
        NmapFlag::ListScan => match val {
            FlagValueV::Bool(v) => Some(NmapScanV { host_discovery: HostDiscoveryV { list_scan: v, ..m.host_discovery }, ..m }),
            _ => None,
        },
        NmapFlag::PingScan => match val {
            FlagValueV::Bool(v) => Some(NmapScanV { host_discovery: HostDiscoveryV { ping_scan: v, ..m.host_discovery }, ..m }),
            _ => None,
        },
        NmapFlag::SkipPortScan => match val {
            FlagValueV::Bool(v) => Some(NmapScanV { host_discovery: HostDiscoveryV { skip_port_scan: v, ..m.host_discovery }, ..m }),
            _ => None,
        },
        NmapFlag::Traceroute => match val {
            FlagValueV::Bool(v) => Some(NmapScanV { host_discovery: HostDiscoveryV { traceroute: v, ..m.host_discovery }, ..m }),
            _ => None,
        },
        NmapFlag::SynDiscovery => match val {
            FlagValueV::VecInt(v) => if forall|i: int| 0 <= i < v.len() ==> #[trigger] v[i]
                <= 0xffff {
                Some(NmapScanV { host_discovery: HostDiscoveryV { syn_discovery: v.map_values(|x: u32| x as u16), ..m.host_discovery }, ..m })
            } else {
                None
            },
            _ => None,
        },
        NmapFlag::AckDiscovery => match val {
            FlagValueV::VecInt(v) => if forall|i: int| 0 <= i < v.len() ==> #[trigger] v[i]
                <= 0xffff {
                Some(NmapScanV { host_discovery: HostDiscoveryV { ack_discovery: v.map_values(|x: u32| x as u16), ..m.host_discovery }, ..m })
            } else {
                None
            },
            _ => None,
        },
        NmapFlag::UdpDiscovery => match val {
            FlagValueV::VecInt(v) => if forall|i: int| 0 <= i < v.len() ==> #[trigger] v[i]
                <= 0xffff {
                Some(NmapScanV { host_discovery: HostDiscoveryV { udp_discovery: v.map_values(|x: u32| x as u16), ..m.host_discovery }, ..m })
            } else {
                None
            },
            _ => None,
        },
        NmapFlag::SctpDiscovery => match val {
            FlagValueV::VecInt(v) => if forall|i: int| 0 <= i < v.len() ==> #[trigger] v[i]
                <= 0xffff {
                Some(NmapScanV { host_discovery: HostDiscoveryV { sctp_discovery: v.map_values(|x: u32| x as u16), ..m.host_discovery }, ..m })
            } else {
                None
            },
            _ => None,
        },
        NmapFlag::IcmpEcho => match val {
            FlagValueV::Bool(v) => Some(NmapScanV { host_discovery: HostDiscoveryV { icmp_echo: v, ..m.host_discovery }, ..m }),
            _ => None,
        },
        NmapFlag::IcmpTimestamp => match val {
            FlagValueV::Bool(v) => Some(NmapScanV { host_discovery: HostDiscoveryV { icmp_timestamp: v, ..m.host_discovery }, ..m }),
            _ => None,
        },
        NmapFlag::IcmpNetmask => match val {
            FlagValueV::Bool(v) => Some(NmapScanV { host_discovery: HostDiscoveryV { icmp_netmask: v, ..m.host_discovery }, ..m }),
            _ => None,
        },
        NmapFlag::IpProtocolPing => match val {
            FlagValueV::VecInt(v) => if forall|i: int| 0 <= i < v.len() ==> #[trigger] v[i]
                <= 0xff {
                Some(NmapScanV { host_discovery: HostDiscoveryV { ip_protocol_ping: v.map_values(|x: u32| x as u8), ..m.host_discovery }, ..m })
            } else {
                None
            },
            _ => None,
        },
        NmapFlag::SystemDns => match val {
            FlagValueV::Bool(v) => Some(NmapScanV { host_discovery: HostDiscoveryV { system_dns: v, ..m.host_discovery }, ..m }),
            _ => None,
        },
        NmapFlag::NoResolve => match val {
            FlagValueV::Bool(v) => Some(NmapScanV { misc: MiscOptionsV { no_resolve: v, ..m.misc }, ..m }),
            _ => None,
        },
        NmapFlag::AlwaysResolve => match val {
            FlagValueV::Bool(v) => Some(NmapScanV { misc: MiscOptionsV { resolve_all: v, ..m.misc }, ..m }),
            _ => None,
        },
        NmapFlag::DnsServers => match val {
            FlagValueV::VecString(v) => Some(NmapScanV { host_discovery: HostDiscoveryV { dns_servers: v, ..m.host_discovery }, ..m }),
            _ => None,
        },
        NmapFlag::TimingTemplate => match val {
            FlagValueV::TimingTemplate(v) => Some(NmapScanV { timing: TimingPerformanceV { template: v, ..m.timing }, ..m }),
            _ => None,
        },
    }
}

impl NmapFlag {
    /// The complete, stable field enumeration, never derived from an
    /// unordered collection.
    pub fn enumerate() -> (r: Vec<NmapFlag>)
        ensures
            r@ == flag_order(),
    {
        let v = vec![
            NmapFlag::Targets,
            NmapFlag::InputFile,
            NmapFlag::Exclude,
            NmapFlag::ExcludeFile,
            NmapFlag::RandomTargets,
            NmapFlag::ListScan,
            NmapFlag::PingScan,
            NmapFlag::SkipPortScan,
            NmapFlag::Traceroute,
            NmapFlag::SynDiscovery,
            NmapFlag::AckDiscovery,
            NmapFlag::UdpDiscovery,
            NmapFlag::SctpDiscovery,
            NmapFlag::IcmpEcho,
            NmapFlag::IcmpTimestamp,
            NmapFlag::IcmpNetmask,
            NmapFlag::IpProtocolPing,
            NmapFlag::SystemDns,
            NmapFlag::NoResolve,
            NmapFlag::AlwaysResolve,
            NmapFlag::DnsServers,
            NmapFlag::TimingTemplate,
        ];
        proof {
            assert(v@ =~= flag_order());
        }
        v
    }

    /// The first field of the enumeration.
    pub fn first() -> (r: Self)
        ensures
            r == flag_order()[0],
    {
        NmapFlag::Targets
    }

    /// The cyclic successor in enumeration order.
    pub fn next(&self) -> (r: Self)
        ensures
            flag_index(r) == (flag_index(*self) + 1) % (flag_order().len() as int),
    {
        proof {
            assert(flag_order().len() == 22);
        }
        match self {
            NmapFlag::Targets => NmapFlag::InputFile,
            NmapFlag::InputFile => NmapFlag::Exclude,
            NmapFlag::Exclude => NmapFlag::ExcludeFile,
            NmapFlag::ExcludeFile => NmapFlag::RandomTargets,
            NmapFlag::RandomTargets => NmapFlag::ListScan,
            NmapFlag::ListScan => NmapFlag::PingScan,
            NmapFlag::PingScan => NmapFlag::SkipPortScan,
            NmapFlag::SkipPortScan => NmapFlag::Traceroute,
            NmapFlag::Traceroute => NmapFlag::SynDiscovery,
            NmapFlag::SynDiscovery => NmapFlag::AckDiscovery,
            NmapFlag::AckDiscovery => NmapFlag::UdpDiscovery,
            NmapFlag::UdpDiscovery => NmapFlag::SctpDiscovery,
            NmapFlag::SctpDiscovery => NmapFlag::IcmpEcho,
            NmapFlag::IcmpEcho => NmapFlag::IcmpTimestamp,
            NmapFlag::IcmpTimestamp => NmapFlag::IcmpNetmask,
            NmapFlag::IcmpNetmask => NmapFlag::IpProtocolPing,
            NmapFlag::IpProtocolPing => NmapFlag::SystemDns,
            NmapFlag::SystemDns => NmapFlag::NoResolve,
            NmapFlag::NoResolve => NmapFlag::AlwaysResolve,
            NmapFlag::AlwaysResolve => NmapFlag::DnsServers,
            NmapFlag::DnsServers => NmapFlag::TimingTemplate,
            NmapFlag::TimingTemplate => NmapFlag::Targets,
        }
    }

    /// The cyclic predecessor in enumeration order.
    pub fn prev(&self) -> (r: Self)
        ensures
            flag_index(r) == (flag_index(*self) + flag_order().len() - 1) % (
            flag_order().len() as int),
    {
        proof {
            assert(flag_order().len() == 22);
        }
        match self {
            NmapFlag::Targets => NmapFlag::TimingTemplate,
            NmapFlag::InputFile => NmapFlag::Targets,
            NmapFlag::Exclude => NmapFlag::InputFile,
            NmapFlag::ExcludeFile => NmapFlag::Exclude,
            NmapFlag::RandomTargets => NmapFlag::ExcludeFile,
            NmapFlag::ListScan => NmapFlag::RandomTargets,
            NmapFlag::PingScan => NmapFlag::ListScan,
            NmapFlag::SkipPortScan => NmapFlag::PingScan,
            NmapFlag::Traceroute => NmapFlag::SkipPortScan,
            NmapFlag::SynDiscovery => NmapFlag::Traceroute,
            NmapFlag::AckDiscovery => NmapFlag::SynDiscovery,
            NmapFlag::UdpDiscovery => NmapFlag::AckDiscovery,
            NmapFlag::SctpDiscovery => NmapFlag::UdpDiscovery,
            NmapFlag::IcmpEcho => NmapFlag::SctpDiscovery,
            NmapFlag::IcmpTimestamp => NmapFlag::IcmpEcho,
            NmapFlag::IcmpNetmask => NmapFlag::IcmpTimestamp,
            NmapFlag::IpProtocolPing => NmapFlag::IcmpNetmask,
            NmapFlag::SystemDns => NmapFlag::IpProtocolPing,
            NmapFlag::NoResolve => NmapFlag::SystemDns,
            NmapFlag::AlwaysResolve => NmapFlag::NoResolve,
            NmapFlag::DnsServers => NmapFlag::AlwaysResolve,
            NmapFlag::TimingTemplate => NmapFlag::DnsServers,
        }
    }

    /// The number of choices of a fixed-choice field, if it is one.
    pub fn get_variant_count(self) -> (r: Option<usize>)
        ensures
            self matches NmapFlag::TimingTemplate ==> r == Some(6usize),
            !(self matches NmapFlag::TimingTemplate) ==> r is None,
    {
        match self {
            NmapFlag::TimingTemplate => Some(6),
            _ => None,
        }
    }

    /// The one typed accessor value of the addressed field: its tag is
    /// the field's declared type and its payload is exactly that field
    /// of the model.
    pub fn get_flag_value(self, scan: &NmapScan) -> (r: FlagValue)
        ensures
            r@ == spec_flag_value(self, scan@),
    {
        match self {
            NmapFlag::Targets => FlagValue::VecString(
                copy_strings(&scan.target_specification.targets),
            ),
            NmapFlag::InputFile => FlagValue::Path(
                copy_opt_string(&scan.target_specification.input_file),
            ),
            NmapFlag::Exclude => FlagValue::VecString(
                copy_strings(&scan.target_specification.exclude),
            ),
            NmapFlag::ExcludeFile => FlagValue::Path(
                copy_opt_string(&scan.target_specification.exclude_file),
            ),
            NmapFlag::RandomTargets => FlagValue::Int(scan.target_specification.random_targets),
            NmapFlag::ListScan => FlagValue::Bool(scan.host_discovery.list_scan),
            NmapFlag::PingScan => FlagValue::Bool(scan.host_discovery.ping_scan),
            NmapFlag::SkipPortScan => FlagValue::Bool(scan.host_discovery.skip_port_scan),
            NmapFlag::Traceroute => FlagValue::Bool(scan.host_discovery.traceroute),
            NmapFlag::SynDiscovery => FlagValue::VecInt(
                widen_ports(&scan.host_discovery.syn_discovery),
            ),
            NmapFlag::AckDiscovery => FlagValue::VecInt(
                widen_ports(&scan.host_discovery.ack_discovery),
            ),
            NmapFlag::UdpDiscovery => FlagValue::VecInt(
                widen_ports(&scan.host_discovery.udp_discovery),
            ),
            NmapFlag::SctpDiscovery => FlagValue::VecInt(
                widen_ports(&scan.host_discovery.sctp_discovery),
            ),
            NmapFlag::IcmpEcho => FlagValue::Bool(scan.host_discovery.icmp_echo),
            NmapFlag::IcmpTimestamp => FlagValue::Bool(scan.host_discovery.icmp_timestamp),
            NmapFlag::IcmpNetmask => FlagValue::Bool(scan.host_discovery.icmp_netmask),
            NmapFlag::IpProtocolPing => FlagValue::VecInt(
                widen_protocols(&scan.host_discovery.ip_protocol_ping),
            ),
            NmapFlag::SystemDns => FlagValue::Bool(scan.host_discovery.system_dns),
            NmapFlag::NoResolve => FlagValue::Bool(scan.misc.no_resolve),
            NmapFlag::AlwaysResolve => FlagValue::Bool(scan.misc.resolve_all),
            NmapFlag::DnsServers => FlagValue::VecString(
                copy_strings(&scan.host_discovery.dns_servers),
            ),
            NmapFlag::TimingTemplate => FlagValue::TimingTemplate(scan.timing.template),
        }
    }

    /// Stores a typed value into the addressed field: on the field's
    /// declared tag exactly that field takes the value and every other
    /// field keeps its value. A value whose tag does not match the
    /// field's declared type, or an integer list entry outside the
    /// field's range, is refused and leaves the configuration
    /// untouched.
    pub fn set_flag_value(self, scan: &mut NmapScan, value: FlagValue) -> (r: bool)
        ensures
            match spec_set_flag_value(self, old(scan)@, value@) {
                Some(m2) => r && final(scan)@ == m2,
                None => !r && final(scan)@ == old(scan)@,
            },
    {
        match self {
            NmapFlag::Targets => store_targets(scan, value),
            NmapFlag::InputFile => store_input_file(scan, value),
            NmapFlag::Exclude => store_exclude(scan, value),
            NmapFlag::ExcludeFile => store_exclude_file(scan, value),
            NmapFlag::RandomTargets => store_random_targets(scan, value),
            NmapFlag::ListScan => store_list_scan(scan, value),
            NmapFlag::PingScan => store_ping_scan(scan, value),
            NmapFlag::SkipPortScan => store_skip_port_scan(scan, value),
            NmapFlag::Traceroute => store_traceroute(scan, value),
            NmapFlag::SynDiscovery => store_syn_discovery(scan, value),
            NmapFlag::AckDiscovery => store_ack_discovery(scan, value),
            NmapFlag::UdpDiscovery => store_udp_discovery(scan, value),
            NmapFlag::SctpDiscovery => store_sctp_discovery(scan, value),
            NmapFlag::IcmpEcho => store_icmp_echo(scan, value),
            NmapFlag::IcmpTimestamp => store_icmp_timestamp(scan, value),
            NmapFlag::IcmpNetmask => store_icmp_netmask(scan, value),
            NmapFlag::IpProtocolPing => store_ip_protocol_ping(scan, value),
            NmapFlag::SystemDns => store_system_dns(scan, value),
            NmapFlag::NoResolve => store_no_resolve(scan, value),
            NmapFlag::AlwaysResolve => store_resolve_all(scan, value),
            NmapFlag::DnsServers => store_dns_servers(scan, value),
            NmapFlag::TimingTemplate => store_template(scan, value),
        }
    }
}

fn store_targets(scan: &mut NmapScan, value: FlagValue) -> (r: bool)
    ensures
        match spec_set_flag_value(NmapFlag::Targets, old(scan)@, value@) {
            Some(m2) => r && final(scan)@ == m2,
            None => !r && final(scan)@ == old(scan)@,
        },
{
    match value {
        FlagValue::VecString(v) => {
            scan.target_specification.targets = v;
            true
        },
        _ => false,
    }
}

fn store_input_file(scan: &mut NmapScan, value: FlagValue) -> (r: bool)
    ensures
        match spec_set_flag_value(NmapFlag::InputFile, old(scan)@, value@) {
            Some(m2) => r && final(scan)@ == m2,
            None => !r && final(scan)@ == old(scan)@,
        },
{
    match value {
        FlagValue::Path(v) => {
            scan.target_specification.input_file = v;
            true
        },
        _ => false,
    }
}

fn store_exclude(scan: &mut NmapScan, value: FlagValue) -> (r: bool)
    ensures
        match spec_set_flag_value(NmapFlag::Exclude, old(scan)@, value@) {
            Some(m2) => r && final(scan)@ == m2,
            None => !r && final(scan)@ == old(scan)@,
        },
{
    match value {
        FlagValue::VecString(v) => {
            scan.target_specification.exclude = v;
            true
        },
        _ => false,
    }
}

fn store_exclude_file(scan: &mut NmapScan, value: FlagValue) -> (r: bool)
    ensures
        match spec_set_flag_value(NmapFlag::ExcludeFile, old(scan)@, value@) {
            Some(m2) => r && final(scan)@ == m2,
            None => !r && final(scan)@ == old(scan)@,
        },
{
    match value {
        FlagValue::Path(v) => {
            scan.target_specification.exclude_file = v;
            true
        },
        _ => false,
    }
}

fn store_random_targets(scan: &mut NmapScan, value: FlagValue) -> (r: bool)
    ensures
        match spec_set_flag_value(NmapFlag::RandomTargets, old(scan)@, value@) {
            Some(m2) => r && final(scan)@ == m2,
            None => !r && final(scan)@ == old(scan)@,
        },
{
    match value {
        FlagValue::Int(v) => {
            scan.target_specification.random_targets = v;
            true
        },
        _ => false,
    }
}

fn store_list_scan(scan: &mut NmapScan, value: FlagValue) -> (r: bool)
    ensures
        match spec_set_flag_value(NmapFlag::ListScan, old(scan)@, value@) {
            Some(m2) => r && final(scan)@ == m2,
            None => !r && final(scan)@ == old(scan)@,
        },
{
    match value {
        FlagValue::Bool(v) => {
            scan.host_discovery.list_scan = v;
            true
        },
        _ => false,
    }
}

fn store_ping_scan(scan: &mut NmapScan, value: FlagValue) -> (r: bool)
    ensures
        match spec_set_flag_value(NmapFlag::PingScan, old(scan)@, value@) {
            Some(m2) => r && final(scan)@ == m2,
            None => !r && final(scan)@ == old(scan)@,
        },
{
    match value {
        FlagValue::Bool(v) => {
            scan.host_discovery.ping_scan = v;
            true
        },
        _ => false,
    }
}

fn store_skip_port_scan(scan: &mut NmapScan, value: FlagValue) -> (r: bool)
    ensures
        match spec_set_flag_value(NmapFlag::SkipPortScan, old(scan)@, value@) {
            Some(m2) => r && final(scan)@ == m2,
            None => !r && final(scan)@ == old(scan)@,
        },
{
    match value {
        FlagValue::Bool(v) => {
            scan.host_discovery.skip_port_scan = v;
            true
        },
        _ => false,
    }
}

fn store_traceroute(scan: &mut NmapScan, value: FlagValue) -> (r: bool)
    ensures
        match spec_set_flag_value(NmapFlag::Traceroute, old(scan)@, value@) {
            Some(m2) => r && final(scan)@ == m2,
            None => !r && final(scan)@ == old(scan)@,
        },
{
    match value {
        FlagValue::Bool(v) => {
            scan.host_discovery.traceroute = v;
            true
        },
        _ => false,
    }
}

fn store_syn_discovery(scan: &mut NmapScan, value: FlagValue) -> (r: bool)
    ensures
        match spec_set_flag_value(NmapFlag::SynDiscovery, old(scan)@, value@) {
            Some(m2) => r && final(scan)@ == m2,
            None => !r && final(scan)@ == old(scan)@,
        },
{
    match value {
        FlagValue::VecInt(v) => {
            match narrow_ports(&v) {
                Some(l) => {
                    scan.host_discovery.syn_discovery = l;
                    true
                },
                None => false,
            }
        },
        _ => false,
    }
}

fn store_ack_discovery(scan: &mut NmapScan, value: FlagValue) -> (r: bool)
    ensures
        match spec_set_flag_value(NmapFlag::AckDiscovery, old(scan)@, value@) {
            Some(m2) => r && final(scan)@ == m2,
            None => !r && final(scan)@ == old(scan)@,
        },
{
    match value {
        FlagValue::VecInt(v) => {
            match narrow_ports(&v) {
                Some(l) => {
                    scan.host_discovery.ack_discovery = l;
                    true
                },
                None => false,
            }
        },
        _ => false,
    }
}

fn store_udp_discovery(scan: &mut NmapScan, value: FlagValue) -> (r: bool)
    ensures
        match spec_set_flag_value(NmapFlag::UdpDiscovery, old(scan)@, value@) {
            Some(m2) => r && final(scan)@ == m2,
            None => !r && final(scan)@ == old(scan)@,
        },
{
    match value {
        FlagValue::VecInt(v) => {
            match narrow_ports(&v) {
                Some(l) => {
                    scan.host_discovery.udp_discovery = l;
                    true
                },
                None => false,
            }
        },
        _ => false,
    }
}

fn store_sctp_discovery(scan: &mut NmapScan, value: FlagValue) -> (r: bool)
    ensures
        match spec_set_flag_value(NmapFlag::SctpDiscovery, old(scan)@, value@) {
            Some(m2) => r && final(scan)@ == m2,
            None => !r && final(scan)@ == old(scan)@,
        },
{
    match value {
        FlagValue::VecInt(v) => {
            match narrow_ports(&v) {
                Some(l) => {
                    scan.host_discovery.sctp_discovery = l;
                    true
                },
                None => false,
            }
        },
        _ => false,
    }
}

fn store_icmp_echo(scan: &mut NmapScan, value: FlagValue) -> (r: bool)
    ensures
        match spec_set_flag_value(NmapFlag::IcmpEcho, old(scan)@, value@) {
            Some(m2) => r && final(scan)@ == m2,
            None => !r && final(scan)@ == old(scan)@,
        },
{
    match value {
        FlagValue::Bool(v) => {
            scan.host_discovery.icmp_echo = v;
            true
        },
        _ => false,
    }
}

fn store_icmp_timestamp(scan: &mut NmapScan, value: FlagValue) -> (r: bool)
    ensures
        match spec_set_flag_value(NmapFlag::IcmpTimestamp, old(scan)@, value@) {
            Some(m2) => r && final(scan)@ == m2,
            None => !r && final(scan)@ == old(scan)@,
        },
{
    match value {
        FlagValue::Bool(v) => {
            scan.host_discovery.icmp_timestamp = v;
            true
        },
        _ => false,
    }
}

fn store_icmp_netmask(scan: &mut NmapScan, value: FlagValue) -> (r: bool)
    ensures
        match spec_set_flag_value(NmapFlag::IcmpNetmask, old(scan)@, value@) {
            Some(m2) => r && final(scan)@ == m2,
            None => !r && final(scan)@ == old(scan)@,
        },
{
    match value {
        FlagValue::Bool(v) => {
            scan.host_discovery.icmp_netmask = v;
            true
        },
        _ => false,
    }
}

fn store_ip_protocol_ping(scan: &mut NmapScan, value: FlagValue) -> (r: bool)
    ensures
        match spec_set_flag_value(NmapFlag::IpProtocolPing, old(scan)@, value@) {
            Some(m2) => r && final(scan)@ == m2,
            None => !r && final(scan)@ == old(scan)@,
        },
{
    match value {
        FlagValue::VecInt(v) => {
            match narrow_protocols(&v) {
                Some(l) => {
                    scan.host_discovery.ip_protocol_ping = l;
                    true
                },
                None => false,
            }
        },
        _ => false,
    }
}

fn store_system_dns(scan: &mut NmapScan, value: FlagValue) -> (r: bool)
    ensures
        match spec_set_flag_value(NmapFlag::SystemDns, old(scan)@, value@) {
            Some(m2) => r && final(scan)@ == m2,
            None => !r && final(scan)@ == old(scan)@,
        },
{
    match value {
        FlagValue::Bool(v) => {
            scan.host_discovery.system_dns = v;
            true
        },
        _ => false,
    }
}

#[verifier::rlimit(100)]
#[verifier::spinoff_prover]
fn store_no_resolve(scan: &mut NmapScan, value: FlagValue) -> (r: bool)
    ensures
        match spec_set_flag_value(NmapFlag::NoResolve, old(scan)@, value@) {
            Some(m2) => r && final(scan)@ == m2,
            None => !r && final(scan)@ == old(scan)@,
        },
{
    match value {
        FlagValue::Bool(v) => {
            scan.misc.no_resolve = v;
            true
        },
        _ => false,
    }
}

#[verifier::rlimit(100)]
#[verifier::spinoff_prover]
fn store_resolve_all(scan: &mut NmapScan, value: FlagValue) -> (r: bool)
    ensures
        match spec_set_flag_value(NmapFlag::AlwaysResolve, old(scan)@, value@) {
            Some(m2) => r && final(scan)@ == m2,
            None => !r && final(scan)@ == old(scan)@,
        },
{
    match value {
        FlagValue::Bool(v) => {
            scan.misc.resolve_all = v;
            true
        },
        _ => false,
    }
}

fn store_dns_servers(scan: &mut NmapScan, value: FlagValue) -> (r: bool)
    ensures
        match spec_set_flag_value(NmapFlag::DnsServers, old(scan)@, value@) {
            Some(m2) => r && final(scan)@ == m2,
            None => !r && final(scan)@ == old(scan)@,
        },
{
    match value {
        FlagValue::VecString(v) => {
            scan.host_discovery.dns_servers = v;
            true
        },
        _ => false,
    }
}

fn store_template(scan: &mut NmapScan, value: FlagValue) -> (r: bool)
    ensures
        match spec_set_flag_value(NmapFlag::TimingTemplate, old(scan)@, value@) {
            Some(m2) => r && final(scan)@ == m2,
            None => !r && final(scan)@ == old(scan)@,
        },
{
    match value {
        FlagValue::TimingTemplate(v) => {
            scan.timing.template = v;
            true
        },
        _ => false,
    }
}

/// Port lists widened for the one integer-list accessor type.
fn widen_ports(l: &Vec<u16>) -> (r: Vec<u32>)
    ensures
        r@ == l@.map_values(|p: u16| p as u32),
{
    let mut r: Vec<u32> = Vec::new();
    let mut i: usize = 0;
    while i < l.len()
        invariant
            i <= l@.len(),
            r@.len() == i,
            forall|j: int| 0 <= j < i ==> r@[j] == l@[j] as u32,
        decreases l@.len() - i,
    {
        r.push(l[i] as u32);
        i = i + 1;
    }
    proof {
        assert(r@ =~= l@.map_values(|p: u16| p as u32));
    }
    r
}

fn widen_protocols(l: &Vec<u8>) -> (r: Vec<u32>)
    ensures
        r@ == l@.map_values(|p: u8| p as u32),
{
    let mut r: Vec<u32> = Vec::new();
    let mut i: usize = 0;
    while i < l.len()
        invariant
            i <= l@.len(),
            r@.len() == i,
            forall|j: int| 0 <= j < i ==> r@[j] == l@[j] as u32,
        decreases l@.len() - i,
    {
        r.push(l[i] as u32);
        i = i + 1;
    }
    proof {
        assert(r@ =~= l@.map_values(|p: u8| p as u32));
    }
    r
}

/// Narrows a wide integer list to port numbers; a value out of range
/// refuses the whole list.
fn narrow_ports(l: &Vec<u32>) -> (r: Option<Vec<u16>>)
    ensures
        match r {
            Some(v) => (forall|i: int| 0 <= i < l@.len() ==> #[trigger] l@[i] <= 0xffff) && v@
                == l@.map_values(|x: u32| x as u16),
            None => !(forall|i: int| 0 <= i < l@.len() ==> #[trigger] l@[i] <= 0xffff),
        },
{
    let mut r: Vec<u16> = Vec::new();
    let mut i: usize = 0;
    while i < l.len()
        invariant
            i <= l@.len(),
            r@.len() == i,
            forall|j: int| 0 <= j < i ==> #[trigger] l@[j] <= 0xffff,
            forall|j: int| 0 <= j < i ==> r@[j] == l@[j] as u16,
        decreases l@.len() - i,
    {
        if l[i] > 0xffff {
            proof {
                assert(l@[i as int] > 0xffff);
            }
            return None;
        }
        r.push(l[i] as u16);
        i = i + 1;
    }
    proof {
        assert(r@ =~= l@.map_values(|x: u32| x as u16));
    }
    Some(r)
}

fn narrow_protocols(l: &Vec<u32>) -> (r: Option<Vec<u8>>)
    ensures
        match r {
            Some(v) => (forall|i: int| 0 <= i < l@.len() ==> #[trigger] l@[i] <= 0xff) && v@
                == l@.map_values(|x: u32| x as u8),
            None => !(forall|i: int| 0 <= i < l@.len() ==> #[trigger] l@[i] <= 0xff),
        },
{
    let mut r: Vec<u8> = Vec::new();
    let mut i: usize = 0;
    while i < l.len()
        invariant
            i <= l@.len(),
            r@.len() == i,
            forall|j: int| 0 <= j < i ==> #[trigger] l@[j] <= 0xff,
            forall|j: int| 0 <= j < i ==> r@[j] == l@[j] as u8,
        decreases l@.len() - i,
    {
        if l[i] > 0xff {
            proof {
                assert(l@[i as int] > 0xff);
            }
            return None;
        }
        r.push(l[i] as u8);
        i = i + 1;
    }
    proof {
        assert(r@ =~= l@.map_values(|x: u32| x as u8));
    }
    Some(r)
}

/// The strings of a list, copied one for one.
fn copy_strings(v: &Vec<String>) -> (r: Vec<String>)
    ensures
        r.deep_view() == v.deep_view(),
{
    let mut r: Vec<String> = Vec::new();
    let mut i: usize = 0;
    while i < v.len()
        invariant
            i <= v@.len(),
            r@.len() == i,
            v.deep_view().len() == v@.len(),
            forall|j: int| 0 <= j < i ==> r.deep_view()[j] == v.deep_view()[j],
        decreases v@.len() - i,
    {
        let piece = v[i].clone();
        r.push(piece);
        i = i + 1;
    }
    proof {
        assert(r.deep_view() =~= v.deep_view());
    }
    r
}

/// An optional string, copied.
fn copy_opt_string(o: &Option<String>) -> (r: Option<String>)
    ensures
        r.deep_view() == o.deep_view(),
{
    match o {
        Some(s) => Some(s.clone()),
        None => None,
    }
}

/// Cyclic navigation undoes itself: a field whose position is the
/// cyclic predecessor's successor is the field itself. `prev` and
/// `next` promise exactly those positions, so `next(prev(x)) == x`.
pub proof fn lemma_next_prev(f: NmapFlag, g: NmapFlag, h: NmapFlag)
    requires
        flag_index(g) == (flag_index(f) + flag_order().len() - 1) % (flag_order().len() as int),
        flag_index(h) == (flag_index(g) + 1) % (flag_order().len() as int),
    ensures
        h == f,
{
    lemma_flag_order_index(f);
    lemma_flag_order_index(h);
    assert(flag_order().len() == 22);
    assert(flag_index(h) == flag_index(f));
    assert(flag_order()[flag_index(f)] == f);
    assert(flag_order()[flag_index(h)] == h);
}

} // verus!
