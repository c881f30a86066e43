use nmapcmd::builder::NmapCommandBuilder;
use nmapcmd::model::{NmapScan, ScanTechnique, TimingTemplate};

#[test]
fn builder_test_basic_scan() {
    let mut scan = NmapScan::new();
    scan.target_specification.targets = vec!["192.168.1.1".to_string()];
    scan.scan_technique = ScanTechnique::Syn;
    scan.ports.ports = Some("80,443".to_string());
    let cmd = NmapCommandBuilder::build(&scan);
    assert!(cmd.contains("-sS"));
    assert!(cmd.contains("-p 80,443"));
    assert!(cmd.contains("192.168.1.1"));
}

#[test]
fn builder_test_timing_template() {
    let mut scan = NmapScan::new();
    scan.target_specification.targets = vec!["scanme.nmap.org".to_string()];
    scan.timing.template = Some(TimingTemplate::Aggressive);
    let cmd = NmapCommandBuilder::build(&scan);
    assert!(cmd.contains("-T4"));
    assert!(cmd.contains("scanme.nmap.org"));
}

#[test]
fn builder_test_os_detection() {
    let mut scan = NmapScan::new();
    scan.target_specification.targets = vec!["192.168.1.1".to_string()];
    scan.os_detection.enabled = true;
    scan.os_detection.guess = true;
    let cmd = NmapCommandBuilder::build(&scan);
    assert!(cmd.contains("-O"));
    assert!(cmd.contains("--osscan-guess"));
}

#[test]
fn builder_test_service_detection() {
    let mut scan = NmapScan::new();
    scan.target_specification.targets = vec!["example.com".to_string()];
    scan.service_detection.enabled = true;
    scan.service_detection.intensity = Some(9);
    let cmd = NmapCommandBuilder::build(&scan);
    assert!(cmd.contains("-sV"));
    assert!(cmd.contains("--version-intensity 9"));
}

#[test]
fn builder_test_script_scan() {
    let mut scan = NmapScan::new();
    scan.target_specification.targets = vec!["192.168.1.1".to_string()];
    scan.script_scan.scripts = vec!["vuln".to_string(), "exploit".to_string()];
    let cmd = NmapCommandBuilder::build(&scan);
    assert!(cmd.contains("--script vuln,exploit"));
}

#[test]
fn test_verbose_and_debug() {
    let mut scan = NmapScan::new();
    scan.target_specification.targets = vec!["192.168.1.1".to_string()];
    scan.output.verbose = 2;
    scan.output.debug = 3;
    let cmd = NmapCommandBuilder::build(&scan);
    assert!(cmd.contains("-vv"));
    assert!(cmd.matches("-d").count() == 3);
}

#[test]
fn test_complex_scan() {
    let mut scan = NmapScan::new();
    scan.target_specification.targets = vec!["192.168.1.0/24".to_string()];
    scan.scan_technique = ScanTechnique::Syn;
    scan.host_discovery.skip_port_scan = true;
    scan.ports.ports = Some("-".to_string());
    scan.timing.template = Some(TimingTemplate::Aggressive);
    scan.script_scan.scripts = vec!["vuln".to_string()];
    scan.output.xml = Some("output.xml".to_string());
    let cmd = NmapCommandBuilder::build(&scan);
    assert!(cmd.contains("-Pn"));
    assert!(cmd.contains("-sS"));
    assert!(cmd.contains("-p -"));
    assert!(cmd.contains("-T4"));
    assert!(cmd.contains("--script vuln"));
    assert!(cmd.contains("-oX output.xml"));
    assert!(cmd.contains("192.168.1.0/24"));
}

#[test]
fn test_quoting() {
    let mut scan = NmapScan::new();
    scan.target_specification.targets = vec!["192.168.1.1".to_string()];
    scan.evasion.data_string = Some("test data with spaces".to_string());
    let cmd = NmapCommandBuilder::build(&scan);
    assert!(cmd.contains("--data-string \"test data with spaces\""));
}

#[test]
fn test_quoting_unquoted() {
    let mut scan = NmapScan::new();
    scan.evasion.data_string = Some("ab".to_string());
    let cmd = NmapCommandBuilder::build(&scan);
    assert!(cmd.contains("--data-string ab"));
    assert!(!cmd.contains("\"ab\""));
}

#[test]
fn test_host_discovery_flags() {
    let mut scan = NmapScan::new();
    scan.target_specification.targets = vec!["192.168.1.0/24".to_string()];
    scan.host_discovery.list_scan = true;
    scan.host_discovery.ping_scan = true;
    scan.host_discovery.syn_discovery = vec![80, 443];
    scan.host_discovery.ack_discovery = vec![22];
    scan.host_discovery.udp_discovery = vec![53];
    scan.host_discovery.icmp_echo = true;
    scan.host_discovery.dns_servers = vec!["8.8.8.8".to_string(), "1.1.1.1".to_string()];
    let cmd = NmapCommandBuilder::build(&scan);
    assert!(cmd.contains(" -sL"));
    assert!(cmd.contains(" -sn"));
    assert!(cmd.contains(" -PS80,443"));
    assert!(cmd.contains(" -PA22"));
    assert!(cmd.contains(" -PU53"));
    assert!(cmd.contains(" -PE"));
    assert!(cmd.contains(" 192.168.1.0/24"));
    assert!(cmd.contains(" --dns-servers 8.8.8.8,1.1.1.1"));
}

#[test]
fn test_port_specification_flags() {
    let mut scan = NmapScan::new();
    scan.target_specification.targets = vec!["localhost".to_string()];
    scan.ports.fast_mode = true;
    scan.ports.consecutive_ports = true;
    scan.ports.top_ports = Some(100);
    scan.ports.exclude_ports = Some("22,80".to_string());
    let cmd = NmapCommandBuilder::build(&scan);
    assert!(cmd.contains(" -F"));
    assert!(cmd.contains(" -r"));
    assert!(cmd.contains(" --top-ports 100"));
    assert!(cmd.contains(" --exclude-ports 22,80"));
    assert!(cmd.contains(" localhost"));
}

#[test]
fn test_evasion_flags() {
    let mut scan = NmapScan::new();
    scan.target_specification.targets = vec!["10.0.0.1".to_string()];
    scan.evasion.fragment_packets = true;
    scan.evasion.mtu = Some(16);
    scan.evasion.decoys = vec!["decoy1".to_string(), "ME".to_string(), "decoy2".to_string()];
    scan.evasion.spoof_ip = Some("10.0.0.99".to_string());
    scan.evasion.randomize_hosts = true;
    scan.evasion.badsum = true;
    let cmd = NmapCommandBuilder::build(&scan);
    assert!(cmd.contains(" -f"));
    assert!(cmd.contains(" --mtu 16"));
    assert!(cmd.contains(" -D decoy1,ME,decoy2"));
    assert!(cmd.contains(" -S 10.0.0.99"));
    assert!(cmd.contains(" --randomize-hosts"));
    assert!(cmd.contains(" --badsum"));
    assert!(cmd.contains(" 10.0.0.1"));
}

#[test]
fn test_output_flags() {
    let mut scan = NmapScan::new();
    scan.target_specification.targets = vec!["scanme.nmap.org".to_string()];
    scan.output.normal = Some("output.nmap".to_string());
    scan.output.grepable = Some("output.gnmap".to_string());
    scan.output.all_formats = Some("all_output".to_string());
    scan.output.open_only = true;
    scan.output.reason = true;
    let cmd = NmapCommandBuilder::build(&scan);
    assert!(cmd.contains(" -oN output.nmap"));
    assert!(cmd.contains(" -oG output.gnmap"));
    assert!(cmd.contains(" -oA all_output"));
    assert!(cmd.contains(" --open"));
    assert!(cmd.contains(" --reason"));
    assert!(cmd.contains(" scanme.nmap.org"));
}

#[test]
fn builder_test_misc_flags() {
    let mut scan = NmapScan::new();
    scan.target_specification.targets = vec!["example.com".to_string()];
    scan.misc.ipv6 = true;
    scan.misc.aggressive = true;
    scan.misc.no_resolve = true;
    let cmd = NmapCommandBuilder::build(&scan);
    assert!(cmd.contains(" -6"));
    assert!(cmd.contains(" -A"));
    assert!(cmd.contains(" -n"));
    assert!(cmd.contains(" example.com"));
}

#[test]
fn test_build_deterministic() {
    let mut scan = NmapScan::new();
    scan.target_specification.targets = vec!["example.com".to_string()];
    scan.output.verbose = 5;
    let c1 = NmapCommandBuilder::build(&scan);
    let c2 = NmapCommandBuilder::build(&scan);
    assert_eq!(c1, c2);
}
