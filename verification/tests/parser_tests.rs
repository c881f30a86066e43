use nmapcmd::model::{ScanTechnique, TimingTemplate};
use nmapcmd::parser::{NmapParser, ParseError};

#[test]
fn parser_test_basic_scan() {
    let result = NmapParser::parse("nmap -sS -p 80,443 192.168.1.1");
    assert!(result.is_ok());
    let scan = result.unwrap();
    assert_eq!(scan.target_specification.targets, vec!["192.168.1.1"]);
    assert!(matches!(scan.scan_technique, ScanTechnique::Syn));
    assert_eq!(scan.ports.ports, Some("80,443".to_string()));
}

#[test]
fn parser_test_timing_template() {
    let result = NmapParser::parse("nmap -T4 scanme.nmap.org");
    assert!(result.is_ok());
    let scan = result.unwrap();
    assert!(matches!(scan.timing.template, Some(TimingTemplate::Aggressive)));
}

#[test]
fn parser_test_os_detection() {
    let result = NmapParser::parse("nmap -O --osscan-guess 192.168.1.1");
    assert!(result.is_ok());
    let scan = result.unwrap();
    assert!(scan.os_detection.enabled);
    assert!(scan.os_detection.guess);
}

#[test]
fn parser_test_service_detection() {
    let result = NmapParser::parse("nmap -sV --version-intensity 9 example.com");
    assert!(result.is_ok());
    let scan = result.unwrap();
    assert!(scan.service_detection.enabled);
    assert_eq!(scan.service_detection.intensity, Some(9));
}

#[test]
fn parser_test_script_scan() {
    let result = NmapParser::parse("nmap --script vuln,exploit 192.168.1.1");
    assert!(result.is_ok());
    let scan = result.unwrap();
    assert_eq!(scan.script_scan.scripts, vec!["vuln", "exploit"]);
}

#[test]
fn test_host_discovery() {
    let result = NmapParser::parse("nmap -sL -sn -Pn 192.168.1.0/24");
    assert!(result.is_ok());
    let scan = result.unwrap();
    assert!(scan.host_discovery.list_scan);
    assert!(scan.host_discovery.ping_scan);
    assert!(scan.host_discovery.skip_port_scan);
    assert_eq!(scan.target_specification.targets, vec!["192.168.1.0/24"]);
}

#[test]
fn test_port_specification() {
    let result = NmapParser::parse("nmap -F -r --top-ports 10 127.0.0.1");
    assert!(result.is_ok());
    let scan = result.unwrap();
    assert!(scan.ports.fast_mode);
    assert!(scan.ports.consecutive_ports);
    assert_eq!(scan.ports.top_ports, Some(10));
}

#[test]
fn test_evasion_techniques() {
    let result = NmapParser::parse("nmap -f --mtu 8 -D RND:10 10.0.0.1");
    assert!(result.is_ok());
    let scan = result.unwrap();
    assert!(scan.evasion.fragment_packets);
    assert_eq!(scan.evasion.mtu, Some(8));
    assert_eq!(scan.evasion.decoys, vec!["RND:10"]);
}

#[test]
fn test_output_options() {
    let result = NmapParser::parse("nmap -oN normal.txt -v --open scanme.nmap.org");
    assert!(result.is_ok());
    let scan = result.unwrap();
    assert_eq!(scan.output.normal, Some("normal.txt".to_string()));
    assert_eq!(scan.output.verbose, 1);
    assert!(scan.output.open_only);
}

#[test]
fn parser_test_misc_flags() {
    let result = NmapParser::parse("nmap -6 -A -n example.com");
    assert!(result.is_ok());
    let scan = result.unwrap();
    assert!(scan.misc.ipv6);
    assert!(scan.misc.aggressive);
    assert!(scan.misc.no_resolve);
}

#[test]
fn test_invalid_value() {
    let result = NmapParser::parse("nmap -iR not-a-number scanme.nmap.org");
    assert!(result.is_err());
    let err = result.unwrap_err();
    assert!(matches!(
        err,
        ParseError::InvalidValue(flag, val) if flag == "-iR" && val == "not-a-number"
    ));
}

#[test]
fn test_invalid_flag() {
    let result = NmapParser::parse("nmap --bogus-flag host");
    assert!(result.is_err());
    let err = result.unwrap_err();
    assert!(matches!(err, ParseError::InvalidFlag(flag) if flag == "--bogus-flag"));
}

#[test]
fn test_combined_scan() {
    let command = "nmap -sS -sV -O -p- -T4 --min-rate 1000 -oA full_scan 192.168.1.1";
    let result = NmapParser::parse(command);
    assert!(result.is_ok());
    let scan = result.unwrap();
    assert!(matches!(scan.scan_technique, ScanTechnique::Syn));
    assert!(scan.service_detection.enabled);
    assert!(scan.os_detection.enabled);
    assert_eq!(scan.ports.ports, Some("-".to_string()));
    assert!(matches!(scan.timing.template, Some(TimingTemplate::Aggressive)));
    assert_eq!(scan.timing.min_rate, Some(1000));
    assert_eq!(scan.output.all_formats, Some("full_scan".to_string()));
    assert_eq!(scan.target_specification.targets, vec!["192.168.1.1"]);
}

#[test]
fn test_tokenizer_quotes() {
    let toks = NmapParser::tokenize("\"a b\" c");
    assert_eq!(toks, vec!["a b".to_string(), "c".to_string()]);
    let toks2 = NmapParser::tokenize("\"a \\\" b\"");
    assert_eq!(toks2, vec!["a \" b".to_string()]);
}

#[test]
fn test_round_trip_exec() {
    let mut scan = nmapcmd::model::NmapScan::new();
    scan.target_specification.targets = vec!["192.168.1.1".to_string()];
    scan.ports.ports = Some("80,443".to_string());
    scan.host_discovery.syn_discovery = vec![80, 443];
    scan.output.verbose = 3;
    scan.evasion.spoof_ip = Some("10.0.0.99".to_string());
    let cmd = nmapcmd::builder::NmapCommandBuilder::build(&scan);
    let back = NmapParser::parse(cmd.as_str()).unwrap();
    assert_eq!(back.target_specification.targets, scan.target_specification.targets);
    assert_eq!(back.ports.ports, scan.ports.ports);
    assert_eq!(back.host_discovery.syn_discovery, scan.host_discovery.syn_discovery);
    assert_eq!(back.output.verbose, scan.output.verbose);
    assert_eq!(back.evasion.spoof_ip, scan.evasion.spoof_ip);
}
