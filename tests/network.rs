use youtube_downloader::network::{engine_ports, extract_port_from_lsof_line, parse_port};
use youtube_downloader::backends::{http_proxy_from, Inbound};
use youtube_downloader::network::{add_socks_ports, describe_ip};
use youtube_downloader::freshness::{check_freshness, VersionProbe};
use youtube_downloader::network::{decide_mode, get_proxy_args, get_timeout_args, probe_order, proxy_listening, socks_url, tunnel_active, NetworkConfig, NetworkMode};

#[test]
fn tunnel_wins_over_local_proxy() {
    let ifconfig = "lo0: flags=8049<UP>\n\tinet 127.0.0.1\nutun3: flags=8051<UP>\n\tinet6 fe80::1\n\tinet 172.19.0.1 --> 172.19.0.1\n";
    let tunnel = tunnel_active(ifconfig);
    assert!(tunnel);
    let serving = proxy_listening(true, "sing-box 12 u 5u IPv4 TCP 127.0.0.1:2080 (LISTEN)");
    assert!(serving);
    let d = decide_mode(tunnel, serving, None, Some("socks5h://127.0.0.1:2080".to_string()));
    assert_eq!(d.mode, NetworkMode::Vpn);
    assert_eq!(d.mode.as_str(), "vpn");
    assert!(d.proxy.is_none());
    assert!(d.ip_check_proxy.is_none());
}

#[test]
fn proxy_and_direct_modes() {
    let d = decide_mode(false, true, None, Some("socks5h://127.0.0.1:2080".to_string()));
    assert_eq!(d.mode, NetworkMode::Proxy);
    assert_eq!(d.proxy.as_deref(), Some("socks5h://127.0.0.1:2080"));
    assert_eq!(d.ip_check_proxy.as_deref(), Some("socks5h://127.0.0.1:2080"));
    let e = decide_mode(false, false, Some("http://p:1".to_string()), Some("x".to_string()));
    assert_eq!(e.mode, NetworkMode::Direct);
    assert_eq!(e.proxy.as_deref(), Some("http://p:1"));
    assert!(e.ip_check_proxy.is_none());
    assert!(!proxy_listening(false, "LISTEN"));
    assert!(!proxy_listening(true, "nothing"));
}

#[test]
fn tunnel_needs_a_nearby_address() {
    assert!(!tunnel_active("utun0: flags\n\tinet6 fe80::\n\ta\n\tb\n\tinet 172.19.0.1\n"));
    assert!(!tunnel_active("en0: flags\n\tinet 172.19.0.5\n"));
    assert!(!tunnel_active(""));
}

#[test]
fn probe_order_dedups() {
    let order = probe_order(&vec![1080, 9999], &vec![9999, 4444]);
    assert_eq!(&order[..4], &[1080, 9999, 4444, 2080]);
    assert_eq!(order.len(), 3 + 10 + 8);
    assert_eq!(order[order.len() - 1], 51837);
    assert_eq!(socks_url(1080), "socks5h://127.0.0.1:1080");
}

#[test]
fn network_arguments() {
    let mut c = NetworkConfig::new();
    assert!(get_proxy_args(&c).is_empty());
    assert_eq!(get_timeout_args(&c), vec!["--socket-timeout".to_string(), "30".to_string()]);
    c.proxy = Some("socks5://127.0.0.1:1080".to_string());
    c.timeout = None;
    assert_eq!(get_proxy_args(&c), vec!["--proxy".to_string(), "socks5://127.0.0.1:1080".to_string()]);
    assert!(get_timeout_args(&c).is_empty());
}

#[test]
fn proxy_ports_and_listings() {
    assert_eq!(parse_port("socks5h://127.0.0.1:1080"), Some(1080));
    assert_eq!(parse_port("http://localhost:8080/path:9"), None);
    assert_eq!(parse_port("https://proxy:3128"), Some(3128));
    assert_eq!(parse_port("socks5://127.0.0.1:+7890"), Some(7890));
    assert_eq!(parse_port("no-port"), None);
    assert_eq!(parse_port("h:70000"), None);
    assert_eq!(extract_port_from_lsof_line("sing-box 1234 me 5u IPv4 0x0 0t0 TCP 127.0.0.1:2080 (LISTEN)"), Some(2080));
    assert_eq!(extract_port_from_lsof_line("xray 1 me 5u IPv6 TCP *:10808(LISTEN)"), Some(10808));
    assert_eq!(extract_port_from_lsof_line("chrome 1 me TCP 10.0.0.2:5000->1.2.3.4:443 (ESTABLISHED)"), None);
    let listing = "COMMAND PID\nsing-box 1 u TCP 127.0.0.1:2080 (LISTEN)\nSING-BOX 1 u TCP 127.0.0.1:2080 (LISTEN)\nxray 2 u TCP localhost:10808 (LISTEN)\nchrome 3 u TCP 127.0.0.1:9 (LISTEN)\n";
    assert_eq!(engine_ports(listing), Some(vec![2080, 10808]));
    assert_eq!(engine_ports("nothing here"), None);
}

#[test]
fn socks_ports_from_configuration() {
    let inbounds = vec![
        Inbound { protocol: Some("http".to_string()), listen: Some("127.0.0.1".to_string()), port: Some(10809) },
        Inbound { protocol: Some("socks".to_string()), listen: None, port: Some(10808) },
        Inbound { protocol: Some("socks".to_string()), listen: None, port: Some(1080) },
        Inbound { protocol: Some("socks".to_string()), listen: None, port: Some(70000) },
        Inbound { protocol: Some("socks".to_string()), listen: None, port: Some(10808) },
        Inbound { protocol: Some("socks".to_string()), listen: None, port: Some(7891) },
    ];
    let mut ports = vec![1080];
    add_socks_ports(&mut ports, &inbounds);
    assert_eq!(ports, vec![1080, 10808, 7891]);
    assert_eq!(http_proxy_from(&inbounds, true).as_deref(), Some("http://127.0.0.1:10809"));
    assert_eq!(http_proxy_from(&inbounds, false).as_deref(), Some("127.0.0.1:10809"));
    assert_eq!(http_proxy_from(&inbounds[1..].to_vec(), true), None);
}

#[test]
fn tool_freshness() {
    let f = check_freshness(VersionProbe::Ran { success: true, stdout: "2025.12.08\n".to_string() });
    assert_eq!(f.status, "ok");
    assert_eq!(f.version.as_deref(), Some("2025.12.08"));
    assert_eq!(f.hint.as_deref(), Some("Version date: 2025-12-08"));
    let g = check_freshness(VersionProbe::Ran { success: true, stdout: "2024.03.10.232114".to_string() });
    assert_eq!(g.hint.as_deref(), Some("Version date: 2024-03-10"));
    let u = check_freshness(VersionProbe::Ran { success: true, stdout: "nightly".to_string() });
    assert_eq!(u.status, "unknown");
    assert!(u.hint.is_none());
    assert_eq!(check_freshness(VersionProbe::Missing).status, "missing");
    assert_eq!(check_freshness(VersionProbe::Ran { success: false, stdout: String::new() }).status, "error");
}

#[test]
fn external_address_text() {
    assert_eq!(describe_ip("1.2.3.4", Some("NL".to_string()), Some("Netherlands".to_string())), "1.2.3.4 (NL)");
    assert_eq!(describe_ip("1.2.3.4", None, Some("Netherlands".to_string())), "1.2.3.4 (Netherlands)");
    assert_eq!(describe_ip("1.2.3.4", None, None), "1.2.3.4");
}
