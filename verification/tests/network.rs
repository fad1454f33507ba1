use shared::network::NetworkConfig;

#[test]
fn new_keeps_host_and_port() {
    let config = NetworkConfig::new("localhost", 8080);
    assert_eq!(config.host, "localhost");
    assert_eq!(config.port, 8080);
}

#[test]
fn new_copies_the_host() {
    let host = String::from("example.org");
    let config = NetworkConfig::new(&host, 443);
    drop(host);
    assert_eq!(config.host, "example.org");
}

#[test]
fn connection_string_of_localhost() {
    let config = NetworkConfig::new("localhost", 8080);
    assert_eq!(config.connection_string(), "localhost:8080");
}

#[test]
fn connection_string_of_loopback() {
    let config = NetworkConfig::new("127.0.0.1", 9090);
    assert_eq!(config.connection_string(), "127.0.0.1:9090");
}

#[test]
fn connection_string_of_every_interface() {
    let config = NetworkConfig::new("0.0.0.0", 3000);
    assert_eq!(config.connection_string(), "0.0.0.0:3000");
}

#[test]
fn connection_string_with_port_zero() {
    let config = NetworkConfig::new("host", 0);
    assert_eq!(config.connection_string(), "host:0");
}

#[test]
fn connection_string_with_largest_port() {
    let config = NetworkConfig::new("host", 65535);
    assert_eq!(config.connection_string(), "host:65535");
}

#[test]
fn connection_string_at_each_digit_count() {
    assert_eq!(NetworkConfig::new("h", 9).connection_string(), "h:9");
    assert_eq!(NetworkConfig::new("h", 10).connection_string(), "h:10");
    assert_eq!(NetworkConfig::new("h", 99).connection_string(), "h:99");
    assert_eq!(NetworkConfig::new("h", 100).connection_string(), "h:100");
    assert_eq!(NetworkConfig::new("h", 999).connection_string(), "h:999");
    assert_eq!(NetworkConfig::new("h", 1000).connection_string(), "h:1000");
    assert_eq!(NetworkConfig::new("h", 9999).connection_string(), "h:9999");
    assert_eq!(NetworkConfig::new("h", 10000).connection_string(), "h:10000");
    assert_eq!(NetworkConfig::new("h", 10101).connection_string(), "h:10101");
    assert_eq!(NetworkConfig::new("h", 60006).connection_string(), "h:60006");
}

#[test]
fn connection_string_with_empty_host() {
    let config = NetworkConfig::new("", 80);
    assert_eq!(config.connection_string(), ":80");
}

#[test]
fn connection_string_keeps_colons_of_the_host() {
    let config = NetworkConfig::new("::1", 8080);
    assert_eq!(config.connection_string(), "::1:8080");
}

#[test]
fn connection_string_keeps_a_host_beyond_ascii() {
    let config = NetworkConfig::new("bücher.example", 8443);
    assert_eq!(config.connection_string(), "bücher.example:8443");
}

#[test]
fn connection_string_leaves_the_config_unchanged() {
    let config = NetworkConfig::new("localhost", 8080);
    let first = config.connection_string();
    let second = config.connection_string();
    assert_eq!(first, second);
    assert_eq!(config.host, "localhost");
    assert_eq!(config.port, 8080);
}

#[test]
fn connection_string_matches_std_formatting_for_every_port() {
    let mut port: u16 = 0;
    loop {
        let config = NetworkConfig::new("node-7", port);
        assert_eq!(config.connection_string(), format!("{}:{}", "node-7", port));
        if port == u16::MAX {
            break;
        }
        port += 1;
    }
}

#[test]
fn last_colon_separates_host_from_port() {
    let hosts = vec!["localhost", "", "::1", "a:b:c", "[fe80::1]"];
    let ports: Vec<u16> = vec![0, 7, 80, 3000, 65535];
    for host in hosts.iter() {
        for port in ports.iter() {
            let text = NetworkConfig::new(host, *port).connection_string();
            let at = text.rfind(':').unwrap();
            assert_eq!(at, host.len());
            assert_eq!(&text[..at], *host);
            assert_eq!(text[at + 1..].parse::<u16>().unwrap(), *port);
            assert!(text[at + 1..].chars().all(|c| c.is_ascii_digit()));
        }
    }
}

#[test]
fn different_endpoints_have_different_connection_strings() {
    let a = NetworkConfig::new("a:1", 2).connection_string();
    let b = NetworkConfig::new("a", 12).connection_string();
    let c = NetworkConfig::new("a", 1).connection_string();
    let d = NetworkConfig::new("a1", 2).connection_string();
    assert_eq!(a, "a:1:2");
    assert_eq!(b, "a:12");
    assert_eq!(c, "a:1");
    assert_eq!(d, "a1:2");
    assert_ne!(a, b);
    assert_ne!(a, c);
    assert_ne!(a, d);
    assert_ne!(b, c);
    assert_ne!(b, d);
    assert_ne!(c, d);
}

#[test]
fn network_config_has_a_debug_form() {
    let config = NetworkConfig::new("localhost", 8080);
    assert_eq!(
        format!("{:?}", config),
        "NetworkConfig { host: \"localhost\", port: 8080 }"
    );
}
