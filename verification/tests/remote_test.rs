use sync_core::remote::{parse_addr, CacheConfig, RemoteMountConfig};

#[test]
fn test_parse_addr() {
    let (host, port) = parse_addr("example.com:4918").unwrap();
    assert_eq!(host, "example.com");
    assert_eq!(port, 4918);

    let (host, port) = parse_addr("device.tailnet:8080").unwrap();
    assert_eq!(host, "device.tailnet");
    assert_eq!(port, 8080);
}

#[test]
fn test_parse_addr_invalid() {
    assert!(parse_addr("no-port").is_err());
    assert!(parse_addr("host:invalid").is_err());
}

#[test]
fn test_remote_mount_config_default() {
    let config = RemoteMountConfig::default();
    assert!(config.remote_addr.is_empty());
    assert_eq!(config.socks_port, 0);
    assert!(config.cache_enabled);
    assert_eq!(config.timeout_secs, 30);
}

#[test]
fn test_cache_config_default() {
    let config = CacheConfig::default();
    assert_eq!(config.max_size_bytes, 100 * 1024 * 1024);
    assert_eq!(config.ttl_secs, 3600);
    assert!(config.cache_dir.contains("capsule-cache"));
}

#[test]
fn test_parse_addr_with_ipv4() {
    let (host, port) = parse_addr("192.168.1.1:8080").unwrap();
    assert_eq!(host, "192.168.1.1");
    assert_eq!(port, 8080);
}

#[test]
fn test_parse_addr_with_subdomain() {
    let (host, port) = parse_addr("my.device.tailnet.ts.net:4918").unwrap();
    assert_eq!(host, "my.device.tailnet.ts.net");
    assert_eq!(port, 4918);
}

#[test]
fn test_parse_addr_port_zero() {
    let (host, port) = parse_addr("example.com:0").unwrap();
    assert_eq!(host, "example.com");
    assert_eq!(port, 0);
}

#[test]
fn test_parse_addr_port_max() {
    let (host, port) = parse_addr("example.com:65535").unwrap();
    assert_eq!(host, "example.com");
    assert_eq!(port, 65535);
}

#[test]
fn test_parse_addr_port_overflow() {
    assert!(parse_addr("example.com:65536").is_err());
}
