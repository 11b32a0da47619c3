use token_hub::agent::frpc::{generate_frpc_toml, generate_service_id, FrpcConfig, TunnelMode};

fn test_config(mode: TunnelMode) -> FrpcConfig {
    FrpcConfig {
        server: "frp.alius.tech".to_string(),
        port: 7000,
        token: Some("secret123".to_string()),
        subdomain_host: "tun.alius.tech".to_string(),
        local_addr: "127.0.0.1".to_string(),
        local_port: 8081,
        frpc_binary: "frpc".to_string(),
        mode,
    }
}

#[test]
fn service_id_format() {
    for _ in 0..100 {
        let id = generate_service_id();
        assert_eq!(id.len(), 6, "service ID must be 6 chars");
        assert!(
            id.chars().all(|c| c.is_ascii_lowercase() || c.is_ascii_digit()),
            "must be lowercase+digits"
        );
        assert!(!id.contains('0'), "must not contain 0");
        assert!(!id.contains('o'), "must not contain o");
        assert!(!id.contains('1'), "must not contain 1");
        assert!(!id.contains('i'), "must not contain i");
        assert!(!id.contains('l'), "must not contain l");
    }
}

#[test]
fn service_id_randomness() {
    let ids: std::collections::HashSet<_> = (0..50).map(|_| generate_service_id()).collect();
    assert!(ids.len() > 40, "50 generated IDs should be mostly unique, got {}", ids.len());
}

#[test]
fn http_subdomain_toml() {
    let cfg = test_config(TunnelMode::HttpSubdomain);
    let toml = generate_frpc_toml(&cfg, "a3k9x2");
    assert!(toml.contains("type = \"http\""));
    assert!(toml.contains("subdomain = \"a3k9x2\""));
    assert!(toml.contains("localPort = 8081"));
    assert!(toml.contains("auth.token = \"secret123\""));
    assert!(toml.contains("name = \"tokenhub-a3k9x2\""));
}

#[test]
fn tcp_mode_toml() {
    let cfg = test_config(TunnelMode::Tcp { remote_port: 6001 });
    let toml = generate_frpc_toml(&cfg, "b7m2p8");
    assert!(toml.contains("type = \"tcp\""));
    assert!(toml.contains("remotePort = 6001"));
    assert!(!toml.contains("subdomain"));
}

#[test]
fn no_token_omitted() {
    let mut cfg = test_config(TunnelMode::HttpSubdomain);
    cfg.token = None;
    let toml = generate_frpc_toml(&cfg, "test01");
    assert!(!toml.contains("auth.token"));
}

#[test]
fn frpc_toml_exact_http_layout() {
    let cfg = test_config(TunnelMode::HttpSubdomain);
    let toml = generate_frpc_toml(&cfg, "a3k9x2");
    assert_eq!(
        toml,
        "# TokenHub 远程管理接入配置（自动生成，请勿手动修改）\nserverAddr = \"frp.alius.tech\"\nserverPort = 7000\n\
auth.token = \"secret123\"\n\n[[proxies]]\nname = \"tokenhub-a3k9x2\"\ntype = \"http\"\n\
localIP = \"127.0.0.1\"\nlocalPort = 8081\nsubdomain = \"a3k9x2\"\n"
    );
}

#[test]
fn frpc_toml_empty_token_omitted() {
    let mut cfg = test_config(TunnelMode::Tcp { remote_port: 6001 });
    cfg.token = Some(String::new());
    let toml = generate_frpc_toml(&cfg, "b7m2p8");
    assert!(!toml.contains("auth.token"));
    assert!(toml.ends_with("localPort = 8081\nremotePort = 6001\n"));
}
