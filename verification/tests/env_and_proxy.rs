use rattler_sandbox::network_proxy::{
    has_proxy_url_env_vars, is_non_blank_str, proxy_url_env_key_names, proxy_url_env_value, to_ascii_lowercase,
    ALLOW_LOCAL_BINDING_ENV_KEY, DEFAULT_NO_PROXY_VALUE, PROXY_ACTIVE_ENV_KEY,
};
use rattler_sandbox::{EnvMap, NetworkProxy};

fn env(pairs: &[(&str, &str)]) -> EnvMap {
    let mut e = EnvMap::new();
    for (k, v) in pairs {
        e.insert(k.to_string(), v.to_string());
    }
    e
}

#[test]
fn env_map_insert_replaces() {
    let mut e = env(&[("A", "1"), ("B", "2")]);
    e.insert("A".to_string(), "3".to_string());
    assert_eq!(e.get("A").map(|s| s.as_str()), Some("3"));
    assert_eq!(e.get("B").map(|s| s.as_str()), Some("2"));
    assert!(e.get("C").is_none());
    assert_eq!(e.len(), 2);
    assert!(e.contains_key("B"));
    let mut pairs = e.to_pairs();
    pairs.sort();
    assert_eq!(pairs, vec![("A".to_string(), "3".to_string()), ("B".to_string(), "2".to_string())]);
}

#[test]
fn proxy_value_falls_back_to_lowercase() {
    let e = env(&[("https_proxy", "http://lower"), ("HTTP_PROXY", "http://upper")]);
    assert_eq!(proxy_url_env_value(&e, "HTTP_PROXY"), Some("http://upper"));
    assert_eq!(proxy_url_env_value(&e, "HTTPS_PROXY"), Some("http://lower"));
    assert_eq!(proxy_url_env_value(&e, "ALL_PROXY"), None);
}

#[test]
fn proxy_env_detection_ignores_blank_values() {
    assert!(!has_proxy_url_env_vars(&env(&[])));
    assert!(!has_proxy_url_env_vars(&env(&[("HTTP_PROXY", "  \t")])));
    assert!(!has_proxy_url_env_vars(&env(&[("NO_PROXY", "x")])));
    assert!(has_proxy_url_env_vars(&env(&[("ftp_proxy", " x ")])));
    assert!(has_proxy_url_env_vars(&env(&[("WSS_PROXY", "socks5://h:1")])));
}

#[test]
fn blank_and_lowercase_helpers() {
    assert!(!is_non_blank_str(" \u{3000}\n"));
    assert!(is_non_blank_str(" a "));
    assert_eq!(to_ascii_lowercase("Hello_Ä1"), "hello_Ä1");
}

#[test]
fn apply_to_env_overrides_and_defaults() {
    let proxy = NetworkProxy::new("127.0.0.1:3128".to_string(), "127.0.0.1:1080".to_string());
    let mut e = env(&[("HTTP_PROXY", "http://evil"), ("KEEP", "me")]);
    proxy.apply_to_env(&mut e);
    assert_eq!(e.get("HTTP_PROXY").unwrap(), "http://127.0.0.1:3128");
    assert_eq!(e.get("https_proxy").unwrap(), "http://127.0.0.1:3128");
    assert_eq!(e.get("ALL_PROXY").unwrap(), "socks5://127.0.0.1:1080");
    assert_eq!(e.get("all_proxy").unwrap(), "socks5://127.0.0.1:1080");
    for key in ["WS_PROXY", "WSS_PROXY", "FTP_PROXY"] {
        assert_eq!(e.get(key).unwrap(), "http://127.0.0.1:3128");
    }
    for key in ["ws_proxy", "wss_proxy", "ftp_proxy"] {
        assert!(e.get(key).is_none());
    }
    assert_eq!(e.get(PROXY_ACTIVE_ENV_KEY).unwrap(), "1");
    assert!(e.get(ALLOW_LOCAL_BINDING_ENV_KEY).is_none());
    assert_eq!(e.get("NO_PROXY").unwrap(), DEFAULT_NO_PROXY_VALUE);
    assert_eq!(e.get("no_proxy").unwrap(), DEFAULT_NO_PROXY_VALUE);
    assert_eq!(e.get("KEEP").unwrap(), "me");
}

#[test]
fn apply_to_env_keeps_existing_no_proxy_and_http_fallback() {
    let proxy = NetworkProxy::new("[::1]:8080".to_string(), "[::1]:1080".to_string())
        .with_socks_enabled(false)
        .with_allow_local_binding(true);
    let mut e = env(&[("no_proxy", "corp.internal")]);
    proxy.apply_to_env(&mut e);
    assert_eq!(e.get("ALL_PROXY").unwrap(), "http://[::1]:8080");
    assert_eq!(e.get(ALLOW_LOCAL_BINDING_ENV_KEY).unwrap(), "1");
    assert!(e.get("NO_PROXY").is_none());
    assert_eq!(e.get("no_proxy").unwrap(), "corp.internal");
}

#[test]
fn proxy_builders_and_getters() {
    let p = NetworkProxy::new("h:1".to_string(), "s:2".to_string())
        .with_dangerously_allow_all_unix_sockets(true)
        .with_allow_unix_sockets(vec!["/run/a.sock".to_string()]);
    assert_eq!(p.http_addr(), "h:1");
    assert_eq!(p.socks_addr(), "s:2");
    assert!(p.socks_enabled());
    assert!(!p.allow_local_binding());
    assert!(p.dangerously_allow_all_unix_sockets());
    assert_eq!(p.allow_unix_sockets(), &["/run/a.sock".to_string()]);
    let q = p.duplicate();
    assert_eq!(q, p);
}

#[test]
fn proxy_url_env_keys_are_listed_in_order() {
    assert_eq!(
        proxy_url_env_key_names(),
        vec!["HTTP_PROXY", "HTTPS_PROXY", "WS_PROXY", "WSS_PROXY", "ALL_PROXY", "FTP_PROXY"]
    );
}
