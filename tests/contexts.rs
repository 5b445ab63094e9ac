use pulsar_smith::auth::auth::{create, AuthMethod};
use pulsar_smith::auth::error::Error as AuthError;
use pulsar_smith::auth::oauth2::{credentials_path, token_url};
use pulsar_smith::cmd::commons::{CompressionKind, ProducerOpts};
use pulsar_smith::cmd::consume::{parse_sub_type, parse_subscription_position, StartPosition, SubscriptionType};
use pulsar_smith::config::{settings_from_flags, PulsarConfig, Cluster, ClusterItem, Configs, Context, ContextItem, User, UserItem};
use pulsar_smith::error::Error;
use pulsar_smith::text::{ascii_lower_equals, push_decimal, str_equals};

fn configs(admin_url: Option<&str>, current: Option<&str>) -> Configs {
    Configs {
        clusters: vec![
            ClusterItem {
                name: "local".to_string(),
                cluster: Cluster {
                    url: "pulsar://localhost:6650".to_string(),
                    admin_service_url: admin_url.map(|s| s.to_string()),
                    allow_insecure_connection: true,
                },
            },
            ClusterItem {
                name: "local".to_string(),
                cluster: Cluster { url: "pulsar://other:6650".to_string(), admin_service_url: None, allow_insecure_connection: false },
            },
        ],
        users: vec![UserItem {
            name: "admin".to_string(),
            user: User { auth_name: Some("token".to_string()), auth_params: Some("SECRET-REDACTED".to_string()) },
        }],
        contexts: vec![
            ContextItem { name: "dev".to_string(), context: Context { cluster: "local".to_string(), user: "admin".to_string() } },
            ContextItem { name: "broken".to_string(), context: Context { cluster: "gone".to_string(), user: "admin".to_string() } },
            ContextItem { name: "nouser".to_string(), context: Context { cluster: "local".to_string(), user: "nobody".to_string() } },
        ],
        current_context: current.map(|s| s.to_string()),
    }
}

fn custom_message(e: Error) -> String {
    match e {
        Error::Custom(m) => m,
        other => panic!("unexpected {:?}", other),
    }
}

#[test]
fn context_resolves_to_first_matching_cluster_and_user() {
    let c = configs(Some("http://localhost:8080"), None);
    let cfg = c.get_pulsar_config("dev").unwrap();
    assert_eq!(cfg.url, "pulsar://localhost:6650");
    assert_eq!(cfg.admin_url, "http://localhost:8080");
    assert_eq!(cfg.auth_name.as_deref(), Some("token"));
    assert_eq!(cfg.auth_params.as_deref(), Some("SECRET-REDACTED"));
    assert!(cfg.allow_insecure_connection);
    assert!(cfg.tls_hostname_verification_enabled);
}

#[test]
fn unknown_context_cluster_or_user_is_reported() {
    let c = configs(Some("http://localhost:8080"), None);
    assert_eq!(custom_message(c.get_pulsar_config("prod").unwrap_err()), "context [prod] not exist");
    assert_eq!(custom_message(c.get_pulsar_config("broken").unwrap_err()), "context [broken] not exist");
    assert_eq!(custom_message(c.get_pulsar_config("nouser").unwrap_err()), "context [nouser] not exist");
}

#[test]
fn cluster_without_admin_url_is_reported() {
    let c = configs(None, None);
    assert_eq!(
        custom_message(c.get_pulsar_config("dev").unwrap_err()),
        "admin-url not defined for cluster [local]"
    );
}

#[test]
fn current_context_is_used_when_set() {
    let c = configs(Some("http://a"), Some("dev"));
    assert!(c.has_current_context());
    assert_eq!(c.get_current_pulsar_config().unwrap().admin_url, "http://a");
    let none = configs(Some("http://a"), None);
    assert!(!none.has_current_context());
    assert_eq!(custom_message(none.get_current_pulsar_config().unwrap_err()), "current context not set");
}

#[test]
fn auth_method_is_chosen_by_name_in_any_case() {
    match create("Token".to_string(), "abc".to_string()).unwrap() {
        AuthMethod::Token { params } => assert_eq!(params, "abc"),
        other => panic!("unexpected {:?}", other),
    }
    let o = create("OAUTH2".to_string(), "{}".to_string()).unwrap();
    assert!(matches!(o, AuthMethod::OAuth2 { .. }));
    assert_eq!(o.auth_method_name(), "token");
    assert_eq!(o.fixed_token(), None);
    let t = create("token".to_string(), "xyz".to_string()).unwrap();
    assert_eq!(t.auth_method_name(), "auth");
    assert_eq!(t.fixed_token(), Some("xyz".to_string()));
    match create("basic".to_string(), "u:p".to_string()) {
        Err(AuthError::Custom(m)) => assert_eq!(m, "invalid auth [basic], [u:p]"),
        other => panic!("unexpected {:?}", other),
    }
}

#[test]
fn token_endpoint_and_credentials_file() {
    assert_eq!(token_url("https://issuer/"), "https://issuer/oauth/token");
    assert_eq!(token_url("https://issuer"), "https://issuer/oauth/token");
    assert_eq!(credentials_path("file:///tmp/key.json"), Some("/tmp/key.json".to_string()));
    assert_eq!(credentials_path("https://x/key.json"), None);
    assert_eq!(credentials_path("file:/"), None);
}

fn opts(batch_size: i32, compression: Option<&str>) -> ProducerOpts {
    ProducerOpts {
        topic: "t".to_string(),
        name: None,
        batch_size,
        compression: compression.map(|s| s.to_string()),
        batching_max_publish_latency_ms: 10,
    }
}

#[test]
fn batch_size_zero_or_less_turns_batching_off() {
    assert_eq!(opts(0, None).parse_batch_size(), None);
    assert_eq!(opts(-3, None).parse_batch_size(), None);
    assert_eq!(opts(128, None).parse_batch_size(), Some(128));
}

#[test]
fn compression_names_in_any_case() {
    assert_eq!(opts(0, None).parse_compression().unwrap(), None);
    assert_eq!(opts(0, Some("LZ4")).parse_compression().unwrap(), Some(CompressionKind::Lz4));
    assert_eq!(opts(0, Some("zlib")).parse_compression().unwrap(), Some(CompressionKind::Zlib));
    assert_eq!(opts(0, Some("Zstd")).parse_compression().unwrap(), Some(CompressionKind::Zstd));
    assert_eq!(opts(0, Some("snappy")).parse_compression().unwrap(), Some(CompressionKind::Snappy));
    assert_eq!(custom_message(opts(0, Some("gzip")).parse_compression().unwrap_err()), "illegal compression [gzip]");
}

#[test]
fn text_helpers() {
    let mut s = String::from("n=");
    push_decimal(&mut s, 0);
    push_decimal(&mut s, 18446744073709551615);
    assert_eq!(s, "n=018446744073709551615");
    assert!(ascii_lower_equals("HeLLo", "hello"));
    assert!(!ascii_lower_equals("hello", "HELLO"));
    assert!(str_equals("abc", "abc"));
    assert!(!str_equals("abc", "abd"));
}

#[test]
fn subscription_type_and_position_parse_in_any_case() {
    assert_eq!(parse_sub_type("Exclusive").unwrap(), SubscriptionType::Exclusive);
    assert_eq!(parse_sub_type("SHARED").unwrap(), SubscriptionType::Shared);
    assert_eq!(parse_sub_type("failover").unwrap(), SubscriptionType::Failover);
    assert_eq!(custom_message(parse_sub_type("key_shared").unwrap_err()), "illegal subscription type [key_shared]");
    assert_eq!(parse_subscription_position("Earliest").unwrap(), StartPosition::Earliest);
    assert_eq!(parse_subscription_position("LATEST").unwrap(), StartPosition::Latest);
    assert_eq!(custom_message(parse_subscription_position("middle").unwrap_err()), "illegal initial position [middle]");
}

#[test]
fn flags_fall_back_to_local_defaults() {
    let d = PulsarConfig::from_flags(None, None, None, None, None, None);
    assert_eq!(d.url, "pulsar://localhost:6650");
    assert_eq!(d.admin_url, "http://localhost:8080");
    assert!(!d.allow_insecure_connection);
    assert!(d.tls_hostname_verification_enabled);
    let g = PulsarConfig::from_flags(
        Some("pulsar://h:1".to_string()),
        Some("http://h:2".to_string()),
        Some("token".to_string()),
        Some("t".to_string()),
        Some(true),
        Some(false),
    );
    assert_eq!(g.url, "pulsar://h:1");
    assert_eq!(g.admin_url, "http://h:2");
    assert_eq!(g.auth_name.as_deref(), Some("token"));
    assert!(g.allow_insecure_connection);
    assert!(!g.tls_hostname_verification_enabled);
}

#[test]
fn settings_come_from_flags_only_when_enough_is_given() {
    assert!(settings_from_flags(true, false, false, false));
    assert!(settings_from_flags(false, true, true, true));
    assert!(!settings_from_flags(false, true, true, false));
    assert!(!settings_from_flags(false, false, true, true));
}
