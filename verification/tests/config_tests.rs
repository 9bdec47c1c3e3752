use elerem::config::{
    AllowedOrigins, Config, DatabaseEnv, DatabasePools, EnvIs,
};

fn env(offline: &str, replica: Option<&str>) -> DatabaseEnv {
    DatabaseEnv {
        username: "app".to_owned(),
        password: "pw".to_owned(),
        name: "finance".to_owned(),
        read_only_replica_url: replica.map(|s| s.to_owned()),
        read_only_mode: false,
        primary_pool_size: 8,
        tcp_timeout_ms: 1500,
        timeout_secs: 30,
        offline: offline.to_owned(),
    }
}

#[test]
fn origins_come_from_the_list() {
    let origins = AllowedOrigins::from_csv("https://a.com,https://b.org");
    assert!(origins.contains("https://a.com"));
    assert!(origins.contains("https://b.org"));
    assert!(!origins.contains("https://c.net"));
    assert!(!origins.contains("https://a.com,https://b.org"));
}

#[test]
fn ordinary_environment_leads_with_the_primary() {
    let pools = DatabasePools::full_from_environment(env("", None), true);
    assert_eq!(pools.primary.url, "postgres://app:pw@0.0.0.0:5432/finance");
    assert!(!pools.primary.read_only_mode);
    assert_eq!(pools.primary.pool_size, 8);
    assert_eq!(pools.tcp_timeout_ms, 1500);
    assert_eq!(pools.connection_timeout_secs, 30);
    assert_eq!(pools.statement_timeout_secs, 30);
    assert!(pools.enforce_tls);
    assert!(!pools.are_all_read_only());
}

#[test]
fn leader_offline_uses_the_replica_read_only() {
    let pools =
        DatabasePools::full_from_environment(env("leader", Some("postgres://replica/db")), false);
    assert_eq!(pools.primary.url, "postgres://replica/db");
    assert!(pools.primary.read_only_mode);
    assert!(pools.are_all_read_only());
}

#[test]
fn follower_offline_keeps_the_leader() {
    let pools = DatabasePools::full_from_environment(env("follower", None), false);
    assert_eq!(pools.primary.url, "postgres://app:pw@0.0.0.0:5432/finance");
    assert!(!pools.primary.read_only_mode);
}

#[test]
fn config_defaults() {
    let pools = DatabasePools::full_from_environment(env("", None), false);
    let config = Config::from_environment_values(
        pools,
        8080,
        4,
        "elerem.com".to_owned(),
        AllowedOrigins::from_csv("https://a.com"),
        "GeoLite2-City.mmdb".to_owned(),
    );
    assert_eq!(config.env, EnvIs::Dev);
    assert_eq!(config.ip, [127, 0, 0, 1]);
    assert_eq!(config.port, 8080);
    assert_eq!(config.max_blocking_threads, Some(4));
    assert_eq!(config.max_upload_size, 10 * 1024 * 1024);
    assert_eq!(config.domain_name, "elerem.com");
    assert_eq!(config.ips_database, "GeoLite2-City.mmdb");
    assert!(config.serve_dist);
    assert!(config.serve_html);
}
