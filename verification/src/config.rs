use vstd::prelude::*;

use crate::text::{is_split_of, list_contains_str, seq_contains_string, split_on_char, views_of};

verus! {

/// Which environment the server runs in.
#[derive(Debug, PartialEq, Eq, Structural, Clone, Copy)]
pub enum EnvIs {
    Dev,
    Prod,
}

/// The origins the server answers cross-origin requests from.
#[derive(Clone, Debug)]
pub struct AllowedOrigins(pub Vec<String>);

impl AllowedOrigins {
    /// The origins named in a comma-separated list, in order.
    pub fn from_csv(value: &str) -> (r: Self)
        ensures
            is_split_of(views_of(r.0@), ',', value@),
    {
        AllowedOrigins(split_on_char(value, ','))
    }

    /// Whether the origin is on the list.
    pub fn contains(&self, value: &str) -> (r: bool)
        ensures
            r == seq_contains_string(self.0@, value@),
    {
        list_contains_str(&self.0, value)
    }
}

/// The settings of one connection pool.
#[derive(Debug)]
pub struct DbPoolConfig {
    pub url: String,
    pub read_only_mode: bool,
    pub pool_size: usize,
}

/// The database settings the server runs with.
#[derive(Debug)]
pub struct DatabasePools {
    /// Settings for the primary database: usually writeable, read-only in
    /// some configurations.
    pub primary: DbPoolConfig,
    /// Seconds to wait for unacknowledged TCP packets before treating the
    /// connection as broken, in milliseconds.
    pub tcp_timeout_ms: u64,
    /// Seconds to wait for a connection from the pool.
    pub connection_timeout_secs: u64,
    /// Seconds to wait for a query response before cancelling it.
    pub statement_timeout_secs: u64,
    /// Whether every connection must be encrypted with TLS.
    pub enforce_tls: bool,
}

/// What the environment says about the database, as plain values.
pub struct DatabaseEnv {
    pub username: String,
    pub password: String,
    pub name: String,
    pub read_only_replica_url: Option<String>,
    pub read_only_mode: bool,
    pub primary_pool_size: usize,
    pub tcp_timeout_ms: u64,
    pub timeout_secs: u64,
    pub offline: String,
}

/// The connection string of the primary database built from its parts.
pub open spec fn leader_url_chars(username: Seq<char>, password: Seq<char>, name: Seq<char>)
    -> Seq<char> {
    "postgres://"@ + username + ":"@ + password + "@0.0.0.0:5432/"@ + name
}

/// Builds the primary database's connection string.
pub fn leader_url(username: &str, password: &str, name: &str) -> (r: String)
    ensures
        r@ == leader_url_chars(username@, password@, name@),
{
    let mut r = String::new();
    r.append("postgres://");
    r.append(username);
    r.append(":");
    r.append(password);
    r.append("@0.0.0.0:5432/");
    r.append(name);
    r
}

impl DatabasePools {
    pub fn are_all_read_only(&self) -> (r: bool)
        ensures
            r == self.primary.read_only_mode,
    {
        self.primary.read_only_mode
    }

    /// The pool settings the environment asks for.  With the primary
    /// database offline, the read-only replica serves in its place; with the
    /// replica offline, or in the ordinary case, the primary leads.
    pub fn full_from_environment(env: DatabaseEnv, enforce_tls: bool) -> (r: Self)
        requires
            env.offline@ == "leader"@ ==> env.read_only_replica_url is Some,
        ensures
            env.offline@ == "leader"@ ==> {
                &&& env.read_only_replica_url matches Some(u) && r.primary.url@ == u@
                &&& r.primary.read_only_mode
            },
            env.offline@ != "leader"@ ==> {
                &&& r.primary.url@ == leader_url_chars(
                    env.username@,
                    env.password@,
                    env.name@,
                )
                &&& r.primary.read_only_mode == env.read_only_mode
            },
            r.primary.pool_size == env.primary_pool_size,
            r.tcp_timeout_ms == env.tcp_timeout_ms,
            r.connection_timeout_secs == env.timeout_secs,
            r.statement_timeout_secs == env.timeout_secs,
            r.enforce_tls == enforce_tls,
    {
        let primary: DbPoolConfig;
        if env.offline.eq(&"leader".to_owned()) {
            let url = match env.read_only_replica_url {
                Some(u) => u,
                None => {
                    proof {
                        assert(false);
                    }
                    String::new()
                },
            };
            primary = DbPoolConfig {
                url,
                read_only_mode: true,
                pool_size: env.primary_pool_size,
            };
        } else {
            primary = DbPoolConfig {
                url: leader_url(env.username.as_str(), env.password.as_str(), env.name.as_str()),
                read_only_mode: env.read_only_mode,
                pool_size: env.primary_pool_size,
            };
        }
        DatabasePools {
            primary,
            tcp_timeout_ms: env.tcp_timeout_ms,
            connection_timeout_secs: env.timeout_secs,
            statement_timeout_secs: env.timeout_secs,
            enforce_tls,
        }
    }
}

/// The settings applied to each fresh connection.
#[derive(Debug, Clone, Copy)]
pub struct ConnectionConfig {
    pub statement_timeout_ms: u64,
    pub read_only: bool,
}

/// The application's settings.
#[derive(Debug)]
pub struct Config {
    pub env: EnvIs,
    pub ip: [u8; 4],
    pub port: u16,
    pub max_blocking_threads: Option<usize>,
    pub db: DatabasePools,
    pub max_upload_size: u64,
    pub domain_name: String,
    pub allowed_origins: AllowedOrigins,
    pub ips_database: String,
    /// Whether to serve the frontend assets.
    pub serve_dist: bool,
    /// Whether to serve the frontend page for non-API requests.
    pub serve_html: bool,
}

impl Config {
    /// The settings the server starts with: development mode on the local
    /// address, uploads capped at ten mebibytes, the frontend served.
    pub fn from_environment_values(
        db: DatabasePools,
        port: u16,
        server_threads: usize,
        domain_name: String,
        allowed_origins: AllowedOrigins,
        ips_database: String,
    ) -> (r: Self)
        ensures
            r.env == EnvIs::Dev,
            r.db == db,
            r.ip@ =~= seq![127u8, 0u8, 0u8, 1u8],
            r.port == port,
            r.max_blocking_threads == Some(server_threads),
            r.max_upload_size == 10 * 1024 * 1024,
            r.domain_name@ == domain_name@,
            r.ips_database@ == ips_database@,
            r.serve_dist,
            r.serve_html,
    {
        Config {
            env: EnvIs::Dev,
            db,
            ip: [127, 0, 0, 1],
            port,
            max_blocking_threads: Some(server_threads),
            max_upload_size: 10 * 1024 * 1024,
            domain_name,
            allowed_origins,
            ips_database,
            serve_dist: true,
            serve_html: true,
        }
    }
}

} // verus!
