use vstd::prelude::*;
use vstd::string::StringExecFns;

verus! {

/// Turnstile captcha configuration. Present only when both keys were
/// supplied at construction; there is no partially-configured state.
pub struct CfTurnstile {
    pub site_key: String,
    pub secret_key: String,
}

/// The configuration value the context is constructed from, assembled
/// upstream. Addresses and file paths are carried as plain strings; the
/// collaborators that consume them parse them at the boundary.
pub struct ContextArgs {
    /// Server bind address
    pub bind: Option<String>,
    /// Machine worker pool
    pub workers: usize,
    /// Concurrent request limit
    pub concurrent_limit: usize,
    /// Disable direct connection
    pub disable_direct: bool,
    /// Enable the cookie store
    pub cookie_store: bool,
    /// TCP keepalive (seconds)
    pub tcp_keepalive: usize,
    /// Timeout for idle sockets being kept alive (seconds)
    pub pool_idle_timeout: usize,
    /// Client timeout (seconds)
    pub timeout: usize,
    /// Client connect timeout (seconds)
    pub connect_timeout: usize,
    /// Upstream proxies
    pub proxies: Vec<String>,
    /// Bind address for outgoing connections
    pub interface: Option<String>,
    /// IPv6 subnet for outgoing connections, as (address, prefix length)
    pub ipv6_subnet: Option<(String, u8)>,
    /// Web UI api prefix
    pub api_prefix: Option<String>,
    /// TLS certificate path
    pub tls_cert: Option<String>,
    /// TLS key path
    pub tls_key: Option<String>,
    /// Login auth key
    pub auth_key: Option<String>,
    /// Disable the web UI
    pub disable_ui: bool,
    /// Turnstile captcha site key
    pub cf_site_key: Option<String>,
    /// Turnstile captcha secret key
    pub cf_secret_key: Option<String>,
    /// Captcha solver endpoint URL
    pub arkose_endpoint: Option<String>,
    /// Chat (v3) evidence file path override
    pub arkose_chat3_har_file: Option<String>,
    /// Chat (v4) evidence file path override
    pub arkose_chat4_har_file: Option<String>,
    /// Auth evidence file path override
    pub arkose_auth_har_file: Option<String>,
    /// Platform evidence file path override
    pub arkose_platform_har_file: Option<String>,
    /// Evidence file upload authentication key
    pub arkose_har_upload_key: Option<String>,
    /// Captcha solver handle, passed through uninterpreted
    pub arkose_solver: Option<String>,
    /// Enable the token-bucket rate limiter
    pub tb_enable: bool,
    /// Token-bucket store strategy
    pub tb_store_strategy: String,
    /// Token-bucket redis URL
    pub tb_redis_url: String,
    /// Token-bucket capacity
    pub tb_capacity: u32,
    /// Token-bucket fill rate
    pub tb_fill_rate: u32,
    /// Token-bucket expiry (seconds)
    pub tb_expired: u32,
    /// Preauth interception server bind address; the preauth credential
    /// cache exists exactly when this is set
    pub pbind: Option<String>,
    /// Preauth interception server upstream proxy
    pub pupstream: Option<String>,
    /// Preauth interception server CA certificate file path
    pub pcert: String,
    /// Preauth interception server CA private key file path
    pub pkey: String,
}

impl Default for ContextArgs {
    /// The default configuration: what the context is built from when it
    /// is first reached without an explicit initialization.
    fn default() -> (r: Self)
        ensures
            r.bind matches Some(b) && b@ == "0.0.0.0:7999"@,
            r.workers == 1,
            r.concurrent_limit == 65535,
            !r.disable_direct,
            !r.cookie_store,
            r.tcp_keepalive == 75,
            r.pool_idle_timeout == 90,
            r.timeout == 600,
            r.connect_timeout == 60,
            r.proxies@.len() == 0,
            r.interface is None,
            r.ipv6_subnet is None,
            r.api_prefix is None,
            r.tls_cert is None,
            r.tls_key is None,
            r.auth_key is None,
            !r.disable_ui,
            r.cf_site_key is None,
            r.cf_secret_key is None,
            r.arkose_endpoint is None,
            r.arkose_chat3_har_file is None,
            r.arkose_chat4_har_file is None,
            r.arkose_auth_har_file is None,
            r.arkose_platform_har_file is None,
            r.arkose_har_upload_key is None,
            r.arkose_solver is None,
            !r.tb_enable,
            r.tb_store_strategy@ == "mem"@,
            r.tb_redis_url@ == "redis://127.0.0.1:6379"@,
            r.tb_capacity == 60,
            r.tb_fill_rate == 1,
            r.tb_expired == 86400,
            r.pbind is None,
            r.pupstream is None,
            r.pcert@ == Seq::<char>::empty(),
            r.pkey@ == Seq::<char>::empty(),
    {
        ContextArgs {
            bind: Some(String::from_str("0.0.0.0:7999")),
            workers: 1,
            concurrent_limit: 65535,
            disable_direct: false,
            cookie_store: false,
            tcp_keepalive: 75,
            pool_idle_timeout: 90,
            timeout: 600,
            connect_timeout: 60,
            proxies: Vec::new(),
            interface: None,
            ipv6_subnet: None,
            api_prefix: None,
            tls_cert: None,
            tls_key: None,
            auth_key: None,
            disable_ui: false,
            cf_site_key: None,
            cf_secret_key: None,
            arkose_endpoint: None,
            arkose_chat3_har_file: None,
            arkose_chat4_har_file: None,
            arkose_auth_har_file: None,
            arkose_platform_har_file: None,
            arkose_har_upload_key: None,
            arkose_solver: None,
            tb_enable: false,
            tb_store_strategy: String::from_str("mem"),
            tb_redis_url: String::from_str("redis://127.0.0.1:6379"),
            tb_capacity: 60,
            tb_fill_rate: 1,
            tb_expired: 86400,
            pbind: None,
            pupstream: None,
            pcert: String::new(),
            pkey: String::new(),
        }
    }
}

/// Pair the two Turnstile keys: a configuration exists exactly when both
/// keys are present.
pub fn turnstile_from(site_key: Option<String>, secret_key: Option<String>) -> (r: Option<
    CfTurnstile,
>)
    ensures
        (site_key is Some && secret_key is Some) ==> (r matches Some(t) && t.site_key
            == site_key.unwrap() && t.secret_key == secret_key.unwrap()),
        (site_key is None || secret_key is None) ==> r is None,
{
    match (site_key, secret_key) {
        (Some(site_key), Some(secret_key)) => Some(CfTurnstile { site_key, secret_key }),
        _ => None,
    }
}

} // verus!
