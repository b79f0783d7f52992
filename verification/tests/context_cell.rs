use gateway_core::ChallengeType;
use gateway_core::Context;
use gateway_core::ContextArgs;
use gateway_core::ContextCell;
use gateway_core::HarRegistry;
use gateway_core::init_har;

fn registry() -> HarRegistry {
    let (chat3, _) = init_har(&None, "/home/u", ChallengeType::Chat3.default_filename(), false, false);
    let (chat4, _) = init_har(&None, "/home/u", ChallengeType::Chat4.default_filename(), false, false);
    let (auth0, _) = init_har(&None, "/home/u", ChallengeType::Auth0.default_filename(), false, false);
    let (platform, _) = init_har(&None, "/home/u", ChallengeType::Platform.default_filename(), false, false);
    HarRegistry::new(chat3, chat4, auth0, platform)
}

fn context_with_prefix(prefix: &str) -> Context {
    let mut args = ContextArgs::default();
    args.api_prefix = Some(prefix.to_string());
    Context::new(
        args,
        registry(),
        vec![reqwest::Client::new()],
        vec![reqwest::Client::new()],
    )
}

#[test]
fn default_args_hold_calibrated_values() {
    let args = ContextArgs::default();
    assert_eq!(args.bind, Some("0.0.0.0:7999".to_string()));
    assert_eq!(args.workers, 1);
    assert_eq!(args.concurrent_limit, 65535);
    assert_eq!(args.tcp_keepalive, 75);
    assert_eq!(args.pool_idle_timeout, 90);
    assert_eq!(args.timeout, 600);
    assert_eq!(args.connect_timeout, 60);
    assert!(args.proxies.is_empty());
    assert_eq!(args.api_prefix, None);
    assert_eq!(args.pbind, None);
    assert_eq!(args.tb_store_strategy, "mem");
    assert_eq!(args.tb_redis_url, "redis://127.0.0.1:6379");
    assert_eq!(args.tb_expired, 86400);
}

#[test]
fn new_wires_configuration_through() {
    let mut args = ContextArgs::default();
    args.api_prefix = Some("/api".to_string());
    args.arkose_endpoint = Some("https://solver.example".to_string());
    args.auth_key = Some("login-key".to_string());
    args.arkose_har_upload_key = Some("upload".to_string());
    args.arkose_solver = Some("solver-handle".to_string());
    let ctx = Context::new(
        args,
        registry(),
        vec![reqwest::Client::new()],
        vec![reqwest::Client::new()],
    );
    assert_eq!(ctx.api_prefix(), Some(&"/api".to_string()));
    assert_eq!(ctx.arkose_endpoint(), Some(&"https://solver.example".to_string()));
    assert_eq!(ctx.auth_key(), Some(&"login-key".to_string()));
    assert_eq!(ctx.arkose_har_upload_key(), Some(&"upload".to_string()));
    assert_eq!(ctx.arkose_solver(), Some(&"solver-handle".to_string()));
    assert!(ctx.cf_turnstile().is_none());
    let (fresh, path) = ctx.arkose_har_path(&ChallengeType::Chat3);
    assert!(!fresh);
    assert_eq!(path, "/home/u/.chat3.openai.com.har");
}

#[test]
fn turnstile_requires_both_keys() {
    let mut args = ContextArgs::default();
    args.cf_site_key = Some("site".to_string());
    let ctx = Context::new(
        args,
        registry(),
        vec![reqwest::Client::new()],
        vec![reqwest::Client::new()],
    );
    assert!(ctx.cf_turnstile().is_none());

    let mut args2 = ContextArgs::default();
    args2.cf_site_key = Some("site".to_string());
    args2.cf_secret_key = Some("secret".to_string());
    let ctx2 = Context::new(
        args2,
        registry(),
        vec![reqwest::Client::new()],
        vec![reqwest::Client::new()],
    );
    let ts = ctx2.cf_turnstile().unwrap();
    assert_eq!(ts.site_key, "site");
    assert_eq!(ts.secret_key, "secret");
}

#[test]
fn preauth_cache_exists_only_with_bind() {
    let ctx = context_with_prefix("/a");
    assert!(!ctx.enable_preauth(0));
    assert_eq!(ctx.pop_preauth_cookie(0), None);

    let mut args = ContextArgs::default();
    args.pbind = Some("127.0.0.1:8000".to_string());
    let mut ctx2 = Context::new(
        args,
        registry(),
        vec![reqwest::Client::new()],
        vec![reqwest::Client::new()],
    );
    assert!(!ctx2.enable_preauth(0));
    ctx2.push_preauth_cookie("k".to_string(), "cookie".to_string(), 0);
    assert!(ctx2.enable_preauth(0));
    assert_eq!(ctx2.pop_preauth_cookie(0), Some("cookie".to_string()));
    // past the time-to-live the credential is gone
    assert!(!ctx2.enable_preauth(86400));
    assert_eq!(ctx2.pop_preauth_cookie(86400), None);
}

#[test]
fn push_on_disabled_preauth_is_a_noop() {
    let mut ctx = context_with_prefix("/a");
    ctx.push_preauth_cookie("k".to_string(), "v".to_string(), 0);
    assert!(!ctx.enable_preauth(0));
    assert_eq!(ctx.pop_preauth_cookie(0), None);
}

#[test]
fn client_accessors_hand_out_clients() {
    let mut ctx = context_with_prefix("/a");
    let _c1 = ctx.client();
    let _c2 = ctx.client();
    let _a = ctx.auth_client();
}

#[test]
fn init_twice_keeps_first() {
    let mut cell = ContextCell::empty();
    assert!(cell.init(context_with_prefix("/first")));
    assert!(!cell.init(context_with_prefix("/second")));
    assert_eq!(cell.get().api_prefix(), Some(&"/first".to_string()));
}

#[test]
fn get_instance_publishes_once() {
    let mut cell = ContextCell::empty();
    assert!(!cell.is_set());
    {
        let ctx = cell.get_instance(context_with_prefix("/lazy"));
        assert_eq!(ctx.api_prefix(), Some(&"/lazy".to_string()));
    }
    assert!(cell.is_set());
    let again = cell.get_instance(context_with_prefix("/other"));
    assert_eq!(again.api_prefix(), Some(&"/lazy".to_string()));
}
