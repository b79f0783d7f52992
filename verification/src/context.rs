use vstd::prelude::*;

use crate::challenge::ChallengeType;
use crate::clients::ClientPool;
use crate::config::CfTurnstile;
use crate::config::ContextArgs;
use crate::config::turnstile_from;
use crate::evidence::HarRegistry;
use crate::preauth::PreauthCache;

verus! {

/// Capacity of the preauth credential cache, fixed at construction.
pub const PREAUTH_CAPACITY: usize = 1000;

/// Time-to-live of a cached preauth credential, in seconds (24 hours).
pub const PREAUTH_TTL_SECS: u64 = 86400;

/// The shared context: client pools, captcha and solver configuration,
/// the evidence registry, and — when the interception front-end is
/// enabled — the preauth credential cache. Constructed once; the only
/// parts that change afterwards are the evidence registry (through the
/// watch dispatcher) and the preauth cache.
pub struct Context {
    pub client_pool: ClientPool,
    pub auth_client_pool: ClientPool,
    pub arkose_solver: Option<String>,
    pub arkose_har_upload_key: Option<String>,
    pub auth_key: Option<String>,
    pub cf_turnstile: Option<CfTurnstile>,
    pub api_prefix: Option<String>,
    pub arkose_endpoint: Option<String>,
    pub preauth_cache: Option<PreauthCache>,
    pub har_registry: HarRegistry,
}

impl Context {
    pub open spec fn wf(self) -> bool {
        &&& self.client_pool.wf()
        &&& self.auth_client_pool.wf()
        &&& (self.preauth_cache matches Some(c) ==> c.wf())
    }

    /// Everything but the two client pools is the same in `a` and `b`.
    pub open spec fn same_but_pools(a: Context, b: Context) -> bool {
        &&& a.arkose_solver == b.arkose_solver
        &&& a.arkose_har_upload_key == b.arkose_har_upload_key
        &&& a.auth_key == b.auth_key
        &&& a.cf_turnstile == b.cf_turnstile
        &&& a.api_prefix == b.api_prefix
        &&& a.arkose_endpoint == b.arkose_endpoint
        &&& a.preauth_cache == b.preauth_cache
        &&& a.har_registry == b.har_registry
    }

    /// Compose the context from the configuration, the bootstrapped
    /// evidence registry, and the externally-built client pools. The
    /// preauth cache exists exactly when an interception bind address
    /// was configured; the Turnstile configuration exists exactly when
    /// both keys were supplied. A context with no clients is
    /// non-functional, so both pools must be non-empty.
    pub fn new(
        args: ContextArgs,
        registry: HarRegistry,
        clients: Vec<reqwest::Client>,
        auth_clients: Vec<reqwest::Client>,
    ) -> (r: Context)
        requires
            clients@.len() > 0,
            auth_clients@.len() > 0,
        ensures
            r.wf(),
            r.client_pool.clients@ == clients@,
            r.client_pool.next_idx == 0,
            r.auth_client_pool.clients@ == auth_clients@,
            r.auth_client_pool.next_idx == 0,
            r.har_registry == registry,
            r.arkose_solver == args.arkose_solver,
            r.arkose_har_upload_key == args.arkose_har_upload_key,
            r.auth_key == args.auth_key,
            r.api_prefix == args.api_prefix,
            r.arkose_endpoint == args.arkose_endpoint,
            (args.cf_site_key is Some && args.cf_secret_key is Some) ==> (r.cf_turnstile matches
                Some(t) && t.site_key == args.cf_site_key.unwrap() && t.secret_key
                == args.cf_secret_key.unwrap()),
            (args.cf_site_key is None || args.cf_secret_key is None) ==> r.cf_turnstile is None,
            (r.preauth_cache is Some) == (args.pbind is Some),
            args.pbind is Some ==> (r.preauth_cache matches Some(c) && c.entries@.len() == 0
                && c.capacity == PREAUTH_CAPACITY && c.ttl_secs == PREAUTH_TTL_SECS),
    {
        let preauth_cache = match &args.pbind {
            Some(_) => Some(PreauthCache::new(PREAUTH_CAPACITY, PREAUTH_TTL_SECS)),
            None => None,
        };
        Context {
            client_pool: ClientPool::new(clients),
            auth_client_pool: ClientPool::new(auth_clients),
            arkose_solver: args.arkose_solver,
            arkose_har_upload_key: args.arkose_har_upload_key,
            auth_key: args.auth_key,
            cf_turnstile: turnstile_from(args.cf_site_key, args.cf_secret_key),
            api_prefix: args.api_prefix,
            arkose_endpoint: args.arkose_endpoint,
            preauth_cache,
            har_registry: registry,
        }
    }

    /// The request client at the pool's current rotation index: exactly
    /// one handout from the request pool, nothing else changed.
    pub fn client(&mut self) -> (r: reqwest::Client)
        requires
            old(self).wf(),
        ensures
            final(self).wf(),
            Self::same_but_pools(*final(self), *old(self)),
            final(self).auth_client_pool == old(self).auth_client_pool,
            final(self).client_pool.clients@ == old(self).client_pool.clients@,
            final(self).client_pool.next_idx == (old(self).client_pool.next_idx + 1) % (old(
                self,
            ).client_pool.clients@.len() as int),
            r == old(self).client_pool.clients@[old(self).client_pool.next_idx as int],
    {
        self.client_pool.next()
    }

    /// The authentication client at its own pool's current rotation
    /// index; that pool is distinct from the request pool, which is
    /// left untouched.
    pub fn auth_client(&mut self) -> (r: reqwest::Client)
        requires
            old(self).wf(),
        ensures
            final(self).wf(),
            Self::same_but_pools(*final(self), *old(self)),
            final(self).client_pool == old(self).client_pool,
            final(self).auth_client_pool.clients@ == old(self).auth_client_pool.clients@,
            final(self).auth_client_pool.next_idx == (old(self).auth_client_pool.next_idx + 1) % (
            old(self).auth_client_pool.clients@.len() as int),
            r == old(self).auth_client_pool.clients@[old(self).auth_client_pool.next_idx as int],
    {
        self.auth_client_pool.next()
    }

    /// The evidence upload authentication key.
    pub fn arkose_har_upload_key(&self) -> (r: Option<&String>)
        ensures
            (r is Some) == (self.arkose_har_upload_key is Some),
            r matches Some(v) ==> v == self.arkose_har_upload_key.unwrap(),
    {
        self.arkose_har_upload_key.as_ref()
    }

    /// The captcha solver handle, uninterpreted by this layer.
    pub fn arkose_solver(&self) -> (r: Option<&String>)
        ensures
            (r is Some) == (self.arkose_solver is Some),
            r matches Some(v) ==> v == self.arkose_solver.unwrap(),
    {
        self.arkose_solver.as_ref()
    }

    /// A copy of (freshness, path) of the evidence record of one type.
    pub fn arkose_har_path(&self, t: &ChallengeType) -> (r: (bool, String))
        ensures
            r.0 == self.har_registry.record(*t).state,
            r.1@ == self.har_registry.record(*t).path@,
    {
        self.har_registry.path_for(t)
    }

    /// The Turnstile configuration, if both keys were supplied.
    pub fn cf_turnstile(&self) -> (r: Option<&CfTurnstile>)
        ensures
            (r is Some) == (self.cf_turnstile is Some),
            r matches Some(v) ==> v == self.cf_turnstile.unwrap(),
    {
        self.cf_turnstile.as_ref()
    }

    /// The web UI api prefix.
    pub fn api_prefix(&self) -> (r: Option<&String>)
        ensures
            (r is Some) == (self.api_prefix is Some),
            r matches Some(v) ==> v == self.api_prefix.unwrap(),
    {
        self.api_prefix.as_ref()
    }

    /// The captcha endpoint URL.
    pub fn arkose_endpoint(&self) -> (r: Option<&String>)
        ensures
            (r is Some) == (self.arkose_endpoint is Some),
            r matches Some(v) ==> v == self.arkose_endpoint.unwrap(),
    {
        self.arkose_endpoint.as_ref()
    }

    /// The login auth key.
    pub fn auth_key(&self) -> (r: Option<&String>)
        ensures
            (r is Some) == (self.auth_key is Some),
            r matches Some(v) ==> v == self.auth_key.unwrap(),
    {
        self.auth_key.as_ref()
    }

    /// Readiness gate: true exactly when the preauth cache exists and
    /// holds at least one live credential at `now`.
    pub fn enable_preauth(&self, now: u64) -> (r: bool)
        requires
            self.wf(),
        ensures
            r == (self.preauth_cache matches Some(c) && c.has_live(now)),
    {
        match &self.preauth_cache {
            Some(c) => c.has_any(now),
            None => false,
        }
    }

    /// Record a preauth credential captured at `now`; a no-op while a
    /// live entry for the key exists, and on a context whose preauth
    /// front-end is disabled.
    pub fn push_preauth_cookie(&mut self, key: String, value: String, now: u64)
        requires
            old(self).wf(),
        ensures
            final(self).wf(),
            final(self).client_pool == old(self).client_pool,
            final(self).auth_client_pool == old(self).auth_client_pool,
            final(self).har_registry == old(self).har_registry,
            final(self).cf_turnstile == old(self).cf_turnstile,
            final(self).api_prefix == old(self).api_prefix,
            final(self).arkose_endpoint == old(self).arkose_endpoint,
            final(self).auth_key == old(self).auth_key,
            final(self).arkose_solver == old(self).arkose_solver,
            final(self).arkose_har_upload_key == old(self).arkose_har_upload_key,
            old(self).preauth_cache is None ==> *final(self) == *old(self),
            (final(self).preauth_cache is Some) == (old(self).preauth_cache is Some),
            old(self).preauth_cache matches Some(c) ==> (final(self).preauth_cache matches Some(c2)
                && c2.capacity == c.capacity && c2.ttl_secs == c.ttl_secs && c2.entries@
                == crate::preauth::spec_push_entries(
                c.entries@,
                (crate::preauth::PreauthEntry { key: key, value: value, inserted_at: now }),
                c.capacity,
                key@,
                c.ttl_secs,
                now,
            ) && (c.lookup(key@, now) matches Some(v0) ==> c2.lookup(key@, now) == Some(v0)) && (
            !c.has_live_key(key@, now) ==> c2.lookup(key@, now) == Some(value@))),
    {
        match &mut self.preauth_cache {
            Some(c) => c.push(key, value, now),
            None => (),
        }
    }

    /// A copy of one live preauth credential chosen at random, or
    /// nothing when the cache is disabled or holds no live entry.
    pub fn pop_preauth_cookie(&self, now: u64) -> (r: Option<String>)
        requires
            self.wf(),
        ensures
            self.preauth_cache is None ==> r is None,
            self.preauth_cache matches Some(c) ==> ((r is Some) == c.has_live(now) && (r matches
                Some(v) ==> c.has_live_value(v@, now))),
    {
        match &self.preauth_cache {
            Some(c) => c.pop(now),
            None => None,
        }
    }
}

/// A write-once cell for the context: the injection seam behind the
/// process-wide singleton. Initialization succeeds at most once; every
/// later attempt leaves the published context untouched.
pub struct ContextCell {
    pub inner: Option<Context>,
}

impl ContextCell {
    pub fn empty() -> (r: ContextCell)
        ensures
            r.inner is None,
    {
        ContextCell { inner: None }
    }

    /// Publish a context. Reports false — and changes nothing — when a
    /// context was already published: a second initialization never
    /// replaces the first.
    pub fn init(&mut self, ctx: Context) -> (r: bool)
        ensures
            old(self).inner is None ==> (final(self).inner == Some(ctx) && r),
            old(self).inner is Some ==> (*final(self) == *old(self) && !r),
    {
        match &self.inner {
            Some(_) => false,
            None => {
                self.inner = Some(ctx);
                true
            },
        }
    }

    pub fn is_set(&self) -> (r: bool)
        ensures
            r == (self.inner is Some),
    {
        self.inner.is_some()
    }

    /// The published context.
    pub fn get(&self) -> (r: &Context)
        requires
            self.inner is Some,
        ensures
            *r == self.inner.unwrap(),
    {
        self.inner.as_ref().unwrap()
    }

    /// The published context, publishing `fallback` first if none was:
    /// every caller observes the context published first.
    pub fn get_instance(&mut self, fallback: Context) -> (r: &Context)
        ensures
            old(self).inner is Some ==> (*final(self) == *old(self) && *r == old(
                self,
            ).inner.unwrap()),
            old(self).inner is None ==> (final(self).inner == Some(fallback) && *r == fallback),
    {
        if self.inner.is_none() {
            self.inner = Some(fallback);
        }
        self.inner.as_ref().unwrap()
    }
}

} // verus!
