//! The server's settings, and what is set up from them before it listens.

use crate::bucket::UNITS;
use crate::limiter::{SlotModel, Strategy, TokenBucketLimitContext, UnsupportedStrategy};
use crate::route::BODY_LIMIT;
use crate::table::{lines, route_table, table_lines, Route};
use crate::text::opt_text;
use vstd::prelude::*;

verus! {

/// The settings that the server is started with.
#[derive(Debug)]
pub struct ContextArgs {
    /// The address to listen on.
    pub bind: Option<String>,
    /// Threads of the runtime.
    pub workers: usize,
    /// Most requests that are in flight at once.
    pub concurrent_limit: usize,
    /// Seconds that a request may take.
    pub timeout: usize,
    /// Seconds that connecting to the upstream may take.
    pub connect_timeout: usize,
    /// Seconds between keep-alive probes.
    pub tcp_keepalive: usize,
    /// The file of the TLS certificate.
    pub tls_cert: Option<String>,
    /// The file of the TLS key.
    pub tls_key: Option<String>,
    /// The pre-shared key that guards the login endpoint.
    pub auth_key: Option<String>,
    /// The upstream client keeps cookies.
    pub cookie_store: bool,
    /// The upstream is never called directly.
    pub disable_direct: bool,
    /// The address that calls to the upstream go out from.
    pub interface: Option<String>,
    /// The IPv6 subnet that calls to the upstream go out from, and the
    /// length of its prefix.
    pub ipv6_subnet: Option<(String, u8)>,
    /// The service that solves the puzzle of the login.
    pub arkose_solver: Option<String>,
    /// The pages of the companion site are switched off.
    pub disable_ui: bool,
    /// The site key of the challenge on the login form.
    pub cf_site_key: Option<String>,
    /// Where the pages fetch the puzzle from.
    pub arkose_endpoint: Option<String>,
    /// The limiter is switched on.
    pub tb_enable: bool,
    /// The name of the limiter's strategy.
    pub tb_store_strategy: String,
    /// Where the shared store of the limiter is reached.
    pub tb_redis_url: String,
    /// Whole tokens that a bucket holds.
    pub tb_capacity: u32,
    /// Tokens added to a bucket per second.
    pub tb_fill_rate: u32,
    /// Seconds without a request after which a client is forgotten.
    pub tb_expired: u32,
    /// The address that the intercepting proxy listens on.
    pub pbind: Option<String>,
    /// The proxy through which the intercepting proxy reaches the upstream.
    pub pupstream: Option<String>,
    /// The file of the certificate authority's certificate.
    pub pcert: String,
    /// The file of the certificate authority's key.
    pub pkey: String,
}

/// How the server listens.
#[derive(Debug)]
pub struct Listener {
    /// The address.
    pub bind: String,
    /// The files of certificate and key where TLS is spoken.
    pub tls: Option<(String, String)>,
}

/// How the intercepting proxy is started.
#[derive(Debug)]
pub struct PreauthPlan {
    /// The address to listen on.
    pub bind: String,
    /// The proxy through which the upstream is reached.
    pub upstream: Option<String>,
    /// The file of the certificate authority's certificate.
    pub cert: String,
    /// The file of the certificate authority's key.
    pub key: String,
}

/// Everything that is set up before the server listens.
pub struct ServePlan {
    /// Threads of the runtime.
    pub workers: usize,
    /// Most requests that are in flight at once.
    pub concurrent_limit: usize,
    /// Seconds after which a request is given up with a timeout.
    pub timeout_secs: u64,
    /// Seconds for every keep-alive setting of the listener.
    pub keepalive_secs: u64,
    /// Most bytes of a request body.
    pub body_limit: usize,
    /// The limiter before the guarded routes.
    pub limiter: TokenBucketLimitContext,
    /// Seconds between two sweeps of the limiter: its expiry, and one second
    /// where that is none.
    pub sweep_secs: u64,
    /// How the server listens.
    pub listener: Listener,
    /// The intercepting proxy, where one is asked for.
    pub preauth: Option<PreauthPlan>,
    /// The table of routes.
    pub routes: Vec<Route>,
}

impl ContextArgs {
    /// The limiter that the settings ask for, fresh.
    pub open spec fn asks_for(self, strategy: Strategy, limiter: TokenBucketLimitContext) -> bool {
        match strategy {
            Strategy::Mem => limiter matches TokenBucketLimitContext::Mem(table) && table@.wf()
                && table@.enabled == self.tb_enable && table@.capacity == self.tb_capacity
                && table@.fill_rate == self.tb_fill_rate && table@.expiry == self.tb_expired
                * UNITS && table@.slots == Map::<Seq<char>, SlotModel>::empty(),
            Strategy::Redis => limiter matches TokenBucketLimitContext::Redis(shared)
                && shared.enabled == self.tb_enable && shared.capacity == self.tb_capacity
                && shared.fill_rate == self.tb_fill_rate && shared.expired == self.tb_expired
                && shared.url@ == self.tb_redis_url@,
        }
    }

    /// TLS is spoken where both files are named.
    pub open spec fn tls(self) -> Option<(Seq<char>, Seq<char>)> {
        match (self.tls_cert, self.tls_key) {
            (Some(cert), Some(key)) => Some((cert@, key@)),
            _ => None,
        }
    }

    /// What the settings ask to be set up.
    pub open spec fn planned(self, strategy: Strategy, plan: ServePlan) -> bool {
        &&& plan.workers == self.workers
        &&& plan.concurrent_limit == self.concurrent_limit
        &&& plan.timeout_secs == self.timeout
        &&& plan.keepalive_secs == self.tcp_keepalive
        &&& plan.body_limit == BODY_LIMIT
        &&& self.asks_for(strategy, plan.limiter)
        &&& plan.sweep_secs == (if self.tb_expired == 0 {
            1
        } else {
            self.tb_expired as int
        })
        &&& self.bind matches Some(bind) && plan.listener.bind@ == bind@
        &&& (match plan.listener.tls {
            Some((cert, key)) => Some((cert@, key@)),
            None => None,
        }) == self.tls()
        &&& (match self.pbind {
            Some(pbind) => plan.preauth matches Some(p) && p.bind@ == pbind@ && opt_text(
                p.upstream,
            ) == opt_text(self.pupstream) && p.cert@ == self.pcert@ && p.key@ == self.pkey@,
            None => plan.preauth is None,
        })
        &&& lines(plan.routes@) == table_lines(self.disable_ui, self.auth_key is Some)
    }
}

/// The server, holding its settings.
pub struct Serve(ContextArgs);

impl View for Serve {
    type V = ContextArgs;

    closed spec fn view(&self) -> ContextArgs {
        self.0
    }
}

fn copy_opt(text: &Option<String>) -> (copy: Option<String>)
    ensures
        opt_text(copy) == opt_text(*text),
{
    match text {
        Some(t) => Some(t.clone()),
        None => None,
    }
}

impl Serve {
    /// A server with the given settings.
    pub fn new(inner: ContextArgs) -> (serve: Self)
        ensures
            serve@ == inner,
    {
        Self(inner)
    }

    /// The settings.
    pub fn args(&self) -> (inner: &ContextArgs)
        ensures
            *inner == self@,
    {
        &self.0
    }

    /// Works out what to set up: the limiter of the named strategy, the
    /// limits and timeouts, the listener, the intercepting proxy where its
    /// address is given, and the table of routes. An unknown strategy name
    /// fails before anything is set up. The address to listen on must be
    /// given.
    pub fn plan(&self) -> (planned: Result<ServePlan, UnsupportedStrategy>)
        requires
            self@.bind is Some,
        ensures
            match Strategy::named(self@.tb_store_strategy@) {
                Some(strategy) => planned matches Ok(plan) && self@.planned(strategy, plan),
                None => planned matches Err(e) && e.name@ == self@.tb_store_strategy@,
            },
    {
        let args = &self.0;
        let strategy = match Strategy::from_str(args.tb_store_strategy.as_str()) {
            Ok(strategy) => strategy,
            Err(refused) => {
                return Err(refused);
            },
        };
        let limiter = TokenBucketLimitContext::new(
            strategy,
            args.tb_enable,
            args.tb_capacity,
            args.tb_fill_rate,
            args.tb_expired,
            args.tb_redis_url.clone(),
        );
        let bind = match &args.bind {
            Some(bind) => bind.clone(),
            None => String::new(),
        };
        let tls = match (&args.tls_cert, &args.tls_key) {
            (Some(cert), Some(key)) => Some((cert.clone(), key.clone())),
            _ => None,
        };
        let preauth = match &args.pbind {
            Some(pbind) => Some(
                PreauthPlan {
                    bind: pbind.clone(),
                    upstream: copy_opt(&args.pupstream),
                    cert: args.pcert.clone(),
                    key: args.pkey.clone(),
                },
            ),
            None => None,
        };
        Ok(
            ServePlan {
                workers: args.workers,
                concurrent_limit: args.concurrent_limit,
                timeout_secs: args.timeout as u64,
                keepalive_secs: args.tcp_keepalive as u64,
                body_limit: BODY_LIMIT,
                limiter,
                sweep_secs: if args.tb_expired == 0 {
                    1
                } else {
                    args.tb_expired as u64
                },
                listener: Listener { bind, tls },
                preauth,
                routes: route_table(args.disable_ui, args.auth_key.is_some()),
            },
        )
    }
}

} // verus!
