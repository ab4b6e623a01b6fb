//! The two rate limiters, keyed by client address and by principal, and the
//! gate of principal routes: authenticate first, then rate-limit by identity.

use crate::auth::{authorization, authorize_at, header_view, strip_bearer, AuthUser};
use crate::cooldown::{after, decision, elapsed, is_cooling, Admission, CooldownTable, Stamps};
use crate::token::unix_now;
use vstd::prelude::*;

verus! {

/// HTTP status of a request without valid credentials.
pub const UNAUTHORIZED: u16 = 401;

/// HTTP status of a rate-limited request.
pub const TOO_MANY_REQUESTS: u16 = 429;

/// Requests allowed per window, as reported in `X-RateLimit-Limit`.
pub const QUOTA_LIMIT: u64 = 1;

/// Cooldown of the address-gated routes, in milliseconds.
pub const ADDRESS_COOLDOWN_MS: u64 = 5000;

/// Cooldown of the principal-gated routes, in milliseconds.
pub const PRINCIPAL_COOLDOWN_MS: u64 = 3000;

/// Values of the `X-RateLimit-Limit`, `X-RateLimit-Remaining` and
/// `X-RateLimit-Reset` headers.
#[derive(Clone, Copy, Debug, PartialEq, Eq, Structural)]
pub struct QuotaHeaders {
    pub limit: u64,
    pub remaining: u64,
    pub reset_secs: u64,
}

/// A terminal "rate limited" response.
#[derive(Clone, Copy, Debug, PartialEq, Eq, Structural)]
pub struct Rejection {
    pub status: u16,
    /// Value of the `Retry-After` header, in seconds.
    pub retry_after_secs: u64,
    /// Quota headers, on principal-gated routes only.
    pub quota: Option<QuotaHeaders>,
}

/// What the address limiter does with a request.
#[derive(Clone, Copy, Debug, PartialEq, Eq, Structural)]
pub enum AddressGate {
    /// Hand the request on, response untouched.
    Forward,
    Reject(Rejection),
}

/// What the principal limiter does with a request.
#[derive(Clone, Copy, Debug, PartialEq, Eq, Structural)]
pub enum UserGate {
    /// No principal is attached: the request goes on ungated and unannotated.
    PassThrough,
    /// Hand the request on and add these headers to its response.
    Forward(QuotaHeaders),
    Reject(Rejection),
}

/// The address limiter's answer to a request from `addr` at `now`.
pub open spec fn address_gate(m: Stamps, addr: Seq<char>, now: u64, cooldown: u64) -> AddressGate {
    if is_cooling(m, addr, now, cooldown) {
        AddressGate::Reject(
            Rejection {
                status: TOO_MANY_REQUESTS,
                retry_after_secs: cooldown / 1000,
                quota: None,
            },
        )
    } else {
        AddressGate::Forward
    }
}

/// The quota headers of a principal-gated response: on success the reset is
/// always reported as zero.
pub open spec fn quota(reset_secs: u64) -> QuotaHeaders {
    QuotaHeaders { limit: QUOTA_LIMIT, remaining: 0, reset_secs }
}

/// The principal limiter's answer to a request by `id` at `now`: a rejection
/// reports the time left of the window, in whole seconds.
pub open spec fn user_gate(m: Stamps, id: Seq<char>, now: u64, cooldown: u64) -> UserGate {
    if is_cooling(m, id, now, cooldown) {
        let left = ((cooldown - elapsed(now, m[id])) / 1000) as u64;
        UserGate::Reject(
            Rejection { status: TOO_MANY_REQUESTS, retry_after_secs: left, quota: Some(quota(left)) },
        )
    } else {
        UserGate::Forward(quota(0))
    }
}

/// While the window opened by an admission at `t0` is open, every request for
/// that key, on either limiter, is turned away with 429 and leaves the table
/// as it was; so of requests racing for a fresh key, the one that reaches the
/// table first is the only one let through.
pub proof fn lemma_window_closed(m: Stamps, key: Seq<char>, t0: u64, t: u64, cooldown: u64)
    requires
        cooldown > 0,
        m.contains_key(key),
        m[key] == t0,
        t < t0 + cooldown,
    ensures
        is_cooling(m, key, t, cooldown),
        after(m, key, t, cooldown) == m,
        address_gate(m, key, t, cooldown) is Reject,
        user_gate(m, key, t, cooldown) is Reject,
{
}

/// The first request for a key the table has not seen is let through, and
/// the table then records its instant.
pub proof fn lemma_fresh_key_passes(m: Stamps, key: Seq<char>, t: u64, cooldown: u64)
    requires
        !m.contains_key(key),
    ensures
        address_gate(m, key, t, cooldown) == AddressGate::Forward,
        user_gate(m, key, t, cooldown) == UserGate::Forward(quota(0)),
        after(m, key, t, cooldown).contains_key(key),
        after(m, key, t, cooldown)[key] == t,
{
}

/// Admits at most one request per cooldown window from each client address.
pub struct RateLimitLayer {
    table: CooldownTable,
}

impl View for RateLimitLayer {
    type V = Stamps;

    closed spec fn view(&self) -> Stamps {
        self.table@
    }
}

impl RateLimitLayer {
    pub closed spec fn cooldown(&self) -> u64 {
        self.table.cooldown()
    }

    pub fn new(cooldown_ms: u64) -> (r: RateLimitLayer)
        ensures
            r@ == Map::<Seq<char>, u64>::empty(),
            r.cooldown() == cooldown_ms,
    {
        RateLimitLayer { table: CooldownTable::new(cooldown_ms) }
    }

    /// Gate a request from `addr` (the client's socket address as text)
    /// arriving at `now_ms`. A rejection tells the client to wait the whole
    /// cooldown.
    pub fn check(&mut self, addr: &str, now_ms: u64) -> (r: AddressGate)
        ensures
            r == address_gate(old(self)@, addr@, now_ms, old(self).cooldown()),
            final(self)@ == after(old(self)@, addr@, now_ms, old(self).cooldown()),
            final(self).cooldown() == old(self).cooldown(),
    {
        match self.table.request(addr, now_ms) {
            Admission::Admitted => AddressGate::Forward,
            Admission::Cooling { .. } => AddressGate::Reject(
                Rejection {
                    status: TOO_MANY_REQUESTS,
                    retry_after_secs: self.table.cooldown_ms() / 1000,
                    quota: None,
                },
            ),
        }
    }
}

/// Admits at most one request per cooldown window from each principal, and
/// reports the quota in response headers.
pub struct UserRateLimiterLayer {
    table: CooldownTable,
}

impl View for UserRateLimiterLayer {
    type V = Stamps;

    closed spec fn view(&self) -> Stamps {
        self.table@
    }
}

impl UserRateLimiterLayer {
    pub closed spec fn cooldown(&self) -> u64 {
        self.table.cooldown()
    }

    pub fn new(cooldown_ms: u64) -> (r: UserRateLimiterLayer)
        ensures
            r@ == Map::<Seq<char>, u64>::empty(),
            r.cooldown() == cooldown_ms,
    {
        UserRateLimiterLayer { table: CooldownTable::new(cooldown_ms) }
    }

    /// Gate a request at `now_ms` by the principal attached to it, if any.
    pub fn check(&mut self, user: Option<&AuthUser>, now_ms: u64) -> (r: UserGate)
        ensures
            final(self).cooldown() == old(self).cooldown(),
            match user {
                None => r == UserGate::PassThrough && final(self)@ == old(self)@,
                Some(u) => r == user_gate(old(self)@, u.user_id@, now_ms, old(self).cooldown())
                    && final(self)@ == after(old(self)@, u.user_id@, now_ms, old(self).cooldown()),
            },
    {
        let u: &AuthUser = match user {
            Some(u) => u,
            None => return UserGate::PassThrough,
        };
        let cooldown: u64 = self.table.cooldown_ms();
        match self.table.request(u.user_id.as_str(), now_ms) {
            Admission::Admitted => UserGate::Forward(
                QuotaHeaders { limit: QUOTA_LIMIT, remaining: 0, reset_secs: 0 },
            ),
            Admission::Cooling { elapsed_ms } => {
                let left: u64 = (cooldown - elapsed_ms) / 1000;
                UserGate::Reject(
                    Rejection {
                        status: TOO_MANY_REQUESTS,
                        retry_after_secs: left,
                        quota: Some(QuotaHeaders { limit: QUOTA_LIMIT, remaining: 0, reset_secs: left }),
                    },
                )
            },
        }
    }
}

/// What becomes of a request to a principal-gated route.
#[derive(Clone, Debug)]
pub enum RouteOutcome {
    /// 401: no usable credential. The principal limiter was not consulted.
    Unauthorized,
    /// 429 with these headers.
    Limited(Rejection),
    /// Run the handler for `user`, then add `quota` to its response.
    Proceed { user: AuthUser, quota: QuotaHeaders },
}

/// The outcome `r` and new limiter state `m2` of a request to a
/// principal-gated route with this header, whose token is judged at Unix time
/// `now`, reaching a limiter in state `m` at `now_ms`.
pub open spec fn routed(
    header: Option<Seq<char>>,
    secret: Seq<u8>,
    now: int,
    m: Stamps,
    cooldown: u64,
    now_ms: u64,
    r: RouteOutcome,
    m2: Stamps,
) -> bool {
    match authorization(header, secret, now) {
        None => r is Unauthorized && m2 == m,
        Some(id) => m2 == after(m, id, now_ms, cooldown) && match user_gate(m, id, now_ms, cooldown) {
            UserGate::Reject(j) => r == RouteOutcome::Limited(j),
            UserGate::Forward(q) => r matches RouteOutcome::Proceed { user, quota } && user.user_id@ == id
                && quota == q,
            UserGate::PassThrough => false,
        },
    }
}

/// Gate a request to a principal-gated route: resolve its `Authorization`
/// header at Unix time `now_secs`, then rate-limit the principal at
/// `now_ms`. A request that does not authenticate never reaches the limiter.
pub fn principal_route_at(
    header: Option<&str>,
    secret: &[u8],
    now_secs: u64,
    limiter: &mut UserRateLimiterLayer,
    now_ms: u64,
) -> (r: RouteOutcome)
    ensures
        final(limiter).cooldown() == old(limiter).cooldown(),
        routed(
            header_view(header),
            secret@,
            now_secs as int,
            old(limiter)@,
            old(limiter).cooldown(),
            now_ms,
            r,
            final(limiter)@,
        ),
{
    let user: AuthUser = match authorize_at(header, secret, now_secs) {
        Ok(u) => u,
        Err(_) => return RouteOutcome::Unauthorized,
    };
    match limiter.check(Some(&user), now_ms) {
        UserGate::Reject(j) => RouteOutcome::Limited(j),
        UserGate::Forward(q) => RouteOutcome::Proceed { user, quota: q },
        UserGate::PassThrough => RouteOutcome::Unauthorized,
    }
}

/// Gate a request to a principal-gated route, judging its token against the
/// current time. Without a header, or with one of another scheme, or with a
/// clock that reads before the epoch, the answer is 401 and the limiter is
/// left as it was.
pub fn principal_route(
    header: Option<&str>,
    secret: &[u8],
    limiter: &mut UserRateLimiterLayer,
    now_ms: u64,
) -> (r: RouteOutcome)
    ensures
        final(limiter).cooldown() == old(limiter).cooldown(),
        (r is Unauthorized && final(limiter)@ == old(limiter)@) || exists|now: int|
            0 <= now && #[trigger] routed(
                header_view(header),
                secret@,
                now,
                old(limiter)@,
                old(limiter).cooldown(),
                now_ms,
                r,
                final(limiter)@,
            ),
        (header matches Some(h) ==> strip_bearer(h@) is None) ==> r is Unauthorized && final(limiter)@
            == old(limiter)@,
{
    match unix_now() {
        Some(now) => principal_route_at(header, secret, now, limiter, now_ms),
        None => RouteOutcome::Unauthorized,
    }
}

} // verus!
