use vstd::prelude::*;

use crate::text::join2;

verus! {

broadcast use vstd::string::group_string_axioms;

/// How long fetched `admin-api` data is served from the cache.
pub const ADMIN_CACHE_TTL_MS: u64 = 90000;

/// How long one `admin-api` request may take before it counts as failed.
pub const ADMIN_REQUEST_TIMEOUT_MS: u64 = 2000;

/// A banner message as `admin-api`'s `GET /banners` returns it (only the rendered fields).
#[derive(Clone, Debug)]
pub struct Banner {
    pub severity: String,
    pub message: String,
}

impl View for Banner {
    type V = (Seq<char>, Seq<char>);

    open spec fn view(&self) -> (Seq<char>, Seq<char>) {
        (self.severity@, self.message@)
    }
}

/// A maintenance-mode record as `admin-api`'s `GET /maintenance-modes/active` returns it.
#[derive(Clone, Debug)]
pub struct MaintenanceMode {
    pub scope_type: String,
    pub scope_value: String,
    pub label: String,
    pub description: String,
    pub starts_at: String,
    pub ends_at: Option<String>,
}

/// An app-card-status record as `admin-api`'s `GET /app-card-statuses/active` returns it.
#[derive(Clone, Debug)]
pub struct AppCardStatus {
    pub scope_type: String,
    pub scope_value: String,
    pub label: String,
}

// ---------------------------------------------------------------------------
// A single-value cache with a time-to-live

/// A value and the time (in milliseconds on the caller's monotonic clock) it was fetched.
pub struct CacheEntry<T> {
    pub fetched_at_ms: u64,
    pub value: T,
}

/// Holds the most recent fetch of one kind of `admin-api` data for `ttl_ms` milliseconds.
pub struct TtlCache<T> {
    entry: Option<CacheEntry<T>>,
    ttl_ms: u64,
}

/// The abstract state of a cache: the stored (fetch time, value), if any, and the TTL.
pub struct CacheView<T> {
    pub entry: Option<(u64, T)>,
    pub ttl_ms: u64,
}

/// Time elapsed from `from` to `now`, zero when `now` is earlier (as `Instant` measures it).
pub open spec fn elapsed_ms(from: u64, now: u64) -> int {
    if now >= from {
        now - from
    } else {
        0
    }
}

/// What a cache in state `c` serves at time `now`: the stored value while it is younger
/// than the TTL, else nothing.
pub open spec fn cache_lookup<T>(c: CacheView<T>, now: u64) -> Option<T> {
    match c.entry {
        Some(e) => if elapsed_ms(e.0, now) < c.ttl_ms {
            Some(e.1)
        } else {
            None
        },
        None => None,
    }
}

impl<T> View for TtlCache<T> {
    type V = CacheView<T>;

    closed spec fn view(&self) -> CacheView<T> {
        CacheView {
            entry: match self.entry {
                Some(e) => Some((e.fetched_at_ms, e.value)),
                None => None,
            },
            ttl_ms: self.ttl_ms,
        }
    }
}

impl<T> TtlCache<T> {
    /// An empty cache whose entries live for `ttl_ms` milliseconds.
    pub fn new(ttl_ms: u64) -> (res: TtlCache<T>)
        ensures
            res@.entry is None,
            res@.ttl_ms == ttl_ms,
    {
        TtlCache { entry: None, ttl_ms }
    }

    /// The cached value, if one was stored less than the TTL before `now_ms`.
    pub fn cached(&self, now_ms: u64) -> (res: Option<&T>)
        ensures
            res matches Some(v) ==> cache_lookup(self@, now_ms) == Some(*v),
            res is None ==> cache_lookup(self@, now_ms) is None,
    {
        match &self.entry {
            Some(e) => {
                let elapsed = if now_ms >= e.fetched_at_ms {
                    now_ms - e.fetched_at_ms
                } else {
                    0
                };
                if elapsed < self.ttl_ms {
                    Some(&e.value)
                } else {
                    None
                }
            },
            None => None,
        }
    }

    /// Replaces the cached value with `value`, fetched at `now_ms`.
    pub fn store(&mut self, now_ms: u64, value: T)
        ensures
            final(self)@.entry == Some((now_ms, value)),
            final(self)@.ttl_ms == old(self)@.ttl_ms,
    {
        self.entry = Some(CacheEntry { fetched_at_ms: now_ms, value });
    }
}

impl<E> TtlCache<Vec<E>> {
    /// Ends a fetch that was not served from the cache: stores its answer as fetched at
    /// `now_ms` and hands that answer back. The answer is the decoded records when the
    /// request succeeded (`outcome` is `Some`), and no records on any failure, so a failed
    /// fetch is cached too and `admin-api` is not asked again until the entry expires.
    pub fn finish_fetch(&mut self, now_ms: u64, outcome: Option<Vec<E>>) -> (res: &Vec<E>)
        ensures
            final(self)@.entry == Some((now_ms, *res)),
            final(self)@.ttl_ms == old(self)@.ttl_ms,
            outcome matches Some(v) ==> *res == v,
            outcome is None ==> res@.len() == 0,
    {
        let records = records_or_empty(outcome);
        self.entry = Some(CacheEntry { fetched_at_ms: now_ms, value: records });
        let stored = self.entry.as_ref().unwrap();
        &stored.value
    }
}

/// A stored value is served back for exactly the TTL after it was stored.
pub proof fn lemma_cache_serves_stored_value_until_ttl<T>(ttl_ms: u64, stored_at: u64, value: T, now: u64)
    requires
        stored_at <= now,
    ensures
        cache_lookup(CacheView { entry: Some((stored_at, value)), ttl_ms }, now) == (if now - stored_at
            < ttl_ms {
            Some(value)
        } else {
            None
        }),
{
}

/// An empty cache serves nothing.
pub proof fn lemma_empty_cache_serves_nothing<T>(ttl_ms: u64, now: u64)
    ensures
        cache_lookup(CacheView::<T> { entry: None, ttl_ms }, now) is None,
{
}

// ---------------------------------------------------------------------------
// Deciding what one fetch does

/// The kinds of data fetched from `admin-api`.
#[derive(Clone, Copy, PartialEq, Eq, Structural, Debug)]
pub enum AdminResource {
    Banners,
    MaintenanceModes,
    AppCardStatuses,
}

pub open spec fn resource_path(r: AdminResource) -> Seq<char> {
    match r {
        AdminResource::Banners => "banners"@,
        AdminResource::MaintenanceModes => "maintenance-modes/active"@,
        AdminResource::AppCardStatuses => "app-card-statuses/active"@,
    }
}

pub open spec fn resource_kind(r: AdminResource) -> Seq<char> {
    match r {
        AdminResource::Banners => "banner"@,
        AdminResource::MaintenanceModes => "maintenance-mode"@,
        AdminResource::AppCardStatuses => "app-card-status"@,
    }
}

impl AdminResource {
    /// The endpoint path under the `admin-api` base URL.
    pub fn path(&self) -> (res: &'static str)
        ensures
            res@ == resource_path(*self),
    {
        match self {
            AdminResource::Banners => "banners",
            AdminResource::MaintenanceModes => "maintenance-modes/active",
            AdminResource::AppCardStatuses => "app-card-statuses/active",
        }
    }

    /// The label failures of this fetch are logged under.
    pub fn kind(&self) -> (res: &'static str)
        ensures
            res@ == resource_kind(*self),
    {
        match self {
            AdminResource::Banners => "banner",
            AdminResource::MaintenanceModes => "maintenance-mode",
            AdminResource::AppCardStatuses => "app-card-status",
        }
    }
}

/// The endpoint URL of `resource` under `base_url`.
pub open spec fn endpoint_url(base_url: Seq<char>, resource: AdminResource) -> Seq<char> {
    base_url + "/"@ + resource_path(resource)
}

/// The request URL for `endpoint` with one `scope` query pair per scope, in order, or `None`
/// when `endpoint` is not a valid URL.
pub uninterp spec fn scoped_url(endpoint: Seq<char>, scopes: Seq<Seq<char>>) -> Option<Seq<char>>;

pub open spec fn scope_views(scopes: Seq<&str>) -> Seq<Seq<char>> {
    scopes.map_values(|s: &str| s@)
}

/// `reqwest::Url::parse` of `endpoint`, then one `scope` pair per scope appended through
/// `Url::query_pairs_mut` (form-urlencoded), serialized back to text.
#[verifier::external_body]
fn scoped_request_url(endpoint: &str, scopes: &Vec<&str>) -> (res: Option<String>)
    ensures
        match res {
            Some(u) => scoped_url(endpoint@, scope_views(scopes@)) == Some(u@),
            None => scoped_url(endpoint@, scope_views(scopes@)) is None,
        },
{
    let mut url = reqwest::Url::parse(endpoint).ok()?;
    {
        let mut pairs = url.query_pairs_mut();
        for scope in scopes {
            pairs.append_pair("scope", scope);
        }
    }
    Some(url.into())
}

/// The `admin-api` request URL for `resource` under `base_url`, asking for `scopes`; `None`
/// when the base URL does not make a valid URL.
pub fn admin_request_url(base_url: &str, resource: AdminResource, scopes: &Vec<&str>) -> (res:
    Option<String>)
    ensures
        match res {
            Some(u) => scoped_url(endpoint_url(base_url@, resource), scope_views(scopes@)) == Some(
                u@,
            ),
            None => scoped_url(endpoint_url(base_url@, resource), scope_views(scopes@)) is None,
        },
{
    let with_slash = join2(base_url, "/");
    let endpoint = join2(with_slash.as_str(), resource.path());
    scoped_request_url(endpoint.as_str(), scopes)
}

/// What one fetch of `admin-api` data does.
pub enum FetchPlan {
    /// The client is disabled: answer with no records and make no request.
    Disabled,
    /// Answer with the cached records.
    Cached,
    /// The base URL does not make a valid request URL: answer with no records, cached by
    /// [`TtlCache::finish_fetch`] with no outcome.
    InvalidUrl,
    /// Request this URL, and hand what it returns (`None` on any failure) to
    /// [`TtlCache::finish_fetch`], which caches the answer.
    Request(String),
}

/// Decides a fetch for `scopes`: no base URL means disabled; a fresh cache entry is served as
/// is; otherwise the scoped endpoint URL is requested, if it is a valid URL.
pub fn plan_fetch<T>(
    base_url: Option<&str>,
    cache: &TtlCache<T>,
    now_ms: u64,
    resource: AdminResource,
    scopes: &Vec<&str>,
) -> (res: FetchPlan)
    ensures
        base_url is None ==> res is Disabled,
        base_url is Some && cache_lookup(cache@, now_ms) is Some ==> res is Cached,
        base_url is Some && cache_lookup(cache@, now_ms) is None ==> match scoped_url(
            endpoint_url(base_url->0@, resource),
            scope_views(scopes@),
        ) {
            Some(u) => res matches FetchPlan::Request(url) && url@ == u,
            None => res is InvalidUrl,
        },
{
    match base_url {
        None => FetchPlan::Disabled,
        Some(base) => {
            if cache.cached(now_ms).is_some() {
                FetchPlan::Cached
            } else {
                match admin_request_url(base, resource, scopes) {
                    Some(url) => FetchPlan::Request(url),
                    None => FetchPlan::InvalidUrl,
                }
            }
        },
    }
}

/// The answer of a fetch whose request completed: the decoded records on success, no records
/// on any failure (network error, timeout, non-success status, undecodable body).
pub fn records_or_empty<T>(outcome: Option<Vec<T>>) -> (res: Vec<T>)
    ensures
        outcome matches Some(v) ==> res == v,
        outcome is None ==> res@.len() == 0,
{
    match outcome {
        Some(v) => v,
        None => Vec::new(),
    }
}

} // verus!
