//! Resolving an IP address to a location: cache first, then the primary
//! provider where one is configured, then the fallback provider.
//!
//! The service makes no request itself. A lookup is a short exchange: the
//! caller reports what happened ([`LookupEvent`]) and is told what to do next
//! ([`LookupStep`]), until the lookup is done.

use vstd::prelude::*;
use vstd::string::*;
use crate::cache::{lookup, put_result, sweep_of, CacheStore, CachedLocation};
use crate::cache::{lemma_put_keeps_the_rest, lemma_ttl_expiry, NANOS_PER_SECOND};
use crate::error::{ApiError, ApiErrorView};
use crate::location::{default_location_view, lemma_default_has_country, LocationView};
pub use crate::location::LocationInfo;
use crate::providers::{fallback_outcome, or_default, primary_outcome, FallbackApiResponse};
use crate::providers::MaxMindResponse;
use crate::providers::{fetch_from_fallback_service, fetch_from_maxmind, ProviderReply};
use crate::headers::{header_value, HeaderMap};
use crate::text::{all_whitespace, before_first, concat2, concat3, first_segment, is_blank};
use crate::text::{lemma_blank_is_all_whitespace, same_text, trim, trimmed};

verus! {

/// The address that a health check resolves.
pub const HEALTH_CHECK_IP: &'static str = "8.8.8.8";

/// How the service is set up.
#[derive(Debug)]
pub struct GeolocationConfig {
    /// Credential for the primary provider. Empty, `demo_key` and
    /// `your_maxmind_api_key` all mean that there is none.
    pub api_key: String,
    /// Address of the primary provider, without the IP address at its end.
    pub service_url: String,
    /// Time allowed for one request to a provider.
    pub timeout_seconds: u64,
    /// How long a resolved location is served from the cache.
    pub cache_ttl_seconds: u64,
    /// How many locations the cache holds.
    pub max_cache_entries: usize,
}

impl Clone for GeolocationConfig {
    fn clone(&self) -> (copy: Self)
        ensures
            copy.api_key@ == self.api_key@,
            copy.service_url@ == self.service_url@,
            copy.timeout_seconds == self.timeout_seconds,
            copy.cache_ttl_seconds == self.cache_ttl_seconds,
            copy.max_cache_entries == self.max_cache_entries,
    {
        GeolocationConfig {
            api_key: self.api_key.clone(),
            service_url: self.service_url.clone(),
            timeout_seconds: self.timeout_seconds,
            cache_ttl_seconds: self.cache_ttl_seconds,
            max_cache_entries: self.max_cache_entries,
        }
    }
}

impl Default for GeolocationConfig {
    fn default() -> (config: Self)
        ensures
            config.api_key@.len() == 0,
            config.service_url@ == "https://api.maxmind.com/geoip/v2.1/city"@,
            config.timeout_seconds == 5,
            config.cache_ttl_seconds == 3600,
            config.max_cache_entries == 10000,
    {
        GeolocationConfig {
            api_key: String::new(),
            service_url: String::from_str("https://api.maxmind.com/geoip/v2.1/city"),
            timeout_seconds: 5,
            cache_ttl_seconds: 3600,
            max_cache_entries: 10000,
        }
    }
}

/// A request that the caller is to make.
#[derive(Debug, PartialEq, Eq)]
pub struct ProviderRequest {
    pub url: String,
    /// User name for basic authentication, with an empty password; `None`
    /// for a request without credentials.
    pub api_key: Option<String>,
    pub timeout_seconds: u64,
}

/// The mathematical content of a [`ProviderRequest`].
pub ghost struct RequestView {
    pub url: Seq<char>,
    pub api_key: Option<Seq<char>>,
    pub timeout_seconds: u64,
}

impl View for ProviderRequest {
    type V = RequestView;

    open spec fn view(&self) -> RequestView {
        RequestView {
            url: self.url@,
            api_key: self.api_key.deep_view(),
            timeout_seconds: self.timeout_seconds,
        }
    }
}

/// What the caller reports to the service in the course of a lookup.
#[derive(Debug)]
pub enum LookupEvent {
    /// A lookup begins.
    Started,
    /// The primary provider replied to the request it was sent.
    PrimaryReplied(ProviderReply<MaxMindResponse>),
    /// The fallback provider replied to the request it was sent.
    FallbackReplied(ProviderReply<FallbackApiResponse>),
}

/// How a lookup ended.
#[derive(Debug, PartialEq, Eq)]
pub enum LookupOutcome {
    /// The address was refused: it is empty or blank.
    Rejected(ApiError),
    /// The address was resolved, from the cache or by a provider.
    Resolved(LocationInfo),
    /// No provider could be reached. The caller still gets a record, the
    /// default one, and `error` says what went wrong with the last provider.
    Unavailable { location: LocationInfo, error: ApiError },
}

/// The mathematical content of a [`LookupOutcome`].
pub ghost enum OutcomeView {
    Rejected(ApiErrorView),
    Resolved(LocationView),
    Unavailable { location: LocationView, error: ApiErrorView },
}

impl View for LookupOutcome {
    type V = OutcomeView;

    open spec fn view(&self) -> OutcomeView {
        match self {
            LookupOutcome::Rejected(error) => OutcomeView::Rejected(error@),
            LookupOutcome::Resolved(location) => OutcomeView::Resolved(location@),
            LookupOutcome::Unavailable { location, error } => OutcomeView::Unavailable {
                location: location@,
                error: error@,
            },
        }
    }
}

impl OutcomeView {
    /// What the one who asked for the location gets: a record, unless the
    /// address was refused.
    pub open spec fn result(self) -> Result<LocationView, ApiErrorView> {
        match self {
            OutcomeView::Rejected(error) => Err(error),
            OutcomeView::Resolved(location) => Ok(location),
            OutcomeView::Unavailable { location, .. } => Ok(location),
        }
    }

    /// What a health check makes of the outcome: the service is unhealthy
    /// when the lookup did not end with a resolved address.
    pub open spec fn health(self) -> Option<ApiErrorView> {
        match self {
            OutcomeView::Rejected(error) => Some(error),
            OutcomeView::Resolved(_) => None,
            OutcomeView::Unavailable { error, .. } => Some(error),
        }
    }
}

impl LookupOutcome {
    /// What the one who asked for the location gets.
    pub fn into_result(self) -> (result: Result<LocationInfo, ApiError>)
        ensures
            crate::providers::outcome_view(result) == self@.result(),
    {
        match self {
            LookupOutcome::Rejected(error) => Err(error),
            LookupOutcome::Resolved(location) => Ok(location),
            LookupOutcome::Unavailable { location, .. } => Ok(location),
        }
    }

    /// What a health check makes of the outcome.
    pub fn into_health(self) -> (health: Result<(), ApiError>)
        ensures
            match health {
                Ok(_) => self@.health() is None,
                Err(error) => self@.health() == Some(error@),
            },
    {
        match self {
            LookupOutcome::Rejected(error) => Err(error),
            LookupOutcome::Resolved(_) => Ok(()),
            LookupOutcome::Unavailable { error, .. } => Err(error),
        }
    }
}

/// What the caller is to do next.
#[derive(Debug, PartialEq, Eq)]
pub enum LookupStep {
    /// Send the request to the primary provider and report its reply.
    AskPrimary(ProviderRequest),
    /// Send the request to the fallback provider and report its reply.
    AskFallback(ProviderRequest),
    /// Nothing more: the lookup has ended.
    Done(LookupOutcome),
}

/// The mathematical content of a [`LookupStep`].
pub ghost enum StepView {
    AskPrimary(RequestView),
    AskFallback(RequestView),
    Done(OutcomeView),
}

impl View for LookupStep {
    type V = StepView;

    open spec fn view(&self) -> StepView {
        match self {
            LookupStep::AskPrimary(request) => StepView::AskPrimary(request@),
            LookupStep::AskFallback(request) => StepView::AskFallback(request@),
            LookupStep::Done(outcome) => StepView::Done(outcome@),
        }
    }
}

/// Whether a credential stands for a real one.
pub open spec fn primary_configured(api_key: Seq<char>) -> bool {
    api_key.len() > 0 && api_key != "demo_key"@ && api_key != "your_maxmind_api_key"@
}

/// The request to the primary provider for an address.
pub open spec fn primary_request(config: GeolocationConfig, ip: Seq<char>) -> RequestView {
    RequestView {
        url: config.service_url@ + "/"@ + ip,
        api_key: Some(config.api_key@),
        timeout_seconds: config.timeout_seconds,
    }
}

/// The request to the fallback provider for an address.
pub open spec fn fallback_request(config: GeolocationConfig, ip: Seq<char>) -> RequestView {
    RequestView {
        url: "http://ip-api.com/json/"@ + ip,
        api_key: None,
        timeout_seconds: config.timeout_seconds,
    }
}

/// The provider to ask first: the primary one where it is configured, else
/// the fallback.
pub open spec fn first_request(config: GeolocationConfig, ip: Seq<char>) -> StepView {
    if primary_configured(config.api_key@) {
        StepView::AskPrimary(primary_request(config, ip))
    } else {
        StepView::AskFallback(fallback_request(config, ip))
    }
}

/// The error that refuses an empty or blank address.
pub open spec fn missing_address() -> ApiErrorView {
    ApiErrorView::BadRequest { message: "IP address is required"@ }
}

/// The step that follows an event.
///
/// At the start a blank address is refused and a cached one is answered
/// from the cache; otherwise the first provider is asked. A record from the
/// primary provider ends the lookup, any failure of it leads on to the
/// fallback. The fallback's reply always ends the lookup: with its record,
/// or with the default record and the error where it could not be reached.
pub open spec fn next_step(
    config: GeolocationConfig,
    cache: Map<Seq<char>, CachedLocation>,
    ip: Seq<char>,
    event: LookupEvent,
    now: u64,
) -> StepView {
    match event {
        LookupEvent::Started => if is_blank(ip) {
            StepView::Done(OutcomeView::Rejected(missing_address()))
        } else {
            match lookup(cache, ip, now, config.cache_ttl_seconds) {
                Some(location) => StepView::Done(OutcomeView::Resolved(location)),
                None => first_request(config, ip),
            }
        },
        LookupEvent::PrimaryReplied(reply) => match primary_outcome(reply) {
            Ok(location) => StepView::Done(OutcomeView::Resolved(location)),
            Err(_) => StepView::AskFallback(fallback_request(config, ip)),
        },
        LookupEvent::FallbackReplied(reply) => match fallback_outcome(reply) {
            Ok(location) => StepView::Done(OutcomeView::Resolved(location)),
            Err(error) => StepView::Done(
                OutcomeView::Unavailable { location: default_location_view(), error },
            ),
        },
    }
}

/// The record that an event brings from a provider, if it brings one.
pub open spec fn resolved_by(event: LookupEvent) -> Option<LocationView> {
    match event {
        LookupEvent::Started => None,
        LookupEvent::PrimaryReplied(reply) => match primary_outcome(reply) {
            Ok(location) => Some(location),
            Err(_) => None,
        },
        LookupEvent::FallbackReplied(reply) => match fallback_outcome(reply) {
            Ok(location) => Some(location),
            Err(_) => None,
        },
    }
}

/// What an event does to the cache: a record that a provider brought is put
/// under the address; nothing else changes the cache.
pub open spec fn cache_after(
    config: GeolocationConfig,
    before: Map<Seq<char>, CachedLocation>,
    after: Map<Seq<char>, CachedLocation>,
    ip: Seq<char>,
    event: LookupEvent,
    now: u64,
) -> bool {
    match resolved_by(event) {
        Some(record) => put_result(
            before,
            after,
            ip,
            record,
            now,
            config.cache_ttl_seconds,
            config.max_cache_entries,
        ),
        None => after == before,
    }
}

/// The record that a step hands out, if it ends the lookup with one.
pub open spec fn record_of(step: StepView) -> Option<LocationView> {
    match step {
        StepView::Done(OutcomeView::Resolved(location)) => Some(location),
        StepView::Done(OutcomeView::Unavailable { location, .. }) => Some(location),
        _ => None,
    }
}

/// Every cached record names a country.
pub open spec fn all_name_a_country(cache: Map<Seq<char>, CachedLocation>) -> bool {
    forall|key: Seq<char>| cache.dom().contains(key) ==> (#[trigger] cache[key]).location.has_country()
}

/// A record that ends a lookup names a country, whatever the providers
/// replied, as long as every cached record does.
pub proof fn lemma_record_names_a_country(
    config: GeolocationConfig,
    cache: Map<Seq<char>, CachedLocation>,
    ip: Seq<char>,
    event: LookupEvent,
    now: u64,
)
    requires
        all_name_a_country(cache),
    ensures
        record_of(next_step(config, cache, ip, event, now)) matches Some(location)
            ==> location.has_country(),
        next_step(config, cache, ip, event, now) matches StepView::Done(outcome) ==> (outcome.result()
            is Err <==> event is Started && is_blank(ip)),
{
    lemma_default_has_country();
}

/// Validation: a lookup of an address that is empty or white space only is
/// refused as a bad request when it starts, and no other lookup is ever
/// refused.
pub proof fn lemma_blank_address_is_refused(
    config: GeolocationConfig,
    cache: Map<Seq<char>, CachedLocation>,
    ip: Seq<char>,
    event: LookupEvent,
    now: u64,
)
    ensures
        all_whitespace(ip) ==> next_step(config, cache, ip, LookupEvent::Started, now)
            == StepView::Done(OutcomeView::Rejected(missing_address())),
        next_step(config, cache, ip, event, now) matches StepView::Done(OutcomeView::Rejected(_))
            ==> event is Started && all_whitespace(ip),
{
    lemma_blank_is_all_whitespace(ip);
}

/// The address of the health check is not blank, so a health check is never
/// refused.
pub proof fn lemma_health_check_ip_is_not_blank()
    ensures
        !is_blank(HEALTH_CHECK_IP@),
{
    reveal_strlit("8.8.8.8");
    lemma_blank_is_all_whitespace(HEALTH_CHECK_IP@);
    assert(HEALTH_CHECK_IP@[0] == '8');
}

/// Cache property: once a provider's record was cached for an address, a
/// lookup of that address that starts before the time to live has passed is
/// answered with that record, and no provider is asked.
pub proof fn lemma_second_lookup_hits(
    config: GeolocationConfig,
    before: Map<Seq<char>, CachedLocation>,
    after: Map<Seq<char>, CachedLocation>,
    ip: Seq<char>,
    event: LookupEvent,
    record: LocationView,
    now: u64,
    later: u64,
)
    requires
        !is_blank(ip),
        resolved_by(event) == Some(record),
        cache_after(config, before, after, ip, event, now),
        now <= later < now + config.cache_ttl_seconds * NANOS_PER_SECOND,
    ensures
        next_step(config, after, ip, LookupEvent::Started, later) == StepView::Done(
            OutcomeView::Resolved(record),
        ),
{
    lemma_ttl_expiry(
        before,
        after,
        ip,
        record,
        now,
        config.cache_ttl_seconds,
        config.max_cache_entries,
        later,
    );
}

/// Fallback on primary failure: when the primary provider fails, the
/// fallback is asked, and the record it brings ends the lookup. The primary
/// provider's error goes no further.
pub proof fn lemma_fallback_on_primary_failure(
    config: GeolocationConfig,
    cache: Map<Seq<char>, CachedLocation>,
    cache_later: Map<Seq<char>, CachedLocation>,
    ip: Seq<char>,
    primary_reply: ProviderReply<MaxMindResponse>,
    fallback_reply: ProviderReply<FallbackApiResponse>,
    record: LocationView,
    now: u64,
    later: u64,
)
    requires
        primary_outcome(primary_reply) is Err,
        fallback_outcome(fallback_reply) == Ok::<LocationView, ApiErrorView>(record),
    ensures
        next_step(config, cache, ip, LookupEvent::PrimaryReplied(primary_reply), now)
            == StepView::AskFallback(fallback_request(config, ip)),
        next_step(config, cache_later, ip, LookupEvent::FallbackReplied(fallback_reply), later)
            == StepView::Done(OutcomeView::Resolved(record)),
{
}

/// Primary skipped when unconfigured: with an empty or placeholder
/// credential the primary provider is never asked, and an address that is
/// neither blank nor cached goes straight to the fallback.
pub proof fn lemma_primary_skipped_when_unconfigured(
    config: GeolocationConfig,
    cache: Map<Seq<char>, CachedLocation>,
    ip: Seq<char>,
    now: u64,
)
    requires
        config.api_key@.len() == 0 || config.api_key@ == "demo_key"@ || config.api_key@
            == "your_maxmind_api_key"@,
    ensures
        !(next_step(config, cache, ip, LookupEvent::Started, now) is AskPrimary),
        !is_blank(ip) && lookup(cache, ip, now, config.cache_ttl_seconds) is None ==> next_step(
            config,
            cache,
            ip,
            LookupEvent::Started,
            now,
        ) == StepView::AskFallback(fallback_request(config, ip)),
{
}

/// A reply never leads back to the primary provider: no provider is asked
/// twice in one lookup.
pub proof fn lemma_no_retry(
    config: GeolocationConfig,
    cache: Map<Seq<char>, CachedLocation>,
    ip: Seq<char>,
    event: LookupEvent,
    now: u64,
)
    requires
        !(event is Started),
    ensures
        !(next_step(config, cache, ip, event, now) is AskPrimary),
        event is FallbackReplied ==> next_step(config, cache, ip, event, now) is Done,
{
}

/// The geolocation service: its configuration and its cache.
#[derive(Debug)]
pub struct GeolocationService {
    config: GeolocationConfig,
    cache: CacheStore,
}

impl GeolocationService {
    #[verifier::type_invariant]
    spec fn inv(self) -> bool {
        &&& self.cache.ttl() == self.config.cache_ttl_seconds
        &&& self.cache.capacity() == self.config.max_cache_entries
        &&& all_name_a_country(self.cache@)
    }

    /// How the service is set up.
    pub closed spec fn config(&self) -> GeolocationConfig {
        self.config
    }

    /// What the cache holds.
    pub closed spec fn cache(&self) -> Map<Seq<char>, CachedLocation> {
        self.cache@
    }

    /// A service with the given configuration and an empty cache.
    pub fn new(config: GeolocationConfig) -> (service: Self)
        ensures
            service.config() == config,
            service.cache() == Map::<Seq<char>, CachedLocation>::empty(),
    {
        let cache = CacheStore::new(config.cache_ttl_seconds, config.max_cache_entries);
        GeolocationService { config, cache }
    }

    /// Takes a lookup of `ip_address` one step further: given what happened
    /// at time `now`, says what to do next, and caches a record that a
    /// provider brought.
    ///
    /// A lookup begins with [`LookupEvent::Started`]. Whenever the step asks
    /// for a request, the caller sends it and reports the reply, until the
    /// step is [`LookupStep::Done`]. A record that ends a lookup always
    /// names a country.
    pub fn get_location(&mut self, ip_address: &str, event: LookupEvent, now: u64) -> (step:
        LookupStep)
        ensures
            final(self).config() == old(self).config(),
            step@ == next_step(old(self).config(), old(self).cache(), ip_address@, event, now),
            cache_after(
                old(self).config(),
                old(self).cache(),
                final(self).cache(),
                ip_address@,
                event,
                now,
            ),
            record_of(step@) matches Some(location) ==> location.has_country(),
    {
        proof {
            use_type_invariant(&*self);
            lemma_default_has_country();
        }
        match event {
            LookupEvent::Started => self.begin_lookup(ip_address, now),
            LookupEvent::PrimaryReplied(reply) => match fetch_from_maxmind(reply) {
                Ok(location) => {
                    self.cache_location(ip_address, &location, now);
                    LookupStep::Done(LookupOutcome::Resolved(location))
                },
                Err(_) => LookupStep::AskFallback(self.fallback_request(ip_address)),
            },
            LookupEvent::FallbackReplied(reply) => match fetch_from_fallback_service(reply) {
                Ok(location) => {
                    self.cache_location(ip_address, &location, now);
                    LookupStep::Done(LookupOutcome::Resolved(location))
                },
                Err(error) => LookupStep::Done(
                    LookupOutcome::Unavailable { location: LocationInfo::default_location(), error },
                ),
            },
        }
    }

    /// The first step of a lookup of `ip_address` at time `now`, which
    /// changes nothing: the same step as [`GeolocationService::get_location`]
    /// takes on [`LookupEvent::Started`]. Lookups may begin side by side.
    pub fn begin_lookup(&self, ip_address: &str, now: u64) -> (step: LookupStep)
        ensures
            step@ == next_step(self.config(), self.cache(), ip_address@, LookupEvent::Started, now),
            record_of(step@) matches Some(location) ==> location.has_country(),
    {
        if trim(ip_address).is_empty() {
            return LookupStep::Done(
                LookupOutcome::Rejected(
                    ApiError::BadRequest { message: String::from_str("IP address is required") },
                ),
            );
        }
        match self.get_from_cache(ip_address, now) {
            Some(location) => LookupStep::Done(LookupOutcome::Resolved(location)),
            None => self.fetch_from_api(ip_address),
        }
    }

    /// The cached record for an address, if a fresh one is held.
    pub fn get_from_cache(&self, ip_address: &str, now: u64) -> (hit: Option<LocationInfo>)
        ensures
            crate::location::location_option_view(hit) == lookup(
                self.cache(),
                ip_address@,
                now,
                self.config().cache_ttl_seconds,
            ),
            hit matches Some(location) ==> location@.has_country(),
    {
        proof {
            use_type_invariant(&*self);
        }
        self.cache.get(ip_address, now)
    }

    /// Puts a record into the cache under an address, with the time `now`.
    /// A record without a country gives way to the default record.
    pub fn cache_location(&mut self, ip_address: &str, location: &LocationInfo, now: u64)
        ensures
            final(self).config() == old(self).config(),
            put_result(
                old(self).cache(),
                final(self).cache(),
                ip_address@,
                or_default(location@),
                now,
                old(self).config().cache_ttl_seconds,
                old(self).config().max_cache_entries,
            ),
    {
        proof {
            use_type_invariant(&*self);
        }
        let mut cache = CacheStore::new(self.config.cache_ttl_seconds, self.config.max_cache_entries);
        proof {
            assert(all_name_a_country(cache@));
        }
        std::mem::swap(&mut cache, &mut self.cache);
        let ghost before = cache@;
        if location.has_country() {
            cache.put(ip_address, location, now);
        } else {
            cache.put(ip_address, &LocationInfo::default_location(), now);
        }
        proof {
            let after = cache@;
            assert forall|key: Seq<char>| after.dom().contains(key) implies (
            #[trigger] after[key]).location.has_country() by {
                if key != ip_address@ {
                    lemma_put_keeps_the_rest(
                        before,
                        after,
                        ip_address@,
                        or_default(location@),
                        now,
                        self.config.cache_ttl_seconds,
                        self.config.max_cache_entries,
                        key,
                    );
                }
            }
        }
        self.cache = cache;
    }

    /// The request to the first provider to ask for an address.
    pub fn fetch_from_api(&self, ip_address: &str) -> (step: LookupStep)
        ensures
            step@ == first_request(self.config(), ip_address@),
    {
        let api_key = self.config.api_key.as_str();
        if !api_key.is_empty() && !same_text(api_key, "demo_key") && !same_text(
            api_key,
            "your_maxmind_api_key",
        ) {
            LookupStep::AskPrimary(
                ProviderRequest {
                    url: concat3(self.config.service_url.as_str(), "/", ip_address),
                    api_key: Some(self.config.api_key.clone()),
                    timeout_seconds: self.config.timeout_seconds,
                },
            )
        } else {
            LookupStep::AskFallback(self.fallback_request(ip_address))
        }
    }

    fn fallback_request(&self, ip_address: &str) -> (request: ProviderRequest)
        ensures
            request@ == fallback_request(self.config(), ip_address@),
    {
        ProviderRequest {
            url: concat2("http://ip-api.com/json/", ip_address),
            api_key: None,
            timeout_seconds: self.config.timeout_seconds,
        }
    }

    /// Takes a health check one step further. A health check is a lookup of
    /// [`HEALTH_CHECK_IP`]; its outcome is judged by
    /// [`LookupOutcome::into_health`].
    pub fn health_check(&mut self, event: LookupEvent, now: u64) -> (step: LookupStep)
        ensures
            final(self).config() == old(self).config(),
            step@ == next_step(old(self).config(), old(self).cache(), HEALTH_CHECK_IP@, event, now),
            cache_after(
                old(self).config(),
                old(self).cache(),
                final(self).cache(),
                HEALTH_CHECK_IP@,
                event,
                now,
            ),
            !(step@ matches StepView::Done(OutcomeView::Rejected(_))),
            step@ matches StepView::Done(outcome) ==> (outcome.health() is Some <==> outcome
                is Unavailable),
    {
        proof {
            lemma_health_check_ip_is_not_blank();
        }
        self.get_location(HEALTH_CHECK_IP, event, now)
    }

    /// How many locations the cache holds, and how many of them are fresh
    /// at `now`.
    pub fn get_cache_stats(&self, now: u64) -> (counts: (usize, usize))
        ensures
            self.cache().dom().finite(),
            counts.0 == self.cache().len(),
            counts.1 == sweep_of(self.cache(), now, self.config().cache_ttl_seconds).len(),
    {
        proof {
            use_type_invariant(&*self);
        }
        self.cache.stats(now)
    }
}

/// The address that a header value holds: the value without the white space
/// around it, unless nothing is left or what is left is `unknown`.
pub open spec fn usable_address(value: Seq<char>) -> Option<Seq<char>> {
    let address = trimmed(value);
    if address.len() > 0 && address != "unknown"@ {
        Some(address)
    } else {
        None
    }
}

/// The address that the header with the given name holds.
pub open spec fn header_address(headers: Seq<(Seq<char>, Seq<char>)>, name: Seq<char>) -> Option<
    Seq<char>,
> {
    match header_value(headers, name) {
        Some(value) => usable_address(value),
        None => None,
    }
}

/// The address that `X-Forwarded-For` holds: the first of the addresses it
/// lists, which are separated by commas.
pub open spec fn forwarded_address(headers: Seq<(Seq<char>, Seq<char>)>) -> Option<Seq<char>> {
    match header_value(headers, "X-Forwarded-For"@) {
        Some(value) => usable_address(before_first(value, ',')),
        None => None,
    }
}

/// The address of the client that sent a request, by its headers:
/// `X-Forwarded-For` first, then `X-Real-IP`, `CF-Connecting-IP` and
/// `X-Client-IP`; a header that holds no usable address gives way to the next.
pub open spec fn client_ip(headers: Seq<(Seq<char>, Seq<char>)>) -> Option<Seq<char>> {
    if forwarded_address(headers) is Some {
        forwarded_address(headers)
    } else if header_address(headers, "X-Real-IP"@) is Some {
        header_address(headers, "X-Real-IP"@)
    } else if header_address(headers, "CF-Connecting-IP"@) is Some {
        header_address(headers, "CF-Connecting-IP"@)
    } else {
        header_address(headers, "X-Client-IP"@)
    }
}

fn usable(value: &str) -> (address: Option<String>)
    ensures
        address.deep_view() == usable_address(value@),
{
    let trimmed_ip = trim(value);
    if !trimmed_ip.is_empty() && !same_text(trimmed_ip, "unknown") {
        Some(String::from_str(trimmed_ip))
    } else {
        None
    }
}

fn address_in(headers: &HeaderMap, name: &str) -> (address: Option<String>)
    ensures
        address.deep_view() == header_address(headers@, name@),
{
    match headers.get_one(name) {
        Some(value) => usable(value),
        None => None,
    }
}

/// Finds the address of the client in the headers of its request, which may
/// have passed through proxies. `None` means that no header holds one.
pub fn extract_client_ip_from_headers(headers: &HeaderMap) -> (ip: Option<String>)
    ensures
        ip.deep_view() == client_ip(headers@),
{
    let forwarded = match headers.get_one("X-Forwarded-For") {
        Some(forwarded_for) => usable(first_segment(forwarded_for, ',')),
        None => None,
    };
    if forwarded.is_some() {
        return forwarded;
    }
    let real_ip = address_in(headers, "X-Real-IP");
    if real_ip.is_some() {
        return real_ip;
    }
    let cf_ip = address_in(headers, "CF-Connecting-IP");
    if cf_ip.is_some() {
        return cf_ip;
    }
    address_in(headers, "X-Client-IP")
}

} // verus!
