use common_lib::cache::NANOS_PER_SECOND;
use common_lib::error::ApiError;
use common_lib::geolocation::{
    extract_client_ip_from_headers, GeolocationConfig, GeolocationService, LookupEvent,
    LookupOutcome, LookupStep, ProviderRequest, HEALTH_CHECK_IP,
};
use common_lib::headers::HeaderMap;
use common_lib::location::LocationInfo;
use common_lib::providers::{
    convert_fallback_response, convert_maxmind_response, fetch_from_fallback_service,
    fetch_from_maxmind, find_local_name, find_name, FallbackApiResponse, LocalizedName, MaxMindCity,
    MaxMindCountry, MaxMindLocation, MaxMindResponse, MaxMindSubdivision, ProviderReply,
};

/// Degrees as the library holds them: in millionths.
fn degrees(value: f64) -> i64 {
    (value * 1_000_000.0).round() as i64
}

fn names(pairs: &[(&str, &str)]) -> Vec<LocalizedName> {
    pairs
        .iter()
        .map(|(language, name)| LocalizedName {
            language: language.to_string(),
            name: name.to_string(),
        })
        .collect()
}

fn berlin_from_primary() -> MaxMindResponse {
    MaxMindResponse {
        country: MaxMindCountry {
            iso_code: "DE".to_string(),
            names: names(&[("de", "Deutschland"), ("en", "Germany")]),
        },
        city: Some(MaxMindCity { names: names(&[("en", "Berlin")]) }),
        location: Some(MaxMindLocation {
            latitude: Some(degrees(52.52)),
            longitude: Some(degrees(13.405)),
            time_zone: Some("Europe/Berlin".to_string()),
        }),
        subdivisions: Some(vec![
            MaxMindSubdivision { names: names(&[("en", "Land Berlin")]) },
            MaxMindSubdivision { names: names(&[("en", "Second")]) },
        ]),
    }
}

fn berlin() -> LocationInfo {
    LocationInfo {
        country_code: "DE".to_string(),
        country_name: "Germany".to_string(),
        city: Some("Berlin".to_string()),
        region: Some("Land Berlin".to_string()),
        latitude: Some(52_520_000),
        longitude: Some(13_405_000),
        timezone: Some("Europe/Berlin".to_string()),
    }
}

fn paris_from_fallback(status: &str) -> FallbackApiResponse {
    FallbackApiResponse {
        status: status.to_string(),
        country: "France".to_string(),
        country_code: "FR".to_string(),
        region_name: "Ile-de-France".to_string(),
        city: "Paris".to_string(),
        lat: degrees(48.8566),
        lon: degrees(2.3522),
        timezone: "Europe/Paris".to_string(),
        message: None,
    }
}

fn paris() -> LocationInfo {
    LocationInfo {
        country_code: "FR".to_string(),
        country_name: "France".to_string(),
        city: Some("Paris".to_string()),
        region: Some("Ile-de-France".to_string()),
        latitude: Some(48_856_600),
        longitude: Some(2_352_200),
        timezone: Some("Europe/Paris".to_string()),
    }
}

fn default_record() -> LocationInfo {
    LocationInfo {
        country_code: "US".to_string(),
        country_name: "United States".to_string(),
        city: None,
        region: None,
        latitude: None,
        longitude: None,
        timezone: None,
    }
}

fn provider_error(message: &str) -> ApiError {
    ApiError::InternalServerError { message: message.to_string() }
}

fn config(api_key: &str) -> GeolocationConfig {
    GeolocationConfig {
        api_key: api_key.to_string(),
        service_url: "https://geo.example/city".to_string(),
        timeout_seconds: 7,
        cache_ttl_seconds: 60,
        max_cache_entries: 3,
    }
}

/// Stand-ins for the two providers that count how often they are asked.
struct Providers {
    primary: fn() -> ProviderReply<MaxMindResponse>,
    fallback: fn() -> ProviderReply<FallbackApiResponse>,
    primary_calls: usize,
    fallback_calls: usize,
}

impl Providers {
    fn new(
        primary: fn() -> ProviderReply<MaxMindResponse>,
        fallback: fn() -> ProviderReply<FallbackApiResponse>,
    ) -> Self {
        Providers { primary, fallback, primary_calls: 0, fallback_calls: 0 }
    }

    fn calls(&self) -> usize {
        self.primary_calls + self.fallback_calls
    }
}

fn primary_answers() -> ProviderReply<MaxMindResponse> {
    ProviderReply::Answered(berlin_from_primary())
}

fn primary_fails() -> ProviderReply<MaxMindResponse> {
    ProviderReply::TransportFailed { reason: "connection refused".to_string() }
}

fn fallback_answers() -> ProviderReply<FallbackApiResponse> {
    ProviderReply::Answered(paris_from_fallback("success"))
}

fn fallback_degrades() -> ProviderReply<FallbackApiResponse> {
    ProviderReply::Answered(FallbackApiResponse {
        status: "fail".to_string(),
        country: String::new(),
        country_code: String::new(),
        region_name: String::new(),
        city: String::new(),
        lat: 0,
        lon: 0,
        timezone: String::new(),
        message: Some("reserved range".to_string()),
    })
}

fn fallback_fails() -> ProviderReply<FallbackApiResponse> {
    ProviderReply::TransportFailed { reason: "timed out".to_string() }
}

/// Runs one lookup to its end, as the service's caller does.
fn run(
    service: &mut GeolocationService,
    ip: &str,
    now: u64,
    providers: &mut Providers,
) -> LookupOutcome {
    let mut step = service.get_location(ip, LookupEvent::Started, now);
    loop {
        step = match step {
            LookupStep::Done(outcome) => return outcome,
            LookupStep::AskPrimary(_) => {
                providers.primary_calls += 1;
                service.get_location(ip, LookupEvent::PrimaryReplied((providers.primary)()), now)
            }
            LookupStep::AskFallback(_) => {
                providers.fallback_calls += 1;
                service.get_location(ip, LookupEvent::FallbackReplied((providers.fallback)()), now)
            }
        };
    }
}

fn resolve(
    service: &mut GeolocationService,
    ip: &str,
    now: u64,
    providers: &mut Providers,
) -> Result<LocationInfo, ApiError> {
    run(service, ip, now, providers).into_result()
}

#[test]
fn test_extract_client_ip_from_headers() {
    let mut headers = HeaderMap::new();

    // Test X-Forwarded-For with single IP
    headers.add_raw("X-Forwarded-For", "192.168.1.1");
    assert_eq!(extract_client_ip_from_headers(&headers), Some("192.168.1.1".to_string()));

    // Test X-Forwarded-For with multiple IPs
    headers.replace_raw("X-Forwarded-For", "192.168.1.1, 10.0.0.1, 172.16.0.1");
    assert_eq!(extract_client_ip_from_headers(&headers), Some("192.168.1.1".to_string()));

    // Test X-Real-IP fallback
    headers.remove("X-Forwarded-For");
    headers.add_raw("X-Real-IP", "203.0.113.1");
    assert_eq!(extract_client_ip_from_headers(&headers), Some("203.0.113.1".to_string()));

    // Test no headers
    headers.remove("X-Real-IP");
    assert_eq!(extract_client_ip_from_headers(&headers), None);
}

#[test]
fn test_location_info_serialization() {
    let location = LocationInfo {
        country_code: "US".to_string(),
        country_name: "United States".to_string(),
        city: Some("New York".to_string()),
        region: Some("New York".to_string()),
        latitude: Some(degrees(40.7128)),
        longitude: Some(degrees(-74.006)),
        timezone: Some("America/New_York".to_string()),
    };

    let mut fields = serde_json::Map::new();
    fields.insert("country_code".to_string(), serde_json::Value::from(location.country_code.clone()));
    fields.insert("country_name".to_string(), serde_json::Value::from(location.country_name.clone()));
    fields.insert("city".to_string(), serde_json::Value::from(location.city.clone()));
    fields.insert("region".to_string(), serde_json::Value::from(location.region.clone()));
    fields.insert(
        "latitude".to_string(),
        serde_json::Value::from(location.latitude.map(|v| v as f64 / 1_000_000.0)),
    );
    fields.insert(
        "longitude".to_string(),
        serde_json::Value::from(location.longitude.map(|v| v as f64 / 1_000_000.0)),
    );
    fields.insert("timezone".to_string(), serde_json::Value::from(location.timezone.clone()));
    let json = serde_json::to_string(&serde_json::Value::Object(fields)).unwrap();

    let value: serde_json::Value = serde_json::from_str(&json).unwrap();
    let text = |name: &str| value[name].as_str().map(|s| s.to_string());
    let deserialized = LocationInfo {
        country_code: text("country_code").unwrap(),
        country_name: text("country_name").unwrap(),
        city: text("city"),
        region: text("region"),
        latitude: value["latitude"].as_f64().map(degrees),
        longitude: value["longitude"].as_f64().map(degrees),
        timezone: text("timezone"),
    };

    assert_eq!(location.country_code, deserialized.country_code);
    assert_eq!(location.city, deserialized.city);
    assert_eq!(location, deserialized);
    assert_eq!(location.latitude, Some(40_712_800));
    assert_eq!(location.longitude, Some(-74_006_000));
    assert!(location.coordinates_in_range());
}

#[test]
fn test_header_extraction_takes_first_forwarded_address() {
    let mut headers = HeaderMap::new();
    headers.add_raw("X-Forwarded-For", "1.2.3.4, 5.6.7.8");
    assert_eq!(extract_client_ip_from_headers(&headers), Some("1.2.3.4".to_string()));
}

#[test]
fn test_header_extraction_falls_back_to_real_ip() {
    let mut headers = HeaderMap::new();
    headers.add_raw("X-Real-IP", "9.9.9.9");
    assert_eq!(extract_client_ip_from_headers(&headers), Some("9.9.9.9".to_string()));
}

#[test]
fn test_header_extraction_without_relevant_headers() {
    let mut headers = HeaderMap::new();
    assert_eq!(extract_client_ip_from_headers(&headers), None);
    headers.add_raw("User-Agent", "curl");
    headers.add_raw("Forwarded", "for=1.2.3.4");
    assert_eq!(extract_client_ip_from_headers(&headers), None);
}

#[test]
fn test_header_extraction_priority_order() {
    let mut headers = HeaderMap::new();
    headers.add_raw("X-Client-IP", "4.4.4.4");
    assert_eq!(extract_client_ip_from_headers(&headers), Some("4.4.4.4".to_string()));
    headers.add_raw("CF-Connecting-IP", "3.3.3.3");
    assert_eq!(extract_client_ip_from_headers(&headers), Some("3.3.3.3".to_string()));
    headers.add_raw("X-Real-IP", "2.2.2.2");
    assert_eq!(extract_client_ip_from_headers(&headers), Some("2.2.2.2".to_string()));
    headers.add_raw("X-Forwarded-For", "1.1.1.1");
    assert_eq!(extract_client_ip_from_headers(&headers), Some("1.1.1.1".to_string()));
}

#[test]
fn test_header_extraction_skips_unknown_and_blank_values() {
    let mut headers = HeaderMap::new();
    headers.add_raw("X-Forwarded-For", "unknown, 5.6.7.8");
    headers.add_raw("X-Real-IP", "   ");
    headers.add_raw("CF-Connecting-IP", "");
    headers.add_raw("X-Client-IP", "\t 7.7.7.7 \n");
    assert_eq!(extract_client_ip_from_headers(&headers), Some("7.7.7.7".to_string()));

    let mut headers = HeaderMap::new();
    headers.add_raw("X-Forwarded-For", " , 5.6.7.8");
    assert_eq!(extract_client_ip_from_headers(&headers), None);

    let mut headers = HeaderMap::new();
    headers.add_raw("X-Real-IP", "unknown");
    assert_eq!(extract_client_ip_from_headers(&headers), None);
    headers.replace_raw("X-Real-IP", "Unknown");
    assert_eq!(extract_client_ip_from_headers(&headers), Some("Unknown".to_string()));
}

#[test]
fn test_header_names_ignore_case_and_first_line_wins() {
    let mut headers = HeaderMap::new();
    headers.add_raw("x-forwarded-for", " 1.2.3.4 ,5.6.7.8");
    headers.add_raw("X-FORWARDED-FOR", "8.8.8.8");
    assert_eq!(headers.get_one("X-Forwarded-For"), Some(" 1.2.3.4 ,5.6.7.8"));
    assert_eq!(extract_client_ip_from_headers(&headers), Some("1.2.3.4".to_string()));
    assert!(headers.replace_raw("X-Forwarded-For", "6.6.6.6"));
    assert_eq!(headers.get_one("x-forwarded-for"), Some("6.6.6.6"));
    assert!(!headers.replace_raw("X-Real-IP", "7.7.7.7"));
    headers.remove("x-FORWARDED-for");
    assert_eq!(headers.get_one("X-Forwarded-For"), None);
    assert_eq!(headers.get_one("X-Real-IP"), Some("7.7.7.7"));
}

#[test]
fn test_default_config() {
    let config = GeolocationConfig::default();
    assert_eq!(config.api_key, "");
    assert_eq!(config.service_url, "https://api.maxmind.com/geoip/v2.1/city");
    assert_eq!(config.timeout_seconds, 5);
    assert_eq!(config.cache_ttl_seconds, 3600);
    assert_eq!(config.max_cache_entries, 10000);
    let copy = config.clone();
    assert_eq!(copy.service_url, config.service_url);
    assert_eq!(copy.max_cache_entries, 10000);
}

#[test]
fn test_resolve_rejects_empty_and_blank_addresses() {
    let mut service = GeolocationService::new(config("real-key"));
    let mut providers = Providers::new(primary_answers, fallback_answers);
    let expected = ApiError::BadRequest { message: "IP address is required".to_string() };
    assert_eq!(resolve(&mut service, "", 0, &mut providers), Err(ApiError::BadRequest {
        message: "IP address is required".to_string()
    }));
    assert_eq!(resolve(&mut service, "   ", 0, &mut providers).unwrap_err(), expected);
    assert_eq!(resolve(&mut service, "\t\n", 0, &mut providers).unwrap_err(), expected);
    assert_eq!(expected.status_code(), 400);
    assert_eq!(providers.calls(), 0);
    assert_eq!(service.get_cache_stats(0), (0, 0));
}

#[test]
fn test_resolve_asks_primary_with_credentials() {
    let mut service = GeolocationService::new(config("real-key"));
    let step = service.get_location("1.2.3.4", LookupEvent::Started, 0);
    assert_eq!(
        step,
        LookupStep::AskPrimary(ProviderRequest {
            url: "https://geo.example/city/1.2.3.4".to_string(),
            api_key: Some("real-key".to_string()),
            timeout_seconds: 7,
        })
    );
    let step = service.get_location("1.2.3.4", LookupEvent::PrimaryReplied(primary_answers()), 5);
    assert_eq!(step, LookupStep::Done(LookupOutcome::Resolved(berlin())));
    assert_eq!(service.get_cache_stats(5), (1, 1));
}

#[test]
fn test_begin_lookup_is_the_first_step() {
    let mut service = GeolocationService::new(config("real-key"));
    assert_eq!(
        service.begin_lookup("1.2.3.4", 0),
        service.get_location("1.2.3.4", LookupEvent::Started, 0)
    );
    assert!(matches!(service.begin_lookup(" ", 0), LookupStep::Done(LookupOutcome::Rejected(_))));
    service.get_location("1.2.3.4", LookupEvent::PrimaryReplied(primary_answers()), 5);
    assert_eq!(
        service.begin_lookup("1.2.3.4", 6),
        LookupStep::Done(LookupOutcome::Resolved(berlin()))
    );
    let location: common_lib::geolocation::LocationInfo = berlin();
    assert_eq!(location.country_code, "DE");
}

#[test]
fn test_cache_helpers() {
    let mut service = GeolocationService::new(config("real-key"));
    assert_eq!(service.get_from_cache("1.2.3.4", 0), None);
    service.cache_location("1.2.3.4", &berlin(), 5);
    assert_eq!(service.get_from_cache("1.2.3.4", 6), Some(berlin()));
    assert_eq!(service.get_from_cache("1.2.3.4", 5 + 60 * NANOS_PER_SECOND), None);
    let mut nowhere = berlin();
    nowhere.country_code = String::new();
    service.cache_location("5.6.7.8", &nowhere, 7);
    assert_eq!(service.get_from_cache("5.6.7.8", 8), Some(default_record()));
    assert!(matches!(service.fetch_from_api("9.9.9.9"), LookupStep::AskPrimary(_)));
    let service = GeolocationService::new(config(""));
    assert!(matches!(service.fetch_from_api("9.9.9.9"), LookupStep::AskFallback(_)));
}

#[test]
fn test_second_resolve_is_a_cache_hit() {
    let mut service = GeolocationService::new(config("real-key"));
    let mut providers = Providers::new(primary_answers, fallback_answers);
    assert_eq!(resolve(&mut service, "1.2.3.4", 1_000, &mut providers), Ok(berlin()));
    assert_eq!(providers.calls(), 1);
    let later = 1_000 + 60 * NANOS_PER_SECOND - 1;
    assert_eq!(resolve(&mut service, "1.2.3.4", later, &mut providers), Ok(berlin()));
    assert_eq!(providers.calls(), 1);
    assert_eq!(providers.fallback_calls, 0);
}

#[test]
fn test_resolve_asks_again_after_ttl() {
    let mut service = GeolocationService::new(config("real-key"));
    let mut providers = Providers::new(primary_answers, fallback_answers);
    assert_eq!(resolve(&mut service, "1.2.3.4", 1_000, &mut providers), Ok(berlin()));
    let expired = 1_000 + 60 * NANOS_PER_SECOND;
    assert_eq!(resolve(&mut service, "1.2.3.4", expired, &mut providers), Ok(berlin()));
    assert_eq!(providers.primary_calls, 2);
}

#[test]
fn test_fallback_on_primary_failure() {
    let mut service = GeolocationService::new(config("real-key"));
    let mut providers = Providers::new(primary_fails, fallback_answers);
    assert_eq!(resolve(&mut service, "1.2.3.4", 0, &mut providers), Ok(paris()));
    assert_eq!(providers.primary_calls, 1);
    assert_eq!(providers.fallback_calls, 1);
    // The fallback's record was cached.
    assert_eq!(resolve(&mut service, "1.2.3.4", 1, &mut providers), Ok(paris()));
    assert_eq!(providers.calls(), 2);
}

#[test]
fn test_fallback_request_has_no_credentials() {
    let mut service = GeolocationService::new(config("real-key"));
    let step = service.get_location("1.2.3.4", LookupEvent::PrimaryReplied(primary_fails()), 0);
    assert_eq!(
        step,
        LookupStep::AskFallback(ProviderRequest {
            url: "http://ip-api.com/json/1.2.3.4".to_string(),
            api_key: None,
            timeout_seconds: 7,
        })
    );
    assert_eq!(service.get_cache_stats(0), (0, 0));
}

#[test]
fn test_primary_skipped_when_unconfigured() {
    for key in ["", "demo_key", "your_maxmind_api_key"] {
        let mut service = GeolocationService::new(config(key));
        let mut providers = Providers::new(primary_answers, fallback_answers);
        assert_eq!(resolve(&mut service, "1.2.3.4", 0, &mut providers), Ok(paris()));
        assert_eq!(providers.primary_calls, 0);
        assert_eq!(providers.fallback_calls, 1);
    }
    let mut service = GeolocationService::new(config("demo_key2"));
    let mut providers = Providers::new(primary_answers, fallback_answers);
    assert_eq!(resolve(&mut service, "1.2.3.4", 0, &mut providers), Ok(berlin()));
    assert_eq!(providers.primary_calls, 1);
}

#[test]
fn test_degraded_fallback_gives_default_record() {
    let mut service = GeolocationService::new(config(""));
    let mut providers = Providers::new(primary_answers, fallback_degrades);
    let location = resolve(&mut service, "127.0.0.1", 0, &mut providers).unwrap();
    assert_eq!(location.country_code, "US");
    assert_eq!(location.country_name, "United States");
    assert_eq!(location.city, None);
    assert_eq!(location.latitude, None);
    assert_eq!(location.longitude, None);
    assert_eq!(location, default_record());
    assert_eq!(location, LocationInfo::default_location());
}

#[test]
fn test_resolve_always_returns_a_record_with_a_country() {
    let primaries: [fn() -> ProviderReply<MaxMindResponse>; 2] = [primary_answers, primary_fails];
    let fallbacks: [fn() -> ProviderReply<FallbackApiResponse>; 3] =
        [fallback_answers, fallback_degrades, fallback_fails];
    for key in ["", "real-key"] {
        for primary in primaries {
            for fallback in fallbacks {
                let mut service = GeolocationService::new(config(key));
                let mut providers = Providers::new(primary, fallback);
                let location = resolve(&mut service, "8.8.4.4", 0, &mut providers).unwrap();
                assert!(!location.country_code.is_empty());
                assert!(location.has_country());
                assert!(providers.primary_calls <= 1);
                assert!(providers.fallback_calls <= 1);
            }
        }
    }
}

#[test]
fn test_unreachable_fallback_gives_default_and_is_not_cached() {
    let mut service = GeolocationService::new(config(""));
    let mut providers = Providers::new(primary_answers, fallback_fails);
    let outcome = run(&mut service, "1.2.3.4", 0, &mut providers);
    assert_eq!(
        outcome,
        LookupOutcome::Unavailable {
            location: default_record(),
            error: provider_error("Fallback geolocation API request failed: timed out"),
        }
    );
    assert_eq!(outcome.into_result(), Ok(default_record()));
    assert_eq!(service.get_cache_stats(0), (0, 0));
    assert_eq!(resolve(&mut service, "1.2.3.4", 1, &mut providers), Ok(default_record()));
    assert_eq!(providers.fallback_calls, 2);
}

#[test]
fn test_health_check() {
    assert_eq!(HEALTH_CHECK_IP, "8.8.8.8");
    let mut service = GeolocationService::new(config(""));
    let step = service.health_check(LookupEvent::Started, 0);
    assert_eq!(
        step,
        LookupStep::AskFallback(ProviderRequest {
            url: "http://ip-api.com/json/8.8.8.8".to_string(),
            api_key: None,
            timeout_seconds: 7,
        })
    );
    // A degraded answer still counts as healthy.
    match service.health_check(LookupEvent::FallbackReplied(fallback_degrades()), 0) {
        LookupStep::Done(outcome) => assert_eq!(outcome.into_health(), Ok(())),
        step => panic!("the health check did not end: {step:?}"),
    }
    // An unreachable fallback does not.
    let mut service = GeolocationService::new(config(""));
    match service.health_check(LookupEvent::FallbackReplied(fallback_fails()), 0) {
        LookupStep::Done(outcome) => assert_eq!(
            outcome.into_health(),
            Err(provider_error("Fallback geolocation API request failed: timed out"))
        ),
        step => panic!("the health check did not end: {step:?}"),
    }
    // The address of the check is cached like any other.
    let mut service = GeolocationService::new(config(""));
    service.health_check(LookupEvent::FallbackReplied(fallback_answers()), 0);
    assert_eq!(
        service.get_location("8.8.8.8", LookupEvent::Started, 1),
        LookupStep::Done(LookupOutcome::Resolved(paris()))
    );
}

#[test]
fn test_service_cache_is_bounded() {
    let mut service = GeolocationService::new(config(""));
    let mut providers = Providers::new(primary_answers, fallback_answers);
    for i in 0..10u64 {
        resolve(&mut service, &format!("10.0.0.{i}"), i, &mut providers).unwrap();
        assert!(service.get_cache_stats(i).0 <= 3);
    }
    assert_eq!(service.get_cache_stats(10), (3, 3));
    assert_eq!(providers.fallback_calls, 10);
    resolve(&mut service, "10.0.0.9", 10, &mut providers).unwrap();
    resolve(&mut service, "10.0.0.7", 10, &mut providers).unwrap();
    assert_eq!(providers.fallback_calls, 10);
    resolve(&mut service, "10.0.0.6", 10, &mut providers).unwrap();
    assert_eq!(providers.fallback_calls, 11);
}

#[test]
fn test_primary_reply_outcomes() {
    assert_eq!(fetch_from_maxmind(primary_answers()), Ok(berlin()));
    assert_eq!(
        fetch_from_maxmind(primary_fails()),
        Err(provider_error("Geolocation API request failed: connection refused"))
    );
    let rejected = |status: u16, status_text: &str| {
        fetch_from_maxmind(ProviderReply::Rejected { status, status_text: status_text.to_string() })
    };
    assert_eq!(
        rejected(401, "401 Unauthorized"),
        Err(provider_error("Geolocation service authentication failed"))
    );
    assert_eq!(rejected(404, "404 Not Found"), Ok(default_record()));
    assert_eq!(
        rejected(429, "429 Too Many Requests"),
        Err(provider_error("Geolocation service rate limited"))
    );
    assert_eq!(
        rejected(500, "500 Internal Server Error"),
        Err(provider_error("Geolocation service error: 500 Internal Server Error"))
    );
    assert_eq!(
        rejected(403, "403 Forbidden"),
        Err(provider_error("Geolocation service error: 403 Forbidden"))
    );
    assert_eq!(
        fetch_from_maxmind(ProviderReply::Unreadable { reason: "missing field `country`".to_string() }),
        Err(provider_error("Failed to parse geolocation response: missing field `country`"))
    );
    assert_eq!(rejected(401, "").unwrap_err().status_code(), 500);
}

#[test]
fn test_fallback_reply_outcomes() {
    assert_eq!(fetch_from_fallback_service(fallback_answers()), Ok(paris()));
    assert_eq!(fetch_from_fallback_service(fallback_degrades()), Ok(default_record()));
    assert_eq!(
        fetch_from_fallback_service(ProviderReply::Answered(paris_from_fallback("Success"))),
        Ok(default_record())
    );
    for status in [400u16, 401, 404, 429, 500, 503] {
        assert_eq!(
            fetch_from_fallback_service(ProviderReply::Rejected {
                status,
                status_text: status.to_string()
            }),
            Ok(default_record())
        );
    }
    assert_eq!(
        fetch_from_fallback_service(fallback_fails()),
        Err(provider_error("Fallback geolocation API request failed: timed out"))
    );
    assert_eq!(
        fetch_from_fallback_service(ProviderReply::Unreadable { reason: "EOF".to_string() }),
        Err(provider_error("Failed to parse fallback geolocation response: EOF"))
    );
}

#[test]
fn test_answer_without_country_code_gives_default_record() {
    let mut response = berlin_from_primary();
    response.country.iso_code = String::new();
    assert_eq!(fetch_from_maxmind(ProviderReply::Answered(response)), Ok(default_record()));
    let mut response = paris_from_fallback("success");
    response.country_code = String::new();
    assert_eq!(
        fetch_from_fallback_service(ProviderReply::Answered(response)),
        Ok(default_record())
    );
}

#[test]
fn test_convert_maxmind_response() {
    assert_eq!(convert_maxmind_response(berlin_from_primary()), berlin());
    let bare = MaxMindResponse {
        country: MaxMindCountry { iso_code: "JP".to_string(), names: names(&[("ja", "日本")]) },
        city: Some(MaxMindCity { names: names(&[("ja", "東京")]) }),
        location: None,
        subdivisions: Some(vec![]),
    };
    assert_eq!(
        convert_maxmind_response(bare),
        LocationInfo {
            country_code: "JP".to_string(),
            country_name: "JP".to_string(),
            city: Some("東京".to_string()),
            region: None,
            latitude: None,
            longitude: None,
            timezone: None,
        }
    );
    let partial = MaxMindResponse {
        country: MaxMindCountry { iso_code: "JP".to_string(), names: names(&[("en", "Japan")]) },
        city: None,
        location: Some(MaxMindLocation {
            latitude: None,
            longitude: Some(degrees(139.69)),
            time_zone: None,
        }),
        subdivisions: None,
    };
    let location = convert_maxmind_response(partial);
    assert_eq!(location.country_name, "Japan");
    assert_eq!(location.latitude, None);
    assert_eq!(location.longitude, Some(139_690_000));
    assert_eq!(location.timezone, None);
}

#[test]
fn test_city_and_region_take_the_first_name_without_an_english_one() {
    let response = MaxMindResponse {
        country: MaxMindCountry { iso_code: "FR".to_string(), names: names(&[]) },
        city: Some(MaxMindCity { names: names(&[("fr", "Lyon"), ("de", "Leon")]) }),
        location: None,
        subdivisions: Some(vec![
            MaxMindSubdivision { names: names(&[("fr", "Rhône"), ("en", "Rhone")]) },
            MaxMindSubdivision { names: names(&[("en", "Later")]) },
        ]),
    };
    let location = convert_maxmind_response(response);
    assert_eq!(location.country_name, "FR");
    assert_eq!(location.city, Some("Lyon".to_string()));
    assert_eq!(location.region, Some("Rhone".to_string()));

    let response = MaxMindResponse {
        country: MaxMindCountry { iso_code: "FR".to_string(), names: names(&[("fr", "France")]) },
        city: Some(MaxMindCity { names: names(&[]) }),
        location: None,
        subdivisions: Some(vec![
            MaxMindSubdivision { names: names(&[]) },
            MaxMindSubdivision { names: names(&[("en", "Later")]) },
        ]),
    };
    let location = convert_maxmind_response(response);
    assert_eq!(location.country_name, "FR");
    assert_eq!(location.city, None);
    assert_eq!(location.region, None);

    assert_eq!(find_local_name(&names(&[("ja", "東京"), ("en", "Tokyo")])), Some("Tokyo".to_string()));
    assert_eq!(find_local_name(&names(&[("ja", "東京"), ("ko", "도쿄")])), Some("東京".to_string()));
    assert_eq!(find_local_name(&names(&[])), None);
}

#[test]
fn test_convert_fallback_response() {
    assert_eq!(convert_fallback_response(paris_from_fallback("success")), paris());
}

#[test]
fn test_find_name_takes_first_match() {
    let list = names(&[("fr", "Allemagne"), ("en", "Germany"), ("en", "Other")]);
    assert_eq!(find_name(&list, "en"), Some("Germany".to_string()));
    assert_eq!(find_name(&list, "fr"), Some("Allemagne".to_string()));
    assert_eq!(find_name(&list, "EN"), None);
    assert_eq!(find_name(&names(&[]), "en"), None);
}

#[test]
fn test_coordinates_in_range() {
    let mut location = berlin();
    assert!(location.coordinates_in_range());
    location.latitude = Some(90_000_000);
    location.longitude = Some(-180_000_000);
    assert!(location.coordinates_in_range());
    location.latitude = Some(90_000_001);
    assert!(!location.coordinates_in_range());
    location.latitude = None;
    location.longitude = Some(180_000_001);
    assert!(!location.coordinates_in_range());
    assert!(default_record().coordinates_in_range());
    assert!(berlin().clone() == berlin());
}
