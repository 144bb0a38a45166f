//! What the two geolocation providers answer, and what an answer means.
//!
//! The requests themselves are made elsewhere; this module turns what came
//! back into a location or an error.

use vstd::prelude::*;
use vstd::string::*;
use crate::error::{ApiError, ApiErrorView};
use crate::location::{clone_text, default_location_view, LocationInfo, LocationView};
use crate::text::{concat2, same_text};

verus! {

/// The name of a place in one language.
#[derive(Debug)]
pub struct LocalizedName {
    /// Language code, such as `en`.
    pub language: String,
    pub name: String,
}

/// The country part of the primary provider's answer.
#[derive(Debug)]
pub struct MaxMindCountry {
    pub iso_code: String,
    pub names: Vec<LocalizedName>,
}

/// The city part of the primary provider's answer.
#[derive(Debug)]
pub struct MaxMindCity {
    pub names: Vec<LocalizedName>,
}

/// The position part of the primary provider's answer, coordinates in
/// millionths of a degree.
#[derive(Debug)]
pub struct MaxMindLocation {
    pub latitude: Option<i64>,
    pub longitude: Option<i64>,
    pub time_zone: Option<String>,
}

/// One subdivision (state, province) of the primary provider's answer.
#[derive(Debug)]
pub struct MaxMindSubdivision {
    pub names: Vec<LocalizedName>,
}

/// The primary provider's answer to a lookup.
#[derive(Debug)]
pub struct MaxMindResponse {
    pub country: MaxMindCountry,
    pub city: Option<MaxMindCity>,
    pub location: Option<MaxMindLocation>,
    pub subdivisions: Option<Vec<MaxMindSubdivision>>,
}

/// The fallback provider's answer to a lookup, coordinates in millionths of
/// a degree. Unless `status` is `success` only `message` means anything.
#[derive(Debug)]
pub struct FallbackApiResponse {
    pub status: String,
    pub country: String,
    pub country_code: String,
    pub region_name: String,
    pub city: String,
    pub lat: i64,
    pub lon: i64,
    pub timezone: String,
    pub message: Option<String>,
}

/// What came back from one request to a provider.
#[derive(Debug)]
pub enum ProviderReply<T> {
    /// The request did not complete: the network failed or the time ran out.
    TransportFailed { reason: String },
    /// The provider answered with a status that is not a success.
    /// `status_text` is the status as it is written out, code and phrase.
    Rejected { status: u16, status_text: String },
    /// The provider answered with success, but the body is not what its
    /// schema says.
    Unreadable { reason: String },
    /// The provider answered with success and the body was read.
    Answered(T),
}

/// The name that a list gives for a language: the first it holds for it.
pub open spec fn name_in(names: Seq<LocalizedName>, language: Seq<char>) -> Option<Seq<char>>
    decreases names.len(),
{
    if names.len() == 0 {
        None
    } else if names[0].language@ == language {
        Some(names[0].name@)
    } else {
        name_in(names.drop_first(), language)
    }
}

/// The English name of a list.
pub open spec fn english_name(names: Seq<LocalizedName>) -> Option<Seq<char>> {
    name_in(names, "en"@)
}

/// The name by which a list calls a place: its English name, or the first
/// name it holds where it has no English one.
pub open spec fn local_name(names: Seq<LocalizedName>) -> Option<Seq<char>> {
    match english_name(names) {
        Some(name) => Some(name),
        None => if names.len() > 0 {
            Some(names[0].name@)
        } else {
            None
        },
    }
}

/// The record that the primary provider's answer stands for: the country
/// under its English name, or under its code where it has none; the city and
/// the first subdivision under the name their lists call them by; position
/// and time zone as they came.
pub open spec fn maxmind_location(response: MaxMindResponse) -> LocationView {
    LocationView {
        country_code: response.country.iso_code@,
        country_name: match english_name(response.country.names@) {
            Some(name) => name,
            None => response.country.iso_code@,
        },
        city: match response.city {
            Some(city) => local_name(city.names@),
            None => None,
        },
        region: match response.subdivisions {
            Some(subdivisions) => if subdivisions@.len() > 0 {
                local_name(subdivisions@[0].names@)
            } else {
                None
            },
            None => None,
        },
        latitude: match response.location {
            Some(location) => location.latitude,
            None => None,
        },
        longitude: match response.location {
            Some(location) => location.longitude,
            None => None,
        },
        timezone: match response.location {
            Some(location) => location.time_zone.deep_view(),
            None => None,
        },
    }
}

/// The record that a successful answer of the fallback provider stands for.
pub open spec fn fallback_location(response: FallbackApiResponse) -> LocationView {
    LocationView {
        country_code: response.country_code@,
        country_name: response.country@,
        city: Some(response.city@),
        region: Some(response.region_name@),
        latitude: Some(response.lat),
        longitude: Some(response.lon),
        timezone: Some(response.timezone@),
    }
}

/// A record always names a country: one that does not gives way to the
/// default record.
pub open spec fn or_default(location: LocationView) -> LocationView {
    if location.has_country() {
        location
    } else {
        default_location_view()
    }
}

/// The error that reports a provider's failure.
pub open spec fn provider_error(message: Seq<char>) -> ApiErrorView {
    ApiErrorView::InternalServerError { message }
}

/// What a reply of the primary provider means. An address that the provider
/// does not know (status 404) is placed by the default record; every other
/// failure is an error.
pub open spec fn primary_outcome(reply: ProviderReply<MaxMindResponse>) -> Result<
    LocationView,
    ApiErrorView,
> {
    match reply {
        ProviderReply::TransportFailed { reason } => Err(
            provider_error("Geolocation API request failed: "@ + reason@),
        ),
        ProviderReply::Rejected { status, status_text } => if status == 401 {
            Err(provider_error("Geolocation service authentication failed"@))
        } else if status == 404 {
            Ok(default_location_view())
        } else if status == 429 {
            Err(provider_error("Geolocation service rate limited"@))
        } else {
            Err(provider_error("Geolocation service error: "@ + status_text@))
        },
        ProviderReply::Unreadable { reason } => Err(
            provider_error("Failed to parse geolocation response: "@ + reason@),
        ),
        ProviderReply::Answered(response) => Ok(or_default(maxmind_location(response))),
    }
}

/// What a reply of the fallback provider means. Only a request that did not
/// complete, or a body that cannot be read, is an error; a refusal of any
/// kind is answered with the default record.
pub open spec fn fallback_outcome(reply: ProviderReply<FallbackApiResponse>) -> Result<
    LocationView,
    ApiErrorView,
> {
    match reply {
        ProviderReply::TransportFailed { reason } => Err(
            provider_error("Fallback geolocation API request failed: "@ + reason@),
        ),
        ProviderReply::Rejected { .. } => Ok(default_location_view()),
        ProviderReply::Unreadable { reason } => Err(
            provider_error("Failed to parse fallback geolocation response: "@ + reason@),
        ),
        ProviderReply::Answered(response) => if response.status@ == "success"@ {
            Ok(or_default(fallback_location(response)))
        } else {
            Ok(default_location_view())
        },
    }
}

/// The content of the result of a lookup at a provider.
pub open spec fn outcome_view(outcome: Result<LocationInfo, ApiError>) -> Result<
    LocationView,
    ApiErrorView,
> {
    match outcome {
        Ok(location) => Ok(location@),
        Err(error) => Err(error@),
    }
}

/// The name that a list gives for a language, if it has one.
pub fn find_name(names: &Vec<LocalizedName>, language: &str) -> (name: Option<String>)
    ensures
        name.deep_view() == name_in(names@, language@),
{
    let mut i: usize = 0;
    assert(names@.subrange(0, names@.len() as int) =~= names@);
    while i < names.len()
        invariant
            i <= names@.len(),
            name_in(names@, language@) == name_in(
                names@.subrange(i as int, names@.len() as int),
                language@,
            ),
        decreases names@.len() - i,
    {
        let ghost rest = names@.subrange(i as int, names@.len() as int);
        proof {
            assert(rest[0] == names@[i as int]);
            assert(rest.drop_first() =~= names@.subrange(i + 1, names@.len() as int));
        }
        if same_text(names[i].language.as_str(), language) {
            return Some(names[i].name.clone());
        }
        i += 1;
    }
    None
}

/// The name by which a list calls a place: its English name, or the first
/// name it holds where it has no English one.
pub fn find_local_name(names: &Vec<LocalizedName>) -> (name: Option<String>)
    ensures
        name.deep_view() == local_name(names@),
{
    match find_name(names, "en") {
        Some(name) => Some(name),
        None => if names.len() > 0 {
            Some(names[0].name.clone())
        } else {
            None
        },
    }
}

fn provider_failure(prefix: &str, detail: &str) -> (error: ApiError)
    ensures
        error@ == provider_error(prefix@ + detail@),
{
    ApiError::InternalServerError { message: concat2(prefix, detail) }
}

fn provider_refusal(message: &str) -> (error: ApiError)
    ensures
        error@ == provider_error(message@),
{
    ApiError::InternalServerError { message: String::from_str(message) }
}

fn with_country(location: LocationInfo) -> (checked: LocationInfo)
    ensures
        checked@ == or_default(location@),
        checked@.has_country(),
{
    if location.has_country() {
        location
    } else {
        LocationInfo::default_location()
    }
}

/// Turns the primary provider's answer into a record.
pub fn convert_maxmind_response(response: MaxMindResponse) -> (location: LocationInfo)
    ensures
        location@ == maxmind_location(response),
{
    let country_name = match find_name(&response.country.names, "en") {
        Some(name) => name,
        None => response.country.iso_code.clone(),
    };
    let city = match &response.city {
        Some(city) => find_local_name(&city.names),
        None => None,
    };
    let region = match &response.subdivisions {
        Some(subdivisions) => if subdivisions.len() > 0 {
            find_local_name(&subdivisions[0].names)
        } else {
            None
        },
        None => None,
    };
    let (latitude, longitude, timezone) = match &response.location {
        Some(location) => (location.latitude, location.longitude, clone_text(&location.time_zone)),
        None => (None, None, None),
    };
    LocationInfo {
        country_code: response.country.iso_code,
        country_name,
        city,
        region,
        latitude,
        longitude,
        timezone,
    }
}

/// Turns a successful answer of the fallback provider into a record.
pub fn convert_fallback_response(response: FallbackApiResponse) -> (location: LocationInfo)
    ensures
        location@ == fallback_location(response),
{
    LocationInfo {
        country_code: response.country_code,
        country_name: response.country,
        city: Some(response.city),
        region: Some(response.region_name),
        latitude: Some(response.lat),
        longitude: Some(response.lon),
        timezone: Some(response.timezone),
    }
}

/// Decides what a reply of the primary provider means.
pub fn fetch_from_maxmind(reply: ProviderReply<MaxMindResponse>) -> (outcome: Result<
    LocationInfo,
    ApiError,
>)
    ensures
        outcome_view(outcome) == primary_outcome(reply),
        outcome matches Ok(location) ==> location@.has_country(),
{
    match reply {
        ProviderReply::TransportFailed { reason } => Err(
            provider_failure("Geolocation API request failed: ", reason.as_str()),
        ),
        ProviderReply::Rejected { status, status_text } => {
            if status == 401 {
                Err(provider_refusal("Geolocation service authentication failed"))
            } else if status == 404 {
                Ok(LocationInfo::default_location())
            } else if status == 429 {
                Err(provider_refusal("Geolocation service rate limited"))
            } else {
                Err(provider_failure("Geolocation service error: ", status_text.as_str()))
            }
        },
        ProviderReply::Unreadable { reason } => Err(
            provider_failure("Failed to parse geolocation response: ", reason.as_str()),
        ),
        ProviderReply::Answered(response) => Ok(with_country(convert_maxmind_response(response))),
    }
}

/// Decides what a reply of the fallback provider means.
pub fn fetch_from_fallback_service(reply: ProviderReply<FallbackApiResponse>) -> (outcome: Result<
    LocationInfo,
    ApiError,
>)
    ensures
        outcome_view(outcome) == fallback_outcome(reply),
        outcome matches Ok(location) ==> location@.has_country(),
{
    match reply {
        ProviderReply::TransportFailed { reason } => Err(
            provider_failure("Fallback geolocation API request failed: ", reason.as_str()),
        ),
        ProviderReply::Rejected { .. } => Ok(LocationInfo::default_location()),
        ProviderReply::Unreadable { reason } => Err(
            provider_failure("Failed to parse fallback geolocation response: ", reason.as_str()),
        ),
        ProviderReply::Answered(response) => {
            if same_text(response.status.as_str(), "success") {
                Ok(with_country(convert_fallback_response(response)))
            } else {
                Ok(LocationInfo::default_location())
            }
        },
    }
}

/// Where a list holds names, the place is called by one of them, and by the
/// English one where there is one.
pub proof fn lemma_local_name_is_listed(names: Seq<LocalizedName>)
    ensures
        names.len() > 0 ==> local_name(names) is Some,
        names.len() == 0 ==> local_name(names) is None,
        local_name(names) matches Some(name) ==> exists|i: int|
            0 <= i < names.len() && (#[trigger] names[i]).name@ == name,
        english_name(names) is Some ==> local_name(names) == english_name(names),
{
    lemma_name_in_is_listed(names, "en"@);
}

/// The name that a list gives for a language is the name of one of its
/// entries for that language.
pub proof fn lemma_name_in_is_listed(names: Seq<LocalizedName>, language: Seq<char>)
    ensures
        name_in(names, language) matches Some(name) ==> exists|i: int|
            0 <= i < names.len() && (#[trigger] names[i]).language@ == language && names[i].name@
                == name,
    decreases names.len(),
{
    if names.len() > 0 && names[0].language@ != language {
        lemma_name_in_is_listed(names.drop_first(), language);
        if name_in(names, language) is Some {
            let rest = names.drop_first();
            let i = choose|i: int|
                0 <= i < rest.len() && (#[trigger] rest[i]).language@ == language && rest[i].name@
                    == name_in(rest, language)->0;
            assert(names[i + 1] == rest[i]);
        }
    }
}

/// Degraded answers: a body of the fallback provider whose status is not
/// `success` is answered with the default record, never with an error.
pub proof fn lemma_fallback_degrades(response: FallbackApiResponse)
    requires
        response.status@ != "success"@,
    ensures
        fallback_outcome(ProviderReply::Answered(response)) == Ok::<LocationView, ApiErrorView>(
            default_location_view(),
        ),
{
}

/// Once the fallback provider was reached, it answers with a record that
/// names a country.
pub proof fn lemma_fallback_names_a_country(reply: ProviderReply<FallbackApiResponse>)
    ensures
        fallback_outcome(reply) matches Ok(location) ==> location.has_country(),
        fallback_outcome(reply) is Err <==> reply is TransportFailed || reply is Unreadable,
{
    crate::location::lemma_default_has_country();
}

} // verus!
