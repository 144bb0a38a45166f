//! Small helpers: random tokens, identifiers read from requests, dates
//! between the database and the calendar library, settings.

use vstd::prelude::*;
use vstd::string::*;
use crate::constants::UK;
use crate::shared_models::{hex_encode, hex_lower, is_object_id_text, object_id_bytes, MyDateTime};
use crate::shared_models::{object_id_refusal, MyObjectId};
use crate::text::{concat2, concat3, decimal, has_prefix, i64_to_string, signed_decimal};
use crate::text::{skip_leading, starts_with, trim_start_matches, u64_to_string};

verus! {

/// The smallest number that a random token is made from.
pub const TOKEN_MIN: u32 = 111111;

/// The largest number that a random token is made from.
pub const TOKEN_MAX: u32 = 999999;

/// Calls `rand::Rng::random_range` on the thread's generator `rand::rng()`
/// with the closed range from `low` to `high`. The number is random; the
/// contract states the one thing that holds of each: it lies in the range.
#[verifier::external_body]
fn random_between(low: u32, high: u32) -> (n: u32)
    requires
        low <= high,
    ensures
        low <= n <= high,
{
    rand::Rng::random_range(&mut rand::rng(), low..=high)
}

/// Calls `rand::Rng::random` on the thread's generator `rand::rng()` for an
/// array of 32 bytes. Nothing is promised of them.
#[verifier::external_body]
fn random_key_bytes() -> (bytes: [u8; 32]) {
    rand::Rng::random(&mut rand::rng())
}

/// A text is a token when it is the decimal writing of a number from
/// 111111 to 999999.
pub open spec fn is_token(text: Seq<char>) -> bool {
    exists|n: nat| TOKEN_MIN <= n <= TOKEN_MAX && text == #[trigger] decimal(n)
}

/// A text is a key when it is the lower-case hexadecimal writing of 32
/// bytes.
pub open spec fn is_key_text(text: Seq<char>) -> bool {
    exists|bytes: Seq<u8>| bytes.len() == 32 && text == #[trigger] hex_lower(bytes)
}

/// A random token of six digits.
pub fn generate_random_token() -> (token: String)
    ensures
        is_token(token@),
{
    let random_number = random_between(TOKEN_MIN, TOKEN_MAX);
    let token = u64_to_string(random_number as u64);
    assert(token@ == decimal(random_number as nat));
    token
}

/// A random key: 32 bytes in 64 lower-case hexadecimal digits.
pub fn generate_random_alphanumeric_string() -> (key: String)
    ensures
        is_key_text(key@),
        key@.len() == 64,
{
    let random_key_bytes = random_key_bytes();
    let key = hex_encode(random_key_bytes.as_slice());
    assert(key@ == hex_lower(random_key_bytes@));
    key
}

/// The content of a setting or the message in its place.
pub open spec fn setting_view(setting: Result<String, String>) -> Result<Seq<char>, Seq<char>> {
    match setting {
        Ok(value) => Ok(value@),
        Err(message) => Err(message@),
    }
}

/// The value of a setting: what the environment holds for it; where it
/// holds nothing, the default; and without a default an error that names the
/// variable and the reason.
pub open spec fn setting_or_default(
    key: Seq<char>,
    found: Result<Seq<char>, Seq<char>>,
    default_value: Option<Seq<char>>,
) -> Result<Seq<char>, Seq<char>> {
    match found {
        Ok(value) => Ok(value),
        Err(reason) => match default_value {
            Some(default) => Ok(default),
            None => Err("Environment variable "@ + key + " not set: "@ + reason),
        },
    }
}

/// Settles the value of the setting `key`, given what reading the
/// environment brought: the value, or the reason why there is none.
pub fn get_env_var(key: &str, found: Result<String, String>, default_value: Option<&str>) -> (setting:
    Result<String, String>)
    ensures
        setting_view(setting) == setting_or_default(
            key@,
            setting_view(found),
            default_value.deep_view(),
        ),
{
    match found {
        Ok(value) => Ok(value),
        Err(reason) => match default_value {
            Some(default) => Ok(String::from_str(default)),
            None => {
                let mut message = concat3("Environment variable ", key, " not set: ");
                message.append(reason.as_str());
                Err(message)
            },
        },
    }
}

/// Whether the value of the environment setting names a developer's
/// machine.
pub fn is_local_env(env: &str) -> (local: bool)
    ensures
        local == (env@ == crate::constants::LOCAL_ENV@),
{
    crate::text::same_text(env, crate::constants::LOCAL_ENV)
}

/// The region that serves a phone number, by the digits it begins with
/// after any `+`: `44` is the United Kingdom; every other number is
/// `Unknown`.
pub open spec fn phone_region(phone_number: Seq<char>) -> Seq<char> {
    if has_prefix(skip_leading(phone_number, '+'), "44"@) {
        UK@
    } else {
        "Unknown"@
    }
}

/// A phone number can be read when something follows its leading `+` signs
/// and the first character of that takes no more than two bytes in UTF-8.
pub open spec fn readable_phone_number(phone_number: Seq<char>) -> bool {
    let digits = skip_leading(phone_number, '+');
    digits.len() > 0 && (digits[0] as u32) < 0x800
}

/// The region that serves a phone number. Only the first two characters
/// after the `+` are looked at.
pub fn get_country_code_from_phone_number(phone_number: &str) -> (region: String)
    requires
        readable_phone_number(phone_number@),
    ensures
        region@ == phone_region(phone_number@),
{
    let clean_number = trim_start_matches(phone_number, '+');
    if starts_with(clean_number, "44") {
        String::from_str(UK)
    } else {
        String::from_str("Unknown")
    }
}

/// The region that serves a phone number, or `None` for a number that
/// cannot be read.
pub fn try_get_country_code_from_phone_number(phone_number: &str) -> (region: Option<String>)
    ensures
        region.deep_view() == if readable_phone_number(phone_number@) {
            Some(phone_region(phone_number@))
        } else {
            None
        },
{
    let clean_number = trim_start_matches(phone_number, '+');
    if clean_number.unicode_len() > 0 && (clean_number.get_char(0) as u32) < 0x800 {
        Some(get_country_code_from_phone_number(phone_number))
    } else {
        None
    }
}

/// Reads an identifier that may be left out: no text and the empty text both
/// give `None`. A text that is there must be an identifier.
pub fn parse_optional_object_id(id_str: Option<&str>) -> (id: Result<Option<MyObjectId>, String>)
    ensures
        match id_str {
            Some(s) if s@.len() > 0 => if is_object_id_text(s@) {
                id matches Ok(Some(parsed)) && parsed.0@ == object_id_bytes(s@)
            } else {
                id matches Err(message) && message@ == object_id_refusal(s@)
            },
            _ => id matches Ok(None),
        },
{
    match id_str {
        Some(s) => {
            if s.is_empty() {
                Ok(None)
            } else {
                match MyObjectId::parse_or_explain(s) {
                    Ok(parsed) => Ok(Some(parsed)),
                    Err(message) => Err(message),
                }
            }
        },
        None => Ok(None),
    }
}

/// Reads an identifier that must be there.
pub fn parse_required_object_id_from_string(id_str: &str) -> (id: Result<MyObjectId, String>)
    ensures
        id is Ok <==> is_object_id_text(id_str@),
        id matches Ok(parsed) ==> parsed.0@ == object_id_bytes(id_str@),
        id matches Err(message) ==> message@ == object_id_refusal(id_str@),
{
    MyObjectId::parse_or_explain(id_str)
}

/// Reads the identifier in the field `field_name`, which must be there: no
/// text and the empty text are reported as a missing field, any other text
/// that is no identifier as an invalid one.
pub fn parse_required_object_id(id_str: Option<&str>, field_name: &str) -> (id: Result<
    MyObjectId,
    String,
>)
    ensures
        match id_str {
            Some(s) if s@.len() > 0 => if is_object_id_text(s@) {
                id matches Ok(parsed) && parsed.0@ == object_id_bytes(s@)
            } else {
                id matches Err(message) && message@ == "Invalid "@ + field_name@ + " format: "@
                    + object_id_refusal(s@)
            },
            _ => id matches Err(message) && message@ == "Missing required field: "@ + field_name@,
        },
{
    match id_str {
        Some(s) => {
            if s.is_empty() {
                Err(concat2("Missing required field: ", field_name))
            } else {
                match MyObjectId::parse_or_explain(s) {
                    Ok(parsed) => Ok(parsed),
                    Err(detail) => {
                        let mut message = concat3("Invalid ", field_name, " format: ");
                        message.append(detail.as_str());
                        Err(message)
                    },
                }
            }
        },
        None => Err(concat2("Missing required field: ", field_name)),
    }
}

/// Reads an identifier that may be left out, from a text that is owned.
pub fn parse_optional_object_id_from_option_string(id_str: Option<String>) -> (id: Result<
    Option<MyObjectId>,
    String,
>)
    ensures
        match id_str {
            Some(s) if s@.len() > 0 => if is_object_id_text(s@) {
                id matches Ok(Some(parsed)) && parsed.0@ == object_id_bytes(s@)
            } else {
                id matches Err(message) && message@ == object_id_refusal(s@)
            },
            _ => id matches Ok(None),
        },
{
    match id_str {
        Some(s) => parse_optional_object_id(Some(s.as_str())),
        None => Ok(None),
    }
}

/// The writing of an identifier that may be absent.
pub fn optional_object_id_to_string(id: &Option<MyObjectId>) -> (text: Option<String>)
    ensures
        text.deep_view() == match id {
            Some(id) => Some(hex_lower(id.0@)),
            None => None,
        },
{
    match id {
        Some(oid) => Some(oid.to_string()),
        None => None,
    }
}

/// The first instant of the calendar library, in milliseconds from the first
/// moment of 1970 in UTC: the beginning of the year -262143.
pub const CALENDAR_MIN_MILLIS: i64 = -8_334_601_228_800_000;

/// The last instant of the calendar library that is a whole millisecond: the
/// last of the year 262142.
pub const CALENDAR_MAX_MILLIS: i64 = 8_210_266_876_799_999;

/// Whether the calendar library has a date so many milliseconds from the
/// first moment of 1970 in UTC: it has the years from -262143 to 262142.
pub open spec fn calendar_has(millis: i64) -> bool {
    CALENDAR_MIN_MILLIS <= millis <= CALENDAR_MAX_MILLIS
}

/// Calls `chrono::TimeZone::timestamp_millis_opt` on `Utc` and tells whether
/// it gives a single date, which it does for the instants of the years from
/// -262143 to 262142.
#[verifier::external_body]
fn in_calendar(millis: i64) -> (known: bool)
    ensures
        known == calendar_has(millis),
{
    chrono::TimeZone::timestamp_millis_opt(&chrono::Utc, millis).single().is_some()
}

/// A date of the calendar library, in milliseconds since the first moment
/// of 1970 in UTC.
#[derive(Debug, Clone, Copy, PartialEq, Eq)]
pub struct UtcDateTime {
    millis: i64,
}

impl UtcDateTime {
    /// The milliseconds since the first moment of 1970 in UTC.
    pub closed spec fn millis(&self) -> i64 {
        self.millis
    }

    #[verifier::type_invariant]
    spec fn inv(self) -> bool {
        calendar_has(self.millis)
    }

    /// The date so many milliseconds from the first moment of 1970, if the
    /// calendar library has one.
    pub fn from_timestamp_millis(millis: i64) -> (date: Option<Self>)
        ensures
            date is Some <==> calendar_has(millis),
            date matches Some(d) ==> d.millis() == millis,
    {
        if in_calendar(millis) {
            Some(UtcDateTime { millis })
        } else {
            None
        }
    }

    /// The milliseconds since the first moment of 1970 in UTC.
    pub fn timestamp_millis(&self) -> (millis: i64)
        ensures
            millis == self.millis(),
            calendar_has(millis),
    {
        proof {
            use_type_invariant(&*self);
        }
        self.millis
    }
}

/// The date of the calendar library for a date of the database; an error
/// where the calendar does not reach that far.
pub fn chrono_from_mongo_datetime(dt: &MyDateTime) -> (date: Result<UtcDateTime, String>)
    ensures
        match date {
            Ok(d) => calendar_has(dt.0) && d.millis() == dt.0,
            Err(message) => !calendar_has(dt.0) && message@ == "Invalid timestamp: "@
                + signed_decimal(dt.0 as int),
        },
{
    match UtcDateTime::from_timestamp_millis(dt.0) {
        Some(date) => Ok(date),
        None => Err(concat2("Invalid timestamp: ", i64_to_string(dt.0).as_str())),
    }
}

/// The date of the database for a date of the calendar library.
pub fn mongo_from_chrono_datetime(dt: UtcDateTime) -> (date: MyDateTime)
    ensures
        date.0 == dt.millis(),
{
    MyDateTime(dt.timestamp_millis())
}

} // verus!
