//! Country codes: reading one off a phone number, and checking one.

use vstd::prelude::*;
use vstd::string::*;
use crate::error::{ApiError, ApiErrorView};
use crate::text::{concat2, concat3, to_uppercase, uppercase};

verus! {

/// What the phone number library makes of a text: the country of the number
/// it reads in it, by its two-letter code (`None` where the number belongs
/// to no country), or an account of why it reads no number.
pub uninterp spec fn phone_country(phone: Seq<char>) -> Result<Option<Seq<char>>, Seq<char>>;

/// The content of a lookup's result.
pub open spec fn lookup_view(lookup: Result<Option<String>, String>) -> Result<
    Option<Seq<char>>,
    Seq<char>,
> {
    match lookup {
        Ok(country) => Ok(country.deep_view()),
        Err(reason) => Err(reason@),
    }
}

/// Calls `phonenumber::parse` without a default country and asks the parsed
/// number for `country().id()`. The country identifier and the parse error
/// are handed on as the text of their `Debug` form. The contract only gives
/// the result the name [`phone_country`].
///
/// The parser unwraps in a few places. Where it searches for a country code
/// it has normalised the number to ASCII digits and has made sure that at
/// least three are left; where it reads the groups of a pattern it has just
/// found a match of that pattern. Its other unwraps, in choosing among the
/// regions of a country code and in applying a national prefix rule, rest on
/// the metadata that the library is built with: that it describes each
/// region it names, and that its prefix rules capture what they transform.
/// That much is taken on trust with the library.
#[verifier::external_body]
fn lookup_phone_country(phone: &str) -> (lookup: Result<Option<String>, String>)
    ensures
        lookup_view(lookup) == phone_country(phone@),
{
    match phonenumber::parse(None, phone) {
        Ok(number) => Ok(number.country().id().map(|id| format!("{:?}", id))),
        Err(error) => Err(format!("{:?}", error)),
    }
}

/// A country code is valid when it is made of two upper-case ASCII letters.
pub open spec fn valid_country_code(code: Seq<char>) -> bool {
    code.len() == 2 && forall|i: int| 0 <= i < code.len() ==> 'A' <= #[trigger] code[i] <= 'Z'
}

/// What becomes of the lookup of a phone number: the country it found, or
/// the reason why there is none as a bad request.
pub open spec fn country_of_lookup(lookup: Result<Option<Seq<char>>, Seq<char>>) -> Result<
    Seq<char>,
    ApiErrorView,
> {
    match lookup {
        Ok(Some(country)) => Ok(country),
        Ok(None) => Err(
            ApiErrorView::BadRequest {
                message: "Country code could not be derived from phone number."@,
            },
        ),
        Err(reason) => Err(
            ApiErrorView::BadRequest { message: "Invalid phone number format: "@ + reason },
        ),
    }
}

/// The content of a country or the error in its place.
pub open spec fn country_result_view(result: Result<String, ApiError>) -> Result<
    Seq<char>,
    ApiErrorView,
> {
    match result {
        Ok(country) => Ok(country@),
        Err(error) => Err(error@),
    }
}

/// The content of a text or the message in its place.
pub open spec fn text_result_view(result: Result<String, String>) -> Result<Seq<char>, Seq<char>> {
    match result {
        Ok(text) => Ok(text@),
        Err(message) => Err(message@),
    }
}

/// What becomes of a country code and its upper-case form: the upper-case
/// form where that is a valid code, else a message that quotes the code as
/// it was given.
pub open spec fn checked_country_code(code: Seq<char>, upper: Seq<char>) -> Result<
    Seq<char>,
    Seq<char>,
> {
    if valid_country_code(upper) {
        Ok(upper)
    } else {
        Err("Invalid country code format: '"@ + code + "'"@)
    }
}

/// What normalising a country code gives: its upper-case form where that is
/// a valid code, else a message that quotes the code as it was given.
pub open spec fn normalized_country_code(code: Seq<char>) -> Result<Seq<char>, Seq<char>> {
    checked_country_code(code, uppercase(code))
}

/// Rules about country codes.
pub struct CountryService;

impl CountryService {
    /// The country that a phone number belongs to, as an ISO 3166-1 alpha-2
    /// code. The number is read in international form, as the phone number
    /// library reads it.
    pub fn parse_phone_number_to_country(phone: &str) -> (country: Result<String, ApiError>)
        ensures
            country_result_view(country) == country_of_lookup(phone_country(phone@)),
    {
        Self::country_from_lookup(lookup_phone_country(phone))
    }

    /// Makes the answer out of what the phone number library said.
    pub fn country_from_lookup(lookup: Result<Option<String>, String>) -> (country: Result<
        String,
        ApiError,
    >)
        ensures
            country_result_view(country) == country_of_lookup(lookup_view(lookup)),
    {
        match lookup {
            Ok(Some(country_code)) => Ok(country_code),
            Ok(None) => Err(
                ApiError::BadRequest {
                    message: String::from_str(
                        "Country code could not be derived from phone number.",
                    ),
                },
            ),
            Err(reason) => Err(
                ApiError::BadRequest {
                    message: concat2("Invalid phone number format: ", reason.as_str()),
                },
            ),
        }
    }

    /// Whether a text is a country code in its normal form: two upper-case
    /// ASCII letters.
    pub fn is_valid_country_code(country_code: &str) -> (valid: bool)
        ensures
            valid == valid_country_code(country_code@),
    {
        if country_code.unicode_len() != 2 {
            return false;
        }
        let first = country_code.get_char(0);
        let second = country_code.get_char(1);
        'A' <= first && first <= 'Z' && 'A' <= second && second <= 'Z'
    }

    /// Brings a country code into its normal form, or says why it is none.
    pub fn validate_and_normalize_country_code(country_code: &str) -> (normalized: Result<
        String,
        String,
    >)
        ensures
            text_result_view(normalized) == normalized_country_code(country_code@),
    {
        Self::check_normalized(country_code, to_uppercase(country_code))
    }

    /// Accepts the upper-case form of a country code where it is a valid
    /// code, and else says that the code, as it was given, is none.
    pub fn check_normalized(country_code: &str, upper: String) -> (normalized: Result<
        String,
        String,
    >)
        ensures
            text_result_view(normalized) == checked_country_code(country_code@, upper@),
    {
        if Self::is_valid_country_code(upper.as_str()) {
            Ok(upper)
        } else {
            Err(concat3("Invalid country code format: '", country_code, "'"))
        }
    }
}

} // verus!
