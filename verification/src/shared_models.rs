//! Values that the parts of the service hand to each other.

use vstd::prelude::*;
use vstd::string::*;
use crate::text::digit_char;

verus! {

/// The character that stands for a value below sixteen in lower-case
/// hexadecimal.
pub open spec fn hex_digit(value: int) -> char {
    if value < 10 {
        digit_char(value)
    } else if value == 10 {
        'a'
    } else if value == 11 {
        'b'
    } else if value == 12 {
        'c'
    } else if value == 13 {
        'd'
    } else if value == 14 {
        'e'
    } else {
        'f'
    }
}

/// Bytes in lower-case hexadecimal: two characters for each byte, the upper
/// half of the byte first.
pub open spec fn hex_lower(bytes: Seq<u8>) -> Seq<char> {
    Seq::new(
        2 * bytes.len(),
        |i: int|
            if i % 2 == 0 {
                hex_digit(bytes[i / 2] as int / 16)
            } else {
                hex_digit(bytes[i / 2] as int % 16)
            },
    )
}

/// A hexadecimal digit of either case.
pub open spec fn is_hex_digit(c: char) -> bool {
    ('0' <= c && c <= '9') || ('a' <= c && c <= 'f') || ('A' <= c && c <= 'F')
}

/// The value of a hexadecimal digit.
pub open spec fn hex_value(c: char) -> int {
    if '0' <= c && c <= '9' {
        c as int - '0' as int
    } else if 'a' <= c && c <= 'f' {
        c as int - 'a' as int + 10
    } else {
        c as int - 'A' as int + 10
    }
}

/// A text is the writing of an object identifier when it is made of 24
/// hexadecimal digits.
pub open spec fn is_object_id_text(s: Seq<char>) -> bool {
    s.len() == 24 && forall|i: int| 0 <= i < s.len() ==> is_hex_digit(#[trigger] s[i])
}

/// The twelve bytes that 24 hexadecimal digits stand for.
pub open spec fn object_id_bytes(s: Seq<char>) -> Seq<u8> {
    Seq::new(12, |i: int| (hex_value(s[2 * i]) * 16 + hex_value(s[2 * i + 1])) as u8)
}

/// The character for a value below sixteen is a hexadecimal digit with that
/// value.
pub proof fn lemma_hex_digit(value: int)
    requires
        0 <= value < 16,
    ensures
        is_hex_digit(hex_digit(value)),
        hex_value(hex_digit(value)) == value,
{
}

/// Reading back what was written: the hexadecimal writing of twelve bytes
/// is the writing of an object identifier, and it stands for those bytes.
pub proof fn lemma_object_id_round_trip(bytes: Seq<u8>)
    requires
        bytes.len() == 12,
    ensures
        is_object_id_text(hex_lower(bytes)),
        object_id_bytes(hex_lower(bytes)) == bytes,
{
    let text = hex_lower(bytes);
    assert forall|i: int| 0 <= i < text.len() implies is_hex_digit(#[trigger] text[i]) by {
        lemma_hex_digit(bytes[i / 2] as int / 16);
        lemma_hex_digit(bytes[i / 2] as int % 16);
    }
    assert forall|i: int| 0 <= i < 12 implies object_id_bytes(text)[i] == bytes[i] by {
        lemma_hex_digit(bytes[i] as int / 16);
        lemma_hex_digit(bytes[i] as int % 16);
        assert(text[2 * i] == hex_digit(bytes[i] as int / 16));
        assert(text[2 * i + 1] == hex_digit(bytes[i] as int % 16));
    }
    assert(object_id_bytes(text) =~= bytes);
}

/// Calls `hex::encode`, which writes each byte as two lower-case hexadecimal
/// digits, the upper half first.
#[verifier::external_body]
pub(crate) fn hex_encode(bytes: &[u8]) -> (text: String)
    ensures
        text@ == hex_lower(bytes@),
{
    hex::encode(bytes)
}

#[verifier::external_type_specification]
#[verifier::external_body]
pub struct ExObjectIdError(bson::oid::Error);

/// The words in which the database driver refuses a text that is no object
/// identifier.
pub uninterp spec fn object_id_refusal(s: Seq<char>) -> Seq<char>;

/// Calls `bson::oid::ObjectId::parse_str` and hands on the bytes of the
/// identifier. The call decodes the text as hexadecimal, digits of either
/// case, and accepts it when that gives exactly twelve bytes. Its error is
/// handed on together with what `to_string` writes for it, to which the
/// contract gives the name [`object_id_refusal`].
#[verifier::external_body]
fn parse_object_id(s: &str) -> (parsed: Result<[u8; 12], (bson::oid::Error, String)>)
    ensures
        parsed is Ok <==> is_object_id_text(s@),
        parsed matches Ok(bytes) ==> bytes@ == object_id_bytes(s@),
        parsed matches Err(refusal) ==> refusal.1@ == object_id_refusal(s@),
{
    match bson::oid::ObjectId::parse_str(s) {
        Ok(id) => Ok(id.bytes()),
        Err(error) => {
            let text = error.to_string();
            Err((error, text))
        },
    }
}

/// Calls `bson::oid::ObjectId::new` and hands on the bytes of the new
/// identifier, which are made of the time, a random number of the process
/// and a counter. Nothing is promised of them.
#[verifier::external_body]
fn new_object_id() -> (bytes: [u8; 12]) {
    bson::oid::ObjectId::new().bytes()
}

/// The identifier of a stored object: twelve bytes.
#[derive(Debug, Clone, Copy, PartialEq, Eq, PartialOrd, Ord, Hash)]
pub struct MyObjectId(pub [u8; 12]);

/// The bytes of the identifier that stands for "none".
pub open spec fn nil_bytes() -> Seq<u8> {
    Seq::new(12, |i: int| 0u8)
}

impl MyObjectId {
    /// A new identifier.
    pub fn new() -> Self {
        MyObjectId(new_object_id())
    }

    /// The identifier in 24 lower-case hexadecimal digits.
    pub fn to_string(&self) -> (text: String)
        ensures
            text@ == hex_lower(self.0@),
    {
        hex_encode(self.0.as_slice())
    }

    /// Reads an identifier from 24 hexadecimal digits of either case. Any
    /// other text is an error.
    pub fn parse_string(s: &str) -> (id: Result<Self, bson::oid::Error>)
        ensures
            id is Ok <==> is_object_id_text(s@),
            id matches Ok(parsed) ==> parsed.0@ == object_id_bytes(s@),
    {
        match parse_object_id(s) {
            Ok(bytes) => Ok(MyObjectId(bytes)),
            Err(refusal) => Err(refusal.0),
        }
    }

    /// Reads an identifier from 24 hexadecimal digits of either case. For
    /// any other text the error is the driver's complaint about it.
    pub fn parse_or_explain(s: &str) -> (id: Result<Self, String>)
        ensures
            id is Ok <==> is_object_id_text(s@),
            id matches Ok(parsed) ==> parsed.0@ == object_id_bytes(s@),
            id matches Err(message) ==> message@ == object_id_refusal(s@),
    {
        match parse_object_id(s) {
            Ok(bytes) => Ok(MyObjectId(bytes)),
            Err(refusal) => Err(refusal.1),
        }
    }

    /// Reads an identifier from 24 hexadecimal digits of either case. Any
    /// other text is an error.
    pub fn try_parse_str(s: &str) -> (id: Result<Self, bson::oid::Error>)
        ensures
            id is Ok <==> is_object_id_text(s@),
            id matches Ok(parsed) ==> parsed.0@ == object_id_bytes(s@),
    {
        Self::parse_string(s)
    }

    /// Whether this is the identifier that stands for "none": the one whose
    /// bytes are all zero.
    pub fn is_empty(&self) -> (empty: bool)
        ensures
            empty == (self.0@ == nil_bytes()),
    {
        let mut i: usize = 0;
        while i < 12
            invariant
                i <= 12,
                forall|j: int| 0 <= j < i ==> self.0@[j] == 0,
            decreases 12 - i,
        {
            if self.0[i] != 0 {
                assert(nil_bytes()[i as int] == 0);
                return false;
            }
            i += 1;
        }
        assert(self.0@ =~= nil_bytes());
        true
    }
}

/// The instant that a text names in RFC 3339, in milliseconds since the
/// first moment of 1970 in UTC; `None` where the text is no such date.
pub uninterp spec fn rfc3339_millis(s: Seq<char>) -> Option<i64>;

/// The writing in RFC 3339 of the instant so many milliseconds after the
/// first moment of 1970 in UTC; `None` where the calendar library has no
/// date that far away.
pub uninterp spec fn rfc3339_text(millis: i64) -> Option<Seq<char>>;

/// Calls `bson::DateTime::parse_rfc3339_str` and asks the date for its
/// `timestamp_millis`; an error of the call becomes `None`. The contract
/// only gives the result the name [`rfc3339_millis`].
#[verifier::external_body]
fn parse_rfc3339(s: &str) -> (millis: Option<i64>)
    ensures
        millis == rfc3339_millis(s@),
{
    bson::DateTime::parse_rfc3339_str(s).ok().map(|date| date.timestamp_millis())
}

/// Calls `chrono::TimeZone::timestamp_millis_opt` on `Utc` and writes the
/// one date it gives with `to_rfc3339`; `None` where it gives none, which is
/// where the calendar library has no such date. Beyond that the contract
/// only gives the result the name [`rfc3339_text`].
#[verifier::external_body]
fn format_rfc3339(millis: i64) -> (text: Option<String>)
    ensures
        text.deep_view() == rfc3339_text(millis),
        text is Some <==> crate::utils::calendar_has(millis),
{
    chrono::TimeZone::timestamp_millis_opt(&chrono::Utc, millis).single().map(|date| date.to_rfc3339())
}

/// An instant, in milliseconds since the first moment of 1970 in UTC.
#[derive(Debug, Clone, Copy, PartialEq, Eq)]
pub struct MyDateTime(pub i64);

/// What reading a date gives: the instant, or the complaint about the text.
pub open spec fn date_of_text(millis: Option<i64>) -> Result<i64, Seq<char>> {
    match millis {
        Some(m) => Ok(m),
        None => Err("invalid RFC 3339 datetime format"@),
    }
}

/// What writing a date gives: the text, or the complaint about the instant.
pub open spec fn text_of_date(text: Option<Seq<char>>) -> Result<Seq<char>, Seq<char>> {
    match text {
        Some(t) => Ok(t),
        None => Err("Invalid timestamp"@),
    }
}

/// The content of a date or the message in its place.
pub open spec fn date_result_view(result: Result<MyDateTime, String>) -> Result<i64, Seq<char>> {
    match result {
        Ok(date) => Ok(date.0),
        Err(message) => Err(message@),
    }
}

impl MyDateTime {
    /// The date as it is written when it is serialised: in RFC 3339.
    pub fn to_rfc3339(&self) -> (text: Result<String, String>)
        ensures
            crate::country_utils::text_result_view(text) == text_of_date(rfc3339_text(self.0)),
            text is Ok <==> crate::utils::calendar_has(self.0),
    {
        Self::written(format_rfc3339(self.0))
    }

    /// Makes the answer of [`MyDateTime::to_rfc3339`] out of what the
    /// calendar library wrote.
    pub fn written(text: Option<String>) -> (answer: Result<String, String>)
        ensures
            crate::country_utils::text_result_view(answer) == text_of_date(text.deep_view()),
    {
        match text {
            Some(t) => Ok(t),
            None => Err(String::from_str("Invalid timestamp")),
        }
    }

    /// Reads a date as it is written when it is serialised: in RFC 3339.
    pub fn parse_rfc3339(s: &str) -> (date: Result<Self, String>)
        ensures
            date_result_view(date) == date_of_text(rfc3339_millis(s@)),
    {
        Self::read(parse_rfc3339(s))
    }

    /// Makes the answer of [`MyDateTime::parse_rfc3339`] out of what the
    /// date library read.
    pub fn read(millis: Option<i64>) -> (date: Result<Self, String>)
        ensures
            date_result_view(date) == date_of_text(millis),
    {
        match millis {
            Some(m) => Ok(MyDateTime(m)),
            None => Err(String::from_str("invalid RFC 3339 datetime format")),
        }
    }
}

/// A message that only its receiver can read, and the address it goes to.
#[derive(Debug, Clone)]
pub struct EncryptedMessage {
    pub address: String,
    pub encrypted_message: String,
}

impl EncryptedMessage {
    /// A message is valid when it has an address and a content.
    pub fn is_valid(&self) -> (valid: bool)
        ensures
            valid == (self.address@.len() > 0 && self.encrypted_message@.len() > 0),
    {
        if self.address.as_str().is_empty() {
            return false;
        }
        if self.encrypted_message.as_str().is_empty() {
            return false;
        }
        true
    }
}

/// The request to delete devices.
#[derive(Debug, Clone)]
pub struct DevicesDeleteRequest {
    pub device_ids: Vec<String>,
}

/// An API key as the telephony provider reports it.
#[derive(Debug, Clone)]
pub struct TwilioApiKeyResponse {
    pub sid: String,
    pub friendly_name: String,
    pub date_created: String,
    pub date_updated: String,
    pub secret: String,
}

/// An identifier with the name it goes by.
#[derive(Debug, Clone)]
pub struct IdNamePair {
    pub id: String,
    pub name: String,
}

/// An identifier with the key that belongs to it.
#[derive(Debug, Clone)]
pub struct IdKeyPair {
    pub id: String,
    pub key: String,
}

} // verus!
