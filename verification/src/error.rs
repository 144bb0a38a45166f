//! The error values that the service answers with.

use vstd::prelude::*;
use vstd::string::*;
use crate::text::{concat2, i64_to_string, signed_decimal};

verus! {

/// What can go wrong with a request, each kind with the HTTP status that
/// reports it.
#[derive(Debug, PartialEq, Eq)]
pub enum ApiError {
    NotFound { message: String },
    InternalServerError { message: String },
    BadRequest { message: String },
    Unauthorized { message: String },
    PaymentRequired { message: String },
    QuotaExceeded {
        resource: String,
        monthly_count: i32,
        lifetime_count: i32,
        monthly_limit: i32,
        lifetime_limit: i32,
    },
    RegistrationRequired { message: String, reason: String, suggested_action: String },
}

/// The mathematical content of an [`ApiError`].
pub ghost enum ApiErrorView {
    NotFound { message: Seq<char> },
    InternalServerError { message: Seq<char> },
    BadRequest { message: Seq<char> },
    Unauthorized { message: Seq<char> },
    PaymentRequired { message: Seq<char> },
    QuotaExceeded {
        resource: Seq<char>,
        monthly_count: i32,
        lifetime_count: i32,
        monthly_limit: i32,
        lifetime_limit: i32,
    },
    RegistrationRequired { message: Seq<char>, reason: Seq<char>, suggested_action: Seq<char> },
}

impl View for ApiError {
    type V = ApiErrorView;

    open spec fn view(&self) -> ApiErrorView {
        match self {
            ApiError::NotFound { message } => ApiErrorView::NotFound { message: message@ },
            ApiError::InternalServerError { message } => ApiErrorView::InternalServerError {
                message: message@,
            },
            ApiError::BadRequest { message } => ApiErrorView::BadRequest { message: message@ },
            ApiError::Unauthorized { message } => ApiErrorView::Unauthorized { message: message@ },
            ApiError::PaymentRequired { message } => ApiErrorView::PaymentRequired {
                message: message@,
            },
            ApiError::QuotaExceeded {
                resource,
                monthly_count,
                lifetime_count,
                monthly_limit,
                lifetime_limit,
            } => ApiErrorView::QuotaExceeded {
                resource: resource@,
                monthly_count: *monthly_count,
                lifetime_count: *lifetime_count,
                monthly_limit: *monthly_limit,
                lifetime_limit: *lifetime_limit,
            },
            ApiError::RegistrationRequired {
                message,
                reason,
                suggested_action,
            } => ApiErrorView::RegistrationRequired {
                message: message@,
                reason: reason@,
                suggested_action: suggested_action@,
            },
        }
    }
}

impl ApiErrorView {
    /// The HTTP status code that reports the error.
    pub open spec fn status_code(self) -> u16 {
        match self {
            ApiErrorView::NotFound { .. } => 404,
            ApiErrorView::InternalServerError { .. } => 500,
            ApiErrorView::BadRequest { .. } => 400,
            ApiErrorView::Unauthorized { .. } => 401,
            ApiErrorView::PaymentRequired { .. } => 402,
            ApiErrorView::QuotaExceeded { .. } => 402,
            ApiErrorView::RegistrationRequired { .. } => 428,
        }
    }

    /// The line that describes the error to a reader.
    pub open spec fn text(self) -> Seq<char> {
        match self {
            ApiErrorView::NotFound { message } => "Not Found: "@ + message,
            ApiErrorView::InternalServerError { message } => "Internal Server Error: "@ + message,
            ApiErrorView::BadRequest { message } => "Bad Request Error: "@ + message,
            ApiErrorView::Unauthorized { message } => "Unauthorized Error: "@ + message,
            ApiErrorView::PaymentRequired { message } => "Payment Required: "@ + message,
            ApiErrorView::QuotaExceeded {
                resource,
                monthly_count,
                lifetime_count,
                monthly_limit,
                lifetime_limit,
            } => "Quota exceeded for '"@ + resource + "': monthly "@ + signed_decimal(
                monthly_count as int,
            ) + "/"@ + signed_decimal(monthly_limit as int) + " ; lifetime "@ + signed_decimal(
                lifetime_count as int,
            ) + "/"@ + signed_decimal(lifetime_limit as int),
            ApiErrorView::RegistrationRequired {
                message,
                reason,
                suggested_action,
            } => "Registration Required: "@ + message + " - "@ + reason + " - "@ + suggested_action,
        }
    }
}

/// The error that asks a caller to register before it may do `action`.
pub open spec fn registration_required_view(action: Seq<char>) -> ApiErrorView {
    ApiErrorView::RegistrationRequired {
        message: "Registration required to "@ + action,
        reason: "You need to register with your phone number to "@ + action,
        suggested_action: "Please complete registration to continue"@,
    }
}

#[verifier::external_type_specification]
#[verifier::external_body]
pub struct ExStatus(rocket::http::Status);

/// Calls `rocket::http::Status::new`, which makes the status that carries
/// the given code. A `Status` is opaque here, so the contract is silent.
#[verifier::external_body]
fn status_of_code(code: u16) -> (status: rocket::http::Status) {
    rocket::http::Status::new(code)
}

impl ApiError {
    /// The HTTP status that reports the error: the one with the code that
    /// [`ApiError::status_code`] gives.
    pub fn http_status(&self) -> (status: rocket::http::Status) {
        status_of_code(self.status_code())
    }

    /// The error that asks a caller to register before it may do `action`.
    pub fn registration_required(action: &str) -> (error: Self)
        ensures
            error@ == registration_required_view(action@),
    {
        ApiError::RegistrationRequired {
            message: concat2("Registration required to ", action),
            reason: concat2("You need to register with your phone number to ", action),
            suggested_action: String::from_str("Please complete registration to continue"),
        }
    }

    /// The HTTP status code that reports the error.
    pub fn status_code(&self) -> (code: u16)
        ensures
            code == self@.status_code(),
    {
        match self {
            ApiError::NotFound { .. } => 404,
            ApiError::InternalServerError { .. } => 500,
            ApiError::BadRequest { .. } => 400,
            ApiError::Unauthorized { .. } => 401,
            ApiError::PaymentRequired { .. } => 402,
            ApiError::QuotaExceeded { .. } => 402,
            ApiError::RegistrationRequired { .. } => 428,
        }
    }

    /// An internal error that carries the text of a failure from elsewhere.
    pub fn from(error_text: String) -> (error: Self)
        ensures
            error@ == (ApiErrorView::InternalServerError { message: error_text@ }),
    {
        ApiError::InternalServerError { message: error_text }
    }

    /// The line that describes the error to a reader.
    pub fn to_string(&self) -> (text: String)
        ensures
            text@ == self@.text(),
    {
        match self {
            ApiError::NotFound { message } => concat2("Not Found: ", message.as_str()),
            ApiError::InternalServerError { message } => concat2(
                "Internal Server Error: ",
                message.as_str(),
            ),
            ApiError::BadRequest { message } => concat2("Bad Request Error: ", message.as_str()),
            ApiError::Unauthorized { message } => concat2("Unauthorized Error: ", message.as_str()),
            ApiError::PaymentRequired { message } => concat2("Payment Required: ", message.as_str()),
            ApiError::QuotaExceeded {
                resource,
                monthly_count,
                lifetime_count,
                monthly_limit,
                lifetime_limit,
            } => {
                let mut text = concat2("Quota exceeded for '", resource.as_str());
                text.append("': monthly ");
                text.append(i64_to_string(*monthly_count as i64).as_str());
                text.append("/");
                text.append(i64_to_string(*monthly_limit as i64).as_str());
                text.append(" ; lifetime ");
                text.append(i64_to_string(*lifetime_count as i64).as_str());
                text.append("/");
                text.append(i64_to_string(*lifetime_limit as i64).as_str());
                text
            },
            ApiError::RegistrationRequired { message, reason, suggested_action } => {
                let mut text = concat2("Registration Required: ", message.as_str());
                text.append(" - ");
                text.append(reason.as_str());
                text.append(" - ");
                text.append(suggested_action.as_str());
                text
            },
        }
    }
}

/// The conversion builds a new text, which no specification-level value can
/// name: what it yields is stated by the `ensures` of `from` itself.
impl vstd::std_specs::convert::FromSpecImpl<String> for ApiError {
    open spec fn obeys_from_spec() -> bool {
        false
    }

    open spec fn from_spec(message: String) -> Self {
        ApiError::InternalServerError { message }
    }
}

impl From<String> for ApiError {
    /// A bare message becomes an internal error that says where it came from.
    fn from(message: String) -> (error: ApiError)
        ensures
            error@ == (ApiErrorView::InternalServerError {
                message: "Generic conversion error: "@ + message@,
            }),
    {
        ApiError::InternalServerError {
            message: concat2("Generic conversion error: ", message.as_str()),
        }
    }
}

} // verus!
