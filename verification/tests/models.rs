use common_lib::constants::{ENV, KSA, LOCAL_ENV, UK};
use common_lib::error::ApiError;
use common_lib::logging::error_codes;
use common_lib::logging::{
    cut_to_u64, extract_or_generate_correlation_id, generate_correlation_id, LogLevel,
    OperationTimer,
};
use common_lib::shared_models::{
    DevicesDeleteRequest, EncryptedMessage, IdKeyPair, IdNamePair, MyDateTime, MyObjectId,
    TwilioApiKeyResponse,
};
use common_lib::text::{
    first_segment, i64_to_string, same_text, same_text_ignore_ascii_case, starts_with, trim,
    trim_start_matches, u64_to_string,
};
use common_lib::utils::{
    chrono_from_mongo_datetime, generate_random_alphanumeric_string, generate_random_token,
    get_country_code_from_phone_number, is_local_env, mongo_from_chrono_datetime,
    optional_object_id_to_string, parse_optional_object_id,
    parse_optional_object_id_from_option_string, parse_required_object_id,
    parse_required_object_id_from_string, get_env_var, try_get_country_code_from_phone_number,
    UtcDateTime, CALENDAR_MAX_MILLIS, CALENDAR_MIN_MILLIS,
};

const HEX_ID: &str = "507f1f77bcf86cd799439011";
const ID_BYTES: [u8; 12] =
    [0x50, 0x7f, 0x1f, 0x77, 0xbc, 0xf8, 0x6c, 0xd7, 0x99, 0x43, 0x90, 0x11];

#[test]
fn test_status_codes() {
    let message = || "m".to_string();
    assert_eq!(ApiError::NotFound { message: message() }.status_code(), 404);
    assert_eq!(ApiError::InternalServerError { message: message() }.status_code(), 500);
    assert_eq!(ApiError::BadRequest { message: message() }.status_code(), 400);
    assert_eq!(ApiError::Unauthorized { message: message() }.status_code(), 401);
    assert_eq!(ApiError::PaymentRequired { message: message() }.status_code(), 402);
    let quota = ApiError::QuotaExceeded {
        resource: "sms".to_string(),
        monthly_count: 5,
        lifetime_count: -3,
        monthly_limit: 10,
        lifetime_limit: 100,
    };
    assert_eq!(quota.status_code(), 402);
    assert_eq!(ApiError::registration_required("vote").status_code(), 428);
}

#[test]
fn test_http_status_carries_the_status_code() {
    let errors = [
        ApiError::NotFound { message: String::new() },
        ApiError::InternalServerError { message: String::new() },
        ApiError::BadRequest { message: String::new() },
        ApiError::Unauthorized { message: String::new() },
        ApiError::PaymentRequired { message: String::new() },
        ApiError::registration_required("vote"),
    ];
    for error in errors {
        assert_eq!(error.http_status().code, error.status_code());
    }
    assert_eq!(ApiError::NotFound { message: String::new() }.http_status().code, 404);
}

#[test]
fn test_error_text() {
    let message = || "it broke".to_string();
    assert_eq!(ApiError::NotFound { message: message() }.to_string(), "Not Found: it broke");
    assert_eq!(
        ApiError::InternalServerError { message: message() }.to_string(),
        "Internal Server Error: it broke"
    );
    assert_eq!(
        ApiError::BadRequest { message: message() }.to_string(),
        "Bad Request Error: it broke"
    );
    assert_eq!(
        ApiError::Unauthorized { message: message() }.to_string(),
        "Unauthorized Error: it broke"
    );
    assert_eq!(
        ApiError::PaymentRequired { message: message() }.to_string(),
        "Payment Required: it broke"
    );
    let quota = ApiError::QuotaExceeded {
        resource: "sms".to_string(),
        monthly_count: 5,
        lifetime_count: -3,
        monthly_limit: 10,
        lifetime_limit: i32::MIN,
    };
    assert_eq!(
        quota.to_string(),
        "Quota exceeded for 'sms': monthly 5/10 ; lifetime -3/-2147483648"
    );
    assert_eq!(
        ApiError::registration_required("vote").to_string(),
        "Registration Required: Registration required to vote - You need to register with your \
         phone number to vote - Please complete registration to continue"
    );
}

#[test]
fn test_registration_required() {
    assert_eq!(
        ApiError::registration_required("send messages"),
        ApiError::RegistrationRequired {
            message: "Registration required to send messages".to_string(),
            reason: "You need to register with your phone number to send messages".to_string(),
            suggested_action: "Please complete registration to continue".to_string(),
        }
    );
}

#[test]
fn test_error_conversions() {
    assert_eq!(
        ApiError::from("disk full".to_string()),
        ApiError::InternalServerError { message: "disk full".to_string() }
    );
    let converted: ApiError = "disk full".to_string().into();
    assert_eq!(
        converted,
        ApiError::InternalServerError {
            message: "Generic conversion error: disk full".to_string()
        }
    );
}

#[test]
fn test_decimal_rendering() {
    assert_eq!(u64_to_string(0), "0");
    assert_eq!(u64_to_string(7), "7");
    assert_eq!(u64_to_string(10), "10");
    assert_eq!(u64_to_string(1_234_567_890), "1234567890");
    assert_eq!(u64_to_string(u64::MAX), "18446744073709551615");
    assert_eq!(i64_to_string(0), "0");
    assert_eq!(i64_to_string(-1), "-1");
    assert_eq!(i64_to_string(i64::MAX), "9223372036854775807");
    assert_eq!(i64_to_string(i64::MIN), "-9223372036854775808");
}

#[test]
fn test_text_helpers() {
    assert_eq!(trim("  a b \t\n"), "a b");
    assert_eq!(trim("\u{a0}x\u{3000}"), "x");
    assert_eq!(trim(" \r\n "), "");
    assert_eq!(trim(""), "");
    assert_eq!(trim("x"), "x");
    assert!(same_text("abc", "abc"));
    assert!(!same_text("abc", "abd"));
    assert!(!same_text("abc", "ab"));
    assert!(same_text_ignore_ascii_case("X-Real-IP", "x-real-ip"));
    assert!(!same_text_ignore_ascii_case("X-Real-IP", "x_real_ip"));
    assert!(!same_text_ignore_ascii_case("@", "`"));
    assert!(!same_text_ignore_ascii_case("É", "é"));
    assert!(starts_with("REST:get", "REST:"));
    assert!(!starts_with("RES", "REST:"));
    assert!(starts_with("abc", ""));
    assert_eq!(first_segment("a,b,c", ','), "a");
    assert_eq!(first_segment(",b", ','), "");
    assert_eq!(first_segment("abc", ','), "abc");
    assert_eq!(trim_start_matches("+++44", '+'), "44");
    assert_eq!(trim_start_matches("44+", '+'), "44+");
    assert_eq!(trim_start_matches("++", '+'), "");
}

#[test]
fn test_correlation_ids() {
    let id = generate_correlation_id();
    assert_eq!(id.len(), 36);
    for (i, c) in id.chars().enumerate() {
        if i == 8 || i == 13 || i == 18 || i == 23 {
            assert_eq!(c, '-');
        } else {
            assert!(c.is_ascii_digit() || ('a'..='f').contains(&c));
        }
    }
    assert_eq!(id.chars().nth(14), Some('4'));
    assert!(matches!(id.chars().nth(19), Some('8' | '9' | 'a' | 'b')));
    assert_ne!(generate_correlation_id(), id);
    assert_eq!(extract_or_generate_correlation_id(Some("req-42")), "req-42");
    assert_eq!(extract_or_generate_correlation_id(Some("")), "");
    assert_eq!(extract_or_generate_correlation_id(None).len(), 36);
}

#[test]
fn test_operation_timer_lines() {
    let timer = OperationTimer::new("REST:get_user", "req-1");
    assert_eq!(timer.get_layer(), "REST");
    assert_eq!(
        timer.completion_line(12, "SUCCESS", "found"),
        "REST:REST:get_user [SUCCESS:12ms] [req_id:req-1] found"
    );
    assert_eq!(OperationTimer::new("SERVICE:x", "r").get_layer(), "SERVICE");
    assert_eq!(OperationTimer::new("REPO:x", "r").get_layer(), "REPO");
    assert_eq!(OperationTimer::new("MODEL:x", "r").get_layer(), "MODEL");
    assert_eq!(OperationTimer::new("GEO:get_location", "r").get_layer(), "UNKNOWN");
    assert_eq!(OperationTimer::new("rest:x", "r").get_layer(), "UNKNOWN");
    assert_eq!(
        OperationTimer::new("GEO:get_location", "r").completion_line(0, "CACHE_HIT", ""),
        "UNKNOWN:GEO:get_location [CACHE_HIT:0ms] [req_id:r] "
    );
}

#[test]
fn test_log_completion_record() {
    let timer = OperationTimer::new("REPO:save", "req-9");
    let record = timer.log_completion(LogLevel::Warn, error_codes::DB_QUERY_FAILED, "retrying");
    assert_eq!(record.level, LogLevel::Warn);
    assert!(record.line.starts_with("REPO:REPO:save [DB002:"));
    assert!(record.line.ends_with("ms] [req_id:req-9] retrying"));
    let duration: u64 = record.line["REPO:REPO:save [DB002:".len()..]
        .split("ms]")
        .next()
        .unwrap()
        .parse()
        .unwrap();
    assert!(duration < 60_000);
    assert!(timer.elapsed_ms() < 60_000);
    assert_eq!(timer.completion_line(duration, "DB002", "retrying"), record.line);
}

#[test]
fn test_millis_cut_to_64_bits() {
    assert_eq!(cut_to_u64(0), 0);
    assert_eq!(cut_to_u64(1_500), 1_500);
    assert_eq!(cut_to_u64(u64::MAX as u128), u64::MAX);
    assert_eq!(cut_to_u64(u64::MAX as u128 + 1), 0);
    assert_eq!(cut_to_u64((7u128 << 64) + 42), 42);
    assert_eq!(cut_to_u64(u128::MAX), u64::MAX);
}

#[test]
fn test_error_codes() {
    assert_eq!(error_codes::VAL_INVALID_FORMAT, "VAL001");
    assert_eq!(error_codes::VAL_BUSINESS_RULE, "VAL005");
    assert_eq!(error_codes::BIZ_QUOTA_EXCEEDED, "BIZ004");
    assert_eq!(error_codes::INT_REPOSITORY_ERROR, "DB006");
    assert_eq!(error_codes::SEC_RATE_LIMITED, "SEC004");
    assert_eq!(error_codes::INT_UNAVAILABLE, "INT004");
}

#[test]
fn test_random_token() {
    for _ in 0..200 {
        let token = generate_random_token();
        assert_eq!(token.len(), 6);
        let number: u32 = token.parse().unwrap();
        assert!((111111..=999999).contains(&number));
    }
}

#[test]
fn test_random_key() {
    let key = generate_random_alphanumeric_string();
    assert_eq!(key.len(), 64);
    assert!(key.chars().all(|c| c.is_ascii_digit() || ('a'..='f').contains(&c)));
    assert_ne!(generate_random_alphanumeric_string(), key);
}

#[test]
fn test_object_id_round_trip() {
    let id = MyObjectId::parse_string(HEX_ID).unwrap();
    assert_eq!(id, MyObjectId(ID_BYTES));
    assert_eq!(id.to_string(), HEX_ID);
    let upper = MyObjectId::try_parse_str("507F1F77BCF86CD799439011").unwrap();
    assert_eq!(upper, id);
    assert_eq!(upper.to_string(), HEX_ID);
    assert_eq!(MyObjectId([0xff; 12]).to_string(), "ffffffffffffffffffffffff");
    assert_eq!(MyObjectId([0x0a; 12]).to_string(), "0a0a0a0a0a0a0a0a0a0a0a0a");
}

#[test]
fn test_object_id_rejects_other_texts() {
    assert!(MyObjectId::parse_string("").is_err());
    assert!(MyObjectId::parse_string("507f1f77bcf86cd79943901").is_err());
    assert!(MyObjectId::parse_string("507f1f77bcf86cd7994390111").is_err());
    assert!(MyObjectId::parse_string("507f1f77bcf86cd79943901g").is_err());
    assert!(MyObjectId::parse_string("507f1f77bcf86cd7994390é").is_err());
    assert!(MyObjectId::try_parse_str(" 07f1f77bcf86cd799439011").is_err());
}

#[test]
fn test_object_id_new_and_empty() {
    let a = MyObjectId::new();
    let b = MyObjectId::new();
    assert_ne!(a, b);
    assert!(!a.is_empty());
    assert!(MyObjectId([0; 12]).is_empty());
    let mut bytes = [0u8; 12];
    bytes[11] = 1;
    assert!(!MyObjectId(bytes).is_empty());
    assert_eq!(MyObjectId::parse_string(&a.to_string()).unwrap(), a);
}

#[test]
fn test_parse_object_id_helpers() {
    let id = MyObjectId(ID_BYTES);
    assert_eq!(parse_optional_object_id(None), Ok(None));
    assert_eq!(parse_optional_object_id(Some("")), Ok(None));
    assert_eq!(parse_optional_object_id(Some(HEX_ID)), Ok(Some(id)));
    assert_eq!(
        parse_optional_object_id(Some("xyz")),
        Err("provided hex string representation must be exactly 12 bytes, instead got: \"xyz\", \
             length 3"
            .to_string())
    );
    assert_eq!(parse_optional_object_id_from_option_string(None), Ok(None));
    assert_eq!(parse_optional_object_id_from_option_string(Some(String::new())), Ok(None));
    assert_eq!(
        parse_optional_object_id_from_option_string(Some(HEX_ID.to_string())),
        Ok(Some(id))
    );
    assert!(parse_optional_object_id_from_option_string(Some("zz".to_string())).is_err());
    assert_eq!(parse_required_object_id_from_string(HEX_ID), Ok(id));
    assert!(parse_required_object_id_from_string("").is_err());
    assert_eq!(parse_required_object_id(Some(HEX_ID), "user_id"), Ok(id));
    assert_eq!(
        parse_required_object_id(None, "user_id"),
        Err("Missing required field: user_id".to_string())
    );
    assert_eq!(
        parse_required_object_id(Some(""), "user_id"),
        Err("Missing required field: user_id".to_string())
    );
    assert_eq!(
        parse_required_object_id(Some("507f1f77bcf86cd79943901z"), "user_id"),
        Err("Invalid user_id format: invalid character 'z' was found at index 23 in the \
             provided hex string: \"507f1f77bcf86cd79943901z\""
            .to_string())
    );
    assert_eq!(optional_object_id_to_string(&Some(id)), Some(HEX_ID.to_string()));
    assert_eq!(optional_object_id_to_string(&None), None);
}

#[test]
fn test_dates_in_rfc3339() {
    assert_eq!(
        MyDateTime::parse_rfc3339("2024-01-01T00:00:00Z"),
        Ok(MyDateTime(1_704_067_200_000))
    );
    assert_eq!(
        MyDateTime::parse_rfc3339("1970-01-01T01:00:00.5+01:00"),
        Ok(MyDateTime(500))
    );
    assert_eq!(
        MyDateTime::parse_rfc3339("yesterday"),
        Err("invalid RFC 3339 datetime format".to_string())
    );
    assert_eq!(MyDateTime(0).to_rfc3339(), Ok("1970-01-01T00:00:00+00:00".to_string()));
    assert_eq!(
        MyDateTime(1_704_067_200_123).to_rfc3339(),
        Ok("2024-01-01T00:00:00.123+00:00".to_string())
    );
    assert_eq!(MyDateTime(i64::MAX).to_rfc3339(), Err("Invalid timestamp".to_string()));
    assert_eq!(MyDateTime::read(None), Err("invalid RFC 3339 datetime format".to_string()));
    assert_eq!(MyDateTime::read(Some(5)), Ok(MyDateTime(5)));
    assert_eq!(MyDateTime::written(None), Err("Invalid timestamp".to_string()));
    assert_eq!(MyDateTime::written(Some("x".to_string())), Ok("x".to_string()));
}

#[test]
fn test_dates_between_database_and_calendar() {
    let date = chrono_from_mongo_datetime(&MyDateTime(1_704_067_200_000)).unwrap();
    assert_eq!(date.timestamp_millis(), 1_704_067_200_000);
    assert_eq!(mongo_from_chrono_datetime(date), MyDateTime(1_704_067_200_000));
    assert_eq!(
        chrono_from_mongo_datetime(&MyDateTime(i64::MAX)),
        Err("Invalid timestamp: 9223372036854775807".to_string())
    );
    assert_eq!(
        chrono_from_mongo_datetime(&MyDateTime(i64::MIN)),
        Err("Invalid timestamp: -9223372036854775808".to_string())
    );
    assert!(UtcDateTime::from_timestamp_millis(-1).is_some());
    assert!(UtcDateTime::from_timestamp_millis(i64::MAX).is_none());
}

#[test]
fn test_calendar_range() {
    assert_eq!(CALENDAR_MIN_MILLIS, -8_334_601_228_800_000);
    assert_eq!(CALENDAR_MAX_MILLIS, 8_210_266_876_799_999);
    assert!(UtcDateTime::from_timestamp_millis(CALENDAR_MIN_MILLIS).is_some());
    assert!(UtcDateTime::from_timestamp_millis(CALENDAR_MIN_MILLIS - 1).is_none());
    assert!(UtcDateTime::from_timestamp_millis(CALENDAR_MAX_MILLIS).is_some());
    assert!(UtcDateTime::from_timestamp_millis(CALENDAR_MAX_MILLIS + 1).is_none());
    assert!(UtcDateTime::from_timestamp_millis(0).is_some());
    assert_eq!(
        MyDateTime(CALENDAR_MIN_MILLIS).to_rfc3339(),
        Ok("-262143-01-01T00:00:00+00:00".to_string())
    );
    assert_eq!(
        MyDateTime(CALENDAR_MAX_MILLIS).to_rfc3339(),
        Ok("+262142-12-31T23:59:59.999+00:00".to_string())
    );
    assert_eq!(
        MyDateTime(CALENDAR_MIN_MILLIS - 1).to_rfc3339(),
        Err("Invalid timestamp".to_string())
    );
    assert_eq!(
        MyDateTime(CALENDAR_MAX_MILLIS + 1).to_rfc3339(),
        Err("Invalid timestamp".to_string())
    );
    assert_eq!(
        chrono_from_mongo_datetime(&MyDateTime(CALENDAR_MAX_MILLIS + 1)),
        Err("Invalid timestamp: 8210266876800000".to_string())
    );
}

#[test]
fn test_white_space_is_the_unicode_set() {
    let white_space = |c: char| {
        matches!(
            c as u32,
            0x09..=0x0D
                | 0x20
                | 0x85
                | 0xA0
                | 0x1680
                | 0x2000..=0x200A
                | 0x2028
                | 0x2029
                | 0x202F
                | 0x205F
                | 0x3000
        )
    };
    for code in 0..=0x10FFFFu32 {
        if let Some(c) = char::from_u32(code) {
            assert_eq!(c.is_whitespace(), white_space(c), "U+{code:04X}");
            let padded = format!("{c}x{c}");
            let expected = if white_space(c) { "x" } else { padded.as_str() };
            if code < 0x3100 {
                assert_eq!(trim(&padded), expected, "U+{code:04X}");
            }
        }
    }
    assert_eq!(trim("\u{180E}x\u{200B}"), "\u{180E}x\u{200B}");
}

#[test]
fn test_parse_or_explain() {
    assert_eq!(MyObjectId::parse_or_explain(HEX_ID), Ok(MyObjectId(ID_BYTES)));
    assert_eq!(
        MyObjectId::parse_or_explain("12"),
        Err("provided hex string representation must be exactly 12 bytes, instead got: \"12\", \
             length 2"
            .to_string())
    );
    assert_eq!(
        MyObjectId::parse_or_explain("x07f1f77bcf86cd799439011"),
        Err("invalid character 'x' was found at index 0 in the provided hex string: \
             \"x07f1f77bcf86cd799439011\""
            .to_string())
    );
    assert_eq!(
        parse_required_object_id_from_string("abc"),
        Err("provided hex string representation must be exactly 12 bytes, instead got: \"abc\", \
             length 3"
            .to_string())
    );
    assert_eq!(
        parse_optional_object_id_from_option_string(Some("zz".to_string())),
        Err("invalid character 'z' was found at index 0 in the provided hex string: \"zz\""
            .to_string())
    );
}

#[test]
fn test_encrypted_message_validity() {
    let message = |address: &str, content: &str| EncryptedMessage {
        address: address.to_string(),
        encrypted_message: content.to_string(),
    };
    assert!(message("a", "b").is_valid());
    assert!(!message("", "b").is_valid());
    assert!(!message("a", "").is_valid());
    assert!(!message("", "").is_valid());
    assert!(message(" ", " ").is_valid());
}

#[test]
fn test_plain_models() {
    let request = DevicesDeleteRequest { device_ids: vec!["a".to_string()] };
    assert_eq!(request.clone().device_ids, vec!["a".to_string()]);
    let key = TwilioApiKeyResponse {
        sid: "SK1".to_string(),
        friendly_name: "n".to_string(),
        date_created: "c".to_string(),
        date_updated: "u".to_string(),
        secret: "SECRET-REDACTED".to_string(),
    };
    assert_eq!(key.clone().sid, "SK1");
    let name = IdNamePair { id: "1".to_string(), name: "one".to_string() };
    assert_eq!(name.clone().name, "one");
    let pair = IdKeyPair { id: "1".to_string(), key: "k".to_string() };
    assert_eq!(pair.clone().key, "k");
}

#[test]
fn test_phone_region() {
    assert_eq!(get_country_code_from_phone_number("+447911123456"), "UK");
    assert_eq!(get_country_code_from_phone_number("447911123456"), "UK");
    assert_eq!(get_country_code_from_phone_number("++44"), "UK");
    assert_eq!(get_country_code_from_phone_number("+966501234567"), "Unknown");
    assert_eq!(get_country_code_from_phone_number("+16502530000"), "Unknown");
    assert_eq!(get_country_code_from_phone_number("4"), "Unknown");
    assert_eq!(get_country_code_from_phone_number("é4"), "Unknown");
    assert_eq!(try_get_country_code_from_phone_number("+44"), Some("UK".to_string()));
    assert_eq!(try_get_country_code_from_phone_number("+1"), Some("Unknown".to_string()));
    assert_eq!(try_get_country_code_from_phone_number(""), None);
    assert_eq!(try_get_country_code_from_phone_number("+++"), None);
    assert_eq!(try_get_country_code_from_phone_number("€44"), None);
}

#[test]
fn test_settings() {
    assert_eq!(get_env_var("PORT", Ok("8000".to_string()), Some("80")), Ok("8000".to_string()));
    assert_eq!(get_env_var("PORT", Ok("8000".to_string()), None), Ok("8000".to_string()));
    assert_eq!(
        get_env_var("PORT", Err("environment variable not found".to_string()), Some("80")),
        Ok("80".to_string())
    );
    assert_eq!(
        get_env_var("PORT", Err("environment variable not found".to_string()), None),
        Err("Environment variable PORT not set: environment variable not found".to_string())
    );
    assert!(is_local_env(LOCAL_ENV));
    assert!(!is_local_env("production"));
    assert!(!is_local_env(""));
    assert_eq!(ENV, "ENV");
    assert_eq!(UK, "UK");
    assert_eq!(KSA, "KSA");
}
