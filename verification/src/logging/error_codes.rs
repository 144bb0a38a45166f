//! The codes under which failures are logged.

use vstd::prelude::*;

verus! {

// Validation
pub const VAL_INVALID_FORMAT: &'static str = "VAL001";

pub const VAL_MISSING_FIELD: &'static str = "VAL002";

pub const VAL_LENGTH_VIOLATION: &'static str = "VAL003";

pub const VAL_INVALID_ENUM: &'static str = "VAL004";

pub const VAL_BUSINESS_RULE: &'static str = "VAL005";

// Business logic
pub const BIZ_DUPLICATE: &'static str = "BIZ001";

pub const BIZ_NOT_FOUND: &'static str = "BIZ002";

pub const BIZ_NOT_ALLOWED: &'static str = "BIZ003";

pub const BIZ_QUOTA_EXCEEDED: &'static str = "BIZ004";

pub const BIZ_INVALID_STATE: &'static str = "BIZ005";

// Database
pub const DB_CONNECTION_TIMEOUT: &'static str = "DB001";

pub const DB_QUERY_FAILED: &'static str = "DB002";

pub const DB_TRANSACTION_FAILED: &'static str = "DB003";

pub const DB_INDEX_VIOLATION: &'static str = "DB004";

pub const DB_SHARD_ERROR: &'static str = "DB005";

pub const INT_REPOSITORY_ERROR: &'static str = "DB006";

// Security
pub const SEC_AUTH_FAILED: &'static str = "SEC001";

pub const SEC_ACCESS_DENIED: &'static str = "SEC002";

pub const SEC_TOKEN_INVALID: &'static str = "SEC003";

pub const SEC_RATE_LIMITED: &'static str = "SEC004";

pub const SEC_SUSPICIOUS: &'static str = "SEC005";

// Integration
pub const INT_TIMEOUT: &'static str = "INT001";

pub const INT_SERVICE_ERROR: &'static str = "INT002";

pub const INT_FORMAT_MISMATCH: &'static str = "INT003";

pub const INT_UNAVAILABLE: &'static str = "INT004";

} // verus!
