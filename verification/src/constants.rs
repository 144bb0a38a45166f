//! Names that several modules share.

use vstd::prelude::*;

verus! {

/// The environment variable that names the environment the service runs in.
pub const ENV: &'static str = "ENV";

/// The value of [`ENV`] on a developer's machine.
pub const LOCAL_ENV: &'static str = "local";

/// The region served from the United Kingdom.
pub const UK: &'static str = "UK";

/// The region served from the Kingdom of Saudi Arabia.
pub const KSA: &'static str = "KSA";

} // verus!
