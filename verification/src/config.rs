//! Driver selection and start-up configuration checks.
//!
//! The tool drives a browser through one of three driver kinds: a spawned
//! Chrome driver binary, a spawned Gecko driver binary, or an already-running
//! driver reached over HTTP. Each kind needs one connection parameter: the
//! spawned kinds need a path to the driver executable, the HTTP kind needs an
//! endpoint URL. Everything here is decided before any signal registration or
//! driver call happens.

use vstd::prelude::*;
use vstd::string::StrSliceExecFns;

verus! {

/// Which kind of WebDriver endpoint the session is built against.
#[derive(Clone, Copy, Debug, PartialEq, Eq, Structural)]
pub enum DriverType {
    /// A Chrome driver binary, spawned from a local executable path.
    Chrome,
    /// A Gecko (Firefox) driver binary, spawned from a local executable path.
    Gecko,
    /// A driver already listening on a remote HTTP endpoint.
    Http,
}

/// A start-up configuration that is missing the connection parameter that the
/// selected driver kind needs. The process reports it and exits without
/// registering a single signal or making a single driver call.
#[derive(Clone, Copy, Debug, PartialEq, Eq, Structural)]
pub enum ConfigError {
    /// The HTTP driver kind was selected but no endpoint URL was supplied.
    MissingHttpUrl,
    /// A spawned driver kind was selected but no executable path was supplied.
    MissingDriverPath,
}

/// Whether two strings hold the same characters.
fn str_eq(a: &str, b: &str) -> (r: bool)
    ensures
        r <==> a@ == b@,
{
    let a_len = a.unicode_len();
    let b_len = b.unicode_len();
    if a_len != b_len {
        return false;
    }
    let mut i: usize = 0;
    while i < a_len
        invariant
            i <= a_len,
            a_len == a@.len(),
            a_len == b@.len(),
            forall|j: int| 0 <= j < i ==> a@[j] == b@[j],
        decreases a_len - i,
    {
        if a.get_char(i) != b.get_char(i) {
            return false;
        }
        i = i + 1;
    }
    proof {
        assert(a@ =~= b@);
    }
    true
}

/// Which driver kind a selector string names, if any.
pub open spec fn spec_parse_driver_type(s: Seq<char>) -> Option<DriverType> {
    if s == "chrome"@ {
        Some(DriverType::Chrome)
    } else if s == "gecko"@ {
        Some(DriverType::Gecko)
    } else if s == "http"@ {
        Some(DriverType::Http)
    } else {
        None
    }
}

impl DriverType {
    /// Parses a driver-type selector: exactly `"chrome"`, `"gecko"` or
    /// `"http"` name a driver kind; any other selector is invalid and yields
    /// `None`.
    pub fn parse(selector: &str) -> (r: Option<DriverType>)
        ensures
            r == spec_parse_driver_type(selector@),
    {
        if str_eq(selector, "chrome") {
            Some(DriverType::Chrome)
        } else if str_eq(selector, "gecko") {
            Some(DriverType::Gecko)
        } else if str_eq(selector, "http") {
            Some(DriverType::Http)
        } else {
            None
        }
    }

    /// Whether this driver kind connects over HTTP rather than by spawning a
    /// local driver binary.
    pub fn is_http(&self) -> (r: bool)
        ensures
            r <==> *self is Http,
    {
        match self {
            DriverType::Http => true,
            _ => false,
        }
    }
}

/// The validation outcome for a selected driver kind and the two optional
/// connection parameters: the HTTP kind demands an endpoint URL, the spawned
/// kinds demand a driver executable path.
pub open spec fn spec_validate_config(
    driver_type: DriverType,
    has_driver_path: bool,
    has_http_url: bool,
) -> Result<(), ConfigError> {
    if driver_type is Http && !has_http_url {
        Err(ConfigError::MissingHttpUrl)
    } else if !(driver_type is Http) && !has_driver_path {
        Err(ConfigError::MissingDriverPath)
    } else {
        Ok(())
    }
}

/// Checks that the connection parameter demanded by the selected driver kind
/// is present: an endpoint URL for the HTTP kind, a driver executable path
/// for the spawned kinds. Returns the error to report when it is missing.
pub fn validate_config(
    driver_type: DriverType,
    driver_path: &Option<String>,
    http_url: &Option<String>,
) -> (r: Result<(), ConfigError>)
    ensures
        r == spec_validate_config(driver_type, driver_path is Some, http_url is Some),
{
    if driver_type.is_http() {
        if http_url.is_none() {
            Err(ConfigError::MissingHttpUrl)
        } else {
            Ok(())
        }
    } else {
        if driver_path.is_none() {
            Err(ConfigError::MissingDriverPath)
        } else {
            Ok(())
        }
    }
}

impl ConfigError {
    /// The diagnostic printed to standard error for this configuration
    /// mistake.
    pub fn message(&self) -> (r: &'static str)
        ensures
            *self is MissingHttpUrl ==> r@ == "Need a HTTP endpoint URL when driver type is 'Http'."@,
            *self is MissingDriverPath ==> r@
                == "Need a driver path when driver type is 'Gecko' or 'Chrome'."@,
    {
        match self {
            ConfigError::MissingHttpUrl => "Need a HTTP endpoint URL when driver type is 'Http'.",
            ConfigError::MissingDriverPath => "Need a driver path when driver type is 'Gecko' or 'Chrome'.",
        }
    }
}

} // verus!
