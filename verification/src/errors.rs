//! The failures that the library reports.

use vstd::prelude::*;
use vstd::string::StringExecFns;

verus! {

/// Why an operation failed. The text in `Database`, `Redis` and
/// `Validation` is the report of whoever found the fault.
#[derive(Debug, Clone, PartialEq, Eq)]
pub enum RusError {
    /// The caller may not do this.
    Forbidden,
    /// The durable store failed.
    Database(String),
    /// The cache service failed.
    Redis(String),
    /// A fault of no known kind.
    Unknown,
    /// No redirection answers to the identifier or code.
    NotFound,
    /// The long URL is not a well-formed absolute URL.
    Validation(String),
}

impl RusError {
    /// The short name of the failure, with the report where there is one.
    pub open spec fn spec_name(self) -> Seq<char> {
        match self {
            RusError::Forbidden => "Forbidden"@,
            RusError::Unknown => "Unknown"@,
            RusError::NotFound => "NotFound"@,
            RusError::Database(details) => "Database : "@ + details@,
            RusError::Redis(details) => "Redis : "@ + details@,
            RusError::Validation(details) => "Validation : "@ + details@,
        }
    }

    /// The sentence that says what kind of failure this is.
    pub open spec fn spec_message(self) -> Seq<char> {
        match self {
            RusError::Forbidden => "Access forbidden"@,
            RusError::Database(_) => "Database error"@,
            RusError::Redis(_) => "Redis error"@,
            RusError::Unknown => "Unknown error"@,
            RusError::NotFound => "Cannot find redirection."@,
            RusError::Validation(_) => "Invalid long URL"@,
        }
    }

    /// The report of whoever found the fault, and the sentence for the
    /// kind of failure where there is no report.
    pub open spec fn spec_details(self) -> Seq<char> {
        match self {
            RusError::Database(details) => details@,
            RusError::Redis(details) => details@,
            RusError::Validation(details) => details@,
            _ => self.spec_message(),
        }
    }

    /// The short name of the failure, with the report where there is one.
    pub fn name(&self) -> (r: String)
        ensures
            r@ == self.spec_name(),
    {
        match self {
            RusError::Forbidden => "Forbidden".to_owned(),
            RusError::Unknown => "Unknown".to_owned(),
            RusError::NotFound => "NotFound".to_owned(),
            RusError::Database(details) => "Database : ".to_owned().concat(details.as_str()),
            RusError::Redis(details) => "Redis : ".to_owned().concat(details.as_str()),
            RusError::Validation(details) => "Validation : ".to_owned().concat(details.as_str()),
        }
    }

    /// The sentence that says what kind of failure this is.
    pub fn message(&self) -> (r: String)
        ensures
            r@ == self.spec_message(),
    {
        match self {
            RusError::Forbidden => "Access forbidden".to_owned(),
            RusError::Database(_) => "Database error".to_owned(),
            RusError::Redis(_) => "Redis error".to_owned(),
            RusError::Unknown => "Unknown error".to_owned(),
            RusError::NotFound => "Cannot find redirection.".to_owned(),
            RusError::Validation(_) => "Invalid long URL".to_owned(),
        }
    }

    /// The report of whoever found the fault, and the sentence for the
    /// kind of failure where there is no report.
    pub fn details(&self) -> (r: String)
        ensures
            r@ == self.spec_details(),
    {
        match self {
            RusError::Database(details) => details.clone(),
            RusError::Redis(details) => details.clone(),
            RusError::Validation(details) => details.clone(),
            _ => self.message(),
        }
    }
}

} // verus!
