//! Result-type filters, the server's error envelope, and the library's errors.

use vstd::prelude::*;

verus! {

/// Filter types for geocoding and reverse geocoding queries.
#[derive(Clone, Copy, Debug, PartialEq, Eq, Structural)]
pub enum FilterType {
    HouseNumber,
    Street,
    Locality,
    Municipality,
}

impl FilterType {
    /// How the filter is written in a query string.
    pub open spec fn text(self) -> Seq<char> {
        match self {
            FilterType::HouseNumber => "housenumber"@,
            FilterType::Street => "street"@,
            FilterType::Locality => "locality"@,
            FilterType::Municipality => "municipality"@,
        }
    }

    /// How the filter is written in a query string.
    pub fn as_str(&self) -> (r: &'static str)
        ensures
            r@ == self.text(),
    {
        match self {
            FilterType::HouseNumber => "housenumber",
            FilterType::Street => "street",
            FilterType::Locality => "locality",
            FilterType::Municipality => "municipality",
        }
    }

    /// How the filter is written in a query string, as an owned string.
    pub fn to_string(&self) -> (r: String)
        ensures
            r@ == self.text(),
    {
        String::from_str(self.as_str())
    }
}

/// The error envelope that the service sends with a failure status.
#[derive(Clone, Debug)]
pub struct ApiErrorResponse {
    pub code: u16,
    pub message: String,
    pub detail: Option<Vec<String>>,
}

/// Every way a request can fail.
#[derive(Debug)]
pub enum Error {
    /// The HTTP exchange itself failed (connection, DNS, TLS, ...); holds the
    /// transport's description of the cause.
    HttpError(String),
    /// The response body could not be read as text.
    GetTextError(String),
    /// The response body did not match the expected JSON schema.
    UnmarshalJsonError(String),
    /// The service reported a failure.
    ApiError { code: u16, message: String, detail: Option<Vec<String>> },
}

} // verus!
