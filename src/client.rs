//! The client handle: where requests go.

use crate::degrees::Degrees;
use crate::geocode::{SearchQuery, SearchView};
use crate::reverse::{ReverseQuery, ReverseView};
use vstd::prelude::*;

verus! {

/// The public production endpoint of the service.
pub open spec fn default_base_url() -> Seq<char> {
    "https://data.geopf.fr/geocodage"@
}

/// A handle on the address API (Base Adresse Nationale): the base URL that
/// every request is sent under.
#[derive(Clone, Debug)]
pub struct BAN {
    pub base_url: String,
}

impl BAN {
    /// A handle on the public production endpoint.
    pub fn new() -> (r: BAN)
        ensures
            r.base_url@ == default_base_url(),
    {
        BAN { base_url: String::from_str("https://data.geopf.fr/geocodage") }
    }

    /// A handle on a self-hosted endpoint; the URL is taken as it is.
    pub fn with_base_url(base_url: String) -> (r: BAN)
        ensures
            r.base_url@ == base_url@,
    {
        BAN { base_url }
    }

    /// A forward search for `query` on this endpoint, with no filter set.
    pub fn geocode(&self, query: String) -> (r: SearchQuery)
        ensures
            r@ == (SearchView {
                base: self.base_url@,
                query: query@,
                postcode: None,
                city: None,
                lat: None,
                lon: None,
                ty: None,
                limit: None,
            }),
    {
        SearchQuery::new(BAN { base_url: self.base_url.clone() }, query)
    }

    /// A reverse lookup at (`lat`, `lon`) on this endpoint, with no filter set.
    pub fn reverse(&self, lat: Degrees, lon: Degrees) -> (r: ReverseQuery)
        ensures
            r@ == (ReverseView {
                base: self.base_url@,
                lat,
                lon,
                postcode: None,
                city: None,
                ty: None,
                limit: None,
            }),
    {
        ReverseQuery::new(BAN { base_url: self.base_url.clone() }, lat, lon)
    }
}

impl Default for BAN {
    fn default() -> (r: BAN)
        ensures
            r.base_url@ == default_base_url(),
    {
        BAN::new()
    }
}

} // verus!
