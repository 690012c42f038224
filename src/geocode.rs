//! Forward search: a builder of filters and the URL it stands for.

use crate::client::BAN;
use crate::degrees::Degrees;
use crate::params::{
    limit_param, opt_view, push_limit_param, push_text_param, push_type_param, text_param,
    type_param,
};
use crate::text::{encode, url_encoded};
use crate::types::FilterType;
use vstd::prelude::*;

verus! {

/// A forward geocoding query.
#[derive(Clone, Debug)]
pub struct SearchQuery {
    client: BAN,
    query: String,
    /// Filter results by postal code
    postcode: Option<String>,
    /// Filter results by city
    city: Option<String>,
    /// Sorts results by distance to this location
    lat: Option<Degrees>,
    lon: Option<Degrees>,
    ty: Option<FilterType>,
    /// Limit number of results
    limit: Option<usize>,
}

/// What a [`SearchQuery`] holds.
pub struct SearchView {
    pub base: Seq<char>,
    pub query: Seq<char>,
    pub postcode: Option<Seq<char>>,
    pub city: Option<Seq<char>>,
    pub lat: Option<Degrees>,
    pub lon: Option<Degrees>,
    pub ty: Option<FilterType>,
    pub limit: Option<usize>,
}

impl View for SearchQuery {
    type V = SearchView;

    closed spec fn view(&self) -> SearchView {
        SearchView {
            base: self.client.base_url@,
            query: self.query@,
            postcode: opt_view(self.postcode),
            city: opt_view(self.city),
            lat: self.lat,
            lon: self.lon,
            ty: self.ty,
            limit: self.limit,
        }
    }
}

/// The `&lat=..&lon=..` pair, present only when both halves are.
pub open spec fn location_param(lat: Option<Degrees>, lon: Option<Degrees>) -> Seq<char> {
    match (lat, lon) {
        (Some(a), Some(o)) => "&lat="@ + a.text() + "&lon="@ + o.text(),
        _ => Seq::empty(),
    }
}

/// The request URL of a search: the percent-encoded text first, then the
/// filters that are set, in the order postcode, city, location, type, limit.
pub open spec fn search_url(v: SearchView) -> Seq<char> {
    v.base + "/search/?q="@ + url_encoded(v.query) + text_param("&postcode="@, v.postcode)
        + text_param("&city="@, v.city) + location_param(v.lat, v.lon) + type_param(v.ty)
        + limit_param(v.limit)
}

impl SearchQuery {
    pub(crate) fn new(client: BAN, query: String) -> (r: SearchQuery)
        ensures
            r@ == (SearchView {
                base: client.base_url@,
                query: query@,
                postcode: None,
                city: None,
                lat: None,
                lon: None,
                ty: None,
                limit: None,
            }),
    {
        SearchQuery {
            client,
            query,
            postcode: None,
            city: None,
            lat: None,
            lon: None,
            ty: None,
            limit: None,
        }
    }

    /// Filter results by postal code
    pub fn postcode(self, code: &str) -> (r: SearchQuery)
        ensures
            r@ == (SearchView { postcode: Some(code@), ..self@ }),
    {
        let mut q = self;
        q.postcode = Some(String::from_str(code));
        q
    }

    /// Filter results by city
    pub fn city(self, name: &str) -> (r: SearchQuery)
        ensures
            r@ == (SearchView { city: Some(name@), ..self@ }),
    {
        let mut q = self;
        q.city = Some(String::from_str(name));
        q
    }

    /// Sorts results by distance to a location
    pub fn around_lat_lon(self, lat: Degrees, lon: Degrees) -> (r: SearchQuery)
        ensures
            r@ == (SearchView { lat: Some(lat), lon: Some(lon), ..self@ }),
    {
        let mut q = self;
        q.lat = Some(lat);
        q.lon = Some(lon);
        q
    }

    /// Filter results by type, e.g. "housenumber", "street", etc.
    pub fn filter_type(self, ty: FilterType) -> (r: SearchQuery)
        ensures
            r@ == (SearchView { ty: Some(ty), ..self@ }),
    {
        let mut q = self;
        q.ty = Some(ty);
        q
    }

    /// Limit number of results returned
    pub fn limit_results(self, limit: usize) -> (r: SearchQuery)
        ensures
            r@ == (SearchView { limit: Some(limit), ..self@ }),
    {
        let mut q = self;
        q.limit = Some(limit);
        q
    }

    /// The URL that this query is sent to.
    pub fn to_url(&self) -> (r: String)
        ensures
            r@ == search_url(self@),
    {
        let mut url = self.client.base_url.clone();
        url.append("/search/?q=");
        let q = encode(self.query.as_str());
        url.append(q.as_str());
        push_text_param(&mut url, "&postcode=", &self.postcode);
        push_text_param(&mut url, "&city=", &self.city);
        let ghost before = url@;
        match (self.lat, self.lon) {
            (Some(lat), Some(lon)) => {
                url.append("&lat=");
                lat.push_text(&mut url);
                url.append("&lon=");
                lon.push_text(&mut url);
            },
            _ => {},
        }
        assert(url@ =~= before + location_param(self.lat, self.lon));
        push_type_param(&mut url, self.ty);
        push_limit_param(&mut url, self.limit);
        url
    }
}

/// A search carries a location only when both latitude and longitude were
/// set, and then carries both: unsetting either one drops the pair.
pub proof fn search_location_both_or_neither(v: SearchView)
    ensures
        (v.lat is None || v.lon is None) ==> search_url(v) == search_url(
            (SearchView { lat: None, lon: None, ..v }),
        ),
        (v.lat is Some && v.lon is Some) ==> search_url(v) == v.base + "/search/?q="@
            + url_encoded(v.query) + text_param("&postcode="@, v.postcode) + text_param(
            "&city="@,
            v.city,
        ) + "&lat="@ + v.lat->Some_0.text() + "&lon="@ + v.lon->Some_0.text() + type_param(v.ty)
            + limit_param(v.limit),
{
    let pre = v.base + "/search/?q="@ + url_encoded(v.query) + text_param("&postcode="@, v.postcode)
        + text_param("&city="@, v.city);
    if v.lat is Some && v.lon is Some {
        assert(pre + location_param(v.lat, v.lon) =~= pre + "&lat="@ + v.lat->Some_0.text()
            + "&lon="@ + v.lon->Some_0.text());
    }
}

/// A filter that was never set leaves no trace: with none set, a search URL
/// is the base, the path, and the percent-encoded text alone.
pub proof fn search_without_filters(v: SearchView)
    requires
        v.postcode is None,
        v.city is None,
        v.lat is None,
        v.lon is None,
        v.ty is None,
        v.limit is None,
    ensures
        search_url(v) == v.base + "/search/?q="@ + url_encoded(v.query),
{
    assert(search_url(v) =~= v.base + "/search/?q="@ + url_encoded(v.query));
}

} // verus!
