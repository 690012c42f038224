//! Reverse lookup: a builder of filters around a required location.

use crate::client::BAN;
use crate::degrees::Degrees;
use crate::params::{
    limit_param, opt_view, push_limit_param, push_text_param, push_type_param, text_param,
    type_param,
};
use crate::types::FilterType;
use vstd::prelude::*;

verus! {

/// A reverse geocoding query.
#[derive(Clone, Debug)]
pub struct ReverseQuery {
    client: BAN,
    lat: Degrees,
    lon: Degrees,
    /// Filter results by postal code
    postcode: Option<String>,
    /// Filter results by city
    city: Option<String>,
    ty: Option<FilterType>,
    /// Limit number of results
    limit: Option<usize>,
}

/// What a [`ReverseQuery`] holds.
pub struct ReverseView {
    pub base: Seq<char>,
    pub lat: Degrees,
    pub lon: Degrees,
    pub postcode: Option<Seq<char>>,
    pub city: Option<Seq<char>>,
    pub ty: Option<FilterType>,
    pub limit: Option<usize>,
}

impl View for ReverseQuery {
    type V = ReverseView;

    closed spec fn view(&self) -> ReverseView {
        ReverseView {
            base: self.client.base_url@,
            lat: self.lat,
            lon: self.lon,
            postcode: opt_view(self.postcode),
            city: opt_view(self.city),
            ty: self.ty,
            limit: self.limit,
        }
    }
}

/// The part of a reverse URL up to the location pair included.
pub open spec fn reverse_head(v: ReverseView) -> Seq<char> {
    v.base + "/reverse/?lat="@ + v.lat.text() + "&lon="@ + v.lon.text()
}

/// The request URL of a reverse lookup: the location first, then the filters
/// that are set, in the order postcode, city, type, limit.
pub open spec fn reverse_url(v: ReverseView) -> Seq<char> {
    reverse_head(v) + text_param("&postcode="@, v.postcode) + text_param("&city="@, v.city)
        + type_param(v.ty) + limit_param(v.limit)
}

impl ReverseQuery {
    pub(crate) fn new(client: BAN, lat: Degrees, lon: Degrees) -> (r: ReverseQuery)
        ensures
            r@ == (ReverseView {
                base: client.base_url@,
                lat,
                lon,
                postcode: None,
                city: None,
                ty: None,
                limit: None,
            }),
    {
        ReverseQuery { client, lat, lon, postcode: None, city: None, ty: None, limit: None }
    }

    /// Filter results by postal code
    pub fn postcode(self, code: &str) -> (r: ReverseQuery)
        ensures
            r@ == (ReverseView { postcode: Some(code@), ..self@ }),
    {
        let mut q = self;
        q.postcode = Some(String::from_str(code));
        q
    }

    /// Filter results by city
    pub fn city(self, name: &str) -> (r: ReverseQuery)
        ensures
            r@ == (ReverseView { city: Some(name@), ..self@ }),
    {
        let mut q = self;
        q.city = Some(String::from_str(name));
        q
    }

    /// Filter results by type, e.g. "housenumber", "street", etc.
    pub fn filter_type(self, ty: FilterType) -> (r: ReverseQuery)
        ensures
            r@ == (ReverseView { ty: Some(ty), ..self@ }),
    {
        let mut q = self;
        q.ty = Some(ty);
        q
    }

    /// Limit number of results returned
    pub fn limit_results(self, limit: usize) -> (r: ReverseQuery)
        ensures
            r@ == (ReverseView { limit: Some(limit), ..self@ }),
    {
        let mut q = self;
        q.limit = Some(limit);
        q
    }

    /// The URL that this query is sent to.
    pub fn to_url(&self) -> (r: String)
        ensures
            r@ == reverse_url(self@),
    {
        let mut url = self.client.base_url.clone();
        url.append("/reverse/?lat=");
        self.lat.push_text(&mut url);
        url.append("&lon=");
        self.lon.push_text(&mut url);
        push_text_param(&mut url, "&postcode=", &self.postcode);
        push_text_param(&mut url, "&city=", &self.city);
        push_type_param(&mut url, self.ty);
        push_limit_param(&mut url, self.limit);
        url
    }
}

/// A reverse lookup always carries both latitude and longitude, right after
/// the path and before every filter, whatever filters are set.
pub proof fn reverse_always_located(v: ReverseView)
    ensures
        reverse_url(v).len() >= reverse_head(v).len(),
        reverse_url(v).subrange(0, reverse_head(v).len() as int) == v.base + "/reverse/?lat="@
            + v.lat.text() + "&lon="@ + v.lon.text(),
{
    let tail = text_param("&postcode="@, v.postcode) + text_param("&city="@, v.city) + type_param(
        v.ty,
    ) + limit_param(v.limit);
    assert(reverse_url(v) =~= reverse_head(v) + tail);
    assert(reverse_url(v).subrange(0, reverse_head(v).len() as int) =~= reverse_head(v));
}

/// A filter that was never set leaves no trace: with none set, a reverse URL
/// is the base, the path, and the location pair alone.
pub proof fn reverse_without_filters(v: ReverseView)
    requires
        v.postcode is None,
        v.city is None,
        v.ty is None,
        v.limit is None,
    ensures
        reverse_url(v) == v.base + "/reverse/?lat="@ + v.lat.text() + "&lon="@ + v.lon.text(),
{
    assert(reverse_url(v) =~= reverse_head(v));
}

} // verus!
