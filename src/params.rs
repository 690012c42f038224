//! Query-string parameters shared by both kinds of query.

use crate::text::{encode, push_decimal, url_encoded, decimal_digits};
use crate::types::FilterType;
use vstd::prelude::*;

verus! {

/// `name` followed by the percent-encoded `value`, or nothing when absent.
pub open spec fn text_param(name: Seq<char>, value: Option<Seq<char>>) -> Seq<char> {
    match value {
        Some(v) => name + url_encoded(v),
        None => Seq::empty(),
    }
}

/// The `&type=` parameter, or nothing when absent.
pub open spec fn type_param(ty: Option<FilterType>) -> Seq<char> {
    match ty {
        Some(t) => "&type="@ + t.text(),
        None => Seq::empty(),
    }
}

/// The `&limit=` parameter in decimal, or nothing when absent.
pub open spec fn limit_param(limit: Option<usize>) -> Seq<char> {
    match limit {
        Some(n) => "&limit="@ + decimal_digits(n as nat),
        None => Seq::empty(),
    }
}

/// The view of an optional string.
pub open spec fn opt_view(s: Option<String>) -> Option<Seq<char>> {
    match s {
        Some(v) => Some(v@),
        None => None,
    }
}

/// Appends `name` and the percent-encoded `value`, when present.
pub(crate) fn push_text_param(url: &mut String, name: &str, value: &Option<String>)
    ensures
        final(url)@ == old(url)@ + text_param(name@, opt_view(*value)),
{
    match value {
        Some(v) => {
            url.append(name);
            let encoded = encode(v.as_str());
            url.append(encoded.as_str());
            assert(final(url)@ =~= old(url)@ + text_param(name@, opt_view(*value)));
        },
        None => {
            assert(url@ =~= old(url)@ + text_param(name@, opt_view(*value)));
        },
    }
}

/// Appends the `&type=` parameter, when present.
pub(crate) fn push_type_param(url: &mut String, ty: Option<FilterType>)
    ensures
        final(url)@ == old(url)@ + type_param(ty),
{
    match ty {
        Some(t) => {
            url.append("&type=");
            url.append(t.as_str());
            assert(final(url)@ =~= old(url)@ + type_param(ty));
        },
        None => {
            assert(url@ =~= old(url)@ + type_param(ty));
        },
    }
}

/// Appends the `&limit=` parameter, when present.
pub(crate) fn push_limit_param(url: &mut String, limit: Option<usize>)
    ensures
        final(url)@ == old(url)@ + limit_param(limit),
{
    match limit {
        Some(n) => {
            url.append("&limit=");
            push_decimal(url, n as u64);
            assert(final(url)@ =~= old(url)@ + limit_param(limit));
        },
        None => {
            assert(url@ =~= old(url)@ + limit_param(limit));
        },
    }
}

} // verus!
