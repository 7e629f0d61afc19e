//! The request pipeline around the one external lookup: given the resolved
//! address and language, the lookup's outcome, the localization source and
//! the optional callback, build the exact response body and content type.
//!
//! The lookup itself — address to raw record, or a miss — belongs to the
//! external geolocation reader; its outcome is handed in. A miss is a normal
//! outcome, answered with the minimal unresolved shape, never an error.

use vstd::prelude::*;

use crate::json::jsonp_wrap;
use crate::json::non_resolved_json;
use crate::json::resolved_json_fields;
use crate::json::to_json;
use crate::json::to_non_resolved_json;
use crate::json::wrap_jsonp;
use crate::localize::get_localized_country_name;
use crate::localize::spec_localized_name;
use crate::record::country_code_of;
use crate::record::resolve_record;
use crate::record::spec_city_name;
use crate::record::spec_continent_code;
use crate::record::spec_continent_name;
use crate::record::spec_country_code;
use crate::record::spec_country_label;
use crate::record::spec_country_name;
use crate::record::spec_latitude;
use crate::record::spec_longitude;
use crate::record::spec_postal_code;
use crate::record::spec_province_code;
use crate::record::spec_province_name;
use crate::record::spec_region_code;
use crate::record::spec_region_name;
use crate::record::spec_time_zone;
use crate::record::RawGeoRecord;

verus! {

/// The serialized body of a resolved record built from the raw record `g`:
/// every field defaulted, the country label and name run through the
/// localization fallback with `localized`.
pub open spec fn resolved_body_of(
    ip: Seq<char>,
    g: RawGeoRecord,
    lang: Seq<char>,
    localized: Seq<char>,
) -> Seq<char> {
    resolved_json_fields(
        ip,
        spec_latitude(g),
        spec_longitude(g),
        spec_postal_code(g),
        spec_continent_code(g),
        spec_continent_name(g),
        spec_country_code(g),
        spec_country_label(g, lang, localized),
        spec_country_name(g, lang, localized),
        spec_region_code(g),
        spec_region_name(g),
        spec_province_code(g),
        spec_province_name(g),
        spec_city_name(g),
        spec_time_zone(g),
    )
}

/// The response body for one request: the full record on a lookup hit, the
/// minimal unresolved shape on a miss.
pub open spec fn spec_body(
    ip: Seq<char>,
    lang: Seq<char>,
    source: Option<Seq<char>>,
    outcome: Option<RawGeoRecord>,
) -> Seq<char> {
    match outcome {
        Some(g) => resolved_body_of(
            ip,
            g,
            lang,
            spec_localized_name(source, lang, spec_country_code(g)),
        ),
        None => non_resolved_json(ip),
    }
}

/// The envelope: the body as it is, or wrapped as `;callback(body);`.
pub open spec fn spec_envelope(callback: Option<Seq<char>>, body: Seq<char>) -> Seq<char> {
    match callback {
        Some(cb) => jsonp_wrap(cb, body),
        None => body,
    }
}

pub open spec fn spec_content_type(callback: Option<Seq<char>>) -> Seq<char> {
    match callback {
        Some(_) => "application/javascript; charset=utf-8"@,
        None => "application/json; charset=utf-8"@,
    }
}

pub open spec fn deref_outcome(o: Option<&RawGeoRecord>) -> Option<RawGeoRecord> {
    match o {
        Some(g) => Some(*g),
        None => None,
    }
}

/// Builds one request's whole response: body and content type. `outcome` is
/// what the external lookup yielded for `ip_address`; `localization_source`
/// is the text of the configured localization file, when there is one. The
/// response is always a success at the protocol level, hit or miss.
pub fn build_response(
    ip_address: &str,
    language: &str,
    localization_source: Option<&str>,
    outcome: Option<&RawGeoRecord>,
    callback: Option<&str>,
) -> (r: (String, String))
    ensures
        r.0@ == spec_envelope(
            callback.deep_view(),
            spec_body(
                ip_address@,
                language@,
                localization_source.deep_view(),
                deref_outcome(outcome),
            ),
        ),
        r.1@ == spec_content_type(callback.deep_view()),
{
    let body: String = match outcome {
        Some(g) => {
            let code = country_code_of(g);
            let localized = get_localized_country_name(
                localization_source,
                language,
                code.as_str(),
            );
            let rec = resolve_record(ip_address, g, language, localized.as_str());
            to_json(&rec)
        },
        None => to_non_resolved_json(ip_address),
    };
    match callback {
        Some(cb) => (
            wrap_jsonp(cb, body.as_str()),
            "application/javascript; charset=utf-8".to_owned(),
        ),
        None => (body, "application/json; charset=utf-8".to_owned()),
    }
}

} // verus!
