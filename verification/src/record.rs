//! The raw geolocation record, as the database lookup yields it — every
//! field independently optional — and the flat, fully defaulted response
//! record built from it.

use vstd::prelude::*;

use crate::text::str_eq;

verus! {

/// A localized name: a language code and the display name in that language.
pub struct LangName {
    pub lang: String,
    pub name: String,
}

/// One optional nested group of the raw record: geographic position. The
/// coordinates are carried as decimal number text, exactly as the serializer
/// will embed them.
pub struct RawLocation {
    pub latitude: Option<String>,
    pub longitude: Option<String>,
    pub time_zone: Option<String>,
}

pub struct RawPostal {
    pub code: Option<String>,
}

pub struct RawContinent {
    pub code: Option<String>,
    pub names: Option<Vec<LangName>>,
}

pub struct RawCountry {
    pub iso_code: Option<String>,
    pub names: Option<Vec<LangName>>,
}

pub struct RawSubdivision {
    pub iso_code: Option<String>,
    pub names: Option<Vec<LangName>>,
}

pub struct RawCity {
    pub names: Option<Vec<LangName>>,
}

/// What a geolocation lookup yields: every nested group, and every leaf
/// inside one, may independently be absent. Absence is a normal case, never
/// an error.
pub struct RawGeoRecord {
    pub location: Option<RawLocation>,
    pub postal: Option<RawPostal>,
    pub continent: Option<RawContinent>,
    pub country: Option<RawCountry>,
    pub subdivisions: Option<Vec<RawSubdivision>>,
    pub city: Option<RawCity>,
}

/// The name of the first entry whose language code is `lang`, if any.
pub open spec fn spec_name_lookup(names: Seq<LangName>, lang: Seq<char>) -> Option<Seq<char>>
    decreases names.len(),
{
    if names.len() == 0 {
        None
    } else if names[0].lang@ == lang {
        Some(names[0].name@)
    } else {
        spec_name_lookup(names.drop_first(), lang)
    }
}

/// The lookup through an optional names table: an absent table misses.
pub open spec fn spec_opt_names_lookup(
    names: Option<Vec<LangName>>,
    lang: Seq<char>,
) -> Option<Seq<char>> {
    match names {
        Some(ns) => spec_name_lookup(ns@, lang),
        None => None,
    }
}

/// The short-circuiting get-or-default: a present value, or the default.
pub open spec fn or_empty(o: Option<Seq<char>>) -> Seq<char> {
    match o {
        Some(s) => s,
        None => Seq::empty(),
    }
}

fn name_lookup_from<'a>(names: &'a Vec<LangName>, lang: &str, i: usize) -> (r: Option<&'a String>)
    requires
        i <= names@.len(),
    ensures
        match r {
            Some(n) => spec_name_lookup(names@.skip(i as int), lang@) == Some(n@),
            None => spec_name_lookup(names@.skip(i as int), lang@) is None,
        },
    decreases names@.len() - i,
{
    if i == names.len() {
        proof {
            assert(names@.skip(i as int) =~= Seq::<LangName>::empty());
        }
        None
    } else {
        proof {
            assert(names@.skip(i as int)[0] == names@[i as int]);
            assert(names@.skip(i as int).drop_first() =~= names@.skip(i as int + 1));
        }
        if str_eq(names[i].lang.as_str(), lang) {
            Some(&names[i].name)
        } else {
            name_lookup_from(names, lang, i + 1)
        }
    }
}

/// The display name stored under language code `lang`, if any: the first
/// entry with that exact code.
pub fn name_lookup<'a>(names: &'a Vec<LangName>, lang: &str) -> (r: Option<&'a String>)
    ensures
        match r {
            Some(n) => spec_name_lookup(names@, lang@) == Some(n@),
            None => spec_name_lookup(names@, lang@) is None,
        },
{
    proof {
        assert(names@.skip(0) =~= names@);
    }
    name_lookup_from(names, lang, 0)
}

/// The flat response record: every field always present, missing source data
/// already turned into an empty string (or `0.0` for the coordinates, which
/// are carried as number text).
pub struct ResolvedResponse {
    pub ip_address: String,
    pub latitude: String,
    pub longitude: String,
    pub postal_code: String,
    pub continent_code: String,
    pub continent_name: String,
    pub country_code: String,
    pub country_label: String,
    pub country_name: String,
    pub region_code: String,
    pub region_name: String,
    pub province_code: String,
    pub province_name: String,
    pub city_name: String,
    pub time_zone: String,
}

pub open spec fn spec_latitude(g: RawGeoRecord) -> Seq<char> {
    match g.location {
        Some(l) => match l.latitude {
            Some(t) => t@,
            None => "0.0"@,
        },
        None => "0.0"@,
    }
}

pub open spec fn spec_longitude(g: RawGeoRecord) -> Seq<char> {
    match g.location {
        Some(l) => match l.longitude {
            Some(t) => t@,
            None => "0.0"@,
        },
        None => "0.0"@,
    }
}

pub open spec fn spec_time_zone(g: RawGeoRecord) -> Seq<char> {
    match g.location {
        Some(l) => or_empty(match l.time_zone {
            Some(t) => Some(t@),
            None => None,
        }),
        None => Seq::empty(),
    }
}

pub open spec fn spec_postal_code(g: RawGeoRecord) -> Seq<char> {
    match g.postal {
        Some(p) => or_empty(match p.code {
            Some(c) => Some(c@),
            None => None,
        }),
        None => Seq::empty(),
    }
}

pub open spec fn spec_continent_code(g: RawGeoRecord) -> Seq<char> {
    match g.continent {
        Some(c) => or_empty(match c.code {
            Some(t) => Some(t@),
            None => None,
        }),
        None => Seq::empty(),
    }
}

pub open spec fn spec_continent_name(g: RawGeoRecord) -> Seq<char> {
    match g.continent {
        Some(c) => or_empty(spec_opt_names_lookup(c.names, "en"@)),
        None => Seq::empty(),
    }
}

pub open spec fn spec_country_code(g: RawGeoRecord) -> Seq<char> {
    match g.country {
        Some(c) => or_empty(match c.iso_code {
            Some(t) => Some(t@),
            None => None,
        }),
        None => Seq::empty(),
    }
}

/// The country names table looked up under `lang`; an absent country group
/// or names table misses.
pub open spec fn spec_country_names_lookup(g: RawGeoRecord, lang: Seq<char>) -> Option<Seq<char>> {
    match g.country {
        Some(c) => spec_opt_names_lookup(c.names, lang),
        None => None,
    }
}

/// The label falls back from the requested language's name to the externally
/// localized name (which is empty when that lookup missed too).
pub open spec fn spec_country_label(
    g: RawGeoRecord,
    lang: Seq<char>,
    localized: Seq<char>,
) -> Seq<char> {
    match spec_country_names_lookup(g, lang) {
        Some(n) => n,
        None => localized,
    }
}

/// The name falls back along the same chain as the label, trying English
/// before the externally localized name: the requested language's name, else
/// the English name, else the localized name (which is empty when that
/// lookup missed too).
pub open spec fn spec_country_name(
    g: RawGeoRecord,
    lang: Seq<char>,
    localized: Seq<char>,
) -> Seq<char> {
    match spec_country_names_lookup(g, lang) {
        Some(n) => n,
        None => match spec_country_names_lookup(g, "en"@) {
            Some(n) => n,
            None => localized,
        },
    }
}

/// The first subdivision entry, the region; `None` when there are none.
pub open spec fn spec_region(g: RawGeoRecord) -> Option<RawSubdivision> {
    match g.subdivisions {
        Some(s) => if s@.len() > 0 {
            Some(s@[0])
        } else {
            None
        },
        None => None,
    }
}

/// The second subdivision entry, the province; `None` when there is none.
/// Selection is always positional, never reordered.
pub open spec fn spec_province(g: RawGeoRecord) -> Option<RawSubdivision> {
    match g.subdivisions {
        Some(s) => if s@.len() > 1 {
            Some(s@[1])
        } else {
            None
        },
        None => None,
    }
}

pub open spec fn spec_subdivision_code(sd: Option<RawSubdivision>) -> Seq<char> {
    match sd {
        Some(s) => or_empty(match s.iso_code {
            Some(c) => Some(c@),
            None => None,
        }),
        None => Seq::empty(),
    }
}

pub open spec fn spec_subdivision_name(sd: Option<RawSubdivision>) -> Seq<char> {
    match sd {
        Some(s) => or_empty(spec_opt_names_lookup(s.names, "en"@)),
        None => Seq::empty(),
    }
}

pub open spec fn spec_region_code(g: RawGeoRecord) -> Seq<char> {
    spec_subdivision_code(spec_region(g))
}

pub open spec fn spec_region_name(g: RawGeoRecord) -> Seq<char> {
    spec_subdivision_name(spec_region(g))
}

pub open spec fn spec_province_code(g: RawGeoRecord) -> Seq<char> {
    spec_subdivision_code(spec_province(g))
}

pub open spec fn spec_province_name(g: RawGeoRecord) -> Seq<char> {
    spec_subdivision_name(spec_province(g))
}

pub open spec fn spec_city_name(g: RawGeoRecord) -> Seq<char> {
    match g.city {
        Some(c) => or_empty(spec_opt_names_lookup(c.names, "en"@)),
        None => Seq::empty(),
    }
}

/// A present value cloned, or the default.
fn opt_text(o: &Option<String>, default: &str) -> (r: String)
    ensures
        r@ == (match o {
            Some(s) => s@,
            None => default@,
        }),
{
    match o {
        Some(s) => s.clone(),
        None => default.to_owned(),
    }
}

/// The name under `lang` in an optional names table, or the default.
fn opt_name(names: &Option<Vec<LangName>>, lang: &str, default: &str) -> (r: String)
    ensures
        r@ == (match spec_opt_names_lookup(*names, lang@) {
            Some(n) => n,
            None => default@,
        }),
{
    match names {
        Some(ns) => match name_lookup(ns, lang) {
            Some(n) => n.clone(),
            None => default.to_owned(),
        },
        None => default.to_owned(),
    }
}

/// Maps a raw record to the flat response record, field by field: a missing
/// source value becomes an empty string, missing coordinates become `0.0`,
/// the country label and name apply the localization fallback chain, and the
/// region and province are the first and second subdivision entries.
pub fn resolve_record(
    ip_address: &str,
    g: &RawGeoRecord,
    language: &str,
    localized_country_name: &str,
) -> (r: ResolvedResponse)
    ensures
        r.ip_address@ == ip_address@,
        r.latitude@ == spec_latitude(*g),
        r.longitude@ == spec_longitude(*g),
        r.postal_code@ == spec_postal_code(*g),
        r.continent_code@ == spec_continent_code(*g),
        r.continent_name@ == spec_continent_name(*g),
        r.country_code@ == spec_country_code(*g),
        r.country_label@ == spec_country_label(*g, language@, localized_country_name@),
        r.country_name@ == spec_country_name(*g, language@, localized_country_name@),
        r.region_code@ == spec_region_code(*g),
        r.region_name@ == spec_region_name(*g),
        r.province_code@ == spec_province_code(*g),
        r.province_name@ == spec_province_name(*g),
        r.city_name@ == spec_city_name(*g),
        r.time_zone@ == spec_time_zone(*g),
{
    let latitude = match &g.location {
        Some(l) => opt_text(&l.latitude, "0.0"),
        None => "0.0".to_owned(),
    };
    let longitude = match &g.location {
        Some(l) => opt_text(&l.longitude, "0.0"),
        None => "0.0".to_owned(),
    };
    let time_zone = match &g.location {
        Some(l) => opt_text(&l.time_zone, ""),
        None => "".to_owned(),
    };
    let postal_code = match &g.postal {
        Some(p) => opt_text(&p.code, ""),
        None => "".to_owned(),
    };
    let continent_code = match &g.continent {
        Some(c) => opt_text(&c.code, ""),
        None => "".to_owned(),
    };
    let continent_name = match &g.continent {
        Some(c) => opt_name(&c.names, "en", ""),
        None => "".to_owned(),
    };
    let country_code = match &g.country {
        Some(c) => opt_text(&c.iso_code, ""),
        None => "".to_owned(),
    };
    let country_label = match &g.country {
        Some(c) => opt_name(&c.names, language, localized_country_name),
        None => localized_country_name.to_owned(),
    };
    let country_name = match &g.country {
        Some(c) => match &c.names {
            Some(ns) => match name_lookup(ns, language) {
                Some(n) => n.clone(),
                None => match name_lookup(ns, "en") {
                    Some(n) => n.clone(),
                    None => localized_country_name.to_owned(),
                },
            },
            None => localized_country_name.to_owned(),
        },
        None => localized_country_name.to_owned(),
    };
    let region: Option<&RawSubdivision> = match &g.subdivisions {
        Some(s) => if s.len() > 0 {
            Some(&s[0])
        } else {
            None
        },
        None => None,
    };
    let province: Option<&RawSubdivision> = match &g.subdivisions {
        Some(s) => if s.len() > 1 {
            Some(&s[1])
        } else {
            None
        },
        None => None,
    };
    let region_code = match region {
        Some(sd) => opt_text(&sd.iso_code, ""),
        None => "".to_owned(),
    };
    let region_name = match region {
        Some(sd) => opt_name(&sd.names, "en", ""),
        None => "".to_owned(),
    };
    let province_code = match province {
        Some(sd) => opt_text(&sd.iso_code, ""),
        None => "".to_owned(),
    };
    let province_name = match province {
        Some(sd) => opt_name(&sd.names, "en", ""),
        None => "".to_owned(),
    };
    let city_name = match &g.city {
        Some(c) => opt_name(&c.names, "en", ""),
        None => "".to_owned(),
    };
    proof {
        reveal_strlit("");
    }
    ResolvedResponse {
        ip_address: ip_address.to_owned(),
        latitude,
        longitude,
        postal_code,
        continent_code,
        continent_name,
        country_code,
        country_label,
        country_name,
        region_code,
        region_name,
        province_code,
        province_name,
        city_name,
        time_zone,
    }
}

/// The country ISO code, or the empty string: what the external localizer is
/// keyed by.
pub fn country_code_of(g: &RawGeoRecord) -> (r: String)
    ensures
        r@ == spec_country_code(*g),
{
    proof {
        reveal_strlit("");
    }
    match &g.country {
        Some(c) => opt_text(&c.iso_code, ""),
        None => "".to_owned(),
    }
}

/// With no subdivisions (an absent or empty sequence), the region and
/// province fields are all empty.
pub proof fn lemma_no_subdivisions(g: RawGeoRecord)
    requires
        match g.subdivisions {
            Some(s) => s@.len() == 0,
            None => true,
        },
    ensures
        spec_region_code(g) == Seq::<char>::empty(),
        spec_region_name(g) == Seq::<char>::empty(),
        spec_province_code(g) == Seq::<char>::empty(),
        spec_province_name(g) == Seq::<char>::empty(),
{
}

/// With exactly one subdivision, the province fields are empty and the
/// region fields reflect that one entry.
pub proof fn lemma_one_subdivision(g: RawGeoRecord, sd: RawSubdivision)
    requires
        match g.subdivisions {
            Some(s) => s@ =~= seq![sd],
            None => false,
        },
    ensures
        spec_province_code(g) == Seq::<char>::empty(),
        spec_province_name(g) == Seq::<char>::empty(),
        spec_region_code(g) == spec_subdivision_code(Some(sd)),
        spec_region_name(g) == spec_subdivision_name(Some(sd)),
{
}

/// The country fallback chain: when the names table misses the requested
/// language but holds an English name, and the external localization yielded
/// nothing, the country name is the English one and the label is empty.
pub proof fn lemma_country_fallback(g: RawGeoRecord, lang: Seq<char>, en_name: Seq<char>)
    requires
        spec_country_names_lookup(g, lang) is None,
        spec_country_names_lookup(g, "en"@) == Some(en_name),
    ensures
        spec_country_name(g, lang, Seq::empty()) == en_name,
        spec_country_label(g, lang, Seq::empty()) == Seq::<char>::empty(),
{
}

/// When the requested language's name is present, both the label and the
/// name are that very name, whatever the localizer yielded.
pub proof fn lemma_country_requested_language_first(
    g: RawGeoRecord,
    lang: Seq<char>,
    name: Seq<char>,
    localized: Seq<char>,
)
    requires
        spec_country_names_lookup(g, lang) == Some(name),
    ensures
        spec_country_name(g, lang, localized) == name,
        spec_country_label(g, lang, localized) == name,
{
}

} // verus!
