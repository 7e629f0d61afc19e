//! The country-name localizer: an external JSON source maps a language code
//! to a table of country codes and display names. Parsing the source is the
//! one call into serde_json, behind a trusted wrapper; everything after the
//! parse — the two-level lookup and its empty-string fallbacks — is verified.

use vstd::prelude::*;

use crate::text::str_eq;

verus! {

/// One country's localized display name.
pub struct CountryName {
    pub code: String,
    pub name: String,
}

/// All the names one language holds.
pub struct LanguageNames {
    pub lang: String,
    pub countries: Vec<CountryName>,
}

pub open spec fn country_view(cs: Seq<CountryName>) -> Seq<(Seq<char>, Seq<char>)> {
    cs.map_values(|c: CountryName| (c.code@, c.name@))
}

pub open spec fn table_view(es: Seq<LanguageNames>) -> Seq<(Seq<char>, Seq<(Seq<char>, Seq<char>)>)> {
    es.map_values(|e: LanguageNames| (e.lang@, country_view(e.countries@)))
}

/// What the localization source text denotes: the two-level table its JSON
/// object holds, or nothing when the text is not an object of objects of
/// strings.
pub uninterp spec fn localization_of(s: Seq<char>) -> Option<
    Seq<(Seq<char>, Seq<(Seq<char>, Seq<char>)>)>,
>;

/// Relies on `serde_json::from_str`: deserializing into a map of JSON values
/// succeeds exactly when the text is a JSON object, and yields its entries
/// (here by ascending language and country code, a `BTreeMap`'s iteration
/// order). Each entry is then converted by variant: only a misshapen part of
/// the source — a language entry that is no object, a name that is no string
/// — becomes an absent entry; the rest of the table is kept.
/// `localization_of` names the outcome, a function of the text alone.
#[verifier::external_body]
fn parse_localization(text: &str) -> (r: Option<Vec<LanguageNames>>)
    ensures
        r is Some <==> localization_of(text@) is Some,
        match (r, localization_of(text@)) {
            (Some(v), Some(t)) => table_view(v@) == t,
            (None, None) => true,
            _ => false,
        },
{
    let parsed: Result<std::collections::BTreeMap<String, serde_json::Value>, serde_json::Error> = serde_json::from_str(text);
    let table = match parsed {
        Ok(t) => t,
        Err(_) => return None,
    };
    Some(table.into_iter().map(|(lang, entry)| {
        let countries = match entry {
            serde_json::Value::Object(inner) => inner.into_iter().filter_map(|(code, v)| match v {
                serde_json::Value::String(name) => Some(CountryName { code, name }),
                _ => None,
            }).collect(),
            _ => Vec::new(),
        };
        LanguageNames { lang, countries }
    }).collect())
}

/// The name of the first entry whose code is `code`, or the empty string.
pub open spec fn spec_country_lookup(cs: Seq<(Seq<char>, Seq<char>)>, code: Seq<char>) -> Seq<char>
    decreases cs.len(),
{
    if cs.len() == 0 {
        Seq::empty()
    } else if cs[0].0 == code {
        cs[0].1
    } else {
        spec_country_lookup(cs.drop_first(), code)
    }
}

/// The two-level lookup: the first language entry matching `lang`, then the
/// country lookup in it; the empty string when the language is absent.
pub open spec fn spec_table_lookup(
    t: Seq<(Seq<char>, Seq<(Seq<char>, Seq<char>)>)>,
    lang: Seq<char>,
    code: Seq<char>,
) -> Seq<char>
    decreases t.len(),
{
    if t.len() == 0 {
        Seq::empty()
    } else if t[0].0 == lang {
        spec_country_lookup(t[0].1, code)
    } else {
        spec_table_lookup(t.drop_first(), lang, code)
    }
}

/// What `get_value` yields: the table lookup on a parsed source, the empty
/// string on an unparseable one.
pub open spec fn spec_get_value(
    t: Option<Seq<(Seq<char>, Seq<(Seq<char>, Seq<char>)>)>>,
    lang: Seq<char>,
    code: Seq<char>,
) -> Seq<char> {
    match t {
        Some(tv) => spec_table_lookup(tv, lang, code),
        None => Seq::empty(),
    }
}

fn country_lookup_from(cs: &Vec<CountryName>, code: &str, i: usize) -> (r: String)
    requires
        i <= cs@.len(),
    ensures
        r@ == spec_country_lookup(country_view(cs@).skip(i as int), code@),
    decreases cs@.len() - i,
{
    if i == cs.len() {
        proof {
            assert(country_view(cs@).skip(i as int) =~= Seq::<(Seq<char>, Seq<char>)>::empty());
        }
        String::new()
    } else {
        proof {
            assert(country_view(cs@).skip(i as int)[0] == country_view(cs@)[i as int]);
            assert(country_view(cs@).skip(i as int).drop_first() =~= country_view(cs@).skip(
                i as int + 1,
            ));
        }
        if str_eq(cs[i].code.as_str(), code) {
            cs[i].name.clone()
        } else {
            country_lookup_from(cs, code, i + 1)
        }
    }
}

fn table_lookup_from(es: &Vec<LanguageNames>, lang: &str, code: &str, i: usize) -> (r: String)
    requires
        i <= es@.len(),
    ensures
        r@ == spec_table_lookup(table_view(es@).skip(i as int), lang@, code@),
    decreases es@.len() - i,
{
    if i == es.len() {
        proof {
            assert(table_view(es@).skip(i as int) =~= Seq::<
                (Seq<char>, Seq<(Seq<char>, Seq<char>)>),
            >::empty());
        }
        String::new()
    } else {
        proof {
            assert(table_view(es@).skip(i as int)[0] == table_view(es@)[i as int]);
            assert(table_view(es@).skip(i as int).drop_first() =~= table_view(es@).skip(
                i as int + 1,
            ));
        }
        if str_eq(es[i].lang.as_str(), lang) {
            let r = country_lookup_from(&es[i].countries, code, 0);
            proof {
                assert(country_view(es[i as int].countries@).skip(0) =~= country_view(
                    es[i as int].countries@,
                ));
            }
            r
        } else {
            table_lookup_from(es, lang, code, i + 1)
        }
    }
}

/// The localized display name under `lang` and `code` in a parsed source:
/// the empty string when either key is absent.
pub fn lookup_localized_name(entries: &Vec<LanguageNames>, lang: &str, code: &str) -> (r: String)
    ensures
        r@ == spec_table_lookup(table_view(entries@), lang@, code@),
{
    proof {
        assert(table_view(entries@).skip(0) =~= table_view(entries@));
    }
    table_lookup_from(entries, lang, code, 0)
}

/// The localized country name held by the source text: its table looked up
/// under `lang`, then `code`. The empty string when the text is not a JSON
/// object, when either key is absent, or when the entry on that path is not
/// a string — localization degrades silently, it never fails a request.
pub fn get_value(file: String, lang: &str, code: &str) -> (r: String)
    ensures
        r@ == spec_get_value(localization_of(file@), lang@, code@),
{
    match parse_localization(file.as_str()) {
        Some(entries) => lookup_localized_name(&entries, lang, code),
        None => String::new(),
    }
}

/// What the localizer yields: always the empty string without a configured
/// source, else the source's name under `lang` and `code`.
pub open spec fn spec_localized_name(
    source: Option<Seq<char>>,
    lang: Seq<char>,
    code: Seq<char>,
) -> Seq<char> {
    match source {
        Some(f) => spec_get_value(localization_of(f), lang, code),
        None => Seq::empty(),
    }
}

/// The localizer: `source` is the text of the configured localization file,
/// or `None` when none is configured — in which case the name is always
/// empty, never an error.
pub fn get_localized_country_name(source: Option<&str>, lang: &str, code: &str) -> (r: String)
    ensures
        r@ == spec_localized_name(source.deep_view(), lang@, code@),
{
    match source {
        Some(text) => get_value(text.to_owned(), lang, code),
        None => String::new(),
    }
}

} // verus!
