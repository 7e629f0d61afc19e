use geoip_rs::handler::build_response;
use geoip_rs::ip::check_ip_literal;
use geoip_rs::ip::check_ipv4;
use geoip_rs::ip::check_ipv6;
use geoip_rs::json::to_json;
use geoip_rs::json::to_non_resolved_json;
use geoip_rs::json::wrap_jsonp;
use geoip_rs::localize::get_localized_country_name;
use geoip_rs::localize::get_value;
use geoip_rs::localize::lookup_localized_name;
use geoip_rs::localize::CountryName;
use geoip_rs::localize::LanguageNames;
use geoip_rs::record::resolve_record;
use geoip_rs::record::LangName;
use geoip_rs::record::RawCity;
use geoip_rs::record::RawContinent;
use geoip_rs::record::RawCountry;
use geoip_rs::record::RawGeoRecord;
use geoip_rs::record::RawLocation;
use geoip_rs::record::RawPostal;
use geoip_rs::record::RawSubdivision;
use geoip_rs::record::ResolvedResponse;
use geoip_rs::resolve::get_language;
use geoip_rs::resolve::ip_address_to_resolve;

fn names(pairs: &[(&str, &str)]) -> Vec<LangName> {
    pairs
        .iter()
        .map(|(lang, name)| LangName {
            lang: lang.to_string(),
            name: name.to_string(),
        })
        .collect()
}

fn empty_record() -> RawGeoRecord {
    RawGeoRecord {
        location: None,
        postal: None,
        continent: None,
        country: None,
        subdivisions: None,
        city: None,
    }
}

fn full_record() -> RawGeoRecord {
    RawGeoRecord {
        location: Some(RawLocation {
            latitude: Some("45.5".to_string()),
            longitude: Some("-73.6".to_string()),
            time_zone: Some("America/Toronto".to_string()),
        }),
        postal: Some(RawPostal {
            code: Some("H2X".to_string()),
        }),
        continent: Some(RawContinent {
            code: Some("NA".to_string()),
            names: Some(names(&[("en", "North America")])),
        }),
        country: Some(RawCountry {
            iso_code: Some("CA".to_string()),
            names: Some(names(&[("de", "Kanada"), ("en", "Canada")])),
        }),
        subdivisions: Some(vec![RawSubdivision {
            iso_code: Some("QC".to_string()),
            names: Some(names(&[("en", "Quebec")])),
        }]),
        city: Some(RawCity {
            names: Some(names(&[("en", "Montreal")])),
        }),
    }
}

#[test]
fn ipv4_literals_accepted() {
    assert!(check_ipv4("1.2.3.4"));
    assert!(check_ipv4("0.0.0.0"));
    assert!(check_ipv4("255.255.255.255"));
    assert!(check_ipv4("203.0.113.5"));
}

#[test]
fn ipv4_literals_rejected() {
    assert!(!check_ipv4(""));
    assert!(!check_ipv4("1.2.3"));
    assert!(!check_ipv4("1.2.3.4.5"));
    assert!(!check_ipv4("256.1.1.1"));
    assert!(!check_ipv4("01.2.3.4"));
    assert!(!check_ipv4("1.2.3.a"));
    assert!(!check_ipv4("1.2.3.4 "));
    assert!(!check_ipv4("999.999.999.999"));
}

#[test]
fn ipv6_literals_accepted() {
    assert!(check_ipv6("::"));
    assert!(check_ipv6("::1"));
    assert!(check_ipv6("1::"));
    assert!(check_ipv6("2001:db8::1"));
    assert!(check_ipv6("1:2:3:4:5:6:7:8"));
    assert!(check_ipv6("0:0:0:0:0:0:0:0"));
    assert!(check_ipv6("::ffff:1.2.3.4"));
    assert!(check_ipv6("1:2:3:4:5:6:1.2.3.4"));
    assert!(check_ipv6("fe80::A:b:C:d"));
    assert!(check_ipv6("1:2:3:4:5:6:7::"));
    assert!(check_ipv6("::1:2:3:4:5:6:7"));
}

#[test]
fn ipv6_literals_rejected() {
    assert!(!check_ipv6(""));
    assert!(!check_ipv6(":"));
    assert!(!check_ipv6(":::"));
    assert!(!check_ipv6("1:2:3:4:5:6:7:8:9"));
    assert!(!check_ipv6("::1:2:3:4:5:6:7:8"));
    assert!(!check_ipv6("1:2:3:4:5:6:7:8::"));
    assert!(!check_ipv6("1::2::3"));
    assert!(!check_ipv6("12345::"));
    assert!(!check_ipv6("g::"));
    assert!(!check_ipv6(":1:2:3:4:5:6:7"));
    assert!(!check_ipv6("1:2:3:4:5:6:7:"));
    assert!(!check_ipv6("1.2.3.4"));
    assert!(!check_ipv6("::1%eth0"));
    assert!(!check_ipv6("1:2:3:4:5:1.2.3.4:7"));
}

#[test]
fn ip_literal_accepts_both_families() {
    assert!(check_ip_literal("8.8.8.8"));
    assert!(check_ip_literal("2001:db8::1"));
    assert!(!check_ip_literal("example.com"));
}

#[test]
fn number_tokens_accepted() {
    assert!(geoip_rs::json::check_json_number("0.0"));
    assert!(geoip_rs::json::check_json_number("45.5"));
    assert!(geoip_rs::json::check_json_number("-73.6"));
    assert!(geoip_rs::json::check_json_number("0"));
    assert!(geoip_rs::json::check_json_number("-180"));
    assert!(geoip_rs::json::check_json_number("10.25"));
}

#[test]
fn number_tokens_rejected() {
    assert!(!geoip_rs::json::check_json_number(""));
    assert!(!geoip_rs::json::check_json_number("-"));
    assert!(!geoip_rs::json::check_json_number("1."));
    assert!(!geoip_rs::json::check_json_number(".5"));
    assert!(!geoip_rs::json::check_json_number("00.5"));
    assert!(!geoip_rs::json::check_json_number("1.2.3"));
    assert!(!geoip_rs::json::check_json_number("NaN"));
    assert!(!geoip_rs::json::check_json_number("inf"));
    assert!(!geoip_rs::json::check_json_number("1e5"));
}

#[test]
fn explicit_valid_ipv4_wins() {
    let r = ip_address_to_resolve(
        Some("1.2.3.4".to_string()),
        Some("9.9.9.9"),
        Some("8.8.8.8:1234"),
    );
    assert_eq!(r, Some("1.2.3.4".to_string()));
}

#[test]
fn explicit_valid_ipv6_wins() {
    let r = ip_address_to_resolve(
        Some("2001:db8::1".to_string()),
        Some("9.9.9.9"),
        Some("8.8.8.8:1234"),
    );
    assert_eq!(r, Some("2001:db8::1".to_string()));
}

#[test]
fn invalid_explicit_falls_to_header() {
    let r = ip_address_to_resolve(
        Some("999.999.999.999".to_string()),
        Some("not validated at all"),
        Some("8.8.8.8:1234"),
    );
    assert_eq!(r, Some("not validated at all".to_string()));
}

#[test]
fn peer_address_port_stripped() {
    let r = ip_address_to_resolve(None, None, Some("203.0.113.5:54321"));
    assert_eq!(r, Some("203.0.113.5".to_string()));
}

#[test]
fn peer_address_bare_ipv6_truncates() {
    // The naive colon split truncates a bare IPv6 peer address: a known
    // limitation, kept as it is.
    let r = ip_address_to_resolve(None, None, Some("::1"));
    assert_eq!(r, Some("".to_string()));
}

#[test]
fn no_candidate_yields_none() {
    let r = ip_address_to_resolve(None, None, None);
    assert_eq!(r, None);
}

#[test]
fn language_defaults_to_en() {
    assert_eq!(get_language(None), "en".to_string());
    assert_eq!(get_language(Some("it".to_string())), "it".to_string());
}

#[test]
fn mapper_fills_every_field() {
    let g = full_record();
    let r = resolve_record("1.2.3.4", &g, "de", "");
    assert_eq!(r.ip_address, "1.2.3.4");
    assert_eq!(r.latitude, "45.5");
    assert_eq!(r.longitude, "-73.6");
    assert_eq!(r.postal_code, "H2X");
    assert_eq!(r.continent_code, "NA");
    assert_eq!(r.continent_name, "North America");
    assert_eq!(r.country_code, "CA");
    assert_eq!(r.country_label, "Kanada");
    assert_eq!(r.country_name, "Kanada");
    assert_eq!(r.region_code, "QC");
    assert_eq!(r.region_name, "Quebec");
    assert_eq!(r.province_code, "");
    assert_eq!(r.province_name, "");
    assert_eq!(r.city_name, "Montreal");
    assert_eq!(r.time_zone, "America/Toronto");
}

#[test]
fn mapper_defaults_every_field() {
    let g = empty_record();
    let r = resolve_record("1.2.3.4", &g, "en", "");
    assert_eq!(r.latitude, "0.0");
    assert_eq!(r.longitude, "0.0");
    assert_eq!(r.postal_code, "");
    assert_eq!(r.continent_code, "");
    assert_eq!(r.continent_name, "");
    assert_eq!(r.country_code, "");
    assert_eq!(r.country_label, "");
    assert_eq!(r.country_name, "");
    assert_eq!(r.region_code, "");
    assert_eq!(r.region_name, "");
    assert_eq!(r.province_code, "");
    assert_eq!(r.province_name, "");
    assert_eq!(r.city_name, "");
    assert_eq!(r.time_zone, "");
}

#[test]
fn no_subdivisions_leaves_region_and_province_empty() {
    let mut g = full_record();
    g.subdivisions = Some(vec![]);
    let r = resolve_record("1.2.3.4", &g, "en", "");
    assert_eq!(r.region_code, "");
    assert_eq!(r.region_name, "");
    assert_eq!(r.province_code, "");
    assert_eq!(r.province_name, "");
}

#[test]
fn one_subdivision_fills_region_only() {
    let g = full_record();
    let r = resolve_record("1.2.3.4", &g, "en", "");
    assert_eq!(r.region_code, "QC");
    assert_eq!(r.region_name, "Quebec");
    assert_eq!(r.province_code, "");
    assert_eq!(r.province_name, "");
}

#[test]
fn two_subdivisions_fill_region_and_province() {
    let mut g = full_record();
    g.subdivisions = Some(vec![
        RawSubdivision {
            iso_code: Some("QC".to_string()),
            names: Some(names(&[("en", "Quebec")])),
        },
        RawSubdivision {
            iso_code: Some("MT".to_string()),
            names: Some(names(&[("en", "Montreal Area")])),
        },
    ]);
    let r = resolve_record("1.2.3.4", &g, "en", "");
    assert_eq!(r.region_code, "QC");
    assert_eq!(r.province_code, "MT");
    assert_eq!(r.province_name, "Montreal Area");
}

#[test]
fn country_name_falls_back_to_english_label_to_localized() {
    let g = RawGeoRecord {
        country: Some(RawCountry {
            iso_code: Some("FR".to_string()),
            names: Some(names(&[("en", "France")])),
        }),
        ..empty_record()
    };
    // The requested language is missing and localization yielded nothing:
    // the name takes the English entry, the label stays empty.
    let r = resolve_record("1.2.3.4", &g, "sq", "");
    assert_eq!(r.country_name, "France");
    assert_eq!(r.country_label, "");
}

#[test]
fn country_name_prefers_requested_language() {
    let g = RawGeoRecord {
        country: Some(RawCountry {
            iso_code: Some("CA".to_string()),
            names: Some(names(&[("de", "Kanada"), ("en", "Canada")])),
        }),
        ..empty_record()
    };
    let r = resolve_record("1.2.3.4", &g, "de", "ignored");
    assert_eq!(r.country_name, "Kanada");
    assert_eq!(r.country_label, "Kanada");
    // Without a name under the requested language, the name takes English.
    let r = resolve_record("1.2.3.4", &g, "fr", "");
    assert_eq!(r.country_name, "Canada");
    assert_eq!(r.country_label, "");
}

#[test]
fn country_label_takes_localized_name_when_language_missing() {
    let g = RawGeoRecord {
        country: Some(RawCountry {
            iso_code: Some("FR".to_string()),
            names: Some(names(&[("en", "France")])),
        }),
        ..empty_record()
    };
    let r = resolve_record("1.2.3.4", &g, "de", "Frankreich");
    assert_eq!(r.country_label, "Frankreich");
    assert_eq!(r.country_name, "France");
}

#[test]
fn serialization_is_exact() {
    let g = full_record();
    let r = resolve_record("1.2.3.4", &g, "de", "");
    let body = to_json(&r);
    assert_eq!(
        body,
        "{\"ipAddress\":\"1.2.3.4\",\"latitude\":45.5,\"longitude\":-73.6,\
         \"postalCode\":\"H2X\",\"continentCode\":\"NA\",\
         \"continentName\":\"North America\",\"countryCode\":\"CA\",\
         \"countryLabel\":\"Kanada\",\"countryName\":\"Kanada\",\
         \"regionCode\":\"QC\",\"regionName\":\"Quebec\",\
         \"provinceCode\":\"\",\"provinceName\":\"\",\"cityName\":\"Montreal\",\
         \"timeZone\":\"America/Toronto\"}"
    );
}

#[test]
fn serialization_escapes_like_serde() {
    let g = empty_record();
    let mut r = resolve_record("x", &g, "en", "");
    r.city_name = "a\"b\\c\nd\te\u{1}f".to_string();
    let body = to_json(&r);
    assert!(body.contains("\"cityName\":\"a\\\"b\\\\c\\nd\\te\\u0001f\""));
    // The whole body must agree with serde_json's own escaping of the value.
    let parsed: serde_json::Value = serde_json::from_str(&body).unwrap();
    assert_eq!(
        parsed.get("cityName").unwrap().as_str().unwrap(),
        "a\"b\\c\nd\te\u{1}f"
    );
}

#[test]
fn round_trip_keeps_all_fifteen_keys() {
    let g = empty_record();
    let r = resolve_record("1.2.3.4", &g, "en", "");
    let body = to_json(&r);
    let parsed: serde_json::Value = serde_json::from_str(&body).unwrap();
    let keys = [
        "ipAddress",
        "latitude",
        "longitude",
        "postalCode",
        "continentCode",
        "continentName",
        "countryCode",
        "countryLabel",
        "countryName",
        "regionCode",
        "regionName",
        "provinceCode",
        "provinceName",
        "cityName",
        "timeZone",
    ];
    for key in keys {
        assert!(parsed.get(key).is_some(), "missing key {}", key);
    }
    assert_eq!(parsed.as_object().unwrap().len(), keys.len());
}

#[test]
fn unresolved_shape_is_exact() {
    let body = to_non_resolved_json("999.999.999.999");
    assert_eq!(body, "{\"ip_address\":\"999.999.999.999\"}");
    let parsed: serde_json::Value = serde_json::from_str(&body).unwrap();
    assert_eq!(
        parsed.get("ip_address").unwrap().as_str().unwrap(),
        "999.999.999.999"
    );
}

#[test]
fn jsonp_envelope_is_exact() {
    let wrapped = wrap_jsonp("cb", "{\"ipAddress\":\"1.2.3.4\"}");
    assert_eq!(wrapped, ";cb({\"ipAddress\":\"1.2.3.4\"});");
}

#[test]
fn get_value_finds_localized_name() {
    let file = "{\"it\":{\"FR\":\"Francia\",\"DE\":\"Germania\"}}".to_string();
    assert_eq!(get_value(file, "it", "FR"), "Francia");
}

#[test]
fn get_value_misses_yield_empty() {
    let file = "{\"it\":{\"FR\":\"Francia\"}}";
    assert_eq!(get_value(file.to_string(), "de", "FR"), "");
    assert_eq!(get_value(file.to_string(), "it", "IT"), "");
    assert_eq!(get_value("not json at all".to_string(), "it", "FR"), "");
    assert_eq!(get_value("[1,2,3]".to_string(), "it", "FR"), "");
    assert_eq!(get_value("{\"it\":3}".to_string(), "it", "FR"), "");
}

#[test]
fn get_value_tolerates_misshapen_parts() {
    // Only the misshapen parts of the source degrade: the looked-up path is
    // served as long as it itself is well-formed.
    let file = "{\"it\":{\"FR\":\"Francia\"},\"de\":3}";
    assert_eq!(get_value(file.to_string(), "it", "FR"), "Francia");
    assert_eq!(get_value(file.to_string(), "de", "FR"), "");
    let file = "{\"it\":{\"FR\":5,\"DE\":\"Germania\"}}";
    assert_eq!(get_value(file.to_string(), "it", "FR"), "");
    assert_eq!(get_value(file.to_string(), "it", "DE"), "Germania");
    let file = "{\"it\":{\"FR\":null}}";
    assert_eq!(get_value(file.to_string(), "it", "FR"), "");
}

#[test]
fn localizer_without_source_is_empty() {
    assert_eq!(get_localized_country_name(None, "it", "FR"), "");
}

#[test]
fn localizer_with_source_looks_up() {
    let file = "{\"de\":{\"FR\":\"Frankreich\"}}";
    assert_eq!(get_localized_country_name(Some(file), "de", "FR"), "Frankreich");
    assert_eq!(get_localized_country_name(Some(file), "de", "IT"), "");
}

#[test]
fn lookup_takes_first_matching_entry() {
    let entries = vec![LanguageNames {
        lang: "it".to_string(),
        countries: vec![
            CountryName {
                code: "FR".to_string(),
                name: "Francia".to_string(),
            },
            CountryName {
                code: "FR".to_string(),
                name: "other".to_string(),
            },
        ],
    }];
    assert_eq!(lookup_localized_name(&entries, "it", "FR"), "Francia");
    assert_eq!(lookup_localized_name(&entries, "it", "XX"), "");
    assert_eq!(lookup_localized_name(&entries, "xx", "FR"), "");
}

#[test]
fn response_for_lookup_miss_is_unresolved_shape() {
    let (body, content_type) = build_response("999.999.999.999", "en", None, None, None);
    assert_eq!(body, "{\"ip_address\":\"999.999.999.999\"}");
    assert_eq!(content_type, "application/json; charset=utf-8");
}

#[test]
fn response_with_callback_is_wrapped() {
    let (body, content_type) = build_response("999.999.999.999", "en", None, None, Some("cb"));
    assert_eq!(body, ";cb({\"ip_address\":\"999.999.999.999\"});");
    assert_eq!(content_type, "application/javascript; charset=utf-8");
}

#[test]
fn response_for_hit_is_full_record() {
    let g = full_record();
    let (body, content_type) = build_response("1.2.3.4", "de", None, Some(&g), Some("cb"));
    assert!(body.starts_with(";cb({\"ipAddress\":\"1.2.3.4\","));
    assert!(body.ends_with("});"));
    assert_eq!(content_type, "application/javascript; charset=utf-8");
}

#[test]
fn response_applies_localization_source() {
    let g = RawGeoRecord {
        country: Some(RawCountry {
            iso_code: Some("FR".to_string()),
            names: Some(names(&[("en", "France")])),
        }),
        ..empty_record()
    };
    let source = "{\"de\":{\"FR\":\"Frankreich\"}}";
    let (body, _) = build_response("1.2.3.4", "de", Some(source), Some(&g), None);
    let parsed: serde_json::Value = serde_json::from_str(&body).unwrap();
    assert_eq!(
        parsed.get("countryLabel").unwrap().as_str().unwrap(),
        "Frankreich"
    );
    assert_eq!(parsed.get("countryName").unwrap().as_str().unwrap(), "France");
}

#[test]
fn default_record_is_resolved_response() {
    let r = ResolvedResponse {
        ip_address: "1.2.3.4".to_string(),
        latitude: "0.0".to_string(),
        longitude: "0.0".to_string(),
        postal_code: String::new(),
        continent_code: String::new(),
        continent_name: String::new(),
        country_code: String::new(),
        country_label: String::new(),
        country_name: String::new(),
        region_code: String::new(),
        region_name: String::new(),
        province_code: String::new(),
        province_name: String::new(),
        city_name: String::new(),
        time_zone: String::new(),
    };
    let body = to_json(&r);
    assert_eq!(
        body,
        "{\"ipAddress\":\"1.2.3.4\",\"latitude\":0.0,\"longitude\":0.0,\
         \"postalCode\":\"\",\"continentCode\":\"\",\"continentName\":\"\",\
         \"countryCode\":\"\",\"countryLabel\":\"\",\"countryName\":\"\",\
         \"regionCode\":\"\",\"regionName\":\"\",\"provinceCode\":\"\",\
         \"provinceName\":\"\",\"cityName\":\"\",\"timeZone\":\"\"}"
    );
}
