//! Exact JSON output: string escaping, the serialization of both response
//! shapes, and the JSONP envelope.

use vstd::prelude::*;

use crate::ip::is_dec_digit;
use crate::record::spec_latitude;
use crate::record::spec_longitude;
use crate::record::RawGeoRecord;
use crate::record::ResolvedResponse;
use crate::text::chars_of;
use crate::text::find_char;
use crate::text::find_from;
use crate::text::lemma_find_from_bounds;
use crate::text::string_from_chars;

verus! {

pub open spec fn all_digits(s: Seq<char>) -> bool {
    forall|i: int| 0 <= i < s.len() ==> is_dec_digit(#[trigger] s[i])
}

/// An integer token: at least one digit, no superfluous leading zero.
pub open spec fn is_int_text(s: Seq<char>) -> bool {
    &&& s.len() >= 1
    &&& all_digits(s)
    &&& (s.len() > 1 ==> s[0] != '0')
}

/// A JSON number token as the coordinates carry it: an optional minus sign,
/// an integer part, an optional fraction. (The exponent form never occurs
/// here.)
pub open spec fn is_json_number(s: Seq<char>) -> bool {
    let start: int = if s.len() >= 1 && s[0] == '-' {
        1
    } else {
        0
    };
    let dot = find_from(s, '.', start);
    if dot == s.len() {
        is_int_text(s.subrange(start, s.len() as int))
    } else {
        &&& is_int_text(s.subrange(start, dot))
        &&& dot + 1 < s.len()
        &&& all_digits(s.subrange(dot + 1, s.len() as int))
    }
}

fn check_all_digits(v: &Vec<char>, from: usize, to: usize) -> (r: bool)
    requires
        from <= to <= v@.len(),
    ensures
        r == all_digits(v@.subrange(from as int, to as int)),
{
    let mut i = from;
    while i < to
        invariant
            from <= i <= to <= v@.len(),
            forall|j: int| from <= j < i ==> is_dec_digit(#[trigger] v@[j]),
        decreases to - i,
    {
        let c = v[i];
        if !('0' <= c && c <= '9') {
            assert(v@.subrange(from as int, to as int)[i - from] == v@[i as int]);
            return false;
        }
        i += 1;
    }
    proof {
        assert forall|j: int| 0 <= j < to - from implies is_dec_digit(
            #[trigger] v@.subrange(from as int, to as int)[j],
        ) by {
            assert(v@.subrange(from as int, to as int)[j] == v@[from + j]);
        }
    }
    true
}

fn check_int_text(v: &Vec<char>, from: usize, to: usize) -> (r: bool)
    requires
        from <= to <= v@.len(),
    ensures
        r == is_int_text(v@.subrange(from as int, to as int)),
{
    if from >= to {
        return false;
    }
    if !check_all_digits(v, from, to) {
        return false;
    }
    if to - from > 1 && v[from] == '0' {
        assert(v@.subrange(from as int, to as int)[0] == v@[from as int]);
        return false;
    }
    proof {
        assert(v@.subrange(from as int, to as int)[0] == v@[from as int]);
    }
    true
}

/// Whether `s` is a JSON number token, the shape a coordinate field of a raw
/// record is expected to carry.
pub fn check_json_number(s: &str) -> (r: bool)
    ensures
        r == is_json_number(s@),
{
    let v = chars_of(s);
    let n = v.len();
    let start: usize = if n >= 1 && v[0] == '-' {
        1
    } else {
        0
    };
    let dot = find_char(&v, '.', start);
    proof {
        lemma_find_from_bounds(v@, '.', start as int);
    }
    if dot == n {
        check_int_text(&v, start, n)
    } else {
        if !check_int_text(&v, start, dot) {
            return false;
        }
        if !(dot + 1 < n) {
            return false;
        }
        check_all_digits(&v, dot + 1, n)
    }
}

/// The default coordinate text is itself a JSON number.
pub proof fn lemma_default_coordinate_is_number()
    ensures
        is_json_number("0.0"@),
{
    reveal_strlit("0.0");
    reveal_with_fuel(crate::text::find_from, 3);
    let s = "0.0"@;
    assert(find_from(s, '.', 0) == 1);
    assert(s.subrange(0, 1)[0] == s[0]);
    assert(is_int_text(s.subrange(0, 1)));
    assert(s.subrange(2, 3)[0] == s[2]);
    assert(all_digits(s.subrange(2, 3)));
}

/// A raw record whose present coordinates hold JSON number text.
pub open spec fn raw_coordinates_wf(g: RawGeoRecord) -> bool {
    match g.location {
        Some(l) => (match l.latitude {
            Some(t) => is_json_number(t@),
            None => true,
        }) && (match l.longitude {
            Some(t) => is_json_number(t@),
            None => true,
        }),
        None => true,
    }
}

/// Mapping keeps the coordinates number tokens: present ones are carried as
/// they are, absent ones become `0.0` — so the serialized record embeds
/// valid number tokens, never arbitrary text.
pub proof fn lemma_mapped_coordinates_are_numbers(g: RawGeoRecord)
    requires
        raw_coordinates_wf(g),
    ensures
        is_json_number(spec_latitude(g)),
        is_json_number(spec_longitude(g)),
{
    lemma_default_coordinate_is_number();
}

/// The lowercase hexadecimal digit for `v`.
pub open spec fn hex_digit_char(v: int) -> char {
    if v == 0 {
        '0'
    } else if v == 1 {
        '1'
    } else if v == 2 {
        '2'
    } else if v == 3 {
        '3'
    } else if v == 4 {
        '4'
    } else if v == 5 {
        '5'
    } else if v == 6 {
        '6'
    } else if v == 7 {
        '7'
    } else if v == 8 {
        '8'
    } else if v == 9 {
        '9'
    } else if v == 10 {
        'a'
    } else if v == 11 {
        'b'
    } else if v == 12 {
        'c'
    } else if v == 13 {
        'd'
    } else if v == 14 {
        'e'
    } else {
        'f'
    }
}

/// How one character is escaped inside a JSON string: the quote and the
/// backslash with a backslash, the named control characters with their short
/// escapes, every other control character as `\u00xx`, anything else as
/// itself.
pub open spec fn json_escape_char(c: char) -> Seq<char> {
    if c == '"' {
        seq!['\\', '"']
    } else if c == '\\' {
        seq!['\\', '\\']
    } else if c == '\u{8}' {
        seq!['\\', 'b']
    } else if c == '\t' {
        seq!['\\', 't']
    } else if c == '\n' {
        seq!['\\', 'n']
    } else if c == '\u{c}' {
        seq!['\\', 'f']
    } else if c == '\r' {
        seq!['\\', 'r']
    } else if (c as int) < 32 {
        seq!['\\', 'u', '0', '0', hex_digit_char(c as int / 16), hex_digit_char(c as int % 16)]
    } else {
        seq![c]
    }
}

pub open spec fn json_escape(s: Seq<char>) -> Seq<char>
    decreases s.len(),
{
    if s.len() == 0 {
        Seq::empty()
    } else {
        json_escape_char(s[0]) + json_escape(s.drop_first())
    }
}

/// A JSON string token: the escaped text in double quotes.
pub open spec fn json_string(s: Seq<char>) -> Seq<char> {
    seq!['"'] + json_escape(s) + seq!['"']
}

pub proof fn lemma_json_escape_snoc(s: Seq<char>, c: char)
    ensures
        json_escape(s.push(c)) == json_escape(s) + json_escape_char(c),
    decreases s.len(),
{
    if s.len() == 0 {
        reveal_with_fuel(json_escape, 3);
        assert(s.push(c)[0] == c);
        assert(s.push(c).drop_first() =~= Seq::<char>::empty());
        assert(json_escape(s.push(c)) =~= json_escape(s) + json_escape_char(c));
    } else {
        assert(s.push(c)[0] == s[0]);
        assert(s.push(c).drop_first() =~= s.drop_first().push(c));
        lemma_json_escape_snoc(s.drop_first(), c);
        assert(json_escape(s.push(c)) =~= json_escape(s) + json_escape_char(c));
    }
}

fn hex_char(v: u8) -> (r: char)
    requires
        v < 16,
    ensures
        r == hex_digit_char(v as int),
{
    if v == 0 {
        '0'
    } else if v == 1 {
        '1'
    } else if v == 2 {
        '2'
    } else if v == 3 {
        '3'
    } else if v == 4 {
        '4'
    } else if v == 5 {
        '5'
    } else if v == 6 {
        '6'
    } else if v == 7 {
        '7'
    } else if v == 8 {
        '8'
    } else if v == 9 {
        '9'
    } else if v == 10 {
        'a'
    } else if v == 11 {
        'b'
    } else if v == 12 {
        'c'
    } else if v == 13 {
        'd'
    } else if v == 14 {
        'e'
    } else {
        'f'
    }
}

fn push_escaped(c: char, out: &mut Vec<char>)
    ensures
        final(out)@ == old(out)@ + json_escape_char(c),
{
    if c == '"' {
        out.push('\\');
        out.push('"');
    } else if c == '\\' {
        out.push('\\');
        out.push('\\');
    } else if c == '\u{8}' {
        out.push('\\');
        out.push('b');
    } else if c == '\t' {
        out.push('\\');
        out.push('t');
    } else if c == '\n' {
        out.push('\\');
        out.push('n');
    } else if c == '\u{c}' {
        out.push('\\');
        out.push('f');
    } else if c == '\r' {
        out.push('\\');
        out.push('r');
    } else if (c as u32) < 32 {
        out.push('\\');
        out.push('u');
        out.push('0');
        out.push('0');
        out.push(hex_char(((c as u32) / 16) as u8));
        out.push(hex_char(((c as u32) % 16) as u8));
    } else {
        out.push(c);
    }
    proof {
        assert(out@ =~= old(out)@ + json_escape_char(c));
    }
}

/// Appends the characters of `s` as they are.
fn push_text(s: &str, out: &mut Vec<char>)
    ensures
        final(out)@ == old(out)@ + s@,
{
    let n = s.unicode_len();
    let mut i: usize = 0;
    while i < n
        invariant
            i <= n,
            n == s@.len(),
            out@ == old(out)@ + s@.subrange(0, i as int),
        decreases n - i,
    {
        out.push(s.get_char(i));
        proof {
            assert(old(out)@ + s@.subrange(0, i + 1 as int) =~= (old(out)@ + s@.subrange(
                0,
                i as int,
            )).push(s@[i as int]));
        }
        i += 1;
    }
    proof {
        assert(s@.subrange(0, n as int) =~= s@);
    }
}

/// Appends `s` as a JSON string token.
fn push_json_string(s: &str, out: &mut Vec<char>)
    ensures
        final(out)@ == old(out)@ + json_string(s@),
{
    out.push('"');
    let n = s.unicode_len();
    let mut i: usize = 0;
    while i < n
        invariant
            i <= n,
            n == s@.len(),
            out@ == old(out)@ + seq!['"'] + json_escape(s@.subrange(0, i as int)),
        decreases n - i,
    {
        let c = s.get_char(i);
        proof {
            assert(s@.subrange(0, i + 1 as int) =~= s@.subrange(0, i as int).push(s@[i as int]));
            lemma_json_escape_snoc(s@.subrange(0, i as int), s@[i as int]);
        }
        push_escaped(c, out);
        proof {
            assert(out@ =~= old(out)@ + seq!['"'] + json_escape(s@.subrange(0, i + 1 as int)));
        }
        i += 1;
    }
    out.push('"');
    proof {
        assert(s@.subrange(0, n as int) =~= s@);
        assert(out@ =~= old(out)@ + json_string(s@));
    }
}

/// The exact serialization of the resolved record over its field texts: all
/// fifteen keys, in this order, every key always present; the coordinates
/// are embedded as numbers, everything else as a JSON string.
pub open spec fn resolved_json_fields(
    ip: Seq<char>,
    lat: Seq<char>,
    lon: Seq<char>,
    postal: Seq<char>,
    cont_code: Seq<char>,
    cont_name: Seq<char>,
    country_code: Seq<char>,
    country_label: Seq<char>,
    country_name: Seq<char>,
    region_code: Seq<char>,
    region_name: Seq<char>,
    province_code: Seq<char>,
    province_name: Seq<char>,
    city: Seq<char>,
    tz: Seq<char>,
) -> Seq<char> {
    "{\"ipAddress\":"@ + json_string(ip) + ",\"latitude\":"@ + lat + ",\"longitude\":"@ + lon
        + ",\"postalCode\":"@ + json_string(postal) + ",\"continentCode\":"@ + json_string(
        cont_code,
    ) + ",\"continentName\":"@ + json_string(cont_name) + ",\"countryCode\":"@ + json_string(
        country_code,
    ) + ",\"countryLabel\":"@ + json_string(country_label) + ",\"countryName\":"@ + json_string(
        country_name,
    ) + ",\"regionCode\":"@ + json_string(region_code) + ",\"regionName\":"@ + json_string(
        region_name,
    ) + ",\"provinceCode\":"@ + json_string(province_code) + ",\"provinceName\":"@ + json_string(
        province_name,
    ) + ",\"cityName\":"@ + json_string(city) + ",\"timeZone\":"@ + json_string(tz) + "}"@
}

/// The exact serialization of a resolved record.
pub open spec fn resolved_json(r: ResolvedResponse) -> Seq<char> {
    resolved_json_fields(
        r.ip_address@,
        r.latitude@,
        r.longitude@,
        r.postal_code@,
        r.continent_code@,
        r.continent_name@,
        r.country_code@,
        r.country_label@,
        r.country_name@,
        r.region_code@,
        r.region_name@,
        r.province_code@,
        r.province_name@,
        r.city_name@,
        r.time_zone@,
    )
}

/// The serialization of the unresolved shape, which keeps its differing key
/// naming for wire compatibility.
pub open spec fn non_resolved_json(ip: Seq<char>) -> Seq<char> {
    "{\"ip_address\":"@ + json_string(ip) + "}"@
}

/// Serializes a resolved record: exactly `resolved_json` of it.
pub fn to_json(r: &ResolvedResponse) -> (body: String)
    ensures
        body@ == resolved_json(*r),
{
    let mut out: Vec<char> = Vec::new();
    push_text("{\"ipAddress\":", &mut out);
    push_json_string(r.ip_address.as_str(), &mut out);
    push_text(",\"latitude\":", &mut out);
    push_text(r.latitude.as_str(), &mut out);
    push_text(",\"longitude\":", &mut out);
    push_text(r.longitude.as_str(), &mut out);
    push_text(",\"postalCode\":", &mut out);
    push_json_string(r.postal_code.as_str(), &mut out);
    push_text(",\"continentCode\":", &mut out);
    push_json_string(r.continent_code.as_str(), &mut out);
    push_text(",\"continentName\":", &mut out);
    push_json_string(r.continent_name.as_str(), &mut out);
    push_text(",\"countryCode\":", &mut out);
    push_json_string(r.country_code.as_str(), &mut out);
    push_text(",\"countryLabel\":", &mut out);
    push_json_string(r.country_label.as_str(), &mut out);
    push_text(",\"countryName\":", &mut out);
    push_json_string(r.country_name.as_str(), &mut out);
    push_text(",\"regionCode\":", &mut out);
    push_json_string(r.region_code.as_str(), &mut out);
    push_text(",\"regionName\":", &mut out);
    push_json_string(r.region_name.as_str(), &mut out);
    push_text(",\"provinceCode\":", &mut out);
    push_json_string(r.province_code.as_str(), &mut out);
    push_text(",\"provinceName\":", &mut out);
    push_json_string(r.province_name.as_str(), &mut out);
    push_text(",\"cityName\":", &mut out);
    push_json_string(r.city_name.as_str(), &mut out);
    push_text(",\"timeZone\":", &mut out);
    push_json_string(r.time_zone.as_str(), &mut out);
    push_text("}", &mut out);
    proof {
        assert(out@ =~= resolved_json(*r));
    }
    string_from_chars(&out)
}

/// Serializes the unresolved shape, which carries only the attempted
/// address.
pub fn to_non_resolved_json(ip_address: &str) -> (body: String)
    ensures
        body@ == non_resolved_json(ip_address@),
{
    let mut out: Vec<char> = Vec::new();
    push_text("{\"ip_address\":", &mut out);
    push_json_string(ip_address, &mut out);
    push_text("}", &mut out);
    proof {
        assert(out@ =~= non_resolved_json(ip_address@));
    }
    string_from_chars(&out)
}

/// `sub` occurs somewhere in `s` as a contiguous run.
pub open spec fn has_sub(s: Seq<char>, sub: Seq<char>) -> bool {
    exists|i: int|
        0 <= i && i + sub.len() <= s.len() && #[trigger] s.subrange(i, i + sub.len()) == sub
}

/// A run in either side of a concatenation is a run in the whole.
pub broadcast proof fn lemma_has_sub_concat(a: Seq<char>, b: Seq<char>, sub: Seq<char>)
    requires
        has_sub(a, sub) || has_sub(b, sub),
    ensures
        #[trigger] has_sub(a + b, sub),
{
    if has_sub(a, sub) {
        let i = choose|i: int|
            0 <= i && i + sub.len() <= a.len() && #[trigger] a.subrange(i, i + sub.len()) == sub;
        assert((a + b).subrange(i, i + sub.len() as int) =~= a.subrange(i, i + sub.len() as int));
    } else {
        let i = choose|i: int|
            0 <= i && i + sub.len() <= b.len() && #[trigger] b.subrange(i, i + sub.len()) == sub;
        assert((a + b).subrange(a.len() + i, a.len() + i + sub.len() as int) =~= b.subrange(
            i,
            i + sub.len() as int,
        ));
    }
}

pub proof fn lemma_sub_at(s: Seq<char>, sub: Seq<char>, at: int)
    requires
        0 <= at,
        at + sub.len() <= s.len(),
        s.subrange(at, at + sub.len()) == sub,
    ensures
        has_sub(s, sub),
{
}

/// Whatever the field values hold, the serialized resolved record contains
/// every one of its fifteen keys, quoted: a parse of the output always finds
/// each key present.
pub proof fn lemma_resolved_json_has_keys(r: ResolvedResponse)
    ensures
        has_sub(resolved_json(r), "\"ipAddress\""@),
        has_sub(resolved_json(r), "\"latitude\""@),
        has_sub(resolved_json(r), "\"longitude\""@),
        has_sub(resolved_json(r), "\"postalCode\""@),
        has_sub(resolved_json(r), "\"continentCode\""@),
        has_sub(resolved_json(r), "\"continentName\""@),
        has_sub(resolved_json(r), "\"countryCode\""@),
        has_sub(resolved_json(r), "\"countryLabel\""@),
        has_sub(resolved_json(r), "\"countryName\""@),
        has_sub(resolved_json(r), "\"regionCode\""@),
        has_sub(resolved_json(r), "\"regionName\""@),
        has_sub(resolved_json(r), "\"provinceCode\""@),
        has_sub(resolved_json(r), "\"provinceName\""@),
        has_sub(resolved_json(r), "\"cityName\""@),
        has_sub(resolved_json(r), "\"timeZone\""@),
{
    broadcast use lemma_has_sub_concat;

    reveal_strlit("{\"ipAddress\":");
    reveal_strlit("\"ipAddress\"");
    assert("{\"ipAddress\":"@.subrange(1, 1 + "\"ipAddress\""@.len() as int) =~= "\"ipAddress\""@);
    lemma_sub_at("{\"ipAddress\":"@, "\"ipAddress\""@, 1);
    reveal_strlit(",\"latitude\":");
    reveal_strlit("\"latitude\"");
    assert(",\"latitude\":"@.subrange(1, 1 + "\"latitude\""@.len() as int) =~= "\"latitude\""@);
    lemma_sub_at(",\"latitude\":"@, "\"latitude\""@, 1);
    reveal_strlit(",\"longitude\":");
    reveal_strlit("\"longitude\"");
    assert(",\"longitude\":"@.subrange(1, 1 + "\"longitude\""@.len() as int) =~= "\"longitude\""@);
    lemma_sub_at(",\"longitude\":"@, "\"longitude\""@, 1);
    reveal_strlit(",\"postalCode\":");
    reveal_strlit("\"postalCode\"");
    assert(",\"postalCode\":"@.subrange(1, 1 + "\"postalCode\""@.len() as int)
        =~= "\"postalCode\""@);
    lemma_sub_at(",\"postalCode\":"@, "\"postalCode\""@, 1);
    reveal_strlit(",\"continentCode\":");
    reveal_strlit("\"continentCode\"");
    assert(",\"continentCode\":"@.subrange(1, 1 + "\"continentCode\""@.len() as int)
        =~= "\"continentCode\""@);
    lemma_sub_at(",\"continentCode\":"@, "\"continentCode\""@, 1);
    reveal_strlit(",\"continentName\":");
    reveal_strlit("\"continentName\"");
    assert(",\"continentName\":"@.subrange(1, 1 + "\"continentName\""@.len() as int)
        =~= "\"continentName\""@);
    lemma_sub_at(",\"continentName\":"@, "\"continentName\""@, 1);
    reveal_strlit(",\"countryCode\":");
    reveal_strlit("\"countryCode\"");
    assert(",\"countryCode\":"@.subrange(1, 1 + "\"countryCode\""@.len() as int)
        =~= "\"countryCode\""@);
    lemma_sub_at(",\"countryCode\":"@, "\"countryCode\""@, 1);
    reveal_strlit(",\"countryLabel\":");
    reveal_strlit("\"countryLabel\"");
    assert(",\"countryLabel\":"@.subrange(1, 1 + "\"countryLabel\""@.len() as int)
        =~= "\"countryLabel\""@);
    lemma_sub_at(",\"countryLabel\":"@, "\"countryLabel\""@, 1);
    reveal_strlit(",\"countryName\":");
    reveal_strlit("\"countryName\"");
    assert(",\"countryName\":"@.subrange(1, 1 + "\"countryName\""@.len() as int)
        =~= "\"countryName\""@);
    lemma_sub_at(",\"countryName\":"@, "\"countryName\""@, 1);
    reveal_strlit(",\"regionCode\":");
    reveal_strlit("\"regionCode\"");
    assert(",\"regionCode\":"@.subrange(1, 1 + "\"regionCode\""@.len() as int)
        =~= "\"regionCode\""@);
    lemma_sub_at(",\"regionCode\":"@, "\"regionCode\""@, 1);
    reveal_strlit(",\"regionName\":");
    reveal_strlit("\"regionName\"");
    assert(",\"regionName\":"@.subrange(1, 1 + "\"regionName\""@.len() as int)
        =~= "\"regionName\""@);
    lemma_sub_at(",\"regionName\":"@, "\"regionName\""@, 1);
    reveal_strlit(",\"provinceCode\":");
    reveal_strlit("\"provinceCode\"");
    assert(",\"provinceCode\":"@.subrange(1, 1 + "\"provinceCode\""@.len() as int)
        =~= "\"provinceCode\""@);
    lemma_sub_at(",\"provinceCode\":"@, "\"provinceCode\""@, 1);
    reveal_strlit(",\"provinceName\":");
    reveal_strlit("\"provinceName\"");
    assert(",\"provinceName\":"@.subrange(1, 1 + "\"provinceName\""@.len() as int)
        =~= "\"provinceName\""@);
    lemma_sub_at(",\"provinceName\":"@, "\"provinceName\""@, 1);
    reveal_strlit(",\"cityName\":");
    reveal_strlit("\"cityName\"");
    assert(",\"cityName\":"@.subrange(1, 1 + "\"cityName\""@.len() as int) =~= "\"cityName\""@);
    lemma_sub_at(",\"cityName\":"@, "\"cityName\""@, 1);
    reveal_strlit(",\"timeZone\":");
    reveal_strlit("\"timeZone\"");
    assert(",\"timeZone\":"@.subrange(1, 1 + "\"timeZone\""@.len() as int) =~= "\"timeZone\""@);
    lemma_sub_at(",\"timeZone\":"@, "\"timeZone\""@, 1);
}

/// The unresolved shape always contains its one key.
pub proof fn lemma_non_resolved_json_has_key(ip: Seq<char>)
    ensures
        has_sub(non_resolved_json(ip), "\"ip_address\""@),
{
    broadcast use lemma_has_sub_concat;

    reveal_strlit("{\"ip_address\":");
    reveal_strlit("\"ip_address\"");
    assert("{\"ip_address\":"@.subrange(1, 1 + "\"ip_address\""@.len() as int)
        =~= "\"ip_address\""@);
    lemma_sub_at("{\"ip_address\":"@, "\"ip_address\""@, 1);
}

/// The JSONP envelope: the body wrapped as `;callback(body);`, the caller's
/// callback name interpolated verbatim, without validation or escaping.
pub open spec fn jsonp_wrap(callback: Seq<char>, body: Seq<char>) -> Seq<char> {
    ";"@ + callback + "("@ + body + ");"@
}

/// Wraps a serialized body in the JSONP envelope.
pub fn wrap_jsonp(callback: &str, body: &str) -> (r: String)
    ensures
        r@ == jsonp_wrap(callback@, body@),
{
    let mut out: Vec<char> = Vec::new();
    push_text(";", &mut out);
    push_text(callback, &mut out);
    push_text("(", &mut out);
    push_text(body, &mut out);
    push_text(");", &mut out);
    proof {
        assert(out@ =~= jsonp_wrap(callback@, body@));
    }
    string_from_chars(&out)
}

} // verus!
