//! The address and language resolvers: which IP address a request resolves,
//! and in which language names are returned.

use vstd::prelude::*;

use crate::ip::check_ip_literal;
use crate::ip::is_ip_literal;
use crate::text::chars_of;
use crate::text::find_char;
use crate::text::find_from;

verus! {

/// The address chosen when the explicit parameter is absent or invalid: the
/// proxy header value when present (taken as it is, not validated), else the
/// peer address up to its first `:`.
pub open spec fn fallback_address(
    header: Option<Seq<char>>,
    peer: Option<Seq<char>>,
) -> Option<Seq<char>> {
    match header {
        Some(h) => Some(h),
        None => match peer {
            Some(p) => Some(p.subrange(0, find_from(p, ':', 0))),
            None => None,
        },
    }
}

/// Which address a request resolves, by priority: the explicit `ip`
/// parameter when it is a valid IP literal; else the proxy header value;
/// else the peer address with everything from the first `:` on stripped
/// (which removes the port of an IPv4-style `ip:port`, and truncates a bare
/// IPv6 peer address — a known limitation kept as it is); else nothing.
pub open spec fn resolved_address(
    explicit: Option<Seq<char>>,
    header: Option<Seq<char>>,
    peer: Option<Seq<char>>,
) -> Option<Seq<char>> {
    match explicit {
        Some(e) => if is_ip_literal(e) {
            Some(e)
        } else {
            fallback_address(header, peer)
        },
        None => fallback_address(header, peer),
    }
}

/// Chooses the IP address to resolve from the request's candidates. `None`
/// means no candidate was available at all, which the caller reports as a
/// request-level failure.
pub fn ip_address_to_resolve(
    ip: Option<String>,
    x_real_ip: Option<&str>,
    remote_addr: Option<&str>,
) -> (r: Option<String>)
    ensures
        r.deep_view() == resolved_address(
            ip.deep_view(),
            x_real_ip.deep_view(),
            remote_addr.deep_view(),
        ),
{
    match ip {
        Some(e) => {
            if check_ip_literal(e.as_str()) {
                return Some(e);
            }
        },
        None => {},
    }
    match x_real_ip {
        Some(h) => Some(h.to_owned()),
        None => match remote_addr {
            Some(p) => {
                let v = chars_of(p);
                let j = find_char(&v, ':', 0);
                proof {
                    crate::text::lemma_find_from_bounds(p@, ':', 0);
                }
                Some(p.substring_char(0, j).to_owned())
            },
            None => None,
        },
    }
}

/// A valid explicit IP literal always wins over the header and the peer
/// address.
pub proof fn lemma_explicit_literal_wins(
    e: Seq<char>,
    header: Option<Seq<char>>,
    peer: Option<Seq<char>>,
)
    requires
        is_ip_literal(e),
    ensures
        resolved_address(Some(e), header, peer) == Some(e),
{
}

/// When the explicit address is present but is no IP literal and the proxy
/// header is present, the header value is chosen exactly.
pub proof fn lemma_header_wins_over_invalid(
    e: Seq<char>,
    h: Seq<char>,
    peer: Option<Seq<char>>,
)
    requires
        !is_ip_literal(e),
    ensures
        resolved_address(Some(e), Some(h), peer) == Some(h),
{
}

/// The display language for localized names: the requested code when one was
/// given, the default `"en"` otherwise.
pub open spec fn spec_language(lang: Option<Seq<char>>) -> Seq<char> {
    match lang {
        Some(l) => l,
        None => "en"@,
    }
}

/// Chooses the display language: the requested code when one was given, the
/// default `"en"` otherwise. Any string is accepted; an unknown code simply
/// misses every name table later.
pub fn get_language(lang: Option<String>) -> (r: String)
    ensures
        r@ == spec_language(lang.deep_view()),
{
    match lang {
        Some(l) => l,
        None => "en".to_owned(),
    }
}

} // verus!
