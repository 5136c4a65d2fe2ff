//! Where the service sends its own notices to.

use crate::codec::{
    hex_encode, hex_text, opt_url, random_bytes, url_parse, url_reading, HostModel, UrlHost, UrlModel, UrlParts,
};
use crate::error::{bad_request, AppError};
use crate::text::{
    cat2, copy_of, lowercased, same, texts, to_ascii_lower, trim_end_matches, without_trailing,
};
use vstd::prelude::*;

verus! {

/// A request to send notices to a URL.
#[derive(Clone, Debug)]
pub struct CreateEndpointReq {
    pub url: String,
    /// Which events are sent; `*` stands for all.
    pub event_types: Vec<String>,
    pub description: String,
    /// The secret that notices are signed with; made up where it is omitted.
    pub secret: Option<String>,
}

/// Whether secrets are listed.
#[derive(Clone, Copy, Debug)]
pub struct ListEndpointsQuery {
    pub include_secret: bool,
}

/// Switches an endpoint on or off.
#[derive(Clone, Copy, Debug)]
pub struct SetActiveReq {
    pub active: bool,
}

/// The events that are sent where nothing is said: all.
pub fn default_event_types() -> (r: Vec<String>)
    ensures
        texts(r@) == seq!["*"@],
{
    let mut out: Vec<String> = Vec::new();
    out.push(String::from_str("*"));
    assert(texts(out@) =~= seq!["*"@]);
    out
}

/// Is an IPv4 address one that notices are not sent to: loopback, link-local,
/// or unspecified?
pub open spec fn is_blocked_v4(o: Seq<u8>) -> bool {
    ||| o[0] == 127
    ||| o[0] == 169 && o[1] == 254
    ||| o[0] == 0 && o[1] == 0 && o[2] == 0 && o[3] == 0
}

/// Is an IPv4 address one that notices are not sent to?
pub fn ipv4_is_blocked(ip: &[u8; 4]) -> (r: bool)
    ensures
        r == is_blocked_v4(ip@),
{
    ip[0] == 127 || (ip[0] == 169 && ip[1] == 254) || (ip[0] == 0 && ip[1] == 0 && ip[2] == 0
        && ip[3] == 0)
}

/// The IPv4 address that two segments hold.
pub open spec fn octets_of(hi: u16, lo: u16) -> Seq<u8> {
    seq![(hi / 256) as u8, (hi % 256) as u8, (lo / 256) as u8, (lo % 256) as u8]
}

fn octets(hi: u16, lo: u16) -> (r: [u8; 4])
    ensures
        r@ == octets_of(hi, lo),
{
    let r: [u8; 4] = [(hi / 256) as u8, (hi % 256) as u8, (lo / 256) as u8, (lo % 256) as u8];
    assert(r@ =~= octets_of(hi, lo));
    r
}

/// The IPv4 address inside an IPv6 address that maps it (`::ffff:a.b.c.d`) or is
/// compatible with it (`::a.b.c.d`).
pub open spec fn plain_v4(s: Seq<u16>) -> Option<Seq<u8>> {
    if s[0] == 0 && s[1] == 0 && s[2] == 0 && s[3] == 0 && s[4] == 0 && (s[5] == 0 || s[5]
        == 0xffff) {
        Some(octets_of(s[6], s[7]))
    } else {
        None
    }
}

/// The IPv4 address behind the NAT64 prefix `64:ff9b::/96`.
pub open spec fn nat64_v4(s: Seq<u16>) -> Option<Seq<u8>> {
    if s[0] == 0x0064 && s[1] == 0xff9b && s[2] == 0 && s[3] == 0 && s[4] == 0 && s[5] == 0 {
        Some(octets_of(s[6], s[7]))
    } else {
        None
    }
}

/// Is an IPv6 address link-local: does it begin with the ten bits of `fe80::/10`?
pub open spec fn is_link_local_v6(s: Seq<u16>) -> bool {
    0xfe80 <= s[0] <= 0xfebf
}

/// Is an IPv6 address loopback (`::1`) or unspecified (`::`)?
pub open spec fn is_local_v6(s: Seq<u16>) -> bool {
    s[0] == 0 && s[1] == 0 && s[2] == 0 && s[3] == 0 && s[4] == 0 && s[5] == 0 && s[6] == 0 && (s[7]
        == 0 || s[7] == 1)
}

/// Is an IPv6 address one that notices are not sent to: loopback, unspecified,
/// link-local, or another form of an IPv4 address of that kind?
pub open spec fn is_blocked_v6(s: Seq<u16>) -> bool {
    ||| is_local_v6(s)
    ||| is_link_local_v6(s)
    ||| plain_v4(s) matches Some(o) && is_blocked_v4(o)
    ||| nat64_v4(s) matches Some(o) && is_blocked_v4(o)
}

/// The IPv4 address behind the NAT64 prefix.
pub fn nat64_embedded_ipv4(ip: &[u16; 8]) -> (r: Option<[u8; 4]>)
    ensures
        match r {
            Some(o) => nat64_v4(ip@) == Some(o@),
            None => nat64_v4(ip@) is None,
        },
{
    if ip[0] != 0x0064 || ip[1] != 0xff9b || ip[2] != 0 || ip[3] != 0 || ip[4] != 0 || ip[5] != 0 {
        None
    } else {
        Some(octets(ip[6], ip[7]))
    }
}

/// Is an IPv6 address link-local?
pub fn is_ipv6_link_local(ip: &[u16; 8]) -> (r: bool)
    ensures
        r == is_link_local_v6(ip@),
{
    let first: u16 = ip[0];
    assert((first & 0xffc0 == 0xfe80) <==> (0xfe80 <= first && first <= 0xfebf)) by (bit_vector);
    (first & 0xffc0) == 0xfe80
}

/// Is an IPv6 address one that notices are not sent to?
pub fn ipv6_is_blocked(ip: &[u16; 8]) -> (r: bool)
    ensures
        r == is_blocked_v6(ip@),
{
    let zero: bool = ip[0] == 0 && ip[1] == 0 && ip[2] == 0 && ip[3] == 0 && ip[4] == 0;
    if zero && ip[5] == 0 && ip[6] == 0 && (ip[7] == 0 || ip[7] == 1) {
        return true;
    }
    if is_ipv6_link_local(ip) {
        return true;
    }
    if zero && (ip[5] == 0 || ip[5] == 0xffff) {
        if ipv4_is_blocked(&octets(ip[6], ip[7])) {
            return true;
        }
    }
    match nat64_embedded_ipv4(ip) {
        Some(o) => ipv4_is_blocked(&o),
        None => false,
    }
}

/// A blocked IPv4 address stays blocked in each of its IPv6 forms: mapped,
/// compatible, and behind the NAT64 prefix.
pub proof fn rewritten_addresses_stay_blocked(o: Seq<u8>)
    requires
        o.len() == 4,
        is_blocked_v4(o),
    ensures
        ({
            let hi = (o[0] * 256 + o[1]) as u16;
            let lo = (o[2] * 256 + o[3]) as u16;
            &&& is_blocked_v6(seq![0u16, 0, 0, 0, 0, 0xffff, hi, lo])
            &&& is_blocked_v6(seq![0u16, 0, 0, 0, 0, 0, hi, lo])
            &&& is_blocked_v6(seq![0x0064u16, 0xff9b, 0, 0, 0, 0, hi, lo])
        }),
{
    let hi = (o[0] * 256 + o[1]) as u16;
    let lo = (o[2] * 256 + o[3]) as u16;
    assert(octets_of(hi, lo) =~= o);
}

/// Is a host one that notices are not sent to?
pub open spec fn is_blocked_host(host: HostModel) -> bool {
    match host {
        HostModel::Domain { name } => lowercased(without_trailing(name, '.')) == "localhost"@,
        HostModel::Ipv4 { octets } => is_blocked_v4(octets),
        HostModel::Ipv6 { segments } => is_blocked_v6(segments),
    }
}

/// What is wrong with a URL that notices are to be sent to.
pub open spec fn url_refusal(raw: Seq<char>, url: Option<UrlModel>) -> Option<Seq<char>> {
    match url {
        None => Some("invalid webhook url: "@ + raw),
        Some(u) => if u.scheme != "http"@ && u.scheme != "https"@ {
            Some("webhook url scheme must be http or https, got "@ + u.scheme)
        } else {
            match u.host {
                None => Some("webhook url must include a host"@),
                Some(host) => if is_blocked_host(host) {
                    Some("webhook url host may not be loopback/link-local/unspecified: "@ + raw)
                } else {
                    None
                },
            }
        },
    }
}

/// Checks the parts of a URL that notices are to be sent to.
pub fn check_url_parts(raw: &str, url: &Option<UrlParts>) -> (r: Result<(), AppError>)
    ensures
        match (url_refusal(raw@, opt_url(*url)), r) {
            (None, Ok(_)) => true,
            (Some(words), Err(e)) => e.is_bad_request(words),
            _ => false,
        },
{
    let parts: &UrlParts = match url {
        None => {
            return Err(AppError::BadRequest(cat2("invalid webhook url: ", raw)));
        },
        Some(parts) => parts,
    };
    if !same(parts.scheme.as_str(), "http") && !same(parts.scheme.as_str(), "https") {
        return Err(
            AppError::BadRequest(
                cat2("webhook url scheme must be http or https, got ", parts.scheme.as_str()),
            ),
        );
    }
    let blocked: bool = match &parts.host {
        Some(UrlHost::Domain { name }) => {
            let lower: String = to_ascii_lower(trim_end_matches(name.as_str(), '.'));
            same(lower.as_str(), "localhost")
        },
        Some(UrlHost::Ipv4 { octets }) => ipv4_is_blocked(octets),
        Some(UrlHost::Ipv6 { segments }) => ipv6_is_blocked(segments),
        None => {
            return Err(bad_request("webhook url must include a host"));
        },
    };
    if blocked {
        return Err(
            AppError::BadRequest(
                cat2("webhook url host may not be loopback/link-local/unspecified: ", raw),
            ),
        );
    }
    Ok(())
}

/// Checks a URL that notices are to be sent to: only http and https, and no
/// host that leads back to the machine itself. Private networks are allowed.
pub fn validate_webhook_url(raw: &str) -> (r: Result<(), AppError>)
    ensures
        match (url_refusal(raw@, url_reading(raw@)), r) {
            (None, Ok(_)) => true,
            (Some(words), Err(e)) => e.is_bad_request(words),
            _ => false,
        },
{
    let parts: Option<UrlParts> = url_parse(raw);
    check_url_parts(raw, &parts)
}

/// Private networks are no reason to refuse a URL.
pub proof fn private_networks_are_allowed(o: Seq<u8>)
    requires
        o.len() == 4,
        o[0] == 10 || (o[0] == 192 && o[1] == 168) || (o[0] == 172 && 16 <= o[1] <= 31),
    ensures
        !is_blocked_v4(o),
{
}

/// The secret that is made of the given bytes.
pub fn secret_of(raw: &[u8; 32]) -> (r: String)
    ensures
        r@ == hex_text(raw@),
{
    hex_encode(raw.as_slice())
}

/// A secret made of 32 random bytes.
pub fn generate_secret() -> (r: String)
    ensures
        exists|raw: [u8; 32]| r@ == #[trigger] hex_text(raw@),
{
    let raw: [u8; 32] = random_bytes();
    secret_of(&raw)
}

/// An endpoint to store.
#[derive(Clone, Debug, PartialEq, Eq)]
pub struct NewEndpoint {
    pub url: String,
    pub secret: String,
    pub event_types: Vec<String>,
    pub description: String,
}

/// Is `r` the endpoint to store for a request?
pub open spec fn is_new_endpoint(req: CreateEndpointReq, r: Result<NewEndpoint, AppError>) -> bool {
    match (url_refusal(req.url@, url_reading(req.url@)), r) {
        (Some(words), Err(e)) => e.is_bad_request(words),
        (None, Ok(e)) => {
            &&& e.url == req.url
            &&& e.event_types@ == req.event_types@
            &&& e.description == req.description
            &&& match req.secret {
                Some(secret) => e.secret == secret,
                None => exists|raw: [u8; 32]| e.secret@ == #[trigger] hex_text(raw@),
            }
        },
        _ => false,
    }
}

/// The endpoint to store for a request: its URL is checked, and a secret is made
/// up where none is given.
pub fn create(req: &CreateEndpointReq) -> (r: Result<NewEndpoint, AppError>)
    ensures
        is_new_endpoint(*req, r),
{
    if let Err(e) = validate_webhook_url(req.url.as_str()) {
        return Err(e);
    }
    Ok(
        NewEndpoint {
            url: req.url.clone(),
            secret: match &req.secret {
                Some(secret) => secret.clone(),
                None => generate_secret(),
            },
            event_types: copy_of(&req.event_types),
            description: req.description.clone(),
        },
    )
}

} // verus!
