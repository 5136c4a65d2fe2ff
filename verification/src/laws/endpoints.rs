//! Where notices may be sent.

use crate::api::webhook_endpoints::{
    is_blocked_v4, is_blocked_v6, is_new_endpoint, url_refusal, CreateEndpointReq, NewEndpoint,
};
use crate::codec::{hex_text, url_reading, HostModel, UrlModel};
use crate::error::AppError;
use vstd::prelude::*;

verus! {

/// Notices are not sent back to the machine itself, to its own link, or to no
/// address; to every other address they are.
pub proof fn local_addresses_are_blocked(o: Seq<u8>)
    requires
        o.len() == 4,
    ensures
        is_blocked_v4(o) <==> o[0] == 127 || (o[0] == 169 && o[1] == 254) || (o[0] == 0 && o[1] == 0
            && o[2] == 0 && o[3] == 0),
{
}

/// The same holds of longer addresses, and of those that hold a shorter one.
pub proof fn longer_local_addresses_are_blocked(s: Seq<u16>, a: u8, b: u8, c: u8, d: u8)
    requires
        s.len() == 8,
    ensures
        s == seq![0u16, 0, 0, 0, 0, 0, 0, 1] ==> is_blocked_v6(s),
        s == seq![0u16, 0, 0, 0, 0, 0, 0, 0] ==> is_blocked_v6(s),
        0xfe80 <= s[0] <= 0xfebf ==> is_blocked_v6(s),
        s[0] != 0 && !(0xfe80 <= s[0] <= 0xfebf) && s[0] != 0x64 ==> !is_blocked_v6(s),
        s == seq![
            0u16,
            0,
            0,
            0,
            0,
            0xffff,
            (a as u16 * 256 + b) as u16,
            (c as u16 * 256 + d) as u16,
        ] ==> (is_blocked_v6(s) <==> is_blocked_v4(seq![a, b, c, d])),
        s == seq![
            0x64u16,
            0xff9b,
            0,
            0,
            0,
            0,
            (a as u16 * 256 + b) as u16,
            (c as u16 * 256 + d) as u16,
        ] ==> (is_blocked_v6(s) <==> is_blocked_v4(seq![a, b, c, d])),
{
    let hi = (a as u16 * 256 + b) as u16;
    let lo = (c as u16 * 256 + d) as u16;
    assert(crate::api::webhook_endpoints::octets_of(hi, lo) =~= seq![a, b, c, d]);
}

/// Notices go to web addresses with a host that is not local, and nowhere else.
pub proof fn notices_go_to_the_web(raw: Seq<char>, url: Option<UrlModel>)
    ensures
        url is None ==> url_refusal(raw, url) is Some,
        url matches Some(u) ==> {
            &&& u.scheme != "http"@ && u.scheme != "https"@ ==> url_refusal(raw, url) is Some
            &&& u.host is None ==> url_refusal(raw, url) is Some
            &&& (u.host matches Some(HostModel::Ipv4 { octets }) && is_blocked_v4(octets))
                ==> url_refusal(raw, url) is Some
            &&& (u.host matches Some(HostModel::Ipv6 { segments }) && is_blocked_v6(segments))
                ==> url_refusal(raw, url) is Some
            &&& (u.host matches Some(HostModel::Domain { name }) && name == "localhost"@)
                ==> url_refusal(raw, url) is Some
            &&& (u.scheme == "http"@ || u.scheme == "https"@) && (
            u.host matches Some(HostModel::Ipv4 { octets }) && !is_blocked_v4(octets))
                ==> url_refusal(raw, url) is None
            &&& (u.scheme == "http"@ || u.scheme == "https"@) && (
            u.host matches Some(HostModel::Ipv6 { segments }) && !is_blocked_v6(segments))
                ==> url_refusal(raw, url) is None
            &&& (u.scheme == "http"@ || u.scheme == "https"@) && (
            u.host matches Some(HostModel::Domain { name }) && name.len() > 0 && name[name.len()
                - 1] != '.' && name.len() != 9) ==> url_refusal(raw, url) is None
        },
{
    reveal_strlit("localhost");
    let name = "localhost"@;
    assert(crate::text::without_trailing(name, '.') == name);
    assert(crate::text::lowercased(name) =~= name);
}

/// An endpoint is kept as it was asked for, where notices may be sent to it. It
/// has the secret that was given, or else one made of 32 bytes.
pub proof fn endpoints_are_kept_as_asked(req: CreateEndpointReq, r: Result<NewEndpoint, AppError>)
    requires
        is_new_endpoint(req, r),
    ensures
        r is Ok <==> url_refusal(req.url@, url_reading(req.url@)) is None,
        r is Err ==> (r->Err_0 is BadRequest),
        r matches Ok(e) ==> {
            &&& e.url@ == req.url@
            &&& e.event_types@ == req.event_types@
            &&& e.description@ == req.description@
            &&& req.secret is Some ==> e.secret@ == req.secret->0@
            &&& req.secret is None ==> exists|raw: [u8; 32]| e.secret@ == #[trigger] hex_text(raw@)
        },
{
}

} // verus!
