//! Switching the sharing of figures on and off.

use crate::error::{bad_request, AppError};
use crate::text::{begins_with, opt_text, starts_with, trim, trimmed};
use vstd::prelude::*;

verus! {

/// Switches sharing on or off, and sets the address figures are sent to.
#[derive(Clone, Debug)]
pub struct SetReq {
    pub enabled: bool,
    pub collector_url: Option<String>,
}

/// What is stored, and told to the audit log.
#[derive(Clone, Debug, PartialEq, Eq)]
pub struct SharingChange {
    /// The setting: `1` or `0`.
    pub enabled: String,
    pub collector_url: Option<String>,
    /// Whether the installation needs a name.
    pub needs_install_uuid: bool,
    pub audit_action: String,
}

/// The address figures are sent to: without white space around it, and none
/// where nothing is left.
pub open spec fn clean_url(url: Option<String>) -> Option<Seq<char>> {
    match url {
        Some(u) if trimmed(u@).len() > 0 => Some(trimmed(u@)),
        _ => None,
    }
}

/// Is `r` what is stored when sharing is switched on or off?
pub open spec fn is_sharing_change(req: SetReq, r: Result<SharingChange, AppError>) -> bool {
    let url = clean_url(req.collector_url);
    let refused = url is Some && !begins_with(url->0, "http://"@) && !begins_with(
        url->0,
        "https://"@,
    );
    match r {
        Err(e) => refused && e.is_bad_request("collector_url must start with http:// or https://"@),
        Ok(c) => {
            &&& !refused
            &&& opt_text(c.collector_url) == url
            &&& c.needs_install_uuid == req.enabled
            &&& c.enabled@ == if req.enabled {
                "1"@
            } else {
                "0"@
            }
            &&& c.audit_action@ == if req.enabled {
                "community_analytics.enable"@
            } else {
                "community_analytics.disable"@
            }
        },
    }
}

/// What is stored when sharing is switched on or off.
pub fn set(req: &SetReq) -> (r: Result<SharingChange, AppError>)
    ensures
        is_sharing_change(*req, r),
{
    let mut url: Option<String> = None;
    if let Some(u) = &req.collector_url {
        let u: &str = trim(u.as_str());
        if u.unicode_len() > 0 {
            if !starts_with(u, "http://") && !starts_with(u, "https://") {
                return Err(bad_request("collector_url must start with http:// or https://"));
            }
            url = Some(String::from_str(u));
        }
    }
    Ok(
        SharingChange {
            enabled: if req.enabled {
                String::from_str("1")
            } else {
                String::from_str("0")
            },
            collector_url: url,
            needs_install_uuid: req.enabled,
            audit_action: if req.enabled {
                String::from_str("community_analytics.enable")
            } else {
                String::from_str("community_analytics.disable")
            },
        },
    )
}

/// The name that a preview of the figures shows: the installation's own, or else
/// one of zeroes.
pub fn preview_uuid(stored: &Option<String>) -> (r: String)
    ensures
        match *stored {
            Some(name) if name@.len() > 0 => r == name,
            _ => r@ == "00000000-0000-0000-0000-000000000000"@,
        },
{
    if let Some(name) = stored {
        if name.as_str().unicode_len() > 0 {
            return name.clone();
        }
    }
    String::from_str("00000000-0000-0000-0000-000000000000")
}

} // verus!
