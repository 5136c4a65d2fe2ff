//! The license that the service itself runs under.

use crate::codec::{uuid_text, Uuid};
use crate::text::{cat7, copy_of, int_text, int_to_text, join, joined, texts, trim, trimmed};
use vstd::prelude::*;

verus! {

/// What the service's own license says.
#[derive(Clone, Debug)]
pub enum Tier {
    Unlicensed { reason: String },
    Licensed {
        license_id: Uuid,
        product_id: Uuid,
        /// Unix seconds; 0 means perpetual.
        expires_at: i64,
        entitlements: Vec<String>,
    },
}

/// Whether the lack of a license has consequences.
#[derive(Clone, Copy, Debug, PartialEq, Eq)]
pub enum Mode {
    Permissive,
    Enforce,
}

/// The service's own license as it is shown to the operator.
#[derive(Clone, Debug)]
pub enum TierStatus {
    Unlicensed { reason: String, mode: &'static str },
    Licensed {
        license_id: String,
        product_id: String,
        expires_at: i64,
        entitlements: Vec<String>,
        mode: &'static str,
    },
}

/// A license to run the service under.
#[derive(Clone, Debug)]
pub struct ActivateBody {
    pub license_key: String,
}

/// The answer to an activation.
#[derive(Clone, Debug)]
pub struct ActivateResponse {
    pub ok: bool,
    pub tier: TierStatus,
    pub message: String,
}

/// The name of a mode.
pub open spec fn mode_name(mode: Mode) -> Seq<char> {
    match mode {
        Mode::Permissive => "permissive"@,
        Mode::Enforce => "enforce"@,
    }
}

/// Does `status` show `tier`?
pub open spec fn shows_tier(tier: Tier, mode: Mode, status: TierStatus) -> bool {
    match tier {
        Tier::Unlicensed { reason } => status matches TierStatus::Unlicensed { reason: r, mode: m }
            && r == reason && m@ == mode_name(mode),
        Tier::Licensed {
            license_id,
            product_id,
            expires_at,
            entitlements,
        } => status matches TierStatus::Licensed {
            license_id: l,
            product_id: p,
            expires_at: x,
            entitlements: e,
            mode: m,
        } && l@ == uuid_text(license_id@) && p@ == uuid_text(product_id@) && x == expires_at && e@
            == entitlements@ && m@ == mode_name(mode),
    }
}

/// The service's own license as it is shown to the operator.
pub fn tier_to_status(tier: &Tier, mode: Mode) -> (r: TierStatus)
    ensures
        shows_tier(*tier, mode, r),
{
    let name: &'static str = match mode {
        Mode::Permissive => "permissive",
        Mode::Enforce => "enforce",
    };
    match tier {
        Tier::Unlicensed { reason } => TierStatus::Unlicensed { reason: reason.clone(), mode: name },
        Tier::Licensed {
            license_id,
            product_id,
            expires_at,
            entitlements,
        } => TierStatus::Licensed {
            license_id: license_id.to_text(),
            product_id: product_id.to_text(),
            expires_at: *expires_at,
            entitlements: copy_of(entitlements),
            mode: name,
        },
    }
}

/// The key to activate, without white space around it; none where it is blank.
pub fn activation_key(body: &ActivateBody) -> (r: Option<String>)
    ensures
        match r {
            Some(key) => key@ == trimmed(body.license_key@) && key@.len() > 0,
            None => trimmed(body.license_key@).len() == 0,
        },
{
    let key: &str = trim(body.license_key.as_str());
    if key.is_empty() {
        None
    } else {
        Some(String::from_str(key))
    }
}

/// What the operator is told about a license that was activated.
pub open spec fn activation_words(
    license_id: Seq<char>,
    expires_at: int,
    entitlements: Seq<Seq<char>>,
) -> Seq<char> {
    "License "@ + license_id + " verified — "@ + (if expires_at == 0 {
        "perpetual"@
    } else {
        "expires unix="@ + int_text(expires_at)
    }) + ", entitlements="@ + (if entitlements.len() == 0 {
        "(none)"@
    } else {
        joined(entitlements, ","@)
    }) + "."@
}

/// The answer to an activation whose license was verified.
pub fn activate(tier: &Tier, mode: Mode) -> (r: ActivateResponse)
    ensures
        r.ok,
        shows_tier(*tier, mode, r.tier),
        r.message@ == match *tier {
            Tier::Licensed { license_id, expires_at, entitlements, .. } => activation_words(
                uuid_text(license_id@),
                expires_at as int,
                texts(entitlements@),
            ),
            Tier::Unlicensed { .. } => "License processed."@,
        },
{
    let message: String = match tier {
        Tier::Licensed { license_id, expires_at, entitlements, .. } => {
            let exp: String = if *expires_at == 0 {
                String::from_str("perpetual")
            } else {
                let mut s: String = String::from_str("expires unix=");
                s.append(int_to_text(*expires_at).as_str());
                s
            };
            let ents: String = if entitlements.len() == 0 {
                String::from_str("(none)")
            } else {
                join(entitlements, ",")
            };
            cat7(
                "License ",
                license_id.to_text().as_str(),
                " verified — ",
                exp.as_str(),
                ", entitlements=",
                ents.as_str(),
                ".",
            )
        },
        Tier::Unlicensed { .. } => String::from_str("License processed."),
    };
    ActivateResponse { ok: true, tier: tier_to_status(tier, mode), message }
}

} // verus!
