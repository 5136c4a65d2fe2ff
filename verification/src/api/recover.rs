//! Recovering a lost key.
//!
//! A buyer who lost a key gets it again for the invoice's id and the email
//! address that was given with the purchase. Whatever does not match, the
//! refusal says the same.

use crate::api::validate::first_client;
use crate::codec::{hex_sha256, sha256_hex};
use crate::crypto::SigningKey;
use crate::error::{bad_request, AppError};
use crate::licensing::{bad_id_words, derive_key, entitlements_fit, has_uuids, key_of};
use crate::models::{Invoice, License};
use crate::text::{
    copy_of, copy_opt, cut, opt_str, same, texts, to_lower, trim, trimmed, unicode_lower,
};
use vstd::prelude::*;

verus! {

/// The page with the form that recovers a key.
pub const RECOVER_PAGE_HTML: &'static str = "<!DOCTYPE html>
<html lang=\"en\">
<head>
<meta charset=\"utf-8\">
<title>Recover your license — Keysat</title>
<meta name=\"viewport\" content=\"width=device-width, initial-scale=1\">
<style>
  body { font-family: -apple-system, BlinkMacSystemFont, \"Inter\", system-ui, sans-serif;
         background: #f6f1e7; color: #1a2238; margin: 0; padding: 48px 16px; }
  main { max-width: 480px; margin: 0 auto; background: #fff;
         border: 1px solid #d6cdb8; border-radius: 12px; padding: 32px; }
  h1 { margin: 0 0 8px; font-family: \"Archivo\", Georgia, serif; font-weight: 600; font-size: 24px; }
  p.intro { margin: 0 0 24px; color: #5a6178; line-height: 1.5; }
  label { display: block; font-size: 14px; font-weight: 600; margin: 16px 0 6px; }
  input { width: 100%; padding: 10px 12px; box-sizing: border-box;
          border: 1px solid #c5b994; border-radius: 6px; font-size: 15px;
          font-family: \"JetBrains Mono\", Menlo, monospace; }
  button { margin-top: 20px; width: 100%; padding: 12px; background: #1a2238;
           color: #f6f1e7; border: 0; border-radius: 6px; font-size: 15px;
           font-weight: 600; cursor: pointer; }
  button:disabled { opacity: 0.6; cursor: wait; }
  pre { margin: 16px 0 0; padding: 12px; background: #1a2238; color: #f6f1e7;
        border-radius: 6px; overflow-x: auto; font-size: 12px; word-break: break-all;
        white-space: pre-wrap; }
  .err { color: #b03020; margin-top: 12px; font-size: 14px; }
  .ok { color: #1a6b3a; margin-top: 12px; font-size: 14px; font-weight: 600; }
</style>
</head>
<body>
<main>
  <h1>Recover your license key</h1>
  <p class=\"intro\">If you've lost your license key, enter the invoice id you received at checkout and the email you paid with. We'll re-issue the same signed key — no support ticket needed.</p>
  <form id=\"f\">
    <label for=\"invoice_id\">Invoice id</label>
    <input id=\"invoice_id\" name=\"invoice_id\" required autocomplete=\"off\"
           placeholder=\"11111111-2222-3333-4444-555555555555\">
    <label for=\"email\">Email used at purchase</label>
    <input id=\"email\" name=\"email\" type=\"email\" required autocomplete=\"email\">
    <button type=\"submit\">Recover key</button>
  </form>
  <div id=\"result\"></div>
</main>
<script>
const f = document.getElementById('f');
const result = document.getElementById('result');
f.addEventListener('submit', async (e) => {
  e.preventDefault();
  result.innerHTML = '';
  const btn = f.querySelector('button');
  btn.disabled = true;
  try {
    const r = await fetch('/v1/recover', {
      method: 'POST',
      headers: { 'content-type': 'application/json' },
      body: JSON.stringify({
        invoice_id: f.invoice_id.value.trim(),
        email: f.email.value.trim(),
      }),
    });
    const j = await r.json();
    if (!r.ok) {
      const msg = (j && j.error && j.error.message) || (j && j.message) || ('HTTP ' + r.status);
      result.innerHTML = '<div class=\"err\">' + msg + '</div>';
      return;
    }
    result.innerHTML =
      '<div class=\"ok\">Recovered. Save this key somewhere safe.</div>' +
      '<pre>' + j.license_key + '</pre>';
  } catch (err) {
    result.innerHTML = '<div class=\"err\">' + err.message + '</div>';
  } finally {
    btn.disabled = false;
  }
});
</script>
</body>
</html>
";

/// The page with the form that recovers a key.
pub fn page() -> (r: &'static str)
    ensures
        r@ == RECOVER_PAGE_HTML@,
{
    RECOVER_PAGE_HTML
}

/// A request to recover a key.
#[derive(Clone, Debug)]
pub struct RecoverReq {
    pub invoice_id: String,
    pub email: String,
}

/// The key that was recovered, and its license.
#[derive(Clone, Debug, PartialEq, Eq)]
pub struct Recovered {
    pub license_key: String,
    pub license_id: String,
    pub product_id: String,
    pub issued_at: String,
    pub expires_at: Option<String>,
    pub entitlements: Vec<String>,
    /// The invoice that the key was bought with.
    pub invoice_id: String,
    /// The hash of the buyer's address, which the audit log is told.
    pub email_hash: String,
}

/// What has been found out about a request so far.
#[derive(Clone, Debug)]
pub struct RecoverFacts {
    /// Whether the rate limit lets the request through.
    pub admitted: Option<bool>,
    pub invoice: Option<Option<Invoice>>,
    pub license: Option<Option<License>>,
}

/// What a request needs next.
#[derive(Clone, Debug)]
pub enum RecoverStep {
    ConsumeToken { bucket: String },
    Refuse { error: AppError },
    FindInvoice { invoice_id: String },
    FindLicense { invoice_id: String },
    Answer { recovered: Recovered },
}

/// The bucket that a request is counted in: its client, or else one for all
/// that come from the local network.
pub open spec fn recover_bucket(forwarded_for: Option<Seq<char>>) -> Seq<char> {
    match forwarded_for {
        Some(h) if first_client(h).len() > 0 => first_client(h),
        _ => "_lan_"@,
    }
}

/// The bucket that a request is counted in.
pub fn bucket(forwarded_for: Option<&str>) -> (r: String)
    ensures
        r@ == recover_bucket(opt_str(forwarded_for)),
{
    if let Some(h) = forwarded_for {
        let (first, _rest) = cut(h, ',');
        let client: &str = trim(first);
        if client.unicode_len() > 0 {
            return String::from_str(client);
        }
    }
    String::from_str("_lan_")
}

/// An email address as it is compared: without white space around it, and in
/// lower case.
pub open spec fn plain_email(email: Seq<char>) -> Seq<char> {
    unicode_lower(trimmed(email))
}

/// The refusal of whatever does not match.
pub open spec fn failure_words() -> Seq<char> {
    "recovery failed — invoice id and email did not match any settled purchase"@
}

fn generic_failure() -> (r: AppError)
    ensures
        r.is_not_found(failure_words()),
{
    AppError::NotFound(
        String::from_str(
            "recovery failed — invoice id and email did not match any settled purchase",
        ),
    )
}

/// Does an invoice belong to the buyer with this address?
pub open spec fn is_buyers(invoice: Invoice, email: Seq<char>) -> bool {
    &&& invoice.status@ == "settled"@
    &&& invoice.buyer_email is Some
    &&& plain_email(invoice.buyer_email->0@) == plain_email(email)
}

/// Is the key of a license the answer to a request?
pub open spec fn is_recovered(
    secret: Seq<u8>,
    invoice: Invoice,
    license: License,
    recovered: Recovered,
) -> bool {
    &&& recovered.license_key@ == key_of(secret, license)
    &&& recovered.license_id == license.id
    &&& recovered.product_id == license.product_id
    &&& recovered.issued_at == license.issued_at
    &&& recovered.expires_at == license.expires_at
    &&& texts(recovered.entitlements@) == texts(license.entitlements@)
    &&& recovered.invoice_id == invoice.id
    &&& recovered.email_hash@ == sha256_hex(plain_email(invoice.buyer_email->0@))
}

/// Is `step` what a request needs next?
pub open spec fn is_recover_step(
    req: RecoverReq,
    forwarded_for: Option<Seq<char>>,
    secret: Seq<u8>,
    facts: RecoverFacts,
    step: RecoverStep,
) -> bool {
    match facts.admitted {
        None => step matches RecoverStep::ConsumeToken { bucket } && bucket@ == recover_bucket(
            forwarded_for,
        ),
        Some(false) => step matches RecoverStep::Refuse { error } && (
        error matches AppError::TooManyRequests(words) && words@
            == "recovery requests are rate-limited; try again in a minute"@),
        Some(true) => if trimmed(req.invoice_id@).len() == 0 || plain_email(req.email@).len() == 0 {
            step matches RecoverStep::Refuse { error } && error.is_bad_request(
                "both invoice_id and email are required"@,
            )
        } else {
            match facts.invoice {
                None => step matches RecoverStep::FindInvoice { invoice_id } && invoice_id@
                    == trimmed(req.invoice_id@),
                Some(found) => if found is None || !is_buyers(found->0, req.email@) {
                    step matches RecoverStep::Refuse { error } && error.is_not_found(
                        failure_words(),
                    )
                } else {
                    match facts.license {
                        None => step == (RecoverStep::FindLicense { invoice_id: found->0.id }),
                        Some(license) => if license is None || license->0.status@ != "active"@ {
                            step matches RecoverStep::Refuse { error } && error.is_not_found(
                                failure_words(),
                            )
                        } else if !has_uuids(license->0) {
                            step matches RecoverStep::Refuse { error } && error.is_internal(
                                bad_id_words("bad stored"@, license->0),
                            )
                        } else {
                            step matches RecoverStep::Answer { recovered } && is_recovered(
                                secret,
                                found->0,
                                license->0,
                                recovered,
                            )
                        },
                    }
                },
            }
        },
    }
}

/// What a request needs next. A key can carry the entitlements of every active
/// license.
pub fn recover(
    req: &RecoverReq,
    forwarded_for: Option<&str>,
    signing_key: &SigningKey,
    facts: &RecoverFacts,
) -> (r: RecoverStep)
    requires
        facts.license matches Some(Some(license)) ==> (license.status@ == "active"@
            ==> entitlements_fit(license.entitlements@)),
    ensures
        is_recover_step(*req, opt_str(forwarded_for), signing_key.secret@, *facts, r),
{
    match facts.admitted {
        None => {
            return RecoverStep::ConsumeToken { bucket: bucket(forwarded_for) };
        },
        Some(admitted) => {
            if !admitted {
                return RecoverStep::Refuse {
                    error: AppError::TooManyRequests(
                        String::from_str(
                            "recovery requests are rate-limited; try again in a minute",
                        ),
                    ),
                };
            }
        },
    }
    let invoice_id: &str = trim(req.invoice_id.as_str());
    let supplied: String = to_lower(trim(req.email.as_str()));
    if invoice_id.unicode_len() == 0 || supplied.as_str().unicode_len() == 0 {
        return RecoverStep::Refuse {
            error: bad_request("both invoice_id and email are required"),
        };
    }
    let invoice: &Invoice = match &facts.invoice {
        None => {
            return RecoverStep::FindInvoice { invoice_id: String::from_str(invoice_id) };
        },
        Some(None) => {
            return RecoverStep::Refuse { error: generic_failure() };
        },
        Some(Some(invoice)) => invoice,
    };
    if !same(invoice.status.as_str(), "settled") {
        return RecoverStep::Refuse { error: generic_failure() };
    }
    let stored: String = match &invoice.buyer_email {
        Some(e) => to_lower(trim(e.as_str())),
        None => {
            return RecoverStep::Refuse { error: generic_failure() };
        },
    };
    if !same(stored.as_str(), supplied.as_str()) {
        return RecoverStep::Refuse { error: generic_failure() };
    }
    let license: &License = match &facts.license {
        None => {
            return RecoverStep::FindLicense { invoice_id: invoice.id.clone() };
        },
        Some(None) => {
            return RecoverStep::Refuse { error: generic_failure() };
        },
        Some(Some(license)) => license,
    };
    if !same(license.status.as_str(), "active") {
        return RecoverStep::Refuse { error: generic_failure() };
    }
    let license_key: String = match derive_key(signing_key, license, "bad stored") {
        Ok(key) => key,
        Err(error) => {
            return RecoverStep::Refuse { error };
        },
    };
    RecoverStep::Answer {
        recovered: Recovered {
            license_key,
            license_id: license.id.clone(),
            product_id: license.product_id.clone(),
            issued_at: license.issued_at.clone(),
            expires_at: copy_opt(&license.expires_at),
            entitlements: copy_of(&license.entitlements),
            invoice_id: invoice.id.clone(),
            email_hash: hex_sha256(stored.as_str()),
        },
    }
}

/// A refusal does not tell what did not match: whether the invoice is unknown
/// or unpaid, the address is another, or the license is not active, it is the
/// same.
pub proof fn refusals_do_not_tell_why(
    req: RecoverReq,
    forwarded_for: Option<Seq<char>>,
    secret: Seq<u8>,
    facts: RecoverFacts,
    step: RecoverStep,
)
    requires
        is_recover_step(req, forwarded_for, secret, facts, step),
        facts.admitted == Some(true),
        trimmed(req.invoice_id@).len() > 0,
        plain_email(req.email@).len() > 0,
        ({
            ||| facts.invoice == Some(None::<Invoice>)
            ||| facts.invoice matches Some(Some(invoice)) && !is_buyers(invoice, req.email@)
            ||| facts.invoice matches Some(Some(invoice)) && (facts.license == Some(None::<License>)
                || (facts.license matches Some(Some(license)) && license.status@ != "active"@))
        }),
    ensures
        step matches RecoverStep::Refuse { error } && error.is_not_found(failure_words()),
{
}

/// A key is only recovered for a settled invoice, with the address it was paid
/// under, and while its license is active.
pub proof fn only_buyers_recover_keys(
    req: RecoverReq,
    forwarded_for: Option<Seq<char>>,
    secret: Seq<u8>,
    facts: RecoverFacts,
    step: RecoverStep,
)
    requires
        is_recover_step(req, forwarded_for, secret, facts, step),
        step is Answer,
    ensures
        facts.invoice matches Some(Some(invoice)) && is_buyers(invoice, req.email@),
        facts.license matches Some(Some(license)) && license.status@ == "active"@,
{
}

} // verus!
