//! The page where a buyer waits for the license.

use crate::codec::{json_string, string_to_json};
use crate::html::{escape, escaped};
use crate::text::cat7;
use vstd::prelude::*;

verus! {

/// The page up to the operator's name in its title.
pub const THANKS_HEAD: &'static str = "<!doctype html>
<html lang=\"en\">
<head>
<meta charset=\"utf-8\">
<meta name=\"viewport\" content=\"width=device-width,initial-scale=1\">
<title>Payment received — ";

/// Up to the operator's name in the bar at the top.
pub const THANKS_STYLE: &'static str = "</title>
<link href=\"https://fonts.googleapis.com/css2?family=Manrope:wght@400;500;600;700&family=Inter:wght@400;500;600;700&family=JetBrains+Mono:wght@400;500;600&display=swap\" rel=\"stylesheet\">
<style>
:root {
  --navy-950:#0E1F33; --navy-900:#142A47; --navy-800:#1E3A5F;
  --cream-50:#FBF9F2; --cream-100:#F5F1E8; --cream-200:#EDE7D7;
  --gold-700:#8A6F3D; --gold-500:#BFA068; --gold-400:#D4B985;
  --ink-900:#0E1F33; --ink-700:#2C3E54; --ink-500:#5A6B7F;
  --success:#2D7A5F; --success-bg:#E3F0EA;
  --danger:#B23A3A; --danger-bg:#F4E0E0;
  --border-1:rgba(14,31,51,0.12);
  --border-2:rgba(14,31,51,0.20);
  --font-display:'Manrope','Helvetica Neue',Arial,sans-serif;
  --font-body:'Inter','Helvetica Neue',Arial,sans-serif;
  --font-mono:'JetBrains Mono',ui-monospace,'SF Mono',Menlo,monospace;
  --shadow-md:0 2px 4px rgba(14,31,51,0.06),0 4px 12px rgba(14,31,51,0.06);
}
*{box-sizing:border-box} html,body{margin:0;padding:0}
body {
  font-family:var(--font-body); color:var(--ink-900);
  background:var(--cream-100);
  background-image:
    radial-gradient(rgba(14,31,51,0.025) 1px, transparent 1px),
    radial-gradient(rgba(138,111,61,0.022) 1px, transparent 1px);
  background-size:3px 3px, 7px 7px;
  -webkit-font-smoothing:antialiased; min-height:100vh;
}
.topbar {
  background:rgba(245,241,232,0.85); backdrop-filter:blur(10px);
  border-bottom:1px solid var(--border-1); padding:14px 24px;
}
.topbar .inner {
  max-width:680px; margin:0 auto;
  display:flex; align-items:center; gap:12px;
  font-family:var(--font-display); font-weight:500; font-size:14px;
  letter-spacing:0.28em; text-transform:uppercase; color:var(--navy-900);
}
.topbar .operator {
  font-family:var(--font-body); font-size:12px;
  letter-spacing:0.04em; text-transform:none;
  color:var(--ink-500); margin-left:auto;
}
.wrap { max-width:560px; margin:48px auto; padding:0 24px; }
.eyebrow {
  font-size:11.5px; font-weight:700; letter-spacing:0.18em;
  text-transform:uppercase; color:var(--gold-700); margin-bottom:14px;
  display:inline-flex; align-items:center; gap:10px;
}
.eyebrow::before { content:''; display:inline-block; width:28px; height:1px; background:var(--gold-500); }
h1 {
  font-family:var(--font-display); font-weight:500; font-size:38px;
  line-height:1.05; letter-spacing:-0.022em; color:var(--navy-950); margin:0 0 14px;
}
.lede { font-size:16px; line-height:1.55; color:var(--ink-700); margin:0 0 28px; }
.pending-card, .license-success, .error-card {
  background:var(--cream-50); border:1px solid var(--border-1);
  border-radius:14px; box-shadow:var(--shadow-md);
  padding:32px 32px 28px; position:relative;
}
.license-success, .pending-card {
  box-shadow:0 0 0 1px var(--gold-500) inset, var(--shadow-md);
}
.license-success::before, .license-success::after,
.pending-card::before, .pending-card::after {
  content:''; position:absolute; left:14px; right:14px;
  height:1px; background:var(--gold-500); opacity:0.5;
}
.license-success::before, .pending-card::before { top:14px; }
.license-success::after, .pending-card::after { bottom:14px; }
.stamp {
  font-size:10px; font-weight:700; letter-spacing:0.22em;
  text-transform:uppercase; color:var(--gold-700);
  text-align:center; margin-bottom:16px;
}
.pending-card h2 {
  font-family:var(--font-display); font-weight:500; font-size:22px;
  color:var(--navy-950); margin:0 0 6px; letter-spacing:-0.015em; text-align:center;
}
.pending-card .sub, .license-success .sub {
  font-size:14px; color:var(--ink-500); text-align:center; margin:0 0 22px;
}
.spinner {
  width:32px; height:32px; border-radius:50%;
  border:3px solid var(--border-1); border-top-color:var(--gold-500);
  animation:spin 1s linear infinite;
  margin:18px auto 22px;
}
@keyframes spin { to { transform:rotate(360deg); } }
.status-detail {
  font-family:var(--font-mono); font-size:12.5px;
  background:var(--cream-100); border:1px solid var(--border-1);
  border-radius:7px; padding:8px 12px;
  color:var(--ink-700); text-align:center;
}
.invoice-ref {
  margin-top:12px; padding:8px 12px;
  font-family:var(--font-mono); font-size:11.5px;
  color:var(--ink-500); text-align:center;
}
.invoice-ref code {
  background:var(--cream-100); border:1px solid var(--border-1);
  padding:1px 6px; border-radius:5px; color:var(--ink-700);
}
.license-success h2 {
  font-family:var(--font-display); font-weight:500; font-size:22px;
  color:var(--navy-950); margin:0 0 6px; letter-spacing:-0.015em; text-align:center;
}
.field-label {
  font-size:11px; font-weight:600; letter-spacing:0.12em;
  text-transform:uppercase; color:var(--ink-500); margin-bottom:6px;
}
.key-box {
  background:var(--navy-950); color:var(--cream-50);
  padding:14px 16px; border-radius:8px;
  font-family:var(--font-mono); font-size:12.5px;
  word-break:break-all; line-height:1.5;
  display:flex; align-items:flex-start; gap:12px;
}
.key-box .key-text { flex:1; }
.key-box button {
  background:rgba(245,241,232,0.10); color:var(--cream-50);
  border:0; padding:6px 10px; border-radius:6px;
  font-family:var(--font-body); font-size:11.5px; cursor:pointer;
  flex-shrink:0;
}
.key-box button:hover { background:rgba(245,241,232,0.20); }
.save-note {
  margin-top:14px; font-size:13px; color:var(--ink-700);
  background:var(--cream-100); border:1px solid var(--border-1);
  border-radius:8px; padding:10px 14px;
}
.save-note strong { color:var(--navy-950); }
.error-card {
  border-color:rgba(178,58,58,0.3); background:var(--danger-bg);
  color:#8a2828; font-size:14px;
}
.hide { display:none !important; }
footer.kfooter {
  text-align:center; font-size:12px; color:var(--ink-500);
  margin-top:48px; padding:18px;
}
footer.kfooter a { color:var(--ink-500); text-decoration:none; }
footer.kfooter a:hover { color:var(--navy-900); }
/* Mobile breakpoint — desktop-rhythm padding crowds 360-390px screens. */
@media (max-width:480px) {
  .topbar { padding:12px 16px; }
  .topbar .inner { font-size:13px; letter-spacing:0.22em; gap:8px; }
  .topbar .operator { font-size:11px; }
  .wrap { margin:24px auto; padding:0 16px; }
  h1 { font-size:clamp(26px, 7vw, 38px); }
  .lede { font-size:15px; margin:0 0 22px; }
  .pending-card, .license-success, .error-card { padding:22px 20px 20px; }
  .pending-card h2 { font-size:20px; }
  footer.kfooter { margin-top:32px; padding:14px; }
}
</style>
</head>
<body>

<div class=\"topbar\">
  <div class=\"inner\">
    <span>Keysat</span>
    <span class=\"operator\">Sold by ";

/// Up to the invoice's id in the script.
pub const THANKS_BODY: &'static str = "</span>
  </div>
</div>

<div class=\"wrap\">
  <div class=\"eyebrow\">Payment received</div>
  <h1 id=\"page-title\">Issuing your license&hellip;</h1>
  <p class=\"lede\" id=\"page-lede\">Your Bitcoin payment was received. We&rsquo;re waiting for it to settle on the network and for the license to be signed. This usually takes under a minute once the next block confirms.</p>

  <!-- pending state (default): polling for the license -->
  <div class=\"pending-card\" id=\"pending-card\">
    <div class=\"stamp\">&mdash; Awaiting confirmation &mdash;</div>
    <h2>Hang tight.</h2>
    <p class=\"sub\">This page will refresh automatically when your license is ready. Safe to bookmark this URL and come back later — your license will be here.</p>
    <div class=\"spinner\" aria-hidden=\"true\"></div>
    <div class=\"status-detail\" id=\"status-detail\">checking status&hellip;</div>
    <div class=\"invoice-ref\" id=\"invoice-ref\"></div>
  </div>

  <!-- success state: license card -->
  <div class=\"license-success hide\" id=\"license-success\" role=\"region\" aria-label=\"License issued\">
    <div class=\"stamp\">&mdash; License issued &mdash;</div>
    <h2>You&rsquo;re licensed.</h2>
    <p class=\"sub\">Your signed license is below. Save it before closing this tab.</p>
    <div class=\"field-label\">License key</div>
    <div class=\"key-box\">
      <span class=\"key-text\" id=\"license-key-text\">&hellip;</span>
      <button id=\"license-key-copy\">Copy</button>
    </div>
    <div class=\"save-note\">
      <strong>Save this somewhere safe.</strong> The key is signed at issue time and verifies offline against the seller&rsquo;s public key. You don&rsquo;t need to come back here.
    </div>
  </div>

  <!-- error state: invoice not found, or unrecoverable -->
  <div class=\"error-card hide\" id=\"error-card\" role=\"alert\">
    <div id=\"error-msg\">Something went wrong looking up this purchase.</div>
  </div>
</div>

<footer class=\"kfooter\">
  <span>Powered by <a href=\"https://keysat.xyz\" target=\"_blank\" rel=\"noopener\">Keysat</a> &middot; Bitcoin-paid software licensing</span>
</footer>

<script>
(function() {
  const INVOICE_ID = ";

/// The rest of the page.
pub const THANKS_SCRIPT: &'static str = ";
  if (!INVOICE_ID) {
    document.getElementById('pending-card').classList.add('hide');
    document.getElementById('error-card').classList.remove('hide');
    document.getElementById('error-msg').textContent = 'No invoice id supplied. Looking for your license? Check your email or contact the seller.';
    return;
  }

  const pendingCard = document.getElementById('pending-card');
  const successCard = document.getElementById('license-success');
  const errorCard = document.getElementById('error-card');
  const statusDetail = document.getElementById('status-detail');
  const keyText = document.getElementById('license-key-text');
  const errorMsg = document.getElementById('error-msg');
  const pageTitle = document.getElementById('page-title');
  const pageLede = document.getElementById('page-lede');
  const invoiceRef = document.getElementById('invoice-ref');
  if (invoiceRef) {
    invoiceRef.innerHTML = 'Reference for support: <code>' +
      INVOICE_ID.replace(/[<>&]/g, '') + '</code>';
  }

  // Copy button.
  document.getElementById('license-key-copy').addEventListener('click', async function() {
    try {
      await navigator.clipboard.writeText(keyText.textContent);
      this.textContent = 'Copied';
      setTimeout(() => { this.textContent = 'Copy'; }, 1400);
    } catch (e) {}
  });

  function showSuccess(licenseKey) {
    pendingCard.classList.add('hide');
    errorCard.classList.add('hide');
    keyText.textContent = licenseKey;
    successCard.classList.remove('hide');
    pageTitle.textContent = 'Your license is ready.';
    pageLede.textContent = 'Save the key below — it verifies offline against the seller’s public key. You can close this tab when you’re done.';
  }
  function showError(msg) {
    pendingCard.classList.add('hide');
    successCard.classList.add('hide');
    errorMsg.textContent = msg;
    errorCard.classList.remove('hide');
    pageTitle.textContent = 'Something went wrong.';
    pageLede.textContent = 'See the message below for details.';
  }

  // Adaptive polling: tight cadence for the first 2 minutes (most invoices
  // settle within one block), then back off so a slow block + clearnet flake
  // doesn't burn battery/data on the buyer's phone. URL is bookmark-friendly:
  // a buyer can close this tab and return any time — polling resumes from
  // wherever the invoice currently is.
  let attempt = 0;
  let elapsedMs = 0;
  const TIGHT_MS = 3000;     // 0–2 min  → poll every 3s
  const MED_MS   = 10000;    // 2–10 min → poll every 10s
  const SLOW_MS  = 30000;    // 10–30 min→ poll every 30s
  const TIGHT_DEADLINE = 2  * 60 * 1000;
  const MED_DEADLINE   = 10 * 60 * 1000;
  const HARD_DEADLINE  = 30 * 60 * 1000;

  function nextDelay() {
    if (elapsedMs < TIGHT_DEADLINE) return TIGHT_MS;
    if (elapsedMs < MED_DEADLINE)   return MED_MS;
    return SLOW_MS;
  }

  function waitingCopy(status) {
    const min = Math.floor(elapsedMs / 60000);
    if (status === 'pending' || status === 'processing') {
      if (min < 2) return 'invoice ' + status + ' — should settle within a block (~10 min).';
      if (min < 10) return 'invoice ' + status + ' — waiting for block confirmation. Safe to leave this tab open or bookmark this URL and come back.';
      return 'invoice ' + status + ' — slow block. Still polling. Bookmark this URL and refresh later if you close the tab.';
    }
    return 'invoice status: ' + (status || 'pending');
  }

  async function poll() {
    attempt++;
    try {
      const r = await fetch('/v1/purchase/' + encodeURIComponent(INVOICE_ID));
      if (r.status === 404) {
        return showError('Invoice not found. The link may have been mistyped.');
      }
      if (!r.ok) {
        statusDetail.textContent = 'server returned HTTP ' + r.status + ' (will retry)';
        return scheduleNext();
      }
      const j = await r.json();
      if (j.license_key) {
        return showSuccess(j.license_key);
      }
      const status = j.status || 'pending';
      statusDetail.textContent = waitingCopy(status);
      if (status === 'expired' || status === 'invalid') {
        return showError('Payment was not completed (status: ' + status + '). If you sent funds, contact the seller and reference your invoice id above.');
      }
      scheduleNext();
    } catch (err) {
      statusDetail.textContent = 'network error (retrying): ' + (err.message || err);
      scheduleNext();
    }
  }
  function scheduleNext() {
    if (elapsedMs >= HARD_DEADLINE) {
      statusDetail.textContent =
        'still waiting after 30 minutes. Bookmark this URL and refresh in a few minutes — your license will appear automatically once the invoice settles. If you still see this in an hour, contact the seller and reference the invoice id at the top of this page.';
      return;
    }
    const d = nextDelay();
    elapsedMs += d;
    setTimeout(poll, d);
  }
  poll();
})();
</script>

</body>
</html>";

/// The name that a page shows: the stored one, or else the one that was set up,
/// or else the product's own.
pub open spec fn shown_operator(stored: Option<String>, configured: Option<String>) -> Seq<char> {
    match (stored, configured) {
        (Some(name), _) => name@,
        (None, Some(name)) => name@,
        (None, None) => "Keysat"@,
    }
}

/// The name that a page shows.
pub fn operator_shown(stored: &Option<String>, configured: &Option<String>) -> (r: String)
    ensures
        r@ == shown_operator(*stored, *configured),
{
    match (stored, configured) {
        (Some(name), _) => name.clone(),
        (None, Some(name)) => name.clone(),
        (None, None) => String::from_str("Keysat"),
    }
}

/// The page where a buyer waits for the license of an invoice.
pub fn thank_you(
    invoice_id: &Option<String>,
    stored_operator: &Option<String>,
    configured_operator: &Option<String>,
) -> (r: String)
    ensures
        r@ == ({
            let operator = escaped(
                shown_operator(*stored_operator, *configured_operator),
                true,
                true,
            );
            let id = match *invoice_id {
                Some(id) => id@,
                None => ""@,
            };
            THANKS_HEAD@ + operator + THANKS_STYLE@ + operator + THANKS_BODY@ + json_string(id)
                + THANKS_SCRIPT@
        }),
{
    let name: String = operator_shown(stored_operator, configured_operator);
    let operator: String = escape(name.as_str(), true, true);
    let id: String = match invoice_id {
        Some(id) => string_to_json(id.as_str()),
        None => string_to_json(""),
    };
    cat7(
        THANKS_HEAD,
        operator.as_str(),
        THANKS_STYLE,
        operator.as_str(),
        THANKS_BODY,
        id.as_str(),
        THANKS_SCRIPT,
    )
}

} // verus!
