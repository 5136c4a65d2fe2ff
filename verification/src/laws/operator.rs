//! What the operator's password, sessions, keys and providers come to.

use crate::api::auth::{
    is_login_step, is_password_set, is_session, session_in, LoginFacts, LoginStep, NewSession,
};
use crate::api::issuer_key::{is_import, is_reencoding, StoredKeypair};
use crate::api::merchant_profiles::{is_attached, preference_refusal, view_of, AttachedProvider, Rail};
use crate::api::payment_provider::{
    first_of_kind, is_provider_status, summary_of, ProviderStatus,
};
use crate::api::session_layer::{is_session_step, SessionStep};
use crate::api::tier::TierInfo;
use crate::api::zaprite_authorize::{is_connect_step, ConnectFacts, ConnectReq, ConnectStep};
use crate::clock::{rfc3339_text, Moment};
use crate::codec::{
    argon2_accepts, ed25519_public, pem_secret, public_pem, secret_pem, utf8_text,
};
use crate::error::AppError;
use crate::laws::codes::{carries, lemma_carries};
use crate::models::{MerchantProfile, PaymentProviderRow};
use crate::text::{trimmed, without_trailing};
use vstd::prelude::*;
use vstd::utf8::encode_utf8;

verus! {

// ---------- the password ----------

/// A password of twelve characters or more is kept as a hash that accepts it; a
/// shorter one is refused.
pub proof fn passwords_are_long_enough(password: Seq<char>, r: Result<String, AppError>)
    requires
        is_password_set(password, r),
        encode_utf8(password).len() <= 0xFFFF_FFFF,
    ensures
        r is Ok <==> password.len() >= 12,
        r is Ok ==> argon2_accepts(encode_utf8(password), r->Ok_0@),
        r is Err ==> (r->Err_0 is BadRequest),
{
}

/// Attempts to log in are counted by client; an admitted one opens a session with
/// the password that the stored hash accepts, and with no other.
pub proof fn the_right_password_opens_a_session(
    client: Option<String>,
    password: Seq<char>,
    facts: LoginFacts,
    step: LoginStep,
)
    requires
        is_login_step(client, password, facts, step),
    ensures
        facts.admitted is None <==> step is ConsumeToken,
        facts.admitted is None && client is Some ==> step->bucket@ == client->0@,
        facts.admitted is None && client is None ==> step->bucket@ == "unknown"@,
        facts.admitted == Some(false) ==> step is Refuse && (step->error is TooManyRequests),
        facts.admitted == Some(true) && facts.stored is None ==> step is FindHash,
        facts.admitted == Some(true) && (facts.stored matches Some(None)) ==> step is Refuse && (
        step->error is ServiceUnavailable),
        step is OpenSession <==> facts.admitted == Some(true) && (facts.stored matches Some(
            Some(hash),
        ) && argon2_accepts(encode_utf8(password), hash@)),
        step is WrongPassword <==> facts.admitted == Some(true) && (facts.stored matches Some(
            Some(hash),
        ) && !argon2_accepts(encode_utf8(password), hash@)),
{
}

/// A session begins now and ends a day later.
pub proof fn sessions_last_a_day(token: String, now: Moment, r: NewSession)
    requires
        is_session(token, now, r),
    ensures
        r.token@ == token@,
        r.created_at@ == rfc3339_text(now.secs, now.nanos),
        r.expires_at@ == rfc3339_text((now.secs + 86_400) as i64, now.nanos),
{
}

/// A valid session acts with the operator's key, where the request brings no
/// authorization of its own; one that is not valid acts with nothing.
pub proof fn valid_sessions_act_for_the_operator(
    has_authorization: bool,
    cookie: Option<Seq<char>>,
    valid: Option<bool>,
    key: Seq<char>,
    step: SessionStep,
)
    requires
        is_session_step(has_authorization, cookie, valid, key, step),
    ensures
        has_authorization ==> step is PassOn,
        cookie is None ==> step is PassOn,
        valid == Some(false) ==> step is PassOn,
        !has_authorization && cookie is Some && session_in(cookie->0) is Some && valid is None
            ==> step is CheckSession && step->token@ == session_in(cookie->0)->0,
        !has_authorization && cookie is Some && session_in(cookie->0) is Some && valid == Some(true)
            ==> step is Authorize && step->header@ == "Bearer "@ + key,
        step is Authorize ==> valid == Some(true),
{
}

/// The session of a header with nothing but the session's cookie is its value.
pub proof fn session_cookies_carry_the_session(token: Seq<char>)
    requires
        forall|i: int|
            0 <= i < token.len() ==> (#[trigger] token[i]) != ';' && token[i] != '='
                && token[i] != '"' && !crate::text::is_white_space(token[i]),
    ensures
        session_in("keysat_session="@ + token) == Some(token),
{
    reveal_strlit("keysat_session=");
    reveal_strlit("keysat_session");
    let raw = "keysat_session="@ + token;
    let name = "keysat_session"@;
    assert(forall|i: int| 0 <= i < raw.len() ==> raw[i] != ';');
    crate::text::lemma_place_unique(raw, ';', raw.len() as int);
    assert(crate::text::before_char(raw, ';') =~= raw);
    lemma_untrimmed(raw);
    assert forall|j: int| 0 <= j < 14 implies raw[j] != '=' by {
        assert(raw[j] == name[j]);
    }
    crate::text::lemma_place_unique(raw, '=', 14);
    assert(crate::text::before_char(raw, '=') =~= name);
    assert(raw.subrange(15, raw.len() as int) =~= token);
    lemma_untrimmed(name);
    lemma_untrimmed(token);
    assert(crate::text::without_leading(token, '"') == token);
    assert(without_trailing(token, '"') == token);
}

proof fn lemma_untrimmed(s: Seq<char>)
    requires
        s.len() > 0 ==> !crate::text::is_white_space(s[0]) && !crate::text::is_white_space(
            s[s.len() - 1],
        ),
    ensures
        trimmed(s) == s,
{
    assert(crate::text::trimmed_start(s) == s);
    assert(crate::text::trimmed_end(s) == s);
}

// ---------- the issuer's key ----------

/// The private key of a body is stored, written anew, with its public key; no key
/// is taken while licenses exist.
pub proof fn imported_keys_are_pairs(
    body: Seq<u8>,
    licenses_exist: bool,
    r: Result<StoredKeypair, AppError>,
)
    requires
        is_import(body, licenses_exist, r),
    ensures
        licenses_exist ==> r is Err,
        utf8_text(body) is None ==> r is Err && (r->Err_0 is BadRequest),
        utf8_text(body) matches Some(text) && trimmed(text).len() == 0 ==> r is Err && (r->Err_0
            is BadRequest),
        r matches Ok(pair) ==> {
            &&& utf8_text(body) is Some
            &&& pem_secret(trimmed(utf8_text(body)->0)) matches Ok(secret) && secret_pem(
                secret,
            ) == Ok::<Seq<char>, Seq<char>>(pair.private_key_pem@) && public_pem(
                ed25519_public(secret),
            ) == Ok::<Seq<char>, Seq<char>>(pair.public_key_pem@)
        },
{
}

/// A secret that can be written is taken where no license exists.
pub proof fn fresh_installs_take_a_key(secret: Seq<u8>, r: Result<StoredKeypair, AppError>)
    requires
        is_reencoding(secret, false, r),
        secret_pem(secret) is Ok,
        public_pem(ed25519_public(secret)) is Ok,
    ensures
        r is Ok,
        r->Ok_0.private_key_pem@ == secret_pem(secret)->Ok_0,
        r->Ok_0.public_key_pem@ == public_pem(ed25519_public(secret))->Ok_0,
{
}

// ---------- providers ----------

/// The first provider of a kind is the one that was connected first among those
/// of the kind; there is none where none is of the kind.
pub proof fn the_first_of_a_kind_counts(rows: Seq<PaymentProviderRow>, kind: Seq<char>, k: int)
    ensures
        0 <= k < rows.len() && rows[k].kind@ == kind && (forall|j: int|
            0 <= j < k ==> (#[trigger] rows[j]).kind@ != kind) ==> first_of_kind(rows, kind)
            == Some(rows[k]),
        (forall|j: int| 0 <= j < rows.len() ==> (#[trigger] rows[j]).kind@ != kind)
            ==> first_of_kind(rows, kind) is None,
    decreases rows.len(),
{
    if rows.len() > 0 {
        let rest = rows.drop_first();
        the_first_of_a_kind_counts(rest, kind, k - 1);
        if forall|j: int| 0 <= j < rows.len() ==> (#[trigger] rows[j]).kind@ != kind {
            assert(rows[0].kind@ != kind);
            assert forall|j: int| 0 <= j < rest.len() implies (#[trigger] rest[j]).kind@
                != kind by {
                assert(rest[j] == rows[j + 1]);
            }
        }
        if 0 < k < rows.len() && rows[k].kind@ == kind && (forall|j: int|
            0 <= j < k ==> (#[trigger] rows[j]).kind@ != kind) {
            assert(rows[0].kind@ != kind);
            assert(rest[k - 1] == rows[k]);
            assert forall|j: int| 0 <= j < k - 1 implies (#[trigger] rest[j]).kind@ != kind by {
                assert(rest[j] == rows[j + 1]);
            }
        }
    }
}

/// The operator is told which kinds of provider the default profile has, and each
/// of them, in order.
pub proof fn providers_are_told(
    default: Option<MerchantProfile>,
    rows: Seq<PaymentProviderRow>,
    r: ProviderStatus,
)
    requires
        is_provider_status(default, rows, r),
    ensures
        r.btcpay_configured <==> exists|i: int|
            0 <= i < rows.len() && (#[trigger] rows[i]).kind@ == "btcpay"@,
        r.zaprite_configured <==> exists|i: int|
            0 <= i < rows.len() && (#[trigger] rows[i]).kind@ == "zaprite"@,
        rows.len() == 0 ==> r.active is None,
        rows.len() > 0 ==> r.active == Some(rows[0].kind),
        r.providers@.len() == rows.len(),
        forall|i: int|
            0 <= i < rows.len() ==> (#[trigger] r.providers@[i]).id == rows[i].id
                && r.providers@[i].kind == rows[i].kind && r.providers@[i].label == rows[i].label
                && r.providers@[i].base_url == rows[i].base_url && r.providers@[i].store_id
                == rows[i].store_id,
        default is Some ==> r.merchant_profile_id == Some(default->0.id),
        default is None ==> r.merchant_profile_id is None,
        default is Some ==> r.merchant_profile_name == Some(default->0.name),
        default is None ==> r.merchant_profile_name is None,
{
    assert forall|i: int| 0 <= i < rows.len() implies (#[trigger] r.providers@[i]).id == rows[i].id
        && r.providers@[i].kind == rows[i].kind && r.providers@[i].label == rows[i].label
        && r.providers@[i].base_url == rows[i].base_url && r.providers@[i].store_id
        == rows[i].store_id by {
        assert(r.providers@[i] == summary_of(rows[i]));
    }
}

/// A kind of payment goes to a provider of the profile that takes it, and to no
/// other.
pub proof fn payments_go_to_providers_that_take_them(
    profile_id: Seq<char>,
    rail: Rail,
    name: Seq<char>,
    provider_id: Seq<char>,
    found: Option<PaymentProviderRow>,
    served: Seq<Rail>,
)
    ensures
        name == rail.name() ==> (preference_refusal(profile_id, name, provider_id, found, served)
            is None <==> found is Some && found->0.merchant_profile_id@ == profile_id && exists|i:
            int| 0 <= i < served.len() && #[trigger] served[i] == rail),
        name != "lightning"@ && name != "onchain"@ && name != "card"@ ==> preference_refusal(
            profile_id,
            name,
            provider_id,
            found,
            served,
        ) is Some,
        Rail::Lightning.name() == "lightning"@,
        Rail::Onchain.name() == "onchain"@,
        Rail::Card.name() == "card"@,
{
    crate::api::merchant_profiles::rails_are_found_by_name(rail);
    if served.contains(rail) {
        let i = choose|i: int| 0 <= i < served.len() && served[i] == rail;
        assert(served[i] == rail);
    }
}

/// What is told about a profile is the profile, but for the password of its mail
/// account; that there is an account is told.
pub proof fn profiles_are_told_without_passwords(p: MerchantProfile)
    ensures
        view_of(p).id == p.id,
        view_of(p).name == p.name,
        view_of(p).legal_name == p.legal_name,
        view_of(p).support_url == p.support_url,
        view_of(p).support_email == p.support_email,
        view_of(p).brand_color == p.brand_color,
        view_of(p).post_purchase_redirect_url == p.post_purchase_redirect_url,
        view_of(p).is_default == p.is_default,
        view_of(p).smtp_configured <==> p.smtp_host is Some,
        view_of(p).smtp_host == p.smtp_host,
        view_of(p).smtp_port == p.smtp_port,
        view_of(p).smtp_username == p.smtp_username,
        view_of(p).smtp_from_address == p.smtp_from_address,
        view_of(p).smtp_from_name == p.smtp_from_name,
        view_of(p).smtp_use_starttls == p.smtp_use_starttls,
{
}

/// What is told about a provider is the provider, with the kinds of payment that
/// it takes by name.
pub proof fn providers_are_told_with_their_rails(
    a: AttachedProvider,
    row: PaymentProviderRow,
    served: Seq<Rail>,
    i: int,
)
    requires
        is_attached(a, row, served),
        0 <= i < served.len(),
    ensures
        a.id == row.id,
        a.kind == row.kind,
        a.store_id == row.store_id,
        a.webhook_id == row.webhook_id,
        a.served_rails@.len() == served.len(),
        served[i] is Lightning ==> a.served_rails@[i]@ == "lightning"@,
        served[i] is Onchain ==> a.served_rails@[i]@ == "onchain"@,
        served[i] is Card ==> a.served_rails@[i]@ == "card"@,
{
    assert(a.served_rails@[i]@ == served[i].name());
}

// ---------- Zaprite ----------

/// A key for Zaprite is kept on a tier that has it, for a profile that has no
/// account yet, once Zaprite took the key. It is kept without white space, and
/// under the address that was given or else Zaprite's own.
pub proof fn zaprite_accounts_are_kept_once_tried(
    req: ConnectReq,
    tier: TierInfo,
    facts: ConnectFacts,
    step: ConnectStep,
)
    requires
        is_connect_step(req, tier, facts, step),
    ensures
        !carries(tier, "zaprite_payments"@) <==> step is Refuse && (step->error is PaymentRequired),
        carries(tier, "zaprite_payments"@) && trimmed(req.api_key@).len() == 0 ==> step is Refuse
            && (step->error is BadRequest),
        carries(tier, "zaprite_payments"@) && trimmed(req.api_key@).len() > 0 ==> {
            &&& facts.profile is None && req.merchant_profile_id is Some ==> step == (
            ConnectStep::FindProfile { id: req.merchant_profile_id->0 })
            &&& facts.profile is None && req.merchant_profile_id is None ==> step
                is FindDefaultProfile
            &&& (facts.profile matches Some(None)) && req.merchant_profile_id is Some ==> step
                is Refuse && (step->error is BadRequest)
            &&& facts.profile matches Some(Some(profile)) ==> match facts.existing {
                None => step == (ConnectStep::ListProviders { profile_id: profile.id }),
                Some(rows) => {
                    &&& (exists|i: int|
                        0 <= i < rows@.len() && (#[trigger] rows@[i]).kind@ == "zaprite"@) ==> step
                        is Refuse && (step->error is Conflict)
                    &&& (forall|i: int|
                        0 <= i < rows@.len() ==> (#[trigger] rows@[i]).kind@ != "zaprite"@)
                        && req.base_url is None && !facts.tried ==> step is Try && step->api_key@
                        == trimmed(req.api_key@) && step->base_url@ == "https://api.zaprite.com"@
                    &&& (forall|i: int|
                        0 <= i < rows@.len() ==> (#[trigger] rows@[i]).kind@ != "zaprite"@)
                        && req.base_url is None && facts.tried ==> step is Keep
                },
            }
        },
        step matches ConnectStep::Keep { account } ==> {
            &&& facts.tried
            &&& account.api_key@ == trimmed(req.api_key@)
            &&& facts.profile matches Some(Some(profile)) && account.profile_id == profile.id && (
            account.serves_all <==> profile.is_default && facts.existing->0@.len() == 0)
            &&& req.base_url is None ==> account.base_url@ == "https://api.zaprite.com"@
            &&& req.base_url is Some && without_trailing(trimmed(req.base_url->0@), '/').len() > 0
                ==> account.base_url@ == without_trailing(trimmed(req.base_url->0@), '/')
            &&& req.label is Some && trimmed(req.label->0@).len() > 0 ==> account.label@ == trimmed(
                req.label->0@,
            )
            &&& req.label is None || trimmed(req.label->0@).len() == 0 ==> account.label@
                == "Zaprite — "@ + facts.profile->0->0.name@
        },
{
    lemma_carries(tier, "zaprite_payments"@);
    reveal_strlit("https://api.zaprite.com");
    reveal_strlit("https://");
    let u = "https://api.zaprite.com"@;
    assert(u.subrange(0, 8) =~= "https://"@);
}

} // verus!
