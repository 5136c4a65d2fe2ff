//! Scoped API keys: credentials that may do only some of what the operator may.
//!
//! A key has a role, which grants a fixed set of scopes, and may carry extra
//! scopes that no role grants. The operator's own key may do anything.

use crate::api::admin::{bearer_token, secrets_match, token_of};
use crate::codec::{
    base64url_encode, base64url_text, hex_sha256, json_array, json_strings, json_to_strings,
    opt_texts, os_random_bytes, sha256_hex, strings_to_json,
};
use crate::error::{bad_request, bad_request_with, AppError};
use crate::text::{
    cat2, chars_of, ends_with, finishes_with, is_one_of, opt_str, opt_text, same, texts, trim,
    trimmed,
};
use vstd::prelude::*;
use vstd::utf8::encode_utf8;

verus! {

/// What a scoped key is for.
#[derive(Clone, Copy, Debug, PartialEq, Eq, Structural)]
pub enum Role {
    /// Reads everything and changes nothing.
    ReadOnly,
    /// Reads, and writes licenses.
    LicenseIssuer,
    /// Issues licenses, cancels subscriptions and frees seats.
    Support,
    /// Reads, and writes products, policies and licenses.
    MerchantOnboard,
    /// Everything that a role can grant.
    FullAdmin,
}

/// The scopes that a key can be given on top of its role, and no role grants.
pub const GRANTABLE_EXTRA_SCOPES: [&'static str; 1] = ["payment_providers:write"];

/// Can the scope be given to a key on top of its role?
pub open spec fn is_extra_scope(scope: Seq<char>) -> bool {
    scope == "payment_providers:write"@
}

/// Can the scope be given to a key on top of its role?
pub fn extra_scope(scope: &str) -> (r: bool)
    ensures
        r == is_extra_scope(scope@),
{
    same(scope, "payment_providers:write")
}

impl Role {
    /// The role's name.
    pub open spec fn name(self) -> Seq<char> {
        match self {
            Role::ReadOnly => "read-only"@,
            Role::LicenseIssuer => "license-issuer"@,
            Role::Support => "support"@,
            Role::MerchantOnboard => "merchant-onboard"@,
            Role::FullAdmin => "full-admin"@,
        }
    }

    /// Does the role grant a scope, such as `licenses:write`?
    pub open spec fn allows(self, scope: Seq<char>) -> bool {
        match self {
            Role::FullAdmin => !is_extra_scope(scope),
            Role::ReadOnly => finishes_with(scope, ":read"@),
            Role::LicenseIssuer => finishes_with(scope, ":read"@) || scope == "licenses:write"@,
            Role::Support => finishes_with(scope, ":read"@) || scope == "licenses:write"@ || scope
                == "subscriptions:write"@ || scope == "machines:write"@,
            Role::MerchantOnboard => finishes_with(scope, ":read"@) || scope == "products:write"@
                || scope == "policies:write"@ || scope == "licenses:write"@,
        }
    }

    /// The role's name.
    pub fn as_str(self) -> (r: &'static str)
        ensures
            r@ == self.name(),
    {
        match self {
            Role::ReadOnly => "read-only",
            Role::LicenseIssuer => "license-issuer",
            Role::Support => "support",
            Role::MerchantOnboard => "merchant-onboard",
            Role::FullAdmin => "full-admin",
        }
    }

    /// The role of a name.
    pub fn parse(s: &str) -> (r: Option<Role>)
        ensures
            match r {
                Some(role) => s@ == role.name(),
                None => forall|role: Role| s@ != #[trigger] role.name(),
            },
    {
        if same(s, "read-only") {
            Some(Role::ReadOnly)
        } else if same(s, "license-issuer") {
            Some(Role::LicenseIssuer)
        } else if same(s, "support") {
            Some(Role::Support)
        } else if same(s, "merchant-onboard") {
            Some(Role::MerchantOnboard)
        } else if same(s, "full-admin") {
            Some(Role::FullAdmin)
        } else {
            None
        }
    }

    /// Does the role grant a scope?
    pub fn grants(self, scope: &str) -> (r: bool)
        ensures
            r == self.allows(scope@),
    {
        match self {
            Role::FullAdmin => !extra_scope(scope),
            Role::ReadOnly => ends_with(scope, ":read"),
            Role::LicenseIssuer => ends_with(scope, ":read") || same(scope, "licenses:write"),
            Role::Support => ends_with(scope, ":read") || same(scope, "licenses:write") || same(
                scope,
                "subscriptions:write",
            ) || same(scope, "machines:write"),
            Role::MerchantOnboard => ends_with(scope, ":read") || same(scope, "products:write")
                || same(scope, "policies:write") || same(scope, "licenses:write"),
        }
    }
}

/// No two roles have the same name, so a name stands for at most one role.
pub proof fn role_names_differ(a: Role, b: Role)
    requires
        a.name() == b.name(),
    ensures
        a == b,
{
    reveal_strlit("read-only");
    reveal_strlit("license-issuer");
    reveal_strlit("support");
    reveal_strlit("merchant-onboard");
    reveal_strlit("full-admin");
    assert("read-only"@.len() == 9 && "license-issuer"@.len() == 14 && "support"@.len() == 7
        && "merchant-onboard"@.len() == 16 && "full-admin"@.len() == 10);
}

/// No role grants a scope that has to be given to a key by itself, not even the
/// highest one.
pub proof fn no_role_allows_extra_scopes(role: Role, scope: Seq<char>)
    requires
        is_extra_scope(scope),
    ensures
        !role.allows(scope),
{
    reveal_strlit("payment_providers:write");
    reveal_strlit(":read");
    reveal_strlit("licenses:write");
    reveal_strlit("subscriptions:write");
    reveal_strlit("machines:write");
    reveal_strlit("products:write");
    reveal_strlit("policies:write");
    assert(scope.len() == 23);
    assert(scope[22] == 'e' && ":read"@[4] == 'd' && ":read"@.len() == 5);
    if finishes_with(scope, ":read"@) {
        assert(scope.subrange(18, 23)[4] == scope[22]);
    }
}

/// The roles build on each other: what a reader may, everyone may; what an
/// issuer may, support and onboarding may; and the highest role may whatever
/// any other may.
pub proof fn roles_build_on_each_other(scope: Seq<char>, role: Role)
    ensures
        Role::ReadOnly.allows(scope) ==> role.allows(scope),
        Role::LicenseIssuer.allows(scope) ==> Role::Support.allows(scope)
            && Role::MerchantOnboard.allows(scope),
        role.allows(scope) ==> Role::FullAdmin.allows(scope),
{
    if is_extra_scope(scope) {
        no_role_allows_extra_scopes(role, scope);
        no_role_allows_extra_scopes(Role::ReadOnly, scope);
    }
}

// ---------- extra scopes ----------

/// Is the scope one of a key's extra scopes? They are kept as a JSON array;
/// anything else counts as none, so a bad record never widens access.
pub open spec fn is_given_extra(json: Option<Seq<char>>, scope: Seq<char>) -> bool {
    json matches Some(text) && json_strings(text) matches Some(scopes) && scopes.contains(scope)
}

/// Is the scope among the extra scopes that were read?
pub fn scopes_contain(scopes: &Option<Vec<String>>, scope: &str) -> (r: bool)
    ensures
        r == (opt_texts(*scopes) matches Some(s) && s.contains(scope@)),
{
    match scopes {
        Some(s) => is_one_of(s, scope),
        None => false,
    }
}

/// Is the scope one of a key's extra scopes?
pub fn extra_scopes_contains(json: Option<&str>, scope: &str) -> (r: bool)
    ensures
        r == is_given_extra(opt_str(json), scope@),
{
    match json {
        Some(text) => scopes_contain(&json_to_strings(text), scope),
        None => false,
    }
}

// ---------- who acts ----------

/// A scoped key as it is stored.
#[derive(Clone, Debug)]
pub struct ApiKeyRow {
    pub id: String,
    pub role: String,
    pub revoked_at: Option<String>,
    /// A JSON array of scopes.
    pub extra_scopes: Option<String>,
}

/// What a request that needs a scope needs next.
#[derive(Clone, Debug)]
pub enum ScopeStep {
    Refuse { error: AppError },
    /// Find the key with this hash.
    FindKey { token_hash: String },
    /// The request may go on; `used_key` is the scoped key that was used.
    Grant { actor_hash: String, used_key: Option<String> },
}

/// Does a stored key grant a scope? A revoked key grants none, and neither does
/// one whose role is unknown.
pub open spec fn key_grants(row: ApiKeyRow, scope: Seq<char>) -> bool {
    row.revoked_at is None && exists|role: Role|
        row.role@ == #[trigger] role.name() && (role.allows(scope) || is_given_extra(
            opt_text(row.extra_scopes),
            scope,
        ))
}

/// Does a stored key grant a scope?
pub fn row_grants(row: &ApiKeyRow, scope: &str) -> (r: bool)
    ensures
        r == key_grants(*row, scope@),
{
    if row.revoked_at.is_some() {
        return false;
    }
    match Role::parse(row.role.as_str()) {
        None => false,
        Some(role) => {
            let given: bool = match &row.extra_scopes {
                Some(json) => extra_scopes_contains(Some(json.as_str()), scope),
                None => false,
            };
            let r: bool = role.grants(scope) || given;
            proof {
                if key_grants(*row, scope@) {
                    let other = choose|other: Role|
                        row.role@ == #[trigger] other.name() && (other.allows(scope@)
                            || is_given_extra(opt_text(row.extra_scopes), scope@));
                    role_names_differ(role, other);
                }
            }
            r
        },
    }
}

/// Is `step` what a request that needs a scope needs next?
pub open spec fn is_scope_step(
    header: Option<Seq<char>>,
    admin_api_key: Seq<char>,
    scope: Seq<char>,
    row: Option<Option<ApiKeyRow>>,
    step: ScopeStep,
) -> bool {
    match bearer_token(header) {
        None => step matches ScopeStep::Refuse { error } && error is Unauthorized,
        Some(token) => if token == admin_api_key {
            step matches ScopeStep::Grant { actor_hash, used_key } && actor_hash@ == sha256_hex(
                token,
            ) && used_key is None
        } else {
            match row {
                None => step matches ScopeStep::FindKey { token_hash } && token_hash@ == sha256_hex(
                    token,
                ),
                Some(None) => step matches ScopeStep::Refuse { error } && error is Forbidden,
                Some(Some(key)) => if key_grants(key, scope) {
                    step matches ScopeStep::Grant { actor_hash, used_key } && actor_hash@
                        == sha256_hex(token) && used_key == Some(key.id)
                } else {
                    step matches ScopeStep::Refuse { error } && error is Forbidden
                },
            }
        },
    }
}

/// What a request that needs a scope needs next. The operator's own key is let
/// through; any other token has to be a scoped key that grants the scope.
pub fn require_scope(
    authorization: Option<&str>,
    admin_api_key: &str,
    scope: &str,
    row: &Option<Option<ApiKeyRow>>,
) -> (r: ScopeStep)
    ensures
        is_scope_step(opt_str(authorization), admin_api_key@, scope@, *row, r),
{
    let token: &str = match token_of(authorization) {
        None => {
            return ScopeStep::Refuse { error: AppError::Unauthorized };
        },
        Some(token) => token,
    };
    let hash: String = hex_sha256(token);
    if secrets_match(token, admin_api_key) {
        return ScopeStep::Grant { actor_hash: hash, used_key: None };
    }
    match row {
        None => ScopeStep::FindKey { token_hash: hash },
        Some(None) => ScopeStep::Refuse { error: AppError::Forbidden },
        Some(Some(key)) => if row_grants(key, scope) {
            ScopeStep::Grant { actor_hash: hash, used_key: Some(key.id.clone()) }
        } else {
            ScopeStep::Refuse { error: AppError::Forbidden }
        },
    }
}

/// A key that was revoked is refused, whatever it was for.
pub proof fn revoked_keys_are_refused(
    header: Option<Seq<char>>,
    admin_api_key: Seq<char>,
    scope: Seq<char>,
    key: ApiKeyRow,
    step: ScopeStep,
)
    requires
        is_scope_step(header, admin_api_key, scope, Some(Some(key)), step),
        key.revoked_at is Some,
        bearer_token(header) != Some(admin_api_key),
    ensures
        step is Refuse,
{
}

/// A scoped key reaches an extra scope only where that scope was given to it.
pub proof fn extra_scopes_have_to_be_given(key: ApiKeyRow, scope: Seq<char>)
    requires
        is_extra_scope(scope),
        key_grants(key, scope),
    ensures
        is_given_extra(opt_text(key.extra_scopes), scope),
{
    let role = choose|role: Role|
        key.role@ == #[trigger] role.name() && (role.allows(scope) || is_given_extra(
            opt_text(key.extra_scopes),
            scope,
        ));
    no_role_allows_extra_scopes(role, scope);
}

// ---------- making and revoking ----------

/// A request to make a key.
#[derive(Clone, Debug)]
pub struct CreateApiKeyReq {
    pub label: String,
    pub role: String,
    /// Extra scopes on top of the role's.
    pub scopes: Vec<String>,
}

/// A key that was made. The token is told this once and never again.
#[derive(Clone, Debug)]
pub struct CreateApiKeyResp {
    pub id: String,
    pub label: String,
    pub role: String,
    pub scopes: Vec<String>,
    pub created_at: String,
    pub token: String,
}

/// A key as it is listed, without its token.
#[derive(Clone, Debug)]
pub struct ApiKeyListEntry {
    pub id: String,
    pub label: String,
    pub role: String,
    pub scopes: Vec<String>,
    pub created_at: String,
    pub last_used_at: Option<String>,
    pub revoked_at: Option<String>,
}

/// Does `a` stand before `b` in the order of their characters?
pub open spec fn comes_before(a: Seq<char>, b: Seq<char>) -> bool
    decreases a.len(),
{
    if b.len() == 0 {
        false
    } else if a.len() == 0 {
        true
    } else if a[0] != b[0] {
        a[0] < b[0]
    } else {
        comes_before(a.subrange(1, a.len() as int), b.subrange(1, b.len() as int))
    }
}

fn stands_before(a: &str, b: &str) -> (r: bool)
    ensures
        r == comes_before(a@, b@),
{
    let x: Vec<char> = chars_of(a);
    let y: Vec<char> = chars_of(b);
    let mut i: usize = 0;
    assert(x@.subrange(0, x@.len() as int) == x@);
    assert(y@.subrange(0, y@.len() as int) == y@);
    while i < x.len() && i < y.len()
        invariant
            i <= x@.len(),
            i <= y@.len(),
            x@ == a@,
            y@ == b@,
            comes_before(a@, b@) == comes_before(
                x@.subrange(i as int, x@.len() as int),
                y@.subrange(i as int, y@.len() as int),
            ),
        decreases x@.len() - i,
    {
        let ghost xs = x@.subrange(i as int, x@.len() as int);
        let ghost ys = y@.subrange(i as int, y@.len() as int);
        assert(xs[0] == x@[i as int] && ys[0] == y@[i as int]);
        if x[i] != y[i] {
            return x[i] < y[i];
        }
        assert(xs.subrange(1, xs.len() as int) == x@.subrange(i + 1, x@.len() as int));
        assert(ys.subrange(1, ys.len() as int) == y@.subrange(i + 1, y@.len() as int));
        i += 1;
    }
    i < y.len()
}

/// The scopes that a request asks for: without white space, blank ones left out.
pub open spec fn asked_scopes(scopes: Seq<String>) -> Seq<Seq<char>>
    decreases scopes.len(),
{
    if scopes.len() == 0 {
        seq![]
    } else {
        let before = asked_scopes(scopes.drop_last());
        let last = trimmed(scopes.last()@);
        if last.len() == 0 {
            before
        } else {
            before.push(last)
        }
    }
}

/// The first, in the order of their characters, of the scopes up to here that
/// cannot be given to a key.
pub open spec fn least_refused(asked: Seq<Seq<char>>) -> Option<Seq<char>>
    decreases asked.len(),
{
    if asked.len() == 0 {
        None
    } else {
        let before = least_refused(asked.drop_last());
        let last = asked.last();
        if is_extra_scope(last) {
            before
        } else {
            match before {
                Some(s) => if comes_before(last, s) {
                    Some(last)
                } else {
                    Some(s)
                },
                None => Some(last),
            }
        }
    }
}

/// The scopes that a key is given, each once.
pub open spec fn given_scopes(asked: Seq<Seq<char>>) -> Seq<Seq<char>> {
    if asked.len() == 0 {
        seq![]
    } else {
        seq!["payment_providers:write"@]
    }
}

proof fn lemma_push_asked(asked: Seq<Seq<char>>, s: Seq<char>)
    ensures
        asked.push(s).drop_last() == asked,
        asked.push(s).last() == s,
{
    assert(asked.push(s).drop_last() =~= asked);
}

/// The extra scopes that a request asks for. One that cannot be given to a key
/// is refused; of several such, the first in the order of their characters is
/// named.
pub fn extra_scopes_of(scopes: &Vec<String>) -> (r: Result<Vec<String>, AppError>)
    ensures
        match (least_refused(asked_scopes(scopes@)), r) {
            (None, Ok(given)) => texts(given@) == given_scopes(asked_scopes(scopes@)),
            (Some(s), Err(e)) => e.is_bad_request(
                "scope '"@ + s
                    + "' is not grantable on a key; allowed à-la-carte scopes: payment_providers:write"@,
            ),
            _ => false,
        },
{
    let mut refused: Option<String> = None;
    let mut any: bool = false;
    for i in 0..scopes.len()
        invariant
            opt_text(refused) == least_refused(asked_scopes(scopes@.take(i as int))),
            any == (asked_scopes(scopes@.take(i as int)).len() > 0),
    {
        assert(scopes@.take(i + 1).drop_last() == scopes@.take(i as int));
        assert(scopes@.take(i + 1).last() == scopes@[i as int]);
        let scope: &str = trim(scopes[i].as_str());
        proof {
            lemma_push_asked(asked_scopes(scopes@.take(i as int)), scope@);
        }
        if !scope.is_empty() {
            any = true;
            if !extra_scope(scope) {
                let better: bool = match &refused {
                    Some(s) => stands_before(scope, s.as_str()),
                    None => true,
                };
                if better {
                    refused = Some(String::from_str(scope));
                }
            }
        }
    }
    assert(scopes@.take(scopes@.len() as int) == scopes@);
    match refused {
        Some(s) => Err(
            bad_request_with(
                "scope '",
                s.as_str(),
                "' is not grantable on a key; allowed à-la-carte scopes: payment_providers:write",
            ),
        ),
        None => {
            let mut given: Vec<String> = Vec::new();
            if any {
                given.push(String::from_str("payment_providers:write"));
            }
            assert(texts(given@) =~= given_scopes(asked_scopes(scopes@)));
            Ok(given)
        },
    }
}

/// A key to store.
#[derive(Clone, Debug)]
pub struct NewApiKey {
    pub label: String,
    pub role: Role,
    pub scopes: Vec<String>,
    /// The extra scopes as a JSON array; none where there are none.
    pub scopes_json: Option<String>,
}

/// What is wrong with a request to make a key.
pub open spec fn create_refusal(req: CreateApiKeyReq) -> Option<Seq<char>> {
    let label = trimmed(req.label@);
    if label.len() == 0 || encode_utf8(label).len() > 80 {
        Some("label is required and must be at most 80 characters"@)
    } else if forall|role: Role| trimmed(req.role@) != #[trigger] role.name() {
        Some(
            "role must be one of: read-only, license-issuer, support, merchant-onboard, full-admin"@,
        )
    } else {
        match least_refused(asked_scopes(req.scopes@)) {
            Some(s) => Some(
                "scope '"@ + s
                    + "' is not grantable on a key; allowed à-la-carte scopes: payment_providers:write"@,
            ),
            None => None,
        }
    }
}

proof fn lemma_text_has_bytes(s: Seq<char>)
    requires
        s.len() > 0,
    ensures
        encode_utf8(s).len() > 0,
{
    vstd::utf8::encode_utf8_decode_utf8(s);
}

/// Is `r` the key to store for a request?
pub open spec fn is_new_key(req: CreateApiKeyReq, r: Result<NewApiKey, AppError>) -> bool {
    match (create_refusal(req), r) {
        (None, Ok(key)) => {
            &&& key.label@ == trimmed(req.label@)
            &&& key.role.name() == trimmed(req.role@)
            &&& texts(key.scopes@) == given_scopes(asked_scopes(req.scopes@))
            &&& key.scopes@.len() == 0 ==> key.scopes_json is None
            &&& key.scopes@.len() > 0 ==> key.scopes_json is Some && key.scopes_json->0@
                == json_array(texts(key.scopes@)) && json_strings(key.scopes_json->0@) == Some(
                texts(key.scopes@),
            )
        },
        (Some(words), Err(e)) => e.is_bad_request(words),
        _ => false,
    }
}

/// The key to store for a request. Its extra scopes read back from their JSON
/// form.
pub fn create(req: &CreateApiKeyReq) -> (r: Result<NewApiKey, AppError>)
    ensures
        is_new_key(*req, r),
{
    let label: &str = trim(req.label.as_str());
    let size: usize = label.as_bytes().len();
    proof {
        if label@.len() > 0 {
            lemma_text_has_bytes(label@);
        }
    }
    if label.is_empty() || size > 80 {
        return Err(bad_request("label is required and must be at most 80 characters"));
    }
    let role: Role = match Role::parse(trim(req.role.as_str())) {
        None => {
            return Err(
                bad_request(
                    "role must be one of: read-only, license-issuer, support, merchant-onboard, full-admin",
                ),
            );
        },
        Some(role) => role,
    };
    assert(trimmed(req.role@) == role.name());
    let scopes: Vec<String> = match extra_scopes_of(&req.scopes) {
        Err(e) => {
            return Err(e);
        },
        Ok(scopes) => scopes,
    };
    let scopes_json: Option<String> = if scopes.len() == 0 {
        None
    } else {
        Some(strings_to_json(&scopes))
    };
    Ok(NewApiKey { label: String::from_str(label), role, scopes, scopes_json })
}

/// A token made of 32 random bytes, and the hash to store in its place.
pub fn new_token() -> (r: (String, String))
    ensures
        exists|raw: [u8; 32]| r.0@ == "ks_"@ + #[trigger] base64url_text(raw@),
        r.1@ == sha256_hex(r.0@),
{
    let raw: [u8; 32] = os_random_bytes();
    token_made_of(&raw)
}

/// The token made of the given bytes, and the hash to store in its place.
pub fn token_made_of(raw: &[u8; 32]) -> (r: (String, String))
    ensures
        r.0@ == "ks_"@ + base64url_text(raw@),
        r.1@ == sha256_hex(r.0@),
{
    let token: String = cat2("ks_", base64url_encode(raw.as_slice()).as_str());
    let hash: String = hex_sha256(token.as_str());
    (token, hash)
}

/// The extra scopes of a listed key; none where they cannot be read.
pub fn listed_scopes(extra_scopes: &Option<String>) -> (r: Vec<String>)
    ensures
        texts(r@) == match opt_text(*extra_scopes) {
            Some(json) => match json_strings(json) {
                Some(scopes) => scopes,
                None => seq![],
            },
            None => seq![],
        },
{
    let read: Option<Vec<String>> = match extra_scopes {
        Some(json) => json_to_strings(json.as_str()),
        None => None,
    };
    match read {
        Some(scopes) => scopes,
        None => {
            let none: Vec<String> = Vec::new();
            assert(texts(none@) =~= Seq::<Seq<char>>::empty());
            none
        },
    }
}

/// What revoking a key came to.
#[derive(Clone, Copy, Debug, PartialEq, Eq)]
pub enum Revocation {
    Revoked,
    /// It had been revoked before; nothing changed.
    AlreadyRevoked,
}

/// What revoking a key came to: `changed` is how many keys were revoked, and
/// `exists` whether there is such a key at all.
pub fn revoke(id: &str, changed: u64, exists: bool) -> (r: Result<Revocation, AppError>)
    ensures
        match r {
            Ok(Revocation::Revoked) => changed > 0,
            Ok(Revocation::AlreadyRevoked) => changed == 0 && exists,
            Err(e) => changed == 0 && !exists && e.is_not_found("api_key '"@ + id@ + "'"@),
        },
{
    if changed > 0 {
        Ok(Revocation::Revoked)
    } else if exists {
        Ok(Revocation::AlreadyRevoked)
    } else {
        Err(crate::error::not_found_with("api_key '", id, "'"))
    }
}

} // verus!
