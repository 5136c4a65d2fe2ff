//! Scoped API keys.

use keysat::api::api_keys::{
    create, extra_scopes_contains, listed_scopes, new_token, require_scope, revoke, token_made_of, ApiKeyRow,
    CreateApiKeyReq, Revocation, Role, ScopeStep, GRANTABLE_EXTRA_SCOPES,
};
use keysat::codec::hex_sha256;
use keysat::error::AppError;

#[test]
fn no_role_grants_alacarte_only_scopes() {
    let roles = [
        Role::ReadOnly,
        Role::LicenseIssuer,
        Role::Support,
        Role::MerchantOnboard,
        Role::FullAdmin,
    ];
    for role in roles {
        for scope in GRANTABLE_EXTRA_SCOPES {
            assert!(
                !role.grants(scope),
                "role {} must NOT grant à-la-carte-only scope {scope}",
                role.as_str()
            );
        }
    }
}

#[test]
fn full_admin_still_grants_ordinary_scopes() {
    assert!(Role::FullAdmin.grants("products:write"));
    assert!(Role::FullAdmin.grants("policies:write"));
    assert!(Role::FullAdmin.grants("settings:read"));
    assert!(Role::FullAdmin.grants("payment_providers:read"));
}

#[test]
fn extra_scopes_contains_fails_closed() {
    let json = r#"["payment_providers:write"]"#;
    assert!(extra_scopes_contains(Some(json), "payment_providers:write"));
    assert!(!extra_scopes_contains(Some(json), "products:write"));
    assert!(!extra_scopes_contains(None, "payment_providers:write"));
    assert!(!extra_scopes_contains(Some("not json"), "payment_providers:write"));
    assert!(!extra_scopes_contains(Some("{}"), "payment_providers:write"));
    assert!(!extra_scopes_contains(Some("[]"), "payment_providers:write"));
}

#[test]
fn roles_are_read_by_their_names() {
    for role in [
        Role::ReadOnly,
        Role::LicenseIssuer,
        Role::Support,
        Role::MerchantOnboard,
        Role::FullAdmin,
    ] {
        assert_eq!(Role::parse(role.as_str()), Some(role));
    }
    assert_eq!(Role::parse("owner"), None);
}

#[test]
fn a_role_grants_its_own_scopes_only() {
    assert!(Role::ReadOnly.grants("licenses:read"));
    assert!(!Role::ReadOnly.grants("licenses:write"));
    assert!(Role::LicenseIssuer.grants("licenses:write"));
    assert!(!Role::LicenseIssuer.grants("subscriptions:write"));
    assert!(Role::Support.grants("subscriptions:write"));
    assert!(Role::Support.grants("machines:write"));
    assert!(!Role::Support.grants("products:write"));
    assert!(Role::MerchantOnboard.grants("products:write"));
    assert!(!Role::MerchantOnboard.grants("machines:write"));
}

fn row(role: &str, revoked: bool, extra: Option<&str>) -> ApiKeyRow {
    ApiKeyRow {
        id: "k1".to_string(),
        role: role.to_string(),
        revoked_at: if revoked { Some("2026-01-01T00:00:00Z".to_string()) } else { None },
        extra_scopes: extra.map(|s| s.to_string()),
    }
}

#[test]
fn the_operators_key_may_do_anything() {
    let step = require_scope(Some("Bearer master"), "master", "anything:write", &None);
    match step {
        ScopeStep::Grant { actor_hash, used_key } => {
            assert_eq!(actor_hash, hex_sha256("master"));
            assert_eq!(used_key, None);
        }
        other => panic!("{other:?}"),
    }
}

#[test]
fn a_scoped_key_is_looked_up_by_its_hash() {
    match require_scope(Some("Bearer ks_x"), "master", "licenses:read", &None) {
        ScopeStep::FindKey { token_hash } => assert_eq!(token_hash, hex_sha256("ks_x")),
        other => panic!("{other:?}"),
    }
}

#[test]
fn unknown_and_revoked_keys_are_refused() {
    let unknown = require_scope(Some("Bearer ks_x"), "master", "licenses:read", &Some(None));
    assert!(matches!(unknown, ScopeStep::Refuse { error: AppError::Forbidden }));
    let revoked = Some(Some(row("full-admin", true, None)));
    let step = require_scope(Some("Bearer ks_x"), "master", "licenses:read", &revoked);
    assert!(matches!(step, ScopeStep::Refuse { .. }));
    let none = require_scope(None, "master", "licenses:read", &None);
    assert!(matches!(none, ScopeStep::Refuse { error: AppError::Unauthorized }));
}

#[test]
fn a_key_is_held_to_its_role_and_its_extra_scopes() {
    let reader = Some(Some(row("read-only", false, None)));
    let write = require_scope(Some("Bearer ks_x"), "master", "licenses:write", &reader);
    assert!(matches!(write, ScopeStep::Refuse { error: AppError::Forbidden }));
    let read = require_scope(Some("Bearer ks_x"), "master", "licenses:read", &reader);
    assert!(matches!(read, ScopeStep::Grant { .. }));
    let extra = Some(Some(row("read-only", false, Some(r#"["payment_providers:write"]"#))));
    let connect = require_scope(Some("Bearer ks_x"), "master", "payment_providers:write", &extra);
    assert!(matches!(connect, ScopeStep::Grant { .. }));
}

#[test]
fn new_keys_are_checked() {
    let req = |label: &str, role: &str, extra: &[&str]| CreateApiKeyReq {
        label: label.to_string(),
        role: role.to_string(),
        scopes: extra.iter().map(|s| s.to_string()).collect(),
    };
    assert!(matches!(create(&req("  ", "support", &[])), Err(AppError::BadRequest(_))));
    assert!(matches!(create(&req("bot", "owner", &[])), Err(AppError::BadRequest(_))));
    assert!(matches!(
        create(&req("bot", "support", &["products:write"])),
        Err(AppError::BadRequest(_))
    ));
    let key = create(&req(" bot ", "support", &["payment_providers:write"])).unwrap();
    assert_eq!(key.label, "bot");
    assert_eq!(key.role, Role::Support);
    assert_eq!(key.scopes_json, Some(r#"["payment_providers:write"]"#.to_string()));
}

#[test]
fn tokens_are_tagged_and_stored_as_hashes() {
    let (token, hash) = new_token();
    assert!(token.starts_with("ks_"));
    assert_eq!(token.len(), 3 + 43);
    assert_eq!(hash, hex_sha256(&token));
    assert_ne!(new_token().0, token);
    let (zeroes, _) = token_made_of(&[0u8; 32]);
    assert_eq!(zeroes, format!("ks_{}", "A".repeat(43)));
}

#[test]
fn listed_scopes_are_read_from_json() {
    assert_eq!(
        listed_scopes(&Some(r#"["payment_providers:write"]"#.to_string())),
        vec!["payment_providers:write".to_string()]
    );
    assert!(listed_scopes(&Some("nonsense".to_string())).is_empty());
    assert!(listed_scopes(&None).is_empty());
}

#[test]
fn revoking_twice_is_no_error() {
    assert!(matches!(revoke("k1", 1, true), Ok(Revocation::Revoked)));
    assert!(matches!(revoke("k1", 0, true), Ok(Revocation::AlreadyRevoked)));
    assert!(matches!(revoke("k1", 0, false), Err(AppError::NotFound(_))));
}
