//! How the service is set up, as its environment says.

use crate::text::{copy_opt, opt_text, trim_end_matches, without_trailing};
use vstd::prelude::*;
use vstd::utf8::encode_utf8;

verus! {

/// The variables that the service reads. Those that begin with `LICENSING_` are
/// older names, read where the newer one is not set.
#[derive(Clone, Debug)]
pub struct Environment {
    pub keysat_bind: Option<String>,
    pub licensing_bind: Option<String>,
    pub keysat_db_path: Option<String>,
    pub licensing_db_path: Option<String>,
    pub keysat_admin_api_key: Option<String>,
    pub licensing_admin_api_key: Option<String>,
    pub btcpay_url: Option<String>,
    pub btcpay_browser_url: Option<String>,
    pub btcpay_public_url: Option<String>,
    pub btcpay_api_key: Option<String>,
    pub btcpay_store_id: Option<String>,
    pub btcpay_webhook_secret: Option<String>,
    pub keysat_public_url: Option<String>,
    pub licensing_public_url: Option<String>,
    pub keysat_operator_name: Option<String>,
    pub licensing_operator_name: Option<String>,
}

/// How the service is set up.
#[derive(Clone, Debug, PartialEq, Eq)]
pub struct Config {
    /// The address and port that the server listens on.
    pub bind: String,
    pub db_path: String,
    /// The operator's key.
    pub admin_api_key: String,
    /// Where the service itself reaches BTCPay.
    pub btcpay_url: String,
    /// Where the operator's browser reaches BTCPay.
    pub btcpay_browser_url: Option<String>,
    /// Where buyers reach BTCPay.
    pub btcpay_public_url: Option<String>,
    pub btcpay_api_key: Option<String>,
    pub btcpay_store_id: Option<String>,
    pub btcpay_webhook_secret: Option<String>,
    /// Where the service itself is reached.
    pub public_base_url: String,
    pub operator_name: Option<String>,
}

/// A variable that is set and not empty.
pub open spec fn nonempty(v: Option<String>) -> Option<Seq<char>> {
    match v {
        Some(s) if s@.len() > 0 => Some(s@),
        _ => None,
    }
}

/// A variable under its newer name, or else under its older one.
pub open spec fn either(newer: Option<String>, older: Option<String>) -> Option<Seq<char>> {
    match nonempty(newer) {
        Some(s) => Some(s),
        None => nonempty(older),
    }
}

/// A URL without slashes at its end.
pub open spec fn opt_url_base(v: Option<Seq<char>>) -> Option<Seq<char>> {
    match v {
        Some(s) => Some(without_trailing(s, '/')),
        None => None,
    }
}

/// An optional text, or else the given one.
pub open spec fn text_or(v: Option<Seq<char>>, otherwise: Seq<char>) -> Seq<char> {
    match v {
        Some(s) => s,
        None => otherwise,
    }
}

fn optional_nonempty(v: &Option<String>) -> (r: Option<String>)
    ensures
        opt_text(r) == nonempty(*v),
{
    match v {
        Some(s) => if s.as_str().unicode_len() > 0 {
            Some(s.clone())
        } else {
            None
        },
        None => None,
    }
}

fn env_with_fallback(newer: &Option<String>, older: &Option<String>) -> (r: Option<String>)
    ensures
        opt_text(r) == either(*newer, *older),
{
    match optional_nonempty(newer) {
        Some(s) => Some(s),
        None => optional_nonempty(older),
    }
}

fn url_base(v: Option<String>) -> (r: Option<String>)
    ensures
        opt_text(r) == opt_url_base(opt_text(v)),
{
    match v {
        Some(s) => Some(String::from_str(trim_end_matches(s.as_str(), '/'))),
        None => None,
    }
}

/// The address and port that the server listens on.
pub open spec fn bind_of(env: Environment) -> Seq<char> {
    text_or(either(env.keysat_bind, env.licensing_bind), "0.0.0.0:8080"@)
}

/// The address and port that the server listens on.
pub fn bind_text(env: &Environment) -> (r: String)
    ensures
        r@ == bind_of(*env),
{
    match env_with_fallback(&env.keysat_bind, &env.licensing_bind) {
        Some(s) => s,
        None => String::from_str("0.0.0.0:8080"),
    }
}

/// What is wrong with the environment.
pub open spec fn env_refusal(env: Environment) -> Option<Seq<char>> {
    match either(env.keysat_admin_api_key, env.licensing_admin_api_key) {
        None => Some(
            "missing required env var: KEYSAT_ADMIN_API_KEY (or LICENSING_ADMIN_API_KEY)"@,
        ),
        Some(key) => if encode_utf8(key).len() < 32 {
            Some(
                "KEYSAT_ADMIN_API_KEY must be at least 32 characters (use `openssl rand -hex 32`)"@,
            )
        } else if env.btcpay_url is None {
            Some("missing required env var: BTCPAY_URL"@)
        } else if either(env.keysat_public_url, env.licensing_public_url) is None {
            Some("missing required env var: KEYSAT_PUBLIC_URL (or LICENSING_PUBLIC_URL)"@)
        } else {
            None
        },
    }
}

/// Is the service set up as its environment says?
pub open spec fn is_configured(env: Environment, c: Config) -> bool {
    &&& c.bind@ == bind_of(env)
    &&& c.db_path@ == text_or(either(env.keysat_db_path, env.licensing_db_path), "./data/keysat.db"@)
    &&& Some(c.admin_api_key@) == either(env.keysat_admin_api_key, env.licensing_admin_api_key)
    &&& c.btcpay_url@ == without_trailing(env.btcpay_url->0@, '/')
    &&& opt_text(c.btcpay_browser_url) == opt_url_base(nonempty(env.btcpay_browser_url))
    &&& opt_text(c.btcpay_public_url) == match nonempty(env.btcpay_public_url) {
        Some(url) => Some(without_trailing(url, '/')),
        None => opt_url_base(nonempty(env.btcpay_browser_url)),
    }
    &&& opt_text(c.btcpay_api_key) == nonempty(env.btcpay_api_key)
    &&& opt_text(c.btcpay_store_id) == nonempty(env.btcpay_store_id)
    &&& opt_text(c.btcpay_webhook_secret) == nonempty(env.btcpay_webhook_secret)
    &&& Some(c.public_base_url@) == opt_url_base(
        either(env.keysat_public_url, env.licensing_public_url),
    )
    &&& opt_text(c.operator_name) == either(env.keysat_operator_name, env.licensing_operator_name)
}

impl Config {
    /// How the service is set up, or what is wrong with its environment.
    pub fn from_env(env: &Environment) -> (r: Result<Config, String>)
        ensures
            match (env_refusal(*env), r) {
                (None, Ok(c)) => is_configured(*env, c),
                (Some(words), Err(e)) => e@ == words,
                _ => false,
            },
    {
        let bind: String = bind_text(env);
        let db_path: String = match env_with_fallback(&env.keysat_db_path, &env.licensing_db_path) {
            Some(s) => s,
            None => String::from_str("./data/keysat.db"),
        };
        let admin_api_key: String = match env_with_fallback(
            &env.keysat_admin_api_key,
            &env.licensing_admin_api_key,
        ) {
            Some(s) => s,
            None => {
                return Err(
                    String::from_str(
                        "missing required env var: KEYSAT_ADMIN_API_KEY (or LICENSING_ADMIN_API_KEY)",
                    ),
                );
            },
        };
        if admin_api_key.as_str().as_bytes().len() < 32 {
            return Err(
                String::from_str(
                    "KEYSAT_ADMIN_API_KEY must be at least 32 characters (use `openssl rand -hex 32`)",
                ),
            );
        }
        let btcpay_url: String = match &env.btcpay_url {
            Some(s) => String::from_str(trim_end_matches(s.as_str(), '/')),
            None => {
                return Err(String::from_str("missing required env var: BTCPAY_URL"));
            },
        };
        let btcpay_browser_url: Option<String> = url_base(
            optional_nonempty(&env.btcpay_browser_url),
        );
        let btcpay_public_url: Option<String> = match url_base(
            optional_nonempty(&env.btcpay_public_url),
        ) {
            Some(url) => Some(url),
            None => copy_opt(&btcpay_browser_url),
        };
        let public_base_url: String = match url_base(
            env_with_fallback(&env.keysat_public_url, &env.licensing_public_url),
        ) {
            Some(url) => url,
            None => {
                return Err(
                    String::from_str(
                        "missing required env var: KEYSAT_PUBLIC_URL (or LICENSING_PUBLIC_URL)",
                    ),
                );
            },
        };
        Ok(
            Config {
                bind,
                db_path,
                admin_api_key,
                btcpay_url,
                btcpay_browser_url,
                btcpay_public_url,
                btcpay_api_key: optional_nonempty(&env.btcpay_api_key),
                btcpay_store_id: optional_nonempty(&env.btcpay_store_id),
                btcpay_webhook_secret: optional_nonempty(&env.btcpay_webhook_secret),
                public_base_url,
                operator_name: env_with_fallback(
                    &env.keysat_operator_name,
                    &env.licensing_operator_name,
                ),
            },
        )
    }
}

} // verus!
