//! Environment lookup with a caller-supplied default. A local
//! environment-definition file, if present, is loaded once before the first
//! lookup; absence of a variable is never an error.

use vstd::prelude::*;

verus! {

/// Relies on dotenv::var: loads the `.env` file once (idempotently), then
/// reads the named process environment variable; Err when it is unset or not
/// unicode. The outcome depends on the process environment, so nothing more
/// is assumed of it.
#[verifier::external_body]
fn env_var(key: &str) -> (r: Option<String>) {
    match dotenv::var(key) {
        Ok(v) => Some(v),
        Err(_) => None,
    }
}

/// The value when the lookup produced one, the default otherwise.
pub fn env_or_default(value: Option<String>, default: &str) -> (r: String)
    ensures
        value matches Some(v) ==> r == v,
        value is None ==> r@ == default@,
{
    match value {
        Some(v) => v,
        None => default.to_owned(),
    }
}

/// Looks the variable up in the process environment (after loading the local
/// environment-definition file once) and falls back to the default when it is
/// unset.
pub fn get_env(key: &str, default: &str) -> String {
    let value = env_var(key);
    env_or_default(value, default)
}

} // verus!
