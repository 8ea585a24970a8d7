//! The priority of configured secrets over the environment's, and the
//! choice of signing mode. Loading, caching and refreshing credentials is
//! the credential loader's work, done by the host.

use vstd::prelude::*;

verus! {

/// A configured value with its fallback: the explicit value if there is one,
/// else the environment's where loading from the environment is allowed.
pub fn value_with_fallback(explicit: Option<String>, from_env: Option<String>, load_env: bool) -> (r: Option<String>)
    ensures
        explicit is Some ==> r == explicit,
        explicit is None && load_env ==> r == from_env,
        explicit is None && !load_env ==> r is None,
{
    match explicit {
        Some(v) => Some(v),
        None => if load_env { from_env } else { None },
    }
}

/// How a request is signed: in its headers, for requests the layer sends, or
/// in its query string with an expiry, for presigned requests that the layer
/// never sends.
#[derive(Clone, Copy, Debug, PartialEq, Eq, Structural)]
pub enum SignMode {
    Header,
    Query { expire_secs: u64 },
}

/// The signing mode of a request: query signing exactly when it is presigned.
pub fn sign_mode(presign_expire: Option<u64>) -> (r: SignMode)
    ensures
        presign_expire matches Some(e) ==> r == (SignMode::Query { expire_secs: e }),
        presign_expire is None ==> r == SignMode::Header,
{
    match presign_expire {
        Some(e) => SignMode::Query { expire_secs: e },
        None => SignMode::Header,
    }
}

} // verus!
