//! Authentication decision: shared-secret bearer credential check with
//! exemptions for the health and metrics endpoints.

use vstd::prelude::*;
use vstd::string::StrSliceExecFns;

use crate::api::AppError;
use crate::textutil::str_eq;

verus! {

/// Routes exempt from authentication regardless of configuration.
pub open spec fn exempt_path(path: Seq<char>) -> bool {
    path == "/health"@ || path == "/metrics"@
}

/// A request may pass when its route is exempt, when no secret is
/// configured (open mode), or when it presents a bearer credential whose
/// token exactly matches the configured secret.
pub open spec fn authorized(
    path: Seq<char>,
    api_key: Option<Seq<char>>,
    auth_header: Option<Seq<char>>,
) -> bool {
    ||| exempt_path(path)
    ||| api_key is None
    ||| (api_key matches Some(key) && auth_header matches Some(header) && header.len() >= 7
        && header.subrange(0, 7) == "Bearer "@ && header.subrange(7, header.len() as int) == key)
}

/// Decides whether a request passes authentication.
///
/// Returns `Ok` exactly on authorized requests and rejects every other
/// request with [`AppError::Unauthorized`].
pub fn authorize(path: &str, api_key: &Option<String>, auth_header: &Option<String>) -> (r:
    Result<(), AppError>)
    ensures
        authorized(path@, api_key.deep_view(), auth_header.deep_view()) ==> r == Ok::<
            (),
            AppError,
        >(()),
        !authorized(path@, api_key.deep_view(), auth_header.deep_view()) ==> r == Err::<
            (),
            AppError,
        >(AppError::Unauthorized),
{
    if str_eq(path, "/health") || str_eq(path, "/metrics") {
        return Ok(());
    }
    match api_key {
        None => Ok(()),
        Some(key) => match auth_header {
            None => Err(AppError::Unauthorized),
            Some(header) => {
                let hlen = header.as_str().unicode_len();
                if hlen >= 7 {
                    let prefix = header.as_str().substring_char(0, 7);
                    let token = header.as_str().substring_char(7, hlen);
                    if str_eq(prefix, "Bearer ") && str_eq(token, key.as_str()) {
                        Ok(())
                    } else {
                        Err(AppError::Unauthorized)
                    }
                } else {
                    Err(AppError::Unauthorized)
                }
            },
        },
    }
}

} // verus!
