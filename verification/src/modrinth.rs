//! The request that creates a version on Modrinth, as far as it is decided
//! before anything is sent.

use vstd::prelude::*;
use vstd::string::*;

verus! {

/// The address that a new version is posted to.
pub fn endpoint(base_path: &str) -> (uri: String)
    ensures
        uri@ == base_path@ + "/version"@,
{
    String::from_str(base_path).concat("/version")
}

/// The value of the `Authorization` header: the key, behind its prefix and
/// a space where it has a prefix.
pub fn authorization(prefix: Option<&str>, key: &str) -> (value: String)
    ensures
        value@ == match prefix {
            Some(p) => p@ + " "@ + key@,
            None => key@,
        },
{
    match prefix {
        Some(p) => String::from_str(p).concat(" ").concat(key),
        None => String::from_str(key),
    }
}

/// Whether a response with this status reports a failure: a client error
/// (400 to 499) or a server error (500 to 599). The body of any other
/// response is read as the version that was created.
pub fn is_failure(status: u16) -> (failed: bool)
    ensures
        failed == (400 <= status <= 599),
{
    400 <= status && status <= 599
}

} // verus!
