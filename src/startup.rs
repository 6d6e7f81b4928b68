use vstd::prelude::*;

verus! {

/// Symmetric key for the login-error tags: loaded once at start-up and only read afterwards.
pub struct HmacSecret(pub String);

/// Public base URL of the running application.
pub struct ApplicationBaseUrl(pub String);

} // verus!
