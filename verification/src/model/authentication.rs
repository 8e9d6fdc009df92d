//! The authentication header values an authenticated client carries.

use vstd::prelude::*;

use crate::model::users::UserAuth;
use crate::wire;

verus! {

/// The username and access key that authenticate API requests.
#[derive(Clone, PartialEq, Eq, Hash)]
pub struct ApiAuth {
    /// The username the access key is for.
    pub username: String,
    /// The access key to authenticate API requests with.
    pub access_key: String,
}

impl ApiAuth {
    /// The authentication values out of a login response.
    pub fn from(user_auth: UserAuth) -> (r: Self)
        ensures
            r.username@ == user_auth.username@,
            r.access_key@ == user_auth.access_key@,
    {
        ApiAuth { username: user_auth.username, access_key: user_auth.access_key }
    }

    /// A display form that never contains the access key: it is built from
    /// the username alone, with the key written as five asterisks.
    pub fn redacted(&self) -> (r: String)
        ensures
            r@ == "ApiAuth { username: "@ + wire::json_string(self.username@)
                + ", access_key: \"*****\" }"@,
    {
        let mut r = String::from_str("ApiAuth { username: ");
        let quoted = wire::json_quote(self.username.as_str());
        r.append(quoted.as_str());
        r.append(", access_key: \"*****\" }");
        proof {
            assert(r@ =~= "ApiAuth { username: "@ + wire::json_string(self.username@)
                + ", access_key: \"*****\" }"@);
        }
        r
    }
}

} // verus!
