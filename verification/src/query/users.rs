//! Queries about users, and the credentials used to log in.

use vstd::prelude::*;

use crate::query::{FromApiState, NoAuthentication, Queryable, RequestMethod, RequestType,
    Requestable};
use crate::wire;

verus! {

/// Gets details about a specific user.
#[derive(Debug, Clone, PartialEq, Eq, Hash)]
pub struct UserDetails {
    /// The ID of the user to get more information about.
    pub user_id: crate::id::User,
}

impl Queryable<NoAuthentication> for UserDetails {
    open spec fn url_spec(&self, state: &NoAuthentication) -> Seq<char> {
        crate::api_v1_http_url_spec() + "/users/"@ + self.user_id.0@
    }

    fn url(&self, state: &NoAuthentication) -> (r: String) {
        let mut r = String::from_str(crate::api_v1_http_url());
        r.append("/users/");
        r.append(self.user_id.as_ref());
        proof {
            assert(r@ =~= self.url_spec(state));
        }
        r
    }

    open spec fn method_spec(&self, state: &NoAuthentication) -> RequestMethod {
        RequestMethod::Get
    }

    fn method(&self, state: &NoAuthentication) -> (r: RequestMethod) {
        RequestMethod::Get
    }

    open spec fn body_spec(&self, state: &NoAuthentication) -> Option<Seq<char>> {
        None
    }

    fn body(&self, state: &NoAuthentication) -> (r: Option<String>) {
        None
    }

    open spec fn wrapped_response_spec(&self) -> bool {
        true
    }

    fn wrapped_response(&self) -> (r: bool) {
        true
    }
}

/// Credentials to try to login and fetch an access token with.
#[derive(Clone, PartialEq, Eq, Hash)]
pub struct LoginCredentials {
    /// The email address, which the API calls username.
    pub email: String,
    /// The password of the account.
    pub password: String,
}

impl LoginCredentials {
    /// A display form that never contains the password: it is built from
    /// the email alone, with the password written as five asterisks.
    pub fn redacted(&self) -> (r: String)
        ensures
            r@ == "LoginCredentials { email: "@ + wire::json_string(self.email@)
                + ", password: \"*****\" }"@,
    {
        let mut r = String::from_str("LoginCredentials { email: ");
        let quoted = wire::json_quote(self.email.as_str());
        r.append(quoted.as_str());
        r.append(", password: \"*****\" }");
        proof {
            assert(r@ =~= "LoginCredentials { email: "@ + wire::json_string(self.email@)
                + ", password: \"*****\" }"@);
        }
        r
    }
}

/// Saved access key and username which can also be used to login.
#[derive(Clone, PartialEq, Eq, Hash)]
pub struct SavedLoginCredentials {
    /// The username the access key is for.
    pub username: String,
    /// The access key to authenticate API requests with.
    pub access_key: String,
}

impl SavedLoginCredentials {
    /// A display form that never contains the access key: it is built from
    /// the username alone, with the token written as five asterisks.
    pub fn redacted(&self) -> (r: String)
        ensures
            r@ == "SavedLoginCredentials { username: "@ + wire::json_string(self.username@)
                + ", token: \"*****\" }"@,
    {
        let mut r = String::from_str("SavedLoginCredentials { username: ");
        let quoted = wire::json_quote(self.username.as_str());
        r.append(quoted.as_str());
        r.append(", token: \"*****\" }");
        proof {
            assert(r@ =~= "SavedLoginCredentials { username: "@ + wire::json_string(
                self.username@,
            ) + ", token: \"*****\" }"@);
        }
        r
    }
}

/// Authentication to login to CVR.
#[derive(Clone, PartialEq, Eq, Hash)]
pub enum AuthType {
    /// Authentication using the login info.
    LoginProfile(LoginCredentials),
    /// Authentication from a previous login.
    LoginCredentials(SavedLoginCredentials),
}

impl AuthType {
    /// Authentication from the login info.
    pub fn from_profile(value: LoginCredentials) -> (r: Self)
        ensures
            r == AuthType::LoginProfile(value),
    {
        AuthType::LoginProfile(value)
    }

    /// Authentication from a previous login.
    pub fn from_credentials(value: SavedLoginCredentials) -> (r: Self)
        ensures
            r == AuthType::LoginCredentials(value),
    {
        AuthType::LoginCredentials(value)
    }

    /// The JSON body of a login request: the tagged form of whichever
    /// credentials are used, with every text field written as an escaped
    /// JSON string.
    pub open spec fn body_chars(&self) -> Seq<char> {
        match self {
            AuthType::LoginProfile(c) => "{\"auth_type\":\"loginProfile\",\"username\":"@
                + wire::json_string(c.email@) + ",\"password\":"@ + wire::json_string(c.password@)
                + "}"@,
            AuthType::LoginCredentials(c) => "{\"auth_type\":\"loginCredentials\",\"username\":"@
                + wire::json_string(c.username@) + ",\"password\":"@ + wire::json_string(
                c.access_key@,
            ) + "}"@,
        }
    }
}

impl Queryable<NoAuthentication> for AuthType {
    open spec fn url_spec(&self, state: &NoAuthentication) -> Seq<char> {
        crate::api_v1_http_url_spec() + "/users/auth"@
    }

    fn url(&self, state: &NoAuthentication) -> (r: String) {
        let mut r = String::from_str(crate::api_v1_http_url());
        r.append("/users/auth");
        proof {
            assert(r@ =~= self.url_spec(state));
        }
        r
    }

    open spec fn method_spec(&self, state: &NoAuthentication) -> RequestMethod {
        RequestMethod::Post
    }

    fn method(&self, state: &NoAuthentication) -> (r: RequestMethod) {
        RequestMethod::Post
    }

    open spec fn body_spec(&self, state: &NoAuthentication) -> Option<Seq<char>> {
        Some(self.body_chars())
    }

    fn body(&self, state: &NoAuthentication) -> (r: Option<String>) {
        let mut b = String::new();
        match self {
            AuthType::LoginProfile(c) => {
                b.append("{\"auth_type\":\"loginProfile\",\"username\":");
                let u = wire::json_quote(c.email.as_str());
                b.append(u.as_str());
                b.append(",\"password\":");
                let p = wire::json_quote(c.password.as_str());
                b.append(p.as_str());
                b.append("}");
            },
            AuthType::LoginCredentials(c) => {
                b.append("{\"auth_type\":\"loginCredentials\",\"username\":");
                let u = wire::json_quote(c.username.as_str());
                b.append(u.as_str());
                b.append(",\"password\":");
                let p = wire::json_quote(c.access_key.as_str());
                b.append(p.as_str());
                b.append("}");
            },
        }
        proof {
            assert(b@ =~= self.body_chars());
        }
        Some(b)
    }

    open spec fn wrapped_response_spec(&self) -> bool {
        true
    }

    fn wrapped_response(&self) -> (r: bool) {
        true
    }
}

/// Adds an user to the blocked users list.
#[derive(Debug, Clone, PartialEq, Eq, Hash)]
pub struct BlockUser {
    /// The ID of the user to add to the blocked users list.
    pub id: crate::id::Invite,
}

impl Requestable for BlockUser {
    open spec fn request_type_spec(&self) -> RequestType {
        RequestType::BlockUser
    }

    fn request_type(&self) -> (r: RequestType) {
        RequestType::BlockUser
    }
}

/// Removes an user from the blocked users list.
#[derive(Debug, Clone, PartialEq, Eq, Hash)]
pub struct UnBlockUser {
    /// The ID of the user to remove from the blocked users list.
    pub id: crate::id::Invite,
}

impl Requestable for UnBlockUser {
    open spec fn request_type_spec(&self) -> RequestType {
        RequestType::UnBlockUser
    }

    fn request_type(&self) -> (r: RequestType) {
        RequestType::UnBlockUser
    }
}

} // verus!
