//! Queries about worlds.

use vstd::prelude::*;

use crate::query::{NoAuthentication, Queryable, RequestMethod};

verus! {

/// Gets details about a specific world.
#[derive(Debug, Clone, PartialEq, Eq, Hash)]
pub struct WorldDetailsQuery {
    /// The ID of the world to get more information about.
    pub world_id: crate::id::Asset,
}

impl Queryable<NoAuthentication> for WorldDetailsQuery {
    open spec fn url_spec(&self, state: &NoAuthentication) -> Seq<char> {
        crate::api_v1_http_url_spec() + "/worlds/"@ + self.world_id.0@
    }

    fn url(&self, state: &NoAuthentication) -> (r: String) {
        let mut r = String::from_str(crate::api_v1_http_url());
        r.append("/worlds/");
        r.append(self.world_id.as_ref());
        proof {
            assert(r@ =~= self.url_spec(state));
        }
        r
    }

    open spec fn method_spec(&self, state: &NoAuthentication) -> RequestMethod {
        RequestMethod::Get
    }

    fn method(&self, state: &NoAuthentication) -> (r: RequestMethod) {
        RequestMethod::Get
    }

    open spec fn body_spec(&self, state: &NoAuthentication) -> Option<Seq<char>> {
        None
    }

    fn body(&self, state: &NoAuthentication) -> (r: Option<String>) {
        None
    }

    open spec fn wrapped_response_spec(&self) -> bool {
        true
    }

    fn wrapped_response(&self) -> (r: bool) {
        true
    }
}

/// Lists worlds of a category.
#[derive(Debug, Clone, PartialEq, Eq, Hash)]
pub struct WorldListQuery {
    /// The category of the worlds to list.
    pub category: crate::id::Category,
}

impl Queryable<NoAuthentication> for WorldListQuery {
    open spec fn url_spec(&self, state: &NoAuthentication) -> Seq<char> {
        crate::api_v1_http_url_spec() + "/worlds/list/"@ + self.category.0@
    }

    fn url(&self, state: &NoAuthentication) -> (r: String) {
        let mut r = String::from_str(crate::api_v1_http_url());
        r.append("/worlds/list/");
        r.append(self.category.as_ref());
        proof {
            assert(r@ =~= self.url_spec(state));
        }
        r
    }

    open spec fn method_spec(&self, state: &NoAuthentication) -> RequestMethod {
        RequestMethod::Get
    }

    fn method(&self, state: &NoAuthentication) -> (r: RequestMethod) {
        RequestMethod::Get
    }

    open spec fn body_spec(&self, state: &NoAuthentication) -> Option<Seq<char>> {
        None
    }

    fn body(&self, state: &NoAuthentication) -> (r: Option<String>) {
        None
    }

    open spec fn wrapped_response_spec(&self) -> bool {
        true
    }

    fn wrapped_response(&self) -> (r: bool) {
        true
    }
}

} // verus!
