//! Queries about instances.

use vstd::prelude::*;

use crate::query::{NoAuthentication, Queryable, RequestMethod};

verus! {

/// Gets details about a specific instance.
#[derive(Debug, Clone, PartialEq, Eq, Hash)]
pub struct Instance {
    /// The ID of the instance to get more information about.
    pub instance_id: crate::id::Instance,
}

impl Queryable<NoAuthentication> for Instance {
    open spec fn url_spec(&self, state: &NoAuthentication) -> Seq<char> {
        crate::api_v1_http_url_spec() + "/instances/"@ + self.instance_id.0@
    }

    fn url(&self, state: &NoAuthentication) -> (r: String) {
        let mut r = String::from_str(crate::api_v1_http_url());
        r.append("/instances/");
        r.append(self.instance_id.as_ref());
        proof {
            assert(r@ =~= self.url_spec(state));
        }
        r
    }

    open spec fn method_spec(&self, state: &NoAuthentication) -> RequestMethod {
        RequestMethod::Get
    }

    fn method(&self, state: &NoAuthentication) -> (r: RequestMethod) {
        RequestMethod::Get
    }

    open spec fn body_spec(&self, state: &NoAuthentication) -> Option<Seq<char>> {
        None
    }

    fn body(&self, state: &NoAuthentication) -> (r: Option<String>) {
        None
    }

    open spec fn wrapped_response_spec(&self) -> bool {
        true
    }

    fn wrapped_response(&self) -> (r: bool) {
        true
    }
}

} // verus!
