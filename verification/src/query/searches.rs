//! Queries that search the service.

use vstd::prelude::*;

use crate::query::{Queryable, RequestMethod, SavedLoginCredentials};

verus! {

/// Search for things using a search term.
#[derive(Debug, Clone, PartialEq, Eq, Hash)]
pub struct Search {
    /// The search term to use.
    pub term: String,
}

impl Queryable<SavedLoginCredentials> for Search {
    open spec fn url_spec(&self, state: &SavedLoginCredentials) -> Seq<char> {
        crate::api_v1_http_url_spec() + "/search/"@ + self.term@
    }

    fn url(&self, state: &SavedLoginCredentials) -> (r: String) {
        let mut r = String::from_str(crate::api_v1_http_url());
        r.append("/search/");
        r.append(self.term.as_str());
        proof {
            assert(r@ =~= self.url_spec(state));
        }
        r
    }

    open spec fn method_spec(&self, state: &SavedLoginCredentials) -> RequestMethod {
        RequestMethod::Get
    }

    fn method(&self, state: &SavedLoginCredentials) -> (r: RequestMethod) {
        RequestMethod::Get
    }

    open spec fn body_spec(&self, state: &SavedLoginCredentials) -> Option<Seq<char>> {
        None
    }

    fn body(&self, state: &SavedLoginCredentials) -> (r: Option<String>) {
        None
    }

    open spec fn wrapped_response_spec(&self) -> bool {
        true
    }

    fn wrapped_response(&self) -> (r: bool) {
        true
    }
}

} // verus!
