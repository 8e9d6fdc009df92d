//! Queries about the user's categories.

use vstd::prelude::*;

use crate::query::{NoAuthentication, Queryable, RequestMethod, SavedLoginCredentials};

verus! {

/// Gets your categories.
#[derive(Debug, Clone, Copy, PartialEq, Eq, Hash, Structural)]
pub struct Categories;

impl Queryable<SavedLoginCredentials> for Categories {
    open spec fn url_spec(&self, state: &SavedLoginCredentials) -> Seq<char> {
        crate::api_v1_http_url_spec() + "/categories"@
    }

    fn url(&self, state: &SavedLoginCredentials) -> (r: String) {
        let mut r = String::from_str(crate::api_v1_http_url());
        r.append("/categories");
        proof {
            assert(r@ =~= self.url_spec(state));
        }
        r
    }

    open spec fn method_spec(&self, state: &SavedLoginCredentials) -> RequestMethod {
        RequestMethod::Get
    }

    fn method(&self, state: &SavedLoginCredentials) -> (r: RequestMethod) {
        RequestMethod::Get
    }

    open spec fn body_spec(&self, state: &SavedLoginCredentials) -> Option<Seq<char>> {
        None
    }

    fn body(&self, state: &SavedLoginCredentials) -> (r: Option<String>) {
        None
    }

    open spec fn wrapped_response_spec(&self) -> bool {
        true
    }

    fn wrapped_response(&self) -> (r: bool) {
        true
    }
}

} // verus!
