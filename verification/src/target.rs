//! The server side of a session: where requests go, and as whom.

use crate::options::{AuthView, ChromaAuthMethod};
use std::sync::Arc;
use vstd::prelude::*;

verus! {

/// Where the requests of a session go: the server, the credentials, the
/// tenant and database that scope every request, and the size of the
/// connection pool. A session and every collection handle that it hands out
/// share one `ApiTarget`; the code that owns the connections builds its
/// transport from it.
#[derive(Debug)]
pub struct ApiTarget {
    pub endpoint: String,
    pub auth: ChromaAuthMethod,
    pub tenant: String,
    pub database: String,
    pub connections: usize,
}

/// What an [`ApiTarget`] is in contracts.
pub struct ApiTargetView {
    pub endpoint: Seq<char>,
    pub auth: AuthView,
    pub tenant: Seq<char>,
    pub database: Seq<char>,
    pub connections: usize,
}

impl View for ApiTarget {
    type V = ApiTargetView;

    open spec fn view(&self) -> ApiTargetView {
        ApiTargetView {
            endpoint: self.endpoint@,
            auth: self.auth@,
            tenant: self.tenant@,
            database: self.database@,
            connections: self.connections,
        }
    }
}

/// Calls `Arc::clone` of std. Trusted: the new reference points to the value
/// that the given one points to.
#[verifier::external_body]
pub(crate) fn share_target(api: &Arc<ApiTarget>) -> (shared: Arc<ApiTarget>)
    ensures
        shared == *api,
{
    Arc::clone(api)
}

} // verus!
