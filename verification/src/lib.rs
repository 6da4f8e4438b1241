use vstd::prelude::*;

pub mod authz;
pub mod hashing;
pub mod posts;
pub mod request_auth;
pub mod service;
pub mod store;
pub mod token;

use crate::posts::{PostView, ResourceStore};
use crate::store::CredentialStore;

verus! {

/// Outcome classes surfaced to the transport layer.
#[derive(Debug, Clone, PartialEq, Eq)]
pub enum ApiError {
    /// A uniqueness rule was violated (duplicate email).
    ValidationConflict,
    /// Bad, missing, expired or malformed credentials or token.
    AuthenticationFailure,
    /// The caller is authenticated but does not own the resource.
    AuthorizationDenied,
    /// The addressed resource does not exist.
    NotFound,
    /// A store, hashing or signing failure unrelated to the above.
    InternalFailure,
}

/// The assembled backend: the two stores every request-handling operation
/// works over. The signing secret is not held here — it is process-wide,
/// read-only configuration that callers pass in, never embedded state.
pub struct Backend {
    pub users: CredentialStore,
    pub posts: ResourceStore,
}

/// Build the application: the state a fresh deployment starts from, with no
/// identities and no posts.
pub fn rocket() -> (r: Backend)
    ensures
        r.users.wf(),
        r.users@ == Map::<Seq<char>, Seq<char>>::empty(),
        r.posts.wf(),
        r.posts@ == Map::<int, PostView>::empty(),
        r.posts.next_id_spec() == 1,
{
    Backend { users: CredentialStore::new(), posts: ResourceStore::new() }
}

} // verus!
