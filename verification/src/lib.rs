//! Bearer-token authentication for an HTTP service that delegates every trust
//! decision to a remote key-verification service.
//!
//! The crate holds the decisions, and none of the I/O: how the `Authorization`
//! header becomes a credential, how a credential becomes a verification
//! request, how the service's verdict becomes an identity or a rejection, and
//! what each route answers. The caller reads the header, performs the one
//! network call that a request may need, and hands back what happened.

pub mod bearer;
pub mod extractor;
pub mod guarantees;
pub mod identity;
pub mod routes;
pub mod settings;
