//! Sessions: the holders of a current bearer token, for a service account or for an
//! impersonated user, and the minting of session cookies.

pub mod service_account;
pub mod session_cookie;
pub mod user;
