use vstd::prelude::*;
use reqwest::Error as TransportError;

verus! {

#[verifier::external_type_specification]
#[verifier::external_body]
pub struct ExTransportError(TransportError);

/// What can go wrong while talking to the judging server.
pub enum Error {
    /// A transport or HTTP failure, as reported by the HTTP client.
    HttpError(TransportError),
    /// The login page held no anti-forgery token.
    CsrfError,
}

/// Shorthand for results that fail with this library's error.
pub type Result<T> = core::result::Result<T, Error>;

} // verus!
