//! Typed failures of the verification core.
//!
//! Every error is returned to the immediate caller; nothing is logged and
//! swallowed, and no error path panics.

use vstd::prelude::*;

verus! {

/// An inbound factor payload could not be decoded into a `Factor`.
#[derive(Debug, Clone, PartialEq, Eq)]
pub enum DecodeError {
    /// The `factorType` discriminator is not one of the known tokens.
    UnknownFactorType { token: String },
    /// The `provider` field is not one of the known provider tokens.
    UnknownProvider { token: String },
    /// The `status` field is present but not one of the known status tokens.
    UnknownStatus { token: String },
    /// The factor kind requires a profile, but none was supplied.
    MissingProfile,
    /// The profile lacks the phone number this factor kind requires.
    MissingPhoneNumber,
    /// The profile lacks the question code this factor kind requires.
    MissingQuestion,
    /// The profile lacks the question text this factor kind requires.
    MissingQuestionText,
    /// The profile lacks the credential identifier this factor kind requires.
    MissingCredentialId,
}

/// A verification attempt failed before, during, or after the wire call.
#[derive(Debug, Clone, PartialEq, Eq)]
pub enum VerificationError {
    /// The expected hypermedia relation is absent from the factor's link map:
    /// the factor snapshot is stale, or the assumed capability does not exist.
    MissingRelation,
    /// The relation resolved to an empty link collection: a protocol
    /// violation by the remote side.
    EmptyLinkCollection,
    /// The factor variant has no implemented verification path.
    UnsupportedMethod,
    /// The request shape does not match the factor variant being verified.
    MismatchedRequest,
    /// The wire call returned a non-2xx HTTP status.
    Transport { status: u16 },
    /// A 2xx response body did not decode into the expected result shape.
    ResponseDecode,
}

} // verus!
