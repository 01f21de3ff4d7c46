use vstd::prelude::*;

verus! {

/// An error that can occur when validating a token or constructing a
/// [`Validator`](crate::Validator).
#[derive(Debug)]
#[non_exhaustive]
pub enum Error {
    /// The signature/temporal verification collaborator rejected the token:
    /// bad signature, expired, not yet valid, malformed envelope, or a
    /// key-set fetch failure. Carries the collaborator's rendered error.
    Jwtk(String),
    /// The token verified, but its audience list does not contain the
    /// configured audience.
    InvalidAud,
    /// The token verified and its claims match the identity shape, but the
    /// `sub` claim is missing.
    MissingSub,
    /// The `sub` claim is present but is not a well-formed 128-bit unique
    /// identifier. Carries the parser's rendered error.
    Uuid(String),
    /// The extension payload matches neither the identity shape nor the
    /// service shape.
    UnrecognizedClaims,
    /// A required environment variable is absent, identified by name.
    MissingEnv(&'static str),
}

} // verus!
