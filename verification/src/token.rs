use vstd::prelude::*;

verus! {

/// The user information found in the token, in the flattened form that
/// carries only the provider-specific fields of each shape.
#[derive(Debug, Clone)]
pub enum Token {
    /// The user authenticated with an identity provider.
    Identity {
        /// The email address of the authenticated user, verified by the
        /// identity provider.
        email: String,
        /// A cache key used to get the user's identity.
        identity_nonce: String,
        /// The country where the user authenticated from.
        country: String,
    },
    /// The client authenticated with a service token.
    Service {
        /// The Client ID of the service token.
        common_name: String,
    },
}

impl Default for Token {
    /// The placeholder value: a service token with an empty Client ID.
    fn default() -> (r: Self)
        ensures
            r is Service,
            (r->Service_common_name)@ == Seq::<char>::empty(),
    {
        Token::Service { common_name: String::new() }
    }
}

} // verus!
