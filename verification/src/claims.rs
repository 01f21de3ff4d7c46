use vstd::prelude::*;

use crate::error::Error;
use crate::subject::parse_subject;
use crate::subject::uuid_from_text;

verus! {

/// The type of token, serialized on the wire as a fixed short string tag:
/// `"app"` for an application token, `"org"` for a global session token.
#[derive(Clone, Copy, Debug, PartialEq, Eq, Hash, Structural)]
pub enum TokenType {
    /// An application token.
    Application,
    /// A global session token.
    Global,
}

/// The fixed short string tag that a [`TokenType`] serializes to.
pub open spec fn spec_token_type_tag(ty: TokenType) -> Seq<char> {
    match ty {
        TokenType::Application => "app"@,
        TokenType::Global => "org"@,
    }
}

/// The [`TokenType`] that a tag string deserializes to, if any.
pub open spec fn spec_token_type_from_tag(tag: Seq<char>) -> Option<TokenType> {
    if tag == "app"@ {
        Some(TokenType::Application)
    } else if tag == "org"@ {
        Some(TokenType::Global)
    } else {
        None
    }
}

/// The wire tag of a token type.
pub fn token_type_tag(ty: TokenType) -> (r: &'static str)
    ensures
        r@ == spec_token_type_tag(ty),
{
    match ty {
        TokenType::Application => "app",
        TokenType::Global => "org",
    }
}

/// The token type named by a wire tag, or `None` for any other string.
pub fn token_type_from_tag(tag: &String) -> (r: Option<TokenType>)
    ensures
        r == spec_token_type_from_tag(tag@),
{
    let app: String = "app".to_owned();
    let org: String = "org".to_owned();
    if *tag == app {
        Some(TokenType::Application)
    } else if *tag == org {
        Some(TokenType::Global)
    } else {
        None
    }
}

/// Serializing a token type and deserializing the tag yields the same token
/// type: the tagged shape is preserved through a round trip.
pub proof fn lemma_token_type_tag_round_trip(ty: TokenType)
    ensures
        spec_token_type_from_tag(spec_token_type_tag(ty)) == Some(ty),
{
    reveal_strlit("app");
    reveal_strlit("org");
    assert("app"@[0] != "org"@[0]);
}

/// Deserializing a valid tag and re-serializing the token type yields the
/// identical tag string.
pub proof fn lemma_token_type_tag_parse_inverse(tag: Seq<char>)
    requires
        spec_token_type_from_tag(tag) is Some,
    ensures
        spec_token_type_tag(spec_token_type_from_tag(tag)->0) == tag,
{
}

/// The information in the token when authenticating with an identity
/// provider.
#[derive(Debug, Clone)]
pub struct IdentityClaims {
    /// The ID of the user, as the 128-bit value of its `sub` claim.
    ///
    /// This value is unique to an email address per account.
    pub sub: u128,
    /// The email address of the authenticated user, verified by the identity
    /// provider.
    pub email: String,
    /// The type of token.
    pub ty: TokenType,
    /// A cache key used to get the user's identity.
    pub identity_nonce: String,
    /// The country where the user authenticated from.
    pub country: String,
}

impl PartialEq for IdentityClaims {
    fn eq(&self, other: &IdentityClaims) -> (r: bool) {
        self.sub == other.sub && self.email == other.email && self.ty == other.ty
            && self.identity_nonce == other.identity_nonce && self.country == other.country
    }
}

impl vstd::std_specs::cmp::PartialEqSpecImpl for IdentityClaims {
    open spec fn obeys_eq_spec() -> bool {
        true
    }

    open spec fn eq_spec(&self, other: &IdentityClaims) -> bool {
        self.sub == other.sub && self.email@ == other.email@ && self.ty == other.ty
            && self.identity_nonce@ == other.identity_nonce@ && self.country@ == other.country@
    }
}

/// The information in the token when authenticating with a service token.
#[derive(Debug, Clone)]
pub struct ServiceClaims {
    /// The type of token.
    pub ty: TokenType,
    /// The Client ID of the service token.
    pub common_name: String,
}

impl PartialEq for ServiceClaims {
    fn eq(&self, other: &ServiceClaims) -> (r: bool) {
        self.ty == other.ty && self.common_name == other.common_name
    }
}

impl vstd::std_specs::cmp::PartialEqSpecImpl for ServiceClaims {
    open spec fn obeys_eq_spec() -> bool {
        true
    }

    open spec fn eq_spec(&self, other: &ServiceClaims) -> bool {
        self.ty == other.ty && self.common_name@ == other.common_name@
    }
}

/// The validated principal a token represents.
#[derive(Debug, Clone)]
pub enum Claims {
    /// The user authenticated with an identity provider.
    Identity(IdentityClaims),
    /// The client authenticated with a service token.
    Service(ServiceClaims),
}

impl From<IdentityClaims> for Claims {
    fn from(value: IdentityClaims) -> Self {
        Claims::Identity(value)
    }
}

impl vstd::std_specs::convert::FromSpecImpl<IdentityClaims> for Claims {
    open spec fn obeys_from_spec() -> bool {
        true
    }

    open spec fn from_spec(value: IdentityClaims) -> Self {
        Claims::Identity(value)
    }
}

impl From<ServiceClaims> for Claims {
    fn from(value: ServiceClaims) -> Self {
        Claims::Service(value)
    }
}

impl vstd::std_specs::convert::FromSpecImpl<ServiceClaims> for Claims {
    open spec fn obeys_from_spec() -> bool {
        true
    }

    open spec fn from_spec(value: ServiceClaims) -> Self {
        Claims::Service(value)
    }
}

/// The extension payload of the claim set: the provider-specific fields that
/// are not part of the registered claim set, each optional on the wire. The
/// token type arrives as its raw tag string.
#[derive(Debug, Clone)]
pub struct ClaimsExtra {
    /// The email address, present on identity tokens.
    pub email: Option<String>,
    /// The identity cache key, present on identity tokens.
    pub identity_nonce: Option<String>,
    /// The authentication country, present on identity tokens.
    pub country: Option<String>,
    /// The service-token Client ID, present on service tokens.
    pub common_name: Option<String>,
    /// The raw token-type tag, present on both shapes.
    pub ty: Option<String>,
}

impl Default for ClaimsExtra {
    /// An empty extension payload, with every field absent.
    fn default() -> (r: Self)
        ensures
            r.email is None,
            r.identity_nonce is None,
            r.country is None,
            r.common_name is None,
            r.ty is None,
    {
        ClaimsExtra {
            email: None,
            identity_nonce: None,
            country: None,
            common_name: None,
            ty: None,
        }
    }
}

/// The generic claim set decoded from the token envelope, before
/// business-specific interpretation.
#[derive(Debug, Clone)]
pub struct RawClaims {
    /// The `sub` claim: the subject identifier, as its raw text.
    pub sub: Option<String>,
    /// The `aud` claim: the audience list.
    pub aud: Vec<String>,
    /// The `iss` claim: the issuer.
    pub iss: Option<String>,
    /// The `exp` claim: expiry, in seconds since the epoch.
    pub exp: Option<u64>,
    /// The `nbf` claim: not-before, in seconds since the epoch.
    pub nbf: Option<u64>,
    /// The extension payload carrying provider-specific fields.
    pub extra: ClaimsExtra,
}

/// Whether an extension payload matches the identity shape: email, identity
/// nonce, country and a well-formed token-type tag are all present.
pub open spec fn identity_shaped(e: ClaimsExtra) -> bool {
    &&& e.email is Some
    &&& e.identity_nonce is Some
    &&& e.country is Some
    &&& e.ty is Some
    &&& spec_token_type_from_tag((e.ty->0)@) is Some
}

/// Whether an extension payload matches the service shape: a common name and
/// a well-formed token-type tag are present.
pub open spec fn service_shaped(e: ClaimsExtra) -> bool {
    &&& e.common_name is Some
    &&& e.ty is Some
    &&& spec_token_type_from_tag((e.ty->0)@) is Some
}

/// What decoding a claim set yields: the identity shape is attempted first;
/// only a claim set matching neither shape is rejected as unrecognized.
pub open spec fn decode_outcome(raw: RawClaims, r: Result<Claims, Error>) -> bool {
    let e = raw.extra;
    if identity_shaped(e) {
        if raw.sub is None {
            r == Err::<Claims, Error>(Error::MissingSub)
        } else if uuid_from_text((raw.sub->0)@) is Some {
            r == Ok::<Claims, Error>(Claims::Identity(IdentityClaims {
                sub: uuid_from_text((raw.sub->0)@)->0,
                email: e.email->0,
                ty: spec_token_type_from_tag((e.ty->0)@)->0,
                identity_nonce: e.identity_nonce->0,
                country: e.country->0,
            }))
        } else {
            r is Err && r->Err_0 is Uuid
        }
    } else if service_shaped(e) {
        r == Ok::<Claims, Error>(Claims::Service(ServiceClaims {
            ty: spec_token_type_from_tag((e.ty->0)@)->0,
            common_name: e.common_name->0,
        }))
    } else {
        r == Err::<Claims, Error>(Error::UnrecognizedClaims)
    }
}

impl RawClaims {
    /// Maps the claim set into one of the two principal variants, attempting
    /// the identity shape before falling back to the service shape. For the
    /// identity shape the `sub` claim is mandatory and must parse as a
    /// 128-bit unique identifier; the service shape expects no subject. A
    /// claim set matching neither shape fails decode.
    pub fn decode(self) -> (r: Result<Claims, Error>)
        ensures
            decode_outcome(self, r),
    {
        let RawClaims { sub, aud: _, iss: _, exp: _, nbf: _, extra } = self;
        let ty_parsed: Option<TokenType> = match &extra.ty {
            Some(tag) => token_type_from_tag(tag),
            None => None,
        };
        let is_identity = extra.email.is_some() && extra.identity_nonce.is_some()
            && extra.country.is_some() && ty_parsed.is_some();
        if is_identity {
            match sub {
                None => Err(Error::MissingSub),
                Some(text) => match parse_subject(&text) {
                    Err(e) => Err(Error::Uuid(e)),
                    Ok(id) => Ok(Claims::Identity(IdentityClaims {
                        sub: id,
                        email: extra.email.unwrap(),
                        ty: ty_parsed.unwrap(),
                        identity_nonce: extra.identity_nonce.unwrap(),
                        country: extra.country.unwrap(),
                    })),
                },
            }
        } else if extra.common_name.is_some() && ty_parsed.is_some() {
            Ok(Claims::Service(ServiceClaims {
                ty: ty_parsed.unwrap(),
                common_name: extra.common_name.unwrap(),
            }))
        } else {
            Err(Error::UnrecognizedClaims)
        }
    }
}

} // verus!
