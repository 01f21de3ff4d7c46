mod claims;
mod error;
mod subject;
mod token;

pub use claims::decode_outcome;
pub use claims::identity_shaped;
pub use claims::service_shaped;
pub use claims::spec_token_type_from_tag;
pub use claims::spec_token_type_tag;
pub use claims::lemma_token_type_tag_parse_inverse;
pub use claims::lemma_token_type_tag_round_trip;
pub use claims::token_type_from_tag;
pub use claims::token_type_tag;
pub use claims::Claims;
pub use claims::ClaimsExtra;
pub use claims::IdentityClaims;
pub use claims::RawClaims;
pub use claims::ServiceClaims;
pub use claims::TokenType;
pub use error::Error;
pub use subject::uuid_from_text;
pub use token::Token;

use vstd::prelude::*;
use vstd::string::StringExecFns;

verus! {

/// How long a fetched key set may be served from the cache before it must be
/// refetched, in seconds: three days.
pub const CACHE_DURATION_SECS: u64 = 60 * 60 * 24 * 3;

/// Whether an audience list contains a target audience as an exact,
/// case-sensitive string match.
pub open spec fn spec_aud_contains(aud: Seq<Seq<char>>, target: Seq<char>) -> bool {
    exists|i: int| 0 <= i < aud.len() && aud[i] == target
}

/// Whether the audience list contains the target audience, by exact,
/// case-sensitive string comparison.
pub fn aud_contains(aud: &Vec<String>, target: &String) -> (r: bool)
    ensures
        r == spec_aud_contains(aud.deep_view(), target@),
{
    let n = aud.len();
    let mut i: usize = 0;
    while i < n
        invariant
            n == aud.len(),
            0 <= i <= n,
            forall|j: int| 0 <= j < i ==> aud.deep_view()[j] != target@,
        decreases n - i,
    {
        if aud[i] == *target {
            assert(aud.deep_view()[i as int] == target@);
            return true;
        }
        i = i + 1;
    }
    false
}

/// A validator for access tokens issued by the configured team's identity
/// proxy: immutable configuration holding the expected audience and the
/// key-discovery URL built from the team name.
pub struct Validator {
    audience: String,
    certs_url: String,
}

impl Validator {
    /// The configured audience that every accepted token must carry.
    pub closed spec fn spec_audience(&self) -> Seq<char> {
        self.audience@
    }

    /// The key-discovery URL under the issuer's domain.
    pub closed spec fn spec_certs_url(&self) -> Seq<char> {
        self.certs_url@
    }

    /// Creates a new [`Validator`] with the given team name and application
    /// audience tag. The key-discovery URL is the fixed certificate path
    /// under the team's issuer domain.
    pub fn new(team_name: &str, audience: String) -> (r: Validator)
        ensures
            r.spec_audience() == audience@,
            r.spec_certs_url() == "https://"@ + team_name@
                + ".cloudflareaccess.com/cdn-cgi/access/certs"@,
    {
        let mut url: String = "https://".to_owned();
        url.append(team_name);
        url.append(".cloudflareaccess.com/cdn-cgi/access/certs");
        Validator { audience, certs_url: url }
    }

    /// The configured audience.
    pub fn audience(&self) -> (r: &String)
        ensures
            r@ == self.spec_audience(),
    {
        &self.audience
    }

    /// The key-discovery URL.
    pub fn certs_url(&self) -> (r: &String)
        ensures
            r@ == self.spec_certs_url(),
    {
        &self.certs_url
    }

    /// Validates a claim set that already passed signature and temporal
    /// verification: enforces that the audience list contains the configured
    /// audience, then decodes the claims into a principal. A claim set whose
    /// audience list misses the configured audience is rejected outright,
    /// whatever its shape.
    pub fn validate(&self, claims: RawClaims) -> (r: Result<Claims, Error>)
        ensures
            !spec_aud_contains(claims.aud.deep_view(), self.spec_audience())
                ==> r == Err::<Claims, Error>(Error::InvalidAud),
            spec_aud_contains(claims.aud.deep_view(), self.spec_audience())
                ==> decode_outcome(claims, r),
    {
        if !aud_contains(&claims.aud, &self.audience) {
            return Err(Error::InvalidAud);
        }
        claims.decode()
    }
}

} // verus!
