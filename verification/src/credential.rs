//! The authenticated session state attached to every outbound call.

use vstd::prelude::*;
use vstd::string::StringExecFns;

verus! {

/// How a provider expects its token on the wire: as a session cookie
/// or as a bearer authorization header. The kind is fixed per provider;
/// one credential is never a mix of both.
#[derive(Clone, Copy, Debug, PartialEq, Eq, Structural)]
pub enum TokenKind {
    Cookie,
    Bearer,
}

/// An authenticated session: the gateway endpoint and an opaque token.
/// A credential is immutable once obtained — the fields are private,
/// no method takes `&mut self`, and a new authentication call builds a
/// new credential rather than changing an existing one.
#[derive(Debug)]
pub struct Credential {
    endpoint: String,
    token: String,
    kind: TokenKind,
}

impl Credential {
    /// The base endpoint URL of the gateway.
    pub closed spec fn spec_endpoint(&self) -> Seq<char> {
        self.endpoint@
    }

    /// The opaque token (cookie value or bearer key).
    pub closed spec fn spec_token(&self) -> Seq<char> {
        self.token@
    }

    /// How the token is attached to requests.
    pub closed spec fn spec_kind(&self) -> TokenKind {
        self.kind
    }

    /// The header that attaches this credential to a request: a
    /// `Cookie` header carrying the token verbatim, or an
    /// `Authorization` header carrying the token as a bearer token.
    pub open spec fn spec_auth_header(&self) -> (Seq<char>, Seq<char>) {
        match self.spec_kind() {
            TokenKind::Cookie => ("Cookie"@, self.spec_token()),
            TokenKind::Bearer => ("Authorization"@, "Bearer "@ + self.spec_token()),
        }
    }

    /// Build a credential from an endpoint and a freshly obtained
    /// token. Key-based providers with fixed routes pass an empty
    /// endpoint; it is never read for them.
    pub fn new(endpoint: String, token: String, kind: TokenKind) -> (c: Credential)
        ensures
            c.spec_endpoint() == endpoint@,
            c.spec_token() == token@,
            c.spec_kind() == kind,
    {
        Credential { endpoint, token, kind }
    }

    /// The base endpoint URL.
    pub fn endpoint(&self) -> (r: &String)
        ensures
            r@ == self.spec_endpoint(),
    {
        &self.endpoint
    }

    /// The opaque token.
    pub fn token(&self) -> (r: &String)
        ensures
            r@ == self.spec_token(),
    {
        &self.token
    }

    /// How the token is attached to requests.
    pub fn kind(&self) -> (r: TokenKind)
        ensures
            r == self.spec_kind(),
    {
        self.kind
    }

    /// The header name and value that attach this credential.
    pub fn auth_header(&self) -> (r: (String, String))
        ensures
            r.0@ == self.spec_auth_header().0,
            r.1@ == self.spec_auth_header().1,
    {
        match self.kind {
            TokenKind::Cookie => (String::from_str("Cookie"), self.token.clone()),
            TokenKind::Bearer => (
                String::from_str("Authorization"),
                String::from_str("Bearer ").concat(self.token.as_str()),
            ),
        }
    }
}

} // verus!
