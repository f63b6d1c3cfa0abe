//! Request authentication: the API-key authenticator (bearer token or
//! X-API-Key header, compared in constant time), the authenticator that
//! lets everyone in, and the choice between them from the configuration.

use vstd::prelude::*;

use crate::config::{AuthConfig, AuthMethod};
use crate::text::{concat2, copy_string, opt_view, str_eq, strip_prefix, without_prefix};

verus! {

/// Authentication errors.
#[derive(Debug)]
pub enum AuthError {
    /// No credentials were presented.
    NotAuthenticated,
    /// The presented credentials are wrong.
    InvalidCredentials(String),
    /// The authentication service cannot be reached.
    ServiceUnavailable(String),
    /// The authenticator is misconfigured.
    ConfigurationError(String),
}

/// The message of an authentication error.
pub open spec fn auth_error_message(e: AuthError) -> Seq<char> {
    match e {
        AuthError::NotAuthenticated => "Authentication required"@,
        AuthError::InvalidCredentials(m) => "Invalid credentials: "@ + m@,
        AuthError::ServiceUnavailable(m) => "Authentication service unavailable: "@ + m@,
        AuthError::ConfigurationError(m) => "Configuration error: "@ + m@,
    }
}

impl AuthError {
    /// The error message.
    pub fn message(&self) -> (m: String)
        ensures
            m@ == auth_error_message(*self),
    {
        match self {
            AuthError::NotAuthenticated => "Authentication required".to_owned(),
            AuthError::InvalidCredentials(m) => concat2("Invalid credentials: ", m.as_str()),
            AuthError::ServiceUnavailable(m) => concat2(
                "Authentication service unavailable: ",
                m.as_str(),
            ),
            AuthError::ConfigurationError(m) => concat2("Configuration error: ", m.as_str()),
        }
    }
}

/// An authenticated identity.
#[derive(Debug, Clone)]
pub struct Identity {
    /// User ID.
    pub user_id: String,
    /// Authentication method that produced it.
    pub method: String,
    /// Further claims, each a name and its JSON value as text.
    pub claims: Vec<(String, String)>,
}

impl Identity {
    /// The identity of an unauthenticated user.
    pub fn anonymous() -> (i: Self)
        ensures
            i.user_id@ == "anonymous"@,
            i.method@ == "none"@,
            i.claims@.len() == 0,
    {
        Identity { user_id: "anonymous".to_owned(), method: "none".to_owned(), claims: Vec::new() }
    }
}

/// What an authenticator sees of a request: its headers (names in lower
/// case), a map from name to value kept as a list in which no name occurs
/// twice (see [`AuthRequest::well_formed`]; [`AuthRequest::insert_header`]
/// keeps it so), and the client address as text.
#[derive(Debug, Clone)]
pub struct AuthRequest {
    /// Header names (lower case) and values.
    pub headers: Vec<(String, String)>,
    /// Client address.
    pub source_ip: String,
}

/// The value of the first header called `name`.
pub open spec fn header_value(headers: Seq<(String, String)>, name: Seq<char>) -> Option<Seq<char>>
    decreases headers.len(),
{
    if headers.len() == 0 {
        None
    } else if headers[0].0@ == name {
        Some(headers[0].1@)
    } else {
        header_value(headers.drop_first(), name)
    }
}

/// No header name occurs twice.
pub open spec fn distinct_names(headers: Seq<(String, String)>) -> bool {
    forall|i: int, j: int|
        0 <= i < j < headers.len() ==> (#[trigger] headers[i]).0@ != (#[trigger] headers[j]).0@
}

/// A header found at its first occurrence gives its value.
proof fn lemma_header_first(headers: Seq<(String, String)>, name: Seq<char>, i: int)
    requires
        0 <= i < headers.len(),
        headers[i].0@ == name,
        forall|j: int| 0 <= j < i ==> (#[trigger] headers[j]).0@ != name,
    ensures
        header_value(headers, name) == Some(headers[i].1@),
    decreases i,
{
    if i > 0 {
        let rest = headers.drop_first();
        assert(headers[0].0@ != name);
        assert forall|j: int| 0 <= j < i - 1 implies (#[trigger] rest[j]).0@ != name by {
            assert(rest[j] == headers[j + 1]);
        }
        lemma_header_first(rest, name, i - 1);
    }
}

/// A header name that occurs nowhere has no value.
proof fn lemma_header_absent(headers: Seq<(String, String)>, name: Seq<char>)
    requires
        forall|j: int| 0 <= j < headers.len() ==> (#[trigger] headers[j]).0@ != name,
    ensures
        header_value(headers, name) is None,
    decreases headers.len(),
{
    if headers.len() > 0 {
        let rest = headers.drop_first();
        assert(headers[0].0@ != name);
        assert forall|j: int| 0 <= j < rest.len() implies (#[trigger] rest[j]).0@ != name by {
            assert(rest[j] == headers[j + 1]);
        }
        lemma_header_absent(rest, name);
    }
}

/// In a list without repeated names, a name's value is that of its entry.
proof fn lemma_header_unique(headers: Seq<(String, String)>, name: Seq<char>, i: int)
    requires
        distinct_names(headers),
        0 <= i < headers.len(),
        headers[i].0@ == name,
    ensures
        header_value(headers, name) == Some(headers[i].1@),
{
    assert forall|j: int| 0 <= j < i implies (#[trigger] headers[j]).0@ != name by {
        assert(headers[j].0@ != headers[i].0@);
    }
    lemma_header_first(headers, name, i);
}

impl AuthRequest {
    /// No header name occurs twice.
    pub open spec fn well_formed(self) -> bool {
        distinct_names(self.headers@)
    }

    /// A request from `source_ip` without headers.
    pub fn new(source_ip: String) -> (r: Self)
        ensures
            r.headers@.len() == 0,
            r.source_ip == source_ip,
            r.well_formed(),
    {
        AuthRequest { headers: Vec::new(), source_ip }
    }

    /// Sets header `name` to `value`, replacing its earlier value if it had
    /// one; the other headers keep their values.
    pub fn insert_header(&mut self, name: String, value: String)
        requires
            old(self).well_formed(),
        ensures
            final(self).well_formed(),
            final(self).source_ip == old(self).source_ip,
            header_value(final(self).headers@, name@) == Some(value@),
            forall|n: Seq<char>|
                n != name@ ==> #[trigger] header_value(final(self).headers@, n) == header_value(
                    old(self).headers@,
                    n,
                ),
    {
        let ghost old_h = self.headers@;
        let n = self.headers.len();
        let mut i: usize = 0;
        while i < n
            invariant
                n == self.headers@.len(),
                self.headers@ == old_h,
                i <= n,
                forall|j: int| 0 <= j < i ==> (#[trigger] old_h[j]).0@ != name@,
            ensures
                n == self.headers@.len(),
                self.headers@ == old_h,
                i <= n,
                forall|j: int| 0 <= j < i ==> (#[trigger] old_h[j]).0@ != name@,
                i < n ==> old_h[i as int].0@ == name@,
            decreases n - i,
        {
            if str_eq(self.headers[i].0.as_str(), name.as_str()) {
                break;
            }
            i += 1;
        }
        let ghost nm = name@;
        let ghost vl = value@;
        if i < n {
            assert(old_h[i as int].0@ == nm);
            self.headers.set(i, (name, value));
            let ghost new_h = self.headers@;
            assert(new_h == old_h.update(i as int, new_h[i as int]));
            assert forall|a: int, b: int| 0 <= a < b < new_h.len() implies (#[trigger] new_h[a]).0@
                != (#[trigger] new_h[b]).0@ by {
                if a != i && b != i {
                    assert(new_h[a] == old_h[a] && new_h[b] == old_h[b]);
                } else if a == i {
                    assert(new_h[b] == old_h[b]);
                    assert(old_h[i as int].0@ != old_h[b].0@);
                } else {
                    assert(new_h[a] == old_h[a]);
                    assert(old_h[a].0@ != old_h[i as int].0@);
                }
            }
            proof {
                lemma_header_unique(new_h, nm, i as int);
                assert forall|k: Seq<char>| k != nm implies #[trigger] header_value(new_h, k)
                    == header_value(old_h, k) by {
                    if exists|j: int| 0 <= j < old_h.len() && (#[trigger] old_h[j]).0@ == k {
                        let j = choose|j: int| 0 <= j < old_h.len() && (#[trigger] old_h[j]).0@ == k;
                        assert(j != i);
                        assert(new_h[j] == old_h[j]);
                        lemma_header_unique(old_h, k, j);
                        lemma_header_unique(new_h, k, j);
                    } else {
                        assert forall|j: int| 0 <= j < new_h.len() implies (#[trigger] new_h[j]).0@ != k by {
                            if j != i {
                                assert(new_h[j] == old_h[j]);
                            }
                        }
                        lemma_header_absent(old_h, k);
                        lemma_header_absent(new_h, k);
                    }
                }
            }
        } else {
            self.headers.push((name, value));
            let ghost new_h = self.headers@;
            assert(new_h == old_h.push(new_h[n as int]));
            assert forall|a: int, b: int| 0 <= a < b < new_h.len() implies (#[trigger] new_h[a]).0@
                != (#[trigger] new_h[b]).0@ by {
                assert(new_h[a] == old_h[a]);
                if b < n {
                    assert(new_h[b] == old_h[b]);
                }
            }
            proof {
                lemma_header_unique(new_h, nm, n as int);
                assert forall|k: Seq<char>| k != nm implies #[trigger] header_value(new_h, k)
                    == header_value(old_h, k) by {
                    if exists|j: int| 0 <= j < old_h.len() && (#[trigger] old_h[j]).0@ == k {
                        let j = choose|j: int| 0 <= j < old_h.len() && (#[trigger] old_h[j]).0@ == k;
                        assert(new_h[j] == old_h[j]);
                        lemma_header_unique(old_h, k, j);
                        lemma_header_unique(new_h, k, j);
                    } else {
                        assert forall|j: int| 0 <= j < new_h.len() implies (#[trigger] new_h[j]).0@ != k by {
                            if j < n {
                                assert(new_h[j] == old_h[j]);
                            }
                        }
                        lemma_header_absent(old_h, k);
                        lemma_header_absent(new_h, k);
                    }
                }
            }
        }
    }

    /// The value of the header called `name`.
    pub fn header(&self, name: &str) -> (v: Option<String>)
        ensures
            opt_view(v) == header_value(self.headers@, name@),
    {
        let n = self.headers.len();
        let mut i: usize = 0;
        assert(self.headers@.skip(0) =~= self.headers@);
        while i < n
            invariant
                n == self.headers@.len(),
                i <= n,
                header_value(self.headers@, name@) == header_value(self.headers@.skip(i as int), name@),
            decreases n - i,
        {
            assert(self.headers@.skip(i as int).drop_first() =~= self.headers@.skip(i as int + 1));
            if str_eq(self.headers[i].0.as_str(), name) {
                return Some(copy_string(&self.headers[i].1));
            }
            i += 1;
        }
        None
    }
}

/// The key a request presents: the bearer token of the Authorization header
/// (after "Bearer " or "bearer "), else the X-API-Key header.
pub open spec fn presented_key(authorization: Option<Seq<char>>, x_api_key: Option<Seq<char>>) -> Option<
    Seq<char>,
> {
    match authorization {
        Some(a) => if without_prefix(a, "Bearer "@) is Some {
            without_prefix(a, "Bearer "@)
        } else if without_prefix(a, "bearer "@) is Some {
            without_prefix(a, "bearer "@)
        } else {
            x_api_key
        },
        None => x_api_key,
    }
}

/// The key presented by a request.
pub open spec fn request_key(r: AuthRequest) -> Option<Seq<char>> {
    presented_key(header_value(r.headers@, "authorization"@), header_value(r.headers@, "x-api-key"@))
}

/// Compares two byte strings in time that depends only on their lengths.
pub fn constant_time_eq(a: &[u8], b: &[u8]) -> (eq: bool)
    ensures
        eq == (a@ == b@),
{
    if a.len() != b.len() {
        return false;
    }
    let mut acc: u8 = 0;
    let mut i: usize = 0;
    while i < a.len()
        invariant
            a@.len() == b@.len(),
            i <= a@.len(),
            (acc == 0) <==> (forall|j: int| 0 <= j < i ==> a@[j] == b@[j]),
        decreases a@.len() - i,
    {
        let x = a[i];
        let y = b[i];
        let next = acc | (x ^ y);
        assert((next == 0) <==> (acc == 0 && x == y)) by (bit_vector)
            requires
                next == acc | (x ^ y),
        ;
        acc = next;
        i += 1;
    }
    assert(acc == 0 ==> a@ =~= b@);
    acc == 0
}

/// Authenticator that checks requests against a configured API key.
///
/// The key is accepted in an `Authorization: Bearer <key>` header or an
/// `X-API-Key: <key>` header.
pub struct ApiKeyAuthenticator {
    expected_key: String,
}

impl ApiKeyAuthenticator {
    /// The key this authenticator accepts.
    pub closed spec fn key(&self) -> Seq<char> {
        self.expected_key@
    }

    /// An authenticator accepting `api_key`.
    pub fn new(api_key: String) -> (a: Self)
        ensures
            a.key() == api_key@,
    {
        ApiKeyAuthenticator { expected_key: api_key }
    }

    /// The key presented by a request, if any.
    fn extract_key(&self, request: &AuthRequest) -> (k: Option<String>)
        ensures
            opt_view(k) == request_key(*request),
    {
        let authorization = request.header("authorization");
        let x_api_key = request.header("x-api-key");
        proof {
            reveal_strlit("authorization");
            reveal_strlit("x-api-key");
        }
        if let Some(auth_header) = &authorization {
            let bearer = strip_prefix(auth_header.as_str(), "Bearer ");
            if bearer.is_some() {
                return bearer;
            }
            let lower = strip_prefix(auth_header.as_str(), "bearer ");
            if lower.is_some() {
                return lower;
            }
        }
        x_api_key
    }

    /// Authenticates a request: a request that presents no key is not
    /// authenticated; one whose key is the configured key is the API-key
    /// user; any other key is refused.
    pub fn authenticate(&self, request: &AuthRequest) -> (r: Result<Identity, AuthError>)
        ensures
            match request_key(*request) {
                None => r matches Err(AuthError::NotAuthenticated),
                Some(k) => if k == self.key() {
                    (r matches Ok(i) && i.user_id@ == "api_key_user"@ && i.method@ == "api_key"@
                        && i.claims@.len() == 0)
                } else {
                    (r matches Err(AuthError::InvalidCredentials(m)) && m@ == "Invalid API key"@)
                },
            },
    {
        let provided = match self.extract_key(request) {
            Some(k) => k,
            None => {
                return Err(AuthError::NotAuthenticated);
            },
        };
        let same = constant_time_eq(provided.as_str().as_bytes(), self.expected_key.as_str().as_bytes());
        proof {
            vstd::utf8::encode_utf8_decode_utf8(provided@);
            vstd::utf8::encode_utf8_decode_utf8(self.expected_key@);
        }
        if same {
            Ok(
                Identity {
                    user_id: "api_key_user".to_owned(),
                    method: "api_key".to_owned(),
                    claims: Vec::new(),
                },
            )
        } else {
            Err(AuthError::InvalidCredentials("Invalid API key".to_owned()))
        }
    }

    /// Name of this authentication method.
    pub fn method_name(&self) -> (n: &'static str)
        ensures
            n@ == "api_key"@,
    {
        "api_key"
    }
}

/// Authenticator that accepts every request as anonymous; it is used only
/// when configured explicitly.
#[derive(Debug, Clone, Copy)]
pub struct NoneAuthenticator;

impl NoneAuthenticator {
    /// The authenticator.
    pub fn new() -> (a: Self) {
        NoneAuthenticator
    }

    /// Every request is the anonymous user.
    pub fn authenticate(&self, request: &AuthRequest) -> (r: Result<Identity, AuthError>)
        ensures
            r matches Ok(i) && i.user_id@ == "anonymous"@ && i.method@ == "none"@ && i.claims@.len()
                == 0,
    {
        Ok(Identity::anonymous())
    }

    /// Name of this authentication method.
    pub fn method_name(&self) -> (n: &'static str)
        ensures
            n@ == "none"@,
    {
        "none"
    }
}

impl Default for NoneAuthenticator {
    fn default() -> (a: Self) {
        NoneAuthenticator::new()
    }
}

/// The authenticator chosen by the configuration.
pub enum Authenticator {
    /// Everyone is let in.
    Open(NoneAuthenticator),
    /// An API key is required.
    ApiKey(ApiKeyAuthenticator),
}

impl Authenticator {
    /// Authenticates a request with the chosen authenticator.
    pub fn authenticate(&self, request: &AuthRequest) -> (r: Result<Identity, AuthError>)
        ensures
            self matches Authenticator::Open(_) ==> r matches Ok(i) && i.user_id@ == "anonymous"@
                && i.method@ == "none"@ && i.claims@.len() == 0,
            self matches Authenticator::ApiKey(a) ==> (r is Ok <==> request_key(*request) == Some(
                a.key(),
            )),
    {
        match self {
            Authenticator::Open(a) => a.authenticate(request),
            Authenticator::ApiKey(a) => a.authenticate(request),
        }
    }

    /// Name of the chosen authentication method.
    pub fn method_name(&self) -> (n: &'static str)
        ensures
            self is Open ==> n@ == "none"@,
            self is ApiKey ==> n@ == "api_key"@,
    {
        match self {
            Authenticator::Open(a) => a.method_name(),
            Authenticator::ApiKey(a) => a.method_name(),
        }
    }
}

/// Chooses the authenticator of an authentication configuration: the open
/// one for the method none, the API-key one with the configured key
/// otherwise, and an error when that method has no key.
pub fn create_authenticator(config: &AuthConfig) -> (r: Result<Authenticator, AuthError>)
    ensures
        match (config.method, config.api_key) {
            (AuthMethod::NoAuth, _) => r matches Ok(Authenticator::Open(_)),
            (AuthMethod::ApiKey, Some(k)) => (r matches Ok(Authenticator::ApiKey(a)) && a.key()
                == k@),
            (AuthMethod::ApiKey, None) => (r matches Err(AuthError::ConfigurationError(m)) && m@
                == "api_key must be set when using ApiKey auth method"@),
        },
{
    match config.method {
        AuthMethod::NoAuth => Ok(Authenticator::Open(NoneAuthenticator::new())),
        AuthMethod::ApiKey => match &config.api_key {
            Some(k) => Ok(Authenticator::ApiKey(ApiKeyAuthenticator::new(copy_string(k)))),
            None => Err(
                AuthError::ConfigurationError(
                    "api_key must be set when using ApiKey auth method".to_owned(),
                ),
            ),
        },
    }
}

} // verus!
