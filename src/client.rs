//! The adapters, the unified client over them and the factory that builds it.
//!
//! An adapter owns the identity of a client (base URL, credential,
//! user-agent) and turns each operation of the unified interface into the
//! request that its backend expects. Performing the request is left to the
//! transport; what comes back is put into a response envelope.
use vstd::prelude::*;
use vstd::string::*;
use crate::SNS;
use crate::error::Error;
use crate::text;
use crate::detector::instance_path;
use crate::streaming::{RetryPolicy, Session, SessionState};

verus! {

/// The user-agent that a client sends when none is given.
pub open spec fn default_user_agent() -> Seq<char> {
    "megalodon"@
}

/// The HTTP method of a request.
#[derive(Debug, Clone, Copy, PartialEq, Eq, Structural)]
pub enum Method {
    Get,
    Post,
}

/// A request that an adapter has prepared for the transport.
#[derive(Debug, Clone)]
pub struct Request {
    pub method: Method,
    pub url: String,
    /// Sent as a bearer credential when present.
    pub access_token: Option<String>,
    pub user_agent: String,
}

/// Who a client is to its server: base URL, optional credential and user-agent.
#[derive(Debug, Clone)]
pub struct Identity {
    pub base_url: String,
    pub access_token: Option<String>,
    pub user_agent: String,
}

/// The identity that the factory's inputs describe.
pub open spec fn identity_of(
    base_url: Seq<char>,
    access_token: Option<String>,
    user_agent: Option<String>,
    id: Identity,
) -> bool {
    &&& id.base_url@ == text::trim_trailing_slashes(base_url)
    &&& id.access_token == access_token
    &&& id.user_agent@ == match user_agent {
        Some(u) => u@,
        None => default_user_agent(),
    }
}

/// `r` is the request with `method` for `path` under the identity `id`.
pub open spec fn request_for(id: Identity, method: Method, path: Seq<char>, r: Request) -> bool {
    &&& r.method == method
    &&& r.url@ == id.base_url@ + path
    &&& r.access_token == id.access_token
    &&& r.user_agent@ == id.user_agent@
}

impl Identity {
    /// Builds the identity of a client; the base URL loses its trailing
    /// slashes and a missing user-agent becomes the default one.
    pub fn new(base_url: String, access_token: Option<String>, user_agent: Option<String>) -> (r:
        Identity)
        ensures
            identity_of(base_url@, access_token, user_agent, r),
    {
        proof {
            reveal_strlit("megalodon");
        }
        let ua = match user_agent {
            Some(u) => u,
            None => "megalodon".to_owned(),
        };
        Identity { base_url: text::normalize_base_url(base_url.as_str()), access_token, user_agent: ua }
    }

    /// The request with `method` for `path`.
    pub fn request(&self, method: Method, path: &str) -> (r: Request)
        ensures
            request_for(*self, method, path@, r),
    {
        let mut url = self.base_url.clone();
        url.append(path);
        let access_token = match &self.access_token {
            Some(t) => Some(t.clone()),
            None => None,
        };
        Request { method, url, access_token, user_agent: self.user_agent.clone() }
    }

    /// The request with `method` for `path`, for an operation that needs a
    /// credential: without one it is refused with the operation's name.
    pub fn authorized_request(&self, method: Method, path: &str, operation: &str) -> (r: Result<
        Request,
        Error,
    >)
        ensures
            authorized_request_for(*self, method, path@, operation@, r),
    {
        if self.access_token.is_none() {
            Err(Error::Unauthenticated { operation: operation.to_owned() })
        } else {
            Ok(self.request(method, path))
        }
    }
}

/// `r` is the outcome of an operation named `operation` that needs a
/// credential: refused without one, else the request for `path`.
pub open spec fn authorized_request_for(
    id: Identity,
    method: Method,
    path: Seq<char>,
    operation: Seq<char>,
    r: Result<Request, Error>,
) -> bool {
    match r {
        Ok(q) => id.access_token is Some && request_for(id, method, path, q),
        Err(e) => id.access_token is None && (e matches Error::Unauthenticated { operation: o }
            && o@ == operation),
    }
}

/// The outcome of an operation that the backend does not offer.
pub open spec fn unsupported(operation: Seq<char>, r: Result<Request, Error>) -> bool {
    r matches Err(Error::UnsupportedOperation { operation: o }) && o@ == operation
}

/// Path of an account, by its id.
pub open spec fn account_path(id: Seq<char>) -> Seq<char> {
    "/api/v1/accounts/"@ + id
}

/// Path of the account that the credential belongs to.
pub open spec fn verify_credentials_path() -> Seq<char> {
    "/api/v1/accounts/verify_credentials"@
}

/// Path of the home timeline.
pub open spec fn home_timeline_path() -> Seq<char> {
    "/api/v1/timelines/home"@
}

/// Path of the public timeline.
pub open spec fn public_timeline_path() -> Seq<char> {
    "/api/v1/timelines/public"@
}

/// Path of the trending tags.
pub open spec fn trends_path() -> Seq<char> {
    "/api/v1/trends"@
}

/// Request for an account by its id.
fn account_request(id: &Identity, account_id: &str) -> (r: Request)
    ensures
        request_for(*id, Method::Get, account_path(account_id@), r),
{
    let mut path = "/api/v1/accounts/".to_owned();
    path.append(account_id);
    proof {
        reveal_strlit("/api/v1/accounts/");
    }
    id.request(Method::Get, path.as_str())
}

/// The adapter for Mastodon servers.
#[derive(Debug, Clone)]
pub struct Mastodon {
    pub identity: Identity,
}

/// The adapter for Pleroma servers.
#[derive(Debug, Clone)]
pub struct Pleroma {
    pub identity: Identity,
}

impl Mastodon {
    /// Creates the adapter; this does no I/O and cannot fail.
    pub fn new(base_url: String, access_token: Option<String>, user_agent: Option<String>) -> (r:
        Mastodon)
        ensures
            identity_of(base_url@, access_token, user_agent, r.identity),
    {
        Mastodon { identity: Identity::new(base_url, access_token, user_agent) }
    }
}

impl Pleroma {
    /// Creates the adapter; this does no I/O and cannot fail.
    pub fn new(base_url: String, access_token: Option<String>, user_agent: Option<String>) -> (r:
        Pleroma)
        ensures
            identity_of(base_url@, access_token, user_agent, r.identity),
    {
        Pleroma { identity: Identity::new(base_url, access_token, user_agent) }
    }
}

/// A client of any flavor, behind one interface.
#[derive(Debug, Clone)]
pub enum Client {
    Mastodon(Mastodon),
    Pleroma(Pleroma),
}

/// The adapter kind that serves a flavor: Pleroma has its own, every other
/// flavor is served by the Mastodon adapter.
pub open spec fn adapter_flavor(sns: SNS) -> SNS {
    match sns {
        SNS::Pleroma => SNS::Pleroma,
        _ => SNS::Mastodon,
    }
}

/// Every flavor has an adapter: Pleroma its own, and each other flavor the
/// Mastodon one, so the factory has no flavor on which to fail.
pub proof fn every_flavor_has_adapter(sns: SNS)
    ensures
        adapter_flavor(sns) == SNS::Pleroma <==> sns == SNS::Pleroma,
        sns != SNS::Pleroma ==> adapter_flavor(sns) == SNS::Mastodon,
{
}

/// Generate an API client which serves the given flavor. This does no I/O and
/// cannot fail: the URL and the credential are first used by a real call.
pub fn generator(
    sns: SNS,
    base_url: String,
    access_token: Option<String>,
    user_agent: Option<String>,
) -> (r: Client)
    ensures
        r.flavor() == adapter_flavor(sns),
        identity_of(base_url@, access_token, user_agent, r.identity()),
{
    match sns {
        SNS::Pleroma => Client::Pleroma(Pleroma::new(base_url, access_token, user_agent)),
        _ => Client::Mastodon(Mastodon::new(base_url, access_token, user_agent)),
    }
}

impl Client {
    /// The flavor of the adapter behind the client.
    pub open spec fn flavor(self) -> SNS {
        match self {
            Client::Mastodon(_) => SNS::Mastodon,
            Client::Pleroma(_) => SNS::Pleroma,
        }
    }

    /// The identity of the client.
    pub open spec fn identity(self) -> Identity {
        match self {
            Client::Mastodon(m) => m.identity,
            Client::Pleroma(p) => p.identity,
        }
    }

    fn id(&self) -> (r: &Identity)
        ensures
            *r == self.identity(),
    {
        match self {
            Client::Mastodon(m) => &m.identity,
            Client::Pleroma(p) => &p.identity,
        }
    }

    /// A new streaming session for this client, not yet connected, that
    /// retries under `policy`.
    pub fn streaming_session(&self, policy: RetryPolicy) -> (r: Session)
        ensures
            r == (Session { state: SessionState::Disconnected, attempts: 0, policy }),
            r.wf(),
    {
        Session::new(policy)
    }

    /// The flavor of the adapter behind the client.
    pub fn sns(&self) -> (r: SNS)
        ensures
            r == self.flavor(),
    {
        match self {
            Client::Mastodon(_) => SNS::Mastodon,
            Client::Pleroma(_) => SNS::Pleroma,
        }
    }

    /// The base URL, without trailing slashes.
    pub fn base_url(&self) -> (r: &String)
        ensures
            *r == self.identity().base_url,
    {
        &self.id().base_url
    }

    /// Information about the instance; needs no credential.
    pub fn get_instance(&self) -> (r: Request)
        ensures
            request_for(self.identity(), Method::Get, instance_path(), r),
    {
        proof {
            reveal_strlit("/api/v1/instance");
        }
        self.id().request(Method::Get, "/api/v1/instance")
    }

    /// An account by its id; needs no credential.
    pub fn get_account(&self, id: &str) -> (r: Request)
        ensures
            request_for(self.identity(), Method::Get, account_path(id@), r),
    {
        account_request(self.id(), id)
    }

    /// The account that the credential belongs to; needs a credential.
    pub fn verify_account_credentials(&self) -> (r: Result<Request, Error>)
        ensures
            authorized_request_for(
                self.identity(),
                Method::Get,
                verify_credentials_path(),
                "verify_account_credentials"@,
                r,
            ),
    {
        proof {
            reveal_strlit("/api/v1/accounts/verify_credentials");
            reveal_strlit("verify_account_credentials");
        }
        self.id().authorized_request(
            Method::Get,
            "/api/v1/accounts/verify_credentials",
            "verify_account_credentials",
        )
    }

    /// The home timeline; needs a credential.
    pub fn get_home_timeline(&self) -> (r: Result<Request, Error>)
        ensures
            authorized_request_for(
                self.identity(),
                Method::Get,
                home_timeline_path(),
                "get_home_timeline"@,
                r,
            ),
    {
        proof {
            reveal_strlit("/api/v1/timelines/home");
            reveal_strlit("get_home_timeline");
        }
        self.id().authorized_request(Method::Get, "/api/v1/timelines/home", "get_home_timeline")
    }

    /// The public timeline; needs no credential.
    pub fn get_public_timeline(&self) -> (r: Request)
        ensures
            request_for(self.identity(), Method::Get, public_timeline_path(), r),
    {
        proof {
            reveal_strlit("/api/v1/timelines/public");
        }
        self.id().request(Method::Get, "/api/v1/timelines/public")
    }

    /// The trending tags; Pleroma does not offer them.
    pub fn get_instance_trends(&self) -> (r: Result<Request, Error>)
        ensures
            self.flavor() == SNS::Mastodon ==> (r matches Ok(q) && request_for(
                self.identity(),
                Method::Get,
                trends_path(),
                q,
            )),
            self.flavor() == SNS::Pleroma ==> unsupported("get_instance_trends"@, r),
    {
        proof {
            reveal_strlit("/api/v1/trends");
            reveal_strlit("get_instance_trends");
        }
        match self {
            Client::Mastodon(m) => Ok(m.identity.request(Method::Get, "/api/v1/trends")),
            Client::Pleroma(_) => Err(
                Error::UnsupportedOperation { operation: "get_instance_trends".to_owned() },
            ),
        }
    }
}

} // verus!
