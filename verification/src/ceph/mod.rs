//! The client side of the Ceph manager's REST API.
//!
//! A call of the API passes three stages on its way out: `login` attaches
//! the token and recovers from its refusal, `tracing` reports the request,
//! `retry` sends again what failed in passing. None of them sends anything
//! itself. Each is a machine that is told what happened and says what is to
//! be done; `image` drives a listing over them in the same way.

pub mod address;
pub mod count;
pub mod image;
pub mod login;
pub mod retry;
pub mod tracing;

use crate::ceph::address::{join_url, joined_url, parse_url, parsed_url};
use vstd::prelude::*;

verus! {

/// Why a login, or a request that needed one, was turned down.
#[derive(Debug, Clone, Copy, PartialEq, Eq, Structural)]
pub enum AuthError {
    /// The manager refused the credentials. Asking again with the same
    /// credentials cannot succeed.
    InvalidCredentials,
    /// The manager could not serve the login. A later attempt may succeed.
    ServerUnavailable,
    /// The request was refused again although it carried a fresh token.
    RefreshFailed,
    /// The manager answered the login in a way that the API does not describe.
    Protocol,
}

/// Why a call of the manager's API came to nothing.
#[derive(Debug, Clone, Copy, PartialEq, Eq, Structural)]
pub enum CephRestfulClientError {
    /// An address could not be formed.
    UrlParse,
    /// The request could not be authenticated.
    Auth(AuthError),
    /// A failure of the kind that passes, which outlived the retries it was
    /// given.
    TransientNetwork,
    /// The request could not be sent, and sending it again would not help.
    Transport,
    /// The request would have had to be sent again, and its body cannot be
    /// reproduced.
    NotReplayable,
    /// The manager answered in a way that the API does not describe.
    Protocol,
}

/// How one send of a request ended, as the stage above the sender sees it.
#[derive(Debug, Clone, Copy, PartialEq, Eq, Structural)]
pub enum Delivery {
    /// The manager answered, with this status.
    Response { status: u16 },
    /// No answer came. `transient` says whether the failure is of the kind
    /// that passes: a timeout, a connection that was refused or cut.
    Failed { transient: bool },
}

/// A status of the class 2xx.
pub open spec fn is_success(status: u16) -> bool {
    200 <= status <= 299
}

/// A status of the class 5xx.
pub open spec fn is_server_error(status: u16) -> bool {
    500 <= status <= 599
}

/// The error that a send without an answer is reported as.
pub open spec fn transport_error(transient: bool) -> CephRestfulClientError {
    if transient {
        CephRestfulClientError::TransientNetwork
    } else {
        CephRestfulClientError::Transport
    }
}

/// A stage of the pipeline through which a request goes out and its answer
/// comes back.
#[derive(Debug, Clone, Copy, PartialEq, Eq, Structural)]
pub enum Stage {
    /// Attaches the token, and logs in once and sends again where the token
    /// is refused.
    Authentication,
    /// Reports each request once it has ended.
    Tracing,
    /// Sends again what failed in a way that may pass.
    TransientRetry,
}

/// Where the manager is reached and who asks.
#[derive(Debug, Clone, PartialEq, Eq)]
pub struct CephRestfulClientAccess {
    /// The serialization of the URL of the manager's endpoint.
    pub host: String,
    pub username: String,
    pub password: String,
}

impl CephRestfulClientAccess {
    /// Takes the three settings, the endpoint as written by the operator.
    /// The endpoint must be an absolute URL; it is kept in the form in which
    /// `url` serializes it.
    pub fn new(endpoint: &str, username: String, password: String) -> (access: Result<
        Self,
        CephRestfulClientError,
    >)
        ensures
            match access {
                Ok(a) => parsed_url(endpoint@) == Some(a.host@) && a.username == username
                    && a.password == password,
                Err(e) => parsed_url(endpoint@) is None && e == CephRestfulClientError::UrlParse,
            },
    {
        match parse_url(endpoint) {
            Ok(host) => Ok(CephRestfulClientAccess { host, username, password }),
            Err(_) => Err(CephRestfulClientError::UrlParse),
        }
    }
}

/// The listing side of the API: it knows where the manager is, and nothing
/// else. It keeps no inventory between two listings.
#[derive(Debug, Clone, PartialEq, Eq)]
pub struct CephRestfulClient {
    access: CephRestfulClientAccess,
}

impl CephRestfulClient {
    /// A client for the manager that `access` names.
    pub fn new(access: CephRestfulClientAccess) -> (client: Self)
        ensures
            client.access() == access,
    {
        CephRestfulClient { access }
    }

    /// The stages of a call of the API, the outermost first. Authentication
    /// stands outside the retry of transient failures: each send that it asks
    /// for, the first one and the one after a login, is retried on its own,
    /// with all retries to spend, and a status 401 or 403 reaches it only
    /// when the retries below have settled.
    pub fn stages() -> (stages: Vec<Stage>)
        ensures
            stages@ == seq![Stage::Authentication, Stage::Tracing, Stage::TransientRetry],
    {
        let mut stages: Vec<Stage> = Vec::new();
        stages.push(Stage::Authentication);
        stages.push(Stage::Tracing);
        stages.push(Stage::TransientRetry);
        assert(stages@ =~= seq![Stage::Authentication, Stage::Tracing, Stage::TransientRetry]);
        stages
    }

    /// The settings that the client was made with.
    pub closed spec fn access(&self) -> CephRestfulClientAccess {
        self.access
    }

    /// The address of `path` at the manager.
    pub fn endpoint(&self, path: &str) -> (address: Result<String, CephRestfulClientError>)
        ensures
            match address {
                Ok(text) => joined_url(self.access().host@, path@) == Some(text@),
                Err(e) => joined_url(self.access().host@, path@) is None && e
                    == CephRestfulClientError::UrlParse,
            },
    {
        match join_url(self.access.host.as_str(), path) {
            Ok(text) => Ok(text),
            Err(_) => Err(CephRestfulClientError::UrlParse),
        }
    }
}

} // verus!
