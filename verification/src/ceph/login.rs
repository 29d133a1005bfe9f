//! The bearer token: how it is obtained, kept, attached and renewed.
//!
//! The token lives in a cell that all requests share. A request reads it when
//! it sets out. If the manager refuses the request, the authenticator logs in
//! once and the request is sent once more; requests that were refused for the
//! same token share that one login.

use crate::ceph::address::{join_url, joined_url};
use crate::ceph::{
    is_server_error, transport_error, AuthError, CephRestfulClientAccess, CephRestfulClientError,
    Delivery, Stage,
};
use reqwest::header::HeaderValue;
use vstd::prelude::*;

verus! {

/// The status with which the manager answers a login that succeeded.
pub const CREATED: u16 = 201;

/// A status with which the manager refuses credentials.
pub const BAD_REQUEST: u16 = 400;

/// The status of a request that carried no token, or one that is not valid,
/// and the other status with which the manager refuses credentials.
pub const UNAUTHORIZED: u16 = 401;

/// The status of a request whose token the manager does not accept.
pub const FORBIDDEN: u16 = 403;

/// A character that may stand in the value of a header: anything but the
/// control characters, of which only the tab is allowed.
pub open spec fn header_char(c: char) -> bool {
    (c as u32 >= 32 && c as u32 != 127) || c as u32 == 9
}

/// A text that can be sent as the value of a header.
pub open spec fn header_text(text: Seq<char>) -> bool {
    forall|i: int| 0 <= i < text.len() ==> header_char(#[trigger] text[i])
}

/// Calls `HeaderValue::from_str` of `http`, by its name in `reqwest`, and
/// says whether it returned `Ok`. The contract claims that it does so exactly
/// for the texts without control characters other than the tab: the function
/// turns down a text for a byte below 32 that is not 9, or for the byte 127,
/// and no byte of a character beyond ASCII is one of these.
#[verifier::external_body]
pub(crate) fn accepted_as_header(text: &str) -> (accepted: bool)
    ensures
        accepted == header_text(text@),
{
    HeaderValue::from_str(text).is_ok()
}

/// The value of the `Authorization` header for a token.
pub open spec fn bearer(token: Seq<char>) -> Seq<char> {
    "Bearer "@ + token
}

/// The value of the `Authorization` header, if there is a token to send.
pub open spec fn authorization_for(token: Option<Seq<char>>) -> Option<Seq<char>> {
    match token {
        Some(t) => Some(bearer(t)),
        None => None,
    }
}

/// Writes the value of the `Authorization` header for a token.
pub fn bearer_header(token: &str) -> (header: String)
    ensures
        header@ == bearer(token@),
{
    let mut header = String::from_str("Bearer ");
    header.append(token);
    header
}

/// What the cell holds, as the contracts speak of it.
pub struct TokenCell {
    /// The current token, if there is one.
    pub token: Option<Seq<char>>,
    /// A number that changes with every change of the cell. A request notes
    /// it when it reads the token, and sees by it whether the cell was
    /// refreshed while the request was on its way.
    pub version: u64,
    /// Why the cell is empty, if a login that failed emptied it.
    pub failure: Option<CephRestfulClientError>,
}

/// The version that follows `version`. It wraps around at the end of the
/// range.
pub open spec fn next_version(version: u64) -> u64 {
    if version == u64::MAX {
        0
    } else {
        (version + 1) as u64
    }
}

/// The cell once `token` was put into it.
pub open spec fn stored(cell: TokenCell, token: Seq<char>) -> TokenCell {
    TokenCell { token: Some(token), version: next_version(cell.version), failure: None }
}

/// The cell once it was emptied, for the reason `failure` if there is one.
pub open spec fn emptied(cell: TokenCell, failure: Option<CephRestfulClientError>) -> TokenCell {
    TokenCell { token: None, version: next_version(cell.version), failure }
}

/// The cell that holds the current token, or none. Whoever holds the cell
/// exclusively may change it; it does no I/O of its own.
#[derive(Debug, Clone, PartialEq, Eq)]
pub struct AuthState {
    token: Option<String>,
    version: u64,
    failure: Option<CephRestfulClientError>,
}

impl View for AuthState {
    type V = TokenCell;

    closed spec fn view(&self) -> TokenCell {
        TokenCell {
            token: match self.token {
                Some(t) => Some(t@),
                None => None,
            },
            version: self.version,
            failure: self.failure,
        }
    }
}

impl AuthState {
    /// A cell without a token.
    pub fn new() -> (state: Self)
        ensures
            state@ == (TokenCell { token: None, version: 0, failure: None }),
    {
        AuthState { token: None, version: 0, failure: None }
    }

    /// A copy of the token in the cell.
    pub fn read(&self) -> (token: Option<String>)
        ensures
            token is Some == self@.token is Some,
            token matches Some(t) ==> self@.token == Some(t@),
    {
        match &self.token {
            Some(t) => Some(t.clone()),
            None => None,
        }
    }

    /// The version of the cell.
    pub fn version(&self) -> (version: u64)
        ensures
            version == self@.version,
    {
        self.version
    }

    /// Why the cell is empty, if a login that failed emptied it.
    pub fn failure(&self) -> (failure: Option<CephRestfulClientError>)
        ensures
            failure == self@.failure,
    {
        self.failure
    }

    /// Puts a token into the cell, in place of the one that may be there.
    pub fn replace(&mut self, token: String)
        ensures
            final(self)@ == stored(old(self)@, token@),
        no_unwind
    {
        self.token = Some(token);
        self.version = following(self.version);
        self.failure = None;
    }

    /// Empties the cell.
    pub fn clear(&mut self)
        ensures
            final(self)@ == emptied(old(self)@, None),
        no_unwind
    {
        self.token = None;
        self.version = following(self.version);
        self.failure = None;
    }

    /// Empties the cell because a login failed.
    pub fn fail(&mut self, failure: CephRestfulClientError)
        ensures
            final(self)@ == emptied(old(self)@, Some(failure)),
        no_unwind
    {
        self.token = None;
        self.version = following(self.version);
        self.failure = Some(failure);
    }
}

/// The version that follows `version`.
pub fn following(version: u64) -> (next: u64)
    ensures
        next == next_version(version),
    no_unwind
{
    if version == u64::MAX {
        0
    } else {
        version + 1
    }
}

/// What came of a login request: how the send ended and, where the answer
/// had a body that reads as a login, the token in it.
#[derive(Debug, Clone, PartialEq, Eq)]
pub struct LoginReply {
    pub delivery: Delivery,
    pub token: Option<String>,
}

/// The login request: where it goes and what its body says.
#[derive(Debug, Clone, PartialEq, Eq)]
pub struct LoginRequest {
    pub url: String,
    pub username: String,
    pub password: String,
}

/// What a login reply means: the new token, or the reason why there is none.
///
/// - 201 with a token that can be sent in a header: the token.
/// - 201 without such a token: `Protocol`.
/// - 400 or 401: `InvalidCredentials`.
/// - 5xx: `ServerUnavailable`.
/// - Any other status: `Protocol`.
/// - No answer at all: the transport's failure.
pub open spec fn login_outcome(reply: LoginReply) -> Result<Seq<char>, CephRestfulClientError> {
    match reply.delivery {
        Delivery::Failed { transient } => Err(transport_error(transient)),
        Delivery::Response { status } => {
            if status == CREATED {
                match reply.token {
                    Some(t) => if header_text(bearer(t@)) {
                        Ok(t@)
                    } else {
                        Err(CephRestfulClientError::Auth(AuthError::Protocol))
                    },
                    None => Err(CephRestfulClientError::Auth(AuthError::Protocol)),
                }
            } else if status == BAD_REQUEST || status == UNAUTHORIZED {
                Err(CephRestfulClientError::Auth(AuthError::InvalidCredentials))
            } else if is_server_error(status) {
                Err(CephRestfulClientError::Auth(AuthError::ServerUnavailable))
            } else {
                Err(CephRestfulClientError::Auth(AuthError::Protocol))
            }
        },
    }
}

/// The cell once a login reply was taken in: it holds the new token, or it is
/// empty and says why. A failed login leaves no token behind, so that the
/// next request starts with a fresh attempt instead of a token known to be
/// stale.
pub open spec fn cell_after_refresh(cell: TokenCell, reply: LoginReply) -> TokenCell {
    match login_outcome(reply) {
        Ok(t) => stored(cell, t),
        Err(e) => emptied(cell, Some(e)),
    }
}

/// Where the authentication of one request stands.
#[derive(Debug, Clone, Copy, PartialEq, Eq, Structural)]
pub enum HandleState {
    /// The request was sent for the first time. `replayable` says whether it
    /// can be sent again exactly as it was, `version` is the version of the
    /// cell from which its token was read.
    FirstSend { replayable: bool, version: u64 },
    /// The first send was refused and a login is under way.
    Refreshing,
    /// The request was sent again, with the token of the cell at `version`.
    Resend { version: u64 },
    /// The request is settled.
    Done,
}

/// What happened since the last step.
#[derive(Debug, Clone, PartialEq, Eq)]
pub enum HandleEvent {
    /// The send that was asked for ended.
    Sent(Delivery),
    /// The login that was asked for ended.
    LoggedIn(LoginReply),
}

/// What is to be done next.
#[derive(Debug, Clone, PartialEq, Eq)]
pub enum HandleAction {
    /// Send the request, with this `Authorization` header if there is one.
    Send { authorization: Option<String> },
    /// Send the login request.
    Login,
    /// Hand the answer of the last send to the caller as it is.
    Return,
    /// Fail the request.
    Fail(CephRestfulClientError),
}

/// A `HandleAction` with its text as a sequence of characters.
pub enum Directive {
    Send { authorization: Option<Seq<char>> },
    Login,
    Return,
    Fail(CephRestfulClientError),
}

impl View for HandleAction {
    type V = Directive;

    open spec fn view(&self) -> Directive {
        match *self {
            HandleAction::Send { authorization } => Directive::Send {
                authorization: match authorization {
                    Some(a) => Some(a@),
                    None => None,
                },
            },
            HandleAction::Login => Directive::Login,
            HandleAction::Return => Directive::Return,
            HandleAction::Fail(e) => Directive::Fail(e),
        }
    }
}

/// A status that says that the request was not authenticated.
pub open spec fn is_rejection(status: u16) -> bool {
    status == UNAUTHORIZED || status == FORBIDDEN
}

/// What follows a first send that was refused, for a request that can be
/// sent again and that read its token from the cell at `version`.
///
/// - If the cell is still at that version, nobody has logged in since: a
///   login is asked for.
/// - If the cell has changed and holds a token, another request has logged
///   in meanwhile: the request is sent again with that token, without a
///   login of its own.
/// - If the cell has changed and is empty because a login failed, the request
///   fails with the error of that login.
/// - If the cell has changed and is empty for no such reason, a login is
///   asked for.
pub open spec fn after_rejection(cell: TokenCell, version: u64) -> (HandleState, Directive) {
    if cell.version == version {
        (HandleState::Refreshing, Directive::Login)
    } else {
        match cell.token {
            Some(t) => (
                HandleState::Resend { version: cell.version },
                Directive::Send { authorization: Some(bearer(t)) },
            ),
            None => match cell.failure {
                Some(e) => (HandleState::Done, Directive::Fail(e)),
                None => (HandleState::Refreshing, Directive::Login),
            },
        }
    }
}

/// One step of the authentication of a request: from the cell, the state and
/// what happened, to the cell, the next state and what is to be done.
///
/// - An answer to the first send other than 401 and 403 is returned as it is.
/// - 401 or 403 to the first send fails the request with `NotReplayable` if
///   it cannot be sent again. If it can, `after_rejection` says what follows:
///   as a rule, one login.
/// - A login that succeeded stores the token and asks for one more send, with
///   that token. A login that failed empties the cell and fails the request
///   with the login's error.
/// - An answer to the second send other than 401 and 403 is returned as it
///   is. 401 or 403 again fails the request with `RefreshFailed`, and
///   empties the cell if it still holds the token that was refused.
/// - A send that ended without an answer fails the request with the
///   transport's failure.
/// - Whatever does not follow from the step before, and whatever comes after
///   the request was settled, fails with `Protocol`.
pub open spec fn handle_spec(cell: TokenCell, state: HandleState, event: HandleEvent) -> (
    TokenCell,
    HandleState,
    Directive,
) {
    match (state, event) {
        (
            HandleState::FirstSend { replayable, version },
            HandleEvent::Sent(Delivery::Response { status }),
        ) => {
            if !is_rejection(status) {
                (cell, HandleState::Done, Directive::Return)
            } else if !replayable {
                (cell, HandleState::Done, Directive::Fail(CephRestfulClientError::NotReplayable))
            } else {
                (cell, after_rejection(cell, version).0, after_rejection(cell, version).1)
            }
        },
        (HandleState::Refreshing, HandleEvent::LoggedIn(reply)) => match login_outcome(reply) {
            Ok(t) => (
                stored(cell, t),
                HandleState::Resend { version: next_version(cell.version) },
                Directive::Send { authorization: Some(bearer(t)) },
            ),
            Err(e) => (emptied(cell, Some(e)), HandleState::Done, Directive::Fail(e)),
        },
        (HandleState::Resend { version }, HandleEvent::Sent(Delivery::Response { status })) => {
            let refused = CephRestfulClientError::Auth(AuthError::RefreshFailed);
            if !is_rejection(status) {
                (cell, HandleState::Done, Directive::Return)
            } else if cell.version == version {
                (emptied(cell, Some(refused)), HandleState::Done, Directive::Fail(refused))
            } else {
                (cell, HandleState::Done, Directive::Fail(refused))
            }
        },
        (HandleState::FirstSend { .. }, HandleEvent::Sent(Delivery::Failed { transient })) => (
            cell,
            HandleState::Done,
            Directive::Fail(transport_error(transient)),
        ),
        (HandleState::Resend { .. }, HandleEvent::Sent(Delivery::Failed { transient })) => (
            cell,
            HandleState::Done,
            Directive::Fail(transport_error(transient)),
        ),
        _ => (cell, HandleState::Done, Directive::Fail(CephRestfulClientError::Protocol)),
    }
}

/// The authenticator: the credentials and the cell with the token.
pub struct CephApiAuthentication {
    access: CephRestfulClientAccess,
    state: AuthState,
}

impl CephApiAuthentication {
    /// Every token in the cell can be sent in an `Authorization` header.
    #[verifier::type_invariant]
    spec fn sendable(self) -> bool {
        self.state@.token matches Some(t) ==> header_text(bearer(t))
    }

    /// The credentials that the authenticator was made with.
    pub closed spec fn access(&self) -> CephRestfulClientAccess {
        self.access
    }

    /// The cell with the token.
    pub closed spec fn cell(&self) -> TokenCell {
        self.state@
    }

    /// An authenticator that holds no token yet.
    pub fn new(access: CephRestfulClientAccess) -> (authentication: Self)
        ensures
            authentication.access() == access,
            authentication.cell() == (TokenCell { token: None, version: 0, failure: None }),
    {
        CephApiAuthentication { access, state: AuthState::new() }
    }

    /// The stages of a login request, the outermost first. A login is not
    /// itself authenticated; it is retried and reported like any other
    /// request.
    pub fn stages() -> (stages: Vec<Stage>)
        ensures
            stages@ == seq![Stage::TransientRetry, Stage::Tracing],
    {
        let mut stages: Vec<Stage> = Vec::new();
        stages.push(Stage::TransientRetry);
        stages.push(Stage::Tracing);
        assert(stages@ =~= seq![Stage::TransientRetry, Stage::Tracing]);
        stages
    }

    /// A copy of the token in the cell. What is handed out can be sent in an
    /// `Authorization` header.
    pub fn read(&self) -> (token: Option<String>)
        ensures
            token is Some == self.cell().token is Some,
            token matches Some(t) ==> self.cell().token == Some(t@) && header_text(bearer(t@)),
    {
        proof {
            use_type_invariant(self);
        }
        self.state.read()
    }

    /// The login request for the credentials: a POST of user name and
    /// password to `/api/auth` at the manager.
    pub fn login_request(&self) -> (request: Result<LoginRequest, CephRestfulClientError>)
        ensures
            match request {
                Ok(r) => joined_url(self.access().host@, "/api/auth"@) == Some(r.url@)
                    && r.username == self.access().username && r.password
                    == self.access().password,
                Err(e) => joined_url(self.access().host@, "/api/auth"@) is None && e
                    == CephRestfulClientError::UrlParse,
            },
    {
        match join_url(self.access.host.as_str(), "/api/auth") {
            Ok(url) => Ok(
                LoginRequest {
                    url,
                    username: self.access.username.clone(),
                    password: self.access.password.clone(),
                },
            ),
            Err(_) => Err(CephRestfulClientError::UrlParse),
        }
    }

    /// Takes in the reply to a login request. A token that the reply brought
    /// is stored; a reply that brought none leaves the cell as it is.
    pub fn fetch_token(&mut self, reply: LoginReply) -> (fetched: Result<
        (),
        CephRestfulClientError,
    >)
        ensures
            match login_outcome(reply) {
                Ok(t) => fetched is Ok && final(self).cell() == stored(old(self).cell(), t),
                Err(e) => fetched == Err::<(), CephRestfulClientError>(e) && final(self).cell()
                    == old(self).cell(),
            },
            final(self).access() == old(self).access(),
    {
        match reply.delivery {
            Delivery::Failed { transient } => Err(failure_of(transient)),
            Delivery::Response { status } => {
                if status == CREATED {
                    match reply.token {
                        Some(token) => {
                            let header = bearer_header(token.as_str());
                            if accepted_as_header(header.as_str()) {
                                self.state.replace(token);
                                Ok(())
                            } else {
                                Err(CephRestfulClientError::Auth(AuthError::Protocol))
                            }
                        },
                        None => Err(CephRestfulClientError::Auth(AuthError::Protocol)),
                    }
                } else if status == BAD_REQUEST || status == UNAUTHORIZED {
                    Err(CephRestfulClientError::Auth(AuthError::InvalidCredentials))
                } else if 500 <= status && status <= 599 {
                    Err(CephRestfulClientError::Auth(AuthError::ServerUnavailable))
                } else {
                    Err(CephRestfulClientError::Auth(AuthError::Protocol))
                }
            },
        }
    }

    /// Logs in anew with the reply to a login request: the token of a login
    /// that succeeded is stored, and a login that failed empties the cell.
    pub fn refresh_token(&mut self, reply: LoginReply) -> (refreshed: Result<
        (),
        CephRestfulClientError,
    >)
        ensures
            match login_outcome(reply) {
                Ok(t) => refreshed is Ok,
                Err(e) => refreshed == Err::<(), CephRestfulClientError>(e),
            },
            final(self).cell() == cell_after_refresh(old(self).cell(), reply),
            final(self).access() == old(self).access(),
    {
        let refreshed = self.fetch_token(reply);
        match refreshed {
            Ok(()) => {},
            Err(e) => {
                self.state.fail(e);
            },
        }
        refreshed
    }

    /// The `Authorization` header for the token in the cell, if there is one.
    pub fn authorization(&self) -> (authorization: Option<String>)
        ensures
            authorization is Some == self.cell().token is Some,
            authorization matches Some(a) ==> authorization_for(self.cell().token) == Some(a@)
                && header_text(a@),
    {
        match self.read() {
            Some(token) => Some(bearer_header(token.as_str())),
            None => None,
        }
    }

    /// Starts the authentication of a request: it is sent with the token in
    /// the cell, or without one if the cell is empty.
    pub fn begin(&self, replayable: bool) -> (start: (HandleState, HandleAction))
        ensures
            start.0 == (HandleState::FirstSend { replayable, version: self.cell().version }),
            start.1@ == (Directive::Send { authorization: authorization_for(self.cell().token) }),
            start.1 matches HandleAction::Send { authorization: Some(a) } ==> header_text(a@),
    {
        let authorization = self.authorization();
        (
            HandleState::FirstSend { replayable, version: self.state.version() },
            HandleAction::Send { authorization },
        )
    }

    /// Takes the authentication of a request one step further.
    pub fn handle(&mut self, state: HandleState, event: HandleEvent) -> (step: (
        HandleState,
        HandleAction,
    ))
        ensures
            (final(self).cell(), step.0, step.1@) == handle_spec(old(self).cell(), state, event),
            final(self).access() == old(self).access(),
            step.1 matches HandleAction::Send { authorization: Some(a) } ==> header_text(a@),
    {
        let refused = CephRestfulClientError::Auth(AuthError::RefreshFailed);
        match (state, event) {
            (
                HandleState::FirstSend { replayable, version },
                HandleEvent::Sent(Delivery::Response { status }),
            ) => {
                if !(status == UNAUTHORIZED || status == FORBIDDEN) {
                    (HandleState::Done, HandleAction::Return)
                } else if !replayable {
                    (HandleState::Done, HandleAction::Fail(CephRestfulClientError::NotReplayable))
                } else if self.state.version() == version {
                    (HandleState::Refreshing, HandleAction::Login)
                } else {
                    match self.authorization() {
                        Some(a) => (
                            HandleState::Resend { version: self.state.version() },
                            HandleAction::Send { authorization: Some(a) },
                        ),
                        None => match self.state.failure() {
                            Some(e) => (HandleState::Done, HandleAction::Fail(e)),
                            None => (HandleState::Refreshing, HandleAction::Login),
                        },
                    }
                }
            },
            (HandleState::Refreshing, HandleEvent::LoggedIn(reply)) => {
                match self.refresh_token(reply) {
                    Ok(()) => {
                        let authorization = self.authorization();
                        (
                            HandleState::Resend { version: self.state.version() },
                            HandleAction::Send { authorization },
                        )
                    },
                    Err(e) => (HandleState::Done, HandleAction::Fail(e)),
                }
            },
            (HandleState::Resend { version }, HandleEvent::Sent(Delivery::Response { status })) => {
                if !(status == UNAUTHORIZED || status == FORBIDDEN) {
                    (HandleState::Done, HandleAction::Return)
                } else {
                    if self.state.version() == version {
                        self.state.fail(refused);
                    }
                    (HandleState::Done, HandleAction::Fail(refused))
                }
            },
            (HandleState::FirstSend { .. }, HandleEvent::Sent(Delivery::Failed { transient })) => {
                (HandleState::Done, HandleAction::Fail(failure_of(transient)))
            },
            (HandleState::Resend { .. }, HandleEvent::Sent(Delivery::Failed { transient })) => {
                (HandleState::Done, HandleAction::Fail(failure_of(transient)))
            },
            _ => (HandleState::Done, HandleAction::Fail(CephRestfulClientError::Protocol)),
        }
    }
}

/// How many steps the authentication of a request can still take.
pub open spec fn steps_left(state: HandleState) -> nat {
    match state {
        HandleState::FirstSend { .. } => 3,
        HandleState::Refreshing => 2,
        HandleState::Resend { .. } => 1,
        HandleState::Done => 0,
    }
}

/// A login that succeeded yields its token, and the next request carries it:
/// once a reply with status 201 and a sendable token was taken in, the cell
/// holds that token, and a request that begins then is sent with the header
/// `Authorization: Bearer ` and that token.
pub proof fn lemma_login_then_bearer(cell: TokenCell, reply: LoginReply, token: String)
    requires
        reply.delivery == (Delivery::Response { status: CREATED }),
        reply.token == Some(token),
        header_text(bearer(token@)),
    ensures
        login_outcome(reply) == Ok::<Seq<char>, CephRestfulClientError>(token@),
        cell_after_refresh(cell, reply).token == Some(token@),
        authorization_for(cell_after_refresh(cell, reply).token) == Some("Bearer "@ + token@),
{
}

/// Credentials that the manager refuses are reported as such and leave no
/// token behind: after a reply with status 400 or 401 the login has failed
/// with `InvalidCredentials` and the cell is empty, whatever it held before
/// and whatever the reply carried.
pub proof fn lemma_invalid_credentials_leave_no_token(cell: TokenCell, reply: LoginReply)
    requires
        reply.delivery == (Delivery::Response { status: BAD_REQUEST }) || reply.delivery == (
        Delivery::Response { status: UNAUTHORIZED }),
    ensures
        login_outcome(reply) == Err::<Seq<char>, CephRestfulClientError>(
            CephRestfulClientError::Auth(AuthError::InvalidCredentials),
        ),
        cell_after_refresh(cell, reply).token is None,
{
}

/// A request that can be sent again and is answered with 401 or 403, while
/// nobody else has changed the cell since the request read its token, leads
/// to exactly one login and, if the login succeeds, to exactly one more send,
/// with the new token. Whatever answers that send settles the request: 401 or
/// 403 again as `RefreshFailed`, anything else as the answer itself. If the
/// login fails, its error settles the request and nothing is sent again.
pub proof fn lemma_one_refresh_one_resend(
    cell: TokenCell,
    first: u16,
    reply: LoginReply,
    second: Delivery,
)
    requires
        is_rejection(first),
    ensures
        ({
            let s1 = handle_spec(
                cell,
                HandleState::FirstSend { replayable: true, version: cell.version },
                HandleEvent::Sent(Delivery::Response { status: first }),
            );
            let s2 = handle_spec(s1.0, s1.1, HandleEvent::LoggedIn(reply));
            let s3 = handle_spec(s2.0, s2.1, HandleEvent::Sent(second));
            &&& s1.0 == cell
            &&& s1.1 == HandleState::Refreshing
            &&& s1.2 == Directive::Login
            &&& match login_outcome(reply) {
                Ok(t) => {
                    &&& s2.0.token == Some(t)
                    &&& s2.1 is Resend
                    &&& s2.2 == (Directive::Send { authorization: Some(bearer(t)) })
                    &&& s3.1 == HandleState::Done
                    &&& s3.2 == match second {
                        Delivery::Response { status } => if is_rejection(status) {
                            Directive::Fail(CephRestfulClientError::Auth(AuthError::RefreshFailed))
                        } else {
                            Directive::Return
                        },
                        Delivery::Failed { transient } => Directive::Fail(
                            transport_error(transient),
                        ),
                    }
                },
                Err(e) => {
                    &&& s2.0.token is None
                    &&& s2.1 == HandleState::Done
                    &&& s2.2 == Directive::Fail(e)
                },
            }
        }),
{
}

/// One login serves every request that was refused for the token it
/// replaced. A request that is answered with 401 or 403 after another request
/// has logged in does not log in again: it is sent once more, with the token
/// that it finds, and the cell stays as it is. If the other login failed, the
/// request fails with the same error, and nothing is sent.
pub proof fn lemma_refresh_is_shared(cell: TokenCell, version: u64, status: u16)
    requires
        is_rejection(status),
        cell.version != version,
    ensures
        ({
            let step = handle_spec(
                cell,
                HandleState::FirstSend { replayable: true, version },
                HandleEvent::Sent(Delivery::Response { status }),
            );
            &&& step.0 == cell
            &&& cell.token matches Some(t) ==> step.1 == (HandleState::Resend {
                version: cell.version,
            }) && step.2 == (Directive::Send { authorization: Some(bearer(t)) })
            &&& cell.token is None && cell.failure is Some ==> step.1 == HandleState::Done
                && step.2 == Directive::Fail(cell.failure->0)
        }),
{
}

/// The authentication of a request cannot go round in circles. Every step
/// brings the request nearer to being settled, so it is settled after three
/// steps at most. A login is asked for only in answer to the first send, and
/// a further send only in answer to the first send or to a login: no request
/// causes more than one login or more than one resend. The request is
/// settled exactly when the step returns the answer or fails.
pub proof fn lemma_handle_terminates(cell: TokenCell, state: HandleState, event: HandleEvent)
    ensures
        ({
            let next = handle_spec(cell, state, event);
            &&& state != HandleState::Done ==> steps_left(next.1) < steps_left(state)
            &&& state == HandleState::Done ==> next.1 == HandleState::Done
            &&& next.2 is Login ==> state is FirstSend && next.1 == HandleState::Refreshing
            &&& next.2 is Send ==> (state is FirstSend || state == HandleState::Refreshing)
                && next.1 is Resend
            &&& next.1 == HandleState::Done <==> next.2 is Return || next.2 is Fail
        }),
{
}

/// The error that a send without an answer is reported as.
pub fn failure_of(transient: bool) -> (error: CephRestfulClientError)
    ensures
        error == transport_error(transient),
{
    if transient {
        CephRestfulClientError::TransientNetwork
    } else {
        CephRestfulClientError::Transport
    }
}

} // verus!
