use crate::config::Config;
use crate::constants::{ACCOUNT_SESSION_PATH, MARKET_SESSION_PATH};
use crate::error::{Error, ErrorView};
use crate::wssession::clock::{current_time, expired, Timestamp};
use crate::wssession::json::parsed_json;
use crate::wssession::request::{
    is_success_status, provisioning_request, HttpResponse, ProvisioningRequest, RequestView,
};
use crate::wssession::session_manager::SessionGuardState;
use crate::wssession::stream::{descriptor_of, StreamInfoView};
use vstd::prelude::*;

pub use crate::wssession::session_manager::SessionManager;
pub use crate::wssession::stream::{SessionResponse, StreamInfo};

verus! {

/// The kind of stream a session gives access to.
#[derive(Debug, Clone, Copy, PartialEq, Eq, Structural)]
pub enum SessionType {
    Market,
    Account,
}

impl SessionType {
    /// Path of the endpoint that issues sessions of this kind.
    pub open spec fn endpoint_path_spec(self) -> Seq<char> {
        match self {
            SessionType::Market => MARKET_SESSION_PATH@,
            SessionType::Account => ACCOUNT_SESSION_PATH@,
        }
    }

    /// The name of this kind, as shown to people.
    pub open spec fn label_spec(self) -> Seq<char> {
        match self {
            SessionType::Market => "Market"@,
            SessionType::Account => "Account"@,
        }
    }

    /// Path of the endpoint that issues sessions of this kind, to be put
    /// behind the base URL of the API.
    pub fn endpoint_path(&self) -> (path: &'static str)
        ensures
            path@ == self.endpoint_path_spec(),
    {
        match self {
            SessionType::Market => MARKET_SESSION_PATH,
            SessionType::Account => ACCOUNT_SESSION_PATH,
        }
    }

    /// The name of this kind, as shown to people.
    pub fn to_string(&self) -> (label: String)
        ensures
            label@ == self.label_spec(),
    {
        match self {
            SessionType::Market => String::from_str("Market"),
            SessionType::Account => String::from_str("Account"),
        }
    }
}

/// A live streaming session: its kind, where its stream is reached, and when
/// it was created.
///
/// A session comes out of `Session::complete_creation` only. It holds the
/// guard through which it was created until it is handed to `Session::close`
/// together with that guard.
#[derive(Debug)]
pub struct Session {
    session_type: SessionType,
    stream_info: StreamInfo,
    created_at: Timestamp,
}

/// A `Session` with its texts as sequences of characters.
pub struct SessionView {
    pub session_type: SessionType,
    pub stream: StreamInfoView,
    pub created_at: Timestamp,
}

impl View for Session {
    type V = SessionView;

    closed spec fn view(&self) -> SessionView {
        SessionView {
            session_type: self.session_type,
            stream: self.stream_info@,
            created_at: self.created_at,
        }
    }
}

/// A creation that has taken the guard and waits for the endpoint's answer.
#[derive(Debug)]
pub struct PendingSession {
    session_type: SessionType,
    request: ProvisioningRequest,
}

/// A `PendingSession` with its texts as sequences of characters.
pub struct PendingView {
    pub session_type: SessionType,
    pub request: RequestView,
}

impl View for PendingSession {
    type V = PendingView;

    closed spec fn view(&self) -> PendingView {
        PendingView { session_type: self.session_type, request: self.request@ }
    }
}

/// What came of sending a request: the answer, or the transport's message
/// where none arrived.
pub open spec fn reply_view(reply: Result<HttpResponse, String>) -> Result<
    (u16, Seq<char>),
    Seq<char>,
> {
    match reply {
        Ok(response) => Ok((response.status, response.body@)),
        Err(message) => Err(message@),
    }
}

/// The outcome of asking for a session of `kind` on a guard in `state`: an
/// active guard refuses, then a missing token fails, else a creation of that
/// kind is pending with the request to send.
pub open spec fn begin_outcome(
    state: SessionGuardState,
    base_url: Seq<char>,
    kind: SessionType,
    token: Option<Seq<char>>,
) -> Result<PendingView, ErrorView> {
    match state {
        SessionGuardState::Active => Err(ErrorView::SessionAlreadyExists),
        SessionGuardState::Idle => match token {
            None => Err(ErrorView::MissingAccessToken),
            Some(token) => Ok(
                PendingView {
                    session_type: kind,
                    request: provisioning_request(base_url, kind, token),
                },
            ),
        },
    }
}

/// The body to parse for a session of `kind`: that of an answer with a
/// success status. No answer is a network error with the transport's message;
/// another status is a creation error with the status and the body.
pub open spec fn body_to_parse(
    kind: SessionType,
    reply: Result<(u16, Seq<char>), Seq<char>>,
) -> Result<Seq<char>, ErrorView> {
    match reply {
        Err(message) => Err(ErrorView::NetworkError(message)),
        Ok((status, body)) => if is_success_status(status) {
            Ok(body)
        } else {
            Err(ErrorView::CreateSessionError(kind, status, body))
        },
    }
}

/// The session of `kind` that `reply` gives at the moment `now`, or the error
/// with which the creation fails.
pub open spec fn creation_outcome(
    kind: SessionType,
    reply: Result<(u16, Seq<char>), Seq<char>>,
    now: Timestamp,
) -> Result<SessionView, ErrorView> {
    match body_to_parse(kind, reply) {
        Err(error) => Err(error),
        Ok(body) => match descriptor_of(parsed_json(body)) {
            Err(error) => Err(error),
            Ok(stream) => Ok(SessionView { session_type: kind, stream, created_at: now }),
        },
    }
}

/// The outcome of the first half of a creation, with its texts as sequences
/// of characters.
pub open spec fn pending_view(outcome: Result<PendingSession, Error>) -> Result<
    PendingView,
    ErrorView,
> {
    match outcome {
        Ok(pending) => Ok(pending@),
        Err(error) => Err(error@),
    }
}

/// The outcome of a creation, with its texts as sequences of characters.
pub open spec fn created_view(outcome: Result<Session, Error>) -> Result<SessionView, ErrorView> {
    match outcome {
        Ok(session) => Ok(session@),
        Err(error) => Err(error@),
    }
}

/// Sorts a reply for a session of `kind` into the body to parse or the error
/// that ends the creation.
pub fn success_body(kind: SessionType, reply: Result<HttpResponse, String>) -> (outcome: Result<
    String,
    Error,
>)
    ensures
        match body_to_parse(kind, reply_view(reply)) {
            Ok(body) => outcome matches Ok(found) && found@ == body,
            Err(error) => outcome matches Err(found) && found@ == error,
        },
{
    match reply {
        Err(message) => Err(Error::NetworkError(message)),
        Ok(response) => if response.is_success() {
            Ok(response.body)
        } else {
            Err(Error::CreateSessionError(kind, response.status, response.body))
        },
    }
}

impl PendingSession {
    /// The kind of session asked for.
    pub fn session_type(&self) -> (kind: SessionType)
        ensures
            kind == self@.session_type,
    {
        self.session_type
    }

    /// The request that is to be sent.
    pub fn request(&self) -> (request: &ProvisioningRequest)
        ensures
            request@ == self@.request,
    {
        &self.request
    }

    /// Gives the guard back for a creation that will get no answer, such as
    /// one whose request was cancelled.
    pub fn abandon(self, manager: &mut SessionManager)
        ensures
            final(manager)@ is Idle,
    {
        manager.release_session();
    }
}

impl Session {
    /// The first half of a creation: takes the guard and states the request
    /// to send. Where the guard is active the creation is refused and the
    /// guard left as it is; where the configuration holds no token the guard
    /// is given back. The guard stays active only with a pending creation.
    pub fn begin_creation(
        manager: &mut SessionManager,
        session_type: SessionType,
        config: &Config,
    ) -> (outcome: Result<PendingSession, Error>)
        ensures
            pending_view(outcome) == begin_outcome(
                old(manager)@,
                config.base_url@,
                session_type,
                config.token_view(),
            ),
            outcome is Ok ==> final(manager)@ is Active,
            outcome is Err ==> final(manager)@ == old(manager)@,
    {
        match manager.acquire_session() {
            Err(error) => Err(error),
            Ok(_) => match &config.access_token {
                None => {
                    manager.release_session();
                    Err(Error::MissingAccessToken)
                },
                Some(token) => {
                    let request = ProvisioningRequest::new(
                        config.base_url.as_str(),
                        session_type,
                        token.as_str(),
                    );
                    Ok(PendingSession { session_type, request })
                },
            },
        }
    }

    /// The second half of a creation, with the moment at which the session
    /// counts as created. A reply with a success status and a descriptor in
    /// its body gives the session, and the guard stays as it is. Every other
    /// reply ends the creation with its error and gives the guard back.
    pub fn complete_creation_at(
        manager: &mut SessionManager,
        pending: PendingSession,
        reply: Result<HttpResponse, String>,
        now: Timestamp,
    ) -> (outcome: Result<Session, Error>)
        ensures
            created_view(outcome) == creation_outcome(
                pending@.session_type,
                reply_view(reply),
                now,
            ),
            outcome is Ok ==> final(manager)@ == old(manager)@,
            outcome is Err ==> final(manager)@ is Idle,
    {
        let session_type = pending.session_type;
        let decoded = match success_body(session_type, reply) {
            Err(error) => Err(error),
            Ok(body) => SessionResponse::from_body(body.as_str()),
        };
        match decoded {
            Err(error) => {
                manager.release_session();
                Err(error)
            },
            Ok(response) => Ok(
                Session { session_type, stream_info: response.stream, created_at: now },
            ),
        }
    }

    /// The second half of a creation. The session is created at the moment
    /// the clock shows once the reply has been read.
    pub fn complete_creation(
        manager: &mut SessionManager,
        pending: PendingSession,
        reply: Result<HttpResponse, String>,
    ) -> (outcome: Result<Session, Error>)
        ensures
            exists|now: Timestamp|
                created_view(outcome) == #[trigger] creation_outcome(
                    pending@.session_type,
                    reply_view(reply),
                    now,
                ),
            outcome is Ok ==> final(manager)@ == old(manager)@,
            outcome is Err ==> final(manager)@ is Idle,
    {
        let session_type = pending.session_type;
        let decoded = match success_body(session_type, reply) {
            Err(error) => Err(error),
            Ok(body) => SessionResponse::from_body(body.as_str()),
        };
        match decoded {
            Err(error) => {
                manager.release_session();
                assert(created_view(Err(error)) == creation_outcome(
                    session_type,
                    reply_view(reply),
                    Timestamp { secs: 0, nanos: 0 },
                ));
                Err(error)
            },
            Ok(response) => {
                let now = current_time();
                let session = Session { session_type, stream_info: response.stream, created_at: now };
                assert(created_view(Ok(session)) == creation_outcome(
                    session_type,
                    reply_view(reply),
                    now,
                ));
                Ok(session)
            },
        }
    }

    /// Ends the session and gives back the guard through which it was
    /// created, so that the next creation on that guard is admitted.
    pub fn close(self, manager: &mut SessionManager)
        ensures
            final(manager)@ is Idle,
    {
        manager.release_session();
    }

    /// Whether the session has outlived the timeout at the moment `now`.
    pub fn is_expired_at(&self, now: Timestamp) -> (past: bool)
        ensures
            past == expired(self@.created_at, now),
    {
        now.is_past_timeout_since(&self.created_at)
    }

    /// Whether the session has outlived the timeout at the moment the clock
    /// shows. Expiry is advice: it does not give the guard back.
    pub fn is_expired(&self) -> (past: bool)
        ensures
            exists|now: Timestamp| past == #[trigger] expired(self@.created_at, now),
    {
        let now = current_time();
        let past = self.is_expired_at(now);
        assert(past == expired(self@.created_at, now));
        past
    }

    /// The kind of stream.
    pub fn session_type(&self) -> (kind: SessionType)
        ensures
            kind == self@.session_type,
    {
        self.session_type
    }

    /// URL and session identifier of the stream.
    pub fn stream_info(&self) -> (stream: &StreamInfo)
        ensures
            stream@ == self@.stream,
    {
        &self.stream_info
    }

    /// The moment of creation.
    pub fn created_at(&self) -> (moment: Timestamp)
        ensures
            moment == self@.created_at,
    {
        self.created_at
    }

    /// The URL of the stream.
    pub fn get_websocket_url(&self) -> (url: &str)
        ensures
            url@ == self@.stream.url,
    {
        self.stream_info.url.as_str()
    }

    /// The identifier of the session.
    pub fn get_session_id(&self) -> (session_id: &str)
        ensures
            session_id@ == self@.stream.session_id,
    {
        self.stream_info.session_id.as_str()
    }
}

/// A created session shows the descriptor of the reply: its URL and its
/// session identifier are the strings that the parsed body holds as `url` and
/// `sessionid` under `stream`, and its kind is the kind asked for.
pub proof fn lemma_session_shows_reply_descriptor(
    kind: SessionType,
    reply: Result<(u16, Seq<char>), Seq<char>>,
    now: Timestamp,
)
    requires
        creation_outcome(kind, reply, now) is Ok,
    ensures
        ({
            let session = creation_outcome(kind, reply, now)->Ok_0;
            let stream = parsed_json(reply->Ok_0.1)->Ok_0.member("stream"@)->Some_0;
            &&& reply is Ok
            &&& is_success_status(reply->Ok_0.0)
            &&& parsed_json(reply->Ok_0.1) is Ok
            &&& parsed_json(reply->Ok_0.1)->Ok_0.member("stream"@) is Some
            &&& stream.member("url"@) is Some
            &&& stream.member("sessionid"@) is Some
            &&& stream.member("url"@)->Some_0.text() == Some(session.stream.url)
            &&& stream.member("sessionid"@)->Some_0.text() == Some(session.stream.session_id)
            &&& session.session_type == kind
            &&& session.created_at == now
        }),
{
}

/// A session is not expired at the moment of its creation, whatever the
/// reply it was created from.
pub proof fn lemma_created_session_is_fresh(
    kind: SessionType,
    reply: Result<(u16, Seq<char>), Seq<char>>,
    now: Timestamp,
)
    requires
        creation_outcome(kind, reply, now) is Ok,
    ensures
        !expired(creation_outcome(kind, reply, now)->Ok_0.created_at, now),
{
}

/// On an idle guard a creation with a token is admitted, so a creation that
/// follows a `close`, an `abandon` or a failed creation gets its request.
pub proof fn lemma_idle_guard_admits_creation(
    base_url: Seq<char>,
    kind: SessionType,
    token: Seq<char>,
)
    ensures
        begin_outcome(SessionGuardState::Idle, base_url, kind, Some(token)) == Ok::<
            PendingView,
            ErrorView,
        >(PendingView { session_type: kind, request: provisioning_request(base_url, kind, token) }),
{
}

/// While a session is live every creation is refused, with or without a
/// token.
pub proof fn lemma_active_guard_refuses_creation(
    base_url: Seq<char>,
    kind: SessionType,
    token: Option<Seq<char>>,
)
    ensures
        begin_outcome(SessionGuardState::Active, base_url, kind, token) == Err::<
            PendingView,
            ErrorView,
        >(ErrorView::SessionAlreadyExists),
{
}

/// A creation fails for a missing token exactly on an idle guard without a
/// token.
pub proof fn lemma_missing_token_on_idle_guard(
    state: SessionGuardState,
    base_url: Seq<char>,
    kind: SessionType,
    token: Option<Seq<char>>,
)
    ensures
        begin_outcome(state, base_url, kind, token) == Err::<PendingView, ErrorView>(
            ErrorView::MissingAccessToken,
        ) <==> state is Idle && token is None,
{
}

/// An answer with a status outside 200..=299 fails the creation with that
/// status and the body as it was received, whatever the body holds.
pub proof fn lemma_failure_status_keeps_body(
    kind: SessionType,
    status: u16,
    body: Seq<char>,
    now: Timestamp,
)
    requires
        !is_success_status(status),
    ensures
        creation_outcome(kind, Ok((status, body)), now) == Err::<SessionView, ErrorView>(
            ErrorView::CreateSessionError(kind, status, body),
        ),
{
}

/// An answer with a success status whose body is no JSON fails the creation
/// with a parsing error that carries the parser's message.
pub proof fn lemma_malformed_body_is_parsing_error(
    kind: SessionType,
    status: u16,
    body: Seq<char>,
    now: Timestamp,
)
    requires
        is_success_status(status),
    ensures
        parsed_json(body) is Err ==> creation_outcome(kind, Ok((status, body)), now) == Err::<
            SessionView,
            ErrorView,
        >(ErrorView::JsonParsingError(parsed_json(body)->Err_0)),
{
}

} // verus!
