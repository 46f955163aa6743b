use tradier::config::Config;
use tradier::error::Error;
use tradier::wssession::clock::Timestamp;
use tradier::wssession::request::{Header, HttpResponse, ProvisioningRequest};
use tradier::wssession::session::{success_body, PendingSession, Session, SessionType};
use tradier::wssession::session_manager::SessionManager;

const SERVER_URL: &str = "http://127.0.0.1:1234";

fn create_test_config() -> Config {
    Config::new(SERVER_URL.to_string(), Some("test_token".to_string()))
}

/// Stands for the endpoint: records the request and answers it.
struct Endpoint {
    path: &'static str,
    status: u16,
    body: &'static str,
    received: Vec<ProvisioningRequest>,
}

impl Endpoint {
    fn new(path: &'static str, status: u16, body: &'static str) -> Endpoint {
        Endpoint { path, status, body, received: Vec::new() }
    }

    fn answer(&mut self, request: &ProvisioningRequest) -> Result<HttpResponse, String> {
        self.received.push(request.clone());
        if request.method == "POST" && request.url == format!("{}{}", SERVER_URL, self.path) {
            Ok(HttpResponse { status: self.status, body: self.body.to_string() })
        } else {
            Ok(HttpResponse { status: 501, body: String::new() })
        }
    }
}

/// Runs a creation from its first half to its second against `endpoint`.
fn new_with_session_manager(
    session_manager: &mut SessionManager,
    session_type: SessionType,
    config: &Config,
    endpoint: &mut Endpoint,
) -> Result<Session, Error> {
    let pending = Session::begin_creation(session_manager, session_type, config)?;
    let reply = endpoint.answer(pending.request());
    Session::complete_creation(session_manager, pending, reply)
}

fn begin(manager: &mut SessionManager, kind: SessionType) -> PendingSession {
    Session::begin_creation(manager, kind, &create_test_config()).unwrap()
}

fn answer(status: u16, body: &str) -> Result<HttpResponse, String> {
    Ok(HttpResponse { status, body: body.to_string() })
}

fn header(name: &str, value: &str) -> Header {
    Header { name: name.to_string(), value: value.to_string() }
}

const MARKET_REPLY: &str = r#"
        {
            "stream": {
                "url": "https://stream.tradier.com/v1/markets/events",
                "sessionid": "test_session_id"
            }
        }
        "#;

#[test]
fn test_account_session_creation() {
    let json_data = r#"
        {
            "stream": {
                "url": "wss://ws.tradier.com/v1/accounts/events",
                "sessionid": "c8638963-a6d4-4fb9-9bc6-e25fbd8c60c3"
            }
        }
        "#;
    let mut endpoint = Endpoint::new("/v1/accounts/events/session", 200, json_data);

    let config = create_test_config();
    let mut session_manager = SessionManager::default();
    {
        let session = new_with_session_manager(
            &mut session_manager,
            SessionType::Account,
            &config,
            &mut endpoint,
        )
        .unwrap();

        assert_eq!(session.session_type(), SessionType::Account);
        assert_eq!(session.get_websocket_url(), "wss://ws.tradier.com/v1/accounts/events");
        assert_eq!(session.get_session_id(), "c8638963-a6d4-4fb9-9bc6-e25fbd8c60c3");
    }
    assert_eq!(endpoint.received.len(), 1);
}

#[test]
fn test_market_session_creation() {
    let json_data = r#"
        {
            "stream": {
                "url": "https://stream.tradier.com/v1/markets/events",
                "sessionid": "c8638963-a6d4-4fb9-9bc6-e25fbd8c60c3"
            }
        }
        "#;
    let mut endpoint = Endpoint::new("/v1/markets/events/session", 200, json_data);

    let config = create_test_config();
    let mut session_manager = SessionManager::default();
    let session =
        new_with_session_manager(&mut session_manager, SessionType::Market, &config, &mut endpoint)
            .unwrap();

    assert_eq!(session.session_type(), SessionType::Market);
    assert_eq!(session.get_websocket_url(), "https://stream.tradier.com/v1/markets/events");
    assert_eq!(session.get_session_id(), "c8638963-a6d4-4fb9-9bc6-e25fbd8c60c3");

    assert_eq!(endpoint.received.len(), 1);
}

#[test]
fn test_multiple_session_creation() {
    let mut endpoint = Endpoint::new("/v1/markets/events/session", 200, MARKET_REPLY);

    let config = create_test_config();
    let mut session_manager = SessionManager::default();

    // Create first session
    let session1 =
        new_with_session_manager(&mut session_manager, SessionType::Market, &config, &mut endpoint)
            .unwrap();

    // Attempt to create second session immediately (should fail)
    let session2 =
        new_with_session_manager(&mut session_manager, SessionType::Market, &config, &mut endpoint);
    assert!(session2.is_err(), "Should not be able to create a second session");
    assert!(session2.unwrap_err().to_string().contains("Session already exists"));

    // Close the first session to reset the state
    session1.close(&mut session_manager);

    assert_eq!(endpoint.received.len(), 1);
}

#[test]
fn test_content_length_header() {
    let mut endpoint = Endpoint::new("/v1/markets/events/session", 200, MARKET_REPLY);

    let config = create_test_config();
    let mut session_manager = SessionManager::default();
    let session =
        new_with_session_manager(&mut session_manager, SessionType::Market, &config, &mut endpoint)
            .unwrap();

    assert_eq!(session.session_type(), SessionType::Market);
    assert_eq!(endpoint.received.len(), 1);
    assert!(endpoint.received[0].headers.contains(&header("Content-Length", "0")));
    assert_eq!(endpoint.received[0].body, "");
}

#[test]
fn test_missing_access_token_error() {
    let mut endpoint = Endpoint::new("/v1/markets/events/session", 200, MARKET_REPLY);
    let config = Config {
        base_url: SERVER_URL.to_string(),
        access_token: None, // Missing access token
    };

    let mut session_manager = SessionManager::default();
    let session_result =
        new_with_session_manager(&mut session_manager, SessionType::Market, &config, &mut endpoint);
    assert!(session_result.is_err());
    assert!(matches!(session_result.unwrap_err(), Error::MissingAccessToken));
    assert_eq!(endpoint.received.len(), 0);
}

#[test]
fn test_api_request_failure_error() {
    let mut endpoint =
        Endpoint::new("/v1/markets/events/session", 500, "Internal Server Error");

    let config = create_test_config();
    let mut session_manager = SessionManager::default();
    let session_result =
        new_with_session_manager(&mut session_manager, SessionType::Market, &config, &mut endpoint);
    assert!(session_result.is_err());
    if let Error::CreateSessionError(_, status, body) = session_result.unwrap_err() {
        assert_eq!(status, 500);
        assert_eq!(body, "Internal Server Error");
    } else {
        panic!("expected a creation error");
    }

    assert_eq!(endpoint.received.len(), 1);
}

#[test]
fn test_invalid_json_response_error() {
    let mut endpoint = Endpoint::new("/v1/markets/events/session", 200, "{ invalid json");

    let config = create_test_config();
    let mut session_manager = SessionManager::default();

    let session_result =
        new_with_session_manager(&mut session_manager, SessionType::Market, &config, &mut endpoint);
    assert!(session_result.is_err());
    assert!(matches!(session_result.unwrap_err(), Error::JsonParsingError(_)));

    assert_eq!(endpoint.received.len(), 1);
}

#[test]
fn market_request_is_stated_exactly() {
    let mut manager = SessionManager::new();
    let pending = begin(&mut manager, SessionType::Market);
    assert_eq!(pending.session_type(), SessionType::Market);
    assert_eq!(
        *pending.request(),
        ProvisioningRequest {
            method: "POST".to_string(),
            url: "http://127.0.0.1:1234/v1/markets/events/session".to_string(),
            headers: vec![
                header("Authorization", "Bearer test_token"),
                header("Accept", "application/json"),
                header("Content-Length", "0"),
            ],
            body: String::new(),
        }
    );
}

#[test]
fn account_request_goes_to_the_account_endpoint() {
    let mut manager = SessionManager::new();
    let pending = begin(&mut manager, SessionType::Account);
    assert_eq!(pending.session_type(), SessionType::Account);
    assert_eq!(pending.request().url, "http://127.0.0.1:1234/v1/accounts/events/session");
    assert_eq!(pending.request().method, "POST");
}

#[test]
fn begin_takes_the_guard() {
    let mut manager = SessionManager::new();
    let _pending = begin(&mut manager, SessionType::Market);
    assert!(manager.is_active());
}

#[test]
fn second_creation_is_refused_while_the_first_is_pending() {
    let mut manager = SessionManager::new();
    let _pending = begin(&mut manager, SessionType::Market);
    let second = Session::begin_creation(&mut manager, SessionType::Account, &create_test_config());
    assert_eq!(second.unwrap_err(), Error::SessionAlreadyExists);
    assert!(manager.is_active());
}

#[test]
fn active_guard_refuses_before_the_token_is_looked_at() {
    let mut manager = SessionManager::new();
    let _pending = begin(&mut manager, SessionType::Market);
    let config = Config::new(SERVER_URL.to_string(), None);
    let second = Session::begin_creation(&mut manager, SessionType::Market, &config);
    assert_eq!(second.unwrap_err(), Error::SessionAlreadyExists);
    assert!(manager.is_active());
}

#[test]
fn closing_a_session_admits_the_next() {
    let mut manager = SessionManager::new();
    let pending = begin(&mut manager, SessionType::Market);
    let session_a =
        Session::complete_creation(&mut manager, pending, answer(200, MARKET_REPLY)).unwrap();
    assert!(manager.is_active());

    let refused = Session::begin_creation(&mut manager, SessionType::Market, &create_test_config());
    assert_eq!(refused.unwrap_err(), Error::SessionAlreadyExists);

    session_a.close(&mut manager);
    assert!(!manager.is_active());

    let pending = begin(&mut manager, SessionType::Market);
    let session_b = Session::complete_creation(&mut manager, pending, answer(200, MARKET_REPLY));
    assert!(session_b.is_ok());
    assert!(manager.is_active());
}

#[test]
fn missing_token_leaves_the_guard_idle() {
    let mut manager = SessionManager::new();
    let config = Config::new(SERVER_URL.to_string(), None);
    let outcome = Session::begin_creation(&mut manager, SessionType::Market, &config);
    assert_eq!(outcome.unwrap_err(), Error::MissingAccessToken);
    assert!(!manager.is_active());

    let retried = Session::begin_creation(&mut manager, SessionType::Market, &create_test_config());
    assert!(retried.is_ok());
    assert!(manager.is_active());
}

#[test]
fn failure_status_leaves_the_guard_idle() {
    let mut manager = SessionManager::new();
    let pending = begin(&mut manager, SessionType::Market);
    let outcome =
        Session::complete_creation(&mut manager, pending, answer(500, "Internal Server Error"));
    assert_eq!(
        outcome.unwrap_err(),
        Error::CreateSessionError(SessionType::Market, 500, "Internal Server Error".to_string())
    );
    assert!(!manager.is_active());
}

#[test]
fn failure_status_keeps_the_kind_asked_for() {
    let mut manager = SessionManager::new();
    let pending = begin(&mut manager, SessionType::Account);
    let outcome = Session::complete_creation(&mut manager, pending, answer(404, MARKET_REPLY));
    assert_eq!(
        outcome.unwrap_err(),
        Error::CreateSessionError(SessionType::Account, 404, MARKET_REPLY.to_string())
    );
}

#[test]
fn malformed_body_leaves_the_guard_idle() {
    let mut manager = SessionManager::new();
    let pending = begin(&mut manager, SessionType::Market);
    let outcome = Session::complete_creation(&mut manager, pending, answer(200, "{ invalid json"));
    assert_eq!(
        outcome.unwrap_err(),
        Error::JsonParsingError("key must be a string at line 1 column 3".to_string())
    );
    assert!(!manager.is_active());
}

#[test]
fn body_without_a_descriptor_leaves_the_guard_idle() {
    let mut manager = SessionManager::new();
    let pending = begin(&mut manager, SessionType::Market);
    let outcome = Session::complete_creation(&mut manager, pending, answer(200, "{}"));
    assert_eq!(outcome.unwrap_err(), Error::JsonParsingError("missing field `stream`".to_string()));
    assert!(!manager.is_active());
}

#[test]
fn transport_failure_leaves_the_guard_idle() {
    let mut manager = SessionManager::new();
    let pending = begin(&mut manager, SessionType::Market);
    let outcome =
        Session::complete_creation(&mut manager, pending, Err("connection refused".to_string()));
    assert_eq!(outcome.unwrap_err(), Error::NetworkError("connection refused".to_string()));
    assert!(!manager.is_active());
}

#[test]
fn abandoned_creation_gives_the_guard_back() {
    let mut manager = SessionManager::new();
    let pending = begin(&mut manager, SessionType::Market);
    pending.abandon(&mut manager);
    assert!(!manager.is_active());
    let retried = Session::begin_creation(&mut manager, SessionType::Market, &create_test_config());
    assert!(retried.is_ok());
}

#[test]
fn status_bounds_of_success() {
    for (status, success) in [(199, false), (200, true), (204, true), (299, true), (300, false)] {
        let mut manager = SessionManager::new();
        let pending = begin(&mut manager, SessionType::Market);
        let outcome = Session::complete_creation(&mut manager, pending, answer(status, MARKET_REPLY));
        assert_eq!(outcome.is_ok(), success, "status {}", status);
        assert_eq!(manager.is_active(), success, "status {}", status);
    }
}

#[test]
fn success_body_sorts_replies() {
    assert_eq!(success_body(SessionType::Market, answer(200, "text")), Ok("text".to_string()));
    assert_eq!(
        success_body(SessionType::Account, answer(503, "down")),
        Err(Error::CreateSessionError(SessionType::Account, 503, "down".to_string()))
    );
    assert_eq!(
        success_body(SessionType::Market, Err("timed out".to_string())),
        Err(Error::NetworkError("timed out".to_string()))
    );
}

#[test]
fn session_keeps_the_moment_it_was_given() {
    let mut manager = SessionManager::new();
    let pending = begin(&mut manager, SessionType::Market);
    let now = Timestamp { secs: 1_700_000_000, nanos: 250 };
    let session =
        Session::complete_creation_at(&mut manager, pending, answer(200, MARKET_REPLY), now).unwrap();
    assert_eq!(session.created_at(), now);
    assert_eq!(session.stream_info().url, "https://stream.tradier.com/v1/markets/events");
    assert_eq!(session.stream_info().session_id, "test_session_id");
    assert_eq!(session.get_websocket_url(), "https://stream.tradier.com/v1/markets/events");
    assert_eq!(session.get_session_id(), "test_session_id");
}

#[test]
fn session_expires_once_the_timeout_is_exceeded() {
    let mut manager = SessionManager::new();
    let pending = begin(&mut manager, SessionType::Market);
    let created = Timestamp { secs: 1_700_000_000, nanos: 500 };
    let session =
        Session::complete_creation_at(&mut manager, pending, answer(200, MARKET_REPLY), created)
            .unwrap();
    assert!(!session.is_expired_at(created));
    assert!(!session.is_expired_at(Timestamp { secs: 1_700_000_299, nanos: 999_999_999 }));
    assert!(!session.is_expired_at(Timestamp { secs: 1_700_000_300, nanos: 500 }));
    assert!(session.is_expired_at(Timestamp { secs: 1_700_000_300, nanos: 501 }));
    assert!(session.is_expired_at(Timestamp { secs: 1_700_000_301, nanos: 0 }));
    assert!(session.is_expired_at(Timestamp { secs: 1_800_000_000, nanos: 0 }));
    assert!(!session.is_expired_at(Timestamp { secs: 1_600_000_000, nanos: 0 }));
    // Expiry is advice: the guard is still held.
    assert!(manager.is_active());
}

#[test]
fn new_session_is_not_expired_by_the_clock() {
    let mut manager = SessionManager::new();
    let pending = begin(&mut manager, SessionType::Market);
    let session =
        Session::complete_creation(&mut manager, pending, answer(200, MARKET_REPLY)).unwrap();
    assert!(!session.is_expired());
    assert!(session.created_at().secs > 1_600_000_000);
    assert!(!session.is_expired_at(session.created_at()));
}

#[test]
fn session_from_the_distant_past_is_expired_by_the_clock() {
    let mut manager = SessionManager::new();
    let pending = begin(&mut manager, SessionType::Market);
    let created = Timestamp { secs: 1_000_000_000, nanos: 0 };
    let session =
        Session::complete_creation_at(&mut manager, pending, answer(200, MARKET_REPLY), created)
            .unwrap();
    assert!(session.is_expired());
}

#[test]
fn session_type_names() {
    assert_eq!(SessionType::Market.to_string(), "Market");
    assert_eq!(SessionType::Account.to_string(), "Account");
    assert_eq!(SessionType::Market.endpoint_path(), "/v1/markets/events/session");
    assert_eq!(SessionType::Account.endpoint_path(), "/v1/accounts/events/session");
}
