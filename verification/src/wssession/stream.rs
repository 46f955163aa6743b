use crate::error::{Error, ErrorView};
use crate::wssession::json::{parsed_json, parsed_view, Json};
use vstd::prelude::*;

verus! {

/// Where a stream is reached and under which session.
#[derive(Debug, Clone, PartialEq)]
pub struct StreamInfo {
    /// URL of the stream.
    pub url: String,
    /// Identifier of the session, as the field `sessionid` of the reply.
    pub session_id: String,
}

/// A `StreamInfo` with its texts as sequences of characters.
pub struct StreamInfoView {
    pub url: Seq<char>,
    pub session_id: Seq<char>,
}

impl View for StreamInfo {
    type V = StreamInfoView;

    open spec fn view(&self) -> StreamInfoView {
        StreamInfoView { url: self.url@, session_id: self.session_id@ }
    }
}

/// The reply of the provisioning endpoint: `{"stream": {"url": .., "sessionid": ..}}`.
#[derive(Debug, Clone, PartialEq)]
pub struct SessionResponse {
    pub stream: StreamInfo,
}

impl View for SessionResponse {
    type V = StreamInfoView;

    open spec fn view(&self) -> StreamInfoView {
        self.stream@
    }
}

/// The message for an object that lacks the member `key`.
pub open spec fn missing_field(key: Seq<char>) -> Seq<char> {
    "missing field `"@ + key + "`"@
}

/// The message for a member `key` that is no string.
pub open spec fn not_a_string(key: Seq<char>) -> Seq<char> {
    "field `"@ + key + "` is not a string"@
}

/// The string under `key` in `json`, or the message that says what is wrong
/// with that member.
pub open spec fn string_field(json: Json, key: Seq<char>) -> Result<Seq<char>, Seq<char>> {
    match json.member(key) {
        None => Err(missing_field(key)),
        Some(member) => match member.text() {
            None => Err(not_a_string(key)),
            Some(text) => Ok(text),
        },
    }
}

/// The descriptor that the object `json` holds in its members `url` and
/// `sessionid`. A fault in `url` is reported before one in `sessionid`.
pub open spec fn stream_info_of(json: Json) -> Result<StreamInfoView, Seq<char>> {
    match string_field(json, "url"@) {
        Err(message) => Err(message),
        Ok(url) => match string_field(json, "sessionid"@) {
            Err(message) => Err(message),
            Ok(session_id) => Ok(StreamInfoView { url, session_id }),
        },
    }
}

/// The descriptor that a reply `json` holds under `stream`.
pub open spec fn session_response_of(json: Json) -> Result<StreamInfoView, Seq<char>> {
    match json.member("stream"@) {
        None => Err(missing_field("stream"@)),
        Some(stream) => stream_info_of(stream),
    }
}

/// The descriptor that a parsing outcome yields: the one the document holds
/// under `stream`, or a parsing error with the parser's message or with the
/// field at fault.
pub open spec fn descriptor_of(parsed: Result<Json, Seq<char>>) -> Result<StreamInfoView, ErrorView> {
    match parsed {
        Err(message) => Err(ErrorView::JsonParsingError(message)),
        Ok(json) => match session_response_of(json) {
            Err(message) => Err(ErrorView::JsonParsingError(message)),
            Ok(info) => Ok(info),
        },
    }
}

/// A decoding outcome with its texts as sequences of characters.
pub open spec fn decoded_view(outcome: Result<SessionResponse, Error>) -> Result<
    StreamInfoView,
    ErrorView,
> {
    match outcome {
        Ok(response) => Ok(response@),
        Err(error) => Err(error@),
    }
}

/// The message that names a missing member.
fn missing_field_message(key: &str) -> (message: String)
    ensures
        message@ == missing_field(key@),
{
    let mut message = String::from_str("missing field `");
    message.append(key);
    message.append("`");
    message
}

/// Copies the string member `key` out of `json`.
fn read_string(json: &Json, key: &str) -> (outcome: Result<String, Error>)
    ensures
        match string_field(*json, key@) {
            Ok(text) => outcome matches Ok(found) && found@ == text,
            Err(message) => outcome matches Err(Error::JsonParsingError(details)) && details@
                == message,
        },
{
    match json.get(key) {
        None => Err(Error::JsonParsingError(missing_field_message(key))),
        Some(member) => match member.as_str() {
            None => {
                let mut message = String::from_str("field `");
                message.append(key);
                message.append("` is not a string");
                Err(Error::JsonParsingError(message))
            },
            Some(text) => Ok(String::from_str(text)),
        },
    }
}

impl StreamInfo {
    /// Reads a descriptor from the object that holds `url` and `sessionid`.
    /// Other members are passed over.
    pub fn from_json(json: &Json) -> (outcome: Result<StreamInfo, Error>)
        ensures
            match stream_info_of(*json) {
                Ok(info) => outcome matches Ok(found) && found@ == info,
                Err(message) => outcome matches Err(Error::JsonParsingError(details)) && details@
                    == message,
            },
    {
        let url = match read_string(json, "url") {
            Ok(url) => url,
            Err(error) => {
                return Err(error);
            },
        };
        let session_id = match read_string(json, "sessionid") {
            Ok(session_id) => session_id,
            Err(error) => {
                return Err(error);
            },
        };
        Ok(StreamInfo { url, session_id })
    }
}

impl SessionResponse {
    /// Reads the reply of the provisioning endpoint from its parsed body.
    pub fn from_json(json: &Json) -> (outcome: Result<SessionResponse, Error>)
        ensures
            decoded_view(outcome) == descriptor_of(Ok(*json)),
    {
        match json.get("stream") {
            None => Err(Error::JsonParsingError(missing_field_message("stream"))),
            Some(stream) => match StreamInfo::from_json(stream) {
                Ok(stream) => Ok(SessionResponse { stream }),
                Err(error) => Err(error),
            },
        }
    }

    /// Reads the reply from the outcome of parsing its body: a text that is no
    /// JSON is a parsing error with the parser's message.
    pub fn from_parsed(parsed: Result<Json, String>) -> (outcome: Result<SessionResponse, Error>)
        ensures
            decoded_view(outcome) == descriptor_of(parsed_view(parsed)),
    {
        match parsed {
            Err(message) => Err(Error::JsonParsingError(message)),
            Ok(json) => SessionResponse::from_json(&json),
        }
    }

    /// Parses `body` and reads the reply from it.
    pub fn from_body(body: &str) -> (outcome: Result<SessionResponse, Error>)
        ensures
            decoded_view(outcome) == descriptor_of(parsed_json(body@)),
    {
        SessionResponse::from_parsed(Json::parse(body))
    }
}

} // verus!
