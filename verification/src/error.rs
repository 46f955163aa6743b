use crate::wssession::session::SessionType;
use vstd::prelude::*;

verus! {

/// Why a session could not be created.
#[derive(Debug, Clone, PartialEq)]
pub enum Error {
    /// The guard was active when a session was asked for.
    SessionAlreadyExists,
    /// The configuration holds no access token.
    MissingAccessToken,
    /// The endpoint answered with a status outside 200..=299; the kind of
    /// session asked for, the status and the body as received.
    CreateSessionError(SessionType, u16, String),
    /// The body of a successful answer holds no stream descriptor; the
    /// parser's message, or which field is at fault.
    JsonParsingError(String),
    /// The request did not get an answer; the transport's own message.
    NetworkError(String),
}

/// An `Error` with its texts as sequences of characters.
pub enum ErrorView {
    SessionAlreadyExists,
    MissingAccessToken,
    CreateSessionError(SessionType, u16, Seq<char>),
    JsonParsingError(Seq<char>),
    NetworkError(Seq<char>),
}

impl View for Error {
    type V = ErrorView;

    open spec fn view(&self) -> ErrorView {
        match self {
            Error::SessionAlreadyExists => ErrorView::SessionAlreadyExists,
            Error::MissingAccessToken => ErrorView::MissingAccessToken,
            Error::CreateSessionError(kind, status, body) => ErrorView::CreateSessionError(
                *kind,
                *status,
                body@,
            ),
            Error::JsonParsingError(details) => ErrorView::JsonParsingError(details@),
            Error::NetworkError(details) => ErrorView::NetworkError(details@),
        }
    }
}

/// The character that writes the digit `d`.
pub open spec fn digit_char(d: nat) -> char {
    if d == 0 {
        '0'
    } else if d == 1 {
        '1'
    } else if d == 2 {
        '2'
    } else if d == 3 {
        '3'
    } else if d == 4 {
        '4'
    } else if d == 5 {
        '5'
    } else if d == 6 {
        '6'
    } else if d == 7 {
        '7'
    } else if d == 8 {
        '8'
    } else {
        '9'
    }
}

/// The decimal digits of `n`, most significant first, without leading zeros.
pub open spec fn decimal(n: nat) -> Seq<char>
    decreases n,
{
    if n < 10 {
        seq![digit_char(n)]
    } else {
        decimal(n / 10).push(digit_char(n % 10))
    }
}

impl ErrorView {
    /// The sentence that describes this error.
    pub open spec fn message(self) -> Seq<char> {
        match self {
            ErrorView::SessionAlreadyExists => "Session already exists"@,
            ErrorView::MissingAccessToken => "Missing access token"@,
            ErrorView::CreateSessionError(kind, status, body) => "Failed to create "@
                + kind.label_spec() + " session: "@ + decimal(status as nat) + " - "@ + body,
            ErrorView::JsonParsingError(details) => "JSON parsing error: "@ + details,
            ErrorView::NetworkError(details) => "Network error: "@ + details,
        }
    }
}

/// The text of one digit.
fn digit_text(d: u16) -> (text: &'static str)
    requires
        d < 10,
    ensures
        text@ == seq![digit_char(d as nat)],
{
    proof {
        reveal_strlit("0");
        reveal_strlit("1");
        reveal_strlit("2");
        reveal_strlit("3");
        reveal_strlit("4");
        reveal_strlit("5");
        reveal_strlit("6");
        reveal_strlit("7");
        reveal_strlit("8");
        reveal_strlit("9");
    }
    let text = if d == 0 {
        "0"
    } else if d == 1 {
        "1"
    } else if d == 2 {
        "2"
    } else if d == 3 {
        "3"
    } else if d == 4 {
        "4"
    } else if d == 5 {
        "5"
    } else if d == 6 {
        "6"
    } else if d == 7 {
        "7"
    } else if d == 8 {
        "8"
    } else {
        "9"
    };
    assert(text@ =~= seq![digit_char(d as nat)]);
    text
}

/// Writes `n` in decimal at the end of `out`.
fn append_decimal(out: &mut String, n: u16)
    ensures
        final(out)@ == old(out)@ + decimal(n as nat),
    decreases n,
{
    if n < 10 {
        out.append(digit_text(n));
    } else {
        append_decimal(out, n / 10);
        out.append(digit_text(n % 10));
        assert(decimal(n as nat) == decimal((n / 10) as nat).push(digit_char((n % 10) as nat)));
        assert(final(out)@ =~= old(out)@ + decimal(n as nat));
    }
}

impl Error {
    /// The sentence that describes this error.
    pub fn to_string(&self) -> (message: String)
        ensures
            message@ == self@.message(),
    {
        match self {
            Error::SessionAlreadyExists => String::from_str("Session already exists"),
            Error::MissingAccessToken => String::from_str("Missing access token"),
            Error::CreateSessionError(kind, status, body) => {
                let mut message = String::from_str("Failed to create ");
                message.append(kind.to_string().as_str());
                message.append(" session: ");
                append_decimal(&mut message, *status);
                message.append(" - ");
                message.append(body.as_str());
                message
            },
            Error::JsonParsingError(details) => {
                let mut message = String::from_str("JSON parsing error: ");
                message.append(details.as_str());
                message
            },
            Error::NetworkError(details) => {
                let mut message = String::from_str("Network error: ");
                message.append(details.as_str());
                message
            },
        }
    }
}

} // verus!
