//! The reasons for which a fetch fails.

use vstd::prelude::*;

verus! {

/// Why a fetch failed.
#[derive(Debug, PartialEq, Eq)]
pub enum FetchError {
    /// The token cannot stand in an HTTP header value.
    Header,
    /// The transport failed: the client could not be built, a request could
    /// not be sent, or a response could not be read. Holds the transport's
    /// own description of the failure.
    Transport(String),
    /// A response arrived with a status code outside the success class.
    Status(u16),
    /// The response body is not UTF-8 text.
    Decode,
    /// The driver reported an event that answers nothing the fetch was
    /// waiting for.
    OutOfTurn,
}

/// A [`FetchError`] with its text as a sequence of characters.
pub enum FetchErrorView {
    Header,
    Transport(Seq<char>),
    Status(u16),
    Decode,
    OutOfTurn,
}

impl View for FetchError {
    type V = FetchErrorView;

    open spec fn view(&self) -> FetchErrorView {
        match *self {
            FetchError::Header => FetchErrorView::Header,
            FetchError::Transport(reason) => FetchErrorView::Transport(reason@),
            FetchError::Status(code) => FetchErrorView::Status(code),
            FetchError::Decode => FetchErrorView::Decode,
            FetchError::OutOfTurn => FetchErrorView::OutOfTurn,
        }
    }
}

/// What a fetch ends with: the text of the diff, or the reason it was not had.
pub open spec fn outcome_view(outcome: Result<String, FetchError>) -> Result<
    Seq<char>,
    FetchErrorView,
> {
    match outcome {
        Ok(text) => Ok(text@),
        Err(e) => Err(e@),
    }
}

/// The decimal digit for a number below ten.
pub open spec fn digit(d: nat) -> char
    recommends
        d < 10,
{
    "0123456789"@[d as int]
}

/// A number in decimal notation, without leading zeros.
pub open spec fn decimal(n: nat) -> Seq<char>
    decreases n,
{
    if n < 10 {
        seq![digit(n)]
    } else {
        decimal(n / 10) + seq![digit(n % 10)]
    }
}

/// Writes a number in decimal notation.
pub fn decimal_text(n: u16) -> (text: String)
    ensures
        text@ == decimal(n as nat),
    decreases n,
{
    proof {
        reveal_strlit("0123456789");
    }
    let last = (n % 10) as usize;
    let last_digit = "0123456789".substring_ascii(last, last + 1);
    assert(last_digit@ =~= seq![digit((n % 10) as nat)]);
    if n < 10 {
        String::from_str(last_digit)
    } else {
        let mut text = decimal_text(n / 10);
        text.append(last_digit);
        text
    }
}

/// The line that describes a failure.
pub open spec fn message_of(e: FetchErrorView) -> Seq<char> {
    match e {
        FetchErrorView::Header => "Failed to format token into header value"@,
        FetchErrorView::Transport(reason) => reason,
        FetchErrorView::Status(code) => "HTTP status "@ + decimal(code as nat),
        FetchErrorView::Decode => "error decoding response body"@,
        FetchErrorView::OutOfTurn => "event out of turn"@,
    }
}

impl FetchError {
    /// Describes the failure in one line: a fixed text for each kind, with
    /// the status code or the transport's own words where there are any.
    pub fn message(&self) -> (text: String)
        ensures
            text@ == message_of(self@),
    {
        match self {
            FetchError::Header => String::from_str("Failed to format token into header value"),
            FetchError::Transport(reason) => reason.clone(),
            FetchError::Status(code) => {
                let mut text = String::from_str("HTTP status ");
                let number = decimal_text(*code);
                text.append(number.as_str());
                text
            },
            FetchError::Decode => String::from_str("error decoding response body"),
            FetchError::OutOfTurn => String::from_str("event out of turn"),
        }
    }
}

} // verus!
