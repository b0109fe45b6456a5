//! What the program prints, and how it exits.

use crate::credentials::first_missing;
use crate::credentials::name_of;
use crate::credentials::Variable;
use crate::error::message_of;
use crate::error::outcome_view;
use crate::error::FetchError;
use crate::error::FetchErrorView;
use vstd::prelude::*;

verus! {

/// Where a line is printed.
#[derive(Clone, Copy, Debug, PartialEq, Eq, Structural)]
pub enum Stream {
    Stdout,
    Stderr,
}

/// The end of a run: one line of text, the stream it goes to, and the exit
/// code of the process. The text ends without a line break; whoever prints
/// it adds one.
#[derive(Debug, PartialEq, Eq)]
pub struct Report {
    pub stream: Stream,
    pub text: String,
    pub exit_code: u8,
}

/// A [`Report`] with its text as a sequence of characters.
pub struct ReportView {
    pub stream: Stream,
    pub text: Seq<char>,
    pub exit_code: u8,
}

impl View for Report {
    type V = ReportView;

    open spec fn view(&self) -> ReportView {
        ReportView { stream: self.stream, text: self.text@, exit_code: self.exit_code }
    }
}

/// The report on a variable that is not set: a line on standard error that
/// names the variable, and exit code 1.
pub open spec fn missing_report(variable: Variable) -> ReportView {
    ReportView {
        stream: Stream::Stderr,
        text: "Missing "@ + name_of(variable) + " environment variable"@,
        exit_code: 1,
    }
}

/// The report on a fetch. The diff goes to standard output after a banner
/// line. A failure goes to standard output too, as one line, and the exit
/// code is 0 either way.
pub open spec fn outcome_report(outcome: Result<Seq<char>, FetchErrorView>) -> ReportView {
    ReportView {
        stream: Stream::Stdout,
        text: match outcome {
            Ok(body) => "Function successful got \n"@ + body,
            Err(e) => "Error "@ + message_of(e),
        },
        exit_code: 0,
    }
}

/// Reports that a variable is not set.
pub fn missing(variable: Variable) -> (report: Report)
    ensures
        report@ == missing_report(variable),
{
    let mut text = String::from_str("Missing ");
    text.append(variable.name());
    text.append(" environment variable");
    Report { stream: Stream::Stderr, text, exit_code: 1 }
}

/// Reports how a fetch ended.
///
/// A failed fetch is reported on standard output and with exit code 0, like
/// a fetch that went well. Whether a failure should rather exit with another
/// code is an open question.
pub fn fetched(outcome: &Result<String, FetchError>) -> (report: Report)
    ensures
        report@ == outcome_report(outcome_view(*outcome)),
{
    let text = match outcome {
        Ok(body) => {
            let mut text = String::from_str("Function successful got \n");
            text.append(body.as_str());
            text
        },
        Err(e) => {
            let mut text = String::from_str("Error ");
            let message = e.message();
            text.append(message.as_str());
            text
        },
    };
    Report { stream: Stream::Stdout, text, exit_code: 0 }
}

/// With `GITEA_TOKEN` not set, the run ends with exit code 1 and the line
/// `Missing GITEA_TOKEN environment variable` on standard error, whatever
/// else is set.
pub proof fn lemma_missing_gitea_token(openrouter_token: Option<String>)
    ensures
        first_missing(None, openrouter_token) == Some(Variable::GiteaToken),
        missing_report(Variable::GiteaToken) == (ReportView {
            stream: Stream::Stderr,
            text: "Missing GITEA_TOKEN environment variable"@,
            exit_code: 1,
        }),
{
    reveal_strlit("Missing ");
    reveal_strlit("GITEA_TOKEN");
    reveal_strlit(" environment variable");
    reveal_strlit("Missing GITEA_TOKEN environment variable");
    assert("Missing "@ + "GITEA_TOKEN"@ + " environment variable"@
        =~= "Missing GITEA_TOKEN environment variable"@);
}

/// However a fetch went, its report goes to standard output and the exit
/// code is 0.
pub proof fn lemma_fetch_exits_with_zero(outcome: Result<Seq<char>, FetchErrorView>)
    ensures
        outcome_report(outcome).exit_code == 0,
        outcome_report(outcome).stream == Stream::Stdout,
{
}

} // verus!
