use bot_rs::credentials::Variable;
use bot_rs::error::FetchError;
use bot_rs::report::fetched;
use bot_rs::report::missing;
use bot_rs::report::Report;
use bot_rs::report::Stream;

#[test]
fn missing_gitea_token_exits_with_one() {
    assert_eq!(
        missing(Variable::GiteaToken),
        Report {
            stream: Stream::Stderr,
            text: String::from("Missing GITEA_TOKEN environment variable"),
            exit_code: 1,
        }
    );
}

#[test]
fn missing_openrouter_token_exits_with_one() {
    assert_eq!(
        missing(Variable::OpenrouterToken),
        Report {
            stream: Stream::Stderr,
            text: String::from("Missing OPENROUTER_TOKEN environment variable"),
            exit_code: 1,
        }
    );
}

#[test]
fn fetched_diff_follows_the_banner() {
    assert_eq!(
        fetched(&Ok(String::from("diff-content"))),
        Report {
            stream: Stream::Stdout,
            text: String::from("Function successful got \ndiff-content"),
            exit_code: 0,
        }
    );
}

#[test]
fn fetched_empty_diff_is_the_banner_alone() {
    assert_eq!(
        fetched(&Ok(String::new())),
        Report {
            stream: Stream::Stdout,
            text: String::from("Function successful got \n"),
            exit_code: 0,
        }
    );
}

#[test]
fn failed_fetch_is_one_line_on_stdout_with_exit_code_zero() {
    assert_eq!(
        fetched(&Err(FetchError::Status(404))),
        Report {
            stream: Stream::Stdout,
            text: String::from("Error HTTP status 404"),
            exit_code: 0,
        }
    );
}

#[test]
fn failed_fetch_reports_each_kind_of_failure() {
    assert_eq!(
        fetched(&Err(FetchError::Header)).text,
        "Error Failed to format token into header value"
    );
    assert_eq!(
        fetched(&Err(FetchError::Transport(String::from("dns error")))).text,
        "Error dns error"
    );
    assert_eq!(
        fetched(&Err(FetchError::Decode)).text,
        "Error error decoding response body"
    );
    assert_eq!(
        fetched(&Err(FetchError::OutOfTurn)).text,
        "Error event out of turn"
    );
}
