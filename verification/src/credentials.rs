//! The credentials that the program is started with.

use vstd::prelude::*;

verus! {

/// An environment variable that has to be set.
#[derive(Clone, Copy, Debug, PartialEq, Eq, Structural)]
pub enum Variable {
    /// `GITEA_TOKEN`: the token that the `Authorization` header carries.
    GiteaToken,
    /// `OPENROUTER_TOKEN`: asked for, and then used for nothing.
    OpenrouterToken,
}

/// The name of a variable in the environment.
pub open spec fn name_of(variable: Variable) -> Seq<char> {
    match variable {
        Variable::GiteaToken => "GITEA_TOKEN"@,
        Variable::OpenrouterToken => "OPENROUTER_TOKEN"@,
    }
}

impl Variable {
    /// The name under which the variable is looked up.
    pub fn name(&self) -> (name: &'static str)
        ensures
            name@ == name_of(*self),
    {
        match self {
            Variable::GiteaToken => "GITEA_TOKEN",
            Variable::OpenrouterToken => "OPENROUTER_TOKEN",
        }
    }
}

/// The two tokens, both present.
#[derive(Debug, PartialEq, Eq)]
pub struct Credentials {
    pub gitea_token: String,
    pub openrouter_token: String,
}

/// The first variable that is missing, with `GITEA_TOKEN` looked at before
/// `OPENROUTER_TOKEN`.
pub open spec fn first_missing(
    gitea_token: Option<String>,
    openrouter_token: Option<String>,
) -> Option<Variable> {
    if gitea_token is None {
        Some(Variable::GiteaToken)
    } else if openrouter_token is None {
        Some(Variable::OpenrouterToken)
    } else {
        None
    }
}

impl Credentials {
    /// Takes the values that were found in the environment, `None` for a
    /// variable that is not set, and gives the credentials or the first
    /// variable that is missing.
    pub fn load(gitea_token: Option<String>, openrouter_token: Option<String>) -> (r: Result<
        Credentials,
        Variable,
    >)
        ensures
            match r {
                Ok(credentials) => {
                    &&& gitea_token == Some(credentials.gitea_token)
                    &&& openrouter_token == Some(credentials.openrouter_token)
                },
                Err(variable) => first_missing(gitea_token, openrouter_token) == Some(variable),
            },
    {
        match gitea_token {
            None => Err(Variable::GiteaToken),
            Some(gitea_token) => match openrouter_token {
                None => Err(Variable::OpenrouterToken),
                Some(openrouter_token) => Ok(Credentials { gitea_token, openrouter_token }),
            },
        }
    }
}

} // verus!
