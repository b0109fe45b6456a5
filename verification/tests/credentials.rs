use bot_rs::credentials::Credentials;
use bot_rs::credentials::Variable;

#[test]
fn load_with_both_tokens() {
    let loaded = Credentials::load(Some(String::from("g")), Some(String::from("o")));
    assert_eq!(
        loaded,
        Ok(Credentials {
            gitea_token: String::from("g"),
            openrouter_token: String::from("o"),
        })
    );
}

#[test]
fn load_without_gitea_token() {
    assert_eq!(
        Credentials::load(None, Some(String::from("o"))),
        Err(Variable::GiteaToken)
    );
}

#[test]
fn load_without_openrouter_token() {
    assert_eq!(
        Credentials::load(Some(String::from("g")), None),
        Err(Variable::OpenrouterToken)
    );
}

#[test]
fn load_without_either_names_gitea_token() {
    assert_eq!(Credentials::load(None, None), Err(Variable::GiteaToken));
}

#[test]
fn load_keeps_an_empty_token() {
    let loaded = Credentials::load(Some(String::new()), Some(String::new()));
    assert_eq!(
        loaded,
        Ok(Credentials {
            gitea_token: String::new(),
            openrouter_token: String::new(),
        })
    );
}

#[test]
fn variable_names() {
    assert_eq!(Variable::GiteaToken.name(), "GITEA_TOKEN");
    assert_eq!(Variable::OpenrouterToken.name(), "OPENROUTER_TOKEN");
}
