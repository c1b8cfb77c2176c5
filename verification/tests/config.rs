use wsforwarder::config::{Config, MissingVariable};

fn set(value: &str) -> Option<String> {
    Some(value.to_string())
}

#[test]
fn all_three_variables_make_a_configuration() {
    let config =
        Config::from_variables(set("ws://stem"), set("0.0.0.0:80"), set("Basic x")).unwrap();
    assert_eq!(config.stem_url, set("ws://stem"));
    assert_eq!(config.vonageproxy_url, set("0.0.0.0:80"));
    assert_eq!(config.default_bauth, set("Basic x"));
    assert_eq!(config.clone(), config);
}

#[test]
fn the_first_missing_variable_is_reported() {
    assert_eq!(
        Config::from_variables(None, None, None),
        Err(MissingVariable::StemUrl)
    );
    assert_eq!(
        Config::from_variables(set("a"), None, None),
        Err(MissingVariable::VonageproxyUrl)
    );
    assert_eq!(
        Config::from_variables(set("a"), set("b"), None),
        Err(MissingVariable::DefaultBauth)
    );
    assert_eq!(
        MissingVariable::StemUrl.message(),
        "Error retreiving STEM_URL."
    );
    assert_eq!(
        MissingVariable::VonageproxyUrl.message(),
        "Error retreiving VONAGEPROXY_URL."
    );
    assert_eq!(
        MissingVariable::DefaultBauth.message(),
        "Error retreiving DEFAULT_BAUTH."
    );
}
