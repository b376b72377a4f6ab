use cf_ddns::config::{get_env_var, Config, ConfigError, Variable};

fn some(text: &str) -> Option<String> {
    Some(text.to_string())
}

#[test]
fn load_with_all_four_values() {
    let config =
        Config::load(some("token"), some("zone"), some("example.com"), some("www, *")).unwrap();
    assert_eq!(config.api_token(), "token");
    assert_eq!(config.zone_id(), "zone");
    assert_eq!(config.base_domain(), "example.com");
    assert_eq!(config.subdomain_list(), &vec!["www".to_string(), "*".to_string()]);
}

#[test]
fn load_names_the_missing_token() {
    let result = Config::load(None, some("zone"), some("example.com"), some("www"));
    assert_eq!(result, Err(ConfigError::Missing(Variable::ApiToken)));
}

#[test]
fn load_names_the_missing_zone() {
    let result = Config::load(some("token"), None, some("example.com"), some("www"));
    assert_eq!(result, Err(ConfigError::Missing(Variable::ZoneId)));
}

#[test]
fn load_names_the_missing_domain() {
    let result = Config::load(some("token"), some("zone"), None, some("www"));
    assert_eq!(result, Err(ConfigError::Missing(Variable::Domain)));
}

#[test]
fn load_names_the_missing_names() {
    let result = Config::load(some("token"), some("zone"), some("example.com"), None);
    assert_eq!(result, Err(ConfigError::Missing(Variable::RecordsNames)));
}

#[test]
fn load_names_the_first_of_several_missing() {
    assert_eq!(Config::load(None, None, None, None), Err(ConfigError::Missing(Variable::ApiToken)));
    assert_eq!(
        Config::load(some("token"), None, None, some("www")),
        Err(ConfigError::Missing(Variable::ZoneId))
    );
}

#[test]
fn load_counts_an_empty_value_as_missing() {
    assert_eq!(
        Config::load(some("token"), some("zone"), some(""), some("www")),
        Err(ConfigError::Missing(Variable::Domain))
    );
    assert_eq!(
        Config::load(some("token"), some("zone"), some("example.com"), some("")),
        Err(ConfigError::Missing(Variable::RecordsNames))
    );
}

#[test]
fn load_keeps_empty_and_repeated_labels() {
    let config =
        Config::load(some("t"), some("z"), some("example.com"), some("www,,www, ")).unwrap();
    assert_eq!(
        config.subdomain_list(),
        &vec!["www".to_string(), String::new(), "www".to_string(), String::new()]
    );
}

#[test]
fn variable_names() {
    assert_eq!(Variable::ApiToken.name(), "CF_API_TOKEN");
    assert_eq!(Variable::ZoneId.name(), "ZONE_ID");
    assert_eq!(Variable::Domain.name(), "DOMAIN");
    assert_eq!(Variable::RecordsNames.name(), "RECORDS_NAMES");
}

#[test]
fn error_message_names_the_variable() {
    assert_eq!(
        ConfigError::Missing(Variable::ApiToken).message(),
        "Environment variable CF_API_TOKEN not found"
    );
    assert_eq!(
        ConfigError::Missing(Variable::RecordsNames).message(),
        "Environment variable RECORDS_NAMES not found"
    );
    assert_eq!(ConfigError::Missing(Variable::Domain).variable(), Variable::Domain);
}

#[test]
fn get_env_var_gives_the_value_or_the_error() {
    assert_eq!(get_env_var(Variable::ZoneId, some("abc")), Ok("abc".to_string()));
    assert_eq!(get_env_var(Variable::ZoneId, some(" ")), Ok(" ".to_string()));
    assert_eq!(get_env_var(Variable::ZoneId, None), Err(ConfigError::Missing(Variable::ZoneId)));
    assert_eq!(
        get_env_var(Variable::Domain, some("")),
        Err(ConfigError::Missing(Variable::Domain))
    );
}
