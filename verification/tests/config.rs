use commitaura::config::{api_key_variable, Config};
use commitaura::error::CommitauraError;

#[test]
fn missing_credential_is_fatal() {
    assert_eq!(
        Config::from_environment(None).err(),
        Some(CommitauraError::EnvVarNotSet("OPENAI_API_KEY".to_string()))
    );
    assert_eq!(api_key_variable(), "OPENAI_API_KEY");
}

#[test]
fn credential_is_taken_as_given() {
    let config = Config::from_environment(Some("SECRET-REDACTED".to_string())).unwrap();
    assert_eq!(config.api_key, "SECRET-REDACTED");
    assert_eq!(config.api_url, "https://api.openai.com/v1/");
    let config = Config::from_environment(Some(String::new())).unwrap();
    assert_eq!(config.api_key, "");
}
