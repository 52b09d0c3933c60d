use cognito_jwt::config::{config_path, load_config, ConfigError};

#[test]
fn loads_well_formed_config() {
    let cfg = load_config("{\"user_pool_id\": \"P\", \"client_id\": \"C\"}").unwrap();
    assert_eq!(cfg.user_pool_id, "P");
    assert_eq!(cfg.client_id, "C");
}

#[test]
fn rejects_missing_user_pool_id() {
    let err = load_config("{\"client_id\": \"C\"}").unwrap_err();
    assert_eq!(err, ConfigError::MissingUserPoolId);
}

#[test]
fn rejects_missing_client_id() {
    let err = load_config("{\"user_pool_id\": \"P\"}").unwrap_err();
    assert_eq!(err, ConfigError::MissingClientId);
}

#[test]
fn rejects_invalid_json() {
    let err = load_config("{not json").unwrap_err();
    assert_eq!(err, ConfigError::InvalidJson);
}

#[test]
fn rejects_non_string_member() {
    let err = load_config("{\"user_pool_id\": 7, \"client_id\": \"C\"}").unwrap_err();
    assert_eq!(err, ConfigError::MissingUserPoolId);
}

#[test]
fn rejects_empty_user_pool_id() {
    let err = load_config("{\"user_pool_id\": \"\", \"client_id\": \"C\"}").unwrap_err();
    assert_eq!(err, ConfigError::EmptyUserPoolId);
}

#[test]
fn rejects_empty_client_id() {
    let err = load_config("{\"user_pool_id\": \"P\", \"client_id\": \"\"}").unwrap_err();
    assert_eq!(err, ConfigError::EmptyClientId);
}

#[test]
fn rejects_non_object_document() {
    let err = load_config("[1, 2, 3]").unwrap_err();
    assert_eq!(err, ConfigError::MissingUserPoolId);
}

#[test]
fn accepts_extra_members() {
    let text = "{\"user_pool_id\": \"P\", \"client_id\": \"C\", \"region\": \"eu-west-1\"}";
    let cfg = load_config(text).unwrap();
    assert_eq!(cfg.user_pool_id, "P");
    assert_eq!(cfg.client_id, "C");
}

#[test]
fn joins_config_path() {
    let path = config_path("C:\\Users\\me");
    assert_eq!(path, "C:\\Users\\me\\.aws\\cognito_pool.json");
}
