use cognito_jwt::auth::{
    build_auth_request, id_token_of, token_output, AuthFailureKind, AuthOutcome, AuthTokens,
};
use cognito_jwt::config::load_config;
use cognito_jwt::credentials::{needs_prompt, resolve_password, resolve_username, Credentials};

#[test]
fn admin_auth_success_prints_token() {
    let text = "{\"user_pool_id\":\"us-east-1_ABC\",\"client_id\":\"xyz123\"}";
    let config = load_config(text).unwrap();
    assert_eq!(config.user_pool_id, "us-east-1_ABC");
    assert_eq!(config.client_id, "xyz123");

    // both flags were given, so no prompt is needed and none is consulted
    assert!(!needs_prompt(&"alice".to_string()));
    assert!(!needs_prompt(&"secret".to_string()));
    let username = resolve_username("alice".to_string(), None).unwrap();
    let password = resolve_password("secret".to_string(), None).unwrap();
    let creds = Credentials { username, password };

    let request = build_auth_request(&config, &creds);
    assert_eq!(request.user_pool_id, "us-east-1_ABC");
    assert_eq!(request.client_id, "xyz123");

    // the provider's answer, as the caller would map a success response
    let outcome = AuthOutcome::Success {
        authentication_result: Some(AuthTokens { id_token: Some("abc.def.ghi".to_string()) }),
    };
    let token = id_token_of(outcome).unwrap();
    let output = token_output(&token);
    assert!(output.contains("JWT:\nabc.def.ghi"));
}

#[test]
fn admin_auth_failure_prints_no_token() {
    let text = "{\"user_pool_id\":\"us-east-1_ABC\",\"client_id\":\"xyz123\"}";
    let config = load_config(text).unwrap();
    let creds = Credentials {
        username: resolve_username("alice".to_string(), None).unwrap(),
        password: resolve_password("secret".to_string(), None).unwrap(),
    };
    let request = build_auth_request(&config, &creds);
    assert_eq!(request.parameters.len(), 2);

    // the provider's answer, as the caller would map an authentication failure
    let outcome = AuthOutcome::Failure {
        kind: AuthFailureKind::NotAuthorized,
        message: "Incorrect username or password.".to_string(),
    };
    let result = id_token_of(outcome);
    // no token, so the caller prints no JWT line and exits non-zero
    assert!(result.is_err());
}
