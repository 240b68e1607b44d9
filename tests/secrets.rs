use reading_list_bot::{
    EnvironmentService, SecretManager, StandardEnvironmentService, TestEnvironmentService,
    DISCORD_TOKEN_KEY,
};

#[test]
fn discord_token() {
    // arrange
    let mut environment_service = TestEnvironmentService::new();
    let token = "fhsagfbl";
    environment_service.add_var(DISCORD_TOKEN_KEY, token);

    let manager = SecretManager::new(environment_service);

    // act
    let result = manager.discord_token();

    // assert
    assert!(result.is_ok());
    assert_eq!(token, result.unwrap());
}

#[test]
fn discord_token_fail() {
    // arrange
    let service = TestEnvironmentService::new();
    let manager = SecretManager::new(service);

    // act
    let result = manager.discord_token();

    // assert
    assert!(result.is_err());
}

#[test]
fn discord_token_error_names_the_variable() {
    let manager = SecretManager::new(TestEnvironmentService::new());
    let error = manager.discord_token().unwrap_err();
    assert_eq!(error.key(), "DISCORD_TOKEN");
}

#[test]
fn discord_token_ignores_other_variables() {
    let mut service = TestEnvironmentService::new();
    service.add_var("DISCORD", "abc");
    service.add_var("discord_token", "def");
    let manager = SecretManager::new(service);
    let error = manager.discord_token().unwrap_err();
    assert_eq!(error.key(), DISCORD_TOKEN_KEY);
}

#[test]
fn discord_token_from_process_environment() {
    let service = StandardEnvironmentService::from_vars(vec![
        ("HOME".to_string(), "/root".to_string()),
        ("DISCORD_TOKEN".to_string(), "secret-value".to_string()),
    ]);
    let manager = SecretManager::new(service);
    assert_eq!(manager.discord_token().unwrap(), "secret-value");
}

#[test]
fn discord_token_missing_from_process_environment() {
    let service = StandardEnvironmentService::from_vars(vec![("HOME".to_string(), "/root".to_string())]);
    let manager = SecretManager::new(service);
    let error = manager.discord_token().unwrap_err();
    assert_eq!(error.key(), "DISCORD_TOKEN");
}
