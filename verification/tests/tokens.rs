use truelayer_rust::apis::auth::Token;

#[test]
fn token_exposes_the_wrapped_secret() {
    let token = Token::new("supersecret".to_string());
    assert_eq!(token.expose_secret(), "supersecret");
}

#[test]
fn token_is_redacted_when_printed() {
    let token = Token::new("supersecret".to_string());
    assert!(!format!("{:?}", token).contains("supersecret"));
}

#[test]
fn token_clone_guards_the_same_secret() {
    let token = Token::new("supersecret".to_string());
    let copy = token.clone();
    drop(token);
    assert_eq!(copy.expose_secret(), "supersecret");
}

#[test]
fn empty_token() {
    assert_eq!(Token::new(String::new()).expose_secret(), "");
}
