use fatherduck::auth::FatherDuckAuthSource;
use fatherduck::config::FatherDuckConfig;
use fatherduck::error::AuthError;

fn source(username: &str, password: &str) -> FatherDuckAuthSource {
    let mut config = FatherDuckConfig::default_config();
    config.username = username.to_string();
    config.password = password.to_string();
    FatherDuckAuthSource::new(&config)
}

#[test]
fn test_md5_password() {
    let username = "fatherduck";
    let password = "fatherduck";
    let salt = vec![0, 0, 0, 0];
    let hash_password = source(username, password).get_password(Some(username)).unwrap();
    assert_eq!(hash_password.salt, salt);
    assert_eq!(hash_password.hash, "md5dfee6c201d33684e31b4add68eaca57f");
}

#[test]
fn test_get_password() {
    let result = source("fatherduck", "fatherduck").get_password(Some("fatherduck"));
    assert_eq!(result.is_ok(), true);
    assert_eq!(result.unwrap().hash.as_bytes(), "md5dfee6c201d33684e31b4add68eaca57f".as_bytes());
}

#[test]
fn test_get_password_invalid_username() {
    let result = source("fatherduck", "fatherduck").get_password(Some("other_username"));
    assert_eq!(result.is_err(), true);
    match result {
        Err(AuthError::InvalidUsername(n)) => assert_eq!(n, "other_username"),
        other => panic!("unexpected {other:?}"),
    }
}

#[test]
fn password_requires_user_name() {
    assert!(matches!(source("fatherduck", "fatherduck").get_password(None), Err(AuthError::UserNameRequired)));
}

#[test]
fn password_hash_depends_on_password() {
    let a = source("fatherduck", "fatherduck").get_password(Some("fatherduck")).unwrap();
    let b = source("fatherduck", "secret").get_password(Some("fatherduck")).unwrap();
    assert_ne!(a.hash, b.hash);
    assert!(b.hash.starts_with("md5"));
    assert_eq!(b.hash.len(), 35);
}
