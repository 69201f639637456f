use simpleshortener::structs::LogIn;
use simpleshortener::users::{bearer_token, check_password, login, password_hash, setup, to_hex, PasswordLookup};
use simpleshortener::error::WebServerError;
use simpleshortener::{randstr, AppState, DbAction, Reply};

fn credentials(password: &str) -> LogIn {
    LogIn { username: "username".to_string(), password: password.to_string() }
}

#[test]
fn hash_is_sha512_hex_of_salted_password() {
    assert_eq!(
        password_hash("salt", "pw"),
        "636948dfbe9c2686362cf0e5f7629d20d73bd7d5c7c93a14c58c65187ce9bc1f5eacd195e0fe59ba640c65af44c1e67b4c423bbf7c6122db97a38e408c6ccf88"
    );
    assert_eq!(
        password_hash("s\u{e9}l", "p\u{e4}ss"),
        "bb128288699f03edb483d9146f508c9bb84b69e25ba2340579506cd0c44a66b4594bca901d6317d54c172927842ac486d88644203ea0118eca8117d85c53f55d"
    );
}

#[test]
fn hex_is_lowercase_two_digits_per_byte() {
    assert_eq!(to_hex(&[0x00, 0x0f, 0xa0, 0xff]), "000fa0ff");
    assert_eq!(to_hex(&[]), "");
}

#[test]
fn created_account_logs_in() {
    let action = setup(&credentials("password"));
    let stored = match action {
        DbAction::InsertAccount { username, password } => {
            assert_eq!(username, "username");
            password
        },
        other => panic!("unexpected {:?}", other),
    };
    let (salt, hash) = stored.split_once('|').unwrap();
    assert_eq!(salt.len(), 64);
    assert_eq!(hash, password_hash(salt, "password"));
    assert!(check_password(&stored, "password").is_ok());
    assert!(matches!(check_password(&stored, "wrong"), Err(WebServerError::InvalidUsernameOrPassword)));

    let mut state = AppState::new(Vec::new(), true);
    match login(&mut state, &credentials("password"), PasswordLookup::Found(stored.clone())) {
        Ok(Reply::Token(token)) => {
            assert_eq!(token.len(), 64);
            assert!(simpleshortener::users::authenticate(Some(&token), &state).is_ok());
        },
        other => panic!("unexpected {:?}", other),
    }
    let e = login(&mut state, &credentials("nope"), PasswordLookup::Found(stored)).unwrap_err();
    assert_eq!(e.status_code(), 401);
    assert_eq!(e.message(), "Username or password incorrect!");
}

#[test]
fn login_failures() {
    let mut state = AppState::new(Vec::new(), true);
    assert!(matches!(
        login(&mut state, &credentials("pw"), PasswordLookup::Missing),
        Err(WebServerError::InvalidUsernameOrPassword)
    ));
    assert!(matches!(
        login(&mut state, &credentials("pw"), PasswordLookup::Failed("boom".to_string())),
        Err(WebServerError::Db(d)) if d == "boom"
    ));
    let e = login(&mut state, &credentials("pw"), PasswordLookup::Found("nosalt".to_string())).unwrap_err();
    assert!(matches!(e, WebServerError::NoSalt));
    assert_eq!(e.status_code(), 500);
    assert_eq!(e.message(), "Internal salt was not found");
}

#[test]
fn only_the_second_piece_is_the_hash() {
    let hash = password_hash("salt", "pw");
    let stored = format!("salt|{}|trailing", hash);
    assert!(check_password(&stored, "pw").is_ok());
    let stored = format!("salt||{}", hash);
    assert!(check_password(&stored, "pw").is_err());
}

#[test]
fn random_tokens() {
    let a = randstr();
    let b = randstr();
    assert_eq!(a.chars().count(), 64);
    assert!(a.chars().all(|c| c.is_ascii_alphabetic() || c == '.'));
    assert_ne!(a, b);
}

#[test]
fn bearer_tokens() {
    assert_eq!(bearer_token(Some("Bearer abc")), Some("abc".to_string()));
    assert_eq!(bearer_token(Some("Bearer ")), Some(String::new()));
    assert_eq!(bearer_token(Some("bearer abc")), None);
    assert_eq!(bearer_token(Some("Bearer")), None);
    assert_eq!(bearer_token(None), None);
}
