use simpleshortener::admin::{add, delete, edit, generate_qr, list, panel};
use simpleshortener::app::{makeapp, Method, Route};
use simpleshortener::error::WebServerError;
use simpleshortener::files::PanelPage;
use simpleshortener::redirect_handler::{redirect, RedirectReply};
use simpleshortener::structs::{Add, Edit, LogIn, Qr};
use simpleshortener::users::{authenticate, invalidate, setup, token_gen};
use simpleshortener::{AppState, DbAction, Reply};

fn fresh_state() -> AppState {
    AppState::new(Vec::new(), false)
}

/// A state with one account set up, and the token of its session.
fn logged_in() -> (AppState, String) {
    let mut state = fresh_state();
    let action = setup(&LogIn { username: "username".to_string(), password: "password".to_string() });
    match state.commit(action, Ok(())) {
        Ok(Reply::AccountAdded(token)) => (state, token),
        other => panic!("unexpected {:?}", other),
    }
}

fn add_link(state: &mut AppState, token: &str, link: &str, destination: &str) -> Result<Reply, WebServerError> {
    let action = add(
        Add { link: link.to_string(), destination: destination.to_string() },
        Some(token),
        state,
    )?;
    state.commit(action, Ok(()))
}

#[test]
fn root() {
    let state = fresh_state();
    assert_eq!(makeapp(Method::Get, "/"), Route::Root);
    assert_eq!(simpleshortener::app::build_app(Method::Get, "/"), Route::Root);
    let reply = simpleshortener::redirect_handler::root(&state);
    assert_eq!(reply.status(), 308);
}

#[test]
fn incorrect_auth() {
    let state = fresh_state();
    assert_eq!(makeapp(Method::Put, "/simpleshortener/api/add"), Route::Add);
    assert_eq!(simpleshortener::app::build_app(Method::Put, "/simpleshortener/api/add"), Route::Add);
    let outcome = add(
        Add { link: "shorturl".to_string(), destination: "https://example.com".to_string() },
        None,
        &state,
    );
    match outcome {
        Err(e) => {
            assert!(matches!(e, WebServerError::IncorrectAuth));
            assert_eq!(e.status_code(), 401);
        },
        Ok(_) => panic!("an unauthenticated add was accepted"),
    }
}

#[test]
fn root_uses_empty_link_when_present() {
    let state = AppState::new(vec![("".to_string(), "https://example.org".to_string())], true);
    match simpleshortener::redirect_handler::root(&state) {
        RedirectReply::Permanent(to) => assert_eq!(to, "https://example.org"),
        other => panic!("unexpected {:?}", other),
    }
    match simpleshortener::redirect_handler::root(&fresh_state()) {
        RedirectReply::Permanent(to) => assert_eq!(to, "https://github.com/randomairborne/simpleshortener"),
        other => panic!("unexpected {:?}", other),
    }
}

#[test]
fn added_link_is_served_case_insensitively() {
    let (mut state, token) = logged_in();
    match add_link(&mut state, &token, "ShortURL", "https://example.com") {
        Ok(Reply::Message(m)) => assert_eq!(m, "Link added!"),
        other => panic!("unexpected {:?}", other),
    }
    assert_eq!(state.destination("/shorturl"), Some("https://example.com".to_string()));
    match redirect("/SHORTURL", &state) {
        RedirectReply::Permanent(to) => assert_eq!(to, "https://example.com"),
        other => panic!("unexpected {:?}", other),
    }
    let missing = redirect("/other", &state);
    assert!(matches!(missing, RedirectReply::NotFoundPage));
    assert_eq!(missing.status(), 200);
}

#[test]
fn link_with_slash_is_kept() {
    let (mut state, token) = logged_in();
    add_link(&mut state, &token, "/Direct", "https://example.com/d").unwrap();
    assert_eq!(state.destination("/direct"), Some("https://example.com/d".to_string()));
}

#[test]
fn reserved_name_is_refused() {
    let (state, token) = logged_in();
    let outcome = add(
        Add { link: "SimpleShortener".to_string(), destination: "x".to_string() },
        Some(&token),
        &state,
    );
    match outcome {
        Err(e) => {
            assert!(matches!(e, WebServerError::UrlDisallowed));
            assert_eq!(e.status_code(), 409);
            assert_eq!(e.message(), "URL empty or used by the system");
        },
        Ok(_) => panic!("the reserved name was accepted"),
    }
    // The check is made before the leading slash is added.
    let outcome = add(
        Add { link: "/simpleshortener".to_string(), destination: "x".to_string() },
        Some(&token),
        &state,
    );
    assert!(outcome.is_ok());
}

#[test]
fn taken_link_conflicts() {
    let (mut state, token) = logged_in();
    add_link(&mut state, &token, "a", "https://one").unwrap();
    match add_link(&mut state, &token, "/A", "https://two") {
        Err(e) => {
            assert!(matches!(e, WebServerError::UrlConflict));
            assert_eq!(e.status_code(), 409);
        },
        Ok(_) => panic!("a taken link was accepted"),
    }
    assert_eq!(state.destination("/a"), Some("https://one".to_string()));
}

#[test]
fn edit_and_delete() {
    let (mut state, token) = logged_in();
    add_link(&mut state, &token, "a", "https://one").unwrap();
    let action = edit("%2Fa", Edit { destination: "https://two".to_string() }, Some(&token), &state).unwrap();
    assert!(matches!(&action, DbAction::UpdateUrl { link, .. } if link == "/a"));
    match state.commit(action, Ok(())) {
        Ok(Reply::Message(m)) => assert_eq!(m, "Link edited!"),
        other => panic!("unexpected {:?}", other),
    }
    assert_eq!(state.destination("/a"), Some("https://two".to_string()));
    let action = delete("/a", Some(&token), &state).unwrap();
    match state.commit(action, Ok(())) {
        Ok(Reply::Message(m)) => assert_eq!(m, "Link removed!"),
        other => panic!("unexpected {:?}", other),
    }
    assert_eq!(state.destination("/a"), None);
    assert!(matches!(redirect("/a", &state), RedirectReply::NotFoundPage));
}

#[test]
fn edit_and_delete_of_missing_links() {
    let (state, token) = logged_in();
    let e = edit("/nothing", Edit { destination: "x".to_string() }, Some(&token), &state).unwrap_err();
    assert!(matches!(e, WebServerError::NotFound));
    assert_eq!(e.status_code(), 404);
    assert_eq!(e.message(), "Link not found");
    let e = delete("/nothing", Some(&token), &state).unwrap_err();
    assert!(matches!(e, WebServerError::NotFound));
    let e = delete("/a", None, &state).unwrap_err();
    assert!(matches!(e, WebServerError::IncorrectAuth));
}

#[test]
fn undecodable_link_is_an_error() {
    let (state, token) = logged_in();
    let e = delete("%FF", Some(&token), &state).unwrap_err();
    assert!(matches!(e, WebServerError::FromUtf8(_)));
    assert_eq!(e.status_code(), 500);
    assert!(e.message().starts_with("Error converting to UTF-8: "));
}

#[test]
fn failed_write_changes_nothing() {
    let (mut state, token) = logged_in();
    let action = add(
        Add { link: "a".to_string(), destination: "https://one".to_string() },
        Some(&token),
        &state,
    )
    .unwrap();
    let e = state.commit(action, Err("disk full".to_string())).unwrap_err();
    assert!(matches!(&e, WebServerError::Db(d) if d == "disk full"));
    assert_eq!(e.status_code(), 500);
    let response = e.into_response();
    assert_eq!(response.status, 500);
    assert_eq!(response.error, "Database returned an error: disk full");
    assert_eq!(state.destination("/a"), None);
}

#[test]
fn list_shows_every_link() {
    let (mut state, token) = logged_in();
    add_link(&mut state, &token, "a", "https://one").unwrap();
    add_link(&mut state, &token, "b", "https://two").unwrap();
    match list(Some(&token), &state) {
        Ok(Reply::Links(mut links)) => {
            links.sort();
            assert_eq!(
                links,
                vec![
                    ("/a".to_string(), "https://one".to_string()),
                    ("/b".to_string(), "https://two".to_string()),
                ]
            );
        },
        other => panic!("unexpected {:?}", other),
    }
    assert!(matches!(list(Some("wrong"), &state), Err(WebServerError::IncorrectAuth)));
}

#[test]
fn sessions_open_and_close() {
    let (mut state, token) = logged_in();
    assert!(authenticate(Some(&token), &state).is_ok());
    let second = token_gen(&mut state);
    assert!(authenticate(Some(&second), &state).is_ok());
    match invalidate(&mut state, &token) {
        Reply::Message(m) => assert_eq!(m, "Token invalidated!"),
        other => panic!("unexpected {:?}", other),
    }
    assert!(matches!(authenticate(Some(&token), &state), Err(WebServerError::IncorrectAuth)));
    assert!(authenticate(Some(&second), &state).is_ok());
    assert!(authenticate(None, &state).is_err());
}

#[test]
fn panel_follows_setup() {
    let state = fresh_state();
    assert_eq!(panel(&state), PanelPage::NewUser);
    let (state, _) = logged_in();
    assert!(state.is_init);
    assert_eq!(panel(&state), PanelPage::Standard);
    assert_eq!(simpleshortener::files::panel(false), PanelPage::NewUser);
}

#[test]
fn qr_code_is_a_bitmap() {
    let (state, token) = logged_in();
    let bytes = generate_qr(Qr { destination: "https://example.com".to_string() }, Some(&token), &state).unwrap();
    assert_eq!(&bytes[0..2], b"BM");
    assert!(matches!(
        generate_qr(Qr { destination: "x".to_string() }, None, &state),
        Err(WebServerError::IncorrectAuth)
    ));
}

#[test]
fn rows_build_the_table() {
    let state = AppState::new(
        vec![
            ("/a".to_string(), "1".to_string()),
            ("/b".to_string(), "2".to_string()),
            ("/a".to_string(), "3".to_string()),
        ],
        true,
    );
    assert_eq!(state.destination("/a"), Some("3".to_string()));
    assert_eq!(state.destination("/b"), Some("2".to_string()));
    assert!(state.is_init);
    assert!(authenticate(Some("anything"), &state).is_err());
}

#[test]
fn edit_and_delete_by_the_short_url_as_added() {
    let (mut state, token) = logged_in();
    add_link(&mut state, &token, "shorturl", "https://example.com").unwrap();
    let action = edit("shorturl", Edit { destination: "https://example.org".to_string() }, Some(&token), &state).unwrap();
    match state.commit(action, Ok(())) {
        Ok(Reply::Message(m)) => assert_eq!(m, "Link edited!"),
        other => panic!("unexpected {:?}", other),
    }
    assert_eq!(state.destination("/shorturl"), Some("https://example.org".to_string()));
    let action = delete("ShortURL", Some(&token), &state).unwrap();
    assert!(matches!(&action, DbAction::DeleteUrl { link } if link == "/shorturl"));
    match state.commit(action, Ok(())) {
        Ok(Reply::Message(m)) => assert_eq!(m, "Link removed!"),
        other => panic!("unexpected {:?}", other),
    }
    assert_eq!(state.destination("/shorturl"), None);
}
