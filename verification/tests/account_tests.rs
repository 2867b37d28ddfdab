use client::account::{
    change_password_form_fields, extract_form_token, login_form_fields, update_email_password, AccountError,
    Action, Event, Phase,
};
use client::manager::{account_env_file, apps_to_revoke, contacts_as_expected};

fn page(token: &str) -> String {
    format!(
        "<html><body><form><input type=\"text\" name=\"email\"><input type=\"hidden\" name=\"_token\" value=\"{}\"></form></body></html>",
        token
    )
}

fn fields(v: &[(&str, &str)]) -> Vec<(String, String)> {
    v.iter().map(|(a, b)| (a.to_string(), b.to_string())).collect()
}

#[test]
fn token_is_read_from_hidden_field() {
    match extract_form_token(&page("T0K")) {
        Ok(t) => assert_eq!(t, "T0K"),
        Err(e) => panic!("unexpected {:?}", e),
    }
}

#[test]
fn first_token_field_wins() {
    let html = "<input type='hidden' name='_token' value='one'><input type='hidden' name='_token' value='two'>";
    match extract_form_token(html) {
        Ok(t) => assert_eq!(t, "one"),
        Err(e) => panic!("unexpected {:?}", e),
    }
}

#[test]
fn missing_token_field_or_value() {
    assert!(matches!(extract_form_token("<p>nothing</p>"), Err(AccountError::TokenElementNotFound)));
    assert!(matches!(
        extract_form_token("<input type='hidden' name='_token'>"),
        Err(AccountError::TokenValueNotFound)
    ));
    assert!(matches!(
        extract_form_token("<input type='text' name='_token' value='x'>"),
        Err(AccountError::TokenElementNotFound)
    ));
}

#[test]
fn forms_are_in_name_order() {
    assert_eq!(
        login_form_fields("t", "a@b.c", "pw"),
        fields(&[("_token", "t"), ("email", "a@b.c"), ("password", "pw")])
    );
    assert_eq!(
        change_password_form_fields("t", "old", "new"),
        fields(&[("_token", "t"), ("current_password", "old"), ("password", "new"), ("password_confirmation", "new")])
    );
}

#[test]
fn password_change_runs_to_the_new_password() {
    let (mut change, first) = update_email_password("me@cock.li", "old");
    assert!(matches!(first, Action::Get { ref url } if url == "https://cock.li/login"));
    match change.step(Event::Page(page("L1"))) {
        Action::PostForm { url, form } => {
            assert_eq!(url, "https://cock.li/login");
            assert_eq!(form, fields(&[("_token", "L1"), ("email", "me@cock.li"), ("password", "old")]));
        }
        other => panic!("unexpected {:?}", other),
    }
    assert!(matches!(change.step(Event::Posted { status: 302, refusal: String::new() }), Action::Get { ref url } if url == "https://cock.li/user/changepass"));
    assert!(matches!(change.step(Event::Page(page("C2"))), Action::ChooseNewPassword));
    match change.step(Event::NewPassword("fresh".to_string())) {
        Action::PostForm { url, form } => {
            assert_eq!(url, "https://cock.li/user/changepass");
            assert_eq!(
                form,
                fields(&[("_token", "C2"), ("current_password", "old"), ("password", "fresh"), ("password_confirmation", "fresh")])
            );
        }
        other => panic!("unexpected {:?}", other),
    }
    match change.step(Event::Posted { status: 200, refusal: String::new() }) {
        Action::Finished(Ok(p)) => assert_eq!(p, "fresh"),
        other => panic!("unexpected {:?}", other),
    }
    assert!(matches!(change.phase(), Phase::Done));
    assert!(matches!(change.step(Event::Posted { status: 200, refusal: String::new() }), Action::Finished(Err(AccountError::UnexpectedEvent))));
    assert!(matches!(change.phase(), Phase::Done));
}

#[test]
fn refused_login_ends_the_change() {
    let (mut change, _) = update_email_password("me@cock.li", "old");
    let _ = change.step(Event::Page(page("L1")));
    let text = "HTTP status client error (403 Forbidden) for url (https://cock.li/login)";
    match change.step(Event::Posted { status: 403, refusal: text.to_string() }) {
        Action::Finished(Err(e)) => {
            assert!(matches!(e, AccountError::Status { status: 403, .. }));
            assert_eq!(e.message(), text);
        }
        other => panic!("unexpected {:?}", other),
    }
    assert!(matches!(change.phase(), Phase::Failed));
}

#[test]
fn page_without_token_ends_the_change() {
    let (mut change, _) = update_email_password("me@cock.li", "old");
    assert!(matches!(
        change.step(Event::Page("<html></html>".to_string())),
        Action::Finished(Err(AccountError::TokenElementNotFound))
    ));
    assert!(matches!(change.phase(), Phase::Failed));
}

#[test]
fn transport_failure_and_unexpected_event() {
    let (mut change, _) = update_email_password("me@cock.li", "old");
    match change.step(Event::TransportFailed("timeout".to_string())) {
        Action::Finished(Err(AccountError::Transport(m))) => assert_eq!(m, "timeout"),
        other => panic!("unexpected {:?}", other),
    }
    let (mut change, _) = update_email_password("me@cock.li", "old");
    assert!(matches!(change.step(Event::Posted { status: 200, refusal: String::new() }), Action::Finished(Err(AccountError::UnexpectedEvent))));
    assert!(matches!(change.phase(), Phase::Failed));
}

#[test]
fn failed_change_password_post() {
    let (mut change, _) = update_email_password("me@cock.li", "old");
    let _ = change.step(Event::Page(page("L1")));
    let _ = change.step(Event::Posted { status: 200, refusal: String::new() });
    let _ = change.step(Event::Page(page("C2")));
    let _ = change.step(Event::NewPassword("fresh".to_string()));
    assert!(matches!(
        change.step(Event::Posted { status: 500, refusal: String::new() }),
        Action::Finished(Err(AccountError::Status { status: 500, .. }))
    ));
}

#[test]
fn all_apps_but_the_kept_one_are_revoked() {
    let ids: Vec<String> = vec!["1", "29459355", "3"].into_iter().map(String::from).collect();
    assert_eq!(apps_to_revoke(&ids), vec![0, 2]);
    assert_eq!(apps_to_revoke(&vec![]), Vec::<usize>::new());
}

#[test]
fn contacts_check() {
    let one = vec!["me@x.y".to_string()];
    assert!(contacts_as_expected(&one, 0, "me@x.y"));
    assert!(!contacts_as_expected(&one, 1, "me@x.y"));
    assert!(!contacts_as_expected(&one, 0, "you@x.y"));
    assert!(!contacts_as_expected(&vec![], 0, "me@x.y"));
}

#[test]
fn account_env_file_layout() {
    assert_eq!(
        account_env_file("p1", "p2", "a=b; c=\"d\""),
        "USER_PASSWORD=p1\nEMAIL_PASS=p2\nAUTH_TOKENS=\"a=b; c=\\\"d\\\"\"\n"
    );
}
