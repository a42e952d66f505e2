use newsletter_admin::password::{
    change_password_step, ChangePasswordAction, ChangePasswordEvent, ChangePasswordState, FormData,
};
use newsletter_admin::reply::{FlashLevel, FlashMessage, Reply};

fn form(current: &str, new: &str, check: &str) -> FormData {
    FormData {
        current_password: current.to_string(),
        new_password: new.to_string(),
        new_password_check: check.to_string(),
    }
}

fn back_to_form(level: FlashLevel, content: &str) -> ChangePasswordAction {
    ChangePasswordAction::Respond(Reply::SeeOther {
        location: "/admin/password".to_string(),
        flash: Some(FlashMessage { level, content: content.to_string() }),
    })
}

/// Runs the workflow, answering each request for I/O with the next event.
fn run(form: &FormData, events: Vec<ChangePasswordEvent>) -> (ChangePasswordState, Vec<ChangePasswordAction>) {
    let mut state = ChangePasswordState::Start;
    let mut actions = Vec::new();
    for event in events {
        let (next, action) = change_password_step(form, state, event);
        state = next;
        actions.push(action);
    }
    (state, actions)
}

#[test]
fn new_password_fields_must_match() {
    let form = form("password", "new-password-one", "another-new-password");
    let (state, actions) = run(&form, vec![ChangePasswordEvent::Submitted]);
    assert_eq!(state, ChangePasswordState::Finished);
    assert_eq!(actions, vec![back_to_form(FlashLevel::Error, "New passwords doesn't match.")]);
}

#[test]
fn current_password_must_be_valid() {
    let form = form("wrong-password", "new-password", "new-password");
    let (state, actions) = run(
        &form,
        vec![
            ChangePasswordEvent::Submitted,
            ChangePasswordEvent::UsernameLoaded("username".to_string()),
            ChangePasswordEvent::CredentialsInvalid,
        ],
    );
    assert_eq!(state, ChangePasswordState::Finished);
    assert_eq!(
        actions,
        vec![
            ChangePasswordAction::LoadUsername,
            ChangePasswordAction::CheckCredentials {
                username: "username".to_string(),
                password: "wrong-password".to_string(),
            },
            back_to_form(FlashLevel::Error, "Current password is invalid."),
        ]
    );
}

#[test]
fn new_password_is_too_short() {
    let form = form("password", "short", "short");
    let (state, actions) = run(&form, vec![ChangePasswordEvent::Submitted]);
    assert_eq!(state, ChangePasswordState::Finished);
    assert_eq!(actions, vec![back_to_form(FlashLevel::Error, "Password must be at least 8 characters long.")]);
}

#[test]
fn changing_password_works() {
    let form = form("password", "brand-new-password", "brand-new-password");
    let (state, actions) = run(
        &form,
        vec![
            ChangePasswordEvent::Submitted,
            ChangePasswordEvent::UsernameLoaded("username".to_string()),
            ChangePasswordEvent::CredentialsValid,
            ChangePasswordEvent::PasswordStored,
        ],
    );
    assert_eq!(state, ChangePasswordState::Finished);
    assert_eq!(
        actions,
        vec![
            ChangePasswordAction::LoadUsername,
            ChangePasswordAction::CheckCredentials {
                username: "username".to_string(),
                password: "password".to_string(),
            },
            ChangePasswordAction::StorePassword { new_password: "brand-new-password".to_string() },
            back_to_form(FlashLevel::Info, "Password successfully changed."),
        ]
    );
}

#[test]
fn length_is_counted_in_bytes() {
    // Four two-byte characters: 8 bytes, long enough.
    let long = form("password", "éééé", "éééé");
    let (state, actions) = run(&long, vec![ChangePasswordEvent::Submitted]);
    assert_eq!(state, ChangePasswordState::LoadingUsername);
    assert_eq!(actions, vec![ChangePasswordAction::LoadUsername]);
    // Three two-byte characters: 6 bytes, too short.
    let short = form("password", "ééé", "ééé");
    let (_, actions) = run(&short, vec![ChangePasswordEvent::Submitted]);
    assert_eq!(actions, vec![back_to_form(FlashLevel::Error, "Password must be at least 8 characters long.")]);
}

#[test]
fn exactly_eight_bytes_is_long_enough() {
    let form = form("password", "12345678", "12345678");
    let (state, _) = run(&form, vec![ChangePasswordEvent::Submitted]);
    assert_eq!(state, ChangePasswordState::LoadingUsername);
    let form7 = form_seven();
    let (state, _) = run(&form7, vec![ChangePasswordEvent::Submitted]);
    assert_eq!(state, ChangePasswordState::Finished);
}

fn form_seven() -> FormData {
    form("password", "1234567", "1234567")
}

#[test]
fn mismatch_is_reported_before_length() {
    let form = form("password", "a", "b");
    let (_, actions) = run(&form, vec![ChangePasswordEvent::Submitted]);
    assert_eq!(actions, vec![back_to_form(FlashLevel::Error, "New passwords doesn't match.")]);
}

#[test]
fn failed_io_steps_give_a_server_error() {
    let form = form("password", "brand-new-password", "brand-new-password");
    for failure in [
        vec![ChangePasswordEvent::Submitted, ChangePasswordEvent::UsernameUnavailable],
        vec![
            ChangePasswordEvent::Submitted,
            ChangePasswordEvent::UsernameLoaded("u".to_string()),
            ChangePasswordEvent::CredentialsCheckFailed,
        ],
        vec![
            ChangePasswordEvent::Submitted,
            ChangePasswordEvent::UsernameLoaded("u".to_string()),
            ChangePasswordEvent::CredentialsValid,
            ChangePasswordEvent::PasswordStoreFailed,
        ],
    ] {
        let (state, actions) = run(&form, failure);
        assert_eq!(state, ChangePasswordState::Finished);
        assert_eq!(actions.last(), Some(&ChangePasswordAction::Respond(Reply::InternalError)));
        assert!(!actions.iter().any(|a| matches!(a, ChangePasswordAction::Respond(Reply::SeeOther { .. }))));
    }
}

#[test]
fn out_of_order_events_store_nothing() {
    let form = form("password", "brand-new-password", "brand-new-password");
    // Reporting a valid check without having asked for one never stores the password.
    let (state, actions) = run(&form, vec![ChangePasswordEvent::CredentialsValid]);
    assert_eq!(state, ChangePasswordState::Finished);
    assert_eq!(actions, vec![ChangePasswordAction::Respond(Reply::InternalError)]);
    // A finished workflow stays finished.
    let (next, action) = change_password_step(&form, ChangePasswordState::Finished, ChangePasswordEvent::Submitted);
    assert_eq!(next, ChangePasswordState::Finished);
    assert_eq!(action, ChangePasswordAction::Respond(Reply::InternalError));
}
