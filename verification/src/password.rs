//! Changing the admin's password (`POST /admin/password`).
//!
//! The caller performs the I/O (loading the username, checking the current
//! password, storing the new one) and reports every outcome back to
//! `change_password_step`, which decides what happens next.

use vstd::prelude::*;
use crate::reply::{FlashLevel, FlashMessage, FlashView, Reply, ReplyView, redirect_with_flash};

verus! {

/// The submitted change-password form.
#[derive(Clone, Debug, PartialEq, Eq)]
pub struct FormData {
    pub current_password: String,
    pub new_password: String,
    pub new_password_check: String,
}

/// The model of the form.
pub struct FormView {
    pub current_password: Seq<char>,
    pub new_password: Seq<char>,
    pub new_password_check: Seq<char>,
}

impl View for FormData {
    type V = FormView;

    open spec fn view(&self) -> FormView {
        FormView {
            current_password: self.current_password@,
            new_password: self.new_password@,
            new_password_check: self.new_password_check@,
        }
    }
}

/// The length of a password in bytes (UTF-8), as `str::len` counts it.
pub open spec fn byte_len(password: Seq<char>) -> nat {
    vstd::utf8::encode_utf8(password).len()
}

/// Whether the two new passwords agree.
pub open spec fn entries_match(form: FormView) -> bool {
    form.new_password == form.new_password_check
}

/// Whether the new password is long enough: at least 8 bytes.
pub open spec fn long_enough(form: FormView) -> bool {
    byte_len(form.new_password) >= 8
}

/// Where a password change stands.
#[derive(Clone, Copy, Debug, PartialEq, Eq, Structural)]
pub enum ChangePasswordState {
    /// The form has been received.
    Start,
    /// The admin's username is being loaded.
    LoadingUsername,
    /// The current password is being checked.
    CheckingCredentials,
    /// The new password is being stored.
    StoringPassword,
    /// A reply has been given; nothing more is done.
    Finished,
}

/// What the caller reports back.
#[derive(Clone, Debug, PartialEq, Eq)]
pub enum ChangePasswordEvent {
    Submitted,
    UsernameLoaded(String),
    UsernameUnavailable,
    CredentialsValid,
    CredentialsInvalid,
    CredentialsCheckFailed,
    PasswordStored,
    PasswordStoreFailed,
}

/// The model of an event.
pub enum EventView {
    Submitted,
    UsernameLoaded(Seq<char>),
    UsernameUnavailable,
    CredentialsValid,
    CredentialsInvalid,
    CredentialsCheckFailed,
    PasswordStored,
    PasswordStoreFailed,
}

impl View for ChangePasswordEvent {
    type V = EventView;

    open spec fn view(&self) -> EventView {
        match self {
            ChangePasswordEvent::Submitted => EventView::Submitted,
            ChangePasswordEvent::UsernameLoaded(u) => EventView::UsernameLoaded(u@),
            ChangePasswordEvent::UsernameUnavailable => EventView::UsernameUnavailable,
            ChangePasswordEvent::CredentialsValid => EventView::CredentialsValid,
            ChangePasswordEvent::CredentialsInvalid => EventView::CredentialsInvalid,
            ChangePasswordEvent::CredentialsCheckFailed => EventView::CredentialsCheckFailed,
            ChangePasswordEvent::PasswordStored => EventView::PasswordStored,
            ChangePasswordEvent::PasswordStoreFailed => EventView::PasswordStoreFailed,
        }
    }
}

/// What the caller is to do next.
#[derive(Clone, Debug, PartialEq, Eq)]
pub enum ChangePasswordAction {
    /// Load the username of the logged-in admin.
    LoadUsername,
    /// Check that `password` is the password of `username`.
    CheckCredentials { username: String, password: String },
    /// Store `new_password` as the admin's password.
    StorePassword { new_password: String },
    /// Answer the request.
    Respond(Reply),
}

/// The model of an action.
pub enum ActionView {
    LoadUsername,
    CheckCredentials { username: Seq<char>, password: Seq<char> },
    StorePassword { new_password: Seq<char> },
    Respond(ReplyView),
}

impl View for ChangePasswordAction {
    type V = ActionView;

    open spec fn view(&self) -> ActionView {
        match self {
            ChangePasswordAction::LoadUsername => ActionView::LoadUsername,
            ChangePasswordAction::CheckCredentials { username, password } => ActionView::CheckCredentials {
                username: username@,
                password: password@,
            },
            ChangePasswordAction::StorePassword { new_password } => ActionView::StorePassword {
                new_password: new_password@,
            },
            ChangePasswordAction::Respond(r) => ActionView::Respond(r@),
        }
    }
}

/// Back to the form, with an error message.
pub open spec fn refused(message: Seq<char>) -> ActionView {
    ActionView::Respond(redirect_with_flash("/admin/password"@, FlashLevel::Error, message))
}

/// The model of `change_password_step`. An event that does not fit the state
/// ends the request with a server error, as a failed I/O step does.
pub open spec fn change_password_transition(form: FormView, state: ChangePasswordState, event: EventView) -> (ChangePasswordState, ActionView) {
    match (state, event) {
        (ChangePasswordState::Start, EventView::Submitted) => {
            if !entries_match(form) {
                (ChangePasswordState::Finished, refused("New passwords doesn't match."@))
            } else if !long_enough(form) {
                (ChangePasswordState::Finished, refused("Password must be at least 8 characters long."@))
            } else {
                (ChangePasswordState::LoadingUsername, ActionView::LoadUsername)
            }
        },
        (ChangePasswordState::LoadingUsername, EventView::UsernameLoaded(username)) => (
            ChangePasswordState::CheckingCredentials,
            ActionView::CheckCredentials { username, password: form.current_password },
        ),
        (ChangePasswordState::CheckingCredentials, EventView::CredentialsValid) => (
            ChangePasswordState::StoringPassword,
            ActionView::StorePassword { new_password: form.new_password },
        ),
        (ChangePasswordState::CheckingCredentials, EventView::CredentialsInvalid) => (
            ChangePasswordState::Finished,
            refused("Current password is invalid."@),
        ),
        (ChangePasswordState::StoringPassword, EventView::PasswordStored) => (
            ChangePasswordState::Finished,
            ActionView::Respond(
                redirect_with_flash("/admin/password"@, FlashLevel::Info, "Password successfully changed."@),
            ),
        ),
        _ => (ChangePasswordState::Finished, ActionView::Respond(ReplyView::InternalError)),
    }
}

fn back_to_form(flash: FlashMessage) -> (r: ChangePasswordAction)
    ensures
        r@ == ActionView::Respond(ReplyView::SeeOther { location: "/admin/password"@, flash: Some(flash@) }),
{
    ChangePasswordAction::Respond(Reply::see_other("/admin/password", flash))
}

/// Decides what to do after `event`, for the submitted `form`.
pub fn change_password_step(form: &FormData, state: ChangePasswordState, event: ChangePasswordEvent) -> (r: (ChangePasswordState, ChangePasswordAction))
    ensures
        (r.0, r.1@) == change_password_transition(form@, state, event@),
{
    match (state, event) {
        (ChangePasswordState::Start, ChangePasswordEvent::Submitted) => {
            if !(form.new_password == form.new_password_check) {
                (ChangePasswordState::Finished, back_to_form(FlashMessage::error("New passwords doesn't match.")))
            } else if form.new_password.as_str().as_bytes().len() < 8 {
                (
                    ChangePasswordState::Finished,
                    back_to_form(FlashMessage::error("Password must be at least 8 characters long.")),
                )
            } else {
                (ChangePasswordState::LoadingUsername, ChangePasswordAction::LoadUsername)
            }
        },
        (ChangePasswordState::LoadingUsername, ChangePasswordEvent::UsernameLoaded(username)) => (
            ChangePasswordState::CheckingCredentials,
            ChangePasswordAction::CheckCredentials { username, password: form.current_password.clone() },
        ),
        (ChangePasswordState::CheckingCredentials, ChangePasswordEvent::CredentialsValid) => (
            ChangePasswordState::StoringPassword,
            ChangePasswordAction::StorePassword { new_password: form.new_password.clone() },
        ),
        (ChangePasswordState::CheckingCredentials, ChangePasswordEvent::CredentialsInvalid) => (
            ChangePasswordState::Finished,
            back_to_form(FlashMessage::error("Current password is invalid.")),
        ),
        (ChangePasswordState::StoringPassword, ChangePasswordEvent::PasswordStored) => (
            ChangePasswordState::Finished,
            back_to_form(FlashMessage::info("Password successfully changed.")),
        ),
        _ => (ChangePasswordState::Finished, ChangePasswordAction::Respond(Reply::InternalError)),
    }
}

/// The state after the first `k` of `events`, starting from a submitted form.
pub open spec fn state_after(form: FormView, events: Seq<EventView>, k: nat) -> ChangePasswordState
    decreases k,
{
    if k == 0 {
        ChangePasswordState::Start
    } else {
        change_password_transition(form, state_after(form, events, (k - 1) as nat), events[k - 1]).0
    }
}

/// The action asked for when `events[k]` is reported.
pub open spec fn action_at(form: FormView, events: Seq<EventView>, k: nat) -> ActionView {
    change_password_transition(form, state_after(form, events, k), events[k as int]).1
}

proof fn lemma_state_invariant(form: FormView, events: Seq<EventView>, k: nat)
    ensures
        ({
            let s = state_after(form, events, k);
            &&& (s == ChangePasswordState::LoadingUsername || s == ChangePasswordState::CheckingCredentials
                || s == ChangePasswordState::StoringPassword) ==> entries_match(form) && long_enough(form)
            &&& s == ChangePasswordState::CheckingCredentials ==> (k >= 1
                && (action_at(form, events, (k - 1) as nat) matches ActionView::CheckCredentials { password, .. }
                && password == form.current_password))
        }),
    decreases k,
{
    if k > 0 {
        lemma_state_invariant(form, events, (k - 1) as nat);
    }
}

/// Law: the new password is stored only when the two new entries match, the
/// new password is at least 8 bytes long, and the current password was
/// checked just before (with the password entered as the current one) and
/// found valid; and what is stored is the new password entered.
pub proof fn law_password_stored_only_after_all_checks(form: FormView, events: Seq<EventView>, k: nat)
    ensures
        action_at(form, events, k) matches ActionView::StorePassword { new_password } ==> {
            &&& new_password == form.new_password
            &&& entries_match(form)
            &&& long_enough(form)
            &&& events[k as int] == EventView::CredentialsValid
            &&& k >= 1
            &&& action_at(form, events, (k - 1) as nat) matches ActionView::CheckCredentials { password, .. }
            &&& password == form.current_password
        },
{
    lemma_state_invariant(form, events, k);
}

/// Law: every answer of the password change is either a redirect back to the
/// change-password form or a server error; once it has answered, the workflow
/// is finished, and a finished workflow does nothing more.
pub proof fn law_password_change_answers_with_form_or_error(form: FormView, state: ChangePasswordState, event: EventView)
    ensures
        ({
            let (next, action) = change_password_transition(form, state, event);
            &&& action matches ActionView::Respond(reply) ==> (reply == ReplyView::InternalError
                || (reply matches ReplyView::SeeOther { location, .. } && location == "/admin/password"@))
            &&& (action is Respond <==> next == ChangePasswordState::Finished)
            &&& state == ChangePasswordState::Finished ==> action == ActionView::Respond(ReplyView::InternalError)
        }),
{
}

/// Law: the model of the form holds the form's three entries.
pub proof fn law_form_view_is_the_entries(form: FormData)
    ensures
        form@.current_password == form.current_password@,
        form@.new_password == form.new_password@,
        form@.new_password_check == form.new_password_check@,
{
}

/// Law: on a submitted form, the first step refuses exactly the forms whose
/// two new entries differ (with "New passwords doesn't match.") and, among
/// the others, exactly those whose new password is under 8 bytes in UTF-8
/// (with "Password must be at least 8 characters long."), in both cases
/// redirecting to the form; every other form goes on to load the username.
pub proof fn law_submitted_form_is_refused_only_when_invalid(form: FormView)
    ensures
        change_password_transition(form, ChangePasswordState::Start, EventView::Submitted) == (
        if form.new_password != form.new_password_check {
            (ChangePasswordState::Finished, ActionView::Respond(ReplyView::SeeOther {
                location: "/admin/password"@,
                flash: Some(FlashView { level: FlashLevel::Error, content: "New passwords doesn't match."@ }),
            }))
        } else if vstd::utf8::encode_utf8(form.new_password).len() < 8 {
            (ChangePasswordState::Finished, ActionView::Respond(ReplyView::SeeOther {
                location: "/admin/password"@,
                flash: Some(FlashView {
                    level: FlashLevel::Error,
                    content: "Password must be at least 8 characters long."@,
                }),
            }))
        } else {
            (ChangePasswordState::LoadingUsername, ActionView::LoadUsername)
        }),
{
}

/// Law: for a form whose new entries agree and are at least 8 bytes long,
/// the workflow asks, in turn, to load the username, to check the entered
/// current password for that username, and (when it is valid) to store the
/// entered new password; once stored it redirects to the form with
/// "Password successfully changed.". When the current password is invalid it
/// redirects to the form with "Current password is invalid." instead.
pub proof fn law_valid_form_leads_to_check_and_store(form: FormView, username: Seq<char>)
    requires
        form.new_password == form.new_password_check,
        vstd::utf8::encode_utf8(form.new_password).len() >= 8,
    ensures
        ({
            let (s1, a1) = change_password_transition(form, ChangePasswordState::Start, EventView::Submitted);
            let (s2, a2) = change_password_transition(form, s1, EventView::UsernameLoaded(username));
            let (s3, a3) = change_password_transition(form, s2, EventView::CredentialsValid);
            let (s4, a4) = change_password_transition(form, s3, EventView::PasswordStored);
            let (s3x, a3x) = change_password_transition(form, s2, EventView::CredentialsInvalid);
            &&& a1 == ActionView::LoadUsername
            &&& a2 == ActionView::CheckCredentials { username, password: form.current_password }
            &&& a3 == ActionView::StorePassword { new_password: form.new_password }
            &&& s4 == ChangePasswordState::Finished
            &&& a4 == ActionView::Respond(ReplyView::SeeOther {
                location: "/admin/password"@,
                flash: Some(FlashView { level: FlashLevel::Info, content: "Password successfully changed."@ }),
            })
            &&& s3x == ChangePasswordState::Finished
            &&& a3x == ActionView::Respond(ReplyView::SeeOther {
                location: "/admin/password"@,
                flash: Some(FlashView { level: FlashLevel::Error, content: "Current password is invalid."@ }),
            })
        }),
{
}

/// Law: the models of events and actions keep their kind and their texts.
pub proof fn law_event_and_action_views_keep_everything(event: ChangePasswordEvent, action: ChangePasswordAction)
    ensures
        (event matches ChangePasswordEvent::UsernameLoaded(u) ==> event@ == EventView::UsernameLoaded(u@)),
        ((event is Submitted) <==> (event@ is Submitted)),
        ((event is CredentialsValid) <==> (event@ is CredentialsValid)),
        ((event is CredentialsInvalid) <==> (event@ is CredentialsInvalid)),
        ((event is PasswordStored) <==> (event@ is PasswordStored)),
        ((action is LoadUsername) <==> (action@ is LoadUsername)),
        (action matches ChangePasswordAction::CheckCredentials { username, password } ==> action@
            == (ActionView::CheckCredentials { username: username@, password: password@ })),
        (action matches ChangePasswordAction::StorePassword { new_password } ==> action@
            == (ActionView::StorePassword { new_password: new_password@ })),
        (action matches ChangePasswordAction::Respond(r) ==> action@ == ActionView::Respond(r@)),
{
}

} // verus!
