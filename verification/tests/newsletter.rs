use newsletter_admin::newsletter::{
    compose_email, publish_start, publish_step, FormNewsletter, PublishAction, PublishEvent, PublishState,
};
use newsletter_admin::reply::{FlashLevel, FlashMessage, Reply};
use newsletter_admin::subscriber::{confirmed_subscribers, ConfirmedSubscriber, InvalidSubscriberEmail};

fn issue() -> FormNewsletter {
    FormNewsletter {
        title: "Newsletter title".to_string(),
        text_content: "Nesletter plain text content".to_string(),
        html_content: "<h1>Newsletter html content</h1>".to_string(),
    }
}

fn published() -> PublishAction {
    PublishAction::Respond(Reply::SeeOther {
        location: "/admin/newsletters".to_string(),
        flash: Some(FlashMessage { level: FlashLevel::Info, content: "Successfully send a newsletter".to_string() }),
    })
}

/// Loads `subscribers`, then reports every delivery as done.
fn publish_all(subscribers: &Vec<Result<ConfirmedSubscriber, InvalidSubscriberEmail>>) -> Vec<PublishAction> {
    let (mut state, first) = publish_start();
    assert_eq!(first, PublishAction::LoadSubscribers);
    let mut event = PublishEvent::SubscribersLoaded;
    let mut actions = Vec::new();
    loop {
        let (next, action) = publish_step(subscribers, state, event);
        state = next;
        let done = matches!(action, PublishAction::Respond(_));
        actions.push(action);
        if done {
            assert_eq!(state, PublishState::Finished);
            return actions;
        }
        event = PublishEvent::Delivered;
    }
}

#[test]
fn newsletters_are_not_delivered_to_unconfirmed_subscribers() {
    // Only confirmed subscribers are loaded; with none, nothing is sent.
    let subscribers = confirmed_subscribers(&vec![]);
    assert_eq!(publish_all(&subscribers), vec![published()]);
}

#[test]
fn newsletters_are_delivered_to_confirmed_subscribers() {
    let subscribers = confirmed_subscribers(&vec!["ursula_le_guin@gmail.com".to_string()]);
    let actions = publish_all(&subscribers);
    assert_eq!(actions, vec![PublishAction::SendEmail { index: 0 }, published()]);
    let recipient = &subscribers[0].as_ref().unwrap().email;
    let email = compose_email(&issue(), recipient);
    assert_eq!(email.recipient, "ursula_le_guin@gmail.com");
    assert_eq!(email.subject, "Newsletter title");
    assert_eq!(email.html_body, "<h1>Newsletter html content</h1>");
    assert_eq!(email.text_body, "Nesletter plain text content");
}

#[test]
fn invalid_stored_emails_are_skipped() {
    let subscribers = confirmed_subscribers(&vec![
        "not-an-email".to_string(),
        "first@example.com".to_string(),
        "".to_string(),
        "second@example.com".to_string(),
        "@missing-user.com".to_string(),
    ]);
    let actions = publish_all(&subscribers);
    assert_eq!(
        actions,
        vec![PublishAction::SendEmail { index: 1 }, PublishAction::SendEmail { index: 3 }, published()]
    );
}

#[test]
fn a_failed_delivery_stops_publishing() {
    let subscribers = confirmed_subscribers(&vec!["a@example.com".to_string(), "b@example.com".to_string()]);
    let (state, _) = publish_start();
    let (state, action) = publish_step(&subscribers, state, PublishEvent::SubscribersLoaded);
    assert_eq!(action, PublishAction::SendEmail { index: 0 });
    let (state, action) = publish_step(&subscribers, state, PublishEvent::DeliveryFailed);
    assert_eq!(state, PublishState::Finished);
    assert_eq!(action, PublishAction::Respond(Reply::InternalError));
}

#[test]
fn unavailable_subscribers_give_a_server_error() {
    let (state, _) = publish_start();
    let (state, action) = publish_step(&vec![], state, PublishEvent::SubscribersUnavailable);
    assert_eq!(state, PublishState::Finished);
    assert_eq!(action, PublishAction::Respond(Reply::InternalError));
}

#[test]
fn out_of_order_events_send_nothing() {
    let subscribers = confirmed_subscribers(&vec!["a@example.com".to_string()]);
    let (state, action) = publish_step(&subscribers, PublishState::LoadingSubscribers, PublishEvent::Delivered);
    assert_eq!(state, PublishState::Finished);
    assert_eq!(action, PublishAction::Respond(Reply::InternalError));
    let (state, action) = publish_step(&subscribers, PublishState::Finished, PublishEvent::SubscribersLoaded);
    assert_eq!(state, PublishState::Finished);
    assert_eq!(action, PublishAction::Respond(Reply::InternalError));
}

#[test]
fn no_subscriber_after_a_failed_delivery_is_tried() {
    let subscribers = confirmed_subscribers(&vec![
        "broken".to_string(),
        "a@example.com".to_string(),
        "b@example.com".to_string(),
        "c@example.com".to_string(),
    ]);
    let (state, _) = publish_start();
    let (state, action) = publish_step(&subscribers, state, PublishEvent::SubscribersLoaded);
    assert_eq!(action, PublishAction::SendEmail { index: 1 });
    let (state, action) = publish_step(&subscribers, state, PublishEvent::Delivered);
    assert_eq!(action, PublishAction::SendEmail { index: 2 });
    let (state, action) = publish_step(&subscribers, state, PublishEvent::DeliveryFailed);
    assert_eq!(state, PublishState::Finished);
    assert_eq!(action, PublishAction::Respond(Reply::InternalError));
}
