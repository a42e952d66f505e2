//! Publishing a newsletter issue (`POST /admin/newsletters`).
//!
//! The caller performs the I/O: it loads the confirmed subscribers, sends
//! each e-mail, and reports every outcome back to `publish_step`, which
//! decides what happens next. Subscribers whose stored address is invalid are
//! skipped; the first failed delivery ends the request with a server error.

use vstd::prelude::*;
use crate::reply::{FlashLevel, FlashMessage, FlashView, Reply, ReplyView, redirect_with_flash};
use crate::subscriber::{ConfirmedSubscriber, InvalidSubscriberEmail, SubscriberEmail};

verus! {

/// The submitted newsletter issue.
#[derive(Clone, Debug, PartialEq, Eq)]
pub struct FormNewsletter {
    pub title: String,
    pub text_content: String,
    pub html_content: String,
}

/// One e-mail of an issue, as handed to the e-mail client.
#[derive(Clone, Debug, PartialEq, Eq)]
pub struct NewsletterEmail {
    pub recipient: String,
    pub subject: String,
    pub html_body: String,
    pub text_body: String,
}

/// The e-mail of `issue` for `recipient`: the title is the subject, and the
/// HTML and plain-text contents are the two bodies.
pub fn compose_email(issue: &FormNewsletter, recipient: &SubscriberEmail) -> (email: NewsletterEmail)
    ensures
        email.recipient@ == recipient@,
        email.subject@ == issue.title@,
        email.html_body@ == issue.html_content@,
        email.text_body@ == issue.text_content@,
{
    NewsletterEmail {
        recipient: recipient.as_str().to_owned(),
        subject: issue.title.clone(),
        html_body: issue.html_content.clone(),
        text_body: issue.text_content.clone(),
    }
}

/// Where the publishing of an issue stands.
#[derive(Clone, Copy, Debug, PartialEq, Eq, Structural)]
pub enum PublishState {
    /// The confirmed subscribers are being loaded.
    LoadingSubscribers,
    /// The issue is being sent to the subscriber at `index`.
    AwaitingDelivery { index: usize },
    /// A reply has been given; nothing more is done.
    Finished,
}

/// What the caller reports back.
#[derive(Clone, Copy, Debug, PartialEq, Eq, Structural)]
pub enum PublishEvent {
    SubscribersLoaded,
    SubscribersUnavailable,
    Delivered,
    DeliveryFailed,
}

/// What the caller is to do next.
#[derive(Clone, Debug, PartialEq, Eq)]
pub enum PublishAction {
    /// Load the confirmed subscribers.
    LoadSubscribers,
    /// Send the issue to the subscriber at `index` of the loaded list.
    SendEmail { index: usize },
    /// Answer the request.
    Respond(Reply),
}

/// The model of an action.
pub enum PublishActionView {
    LoadSubscribers,
    SendEmail { index: int },
    Respond(ReplyView),
}

impl View for PublishAction {
    type V = PublishActionView;

    open spec fn view(&self) -> PublishActionView {
        match self {
            PublishAction::LoadSubscribers => PublishActionView::LoadSubscribers,
            PublishAction::SendEmail { index } => PublishActionView::SendEmail { index: *index as int },
            PublishAction::Respond(r) => PublishActionView::Respond(r@),
        }
    }
}

/// Which subscribers of the loaded list can be sent to.
pub open spec fn deliverable(subscribers: Seq<Result<ConfirmedSubscriber, InvalidSubscriberEmail>>) -> Seq<bool> {
    subscribers.map_values(|s: Result<ConfirmedSubscriber, InvalidSubscriberEmail>| s is Ok)
}

/// The first position at or after `from` that can be sent to.
pub open spec fn next_deliverable(valid: Seq<bool>, from: int) -> Option<int>
    decreases valid.len() - from,
{
    if from < 0 || from >= valid.len() {
        None
    } else if valid[from] {
        Some(from)
    } else {
        next_deliverable(valid, from + 1)
    }
}

/// The reply once the issue went to every valid subscriber.
pub open spec fn published_reply() -> ReplyView {
    redirect_with_flash("/admin/newsletters"@, FlashLevel::Info, "Successfully send a newsletter"@)
}

/// Carry on from position `from`: send to the next valid subscriber, or,
/// when there is none, answer with the success redirect.
pub open spec fn deliver_from(valid: Seq<bool>, from: int) -> (PublishState, PublishActionView) {
    match next_deliverable(valid, from) {
        Some(j) => (PublishState::AwaitingDelivery { index: j as usize }, PublishActionView::SendEmail { index: j }),
        None => (PublishState::Finished, PublishActionView::Respond(published_reply())),
    }
}

/// The model of `publish_step`. An event that does not fit the state ends the
/// request with a server error, as a failed load or delivery does.
pub open spec fn publish_transition(valid: Seq<bool>, state: PublishState, event: PublishEvent) -> (PublishState, PublishActionView) {
    match (state, event) {
        (PublishState::LoadingSubscribers, PublishEvent::SubscribersLoaded) => deliver_from(valid, 0),
        (PublishState::AwaitingDelivery { index }, PublishEvent::Delivered) => deliver_from(valid, index + 1),
        _ => (PublishState::Finished, PublishActionView::Respond(ReplyView::InternalError)),
    }
}

/// Where publishing starts: load the confirmed subscribers.
pub fn publish_start() -> (r: (PublishState, PublishAction))
    ensures
        r.0 == PublishState::LoadingSubscribers,
        r.1@ == PublishActionView::LoadSubscribers,
{
    (PublishState::LoadingSubscribers, PublishAction::LoadSubscribers)
}

/// The first position at or after `from` whose subscriber can be sent to.
fn find_deliverable(subscribers: &Vec<Result<ConfirmedSubscriber, InvalidSubscriberEmail>>, from: usize) -> (r: Option<usize>)
    ensures
        match r {
            Some(j) => next_deliverable(deliverable(subscribers@), from as int) == Some(j as int),
            None => next_deliverable(deliverable(subscribers@), from as int) is None,
        },
{
    let ghost valid = deliverable(subscribers@);
    let n = subscribers.len();
    let mut k = from;
    while k < n
        invariant
            n == subscribers@.len(),
            valid == deliverable(subscribers@),
            from <= k,
            next_deliverable(valid, from as int) == next_deliverable(valid, k as int),
        decreases n - k,
    {
        if subscribers[k].is_ok() {
            return Some(k);
        }
        k = k + 1;
    }
    None
}

/// Decides what to do after `event`, given the loaded `subscribers` (an empty
/// list while they are still being loaded).
pub fn publish_step(
    subscribers: &Vec<Result<ConfirmedSubscriber, InvalidSubscriberEmail>>,
    state: PublishState,
    event: PublishEvent,
) -> (r: (PublishState, PublishAction))
    ensures
        (r.0, r.1@) == publish_transition(deliverable(subscribers@), state, event),
        r.1 matches PublishAction::SendEmail { index } ==> index < subscribers@.len() && subscribers@[index as int] is Ok,
{
    let from = match (state, event) {
        (PublishState::LoadingSubscribers, PublishEvent::SubscribersLoaded) => Some(0),
        (PublishState::AwaitingDelivery { index }, PublishEvent::Delivered) => {
            if index < subscribers.len() {
                Some(index + 1)
            } else {
                None
            }
        },
        _ => {
            return (PublishState::Finished, PublishAction::Respond(Reply::InternalError));
        },
    };
    let next = match from {
        Some(k) => find_deliverable(subscribers, k),
        None => None,
    };
    match next {
        Some(j) => {
            proof {
                lemma_next_deliverable_bounds(deliverable(subscribers@), from.unwrap() as int);
            }
            (PublishState::AwaitingDelivery { index: j }, PublishAction::SendEmail { index: j })
        },
        None => {
            let flash = FlashMessage::info("Successfully send a newsletter");
            (PublishState::Finished, PublishAction::Respond(Reply::see_other("/admin/newsletters", flash)))
        },
    }
}

/// What `next_deliverable` finds is a valid position at or after `from`,
/// and every position between `from` and it is invalid.
pub proof fn lemma_next_deliverable_bounds(valid: Seq<bool>, from: int)
    ensures
        next_deliverable(valid, from) matches Some(j) ==> from <= j < valid.len() && valid[j]
            && forall|i: int| from <= i < j ==> !valid[i],
        next_deliverable(valid, from) is None ==> forall|i: int| 0 <= from <= i < valid.len() ==> !valid[i],
    decreases valid.len() - from,
{
    if from >= 0 && from < valid.len() && !valid[from] {
        lemma_next_deliverable_bounds(valid, from + 1);
    }
}

/// The state reached, and the actions asked for, when `events` are reported
/// one after the other starting in `state`.
pub open spec fn publish_run(valid: Seq<bool>, state: PublishState, events: Seq<PublishEvent>) -> (PublishState, Seq<PublishActionView>)
    decreases events.len(),
{
    if events.len() == 0 {
        (state, Seq::empty())
    } else {
        let (next, action) = publish_transition(valid, state, events[0]);
        let (last, rest) = publish_run(valid, next, events.drop_first());
        (last, seq![action] + rest)
    }
}

/// The positions, from `from` on and in increasing order, of the subscribers
/// that can be sent to.
pub open spec fn valid_positions(valid: Seq<bool>, from: int) -> Seq<int>
    decreases valid.len() - from,
{
    if from < 0 || from >= valid.len() {
        Seq::empty()
    } else if valid[from] {
        seq![from] + valid_positions(valid, from + 1)
    } else {
        valid_positions(valid, from + 1)
    }
}

/// `n` successful deliveries in a row.
pub open spec fn deliveries(n: nat) -> Seq<PublishEvent> {
    Seq::new(n, |_i: int| PublishEvent::Delivered)
}

/// The send actions for the given positions.
pub open spec fn sends(positions: Seq<int>) -> Seq<PublishActionView> {
    positions.map_values(|j: int| PublishActionView::SendEmail { index: j })
}

proof fn lemma_valid_positions_next(valid: Seq<bool>, from: int)
    requires
        0 <= from,
    ensures
        next_deliverable(valid, from) is None ==> valid_positions(valid, from).len() == 0,
        next_deliverable(valid, from) matches Some(j) ==> valid_positions(valid, from)
            == seq![j] + valid_positions(valid, j + 1),
    decreases valid.len() - from,
{
    if from < valid.len() && !valid[from] {
        lemma_valid_positions_next(valid, from + 1);
    }
}

proof fn lemma_valid_positions_members(valid: Seq<bool>, from: int)
    requires
        0 <= from,
    ensures
        forall|i: int| #[trigger] valid_positions(valid, from).contains(i) <==> (from <= i && i < valid.len() && valid[i]),
        forall|a: int, b: int| 0 <= a < b < valid_positions(valid, from).len()
            ==> valid_positions(valid, from)[a] < valid_positions(valid, from)[b],
        forall|a: int| 0 <= a < valid_positions(valid, from).len() ==> from <= #[trigger] valid_positions(valid, from)[a],
    decreases valid.len() - from,
{
    let all = valid_positions(valid, from);
    if from < valid.len() {
        lemma_valid_positions_members(valid, from + 1);
        let rest = valid_positions(valid, from + 1);
        if valid[from] {
            assert(all == seq![from] + rest);
            assert forall|i: int| all.contains(i) implies from <= i < valid.len() && valid[i] by {
                let k = choose|k: int| 0 <= k < all.len() && all[k] == i;
                if k > 0 {
                    assert(all[k] == rest[k - 1]);
                    assert(rest.contains(i));
                    assert(from + 1 <= i < valid.len() && valid[i]);
                } else {
                    assert(all[0] == from);
                    assert(i == from);
                }
            }
            assert forall|i: int| from <= i < valid.len() && valid[i] implies all.contains(i) by {
                if i == from {
                    assert(all[0] == i);
                } else {
                    assert(rest.contains(i));
                    let k = choose|k: int| 0 <= k < rest.len() && rest[k] == i;
                    assert(all[k + 1] == i);
                }
            }
            assert forall|a: int, b: int| 0 <= a < b < all.len() implies all[a] < all[b] by {
                assert(all[b] == rest[b - 1]);
                if a > 0 {
                    assert(all[a] == rest[a - 1]);
                }
            }
            assert forall|a: int| 0 <= a < all.len() implies from <= #[trigger] all[a] by {
                if a > 0 {
                    assert(all[a] == rest[a - 1]);
                }
            }
        } else {
            assert(all == rest);
        }
    } else {
        assert(all.len() == 0);
    }
}

/// From position `from` on, with every delivery succeeding: the issue goes to
/// the valid subscribers from `from` on, in order, and then the success reply
/// is given.
proof fn lemma_deliveries_from(valid: Seq<bool>, from: int)
    requires
        0 <= from,
        valid.len() <= usize::MAX,
    ensures
        ({
            let positions = valid_positions(valid, from);
            let (state, first) = deliver_from(valid, from);
            let (last, rest) = publish_run(valid, state, deliveries(positions.len()));
            &&& last == PublishState::Finished
            &&& seq![first] + rest == sends(positions) + seq![PublishActionView::Respond(published_reply())]
        }),
    decreases valid.len() - from,
{
    lemma_valid_positions_next(valid, from);
    let positions = valid_positions(valid, from);
    match next_deliverable(valid, from) {
        None => {
            assert(sends(positions) =~= Seq::<PublishActionView>::empty());
        },
        Some(j) => {
            lemma_next_deliverable_bounds(valid, from);
            lemma_deliveries_from(valid, j + 1);
            let tail = valid_positions(valid, j + 1);
            let events = deliveries(positions.len());
            assert(events.drop_first() =~= deliveries(tail.len()));
            assert(((j as usize) as int) == j);
            let (state, first) = deliver_from(valid, from);
            assert(state == PublishState::AwaitingDelivery { index: j as usize });
            let (s2, a2) = publish_transition(valid, state, events[0]);
            assert((s2, a2) == deliver_from(valid, j + 1));
            assert(sends(positions) =~= seq![PublishActionView::SendEmail { index: j }] + sends(tail));
        },
    }
}

/// From position `from` on, with `m` deliveries succeeding and the next one
/// failing: the issue goes to the first `m + 1` valid subscribers from `from`
/// on, in order, and then the server error is given.
proof fn lemma_deliveries_then_failure(valid: Seq<bool>, from: int, m: nat)
    requires
        0 <= from,
        valid.len() <= usize::MAX,
        m < valid_positions(valid, from).len(),
    ensures
        ({
            let (state, first) = deliver_from(valid, from);
            let (last, rest) = publish_run(valid, state, deliveries(m) + seq![PublishEvent::DeliveryFailed]);
            &&& last == PublishState::Finished
            &&& seq![first] + rest == sends(valid_positions(valid, from).take(m + 1int))
                + seq![PublishActionView::Respond(ReplyView::InternalError)]
        }),
    decreases m,
{
    lemma_valid_positions_next(valid, from);
    let positions = valid_positions(valid, from);
    lemma_next_deliverable_bounds(valid, from);
    let j = next_deliverable(valid, from)->0;
    assert(((j as usize) as int) == j);
    let tail = valid_positions(valid, j + 1);
    let events = deliveries(m) + seq![PublishEvent::DeliveryFailed];
    let (state, first) = deliver_from(valid, from);
    assert(state == PublishState::AwaitingDelivery { index: j as usize });
    if m == 0 {
        assert(events =~= seq![PublishEvent::DeliveryFailed]);
        assert(events.drop_first() =~= Seq::<PublishEvent>::empty());
        assert(positions.take(1) =~= seq![j]);
        assert(sends(positions.take(1)) =~= seq![PublishActionView::SendEmail { index: j }]);
        let (s1, a1) = publish_transition(valid, state, events[0]);
        assert(s1 == PublishState::Finished && a1 == PublishActionView::Respond(ReplyView::InternalError));
        assert(publish_run(valid, s1, events.drop_first()) == (s1, Seq::<PublishActionView>::empty()));
        let (last, rest) = publish_run(valid, state, events);
        assert(rest =~= seq![a1]);
    } else {
        lemma_deliveries_then_failure(valid, j + 1, (m - 1) as nat);
        assert(events[0] == PublishEvent::Delivered);
        assert(events.drop_first() =~= deliveries((m - 1) as nat) + seq![PublishEvent::DeliveryFailed]);
        assert(positions.take(m + 1int) =~= seq![j] + tail.take(m as int));
        assert(sends(positions.take(m + 1int)) =~= seq![PublishActionView::SendEmail { index: j }] + sends(tail.take(m as int)));
        let (s1, a1) = publish_transition(valid, state, events[0]);
        assert((s1, a1) == deliver_from(valid, j + 1));
        let (l2, r2) = publish_run(valid, s1, events.drop_first());
        let (last, rest) = publish_run(valid, state, events);
        assert(rest == seq![a1] + r2);
        assert(seq![first] + rest =~= seq![first] + (seq![a1] + r2));
    }
}

/// Law: when the subscribers load, `m` deliveries succeed and the next one
/// fails, the issue has gone to exactly the first `m + 1` valid subscribers
/// (in order, the last of them being the failed one), no later subscriber is
/// tried, and the request ends with a server error.
pub proof fn law_publish_stops_at_first_failed_delivery(valid: Seq<bool>, m: nat)
    requires
        valid.len() <= usize::MAX,
        m < valid_positions(valid, 0).len(),
    ensures
        ({
            let events = seq![PublishEvent::SubscribersLoaded] + deliveries(m) + seq![PublishEvent::DeliveryFailed];
            let (last, actions) = publish_run(valid, PublishState::LoadingSubscribers, events);
            &&& last == PublishState::Finished
            &&& actions == sends(valid_positions(valid, 0).take(m + 1int))
                + seq![PublishActionView::Respond(ReplyView::InternalError)]
        }),
{
    lemma_deliveries_then_failure(valid, 0, m);
    let events = seq![PublishEvent::SubscribersLoaded] + deliveries(m) + seq![PublishEvent::DeliveryFailed];
    assert(events.drop_first() =~= deliveries(m) + seq![PublishEvent::DeliveryFailed]);
}

/// Law: when the subscribers load and every delivery succeeds, the issue is
/// sent to every subscriber whose address is valid, exactly once each and in
/// the order in which they were loaded, never to one whose address is
/// invalid, and the request ends with the redirect to the form carrying the
/// success message.
pub proof fn law_publish_sends_each_valid_subscriber_once_in_order(valid: Seq<bool>)
    requires
        valid.len() <= usize::MAX,
    ensures
        ({
            let positions = valid_positions(valid, 0);
            let events = seq![PublishEvent::SubscribersLoaded] + deliveries(positions.len());
            let (last, actions) = publish_run(valid, PublishState::LoadingSubscribers, events);
            &&& last == PublishState::Finished
            &&& actions == sends(positions) + seq![PublishActionView::Respond(published_reply())]
            &&& forall|i: int| positions.contains(i) <==> 0 <= i < valid.len() && valid[i]
            &&& forall|a: int, b: int| 0 <= a < b < positions.len() ==> positions[a] < positions[b]
        }),
{
    lemma_valid_positions_members(valid, 0);
    lemma_deliveries_from(valid, 0);
    let positions = valid_positions(valid, 0);
    let events = seq![PublishEvent::SubscribersLoaded] + deliveries(positions.len());
    assert(events.drop_first() =~= deliveries(positions.len()));
}

/// Law: a failed load or a failed delivery ends the request with a server
/// error, whatever the state; and once finished, publishing stays finished
/// and asks for nothing but an error reply.
pub proof fn law_publish_failure_ends_with_server_error(valid: Seq<bool>, state: PublishState, event: PublishEvent)
    ensures
        (event == PublishEvent::SubscribersUnavailable || event == PublishEvent::DeliveryFailed
            || state == PublishState::Finished)
            ==> publish_transition(valid, state, event)
                == (PublishState::Finished, PublishActionView::Respond(ReplyView::InternalError)),
{
}

/// Law: whatever happened before, the issue is never sent to a subscriber
/// whose stored address is invalid, nor to a position outside the list.
pub proof fn law_publish_never_sends_to_invalid(valid: Seq<bool>, state: PublishState, event: PublishEvent)
    ensures
        publish_transition(valid, state, event).1 matches PublishActionView::SendEmail { index }
            ==> 0 <= index < valid.len() && valid[index],
{
    match (state, event) {
        (PublishState::LoadingSubscribers, PublishEvent::SubscribersLoaded) => {
            lemma_next_deliverable_bounds(valid, 0);
        },
        (PublishState::AwaitingDelivery { index }, PublishEvent::Delivered) => {
            lemma_next_deliverable_bounds(valid, index + 1);
        },
        _ => {},
    }
}

/// Law: the list of which subscribers can be sent to has one entry per
/// loaded subscriber, `true` exactly where the entry is `Ok`.
pub proof fn law_deliverable_marks_exactly_the_valid_entries(
    subscribers: Seq<Result<ConfirmedSubscriber, InvalidSubscriberEmail>>,
)
    ensures
        deliverable(subscribers).len() == subscribers.len(),
        forall|i: int| 0 <= i < subscribers.len() ==> (#[trigger] deliverable(subscribers)[i] <==> subscribers[i] is Ok),
{
}

/// Law, over the loaded list itself: when the subscribers load and every
/// delivery succeeds, the issue is sent to the positions of exactly the
/// entries that are `Ok`, each once and in increasing order (so with `n`
/// valid subscribers and no invalid one, to 0, 1, .., n - 1), and then the
/// request redirects to the issue form with "Successfully send a newsletter".
pub proof fn law_every_valid_loaded_subscriber_gets_the_issue(
    subscribers: Seq<Result<ConfirmedSubscriber, InvalidSubscriberEmail>>,
)
    requires
        subscribers.len() <= usize::MAX,
    ensures
        ({
            let valid = deliverable(subscribers);
            let positions = valid_positions(valid, 0);
            let events = seq![PublishEvent::SubscribersLoaded]
                + Seq::new(positions.len(), |_i: int| PublishEvent::Delivered);
            let (last, actions) = publish_run(valid, PublishState::LoadingSubscribers, events);
            &&& forall|i: int| positions.contains(i) <==> (0 <= i < subscribers.len() && subscribers[i] is Ok)
            &&& forall|a: int, b: int| 0 <= a < b < positions.len() ==> positions[a] < positions[b]
            &&& last == PublishState::Finished
            &&& actions.len() == positions.len() + 1
            &&& forall|k: int| 0 <= k < positions.len() ==> #[trigger] actions[k]
                == PublishActionView::SendEmail { index: positions[k] }
            &&& actions[positions.len() as int] == PublishActionView::Respond(ReplyView::SeeOther {
                location: "/admin/newsletters"@,
                flash: Some(FlashView { level: FlashLevel::Info, content: "Successfully send a newsletter"@ }),
            })
            &&& (forall|i: int| 0 <= i < subscribers.len() ==> subscribers[i] is Ok) ==> (positions.len()
                == subscribers.len() && forall|k: int| 0 <= k < positions.len() ==> positions[k] == k)
        }),
{
    let valid = deliverable(subscribers);
    law_deliverable_marks_exactly_the_valid_entries(subscribers);
    law_publish_sends_each_valid_subscriber_once_in_order(valid);
    let positions = valid_positions(valid, 0);
    assert(Seq::new(positions.len(), |_i: int| PublishEvent::Delivered) =~= deliveries(positions.len()));
    let (last, actions) = publish_run(valid, PublishState::LoadingSubscribers,
        seq![PublishEvent::SubscribersLoaded] + deliveries(positions.len()));
    assert forall|k: int| 0 <= k < positions.len() implies #[trigger] actions[k]
        == PublishActionView::SendEmail { index: positions[k] } by {
        assert(actions[k] == sends(positions)[k]);
    }
    assert(actions[positions.len() as int] == PublishActionView::Respond(published_reply()));
    if forall|i: int| 0 <= i < subscribers.len() ==> subscribers[i] is Ok {
        lemma_all_valid_positions(valid, 0);
    }
}

proof fn lemma_all_valid_positions(valid: Seq<bool>, from: int)
    requires
        0 <= from <= valid.len(),
        forall|i: int| 0 <= i < valid.len() ==> valid[i],
    ensures
        valid_positions(valid, from).len() == valid.len() - from,
        forall|k: int| 0 <= k < valid_positions(valid, from).len() ==> #[trigger] valid_positions(valid, from)[k] == from + k,
    decreases valid.len() - from,
{
    if from < valid.len() {
        lemma_all_valid_positions(valid, from + 1);
        let rest = valid_positions(valid, from + 1);
        assert(valid_positions(valid, from) == seq![from] + rest);
        assert forall|k: int| 0 <= k < valid_positions(valid, from).len() implies #[trigger] valid_positions(valid, from)[k]
            == from + k by {
            if k > 0 {
                assert(valid_positions(valid, from)[k] == rest[k - 1]);
            }
        }
    }
}

/// Law: the model of an action keeps its kind, the position to send to,
/// and the reply.
pub proof fn law_publish_action_view_keeps_everything(action: PublishAction)
    ensures
        ((action is LoadSubscribers) <==> (action@ is LoadSubscribers)),
        (action matches PublishAction::SendEmail { index } ==> action@
            == (PublishActionView::SendEmail { index: index as int })),
        (action matches PublishAction::Respond(r) ==> action@ == PublishActionView::Respond(r@)),
{
}

} // verus!
