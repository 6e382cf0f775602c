//! Registration of a subscriber: validate the form, store the subscriber,
//! send the welcome message, answer.
//!
//! The two outside calls, to the store and to the e-mail provider, are made
//! by the caller. [`Registration`] decides what is done next and what the
//! answer is.

use crate::domain::subscriber_email::is_email_address;
use crate::domain::subscriber_name::acceptable_name;
use crate::domain::subscriber_name::is_parsed_name;
use crate::domain::NewSubscriber;
use crate::domain::NewSubscriberView;
use crate::domain::SubscriberEmail;
use crate::domain::SubscriberName;
use crate::domain::ValidationError;
use crate::email_client::EmailMessage;
use crate::email_client::EmailMessageView;
use crate::email_client::NotificationError;
use crate::text::trimmed;
use vstd::prelude::*;

verus! {

/// The form of a registration request, as it was submitted.
#[derive(Debug, PartialEq, Eq)]
pub struct SubscriptionsData {
    name: String,
    email: String,
}

/// What a [`SubscriptionsData`] stands for: the two submitted texts.
pub struct SubscriptionsDataView {
    pub name: Seq<char>,
    pub email: Seq<char>,
}

impl View for SubscriptionsData {
    type V = SubscriptionsDataView;

    closed spec fn view(&self) -> SubscriptionsDataView {
        SubscriptionsDataView { name: self.name@, email: self.email@ }
    }
}

/// What was submitted, where `None` stands for a body that lacks a field.
pub open spec fn submitted(form: Option<SubscriptionsData>) -> Option<SubscriptionsDataView> {
    match form {
        Some(form) => Some(form@),
        None => None,
    }
}

/// The subscriber that a form describes, if both of its fields are valid.
pub open spec fn validated(form: SubscriptionsDataView) -> Option<NewSubscriberView> {
    if acceptable_name(form.name) && is_email_address(form.email) {
        Some(NewSubscriberView { name: trimmed(form.name), email: form.email })
    } else {
        None
    }
}

impl SubscriptionsData {
    /// A form with both fields filled in.
    pub fn new(name: String, email: String) -> (form: Self)
        ensures
            form@ == (SubscriptionsDataView { name: name@, email: email@ }),
    {
        SubscriptionsData { name, email }
    }

    /// The form that a request body holds, or `None` where the body lacks
    /// one of the two fields.
    pub fn from_fields(name: Option<String>, email: Option<String>) -> (form: Option<Self>)
        ensures
            form is Some <==> name is Some && email is Some,
            form matches Some(f) ==> f@ == (SubscriptionsDataView {
                name: name->0@,
                email: email->0@,
            }),
    {
        match (name, email) {
            (Some(name), Some(email)) => Some(SubscriptionsData { name, email }),
            _ => None,
        }
    }

    /// The submitted name.
    pub fn name(&self) -> (name: &str)
        ensures
            name@ == self@.name,
    {
        self.name.as_str()
    }

    /// The submitted address.
    pub fn email(&self) -> (email: &str)
        ensures
            email@ == self@.email,
    {
        self.email.as_str()
    }

    /// Validates both fields, the name first.
    pub fn try_into(self) -> (r: Result<NewSubscriber, ValidationError>)
        ensures
            r is Ok <==> validated(self@) is Some,
            r matches Ok(subscriber) ==> Some(subscriber@) == validated(self@),
    {
        let name = match SubscriberName::parse(self.name) {
            Ok(name) => name,
            Err(e) => {
                return Err(e);
            },
        };
        let email = match SubscriberEmail::parse(self.email) {
            Ok(email) => email,
            Err(e) => {
                return Err(e);
            },
        };
        Ok(NewSubscriber { name, email })
    }
}

impl Clone for SubscriptionsData {
    fn clone(&self) -> (copy: Self)
        ensures
            copy@ == self@,
    {
        SubscriptionsData { name: self.name.clone(), email: self.email.clone() }
    }
}

/// A point in time: whole seconds since the start of 1970 in UTC, and the
/// nanoseconds into that second.
#[derive(Debug, Clone, Copy, PartialEq, Eq, Structural)]
pub struct Timestamp {
    pub seconds: i64,
    pub nanoseconds: u32,
}

/// Reads the clock with `chrono::Utc::now` and takes the time apart with
/// `timestamp` and `timestamp_subsec_nanos`. Nothing is promised of the
/// value. `chrono` panics where the system clock is set before 1970.
#[verifier::external_body]
fn now() -> Timestamp {
    let t = chrono::Utc::now();
    Timestamp { seconds: t.timestamp(), nanoseconds: t.timestamp_subsec_nanos() }
}

/// The state of a stored subscription. Every subscription is stored as
/// confirmed.
#[derive(Debug, Clone, Copy, PartialEq, Eq, Structural)]
pub enum SubscriptionStatus {
    Confirmed,
}

impl SubscriptionStatus {
    /// The word that the store keeps for the status.
    pub fn as_str(&self) -> (word: &'static str)
        ensures
            word@ == "confirmed"@,
    {
        match self {
            SubscriptionStatus::Confirmed => "confirmed",
        }
    }
}

/// One row of the subscriptions table.
#[derive(Debug, PartialEq, Eq)]
pub struct SubscriptionRecord {
    pub email: String,
    pub name: String,
    pub subscribed_at: Timestamp,
    pub status: SubscriptionStatus,
}

/// What a [`SubscriptionRecord`] stands for.
pub struct SubscriptionRecordView {
    pub email: Seq<char>,
    pub name: Seq<char>,
    pub subscribed_at: Timestamp,
    pub status: SubscriptionStatus,
}

impl View for SubscriptionRecord {
    type V = SubscriptionRecordView;

    open spec fn view(&self) -> SubscriptionRecordView {
        SubscriptionRecordView {
            email: self.email@,
            name: self.name@,
            subscribed_at: self.subscribed_at,
            status: self.status,
        }
    }
}

/// The row for `subscriber`, written at `at`.
pub open spec fn record_of(subscriber: NewSubscriberView, at: Timestamp) -> SubscriptionRecordView {
    SubscriptionRecordView {
        email: subscriber.email,
        name: subscriber.name,
        subscribed_at: at,
        status: SubscriptionStatus::Confirmed,
    }
}

impl SubscriptionRecord {
    /// The row for `subscriber`, written at `at`. What it holds has passed
    /// validation.
    pub fn at(subscriber: &NewSubscriber, at: Timestamp) -> (record: Self)
        ensures
            record@ == record_of(subscriber@, at),
            is_parsed_name(record@.name),
            is_email_address(record@.email),
    {
        SubscriptionRecord {
            email: String::from_str(subscriber.email.as_ref()),
            name: String::from_str(subscriber.name.as_ref()),
            subscribed_at: at,
            status: SubscriptionStatus::Confirmed,
        }
    }

    /// The row for `subscriber`, written now. The time comes from the clock
    /// of this machine, never from the request.
    pub fn new(subscriber: &NewSubscriber) -> (record: Self)
        ensures
            record@ == record_of(subscriber@, record@.subscribed_at),
            is_parsed_name(record@.name),
            is_email_address(record@.email),
    {
        SubscriptionRecord::at(subscriber, now())
    }
}

impl Clone for SubscriptionRecord {
    fn clone(&self) -> (copy: Self)
        ensures
            copy@ == self@,
    {
        SubscriptionRecord {
            email: self.email.clone(),
            name: self.name.clone(),
            subscribed_at: self.subscribed_at,
            status: self.status,
        }
    }
}

/// The store did not take the row: it could not be reached, had no
/// connection to spare, or refused the write.
#[derive(Debug, Clone, Copy, PartialEq, Eq, Structural)]
pub struct PersistenceError;

/// Subject and body of the message that welcomes a new subscriber.
pub const WELCOME: &'static str = "Welcome to our newsletter!";

/// How a registration ends.
#[derive(Debug, Clone, Copy, PartialEq, Eq, Structural)]
pub enum Outcome {
    /// The subscriber is stored and the welcome message went out.
    Accepted,
    /// The form lacked a field, or a field was not valid.
    Rejected,
    /// The store or the e-mail provider failed.
    Failed,
}

impl Outcome {
    /// The HTTP status that answers the request.
    pub open spec fn code(self) -> u16 {
        match self {
            Outcome::Accepted => 200,
            Outcome::Rejected => 400,
            Outcome::Failed => 500,
        }
    }

    /// The HTTP status that answers the request: 200, 400 or 500.
    pub fn status(&self) -> (code: u16)
        ensures
            code == self.code(),
    {
        match self {
            Outcome::Accepted => 200,
            Outcome::Rejected => 400,
            Outcome::Failed => 500,
        }
    }
}

/// What came back from an outside call.
#[derive(Debug, Clone, Copy, PartialEq, Eq)]
pub enum RegistrationEvent {
    /// The store has answered the write.
    Saved(Result<(), PersistenceError>),
    /// The e-mail provider has answered, or the call has failed.
    Sent(Result<(), NotificationError>),
}

/// What the caller does next.
#[derive(Debug, PartialEq, Eq)]
pub enum RegistrationAction {
    /// Write this subscriber to the store, once.
    Persist { subscriber: NewSubscriber },
    /// Send this message through the e-mail client, once.
    Notify { message: EmailMessage },
    /// Answer the request. Nothing more is to be done.
    Respond { outcome: Outcome },
}

/// What a [`RegistrationAction`] stands for.
pub enum RegistrationActionView {
    Persist { subscriber: NewSubscriberView },
    Notify { message: EmailMessageView },
    Respond { outcome: Outcome },
}

impl View for RegistrationAction {
    type V = RegistrationActionView;

    open spec fn view(&self) -> RegistrationActionView {
        match self {
            RegistrationAction::Persist { subscriber } => RegistrationActionView::Persist {
                subscriber: subscriber@,
            },
            RegistrationAction::Notify { message } => RegistrationActionView::Notify {
                message: message@,
            },
            RegistrationAction::Respond { outcome } => RegistrationActionView::Respond {
                outcome: *outcome,
            },
        }
    }
}

/// Where a registration stands.
#[derive(Debug, PartialEq, Eq)]
pub enum Registration {
    /// The subscriber has been handed to the store; its answer is awaited.
    Persisting { recipient: SubscriberEmail },
    /// The subscriber is stored and the welcome message has been handed to
    /// the e-mail client; its answer is awaited.
    Notifying,
    /// The request is answered.
    Done { outcome: Outcome },
}

/// What a [`Registration`] stands for.
pub enum RegistrationView {
    Persisting { recipient: Seq<char> },
    Notifying,
    Done { outcome: Outcome },
}

impl View for Registration {
    type V = RegistrationView;

    open spec fn view(&self) -> RegistrationView {
        match self {
            Registration::Persisting { recipient } => RegistrationView::Persisting {
                recipient: recipient@,
            },
            Registration::Notifying => RegistrationView::Notifying,
            Registration::Done { outcome } => RegistrationView::Done { outcome: *outcome },
        }
    }
}

/// The welcome message for `recipient`.
pub open spec fn welcome(recipient: Seq<char>) -> EmailMessageView {
    EmailMessageView { recipient, subject: WELCOME@, text_body: WELCOME@, html_body: WELCOME@ }
}

/// Where a registration starts: with the write of the subscriber, if the form
/// is there and valid, and else at its end, rejected.
pub open spec fn first_state(form: Option<SubscriptionsDataView>) -> RegistrationView {
    match form {
        Some(form) => match validated(form) {
            Some(subscriber) => RegistrationView::Persisting { recipient: subscriber.email },
            None => RegistrationView::Done { outcome: Outcome::Rejected },
        },
        None => RegistrationView::Done { outcome: Outcome::Rejected },
    }
}

/// What a registration asks for first.
pub open spec fn first_action(form: Option<SubscriptionsDataView>) -> RegistrationActionView {
    match form {
        Some(form) => match validated(form) {
            Some(subscriber) => RegistrationActionView::Persist { subscriber },
            None => RegistrationActionView::Respond { outcome: Outcome::Rejected },
        },
        None => RegistrationActionView::Respond { outcome: Outcome::Rejected },
    }
}

/// Where a registration stands after `event`. Whatever is not the success of
/// the call that is awaited counts as its failure.
pub open spec fn next_state(state: RegistrationView, event: RegistrationEvent) -> RegistrationView {
    match state {
        RegistrationView::Persisting { recipient } => match event {
            RegistrationEvent::Saved(Ok(())) => RegistrationView::Notifying,
            _ => RegistrationView::Done { outcome: Outcome::Failed },
        },
        RegistrationView::Notifying => match event {
            RegistrationEvent::Sent(Ok(())) => RegistrationView::Done { outcome: Outcome::Accepted },
            _ => RegistrationView::Done { outcome: Outcome::Failed },
        },
        RegistrationView::Done { outcome } => state,
    }
}

/// What a registration asks for after `event`.
pub open spec fn next_action(
    state: RegistrationView,
    event: RegistrationEvent,
) -> RegistrationActionView {
    match state {
        RegistrationView::Persisting { recipient } => match event {
            RegistrationEvent::Saved(Ok(())) => RegistrationActionView::Notify {
                message: welcome(recipient),
            },
            _ => RegistrationActionView::Respond { outcome: Outcome::Failed },
        },
        RegistrationView::Notifying => match event {
            RegistrationEvent::Sent(Ok(())) => RegistrationActionView::Respond {
                outcome: Outcome::Accepted,
            },
            _ => RegistrationActionView::Respond { outcome: Outcome::Failed },
        },
        RegistrationView::Done { outcome } => RegistrationActionView::Respond { outcome },
    }
}

fn welcome_message(recipient: SubscriberEmail) -> (message: EmailMessage)
    ensures
        message@ == welcome(recipient@),
{
    EmailMessage {
        recipient,
        subject: String::from_str(WELCOME),
        text_body: String::from_str(WELCOME),
        html_body: String::from_str(WELCOME),
    }
}

impl Registration {
    /// Takes up a request. `form` is `None` where the body lacked a field.
    ///
    /// A form that is missing or not valid is rejected at once: nothing is
    /// stored and nothing is sent. Else the subscriber is to be stored.
    pub fn begin(form: Option<SubscriptionsData>) -> (r: (Registration, RegistrationAction))
        ensures
            r.0@ == first_state(submitted(form)),
            r.1@ == first_action(submitted(form)),
    {
        match form {
            Some(form) => Registration::from_validation(form.try_into()),
            None => Registration::from_validation(Err(ValidationError)),
        }
    }

    /// Goes on from the validation of the form: a subscriber is to be
    /// stored, and a refusal ends the registration, rejected.
    pub fn from_validation(validation: Result<NewSubscriber, ValidationError>) -> (r: (
        Registration,
        RegistrationAction,
    ))
        ensures
            match validation {
                Ok(subscriber) => {
                    &&& r.0@ == (RegistrationView::Persisting { recipient: subscriber@.email })
                    &&& r.1@ == (RegistrationActionView::Persist { subscriber: subscriber@ })
                },
                Err(_) => {
                    &&& r.0@ == (RegistrationView::Done { outcome: Outcome::Rejected })
                    &&& r.1@ == (RegistrationActionView::Respond { outcome: Outcome::Rejected })
                },
            },
    {
        match validation {
            Ok(subscriber) => (
                Registration::Persisting { recipient: subscriber.email.clone() },
                RegistrationAction::Persist { subscriber },
            ),
            Err(_) => (
                Registration::Done { outcome: Outcome::Rejected },
                RegistrationAction::Respond { outcome: Outcome::Rejected },
            ),
        }
    }

    /// Takes the answer of the call that was asked for last.
    ///
    /// A failed write ends the registration with no message sent. A failed
    /// message ends it too, and the stored subscriber stays as it is. Nothing
    /// is tried twice.
    pub fn step(self, event: RegistrationEvent) -> (r: (Registration, RegistrationAction))
        ensures
            r.0@ == next_state(self@, event),
            r.1@ == next_action(self@, event),
    {
        let failed = (
            Registration::Done { outcome: Outcome::Failed },
            RegistrationAction::Respond { outcome: Outcome::Failed },
        );
        match self {
            Registration::Persisting { recipient } => match event {
                RegistrationEvent::Saved(Ok(())) => (
                    Registration::Notifying,
                    RegistrationAction::Notify { message: welcome_message(recipient) },
                ),
                _ => failed,
            },
            Registration::Notifying => match event {
                RegistrationEvent::Sent(Ok(())) => (
                    Registration::Done { outcome: Outcome::Accepted },
                    RegistrationAction::Respond { outcome: Outcome::Accepted },
                ),
                _ => failed,
            },
            Registration::Done { outcome } => (
                Registration::Done { outcome },
                RegistrationAction::Respond { outcome },
            ),
        }
    }

    /// The outcome, once the request is answered.
    pub fn outcome(&self) -> (outcome: Option<Outcome>)
        ensures
            outcome == match self@ {
                RegistrationView::Done { outcome } => Some(outcome),
                _ => None,
            },
    {
        match self {
            Registration::Done { outcome } => Some(*outcome),
            _ => None,
        }
    }
}

/// Where a registration stands after a run of events.
pub open spec fn run(state: RegistrationView, events: Seq<RegistrationEvent>) -> RegistrationView
    decreases events.len(),
{
    if events.len() == 0 {
        state
    } else {
        run(next_state(state, events[0]), events.drop_first())
    }
}

/// What a registration asks for in the course of a run of events, in order.
pub open spec fn requests(
    state: RegistrationView,
    events: Seq<RegistrationEvent>,
) -> Seq<RegistrationActionView>
    decreases events.len(),
{
    if events.len() == 0 {
        Seq::empty()
    } else {
        seq![next_action(state, events[0])] + requests(
            next_state(state, events[0]),
            events.drop_first(),
        )
    }
}

/// The outcome of a registration whose form was valid or not, whose write
/// succeeded or not, and whose message went out or not.
pub open spec fn verdict(valid: bool, saved: bool, sent: bool) -> Outcome {
    if !valid {
        Outcome::Rejected
    } else if saved && sent {
        Outcome::Accepted
    } else {
        Outcome::Failed
    }
}

/// An answered request stays answered: whatever comes in afterwards, the
/// outcome is the same and nothing is asked for but to give that answer.
pub proof fn lemma_done_is_final(outcome: Outcome, events: Seq<RegistrationEvent>)
    ensures
        run(RegistrationView::Done { outcome }, events) == (RegistrationView::Done { outcome }),
        requests(RegistrationView::Done { outcome }, events).len() == events.len(),
        forall|i: int|
            0 <= i < events.len() ==> #[trigger] requests(
                RegistrationView::Done { outcome },
                events,
            )[i] == (RegistrationActionView::Respond { outcome }),
    decreases events.len(),
{
    if events.len() > 0 {
        lemma_done_is_final(outcome, events.drop_first());
    }
}

/// What the store holds of a registration after a run of events: the
/// subscriber that was handed to it at the start, if the first event is its
/// word that the write succeeded. The store keeps what it has taken, and
/// nothing asks it to take anything back.
pub open spec fn persisted(
    form: Option<SubscriptionsDataView>,
    events: Seq<RegistrationEvent>,
) -> Option<NewSubscriberView> {
    match first_action(form) {
        RegistrationActionView::Persist { subscriber } => if events.len() > 0 && events[0]
            == RegistrationEvent::Saved(Ok(())) {
            Some(subscriber)
        } else {
            None
        },
        _ => None,
    }
}

/// A request whose form is missing or not valid is rejected with status 400:
/// nothing is stored, and neither the store nor the e-mail client is ever
/// asked for anything.
pub proof fn lemma_rejected_form_touches_nothing(
    form: Option<SubscriptionsDataView>,
    events: Seq<RegistrationEvent>,
)
    requires
        form matches Some(f) ==> validated(f) is None,
    ensures
        first_action(form) == (RegistrationActionView::Respond { outcome: Outcome::Rejected }),
        Outcome::Rejected.code() == 400,
        run(first_state(form), events) == (RegistrationView::Done { outcome: Outcome::Rejected }),
        persisted(form, events) is None,
        forall|i: int|
            0 <= i < events.len() ==> #[trigger] requests(first_state(form), events)[i] == (
            RegistrationActionView::Respond { outcome: Outcome::Rejected }),
{
    lemma_done_is_final(Outcome::Rejected, events);
}

/// The store is asked to write once at most, at the start: no event makes a
/// registration ask for another write, so what is stored stays stored, also
/// where the welcome message then fails.
pub proof fn lemma_no_second_write(state: RegistrationView, events: Seq<RegistrationEvent>)
    ensures
        requests(state, events).len() == events.len(),
        forall|i: int|
            0 <= i < events.len() ==> !(#[trigger] requests(state, events)[i] is Persist),
    decreases events.len(),
{
    if events.len() > 0 {
        lemma_no_second_write(next_state(state, events[0]), events.drop_first());
    }
}

/// The answer depends on three things only: whether the form was valid,
/// whether the write succeeded, and whether the message went out.
pub proof fn lemma_outcome(
    form: Option<SubscriptionsDataView>,
    saved: Result<(), PersistenceError>,
    sent: Result<(), NotificationError>,
)
    ensures
        run(first_state(form), seq![RegistrationEvent::Saved(saved), RegistrationEvent::Sent(sent)])
            == (RegistrationView::Done {
            outcome: verdict(form matches Some(f) && validated(f) is Some, saved is Ok, sent is Ok),
        }),
{
    let events = seq![RegistrationEvent::Saved(saved), RegistrationEvent::Sent(sent)];
    let rest = seq![RegistrationEvent::Sent(sent)];
    assert(events.drop_first() =~= rest);
    assert(rest.drop_first() =~= Seq::<RegistrationEvent>::empty());
    let start = first_state(form);
    let second = next_state(start, events[0]);
    let third = next_state(second, rest[0]);
    assert(run(third, rest.drop_first()) == third);
    assert(run(second, rest) == third);
    assert(run(start, events) == third);
}

/// A valid form, a store that takes the subscriber and a provider that takes
/// the message: the answer is 200, and the store holds the subscriber as the
/// form described it, the name trimmed.
pub proof fn lemma_accepted_registration_is_stored(form: SubscriptionsDataView)
    requires
        validated(form) is Some,
    ensures
        ({
            let events = seq![
                RegistrationEvent::Saved(Ok(())),
                RegistrationEvent::Sent(Ok(())),
            ];
            &&& run(first_state(Some(form)), events) == (RegistrationView::Done {
                outcome: Outcome::Accepted,
            })
            &&& Outcome::Accepted.code() == 200
            &&& persisted(Some(form), events) == Some(
                NewSubscriberView { name: trimmed(form.name), email: form.email },
            )
            &&& requests(first_state(Some(form)), events) == seq![
                RegistrationActionView::Notify { message: welcome(form.email) },
                RegistrationActionView::Respond { outcome: Outcome::Accepted },
            ]
        }),
{
    let events = seq![RegistrationEvent::Saved(Ok(())), RegistrationEvent::Sent(Ok(()))];
    lemma_outcome(Some(form), Ok(()), Ok(()));
    let rest = events.drop_first();
    let start = first_state(Some(form));
    let second = next_state(start, events[0]);
    let third = next_state(second, rest[0]);
    assert(rest.drop_first().len() == 0);
    assert(requests(third, rest.drop_first()) =~= Seq::empty());
    assert(requests(second, rest) =~= seq![next_action(second, rest[0])]);
    assert(requests(start, events) =~= seq![
        next_action(start, events[0]),
        next_action(second, rest[0]),
    ]);
}

/// A stored subscriber whose welcome message fails: the answer is 500, the
/// store still holds the subscriber, and the registration asks for nothing
/// but to give that answer.
pub proof fn lemma_failed_message_leaves_the_record(
    form: SubscriptionsDataView,
    failure: NotificationError,
)
    requires
        validated(form) is Some,
    ensures
        ({
            let events = seq![
                RegistrationEvent::Saved(Ok(())),
                RegistrationEvent::Sent(Err(failure)),
            ];
            &&& run(first_state(Some(form)), events) == (RegistrationView::Done {
                outcome: Outcome::Failed,
            })
            &&& Outcome::Failed.code() == 500
            &&& persisted(Some(form), events) == validated(form)
            &&& requests(first_state(Some(form)), events) == seq![
                RegistrationActionView::Notify { message: welcome(form.email) },
                RegistrationActionView::Respond { outcome: Outcome::Failed },
            ]
        }),
{
    let events = seq![RegistrationEvent::Saved(Ok(())), RegistrationEvent::Sent(Err(failure))];
    lemma_outcome(Some(form), Ok(()), Err(failure));
    let rest = events.drop_first();
    let start = first_state(Some(form));
    let second = next_state(start, events[0]);
    let third = next_state(second, rest[0]);
    assert(rest.drop_first().len() == 0);
    assert(requests(third, rest.drop_first()) =~= Seq::empty());
    assert(requests(second, rest) =~= seq![next_action(second, rest[0])]);
    assert(requests(start, events) =~= seq![
        next_action(start, events[0]),
        next_action(second, rest[0]),
    ]);
}

/// A subscriber that the store does not take: the answer is 500, nothing is
/// stored, and no message is sent.
pub proof fn lemma_failed_write_sends_nothing(
    form: SubscriptionsDataView,
    events: Seq<RegistrationEvent>,
)
    requires
        validated(form) is Some,
        events.len() > 0,
        events[0] != RegistrationEvent::Saved(Ok(())),
    ensures
        run(first_state(Some(form)), events) == (RegistrationView::Done { outcome: Outcome::Failed }),
        persisted(Some(form), events) is None,
        forall|i: int|
            0 <= i < events.len() ==> #[trigger] requests(first_state(Some(form)), events)[i] == (
            RegistrationActionView::Respond { outcome: Outcome::Failed }),
{
    let start = first_state(Some(form));
    let rest = events.drop_first();
    lemma_done_is_final(Outcome::Failed, rest);
    assert(next_state(start, events[0]) == (RegistrationView::Done { outcome: Outcome::Failed }))
        by {
        if let RegistrationEvent::Saved(Ok(unit)) = events[0] {
            assert(events[0] == RegistrationEvent::Saved(Ok(())));
        }
    }
    let all = requests(start, events);
    assert forall|i: int| 0 <= i < events.len() implies #[trigger] all[i] == (
    RegistrationActionView::Respond { outcome: Outcome::Failed }) by {
        if i > 0 {
            assert(all[i] == requests(RegistrationView::Done { outcome: Outcome::Failed }, rest)[i
                - 1]);
        }
    }
}

/// The events of a schedule that are addressed to one of two registrations:
/// to the first where `first` is true.
pub open spec fn events_for(
    schedule: Seq<(bool, RegistrationEvent)>,
    first: bool,
) -> Seq<RegistrationEvent>
    decreases schedule.len(),
{
    if schedule.len() == 0 {
        Seq::empty()
    } else if schedule[0].0 == first {
        seq![schedule[0].1] + events_for(schedule.drop_first(), first)
    } else {
        events_for(schedule.drop_first(), first)
    }
}

/// Where two registrations stand after a schedule in which their events come
/// in any order.
pub open spec fn run_both(
    a: RegistrationView,
    b: RegistrationView,
    schedule: Seq<(bool, RegistrationEvent)>,
) -> (RegistrationView, RegistrationView)
    decreases schedule.len(),
{
    if schedule.len() == 0 {
        (a, b)
    } else if schedule[0].0 {
        run_both(next_state(a, schedule[0].1), b, schedule.drop_first())
    } else {
        run_both(a, next_state(b, schedule[0].1), schedule.drop_first())
    }
}

/// Two registrations do not touch each other: however their events are
/// interleaved, each ends where it would have ended alone.
pub proof fn lemma_registrations_are_independent(
    a: RegistrationView,
    b: RegistrationView,
    schedule: Seq<(bool, RegistrationEvent)>,
)
    ensures
        run_both(a, b, schedule) == (
            run(a, events_for(schedule, true)),
            run(b, events_for(schedule, false)),
        ),
    decreases schedule.len(),
{
    if schedule.len() > 0 {
        let event = schedule[0].1;
        let rest = schedule.drop_first();
        if schedule[0].0 {
            lemma_registrations_are_independent(next_state(a, event), b, rest);
            let mine = events_for(schedule, true);
            assert(mine.drop_first() =~= events_for(rest, true));
        } else {
            lemma_registrations_are_independent(a, next_state(b, event), rest);
            let mine = events_for(schedule, false);
            assert(mine.drop_first() =~= events_for(rest, false));
        }
    }
}

} // verus!
