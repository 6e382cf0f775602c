//! Start-up: make sure the database is there and migrated, set up the e-mail
//! client, bind the listener, and hand out the running application.
//!
//! Connecting, migrating and binding are done by the caller. [`Bootstrap`]
//! decides what is done next; every failure ends the start-up for good.

use crate::configuration::database_options;
use crate::configuration::server_options;
use crate::configuration::ApplicationSettings;
use crate::configuration::ApplicationSettingsView;
use crate::configuration::ConnectOptions;
use crate::configuration::ConnectOptionsView;
use crate::configuration::Settings;
use crate::configuration::SettingsView;
use crate::domain::subscriber_email::is_email_address;
use crate::domain::SubscriberEmail;
use crate::domain::ValidationError;
use crate::email_client::EmailClient;
use crate::email_client::EmailClientView;
use crate::text::decimal;
use crate::text::decimal_string;
use std::time::Duration;
use vstd::prelude::*;

verus! {

/// How long one call of the e-mail provider may take, in seconds.
pub const NOTIFICATION_TIMEOUT_SECS: u64 = 10;

/// The span of time that lasts `secs` whole seconds.
pub uninterp spec fn duration_of_secs(secs: u64) -> Duration;

/// `std::time::Duration::from_secs` makes a span of that many whole
/// seconds: the same span for the same number.
pub assume_specification[ Duration::from_secs ](secs: u64) -> (duration: Duration)
    ensures
        duration == duration_of_secs(secs),
;

/// Why the service did not start.
#[derive(Debug, Clone, Copy, PartialEq, Eq, Structural)]
pub enum BootstrapError {
    /// The database server, or the database on it, could not be reached.
    DatabaseUnreachable,
    /// The database was missing and could not be created.
    DatabaseCreation,
    /// A migration failed.
    Migration,
    /// The configured sender is not an e-mail address.
    InvalidSender,
    /// The listener could not be bound.
    Bind,
}

/// What came back from an outside call.
#[derive(Debug, Clone, Copy, PartialEq, Eq, Structural)]
pub enum BootstrapEvent {
    /// The call succeeded.
    Done,
    /// The call failed.
    Failed,
    /// The server has said whether the configured database exists.
    DatabaseFound(bool),
    /// The listener is bound, on this port.
    Bound(u16),
}

/// The running application: the settings in effect, with the port that the
/// listener is bound to, which is never 0, and the e-mail client.
#[derive(Debug)]
pub struct Application {
    settings: Settings,
    email_client: EmailClient,
}

/// What an [`Application`] stands for.
pub struct ApplicationView {
    pub settings: SettingsView,
    pub email_client: EmailClientView,
}

impl View for Application {
    type V = ApplicationView;

    closed spec fn view(&self) -> ApplicationView {
        ApplicationView { settings: self.settings@, email_client: self.email_client@ }
    }
}

impl Application {
    #[verifier::type_invariant]
    spec fn listens(self) -> bool {
        self.settings.app.port != 0
    }

    /// The settings in effect. The port is the one that was bound.
    pub fn settings(&self) -> (settings: &Settings)
        ensures
            settings@ == self@.settings,
            settings@.app.port != 0,
    {
        proof {
            use_type_invariant(self);
        }
        &self.settings
    }

    /// The client for the e-mail provider.
    pub fn email_client(&self) -> (client: &EmailClient)
        ensures
            client@ == self@.email_client,
    {
        &self.email_client
    }
}

/// What the caller does next.
#[derive(Debug)]
pub enum BootstrapAction {
    /// Connect to the database server, to no database.
    ConnectServer { options: ConnectOptions },
    /// Ask the server whether this database exists.
    FindDatabase { name: String },
    /// Run this statement on the server.
    CreateDatabase { statement: String },
    /// Open the connection pool on the database.
    OpenPool { options: ConnectOptions },
    /// Apply all pending migrations through the pool.
    Migrate,
    /// Bind the listener to this address.
    Bind { address: String },
    /// Serve requests until told to stop.
    Serve,
    /// Give up: nothing is served.
    Abort { error: BootstrapError },
}

/// What a [`BootstrapAction`] stands for.
pub enum BootstrapActionView {
    ConnectServer { options: ConnectOptionsView },
    FindDatabase { name: Seq<char> },
    CreateDatabase { statement: Seq<char> },
    OpenPool { options: ConnectOptionsView },
    Migrate,
    Bind { address: Seq<char> },
    Serve,
    Abort { error: BootstrapError },
}

impl View for BootstrapAction {
    type V = BootstrapActionView;

    open spec fn view(&self) -> BootstrapActionView {
        match self {
            BootstrapAction::ConnectServer { options } => BootstrapActionView::ConnectServer {
                options: options@,
            },
            BootstrapAction::FindDatabase { name } => BootstrapActionView::FindDatabase {
                name: name@,
            },
            BootstrapAction::CreateDatabase { statement } => BootstrapActionView::CreateDatabase {
                statement: statement@,
            },
            BootstrapAction::OpenPool { options } => BootstrapActionView::OpenPool {
                options: options@,
            },
            BootstrapAction::Migrate => BootstrapActionView::Migrate,
            BootstrapAction::Bind { address } => BootstrapActionView::Bind { address: address@ },
            BootstrapAction::Serve => BootstrapActionView::Serve,
            BootstrapAction::Abort { error } => BootstrapActionView::Abort { error: *error },
        }
    }
}

/// Where the start-up stands.
#[derive(Debug)]
pub enum Bootstrap {
    /// A connection to the database server is awaited.
    ConnectingServer { settings: Settings },
    /// The server's word on whether the database exists is awaited.
    CheckingDatabase { settings: Settings },
    /// The creation of the database is awaited.
    CreatingDatabase { settings: Settings },
    /// The connection pool is awaited.
    OpeningPool { settings: Settings },
    /// The migrations are awaited.
    Migrating { settings: Settings },
    /// The listener is awaited.
    Binding { settings: Settings, email_client: EmailClient },
    /// The service is up.
    Ready { application: Application },
    /// The start-up has failed.
    Aborted { error: BootstrapError },
}

/// What a [`Bootstrap`] stands for.
pub enum BootstrapView {
    ConnectingServer { settings: SettingsView },
    CheckingDatabase { settings: SettingsView },
    CreatingDatabase { settings: SettingsView },
    OpeningPool { settings: SettingsView },
    Migrating { settings: SettingsView },
    Binding { settings: SettingsView, email_client: EmailClientView },
    Ready { application: ApplicationView },
    Aborted { error: BootstrapError },
}

impl View for Bootstrap {
    type V = BootstrapView;

    open spec fn view(&self) -> BootstrapView {
        match self {
            Bootstrap::ConnectingServer { settings } => BootstrapView::ConnectingServer {
                settings: settings@,
            },
            Bootstrap::CheckingDatabase { settings } => BootstrapView::CheckingDatabase {
                settings: settings@,
            },
            Bootstrap::CreatingDatabase { settings } => BootstrapView::CreatingDatabase {
                settings: settings@,
            },
            Bootstrap::OpeningPool { settings } => BootstrapView::OpeningPool {
                settings: settings@,
            },
            Bootstrap::Migrating { settings } => BootstrapView::Migrating { settings: settings@ },
            Bootstrap::Binding { settings, email_client } => BootstrapView::Binding {
                settings: settings@,
                email_client: email_client@,
            },
            Bootstrap::Ready { application } => BootstrapView::Ready { application: application@ },
            Bootstrap::Aborted { error } => BootstrapView::Aborted { error: *error },
        }
    }
}

/// The statement that creates the database `name`.
pub open spec fn create_database_text(name: Seq<char>) -> Seq<char> {
    "CREATE DATABASE \""@ + name + "\";"@
}

/// The address that the listener is bound to: `host:port`.
pub open spec fn bind_address_text(app: ApplicationSettingsView) -> Seq<char> {
    app.host + ":"@ + decimal(app.port as nat)
}

/// The e-mail client that the settings describe.
pub open spec fn configured_client(settings: SettingsView) -> EmailClientView {
    EmailClientView {
        base_url: settings.email.base_url,
        sender: settings.email.sender_email,
        timeout: duration_of_secs(NOTIFICATION_TIMEOUT_SECS),
    }
}

/// The settings with the port that the listener got.
pub open spec fn with_port(settings: SettingsView, port: u16) -> SettingsView {
    SettingsView { app: ApplicationSettingsView { port, ..settings.app }, ..settings }
}

/// What is asked of the caller in a state.
pub open spec fn pending(state: BootstrapView) -> BootstrapActionView {
    match state {
        BootstrapView::ConnectingServer { settings } => BootstrapActionView::ConnectServer {
            options: server_options(settings.db),
        },
        BootstrapView::CheckingDatabase { settings } => BootstrapActionView::FindDatabase {
            name: settings.db.dbname,
        },
        BootstrapView::CreatingDatabase { settings } => BootstrapActionView::CreateDatabase {
            statement: create_database_text(settings.db.dbname),
        },
        BootstrapView::OpeningPool { settings } => BootstrapActionView::OpenPool {
            options: database_options(settings.db),
        },
        BootstrapView::Migrating { settings } => BootstrapActionView::Migrate,
        BootstrapView::Binding { settings, email_client } => BootstrapActionView::Bind {
            address: bind_address_text(settings.app),
        },
        BootstrapView::Ready { application } => BootstrapActionView::Serve,
        BootstrapView::Aborted { error } => BootstrapActionView::Abort { error },
    }
}

/// Where the start-up begins.
pub open spec fn first_state(settings: SettingsView) -> BootstrapView {
    BootstrapView::ConnectingServer { settings }
}

/// Where the start-up stands after `event`. Whatever is not the success of
/// the call that is awaited counts as its failure, and a listener on port 0
/// counts as none.
pub open spec fn next_state(state: BootstrapView, event: BootstrapEvent) -> BootstrapView {
    match state {
        BootstrapView::ConnectingServer { settings } => match event {
            BootstrapEvent::Done => BootstrapView::CheckingDatabase { settings },
            _ => BootstrapView::Aborted { error: BootstrapError::DatabaseUnreachable },
        },
        BootstrapView::CheckingDatabase { settings } => match event {
            BootstrapEvent::DatabaseFound(found) => if found {
                BootstrapView::OpeningPool { settings }
            } else {
                BootstrapView::CreatingDatabase { settings }
            },
            _ => BootstrapView::Aborted { error: BootstrapError::DatabaseUnreachable },
        },
        BootstrapView::CreatingDatabase { settings } => match event {
            BootstrapEvent::Done => BootstrapView::OpeningPool { settings },
            _ => BootstrapView::Aborted { error: BootstrapError::DatabaseCreation },
        },
        BootstrapView::OpeningPool { settings } => match event {
            BootstrapEvent::Done => BootstrapView::Migrating { settings },
            _ => BootstrapView::Aborted { error: BootstrapError::DatabaseUnreachable },
        },
        BootstrapView::Migrating { settings } => match event {
            BootstrapEvent::Done => if is_email_address(settings.email.sender_email) {
                BootstrapView::Binding { settings, email_client: configured_client(settings) }
            } else {
                BootstrapView::Aborted { error: BootstrapError::InvalidSender }
            },
            _ => BootstrapView::Aborted { error: BootstrapError::Migration },
        },
        BootstrapView::Binding { settings, email_client } => match event {
            BootstrapEvent::Bound(port) => if port != 0 {
                BootstrapView::Ready {
                    application: ApplicationView { settings: with_port(settings, port), email_client },
                }
            } else {
                BootstrapView::Aborted { error: BootstrapError::Bind }
            },
            _ => BootstrapView::Aborted { error: BootstrapError::Bind },
        },
        BootstrapView::Ready { application } => state,
        BootstrapView::Aborted { error } => state,
    }
}

/// Writes the statement that creates the database `name`.
pub fn create_database_statement(name: &str) -> (statement: String)
    ensures
        statement@ == create_database_text(name@),
{
    let mut statement = String::from_str("CREATE DATABASE \"");
    statement.append(name);
    statement.append("\";");
    statement
}

/// Writes the address that the listener is bound to.
pub fn bind_address(app: &ApplicationSettings) -> (address: String)
    ensures
        address@ == bind_address_text(app@),
{
    let mut address = app.host.clone();
    address.append(":");
    address.append(decimal_string(app.port).as_str());
    address
}

impl Bootstrap {
    /// Begins the start-up with a connection to the database server.
    pub fn begin(settings: Settings) -> (r: (Bootstrap, BootstrapAction))
        ensures
            r.0@ == first_state(settings@),
            r.1@ == pending(r.0@),
    {
        let state = Bootstrap::ConnectingServer { settings };
        let action = state.action();
        (state, action)
    }

    /// Goes on from the migrations, with what parsing made of the
    /// configured sender: with a sender, the e-mail client is set up and the
    /// listener is awaited; without one, the start-up has failed.
    pub fn with_sender(
        settings: Settings,
        sender: Result<SubscriberEmail, ValidationError>,
    ) -> (state: Bootstrap)
        ensures
            match sender {
                Ok(sender) => state@ == (BootstrapView::Binding {
                    settings: settings@,
                    email_client: EmailClientView {
                        base_url: settings@.email.base_url,
                        sender: sender@,
                        timeout: duration_of_secs(NOTIFICATION_TIMEOUT_SECS),
                    },
                }),
                Err(_) => state@ == (BootstrapView::Aborted {
                    error: BootstrapError::InvalidSender,
                }),
            },
    {
        match sender {
            Ok(sender) => {
                let email_client = EmailClient::new(
                    settings.email.base_url.clone(),
                    sender,
                    Duration::from_secs(NOTIFICATION_TIMEOUT_SECS),
                );
                Bootstrap::Binding { settings, email_client }
            },
            Err(_) => Bootstrap::Aborted { error: BootstrapError::InvalidSender },
        }
    }

    /// What is asked of the caller in this state.
    pub fn action(&self) -> (action: BootstrapAction)
        ensures
            action@ == pending(self@),
    {
        match self {
            Bootstrap::ConnectingServer { settings } => BootstrapAction::ConnectServer {
                options: settings.db.without_db(),
            },
            Bootstrap::CheckingDatabase { settings } => BootstrapAction::FindDatabase {
                name: settings.db.dbname.clone(),
            },
            Bootstrap::CreatingDatabase { settings } => BootstrapAction::CreateDatabase {
                statement: create_database_statement(settings.db.dbname.as_str()),
            },
            Bootstrap::OpeningPool { settings } => BootstrapAction::OpenPool {
                options: settings.db.with_db(),
            },
            Bootstrap::Migrating { settings } => BootstrapAction::Migrate,
            Bootstrap::Binding { settings, email_client } => BootstrapAction::Bind {
                address: bind_address(&settings.app),
            },
            Bootstrap::Ready { application } => BootstrapAction::Serve,
            Bootstrap::Aborted { error } => BootstrapAction::Abort { error: *error },
        }
    }

    /// Takes the answer of the call that was asked for last.
    ///
    /// The database is created only where the server says that it is
    /// missing. The e-mail client is set up once the migrations are applied,
    /// and the listener is bound last. The port that the listener reports is
    /// written into the settings of the running application.
    pub fn step(self, event: BootstrapEvent) -> (r: (Bootstrap, BootstrapAction))
        ensures
            r.0@ == next_state(self@, event),
            r.1@ == pending(r.0@),
    {
        let next = match self {
            Bootstrap::ConnectingServer { settings } => match event {
                BootstrapEvent::Done => Bootstrap::CheckingDatabase { settings },
                _ => Bootstrap::Aborted { error: BootstrapError::DatabaseUnreachable },
            },
            Bootstrap::CheckingDatabase { settings } => match event {
                BootstrapEvent::DatabaseFound(found) => if found {
                    Bootstrap::OpeningPool { settings }
                } else {
                    Bootstrap::CreatingDatabase { settings }
                },
                _ => Bootstrap::Aborted { error: BootstrapError::DatabaseUnreachable },
            },
            Bootstrap::CreatingDatabase { settings } => match event {
                BootstrapEvent::Done => Bootstrap::OpeningPool { settings },
                _ => Bootstrap::Aborted { error: BootstrapError::DatabaseCreation },
            },
            Bootstrap::OpeningPool { settings } => match event {
                BootstrapEvent::Done => Bootstrap::Migrating { settings },
                _ => Bootstrap::Aborted { error: BootstrapError::DatabaseUnreachable },
            },
            Bootstrap::Migrating { settings } => match event {
                BootstrapEvent::Done => {
                    let sender = settings.email.sender();
                    Bootstrap::with_sender(settings, sender)
                },
                _ => Bootstrap::Aborted { error: BootstrapError::Migration },
            },
            Bootstrap::Binding { settings, email_client } => match event {
                BootstrapEvent::Bound(port) => if port != 0 {
                    let mut settings = settings;
                    settings.app.port = port;
                    Bootstrap::Ready { application: Application { settings, email_client } }
                } else {
                    Bootstrap::Aborted { error: BootstrapError::Bind }
                },
                _ => Bootstrap::Aborted { error: BootstrapError::Bind },
            },
            Bootstrap::Ready { application } => Bootstrap::Ready { application },
            Bootstrap::Aborted { error } => Bootstrap::Aborted { error },
        };
        let action = next.action();
        (next, action)
    }
}

/// Where the start-up stands after a run of events.
pub open spec fn run(state: BootstrapView, events: Seq<BootstrapEvent>) -> BootstrapView
    decreases events.len(),
{
    if events.len() == 0 {
        state
    } else {
        run(next_state(state, events[0]), events.drop_first())
    }
}

/// What the start-up asks for in the course of a run of events, in order.
pub open spec fn requests(
    state: BootstrapView,
    events: Seq<BootstrapEvent>,
) -> Seq<BootstrapActionView>
    decreases events.len(),
{
    if events.len() == 0 {
        Seq::empty()
    } else {
        seq![pending(next_state(state, events[0]))] + requests(
            next_state(state, events[0]),
            events.drop_first(),
        )
    }
}

/// Whether a state belongs to a start-up with `settings`: it carries those
/// settings unchanged, but for the port of a running application, which is
/// the listener's and not 0; and its e-mail client is the configured one,
/// with a sender that is an e-mail address.
pub open spec fn on_course(state: BootstrapView, settings: SettingsView) -> bool {
    match state {
        BootstrapView::ConnectingServer { settings: s } => s == settings,
        BootstrapView::CheckingDatabase { settings: s } => s == settings,
        BootstrapView::CreatingDatabase { settings: s } => s == settings,
        BootstrapView::OpeningPool { settings: s } => s == settings,
        BootstrapView::Migrating { settings: s } => s == settings,
        BootstrapView::Binding { settings: s, email_client } => {
            &&& s == settings
            &&& email_client == configured_client(settings)
            &&& is_email_address(settings.email.sender_email)
        },
        BootstrapView::Ready { application } => {
            &&& application.settings == with_port(settings, application.settings.app.port)
            &&& application.settings.app.port != 0
            &&& application.email_client == configured_client(settings)
            &&& is_email_address(settings.email.sender_email)
        },
        BootstrapView::Aborted { error } => true,
    }
}

/// A failed start-up stays failed: whatever comes in afterwards, nothing is
/// asked for but to give up, with the same error.
pub proof fn lemma_aborted_is_final(error: BootstrapError, events: Seq<BootstrapEvent>)
    ensures
        run(BootstrapView::Aborted { error }, events) == (BootstrapView::Aborted { error }),
        requests(BootstrapView::Aborted { error }, events).len() == events.len(),
        forall|i: int|
            0 <= i < events.len() ==> #[trigger] requests(BootstrapView::Aborted { error }, events)[i]
                == (BootstrapActionView::Abort { error }),
    decreases events.len(),
{
    if events.len() > 0 {
        lemma_aborted_is_final(error, events.drop_first());
    }
}

/// A running service stays up: whatever comes in afterwards, the application
/// is the same and nothing is asked for but to serve.
pub proof fn lemma_ready_is_final(application: ApplicationView, events: Seq<BootstrapEvent>)
    ensures
        run(BootstrapView::Ready { application }, events) == (BootstrapView::Ready { application }),
        requests(BootstrapView::Ready { application }, events).len() == events.len(),
        forall|i: int|
            0 <= i < events.len() ==> #[trigger] requests(
                BootstrapView::Ready { application },
                events,
            )[i] == BootstrapActionView::Serve,
    decreases events.len(),
{
    if events.len() > 0 {
        lemma_ready_is_final(application, events.drop_first());
    }
}

/// With a database server that cannot be reached, the start-up fails at the
/// first answer and nothing is ever served.
pub proof fn lemma_unreachable_server_serves_nothing(
    settings: SettingsView,
    events: Seq<BootstrapEvent>,
)
    requires
        events.len() > 0,
        events[0] != BootstrapEvent::Done,
    ensures
        run(first_state(settings), events) == (BootstrapView::Aborted {
            error: BootstrapError::DatabaseUnreachable,
        }),
        forall|i: int|
            0 <= i < events.len() ==> #[trigger] requests(first_state(settings), events)[i] == (
            BootstrapActionView::Abort { error: BootstrapError::DatabaseUnreachable }),
{
    let error = BootstrapError::DatabaseUnreachable;
    let rest = events.drop_first();
    lemma_aborted_is_final(error, rest);
    assert(next_state(first_state(settings), events[0]) == (BootstrapView::Aborted { error }));
    let all = requests(first_state(settings), events);
    assert forall|i: int| 0 <= i < events.len() implies #[trigger] all[i] == (
    BootstrapActionView::Abort { error }) by {
        if i > 0 {
            assert(all[i] == requests(BootstrapView::Aborted { error }, rest)[i - 1]);
        }
    }
}

/// The service comes up in one way only: out of the wait for the listener,
/// on the word that the listener is bound. The port in effect is then the
/// listener's, it is not 0, and nothing else in the settings has changed.
pub proof fn lemma_effective_port_is_the_listeners(state: BootstrapView, event: BootstrapEvent)
    requires
        !(state is Ready),
        next_state(state, event) is Ready,
    ensures
        state is Binding,
        event is Bound,
        event->Bound_0 != 0,
        next_state(state, event)->application.settings.app.port == event->Bound_0,
        next_state(state, event)->application.settings == with_port(
            state->Binding_settings,
            event->Bound_0,
        ),
        next_state(state, event)->application.email_client == state->Binding_email_client,
{
}

/// One event keeps a start-up on its course.
pub proof fn lemma_step_stays_on_course(
    state: BootstrapView,
    settings: SettingsView,
    event: BootstrapEvent,
)
    requires
        on_course(state, settings),
    ensures
        on_course(next_state(state, event), settings),
{
}

/// Whatever the events, a start-up stays on its course. So where the service
/// is up, its settings are the configured ones with the listener's port,
/// which is not 0, and its e-mail client is the configured one.
pub proof fn lemma_run_stays_on_course(
    state: BootstrapView,
    settings: SettingsView,
    events: Seq<BootstrapEvent>,
)
    requires
        on_course(state, settings),
    ensures
        on_course(run(state, events), settings),
    decreases events.len(),
{
    if events.len() > 0 {
        lemma_step_stays_on_course(state, settings, events[0]);
        lemma_run_stays_on_course(next_state(state, events[0]), settings, events.drop_first());
    }
}

/// The events of a start-up on a server that lacks the database, where
/// every call succeeds and the listener gets `port`.
pub open spec fn fresh_database_events(port: u16) -> Seq<BootstrapEvent> {
    seq![
        BootstrapEvent::Done,
        BootstrapEvent::DatabaseFound(false),
        BootstrapEvent::Done,
        BootstrapEvent::Done,
        BootstrapEvent::Done,
        BootstrapEvent::Bound(port),
    ]
}

/// Against a server that lacks the database, with nothing failing: the
/// database is created, the pool opened, the migrations applied and the
/// listener bound, in this order, and then the service is up.
pub proof fn lemma_fresh_database_is_created_and_migrated(settings: SettingsView, port: u16)
    requires
        is_email_address(settings.email.sender_email),
        port != 0,
    ensures
        run(first_state(settings), fresh_database_events(port)) == (BootstrapView::Ready {
            application: ApplicationView {
                settings: with_port(settings, port),
                email_client: configured_client(settings),
            },
        }),
        requests(first_state(settings), fresh_database_events(port)) == seq![
            BootstrapActionView::FindDatabase { name: settings.db.dbname },
            BootstrapActionView::CreateDatabase {
                statement: create_database_text(settings.db.dbname),
            },
            BootstrapActionView::OpenPool { options: database_options(settings.db) },
            BootstrapActionView::Migrate,
            BootstrapActionView::Bind { address: bind_address_text(settings.app) },
            BootstrapActionView::Serve,
        ],
{
    let e0 = fresh_database_events(port);
    let e1 = e0.drop_first();
    let e2 = e1.drop_first();
    let e3 = e2.drop_first();
    let e4 = e3.drop_first();
    let e5 = e4.drop_first();
    let e6 = e5.drop_first();
    assert(e6.len() == 0);
    let s0 = first_state(settings);
    let s1 = next_state(s0, e0[0]);
    let s2 = next_state(s1, e1[0]);
    let s3 = next_state(s2, e2[0]);
    let s4 = next_state(s3, e3[0]);
    let s5 = next_state(s4, e4[0]);
    let s6 = next_state(s5, e5[0]);
    assert(run(s6, e6) == s6);
    assert(run(s5, e5) == s6);
    assert(run(s4, e4) == s6);
    assert(run(s3, e3) == s6);
    assert(run(s2, e2) == s6);
    assert(run(s1, e1) == s6);
    assert(requests(s6, e6) =~= Seq::empty());
    assert(requests(s5, e5) =~= seq![pending(s6)]);
    assert(requests(s4, e4) =~= seq![pending(s5), pending(s6)]);
    assert(requests(s3, e3) =~= seq![pending(s4), pending(s5), pending(s6)]);
    assert(requests(s2, e2) =~= seq![pending(s3), pending(s4), pending(s5), pending(s6)]);
    assert(requests(s1, e1) =~= seq![
        pending(s2),
        pending(s3),
        pending(s4),
        pending(s5),
        pending(s6),
    ]);
    assert(requests(s0, e0) =~= seq![
        pending(s1),
        pending(s2),
        pending(s3),
        pending(s4),
        pending(s5),
        pending(s6),
    ]);
}

/// The port in effect is the one that the listener reported: a run that
/// brings the service up has passed through the wait for the listener, and
/// the word that ended that wait named the port that the settings now hold.
pub proof fn lemma_serving_needs_a_listener(state: BootstrapView, events: Seq<BootstrapEvent>)
    requires
        !(state is Ready),
        run(state, events) is Ready,
    ensures
        exists|k: int|
            0 <= k < events.len() && #[trigger] run(state, events.take(k)) is Binding && events[k]
                == BootstrapEvent::Bound(run(state, events)->application.settings.app.port),
        run(state, events)->application.settings.app.port != 0,
    decreases events.len(),
{
    assert(events.len() > 0);
    let next = next_state(state, events[0]);
    let rest = events.drop_first();
    if next is Ready {
        lemma_ready_is_final(next->application, rest);
        lemma_effective_port_is_the_listeners(state, events[0]);
        assert(events.take(0) =~= Seq::<BootstrapEvent>::empty());
        assert(run(state, events.take(0)) == state);
    } else {
        lemma_serving_needs_a_listener(next, rest);
        let port = run(state, events)->application.settings.app.port;
        let k = choose|k: int|
            0 <= k < rest.len() && #[trigger] run(next, rest.take(k)) is Binding && rest[k]
                == BootstrapEvent::Bound(port);
        assert(events.take(k + 1).drop_first() =~= rest.take(k));
        assert(events.take(k + 1)[0] == events[0]);
        assert(run(state, events.take(k + 1)) == run(next, rest.take(k)));
    }
}

/// Whether a state comes before the end of the migrations.
pub open spec fn before_migrated(state: BootstrapView) -> bool {
    ||| state is ConnectingServer
    ||| state is CheckingDatabase
    ||| state is CreatingDatabase
    ||| state is OpeningPool
    ||| state is Migrating
}

/// Nothing is served before the migrations are applied: a run that brings
/// the service up has passed through the wait for the migrations, and their
/// success was reported there.
pub proof fn lemma_serving_needs_migrations(state: BootstrapView, events: Seq<BootstrapEvent>)
    requires
        before_migrated(state),
        run(state, events) is Ready,
    ensures
        exists|k: int|
            0 <= k < events.len() && #[trigger] run(state, events.take(k)) is Migrating
                && events[k] == BootstrapEvent::Done,
    decreases events.len(),
{
    assert(events.len() > 0);
    let next = next_state(state, events[0]);
    let rest = events.drop_first();
    if state is Migrating {
        assert(events.take(0) =~= Seq::<BootstrapEvent>::empty());
        assert(run(state, events.take(0)) == state);
        if events[0] != BootstrapEvent::Done {
            lemma_aborted_is_final(next->error, rest);
        }
    } else {
        if next is Aborted {
            lemma_aborted_is_final(next->error, rest);
        }
        lemma_serving_needs_migrations(next, rest);
        let k = choose|k: int|
            0 <= k < rest.len() && #[trigger] run(next, rest.take(k)) is Migrating && rest[k]
                == BootstrapEvent::Done;
        assert(events.take(k + 1).drop_first() =~= rest.take(k));
        assert(events.take(k + 1)[0] == events[0]);
        assert(run(state, events.take(k + 1)) == run(next, rest.take(k)));
    }
}

} // verus!
