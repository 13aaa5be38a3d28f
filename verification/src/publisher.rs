//! One run of the publisher, as a machine that is told what happened and
//! answers what to do next. The caller reads the file, talks to the broker
//! and sleeps; every decision of the run is taken here.

use vstd::prelude::*;
use crate::settings::{Config, ConfigError, ConfigView};

verus! {

/// The name of the settings file.
pub const SETTINGS_FILE: &'static str = "config.toml";

/// How long the run rests after each call to the broker, in milliseconds.
pub const SETTLE_MILLIS: u64 = 500;

/// The delivery guarantee of a subscription or of a message.
#[derive(Clone, Copy, Debug, PartialEq, Eq, Structural)]
pub enum Delivery {
    AtMostOnce,
    AtLeastOnce,
    ExactlyOnce,
}

/// A call to the broker.
#[derive(Clone, Copy, Debug, PartialEq, Eq, Structural)]
pub enum Call {
    Connect,
    Subscribe,
    Publish,
}

/// Why a run ends before its time.
#[derive(Clone, Copy, Debug, PartialEq, Eq, Structural)]
pub enum Failure {
    /// The command to publish is missing from the arguments.
    Usage,
    /// The settings file could not be read.
    Unreadable,
    /// The settings file is faulty.
    Settings(ConfigError),
    /// A call to the broker failed.
    Protocol(Call),
}

impl Failure {
    /// The text of `message`.
    pub open spec fn message_text(self) -> Seq<char> {
        match self {
            Failure::Usage => "wrong number of log-loading arguments"@,
            Failure::Unreadable => "the settings file cannot be read"@,
            Failure::Settings(e) => e.message_text(),
            Failure::Protocol(Call::Connect) => "the connection to the broker failed"@,
            Failure::Protocol(Call::Subscribe) => "the subscription failed"@,
            Failure::Protocol(Call::Publish) => "the command could not be published"@,
        }
    }

    /// A line for the operator.
    pub fn message(&self) -> (r: &'static str)
        ensures
            r@ == self.message_text(),
    {
        match self {
            Failure::Usage => "wrong number of log-loading arguments",
            Failure::Unreadable => "the settings file cannot be read",
            Failure::Settings(e) => e.message(),
            Failure::Protocol(Call::Connect) => "the connection to the broker failed",
            Failure::Protocol(Call::Subscribe) => "the subscription failed",
            Failure::Protocol(Call::Publish) => "the command could not be published",
        }
    }
}

/// Where a run stands: what it has asked for last and waits to hear of.
#[derive(Clone, Copy, Debug, PartialEq, Eq, Structural)]
pub enum Stage {
    /// Nothing was asked for yet; the run waits for the arguments.
    Start,
    /// The settings file is being read.
    Loading,
    /// The connection is being opened.
    Connecting,
    /// The run rests after the connection was opened.
    Connected,
    /// The subscription is being made.
    Subscribing,
    /// The run rests after the subscription.
    Subscribed,
    /// The command is being published.
    Publishing,
    /// The run rests after the command was published.
    Published,
    /// The run is over and did all it had to do.
    Finished,
    /// The run is over and failed.
    Aborted(Failure),
}

/// What the caller reports to the run.
#[derive(Clone, Debug, PartialEq, Eq)]
pub enum Event {
    /// The arguments of the process, the program's name first.
    Arguments(Vec<String>),
    /// The text of the settings file.
    SettingsText(String),
    /// What was asked for is done.
    Done,
    /// What was asked for failed.
    Failed,
}

/// An `Event`, with strings as sequences of characters.
pub enum EventView {
    Arguments(Seq<Seq<char>>),
    SettingsText(Seq<char>),
    Done,
    Failed,
}

impl View for Event {
    type V = EventView;

    open spec fn view(&self) -> EventView {
        match self {
            Event::Arguments(arguments) => EventView::Arguments(arguments.deep_view()),
            Event::SettingsText(text) => EventView::SettingsText(text@),
            Event::Done => EventView::Done,
            Event::Failed => EventView::Failed,
        }
    }
}

/// What the run asks its caller to do.
#[derive(Clone, Debug, PartialEq, Eq)]
pub enum Action {
    /// Read the file `path` and report its text.
    ReadSettings { path: String },
    /// Open the connection to the broker.
    Connect { client_id: String, host: String, port: u16, user: String, password: String },
    /// Sleep.
    Pause { millis: u64 },
    /// Subscribe to `topic`.
    Subscribe { topic: String, delivery: Delivery },
    /// Publish `payload` to `topic`.
    Publish { topic: String, delivery: Delivery, retain: bool, payload: String },
    /// End the process: the run is complete.
    Finish,
    /// End the process with a failure.
    Abort { failure: Failure },
}

/// An `Action`, with strings as sequences of characters.
pub enum ActionView {
    ReadSettings { path: Seq<char> },
    Connect {
        client_id: Seq<char>,
        host: Seq<char>,
        port: u16,
        user: Seq<char>,
        password: Seq<char>,
    },
    Pause { millis: u64 },
    Subscribe { topic: Seq<char>, delivery: Delivery },
    Publish { topic: Seq<char>, delivery: Delivery, retain: bool, payload: Seq<char> },
    Finish,
    Abort { failure: Failure },
}

impl View for Action {
    type V = ActionView;

    open spec fn view(&self) -> ActionView {
        match self {
            Action::ReadSettings { path } => ActionView::ReadSettings { path: path@ },
            Action::Connect { client_id, host, port, user, password } => ActionView::Connect {
                client_id: client_id@,
                host: host@,
                port: *port,
                user: user@,
                password: password@,
            },
            Action::Pause { millis } => ActionView::Pause { millis: *millis },
            Action::Subscribe { topic, delivery } => ActionView::Subscribe {
                topic: topic@,
                delivery: *delivery,
            },
            Action::Publish { topic, delivery, retain, payload } => ActionView::Publish {
                topic: topic@,
                delivery: *delivery,
                retain: *retain,
                payload: payload@,
            },
            Action::Finish => ActionView::Finish,
            Action::Abort { failure } => ActionView::Abort { failure: *failure },
        }
    }
}

/// A run: its stage, and what it keeps of the arguments and the settings
/// for the calls to come.
#[derive(Clone, Debug, PartialEq, Eq)]
pub struct Publisher {
    stage: Stage,
    topic: String,
    command: String,
}

/// A `Publisher`, with strings as sequences of characters.
pub struct PublisherView {
    pub stage: Stage,
    /// The topic of the settings, once they are loaded.
    pub topic: Seq<char>,
    /// The command to publish, once the arguments are in.
    pub command: Seq<char>,
}

impl View for Publisher {
    type V = PublisherView;

    closed spec fn view(&self) -> PublisherView {
        PublisherView { stage: self.stage, topic: self.topic@, command: self.command@ }
    }
}

impl PublisherView {
    /// A run before anything happened.
    pub open spec fn initial() -> PublisherView {
        PublisherView { stage: Stage::Start, topic: Seq::empty(), command: Seq::empty() }
    }

    /// The run moves to `stage` and asks for `action`.
    pub open spec fn proceed(self, stage: Stage, action: ActionView) -> (PublisherView, ActionView) {
        (PublisherView { stage, ..self }, action)
    }

    /// The run ends with `failure`.
    pub open spec fn abort(self, failure: Failure) -> (PublisherView, ActionView) {
        self.proceed(Stage::Aborted(failure), ActionView::Abort { failure })
    }

    /// The rest after a call to the broker.
    pub open spec fn settle() -> ActionView {
        ActionView::Pause { millis: SETTLE_MILLIS }
    }

    /// The run after `event`, and what it asks for. At each stage one event
    /// lets the run go on; any other ends it, with the failure of that stage.
    /// A run that is over stays as it is.
    pub open spec fn next(self, event: EventView) -> (PublisherView, ActionView) {
        match self.stage {
            Stage::Start => match event {
                EventView::Arguments(arguments) => if arguments.len() >= 2 {
                    (
                        PublisherView { stage: Stage::Loading, command: arguments[1], ..self },
                        ActionView::ReadSettings { path: SETTINGS_FILE@ },
                    )
                } else {
                    self.abort(Failure::Usage)
                },
                _ => self.abort(Failure::Usage),
            },
            Stage::Loading => match event {
                EventView::SettingsText(text) => match ConfigView::from_text(text) {
                    Ok(settings) => (
                        PublisherView {
                            stage: Stage::Connecting,
                            topic: settings.mq_topic(),
                            ..self
                        },
                        ActionView::Connect {
                            client_id: settings.mq_clientid(),
                            host: settings.mq_host(),
                            port: settings.mq_port(),
                            user: settings.mq_user(),
                            password: settings.mq_password(),
                        },
                    ),
                    Err(e) => self.abort(Failure::Settings(e)),
                },
                _ => self.abort(Failure::Unreadable),
            },
            Stage::Connecting => match event {
                EventView::Done => self.proceed(Stage::Connected, PublisherView::settle()),
                _ => self.abort(Failure::Protocol(Call::Connect)),
            },
            Stage::Connected => match event {
                EventView::Done => self.proceed(
                    Stage::Subscribing,
                    ActionView::Subscribe { topic: self.topic, delivery: Delivery::AtLeastOnce },
                ),
                _ => self.abort(Failure::Protocol(Call::Connect)),
            },
            Stage::Subscribing => match event {
                EventView::Done => self.proceed(Stage::Subscribed, PublisherView::settle()),
                _ => self.abort(Failure::Protocol(Call::Subscribe)),
            },
            Stage::Subscribed => match event {
                EventView::Done => self.proceed(
                    Stage::Publishing,
                    ActionView::Publish {
                        topic: self.topic,
                        delivery: Delivery::AtLeastOnce,
                        retain: false,
                        payload: self.command,
                    },
                ),
                _ => self.abort(Failure::Protocol(Call::Subscribe)),
            },
            Stage::Publishing => match event {
                EventView::Done => self.proceed(Stage::Published, PublisherView::settle()),
                _ => self.abort(Failure::Protocol(Call::Publish)),
            },
            Stage::Published => match event {
                EventView::Done => self.proceed(Stage::Finished, ActionView::Finish),
                _ => self.abort(Failure::Protocol(Call::Publish)),
            },
            Stage::Finished => (self, ActionView::Finish),
            Stage::Aborted(failure) => (self, ActionView::Abort { failure }),
        }
    }

    /// The actions that the run asks for, one for each of `events` in turn.
    pub open spec fn run(self, events: Seq<EventView>) -> Seq<ActionView>
        decreases events.len(),
    {
        if events.len() == 0 {
            Seq::empty()
        } else {
            let (after, action) = self.next(events.first());
            seq![action] + after.run(events.drop_first())
        }
    }
}

impl Publisher {
    /// A run before anything happened.
    pub fn new() -> (r: Publisher)
        ensures
            r@ == PublisherView::initial(),
    {
        Publisher { stage: Stage::Start, topic: String::new(), command: String::new() }
    }

    /// Where the run stands.
    pub fn stage(&self) -> (r: Stage)
        ensures
            r == self@.stage,
    {
        self.stage
    }

    /// Ends the run with `failure`.
    fn abort(&mut self, failure: Failure) -> (action: Action)
        ensures
            (final(self)@, action@) == old(self)@.abort(failure),
    {
        self.stage = Stage::Aborted(failure);
        Action::Abort { failure }
    }

    /// Moves to `stage` where `event` says that the last action is done, and
    /// ends the run with the failure of `call` where it says anything else.
    fn done_or_abort(&mut self, event: &Event, stage: Stage, action: Action, call: Call) -> (r:
        Action)
        ensures
            (final(self)@, r@) == (if event@ is Done {
                old(self)@.proceed(stage, action@)
            } else {
                old(self)@.abort(Failure::Protocol(call))
            }),
    {
        match event {
            Event::Done => {
                self.stage = stage;
                action
            },
            _ => self.abort(Failure::Protocol(call)),
        }
    }

    /// Takes in what happened and answers what to do next.
    pub fn step(&mut self, event: Event) -> (action: Action)
        ensures
            (final(self)@, action@) == old(self)@.next(event@),
    {
        let rest = Action::Pause { millis: SETTLE_MILLIS };
        match self.stage {
            Stage::Start => match event {
                Event::Arguments(arguments) => {
                    if arguments.len() >= 2 {
                        self.command = arguments[1].clone();
                        self.stage = Stage::Loading;
                        Action::ReadSettings { path: SETTINGS_FILE.to_owned() }
                    } else {
                        self.abort(Failure::Usage)
                    }
                },
                _ => self.abort(Failure::Usage),
            },
            Stage::Loading => match event {
                Event::SettingsText(text) => match Config::load(text.as_str()) {
                    Ok(settings) => {
                        self.topic = settings.mq_topic().to_owned();
                        self.stage = Stage::Connecting;
                        Action::Connect {
                            client_id: settings.mq_clientid().to_owned(),
                            host: settings.mq_host().to_owned(),
                            port: settings.mq_port(),
                            user: settings.mq_user().to_owned(),
                            password: settings.mq_password().to_owned(),
                        }
                    },
                    Err(e) => self.abort(Failure::Settings(e)),
                },
                _ => self.abort(Failure::Unreadable),
            },
            Stage::Connecting => self.done_or_abort(&event, Stage::Connected, rest, Call::Connect),
            Stage::Connected => {
                let subscribe = Action::Subscribe {
                    topic: self.topic.clone(),
                    delivery: Delivery::AtLeastOnce,
                };
                self.done_or_abort(&event, Stage::Subscribing, subscribe, Call::Connect)
            },
            Stage::Subscribing => self.done_or_abort(
                &event,
                Stage::Subscribed,
                rest,
                Call::Subscribe,
            ),
            Stage::Subscribed => {
                let publish = Action::Publish {
                    topic: self.topic.clone(),
                    delivery: Delivery::AtLeastOnce,
                    retain: false,
                    payload: self.command.clone(),
                };
                self.done_or_abort(&event, Stage::Publishing, publish, Call::Subscribe)
            },
            Stage::Publishing => self.done_or_abort(&event, Stage::Published, rest, Call::Publish),
            Stage::Published => self.done_or_abort(
                &event,
                Stage::Finished,
                Action::Finish,
                Call::Publish,
            ),
            Stage::Finished => Action::Finish,
            Stage::Aborted(failure) => Action::Abort { failure },
        }
    }
}

/// The actions of a run begin with the answer to the first event and go on
/// with the actions of the run that the first event leaves.
proof fn lemma_run_unfolds(run: PublisherView, first: EventView, rest: Seq<EventView>)
    ensures
        run.run(seq![first] + rest) == seq![run.next(first).1] + run.next(first).0.run(rest),
{
    let events = seq![first] + rest;
    assert(events.first() == first);
    assert(events.drop_first() =~= rest);
}

/// A run answers each event with one action.
pub proof fn law_one_action_for_each_event(run: PublisherView, events: Seq<EventView>)
    ensures
        run.run(events).len() == events.len(),
    decreases events.len(),
{
    if events.len() > 0 {
        law_one_action_for_each_event(run.next(events.first()).0, events.drop_first());
    }
}

/// A run that has failed stays failed: whatever it is told from then on, it
/// answers with the same failure, and asks for nothing else.
pub proof fn law_abort_is_final(run: PublisherView, failure: Failure, events: Seq<EventView>)
    requires
        run.stage == Stage::Aborted(failure),
    ensures
        forall|i: int|
            0 <= i < events.len() ==> #[trigger] run.run(events)[i] == (ActionView::Abort {
                failure,
            }),
    decreases events.len(),
{
    law_one_action_for_each_event(run, events);
    if events.len() > 0 {
        let rest = events.drop_first();
        assert(run.next(events.first()).0 == run);
        law_abort_is_final(run, failure, rest);
        law_one_action_for_each_event(run, rest);
        assert forall|i: int| 0 <= i < events.len() implies #[trigger] run.run(events)[i] == (
        ActionView::Abort { failure }) by {
            if i > 0 {
                assert(run.run(events)[i] == run.run(rest)[i - 1]);
            }
        }
    }
}

/// The first failure ends the run: after an action that aborts, every
/// later action of the run aborts with the same failure, so nothing is
/// read, connected, subscribed or published any more.
pub proof fn law_nothing_follows_an_abort(
    run: PublisherView,
    events: Seq<EventView>,
    at: int,
    failure: Failure,
)
    requires
        0 <= at < events.len(),
        run.run(events)[at] == (ActionView::Abort { failure }),
    ensures
        forall|i: int|
            at <= i < events.len() ==> #[trigger] run.run(events)[i] == (ActionView::Abort {
                failure,
            }),
    decreases events.len(),
{
    let (after, action) = run.next(events.first());
    let rest = events.drop_first();
    law_one_action_for_each_event(run, events);
    law_one_action_for_each_event(after, rest);
    if at == 0 {
        assert(action == ActionView::Abort { failure });
        assert(after.stage == Stage::Aborted(failure));
        law_abort_is_final(after, failure, rest);
        assert forall|i: int| 0 <= i < events.len() implies #[trigger] run.run(events)[i] == (
        ActionView::Abort { failure }) by {
            if i > 0 {
                assert(run.run(events)[i] == after.run(rest)[i - 1]);
            }
        }
    } else {
        assert(run.run(events)[at] == after.run(rest)[at - 1]);
        law_nothing_follows_an_abort(after, rest, at - 1, failure);
        assert forall|i: int| at <= i < events.len() implies #[trigger] run.run(events)[i] == (
        ActionView::Abort { failure }) by {
            assert(run.run(events)[i] == after.run(rest)[i - 1]);
        }
    }
}

/// Without a command among the arguments the run ends at once with a usage
/// error: whatever follows, no action of the run is anything but that
/// failure, so no settings are read and no connection is tried.
pub proof fn law_usage_error_comes_first(first: EventView, rest: Seq<EventView>)
    requires
        !(first matches EventView::Arguments(arguments) && arguments.len() >= 2),
    ensures
        forall|i: int|
            0 <= i <= rest.len() ==> #[trigger] PublisherView::initial().run(seq![first] + rest)[i]
                == (ActionView::Abort { failure: Failure::Usage }),
{
    let events = seq![first] + rest;
    let run = PublisherView::initial();
    lemma_run_unfolds(run, first, rest);
    law_one_action_for_each_event(run, events);
    assert(run.run(events)[0] == ActionView::Abort { failure: Failure::Usage });
    law_nothing_follows_an_abort(run, events, 0, Failure::Usage);
}

/// Without settings nothing is connected: where the settings file cannot be
/// read or is faulty, the run asks for the file and, whatever it is told
/// afterwards, for nothing but to end with that failure.
pub proof fn law_no_connection_without_settings(
    arguments: Seq<Seq<char>>,
    answer: EventView,
    rest: Seq<EventView>,
)
    requires
        arguments.len() >= 2,
        !(answer matches EventView::SettingsText(text) && ConfigView::from_text(text) is Ok),
    ensures
        ({
            let actions = PublisherView::initial().run(
                seq![EventView::Arguments(arguments), answer] + rest,
            );
            let failure = match answer {
                EventView::SettingsText(text) => Failure::Settings(
                    ConfigView::from_text(text)->Err_0,
                ),
                _ => Failure::Unreadable,
            };
            &&& actions.len() == 2 + rest.len()
            &&& actions[0] == (ActionView::ReadSettings { path: SETTINGS_FILE@ })
            &&& forall|i: int|
                1 <= i < actions.len() ==> #[trigger] actions[i] == (ActionView::Abort { failure })
        }),
{
    let e0 = EventView::Arguments(arguments);
    let s0 = PublisherView::initial();
    let s1 = s0.next(e0).0;
    let t1 = seq![answer] + rest;
    let events = seq![e0, answer] + rest;
    assert(seq![e0] + t1 =~= events);
    lemma_run_unfolds(s1, answer, rest);
    lemma_run_unfolds(s0, e0, t1);
    law_one_action_for_each_event(s0, events);
    let failure = match answer {
        EventView::SettingsText(text) => Failure::Settings(ConfigView::from_text(text)->Err_0),
        _ => Failure::Unreadable,
    };
    assert(s0.run(events)[1] == ActionView::Abort { failure });
    law_nothing_follows_an_abort(s0, events, 1, failure);
}

/// A run in which nothing fails asks for these eight actions and no other:
/// it reads the settings, connects with what they state, rests, subscribes
/// once to their topic, rests, publishes the command once to the same topic,
/// not retained, rests and finishes; it subscribes and publishes with
/// delivery at least once, and every rest takes `SETTLE_MILLIS`.
pub proof fn law_faultless_run(arguments: Seq<Seq<char>>, text: Seq<char>)
    requires
        arguments.len() >= 2,
        ConfigView::from_text(text) is Ok,
    ensures
        ({
            let settings = ConfigView::from_text(text)->Ok_0;
            PublisherView::initial().run(
                seq![
                    EventView::Arguments(arguments),
                    EventView::SettingsText(text),
                    EventView::Done,
                    EventView::Done,
                    EventView::Done,
                    EventView::Done,
                    EventView::Done,
                    EventView::Done,
                ],
            ) == seq![
                ActionView::ReadSettings { path: SETTINGS_FILE@ },
                ActionView::Connect {
                    client_id: settings.mq_clientid(),
                    host: settings.mq_host(),
                    port: settings.mq_port(),
                    user: settings.mq_user(),
                    password: settings.mq_password(),
                },
                ActionView::Pause { millis: SETTLE_MILLIS },
                ActionView::Subscribe {
                    topic: settings.mq_topic(),
                    delivery: Delivery::AtLeastOnce,
                },
                ActionView::Pause { millis: SETTLE_MILLIS },
                ActionView::Publish {
                    topic: settings.mq_topic(),
                    delivery: Delivery::AtLeastOnce,
                    retain: false,
                    payload: arguments[1],
                },
                ActionView::Pause { millis: SETTLE_MILLIS },
                ActionView::Finish,
            ]
        }),
{
    let done = EventView::Done;
    let e0 = EventView::Arguments(arguments);
    let e1 = EventView::SettingsText(text);
    let s0 = PublisherView::initial();
    let s1 = s0.next(e0).0;
    let s2 = s1.next(e1).0;
    let s3 = s2.next(done).0;
    let s4 = s3.next(done).0;
    let s5 = s4.next(done).0;
    let s6 = s5.next(done).0;
    let s7 = s6.next(done).0;
    let s8 = s7.next(done).0;
    let t8 = Seq::<EventView>::empty();
    let t7 = seq![done] + t8;
    let t6 = seq![done] + t7;
    let t5 = seq![done] + t6;
    let t4 = seq![done] + t5;
    let t3 = seq![done] + t4;
    let t2 = seq![done] + t3;
    let t1 = seq![e1] + t2;
    let t0 = seq![e0] + t1;
    assert(s8.run(t8) =~= Seq::<ActionView>::empty());
    lemma_run_unfolds(s7, done, t8);
    lemma_run_unfolds(s6, done, t7);
    lemma_run_unfolds(s5, done, t6);
    lemma_run_unfolds(s4, done, t5);
    lemma_run_unfolds(s3, done, t4);
    lemma_run_unfolds(s2, done, t3);
    lemma_run_unfolds(s1, e1, t2);
    lemma_run_unfolds(s0, e0, t1);
    assert(t0 =~= seq![e0, e1, done, done, done, done, done, done]);
}

/// A connection that fails ends the run before anything is subscribed or
/// published: whatever the run is told afterwards, its actions are the
/// reading of the settings, the connection, and from then on the failure
/// of the connection.
pub proof fn law_failed_connection_ends_run(
    arguments: Seq<Seq<char>>,
    text: Seq<char>,
    answer: EventView,
    rest: Seq<EventView>,
)
    requires
        arguments.len() >= 2,
        ConfigView::from_text(text) is Ok,
        !(answer is Done),
    ensures
        ({
            let actions = PublisherView::initial().run(
                seq![EventView::Arguments(arguments), EventView::SettingsText(text), answer] + rest,
            );
            &&& actions.len() == 3 + rest.len()
            &&& actions[0] is ReadSettings
            &&& actions[1] is Connect
            &&& forall|i: int|
                2 <= i < actions.len() ==> #[trigger] actions[i] == (ActionView::Abort {
                    failure: Failure::Protocol(Call::Connect),
                })
        }),
{
    let e0 = EventView::Arguments(arguments);
    let e1 = EventView::SettingsText(text);
    let s0 = PublisherView::initial();
    let s1 = s0.next(e0).0;
    let s2 = s1.next(e1).0;
    let t2 = seq![answer] + rest;
    let t1 = seq![e1] + t2;
    let t0 = seq![e0] + t1;
    let events = seq![e0, e1, answer] + rest;
    assert(t0 =~= events);
    lemma_run_unfolds(s2, answer, rest);
    lemma_run_unfolds(s1, e1, t2);
    lemma_run_unfolds(s0, e0, t1);
    law_one_action_for_each_event(s0, events);
    let actions = s0.run(events);
    assert(actions[2] == ActionView::Abort { failure: Failure::Protocol(Call::Connect) });
    law_nothing_follows_an_abort(s0, events, 2, Failure::Protocol(Call::Connect));
}

} // verus!
