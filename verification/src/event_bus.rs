use vstd::prelude::*;
use vstd::string::StrSliceExecFns;
use vstd::utf8::{decode_utf8, encode_utf8, valid_utf8};
use crate::amqp_settings::{
    amqp_parse_returns, amqp_uri_accepted, amqp_uri_settings, connection_query_is_readable,
    lemma_mended_uri_readable, mended_connection_uri, name_connection, read_connection_uri,
    BrokerSettings, SettingsModel,
};
use crate::services::EventBusService;

verus! {

/// The routing key that events are published with.
pub const ROUTING_KEY: &'static str = "blog.events";

/// The exchange that events are published to.
pub const EXCHANGE_NAME: &'static str = "blog.events";

/// The queue that is bound to the exchange.
pub const QUEUE_NAME: &'static str = "blog.events";

/// The name that the producer's connection carries.
pub const CONNECTION_NAME: &'static str = "blog_producer";

/// Reported when the bus cannot be reached and a stand-in is used instead.
pub const FALLBACK_MESSAGE: &'static str = "Error while connecting to rabbitMQ. Mock service will be created";

/// Reported when an event could not be turned into a payload, or there is no
/// channel to publish it on.
pub const PAYLOAD_MESSAGE: &'static str = "Error while parsing event";

/// Reported when the broker refused a publication.
pub const PUBLISH_MESSAGE: &'static str = "Error while publishing message";

/// Why an event was not published.
#[derive(PartialEq, Eq, Structural, Debug, Clone, Copy)]
pub enum EventBusError {
    SerializationError,
    PublishingError,
}

// ---------------------------------------------------------------------------
// Setting up the bus
// ---------------------------------------------------------------------------
/// What to do next in setting up the bus.
#[derive(PartialEq, Eq, Structural, Debug, Clone, Copy)]
pub enum BusSetupAction {
    /// Connect to the broker with the settings read from the connection string,
    /// named `CONNECTION_NAME`.
    Connect,
    /// Use the connected broker.
    UseBroker,
    /// Use the stand-in that publishes nothing, reporting `FALLBACK_MESSAGE` first
    /// when `report` holds.
    UseStandIn { report: bool },
}

/// The settings read from a connection string, named `CONNECTION_NAME`.
pub open spec fn named_settings(m: SettingsModel) -> SettingsModel {
    SettingsModel { connection_name: Some(CONNECTION_NAME@), ..m }
}

pub open spec fn str_opt_view(o: Option<&str>) -> Option<Seq<char>> {
    match o {
        Some(s) => Some(s@),
        None => None,
    }
}

pub open spec fn settings_opt_view(o: Option<BrokerSettings>) -> Option<SettingsModel> {
    match o {
        Some(b) => Some(b@),
        None => None,
    }
}

/// The first step of setting up the bus: without a connection string, the silent
/// stand-in and no settings; with one that the parser refuses, the reported
/// stand-in and no settings; with one it accepts, connect, with the settings it
/// reads from the string, named `CONNECTION_NAME`.
pub open spec fn is_setup_start(
    connection_string: Option<Seq<char>>,
    action: BusSetupAction,
    settings: Option<SettingsModel>,
) -> bool {
    match connection_string {
        None => action == BusSetupAction::UseStandIn { report: false } && settings is None,
        Some(s) => match amqp_uri_settings(s) {
            Some(m) => action == BusSetupAction::Connect && settings == Some(named_settings(m)),
            None => action == BusSetupAction::UseStandIn { report: true } && settings is None,
        },
    }
}

/// The first step of setting up the bus (see `is_setup_start`), for connection
/// strings on which the parser returns.
pub fn bus_setup_start(connection_string: Option<&str>) -> (res: (
    BusSetupAction,
    Option<BrokerSettings>,
))
    requires
        connection_string matches Some(s) ==> amqp_parse_returns(s@),
    ensures
        is_setup_start(str_opt_view(connection_string), res.0, settings_opt_view(res.1)),
{
    proof {
        reveal_strlit("blog_producer");
    }
    match connection_string {
        None => (BusSetupAction::UseStandIn { report: false }, None),
        Some(s) => match read_connection_uri(s) {
            Some(settings) => {
                let mut settings = settings;
                name_connection(&mut settings, CONNECTION_NAME);
                (BusSetupAction::Connect, Some(settings))
            },
            None => (BusSetupAction::UseStandIn { report: true }, None),
        },
    }
}

/// The first step of setting up the bus for any connection string: `None` where
/// the parser would stop the program on the string (it reaches a query piece
/// without `=`), else what `bus_setup_start` gives.
pub fn try_bus_setup_start(connection_string: Option<&str>) -> (res: Option<
    (BusSetupAction, Option<BrokerSettings>),
>)
    ensures
        res is None == (connection_string matches Some(s) && !amqp_parse_returns(s@)),
        res matches Some(r) ==> is_setup_start(
            str_opt_view(connection_string),
            r.0,
            settings_opt_view(r.1),
        ),
{
    match connection_string {
        None => Some(bus_setup_start(None)),
        Some(s) => {
            if connection_query_is_readable(s) {
                return Some(bus_setup_start(Some(s)));
            }
            let mended = mended_connection_uri(s);
            proof {
                lemma_mended_uri_readable(s@);
            }
            match read_connection_uri(mended.as_str()) {
                Some(_) => None,
                None => Some(bus_setup_start(Some(s))),
            }
        },
    }
}

/// The last step of setting up the bus: the broker once connected, else the
/// reported stand-in.
pub fn bus_setup_finish(connected: bool) -> (res: BusSetupAction)
    ensures
        res == (if connected {
            BusSetupAction::UseBroker
        } else {
            BusSetupAction::UseStandIn { report: true }
        }),
{
    if connected {
        BusSetupAction::UseBroker
    } else {
        BusSetupAction::UseStandIn { report: true }
    }
}

/// The action that a whole setup ends with, given the connection string and
/// whether connecting succeeds.
pub open spec fn setup_outcome(connection_string: Option<Seq<char>>, connect_ok: bool) -> BusSetupAction {
    match connection_string {
        None => BusSetupAction::UseStandIn { report: false },
        Some(s) => if amqp_uri_accepted(s) && connect_ok {
            BusSetupAction::UseBroker
        } else {
            BusSetupAction::UseStandIn { report: true }
        },
    }
}

/// Law: setup, run from `bus_setup_start` and finished with `bus_setup_finish`
/// once connecting was tried, always ends with a bus to use; it is the broker
/// exactly when a connection string was given, the parser accepted it and the
/// connection opened, and the stand-in is reported exactly when a connection
/// string was given but could not be used.
pub proof fn law_setup_always_yields_a_bus(
    connection_string: Option<Seq<char>>,
    start: BusSetupAction,
    connect_ok: bool,
)
    requires
        match connection_string {
            None => start == BusSetupAction::UseStandIn { report: false },
            Some(s) => start == (if amqp_uri_accepted(s) {
                BusSetupAction::Connect
            } else {
                BusSetupAction::UseStandIn { report: true }
            }),
        },
    ensures
        setup_outcome(connection_string, connect_ok) == (if start == BusSetupAction::Connect {
            if connect_ok {
                BusSetupAction::UseBroker
            } else {
                BusSetupAction::UseStandIn { report: true }
            }
        } else {
            start
        }),
        setup_outcome(connection_string, connect_ok) == BusSetupAction::UseBroker
            || setup_outcome(connection_string, connect_ok) is UseStandIn,
        (setup_outcome(connection_string, connect_ok) == BusSetupAction::UseBroker) == (
        connection_string is Some && amqp_uri_accepted(connection_string->0) && connect_ok),
        (setup_outcome(connection_string, connect_ok) == BusSetupAction::UseStandIn {
            report: true,
        }) == (connection_string is Some && !(amqp_uri_accepted(connection_string->0)
            && connect_ok)),
{
}

// ---------------------------------------------------------------------------
// The bus service and connecting
// ---------------------------------------------------------------------------
/// The steps of connecting to the broker, in order.
#[derive(PartialEq, Eq, Structural, Debug, Clone, Copy)]
pub enum ConnectStep {
    OpenConnection,
    RegisterConnectionCallback,
    OpenChannel,
    RegisterChannelCallback,
    /// Bind `QUEUE_NAME` to `EXCHANGE_NAME` with `ROUTING_KEY`.
    BindQueue,
}

/// The bus service that publishes to the broker: the connection settings it was
/// made with, and the connection (of type `C`) and channel (of type `H`) it holds,
/// both or neither.
pub struct RabbitEventBusService<C, H> {
    connection_configuration: BrokerSettings,
    connection: Option<C>,
    channel: Option<H>,
}

impl<C: Send + Sync, H: Send + Sync> EventBusService for RabbitEventBusService<C, H> {

}

impl<C, H> RabbitEventBusService<C, H> {
    pub closed spec fn configuration(&self) -> BrokerSettings {
        self.connection_configuration
    }

    pub closed spec fn connection(&self) -> Option<C> {
        self.connection
    }

    pub closed spec fn channel(&self) -> Option<H> {
        self.channel
    }

    /// The service holds a connection exactly when it holds a channel.
    pub open spec fn holds_both_or_neither(&self) -> bool {
        self.connection() is Some == self.channel() is Some
    }

    /// A service with the given settings, not connected yet.
    pub fn new(connection_configuration: BrokerSettings) -> (res: Self)
        ensures
            res.configuration() == connection_configuration,
            res.connection() is None,
            res.channel() is None,
            res.holds_both_or_neither(),
    {
        RabbitEventBusService { connection_configuration, connection: None, channel: None }
    }

    /// The connection settings.
    pub fn connection_configuration(&self) -> (res: &BrokerSettings)
        ensures
            *res == self.configuration(),
    {
        &self.connection_configuration
    }

    /// The channel to publish on, if connected.
    pub fn channel_handle(&self) -> (res: Option<&H>)
        ensures
            match res {
                Some(h) => self.channel() == Some(*h),
                None => self.channel() is None,
            },
    {
        match &self.channel {
            Some(h) => Some(h),
            None => None,
        }
    }
}

/// What a connection attempt has opened so far.
pub struct ConnectAttempt<C, H> {
    connection: Option<C>,
    channel: Option<H>,
}

impl<C, H> ConnectAttempt<C, H> {
    pub closed spec fn opened_connection(&self) -> Option<C> {
        self.connection
    }

    pub closed spec fn opened_channel(&self) -> Option<H> {
        self.channel
    }

    /// The connection opened so far.
    pub fn connection(&self) -> (res: Option<&C>)
        ensures
            match res {
                Some(c) => self.opened_connection() == Some(*c),
                None => self.opened_connection() is None,
            },
    {
        match &self.connection {
            Some(c) => Some(c),
            None => None,
        }
    }

    /// The channel opened so far.
    pub fn channel(&self) -> (res: Option<&H>)
        ensures
            match res {
                Some(h) => self.opened_channel() == Some(*h),
                None => self.opened_channel() is None,
            },
    {
        match &self.channel {
            Some(h) => Some(h),
            None => None,
        }
    }
}

/// What an attempt holds when `step` is to be performed: the connection once it
/// was opened, the channel once it was opened.
pub open spec fn ready_for<C, H>(step: ConnectStep, attempt: ConnectAttempt<C, H>) -> bool {
    match step {
        ConnectStep::OpenConnection => attempt.opened_connection() is None
            && attempt.opened_channel() is None,
        ConnectStep::RegisterConnectionCallback | ConnectStep::OpenChannel => attempt.opened_connection() is Some
            && attempt.opened_channel() is None,
        ConnectStep::RegisterChannelCallback | ConnectStep::BindQueue => attempt.opened_connection() is Some
            && attempt.opened_channel() is Some,
    }
}

/// Where connecting stands.
pub enum ConnectProgress<C, H> {
    /// Perform this step with what the attempt has opened.
    Perform(ConnectStep, ConnectAttempt<C, H>),
    /// Connecting is over: with success when `ok` holds, else with the error of
    /// the step that failed.
    Finished { ok: bool },
}

/// What a step gave.
pub enum StepOutcome<C, H> {
    /// The connection was opened.
    ConnectionOpened(C),
    /// The channel was opened.
    ChannelOpened(H),
    /// Another step succeeded.
    Done,
    /// The step failed.
    Failed,
}

/// The outcomes a step can give. Opening the channel is taken to succeed once
/// the connection is open: its failure stops the program.
pub open spec fn outcome_fits<C, H>(step: ConnectStep, outcome: StepOutcome<C, H>) -> bool {
    match step {
        ConnectStep::OpenConnection => outcome is ConnectionOpened || outcome is Failed,
        ConnectStep::OpenChannel => outcome is ChannelOpened,
        _ => outcome is Done || outcome is Failed,
    }
}

/// The step after `step`, if any.
pub open spec fn next_step(step: ConnectStep) -> Option<ConnectStep> {
    match step {
        ConnectStep::OpenConnection => Some(ConnectStep::RegisterConnectionCallback),
        ConnectStep::RegisterConnectionCallback => Some(ConnectStep::OpenChannel),
        ConnectStep::OpenChannel => Some(ConnectStep::RegisterChannelCallback),
        ConnectStep::RegisterChannelCallback => Some(ConnectStep::BindQueue),
        ConnectStep::BindQueue => None,
    }
}

/// Where connecting starts: done when the service is connected; else open a
/// connection, with nothing opened yet.
pub fn connect_begin<C, H>(service: &RabbitEventBusService<C, H>) -> (res: ConnectProgress<C, H>)
    ensures
        service.connection() is Some ==> (res == ConnectProgress::<C, H>::Finished { ok: true }),
        service.connection() is None ==> (res matches ConnectProgress::Perform(step, attempt)
            && step == ConnectStep::OpenConnection && ready_for(step, attempt)),
{
    if service.connection.is_some() {
        ConnectProgress::Finished { ok: true }
    } else {
        ConnectProgress::Perform(
            ConnectStep::OpenConnection,
            ConnectAttempt { connection: None, channel: None },
        )
    }
}

/// What a step does: the settings never change. A failure ends connecting and
/// leaves the connection and channel as they were, dropping what the attempt
/// opened. A success of the last step (binding the queue) gives the service the
/// attempt's connection and channel and ends connecting with success. Any other
/// success leaves the service as it was and leads to the next step, with what the
/// step opened added to the attempt.
pub open spec fn step_result<C, H>(
    before: RabbitEventBusService<C, H>,
    step: ConnectStep,
    attempt: ConnectAttempt<C, H>,
    outcome: StepOutcome<C, H>,
    after: RabbitEventBusService<C, H>,
    progress: ConnectProgress<C, H>,
) -> bool {
    &&& after.configuration() == before.configuration()
    &&& if outcome is Failed {
        &&& progress == ConnectProgress::<C, H>::Finished { ok: false }
        &&& after.connection() == before.connection()
        &&& after.channel() == before.channel()
    } else if step == ConnectStep::BindQueue {
        &&& progress == ConnectProgress::<C, H>::Finished { ok: true }
        &&& after.connection() == attempt.opened_connection()
        &&& after.channel() == attempt.opened_channel()
    } else {
        &&& after.connection() == before.connection()
        &&& after.channel() == before.channel()
        &&& progress matches ConnectProgress::Perform(next, a)
        &&& Some(next) == next_step(step)
        &&& a.opened_connection() == (match outcome {
            StepOutcome::ConnectionOpened(c) => Some(c),
            _ => attempt.opened_connection(),
        })
        &&& a.opened_channel() == (match outcome {
            StepOutcome::ChannelOpened(h) => Some(h),
            _ => attempt.opened_channel(),
        })
    }
}

/// Takes the outcome of `step` into account. A failure ends connecting and
/// leaves the service as it was, dropping what the attempt opened. After a
/// success, the next step follows, with what was opened added to the attempt;
/// after the queue is bound, the service takes the attempt's connection and
/// channel together and connecting succeeds. The settings never change.
pub fn connect_step<C, H>(
    service: &mut RabbitEventBusService<C, H>,
    step: ConnectStep,
    attempt: ConnectAttempt<C, H>,
    outcome: StepOutcome<C, H>,
) -> (res: ConnectProgress<C, H>)
    requires
        old(service).holds_both_or_neither(),
        ready_for(step, attempt),
        outcome_fits(step, outcome),
    ensures
        step_result(*old(service), step, attempt, outcome, *final(service), res),
        res matches ConnectProgress::Perform(next, after) ==> ready_for(next, after),
        final(service).holds_both_or_neither(),
{
    let ConnectAttempt { connection, channel } = attempt;
    match outcome {
        StepOutcome::Failed => ConnectProgress::Finished { ok: false },
        StepOutcome::ConnectionOpened(c) => ConnectProgress::Perform(
            ConnectStep::RegisterConnectionCallback,
            ConnectAttempt { connection: Some(c), channel },
        ),
        StepOutcome::ChannelOpened(h) => ConnectProgress::Perform(
            ConnectStep::RegisterChannelCallback,
            ConnectAttempt { connection, channel: Some(h) },
        ),
        StepOutcome::Done => match step {
            ConnectStep::RegisterConnectionCallback => ConnectProgress::Perform(
                ConnectStep::OpenChannel,
                ConnectAttempt { connection, channel },
            ),
            ConnectStep::RegisterChannelCallback => ConnectProgress::Perform(
                ConnectStep::BindQueue,
                ConnectAttempt { connection, channel },
            ),
            _ => {
                service.connection = connection;
                service.channel = channel;
                ConnectProgress::Finished { ok: true }
            },
        },
    }
}

/// The steps of a connection attempt, in the order they are performed.
pub open spec fn connect_plan() -> Seq<ConnectStep> {
    seq![
        ConnectStep::OpenConnection,
        ConnectStep::RegisterConnectionCallback,
        ConnectStep::OpenChannel,
        ConnectStep::RegisterChannelCallback,
        ConnectStep::BindQueue,
    ]
}

/// Law: the steps come in the planned order, each after the success of the one
/// before, and only the last one, binding the queue, is followed by no step.
pub proof fn law_connect_order()
    ensures
        connect_plan()[0] == ConnectStep::OpenConnection,
        forall|i: int|
            0 <= i < connect_plan().len() - 1 ==> next_step(#[trigger] connect_plan()[i])
                == Some(connect_plan()[i + 1]),
        next_step(connect_plan().last()) is None,
        forall|s: ConnectStep| next_step(s) is None ==> s == ConnectStep::BindQueue,
{
    let p = connect_plan();
    assert(p.len() == 5);
    assert(p[0] == ConnectStep::OpenConnection);
    assert(p[1] == ConnectStep::RegisterConnectionCallback);
    assert(p[2] == ConnectStep::OpenChannel);
    assert(p[3] == ConnectStep::RegisterChannelCallback);
    assert(p[4] == ConnectStep::BindQueue);
}

/// Law: whatever a step gives, a service that holds both a connection and a
/// channel, or neither, still does afterwards, and keeps its settings; a failed
/// step changes nothing in it.
pub proof fn law_connection_and_channel_together<C, H>(
    before: RabbitEventBusService<C, H>,
    after: RabbitEventBusService<C, H>,
    step: ConnectStep,
    attempt: ConnectAttempt<C, H>,
    outcome: StepOutcome<C, H>,
    progress: ConnectProgress<C, H>,
)
    requires
        before.holds_both_or_neither(),
        ready_for(step, attempt),
        outcome_fits(step, outcome),
        step_result(before, step, attempt, outcome, after, progress),
    ensures
        after.holds_both_or_neither(),
        after.configuration() == before.configuration(),
        outcome is Failed ==> after.connection() == before.connection() && after.channel()
            == before.channel(),
{
}

proof fn lemma_connect_run_prefix<C, H>(
    services: Seq<RabbitEventBusService<C, H>>,
    steps: Seq<ConnectStep>,
    attempts: Seq<ConnectAttempt<C, H>>,
    outcomes: Seq<StepOutcome<C, H>>,
    progresses: Seq<ConnectProgress<C, H>>,
    k: int,
)
    requires
        services.len() == steps.len() + 1,
        attempts.len() == steps.len(),
        outcomes.len() == steps.len(),
        progresses.len() == steps.len(),
        services[0].holds_both_or_neither(),
        forall|i: int|
            #![trigger steps[i]]
            0 <= i < steps.len() ==> ready_for(steps[i], attempts[i]) && outcome_fits(
                steps[i],
                outcomes[i],
            ) && step_result(
                services[i],
                steps[i],
                attempts[i],
                outcomes[i],
                services[i + 1],
                progresses[i],
            ),
        0 <= k < services.len(),
    ensures
        services[k].holds_both_or_neither(),
        services[k].configuration() == services[0].configuration(),
    decreases k,
{
    if k > 0 {
        lemma_connect_run_prefix(services, steps, attempts, outcomes, progresses, k - 1);
        let j = k - 1;
        assert(ready_for(steps[j], attempts[j]));
        assert(services[j + 1] == services[k]);
        assert(step_result(
            services[k - 1],
            steps[k - 1],
            attempts[k - 1],
            outcomes[k - 1],
            services[k],
            progresses[k - 1],
        ));
        law_connection_and_channel_together(
            services[k - 1],
            services[k],
            steps[k - 1],
            attempts[k - 1],
            outcomes[k - 1],
            progresses[k - 1],
        );
    }
}

/// Law: over any run of connection steps, across any number of connection
/// attempts, each step taken from the service its predecessor left (`connect_begin`
/// changes nothing), a service made by `new` holds both a connection and a channel
/// or neither after every step, and keeps the settings it was made with.
pub proof fn law_connect_runs_keep_link_together<C, H>(
    services: Seq<RabbitEventBusService<C, H>>,
    steps: Seq<ConnectStep>,
    attempts: Seq<ConnectAttempt<C, H>>,
    outcomes: Seq<StepOutcome<C, H>>,
    progresses: Seq<ConnectProgress<C, H>>,
)
    requires
        services.len() == steps.len() + 1,
        attempts.len() == steps.len(),
        outcomes.len() == steps.len(),
        progresses.len() == steps.len(),
        services[0].connection() is None,
        services[0].channel() is None,
        forall|i: int|
            #![trigger steps[i]]
            0 <= i < steps.len() ==> ready_for(steps[i], attempts[i]) && outcome_fits(
                steps[i],
                outcomes[i],
            ) && step_result(
                services[i],
                steps[i],
                attempts[i],
                outcomes[i],
                services[i + 1],
                progresses[i],
            ),
    ensures
        forall|i: int|
            0 <= i < services.len() ==> (#[trigger] services[i]).holds_both_or_neither()
                && services[i].configuration() == services[0].configuration(),
{
    assert forall|i: int| 0 <= i < services.len() implies (#[trigger] services[i]).holds_both_or_neither()
        && services[i].configuration() == services[0].configuration() by {
        lemma_connect_run_prefix(services, steps, attempts, outcomes, progresses, i);
    }
}

// ---------------------------------------------------------------------------
// Publishing
// ---------------------------------------------------------------------------
/// The payload of an event: the UTF-8 bytes of its JSON text, which read back as
/// that text, or `SerializationError` when it could not be written as JSON.
pub fn payload_from_json(json: Result<String, ()>) -> (res: Result<Vec<u8>, EventBusError>)
    ensures
        match json {
            Ok(text) => res matches Ok(bytes) && bytes@ == encode_utf8(text@) && valid_utf8(bytes@)
                && decode_utf8(bytes@) == text@,
            Err(_) => res == Err::<Vec<u8>, EventBusError>(EventBusError::SerializationError),
        },
{
    broadcast use vstd::utf8::encode_utf8_valid_utf8, vstd::utf8::encode_utf8_decode_utf8;

    match json {
        Ok(text) => Ok(text.as_str().as_bytes_vec()),
        Err(_) => Err(EventBusError::SerializationError),
    }
}

/// What to do with a payload.
#[derive(PartialEq, Eq, Structural, Debug, Clone, Copy)]
pub enum PublishPlan {
    /// Publish it on the channel.
    Send,
    /// Publish nothing and report `PAYLOAD_MESSAGE`.
    ReportPayloadError,
}

/// A payload is sent only when there is one and a channel to send it on.
pub fn publish_plan(payload_ok: bool, has_channel: bool) -> (res: PublishPlan)
    ensures
        res == (if payload_ok && has_channel {
            PublishPlan::Send
        } else {
            PublishPlan::ReportPayloadError
        }),
{
    if payload_ok && has_channel {
        PublishPlan::Send
    } else {
        PublishPlan::ReportPayloadError
    }
}

/// The outcome of a publication: `PublishingError` when the broker refused it.
pub fn publish_result(accepted: bool) -> (res: Result<(), EventBusError>)
    ensures
        res == (if accepted {
            Ok::<(), EventBusError>(())
        } else {
            Err(EventBusError::PublishingError)
        }),
{
    if accepted {
        Ok(())
    } else {
        Err(EventBusError::PublishingError)
    }
}

/// Whether a finished publication is reported (with `PUBLISH_MESSAGE`): exactly
/// when it failed.
pub fn report_publication(outcome: Result<(), EventBusError>) -> (res: bool)
    ensures
        res == outcome is Err,
{
    outcome.is_err()
}

} // verus!
