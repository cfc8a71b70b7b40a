//! Life cycle of the per-app execution context.
//!
//! An execution context is initialized once per process, step by step, under
//! a watchdog deadline; from then on it serves, and its current engine
//! context may be replaced by a freshly built one. The embedding program
//! performs each step and reports how it went; this module decides what
//! comes next, when initialization is abandoned and with which message.

use crate::clients::accepted_names;
use crate::clients::apns_clients_made_from;
use crate::clients::apns_names_kept;
use crate::clients::client_names;
use crate::clients::connect_apns;
use crate::clients::connect_mysql;
use crate::clients::find_client;
use crate::clients::has_unique_names;
use crate::clients::names_unique;
use crate::clients::pools_made_from;
use crate::context::BlueboatBootstrapData;
use crate::context::BootstrapView;
use crate::context::PackageInitError;
use mysql_async::Pool;
use vstd::prelude::*;

verus! {

/// Wall-clock budget of initialization, in seconds.
pub const INIT_TIMEOUT_SECS: u64 = 3;

/// Exit code of a process whose initialization was abandoned.
pub const INIT_FAILURE_EXIT_CODE: i32 = 1;

/// Settings of one SQL binding.
#[derive(Debug, Clone, PartialEq, Eq)]
pub struct MysqlMetadata {
    pub url: String,
}

/// Which push-notification service a binding talks to.
#[derive(Copy, Clone, Debug, PartialEq, Eq, Structural)]
pub enum ApnsEndpointMetadata {
    Production,
    Sandbox,
}

/// Settings of one push-notification binding.
#[derive(Debug, Clone, PartialEq, Eq)]
pub struct ApnsMetadata {
    pub endpoint: ApnsEndpointMetadata,
    pub cert: Vec<u8>,
}

/// Metadata record of an app: its environment and its resource bindings,
/// each binding under its name. Each of the three lists stands for a map:
/// in a valid record no name occurs twice in one list.
#[derive(Debug, Clone, PartialEq, Eq)]
pub struct Metadata {
    pub env: Vec<(String, String)>,
    pub mysql: Vec<(String, MysqlMetadata)>,
    pub apns: Vec<(String, ApnsMetadata)>,
}

impl Metadata {
    /// The record is valid: each of its lists can be read as a map, since
    /// no name occurs twice in it.
    pub open spec fn wf(self) -> bool {
        &&& names_unique(self.env@)
        &&& names_unique(self.mysql@)
        &&& names_unique(self.apns@)
    }

    /// Says whether the record is valid.
    pub fn is_valid(&self) -> (r: bool)
        ensures
            r == self.wf(),
    {
        has_unique_names(&self.env) && has_unique_names(&self.mysql) && has_unique_names(&self.apns)
    }

    /// The bootstrap descriptor of this record: the names of its SQL
    /// bindings, the names of its push-notification bindings and its
    /// environment, each in the record's order.
    pub open spec fn descriptor(self) -> BootstrapView {
        BootstrapView {
            mysql: self.mysql@.map_values(|b: (String, MysqlMetadata)| b.0@),
            apns: self.apns@.map_values(|b: (String, ApnsMetadata)| b.0@),
            env: self.env@.map_values(|p: (String, String)| (p.0@, p.1@)),
        }
    }

    /// Builds the bootstrap descriptor of this record.
    pub fn bootstrap_data(&self) -> (data: BlueboatBootstrapData)
        ensures
            data@ == self.descriptor(),
    {
        let mut mysql: Vec<String> = Vec::new();
        let mut i: usize = 0;
        while i < self.mysql.len()
            invariant
                i <= self.mysql@.len(),
                mysql@.len() == i,
                forall|j: int| 0 <= j < i ==> mysql@[j]@ == self.mysql@[j].0@,
            decreases self.mysql@.len() - i,
        {
            mysql.push(self.mysql[i].0.clone());
            i = i + 1;
        }
        let mut apns: Vec<String> = Vec::new();
        let mut k: usize = 0;
        while k < self.apns.len()
            invariant
                k <= self.apns@.len(),
                apns@.len() == k,
                forall|j: int| 0 <= j < k ==> apns@[j]@ == self.apns@[j].0@,
            decreases self.apns@.len() - k,
        {
            apns.push(self.apns[k].0.clone());
            k = k + 1;
        }
        let mut env: Vec<(String, String)> = Vec::new();
        let mut n: usize = 0;
        while n < self.env.len()
            invariant
                n <= self.env@.len(),
                env@.len() == n,
                forall|j: int| 0 <= j < n ==> env@[j].0@ == self.env@[j].0@ && env@[j].1@ == self.env@[j].1@,
            decreases self.env@.len() - n,
        {
            env.push((self.env[n].0.clone(), self.env[n].1.clone()));
            n = n + 1;
        }
        let data = BlueboatBootstrapData { mysql, apns, env };
        assert(data@.mysql =~= self.descriptor().mysql);
        assert(data@.apns =~= self.descriptor().apns);
        assert(data@.env =~= self.descriptor().env);
        data
    }
}

/// What a process is given to initialize its context: the app's key as
/// shown to a reader, the bytes of its package bundle, its metadata record
/// and the seed of its reliable channel.
#[derive(Debug)]
pub struct BlueboatInitData<S> {
    pub key: String,
    pub package: Vec<u8>,
    pub metadata: Metadata,
    pub rch: Option<S>,
}

impl<S> BlueboatInitData<S> {
    /// Name under which the process is shown to its supervisor: the app's key.
    pub fn process_name(&self) -> (name: String)
        ensures
            name@ == self.key@,
    {
        self.key.clone()
    }
}

/// Phase of an execution context. It initializes through the first seven
/// phases, each named after the step that is under way, and then serves,
/// unless initialization is abandoned.
#[derive(Copy, Clone, Debug, PartialEq, Eq, Structural)]
pub enum CtxPhase {
    /// The reliable-channel service is being started.
    StartingChannel,
    /// The engine instance is being created from the snapshot.
    CreatingEngine,
    /// The package bundle is being loaded.
    LoadingPackage,
    /// The context template is being built.
    BuildingTemplate,
    /// The watchdog is being started and the initialization deadline set.
    ArmingWatchdog,
    /// The first engine context is being built.
    BuildingContext,
    /// The initialization deadline is being cancelled.
    DisarmingWatchdog,
    /// Initialization succeeded.
    Serving,
    /// Initialization was abandoned.
    Aborted,
}

impl CtxPhase {
    /// The context has neither begun to serve nor been abandoned.
    pub open spec fn is_initializing(self) -> bool {
        !(self is Serving) && !(self is Aborted)
    }

    /// The initialization deadline is set and not yet cancelled.
    pub open spec fn watchdog_armed(self) -> bool {
        self is BuildingContext || self is DisarmingWatchdog
    }
}

/// What the embedding program observed during initialization.
#[derive(Debug)]
pub enum InitEvent<C> {
    /// The step under way is finished.
    StepDone,
    /// The first engine context is built.
    ContextBuilt { context: C },
    /// The build of the first engine context failed.
    BuildFailed { error: PackageInitError },
    /// The initialization deadline passed.
    WatchdogFired,
}

/// Where the reason of an abandoned initialization is written.
#[derive(Copy, Clone, Debug, PartialEq, Eq, Structural)]
pub enum LogSink {
    /// The log that the app's owner reads.
    AppLog,
    /// The log of the host.
    HostLog,
}

/// What the embedding program has to do next during initialization.
#[derive(Debug, Clone, PartialEq, Eq)]
pub enum InitAction {
    /// Create the engine instance from the snapshot and register the
    /// symbol registry and the init data with it.
    CreateEngine,
    /// Load the package bundle.
    LoadPackage,
    /// Build the context template.
    BuildContextTemplate,
    /// Start the watchdog and have it fire after `timeout_secs` seconds.
    ArmWatchdog { timeout_secs: u64 },
    /// Build the first engine context.
    BuildContext,
    /// Cancel the initialization deadline.
    DisarmWatchdog,
    /// Publish the context: it serves.
    Serve,
    /// Write `message` to `sink` and leave the process with `exit_code`.
    Abort { exit_code: i32, sink: LogSink, message: String },
    /// Nothing: the event does not apply in this phase.
    Ignore,
}

/// One thing done to replace the current engine context of a serving
/// context.
#[derive(Copy, Clone, Debug, PartialEq, Eq, Structural)]
pub enum ResetStep {
    /// Clear the symbol registry.
    ClearSymbolRegistry,
    /// Clear the instance-local slots that the clean-up after a job clears.
    ClearJobSlots,
    /// Build a fresh engine context from the template.
    BuildContext,
    /// Make the fresh context the current one, if it was built.
    ReplaceContext,
}

/// The steps of a reset, in the order in which they are taken: what
/// earlier invocations left behind is cleared before the fresh context is
/// built, and the current context is replaced last.
pub fn reset_steps() -> (steps: Vec<ResetStep>)
    ensures
        steps@ == seq![
            ResetStep::ClearSymbolRegistry,
            ResetStep::ClearJobSlots,
            ResetStep::BuildContext,
            ResetStep::ReplaceContext,
        ],
{
    let mut steps: Vec<ResetStep> = Vec::new();
    steps.push(ResetStep::ClearSymbolRegistry);
    steps.push(ResetStep::ClearJobSlots);
    steps.push(ResetStep::BuildContext);
    steps.push(ResetStep::ReplaceContext);
    assert(steps@ =~= seq![
        ResetStep::ClearSymbolRegistry,
        ResetStep::ClearJobSlots,
        ResetStep::BuildContext,
        ResetStep::ReplaceContext,
    ]);
    steps
}

/// Mathematical state of an execution context.
pub struct CtxView<C> {
    pub key: Seq<char>,
    pub package: Seq<u8>,
    pub metadata: Metadata,
    pub phase: CtxPhase,
    pub v8_ctx: Option<C>,
    /// The connection pools of the SQL bindings, each under the name of
    /// its binding.
    pub mysql: Seq<(String, Pool)>,
    /// The clients of the push-notification bindings, each under the name
    /// of its binding.
    pub apns: Seq<(String, a2::Client)>,
}

impl<C> CtxView<C> {
    /// The service clients are those of a context that serves: a
    /// connection pool for every SQL binding for which one is made, made
    /// from the URL of that binding, and push-notification clients for
    /// bindings of the metadata, each made from the certificate and the
    /// endpoint of its binding; no name stands for two pools or for two
    /// clients.
    pub open spec fn serves_clients(self) -> bool {
        &&& client_names(self.mysql) == accepted_names(self.metadata.mysql@)
        &&& pools_made_from(self.mysql, self.metadata.mysql@)
        &&& names_unique(self.mysql)
        &&& apns_names_kept(client_names(self.apns), self.metadata.apns@)
        &&& apns_clients_made_from(self.apns, self.metadata.apns@)
        &&& names_unique(self.apns)
    }

    /// The metadata record is valid; a context that serves, or is about
    /// to, has a current engine context; and a context has service clients
    /// if and only if it serves.
    pub open spec fn wf(self) -> bool {
        &&& self.metadata.wf()
        &&& self.phase is Serving || self.phase is DisarmingWatchdog ==> self.v8_ctx is Some
        &&& if self.phase is Serving {
            self.serves_clients()
        } else {
            self.mysql.len() == 0 && self.apns.len() == 0
        }
    }
}

/// What is written when the initialization deadline passes.
pub open spec fn timeout_message(key: Seq<char>) -> Seq<char> {
    "app "@ + key + ": initialization timed out"@
}

/// What is written when the first engine context cannot be built.
pub open spec fn build_failure_message(error: PackageInitError) -> Seq<char> {
    "failed to build v8 context: "@ + error.text()
}

/// The phase that follows `phase` on `event`. Every step leads to the next;
/// a failed build, or the deadline while it is set, abandons initialization;
/// a context that serves or was abandoned stays as it is.
pub open spec fn init_phase_after<C>(phase: CtxPhase, event: InitEvent<C>) -> CtxPhase {
    match (phase, event) {
        (CtxPhase::StartingChannel, InitEvent::StepDone) => CtxPhase::CreatingEngine,
        (CtxPhase::CreatingEngine, InitEvent::StepDone) => CtxPhase::LoadingPackage,
        (CtxPhase::LoadingPackage, InitEvent::StepDone) => CtxPhase::BuildingTemplate,
        (CtxPhase::BuildingTemplate, InitEvent::StepDone) => CtxPhase::ArmingWatchdog,
        (CtxPhase::ArmingWatchdog, InitEvent::StepDone) => CtxPhase::BuildingContext,
        (CtxPhase::BuildingContext, InitEvent::ContextBuilt { context }) => CtxPhase::DisarmingWatchdog,
        (CtxPhase::BuildingContext, InitEvent::BuildFailed { error }) => CtxPhase::Aborted,
        (CtxPhase::BuildingContext, InitEvent::WatchdogFired) => CtxPhase::Aborted,
        (CtxPhase::DisarmingWatchdog, InitEvent::WatchdogFired) => CtxPhase::Aborted,
        (CtxPhase::DisarmingWatchdog, InitEvent::StepDone) => CtxPhase::Serving,
        _ => phase,
    }
}

/// The current engine context after `event`: the one just built, else the
/// one there was.
pub open spec fn init_context_after<C>(ctx: CtxView<C>, event: InitEvent<C>) -> Option<C> {
    match (ctx.phase, event) {
        (CtxPhase::BuildingContext, InitEvent::ContextBuilt { context }) => Some(context),
        _ => ctx.v8_ctx,
    }
}

/// `after` is the state that follows `before` on `event`. The phase moves
/// on, a context just built becomes the current one, and a context that
/// begins to serve is given its service clients; nothing else changes.
pub open spec fn init_state_spec<C>(before: CtxView<C>, event: InitEvent<C>, after: CtxView<C>) -> bool {
    &&& after.key == before.key
    &&& after.package == before.package
    &&& after.metadata == before.metadata
    &&& after.phase == init_phase_after(before.phase, event)
    &&& after.v8_ctx == init_context_after(before, event)
    &&& if before.phase is DisarmingWatchdog && event is StepDone {
        after.serves_clients()
    } else {
        after.mysql == before.mysql && after.apns == before.apns
    }
}

/// `action` is what a context in state `ctx` has to do on `event`.
pub open spec fn init_action_spec<C>(ctx: CtxView<C>, event: InitEvent<C>, action: InitAction) -> bool {
    let next = init_phase_after(ctx.phase, event);
    if next == ctx.phase {
        action is Ignore
    } else {
        match next {
            CtxPhase::CreatingEngine => action is CreateEngine,
            CtxPhase::LoadingPackage => action is LoadPackage,
            CtxPhase::BuildingTemplate => action is BuildContextTemplate,
            CtxPhase::ArmingWatchdog => action == (InitAction::ArmWatchdog { timeout_secs: INIT_TIMEOUT_SECS }),
            CtxPhase::BuildingContext => action is BuildContext,
            CtxPhase::DisarmingWatchdog => action is DisarmWatchdog,
            CtxPhase::Serving => action is Serve,
            _ => {
                &&& action matches InitAction::Abort { exit_code, sink, message }
                &&& exit_code == INIT_FAILURE_EXIT_CODE
                &&& match event {
                    InitEvent::BuildFailed { error } => sink == LogSink::AppLog && message@ == build_failure_message(
                        error,
                    ),
                    _ => sink == LogSink::HostLog && message@ == timeout_message(ctx.key),
                }
            },
        }
    }
}

/// What a passed initialization deadline means for the app with this key:
/// the reason goes to the log of the host and the process leaves with the
/// exit code of a failed initialization.
pub fn timeout_abort(key: &str) -> (action: InitAction)
    ensures
        action matches InitAction::Abort { exit_code, sink, message } && exit_code == INIT_FAILURE_EXIT_CODE && sink
            == LogSink::HostLog && message@ == timeout_message(key@),
{
    let mut message = String::from_str("app ");
    message.append(key);
    message.append(": initialization timed out");
    InitAction::Abort { exit_code: INIT_FAILURE_EXIT_CODE, sink: LogSink::HostLog, message }
}

/// The long-lived state of one app's execution context: its key, its package
/// bundle, its metadata, its phase, its current engine context and the
/// clients of its resource bindings.
#[derive(Debug)]
pub struct BlueboatCtx<C> {
    key: String,
    package: Vec<u8>,
    metadata: Metadata,
    phase: CtxPhase,
    v8_ctx: Option<C>,
    mysql: Vec<(String, Pool)>,
    apns: Vec<(String, a2::Client)>,
}

impl<C> View for BlueboatCtx<C> {
    type V = CtxView<C>;

    closed spec fn view(&self) -> CtxView<C> {
        CtxView {
            key: self.key@,
            package: self.package@,
            metadata: self.metadata,
            phase: self.phase,
            v8_ctx: self.v8_ctx,
            mysql: self.mysql@,
            apns: self.apns@,
        }
    }
}

impl<C> BlueboatCtx<C> {
    /// Begins initialization: takes the seed of the reliable channel out of
    /// the init data and keeps the rest. The caller starts the reliable
    /// channel from the returned seed and reports a finished step.
    pub fn init<S>(d: BlueboatInitData<S>) -> (r: (BlueboatCtx<C>, S))
        requires
            d.rch is Some,
            d.metadata.wf(),
        ensures
            r.1 == d.rch->0,
            r.0@ == (CtxView::<C> {
                key: d.key@,
                package: d.package@,
                metadata: d.metadata,
                phase: CtxPhase::StartingChannel,
                v8_ctx: None,
                mysql: Seq::<(String, Pool)>::empty(),
                apns: Seq::<(String, a2::Client)>::empty(),
            }),
            r.0@.wf(),
    {
        let BlueboatInitData { key, package, metadata, rch } = d;
        let ctx = BlueboatCtx {
            key,
            package,
            metadata,
            phase: CtxPhase::StartingChannel,
            v8_ctx: None,
            mysql: Vec::new(),
            apns: Vec::new(),
        };
        (ctx, rch.unwrap())
    }

    /// The app's key as shown to a reader.
    pub fn key(&self) -> (key: &String)
        ensures
            key@ == self@.key,
    {
        &self.key
    }

    /// The bytes of the package bundle.
    pub fn package(&self) -> (package: &Vec<u8>)
        ensures
            package@ == self@.package,
    {
        &self.package
    }

    /// The app's metadata record.
    pub fn metadata(&self) -> (metadata: &Metadata)
        ensures
            *metadata == self@.metadata,
    {
        &self.metadata
    }

    /// The connection pools of the SQL bindings, each under the name of its
    /// binding.
    pub fn mysql(&self) -> (pools: &Vec<(String, Pool)>)
        ensures
            pools@ == self@.mysql,
    {
        &self.mysql
    }

    /// The clients of the push-notification bindings, each under the name
    /// of its binding.
    pub fn apns(&self) -> (clients: &Vec<(String, a2::Client)>)
        ensures
            clients@ == self@.apns,
    {
        &self.apns
    }

    /// The connection pool of the SQL binding `name`, if it has one: the
    /// pool that is kept under that name, of which there is at most one.
    pub fn mysql_pool(&self, name: &String) -> (pool: Option<&Pool>)
        requires
            self@.wf(),
        ensures
            pool is Some == client_names(self@.mysql).contains(name@),
            pool matches Some(found) ==> forall|i: int|
                0 <= i < self@.mysql.len() && (#[trigger] self@.mysql[i]).0@ == name@ ==> self@.mysql[i].1 == *found,
    {
        find_client(&self.mysql, name)
    }

    /// The client of the push-notification binding `name`, if it has one:
    /// the client that is kept under that name, of which there is at most
    /// one.
    pub fn apns_client(&self, name: &String) -> (client: Option<&a2::Client>)
        requires
            self@.wf(),
        ensures
            client is Some == client_names(self@.apns).contains(name@),
            client matches Some(found) ==> forall|i: int|
                0 <= i < self@.apns.len() && (#[trigger] self@.apns[i]).0@ == name@ ==> self@.apns[i].1 == *found,
    {
        find_client(&self.apns, name)
    }

    /// The phase of the context.
    pub fn phase(&self) -> (phase: CtxPhase)
        ensures
            phase == self@.phase,
    {
        self.phase
    }

    /// Abandons initialization because the deadline passed.
    fn time_out(&mut self) -> (action: InitAction)
        ensures
            final(self)@ == (CtxView { phase: CtxPhase::Aborted, ..old(self)@ }),
            action matches InitAction::Abort { exit_code, sink, message } && exit_code == INIT_FAILURE_EXIT_CODE
                && sink == LogSink::HostLog && message@ == timeout_message(old(self)@.key),
    {
        self.phase = CtxPhase::Aborted;
        timeout_abort(self.key.as_str())
    }

    /// Advances initialization by one observed event and says what to do
    /// next. The steps follow one another in a fixed order, the deadline is
    /// set before the first engine context is built and cancelled only once
    /// it is built, and a failed build or a passed deadline abandons
    /// initialization with exit code 1 and a message that says why. A
    /// context that begins to serve is given a connection pool for every SQL
    /// binding whose URL the driver takes, and a push-notification client
    /// for every binding whose certificate can be read.
    pub fn advance(&mut self, event: InitEvent<C>) -> (action: InitAction)
        requires
            old(self)@.wf(),
        ensures
            init_state_spec(old(self)@, event, final(self)@),
            init_action_spec(old(self)@, event, action),
            final(self)@.wf(),
    {
        match (self.phase, event) {
            (CtxPhase::StartingChannel, InitEvent::StepDone) => {
                self.phase = CtxPhase::CreatingEngine;
                InitAction::CreateEngine
            },
            (CtxPhase::CreatingEngine, InitEvent::StepDone) => {
                self.phase = CtxPhase::LoadingPackage;
                InitAction::LoadPackage
            },
            (CtxPhase::LoadingPackage, InitEvent::StepDone) => {
                self.phase = CtxPhase::BuildingTemplate;
                InitAction::BuildContextTemplate
            },
            (CtxPhase::BuildingTemplate, InitEvent::StepDone) => {
                self.phase = CtxPhase::ArmingWatchdog;
                InitAction::ArmWatchdog { timeout_secs: INIT_TIMEOUT_SECS }
            },
            (CtxPhase::ArmingWatchdog, InitEvent::StepDone) => {
                self.phase = CtxPhase::BuildingContext;
                InitAction::BuildContext
            },
            (CtxPhase::BuildingContext, InitEvent::ContextBuilt { context }) => {
                self.v8_ctx = Some(context);
                self.phase = CtxPhase::DisarmingWatchdog;
                InitAction::DisarmWatchdog
            },
            (CtxPhase::BuildingContext, InitEvent::BuildFailed { error }) => {
                self.phase = CtxPhase::Aborted;
                let mut message = String::from_str("failed to build v8 context: ");
                let text = error.to_string();
                message.append(text.as_str());
                InitAction::Abort { exit_code: INIT_FAILURE_EXIT_CODE, sink: LogSink::AppLog, message }
            },
            (CtxPhase::BuildingContext, InitEvent::WatchdogFired) => self.time_out(),
            (CtxPhase::DisarmingWatchdog, InitEvent::WatchdogFired) => self.time_out(),
            (CtxPhase::DisarmingWatchdog, InitEvent::StepDone) => {
                self.mysql = connect_mysql(&self.metadata.mysql);
                self.apns = connect_apns(&self.metadata.apns);
                self.phase = CtxPhase::Serving;
                InitAction::Serve
            },
            _ => InitAction::Ignore,
        }
    }

    /// Replaces the current engine context of a serving context by a freshly
    /// built one: the last of the [`reset_steps`]. The caller has taken the
    /// steps before it and passes the outcome of the build. If the build
    /// failed, its error is handed back and the current context stays.
    pub fn reset_v8_context(&mut self, built: Result<C, PackageInitError>) -> (r: Result<(), PackageInitError>)
        requires
            old(self)@.wf(),
            old(self)@.phase is Serving,
        ensures
            built matches Ok(context) ==> r is Ok && final(self)@ == (CtxView {
                v8_ctx: Some(context),
                ..old(self)@
            }),
            built matches Err(error) ==> r == Err::<(), PackageInitError>(error) && final(self)@ == old(self)@,
            final(self)@.wf(),
    {
        match built {
            Ok(context) => {
                self.v8_ctx = Some(context);
                Ok(())
            },
            Err(error) => Err(error),
        }
    }
}

impl<C: Clone> BlueboatCtx<C> {
    /// A handle to the current engine context: a clone of the one that was
    /// built last. There is none before the first one is built.
    pub fn grab_v8_context(&self) -> (r: Option<C>)
        ensures
            r is Some == self@.v8_ctx is Some,
            r matches Some(context) ==> cloned(self@.v8_ctx->0, context),
    {
        match &self.v8_ctx {
            Some(context) => Some(context.clone()),
            None => None,
        }
    }
}

/// The phase of a context after a sequence of events.
pub open spec fn init_phase_after_all<C>(phase: CtxPhase, events: Seq<InitEvent<C>>) -> CtxPhase
    decreases events.len(),
{
    if events.len() == 0 {
        phase
    } else {
        init_phase_after(init_phase_after_all(phase, events.drop_last()), events.last())
    }
}

/// A context that serves or was abandoned stays so, whatever is reported
/// about its initialization afterwards.
pub proof fn lemma_init_outcome_is_final<C>(phase: CtxPhase, events: Seq<InitEvent<C>>)
    requires
        !phase.is_initializing(),
    ensures
        init_phase_after_all(phase, events) == phase,
    decreases events.len(),
{
    if events.len() > 0 {
        lemma_init_outcome_is_final(phase, events.drop_last());
    }
}

/// While the deadline is set, its passing abandons initialization; before
/// it is set and after it is cancelled, it changes nothing.
pub proof fn lemma_watchdog_deadline<C>(phase: CtxPhase)
    ensures
        phase.watchdog_armed() ==> init_phase_after(phase, InitEvent::<C>::WatchdogFired) is Aborted,
        !phase.watchdog_armed() ==> init_phase_after(phase, InitEvent::<C>::WatchdogFired) == phase,
{
}

/// A context begins to serve only from the phase in which the deadline is
/// cancelled, and initialization is abandoned only by a failed build or a
/// passed deadline.
pub proof fn lemma_init_exits<C>(phase: CtxPhase, event: InitEvent<C>)
    requires
        phase.is_initializing(),
    ensures
        init_phase_after(phase, event) is Serving ==> phase is DisarmingWatchdog && event is StepDone,
        init_phase_after(phase, event) is Aborted ==> event is BuildFailed || event is WatchdogFired,
{
}

} // verus!
