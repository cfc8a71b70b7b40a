//! Building one engine context for an app.
//!
//! The engine calls are made by the embedding program. This module decides
//! which globals a fresh context receives, what is handed to the app's
//! bootstrap function, when the index module is evaluated, and whether the
//! build succeeded or with which error it failed.

use vstd::prelude::*;

verus! {

/// Reserved key under which the native-invoke entry is installed.
pub const NI_ENTRY_KEY: &'static str = "__blueboat_host_invoke";

/// Global that exposes the package's resource table.
pub const PACKAGE_KEY: &'static str = "Package";

/// Global that exposes the runtime's version string.
pub const VERSION_KEY: &'static str = "__blueboat_version";

/// Global that exposes the analytics URL of the host, where one is set.
pub const ANALYTICS_URL_KEY: &'static str = "__blueboat_env_analytics_url";

/// Global function that an app may define to receive the bootstrap descriptor.
pub const BOOTSTRAP_KEY: &'static str = "__blueboat_app_bootstrap";

/// Module specifier that stands for the package's entry.
pub const INDEX_SPECIFIER: &'static str = "";

/// The one error of a context build: a message for a human reader.
#[derive(Debug, Clone, PartialEq, Eq)]
pub struct PackageInitError(pub String);

impl PackageInitError {
    /// The error as shown to a reader.
    pub open spec fn text(self) -> Seq<char> {
        "package init error: "@ + self.0@
    }

    /// The error as shown to a reader: a fixed prefix, then the message.
    pub fn to_string(&self) -> (s: String)
        ensures
            s@ == self.text(),
    {
        let mut s = String::from_str("package init error: ");
        s.append(self.0.as_str());
        s
    }
}

/// What a property of the context template is bound to.
#[derive(Copy, Clone, Debug, PartialEq, Eq, Structural)]
pub enum TemplateEntry {
    /// The entry point through which scripts call native APIs.
    NativeInvoke,
}

/// One property that the template injects into every global object.
#[derive(Debug, Clone, PartialEq, Eq)]
pub struct TemplateProperty {
    pub key: String,
    pub entry: TemplateEntry,
}

/// Shape of the global object of every context of an app.
#[derive(Debug, Clone, PartialEq, Eq)]
pub struct ContextTemplate {
    pub properties: Vec<TemplateProperty>,
}

/// The context template: its sole injected property is the native-invoke
/// entry under the reserved key.
pub fn build_context_template() -> (template: ContextTemplate)
    ensures
        template.properties@.len() == 1,
        template.properties@[0].key@ == NI_ENTRY_KEY@,
        template.properties@[0].entry == TemplateEntry::NativeInvoke,
{
    let mut properties: Vec<TemplateProperty> = Vec::new();
    properties.push(TemplateProperty { key: String::from_str(NI_ENTRY_KEY), entry: TemplateEntry::NativeInvoke });
    ContextTemplate { properties }
}

/// Value of a global that the build installs.
#[derive(Debug, Clone, PartialEq, Eq)]
pub enum GlobalValue {
    /// The package's resource table, bridged to the script side.
    PackageTable,
    /// A string.
    Text(String),
}

/// One global that the build installs.
#[derive(Debug, Clone, PartialEq, Eq)]
pub struct GlobalBinding {
    pub key: String,
    pub value: GlobalValue,
}

impl GlobalBinding {
    /// The binding puts the package table under `key`.
    pub open spec fn is_table(self, key: Seq<char>) -> bool {
        self.key@ == key && self.value is PackageTable
    }

    /// The binding puts the string `text` under `key`.
    pub open spec fn is_text(self, key: Seq<char>, text: Seq<char>) -> bool {
        &&& self.key@ == key
        &&& self.value matches GlobalValue::Text(s)
        &&& s@ == text
    }
}

/// The globals of a built context, in the order in which they are
/// installed: the package table, the version, and the analytics URL if the
/// host has one.
pub open spec fn globals_spec(globals: Seq<GlobalBinding>, version: Seq<char>, analytics_url: Option<Seq<char>>) -> bool {
    &&& globals.len() == if analytics_url is Some {
        3int
    } else {
        2int
    }
    &&& globals[0].is_table(PACKAGE_KEY@)
    &&& globals[1].is_text(VERSION_KEY@, version)
    &&& analytics_url matches Some(url) ==> globals[2].is_text(ANALYTICS_URL_KEY@, url)
}

/// What the app's bootstrap function is called with.
#[derive(Debug, Clone, PartialEq, Eq)]
pub struct BlueboatBootstrapData {
    /// Names of the SQL bindings.
    pub mysql: Vec<String>,
    /// Names of the push-notification bindings.
    pub apns: Vec<String>,
    /// The app's environment, as pairs of name and value.
    pub env: Vec<(String, String)>,
}

/// Mathematical value of a bootstrap descriptor.
pub struct BootstrapView {
    pub mysql: Seq<Seq<char>>,
    pub apns: Seq<Seq<char>>,
    pub env: Seq<(Seq<char>, Seq<char>)>,
}

impl View for BlueboatBootstrapData {
    type V = BootstrapView;

    open spec fn view(&self) -> BootstrapView {
        BootstrapView {
            mysql: self.mysql@.map_values(|s: String| s@),
            apns: self.apns@.map_values(|s: String| s@),
            env: self.env@.map_values(|p: (String, String)| (p.0@, p.1@)),
        }
    }
}

/// A copy of a list of strings.
fn copy_names(names: &Vec<String>) -> (r: Vec<String>)
    ensures
        r@.map_values(|s: String| s@) == names@.map_values(|s: String| s@),
{
    let mut r: Vec<String> = Vec::new();
    let mut i: usize = 0;
    while i < names.len()
        invariant
            i <= names@.len(),
            r@.len() == i,
            forall|j: int| 0 <= j < i ==> r@[j]@ == names@[j]@,
        decreases names@.len() - i,
    {
        r.push(names[i].clone());
        i = i + 1;
    }
    assert(r@.map_values(|s: String| s@) =~= names@.map_values(|s: String| s@));
    r
}

/// A copy of a list of pairs of strings.
fn copy_pairs(pairs: &Vec<(String, String)>) -> (r: Vec<(String, String)>)
    ensures
        r@.map_values(|p: (String, String)| (p.0@, p.1@)) == pairs@.map_values(|p: (String, String)| (p.0@, p.1@)),
{
    let mut r: Vec<(String, String)> = Vec::new();
    let mut i: usize = 0;
    while i < pairs.len()
        invariant
            i <= pairs@.len(),
            r@.len() == i,
            forall|j: int| 0 <= j < i ==> r@[j].0@ == pairs@[j].0@ && r@[j].1@ == pairs@[j].1@,
        decreases pairs@.len() - i,
    {
        r.push((pairs[i].0.clone(), pairs[i].1.clone()));
        i = i + 1;
    }
    assert(r@.map_values(|p: (String, String)| (p.0@, p.1@)) =~= pairs@.map_values(
        |p: (String, String)| (p.0@, p.1@),
    ));
    r
}

impl BlueboatBootstrapData {
    /// A copy of the descriptor.
    pub fn duplicate(&self) -> (r: BlueboatBootstrapData)
        ensures
            r@ == self@,
    {
        BlueboatBootstrapData {
            mysql: copy_names(&self.mysql),
            apns: copy_names(&self.apns),
            env: copy_pairs(&self.env),
        }
    }
}

/// How far a context build has come.
#[derive(Copy, Clone, Debug, PartialEq, Eq, Structural)]
pub enum BuildPhase {
    /// A context is being made from the template.
    Creating,
    /// The globals are being installed.
    Installing,
    /// The app's bootstrap function is being looked up and called.
    Bootstrapping,
    /// The index module is being loaded and evaluated.
    Evaluating,
    /// The build succeeded.
    Built,
    /// The build failed.
    Failed,
}

/// What the embedding program observed during a build.
#[derive(Debug, Clone, PartialEq, Eq)]
pub enum BuildEvent {
    /// A context was made from the template.
    ContextCreated,
    /// All globals are installed.
    GlobalsInstalled,
    /// The engine could not take a value that was to be handed to it.
    ValueRejected { message: String },
    /// The app defines no bootstrap function.
    BootstrapAbsent,
    /// The bootstrap function returned.
    BootstrapReturned,
    /// The bootstrap function raised an exception with this message.
    BootstrapThrew { message: String },
    /// The package has no index module.
    IndexAbsent,
    /// The index module was evaluated and is not in the errored state.
    IndexEvaluated,
    /// The index module is in the errored state; `stack` is the `stack`
    /// property of its exception, where it has one.
    IndexErrored { stack: Option<String> },
}

/// What the embedding program has to do next during a build.
#[derive(Debug, Clone, PartialEq, Eq)]
pub enum BuildAction {
    /// Install these globals, in this order.
    InstallGlobals { globals: Vec<GlobalBinding> },
    /// Look up the bootstrap function and, if it is one, call it with the
    /// descriptor while catching exceptions.
    CallBootstrap { descriptor: BlueboatBootstrapData },
    /// Resolve the module with this specifier together with its
    /// dependencies and evaluate it.
    EvaluateIndex { specifier: String },
    /// Keep the context: it is built.
    Finish,
    /// Give the context up and report the error.
    Fail { error: PackageInitError },
    /// Nothing: the event does not apply at this point of the build.
    Ignore,
}

/// Mathematical state of a build.
pub struct BuildView {
    pub phase: BuildPhase,
    pub version: Seq<char>,
    pub analytics_url: Option<Seq<char>>,
    pub descriptor: BootstrapView,
}

/// The message of the error with which `event` ends a build in `phase`, if
/// it does: a rejected value while values are handed over, an exception of
/// the bootstrap function, or the stack of an errored index module, empty
/// where it has none.
pub open spec fn failure_of(phase: BuildPhase, event: BuildEvent) -> Option<Seq<char>> {
    match (phase, event) {
        (BuildPhase::Installing, BuildEvent::ValueRejected { message }) => Some(message@),
        (BuildPhase::Bootstrapping, BuildEvent::ValueRejected { message }) => Some(message@),
        (BuildPhase::Bootstrapping, BuildEvent::BootstrapThrew { message }) => Some(message@),
        (BuildPhase::Evaluating, BuildEvent::IndexErrored { stack }) => Some(
            match stack {
                Some(s) => s@,
                None => Seq::<char>::empty(),
            },
        ),
        _ => None,
    }
}

/// The phase that follows `phase` on `event`.
pub open spec fn phase_after(phase: BuildPhase, event: BuildEvent) -> BuildPhase {
    if failure_of(phase, event) is Some {
        BuildPhase::Failed
    } else {
        match (phase, event) {
            (BuildPhase::Creating, BuildEvent::ContextCreated) => BuildPhase::Installing,
            (BuildPhase::Installing, BuildEvent::GlobalsInstalled) => BuildPhase::Bootstrapping,
            (BuildPhase::Bootstrapping, BuildEvent::BootstrapAbsent) => BuildPhase::Evaluating,
            (BuildPhase::Bootstrapping, BuildEvent::BootstrapReturned) => BuildPhase::Evaluating,
            (BuildPhase::Evaluating, BuildEvent::IndexAbsent) => BuildPhase::Built,
            (BuildPhase::Evaluating, BuildEvent::IndexEvaluated) => BuildPhase::Built,
            _ => phase,
        }
    }
}

/// `action` is what a build in state `build` has to do on `event`.
pub open spec fn action_spec(build: BuildView, event: BuildEvent, action: BuildAction) -> bool {
    match failure_of(build.phase, event) {
        Some(message) => action matches BuildAction::Fail { error } && error.0@ == message,
        None => if phase_after(build.phase, event) == build.phase {
            action is Ignore
        } else {
            match phase_after(build.phase, event) {
                BuildPhase::Installing => action matches BuildAction::InstallGlobals { globals } && globals_spec(
                    globals@,
                    build.version,
                    build.analytics_url,
                ),
                BuildPhase::Bootstrapping => action matches BuildAction::CallBootstrap { descriptor }
                    && descriptor@ == build.descriptor,
                BuildPhase::Evaluating => action matches BuildAction::EvaluateIndex { specifier } && specifier@
                    == INDEX_SPECIFIER@,
                _ => action is Finish,
            }
        },
    }
}

/// One build of a context.
#[derive(Debug)]
pub struct ContextBuild {
    phase: BuildPhase,
    version: String,
    analytics_url: Option<String>,
    descriptor: BlueboatBootstrapData,
}

impl View for ContextBuild {
    type V = BuildView;

    closed spec fn view(&self) -> BuildView {
        BuildView {
            phase: self.phase,
            version: self.version@,
            analytics_url: match self.analytics_url {
                Some(url) => Some(url@),
                None => None,
            },
            descriptor: self.descriptor@,
        }
    }
}

impl ContextBuild {
    /// A build that starts: `version` is the runtime's version string,
    /// `analytics_url` the analytics URL of the host where one is set, and
    /// `descriptor` what the bootstrap function will be called with.
    pub fn new(version: String, analytics_url: Option<String>, descriptor: BlueboatBootstrapData) -> (build:
        ContextBuild)
        ensures
            build@ == (BuildView {
                phase: BuildPhase::Creating,
                version: version@,
                analytics_url: match analytics_url {
                    Some(url) => Some(url@),
                    None => None,
                },
                descriptor: descriptor@,
            }),
    {
        ContextBuild { phase: BuildPhase::Creating, version, analytics_url, descriptor }
    }

    /// How far the build has come.
    pub fn phase(&self) -> (p: BuildPhase)
        ensures
            p == self@.phase,
    {
        self.phase
    }

    /// The globals that the build installs.
    fn globals(&self) -> (globals: Vec<GlobalBinding>)
        ensures
            globals_spec(globals@, self@.version, self@.analytics_url),
    {
        let mut globals: Vec<GlobalBinding> = Vec::new();
        globals.push(GlobalBinding { key: String::from_str(PACKAGE_KEY), value: GlobalValue::PackageTable });
        globals.push(
            GlobalBinding { key: String::from_str(VERSION_KEY), value: GlobalValue::Text(self.version.clone()) },
        );
        match &self.analytics_url {
            Some(url) => {
                globals.push(
                    GlobalBinding { key: String::from_str(ANALYTICS_URL_KEY), value: GlobalValue::Text(url.clone()) },
                );
            },
            None => {},
        }
        globals
    }

    /// Ends the build with an error that carries `message`.
    fn fail(&mut self, message: String) -> (action: BuildAction)
        ensures
            final(self)@ == (BuildView { phase: BuildPhase::Failed, ..old(self)@ }),
            action matches BuildAction::Fail { error } && error.0@ == message@,
    {
        self.phase = BuildPhase::Failed;
        BuildAction::Fail { error: PackageInitError(message) }
    }
}

/// Advances a build by one observed event and says what to do next.
///
/// The globals are installed first, then the bootstrap function is called
/// if the app defines one, then the index module is evaluated if the package
/// has one. An exception of the bootstrap function ends the build with an
/// error that carries the exception's message; an errored index module ends
/// it with an error that carries the exception's stack, or nothing where the
/// stack cannot be had. Only a build that saw neither is built.
pub fn build_v8_context(build: &mut ContextBuild, event: BuildEvent) -> (action: BuildAction)
    ensures
        final(build)@ == (BuildView { phase: phase_after(old(build)@.phase, event), ..old(build)@ }),
        action_spec(old(build)@, event, action),
{
    match (build.phase, event) {
        (BuildPhase::Installing, BuildEvent::ValueRejected { message }) => build.fail(message),
        (BuildPhase::Bootstrapping, BuildEvent::ValueRejected { message }) => build.fail(message),
        (BuildPhase::Bootstrapping, BuildEvent::BootstrapThrew { message }) => build.fail(message),
        (BuildPhase::Evaluating, BuildEvent::IndexErrored { stack }) => {
            match stack {
                Some(s) => build.fail(s),
                None => build.fail(String::new()),
            }
        },
        (BuildPhase::Creating, BuildEvent::ContextCreated) => {
            build.phase = BuildPhase::Installing;
            BuildAction::InstallGlobals { globals: build.globals() }
        },
        (BuildPhase::Installing, BuildEvent::GlobalsInstalled) => {
            build.phase = BuildPhase::Bootstrapping;
            BuildAction::CallBootstrap { descriptor: build.descriptor.duplicate() }
        },
        (BuildPhase::Bootstrapping, BuildEvent::BootstrapAbsent) | (
            BuildPhase::Bootstrapping,
            BuildEvent::BootstrapReturned,
        ) => {
            build.phase = BuildPhase::Evaluating;
            BuildAction::EvaluateIndex { specifier: String::from_str(INDEX_SPECIFIER) }
        },
        (BuildPhase::Evaluating, BuildEvent::IndexAbsent) | (BuildPhase::Evaluating, BuildEvent::IndexEvaluated) => {
            build.phase = BuildPhase::Built;
            BuildAction::Finish
        },
        _ => BuildAction::Ignore,
    }
}

/// The phase of a build after a sequence of events.
pub open spec fn phase_after_all(phase: BuildPhase, events: Seq<BuildEvent>) -> BuildPhase
    decreases events.len(),
{
    if events.len() == 0 {
        phase
    } else {
        phase_after(phase_after_all(phase, events.drop_last()), events.last())
    }
}

/// A build that is built or has failed stays so, whatever is reported next.
pub proof fn lemma_build_outcome_is_final(phase: BuildPhase, events: Seq<BuildEvent>)
    requires
        phase is Built || phase is Failed,
    ensures
        phase_after_all(phase, events) == phase,
    decreases events.len(),
{
    if events.len() > 0 {
        lemma_build_outcome_is_final(phase, events.drop_last());
    }
}

/// A build is built only if every event that could have failed it, where it
/// stood when the event came, did not: no rejected value, no exception of
/// the bootstrap function, no errored index module.
pub proof fn lemma_built_saw_no_failure(events: Seq<BuildEvent>, n: int)
    requires
        phase_after_all(BuildPhase::Creating, events) is Built,
        0 <= n < events.len(),
    ensures
        failure_of(phase_after_all(BuildPhase::Creating, events.take(n)), events[n]) is None,
    decreases events.len(),
{
    let before = events.drop_last();
    if n == events.len() - 1 {
        assert(events.take(n) =~= before);
    } else {
        assert(before.take(n) =~= events.take(n));
        if phase_after_all(BuildPhase::Creating, before) is Built {
            lemma_built_saw_no_failure(before, n);
        } else {
            let at = phase_after_all(BuildPhase::Creating, before.take(n));
            if failure_of(at, events[n]) is Some {
                assert(before.take(n + 1).drop_last() =~= before.take(n));
                assert(phase_after_all(BuildPhase::Creating, before.take(n + 1)) is Failed);
                lemma_phase_after_split(BuildPhase::Creating, before, n + 1);
                lemma_build_outcome_is_final(BuildPhase::Failed, before.skip(n + 1));
            }
        }
    }
}

/// Running a sequence of events is running a prefix and then the rest.
proof fn lemma_phase_after_split(phase: BuildPhase, events: Seq<BuildEvent>, n: int)
    requires
        0 <= n <= events.len(),
    ensures
        phase_after_all(phase, events) == phase_after_all(phase_after_all(phase, events.take(n)), events.skip(n)),
    decreases events.len(),
{
    if n == events.len() {
        assert(events.take(n) =~= events);
        assert(events.skip(n) =~= Seq::<BuildEvent>::empty());
    } else {
        lemma_phase_after_split(phase, events.drop_last(), n);
        assert(events.drop_last().take(n) =~= events.take(n));
        assert(events.skip(n).drop_last() =~= events.drop_last().skip(n));
    }
}

} // verus!
