//! Finding or installing the language server package before it is started.
//!
//! The decisions are a state machine: [`Provisioner::step`] takes the answer
//! to the last request (does a path exist, how did the installer end) and
//! returns the status to show and the next thing to do. Whoever drives it
//! checks the disk and runs the installer.
use vstd::prelude::*;
use vstd::string::*;

verus! {

/// Name of the package that holds the language server.
pub const PACKAGE_NAME: &'static str = "laravel-language-server";

/// Version tag asked of the package installer.
pub const PACKAGE_VERSION: &'static str = "latest";

/// Directory under which the installer puts its packages.
pub const INSTALL_DIR: &'static str = "node_modules";

/// Path of the server's script inside its package.
pub const ENTRY_SUBPATH: &'static str = "dist/server.js";

/// Start of the status message shown when the installer fails.
pub const FAILURE_PREFIX: &'static str = "Failed to install Laravel Language Server: ";

/// Path of the server's script under the installation directory.
pub open spec fn entry_path_spec() -> Seq<char> {
    INSTALL_DIR@ + "/"@ + PACKAGE_NAME@ + "/"@ + ENTRY_SUBPATH@
}

/// Path of the server's script under the installation directory.
pub fn entry_path() -> (r: String)
    ensures
        r@ == entry_path_spec(),
{
    let mut p = INSTALL_DIR.to_owned();
    p.append("/");
    p.append(PACKAGE_NAME);
    p.append("/");
    p.append(ENTRY_SUBPATH);
    p
}

/// Flag that makes the language server talk over standard input and output.
pub const STDIO_FLAG: &'static str = "--stdio";

/// Arguments that the node runtime is started with: the server's script,
/// then the flag for standard input and output.
pub fn server_arguments(script: String) -> (r: Vec<String>)
    ensures
        r@.len() == 2,
        r@[0]@ == script@,
        r@[1]@ == STDIO_FLAG@,
{
    let mut args: Vec<String> = Vec::new();
    args.push(script);
    args.push(STDIO_FLAG.to_owned());
    args
}

/// Installation progress, as shown to the user.
#[derive(Debug)]
pub enum InstallationStatus {
    CheckingForUpdate,
    Downloading,
    Idle,
    Failed(String),
}

/// What an [`InstallationStatus`] holds.
pub enum StatusModel {
    CheckingForUpdate,
    Downloading,
    Idle,
    Failed(Seq<char>),
}

impl View for InstallationStatus {
    type V = StatusModel;

    open spec fn view(&self) -> StatusModel {
        match self {
            InstallationStatus::CheckingForUpdate => StatusModel::CheckingForUpdate,
            InstallationStatus::Downloading => StatusModel::Downloading,
            InstallationStatus::Idle => StatusModel::Idle,
            InstallationStatus::Failed(m) => StatusModel::Failed(m@),
        }
    }
}

/// The installer failed; `message` is the installer's own error text.
#[derive(Debug)]
pub struct InstallError {
    pub message: String,
}

/// Where a resolution stands.
#[derive(Debug, Clone, Copy, PartialEq, Eq, Structural)]
pub enum Phase {
    /// No resolution is under way.
    Ready,
    /// Waiting to learn whether the remembered path still exists.
    CheckingCache,
    /// Waiting to learn whether the server's script exists.
    CheckingEntry,
    /// Waiting for the installer to finish.
    Installing,
}

/// The answer to the last request, or the start of a resolution.
#[derive(Debug)]
pub enum Event {
    /// A resolution is asked for.
    Start,
    /// Whether the path that was to be checked exists.
    PathChecked(bool),
    /// How the installer ended, with its error text on failure.
    InstallFinished(Result<(), String>),
}

/// What an [`Event`] holds.
pub enum EventModel {
    Start,
    PathChecked(bool),
    InstallFinished(Result<(), Seq<char>>),
}

impl View for Event {
    type V = EventModel;

    open spec fn view(&self) -> EventModel {
        match self {
            Event::Start => EventModel::Start,
            Event::PathChecked(b) => EventModel::PathChecked(*b),
            Event::InstallFinished(Ok(())) => EventModel::InstallFinished(Ok(())),
            Event::InstallFinished(Err(e)) => EventModel::InstallFinished(Err(e@)),
        }
    }
}

/// The next thing to do.
#[derive(Debug)]
pub enum Effect {
    /// Check whether the path exists, and answer with `Event::PathChecked`.
    CheckPath(String),
    /// Install the package at the version tag, and answer with
    /// `Event::InstallFinished`.
    Install { package: String, version: String },
    /// The resolution is over: the server's script, or the installer's error.
    Finish(Result<String, InstallError>),
}

/// What an [`Effect`] holds.
pub enum EffectModel {
    CheckPath(Seq<char>),
    Install(Seq<char>, Seq<char>),
    Finish(Result<Seq<char>, Seq<char>>),
}

impl View for Effect {
    type V = EffectModel;

    open spec fn view(&self) -> EffectModel {
        match self {
            Effect::CheckPath(p) => EffectModel::CheckPath(p@),
            Effect::Install { package, version } => EffectModel::Install(package@, version@),
            Effect::Finish(Ok(p)) => EffectModel::Finish(Ok(p@)),
            Effect::Finish(Err(e)) => EffectModel::Finish(Err(e.message@)),
        }
    }
}

/// One move of the state machine: a status to show, if any, and what to do.
#[derive(Debug)]
pub struct Step {
    pub status: Option<InstallationStatus>,
    pub effect: Effect,
}

/// What a [`Step`] holds.
pub struct StepModel {
    pub status: Option<StatusModel>,
    pub effect: EffectModel,
}

impl View for Step {
    type V = StepModel;

    open spec fn view(&self) -> StepModel {
        StepModel {
            status: match self.status {
                Some(s) => Some(s@),
                None => None,
            },
            effect: self.effect@,
        }
    }
}

/// Finds or installs the language server, remembering the path it found.
#[derive(Debug)]
pub struct Provisioner {
    cached_path: Option<String>,
    phase: Phase,
}

/// What a [`Provisioner`] holds.
pub struct ProvisionerModel {
    pub cached: Option<Seq<char>>,
    pub phase: Phase,
}

impl View for Provisioner {
    type V = ProvisionerModel;

    closed spec fn view(&self) -> ProvisionerModel {
        ProvisionerModel {
            cached: match self.cached_path {
                Some(p) => Some(p@),
                None => None,
            },
            phase: self.phase,
        }
    }
}

impl ProvisionerModel {
    /// A remembered path is being checked only if one is remembered.
    pub open spec fn wf(self) -> bool {
        self.phase == Phase::CheckingCache ==> self.cached is Some
    }

    /// Whether the event answers what the state machine waits for.
    pub open spec fn accepts(self, e: EventModel) -> bool {
        match self.phase {
            Phase::Ready => e is Start,
            Phase::CheckingCache => e is PathChecked,
            Phase::CheckingEntry => e is PathChecked,
            Phase::Installing => e is InstallFinished,
        }
    }
}

/// The step that begins the search for the server's script.
pub open spec fn look_for_entry(cached: Option<Seq<char>>) -> (ProvisionerModel, StepModel) {
    (
        ProvisionerModel { cached, phase: Phase::CheckingEntry },
        StepModel {
            status: Some(StatusModel::CheckingForUpdate),
            effect: EffectModel::CheckPath(entry_path_spec()),
        },
    )
}

/// The step that ends a resolution with the server's script.
pub open spec fn found_entry() -> (ProvisionerModel, StepModel) {
    (
        ProvisionerModel { cached: Some(entry_path_spec()), phase: Phase::Ready },
        StepModel { status: Some(StatusModel::Idle), effect: EffectModel::Finish(Ok(entry_path_spec())) },
    )
}

/// The move of the state machine in state `s` on event `e`. Events that the
/// state does not accept leave it as it is.
pub open spec fn next(s: ProvisionerModel, e: EventModel) -> (ProvisionerModel, StepModel) {
    match (s.phase, e) {
        (Phase::Ready, EventModel::Start) => match s.cached {
            Some(p) => (
                ProvisionerModel { cached: s.cached, phase: Phase::CheckingCache },
                StepModel { status: None, effect: EffectModel::CheckPath(p) },
            ),
            None => look_for_entry(s.cached),
        },
        (Phase::CheckingCache, EventModel::PathChecked(exists)) => if exists {
            (
                ProvisionerModel { cached: s.cached, phase: Phase::Ready },
                StepModel { status: None, effect: EffectModel::Finish(Ok(s.cached.unwrap())) },
            )
        } else {
            look_for_entry(s.cached)
        },
        (Phase::CheckingEntry, EventModel::PathChecked(exists)) => if exists {
            found_entry()
        } else {
            (
                ProvisionerModel { cached: s.cached, phase: Phase::Installing },
                StepModel {
                    status: Some(StatusModel::Downloading),
                    effect: EffectModel::Install(PACKAGE_NAME@, PACKAGE_VERSION@),
                },
            )
        },
        (Phase::Installing, EventModel::InstallFinished(Ok(()))) => found_entry(),
        (Phase::Installing, EventModel::InstallFinished(Err(e))) => (
            ProvisionerModel { cached: s.cached, phase: Phase::Ready },
            StepModel {
                status: Some(StatusModel::Failed(FAILURE_PREFIX@ + e)),
                effect: EffectModel::Finish(Err(e)),
            },
        ),
        _ => (s, StepModel { status: None, effect: EffectModel::Finish(Err(Seq::empty())) }),
    }
}

impl Provisioner {
    /// A provisioner that remembers no path yet.
    pub fn new() -> (r: Self)
        ensures
            r@ == (ProvisionerModel { cached: None, phase: Phase::Ready }),
    {
        Provisioner { cached_path: None, phase: Phase::Ready }
    }

    /// Whether `step` may be called with `e` now.
    pub fn accepts(&self, e: &Event) -> (r: bool)
        ensures
            r == self@.accepts(e@),
    {
        match self.phase {
            Phase::Ready => matches!(e, Event::Start),
            Phase::CheckingCache => matches!(e, Event::PathChecked(_)),
            Phase::CheckingEntry => matches!(e, Event::PathChecked(_)),
            Phase::Installing => matches!(e, Event::InstallFinished(_)),
        }
    }

    /// Takes the answer to the last request and decides what comes next.
    pub fn step(&mut self, e: Event) -> (r: Step)
        requires
            old(self)@.wf(),
            old(self)@.accepts(e@),
        ensures
            final(self)@.wf(),
            (final(self)@, r@) == next(old(self)@, e@),
    {
        match e {
            Event::Start => {
                match &self.cached_path {
                    Some(p) => {
                        let p = p.clone();
                        self.phase = Phase::CheckingCache;
                        Step { status: None, effect: Effect::CheckPath(p) }
                    },
                    None => self.look_for_entry(),
                }
            },
            Event::PathChecked(exists) => {
                if self.phase == Phase::CheckingCache {
                    if exists {
                        self.phase = Phase::Ready;
                        let p = self.cached_path.clone().unwrap();
                        Step { status: None, effect: Effect::Finish(Ok(p)) }
                    } else {
                        self.look_for_entry()
                    }
                } else if exists {
                    self.found_entry()
                } else {
                    self.phase = Phase::Installing;
                    Step {
                        status: Some(InstallationStatus::Downloading),
                        effect: Effect::Install {
                            package: PACKAGE_NAME.to_owned(),
                            version: PACKAGE_VERSION.to_owned(),
                        },
                    }
                }
            },
            Event::InstallFinished(Ok(())) => self.found_entry(),
            Event::InstallFinished(Err(message)) => {
                self.phase = Phase::Ready;
                let mut shown = FAILURE_PREFIX.to_owned();
                shown.append(message.as_str());
                Step {
                    status: Some(InstallationStatus::Failed(shown)),
                    effect: Effect::Finish(Err(InstallError { message })),
                }
            },
        }
    }

    fn look_for_entry(&mut self) -> (r: Step)
        ensures
            (final(self)@, r@) == look_for_entry(old(self)@.cached),
    {
        self.phase = Phase::CheckingEntry;
        Step { status: Some(InstallationStatus::CheckingForUpdate), effect: Effect::CheckPath(entry_path()) }
    }

    fn found_entry(&mut self) -> (r: Step)
        ensures
            (final(self)@, r@) == found_entry(),
    {
        self.phase = Phase::Ready;
        self.cached_path = Some(entry_path());
        Step { status: Some(InstallationStatus::Idle), effect: Effect::Finish(Ok(entry_path())) }
    }
}

/// What the outside world answers during a resolution: the paths that
/// exist on disk, and how the installer ends when it is run.
pub struct Environment {
    pub existing: Set<Seq<char>>,
    pub install: Result<(), Seq<char>>,
}

/// The answer of the outside world to a request.
pub open spec fn reply(env: Environment, effect: EffectModel) -> EventModel {
    match effect {
        EffectModel::CheckPath(p) => EventModel::PathChecked(env.existing.contains(p)),
        EffectModel::Install(_, _) => EventModel::InstallFinished(env.install),
        EffectModel::Finish(_) => EventModel::Start,
    }
}

/// The state reached and the steps taken from state `s` on event `e`, when
/// every request is answered by `env`, for at most `fuel` answers.
pub open spec fn run(env: Environment, s: ProvisionerModel, e: EventModel, fuel: nat) -> (
    ProvisionerModel,
    Seq<StepModel>,
)
    decreases fuel,
{
    let (s1, st) = next(s, e);
    if fuel == 0 || st.effect is Finish {
        (s1, seq![st])
    } else {
        let (s2, rest) = run(env, s1, reply(env, st.effect), (fuel - 1) as nat);
        (s2, seq![st] + rest)
    }
}

/// A whole resolution from state `s` in the world `env`: the state after it
/// and the steps taken. No resolution takes more than four steps.
pub open spec fn resolve(env: Environment, s: ProvisionerModel) -> (ProvisionerModel, Seq<StepModel>) {
    run(env, s, EventModel::Start, 3)
}

/// The steps of a resolution that finds its remembered path `p` on disk.
pub open spec fn warm_steps(p: Seq<char>) -> Seq<StepModel> {
    seq![
        StepModel { status: None, effect: EffectModel::CheckPath(p) },
        StepModel { status: None, effect: EffectModel::Finish(Ok(p)) },
    ]
}

/// Whether one of the steps runs the installer.
pub open spec fn runs_installer(steps: Seq<StepModel>) -> bool {
    exists|i: int| 0 <= i < steps.len() && (#[trigger] steps[i]).effect is Install
}

/// Whether the remembered path is missing or gone from disk.
pub open spec fn cache_unusable(env: Environment, s: ProvisionerModel) -> bool {
    match s.cached {
        None => true,
        Some(p) => !env.existing.contains(p),
    }
}

/// A remembered path that still exists is returned as soon as its existence
/// is confirmed: no status is shown, the installer is not run, and the state
/// is unchanged.
pub proof fn lemma_warm_cache(env: Environment, s: ProvisionerModel)
    requires
        s.phase == Phase::Ready,
        s.cached is Some,
        env.existing.contains(s.cached.unwrap()),
    ensures
        resolve(env, s) == (s, warm_steps(s.cached.unwrap())),
{
    reveal_with_fuel(run, 4);
    let p = s.cached.unwrap();
    let (s1, st1) = next(s, EventModel::Start);
    assert(st1.effect == EffectModel::CheckPath(p));
    let (s2, st2) = next(s1, reply(env, st1.effect));
    assert(s2 == s);
    assert(run(env, s1, reply(env, st1.effect), 2) == (s2, seq![st2]));
    assert(resolve(env, s).1 =~= seq![st1, st2]);
}

/// Without a usable remembered path, a server's script that already exists
/// is found and remembered, and the installer is not run.
pub proof fn lemma_existing_entry(env: Environment, s: ProvisionerModel)
    requires
        s.phase == Phase::Ready,
        cache_unusable(env, s),
        env.existing.contains(entry_path_spec()),
    ensures
        ({
            let (s2, steps) = resolve(env, s);
            &&& s2 == (ProvisionerModel { cached: Some(entry_path_spec()), phase: Phase::Ready })
            &&& steps.last().effect == EffectModel::Finish(Ok(entry_path_spec()))
            &&& !runs_installer(steps)
        }),
{
    reveal_with_fuel(run, 4);
    let (s2, steps) = resolve(env, s);
    match s.cached {
        Some(p) => {
            let (s1, st1) = next(s, EventModel::Start);
            let (sa, sta) = next(s1, reply(env, st1.effect));
            let (sb, stb) = next(sa, reply(env, sta.effect));
            assert(steps =~= seq![st1, sta, stb]);
        },
        None => {
            let (s1, st1) = next(s, EventModel::Start);
            let (sa, sta) = next(s1, reply(env, st1.effect));
            assert(steps =~= seq![st1, sta]);
        },
    }
}

/// Without a usable remembered path or a server's script on disk, the
/// package is installed at the `latest` tag; when that succeeds the script's
/// path is returned and remembered, and a later resolution that finds it on
/// disk returns it at once.
pub proof fn lemma_fresh_install(env: Environment, s: ProvisionerModel, later: Environment)
    requires
        s.phase == Phase::Ready,
        cache_unusable(env, s),
        !env.existing.contains(entry_path_spec()),
        env.install is Ok,
        later.existing.contains(entry_path_spec()),
    ensures
        ({
            let (s2, steps) = resolve(env, s);
            &&& s2 == (ProvisionerModel { cached: Some(entry_path_spec()), phase: Phase::Ready })
            &&& steps.last().effect == EffectModel::Finish(Ok(entry_path_spec()))
            &&& exists|i: int|
                0 <= i < steps.len() && (#[trigger] steps[i]).effect == EffectModel::Install(
                    PACKAGE_NAME@,
                    PACKAGE_VERSION@,
                )
            &&& resolve(later, s2) == (s2, warm_steps(entry_path_spec()))
        }),
{
    reveal_with_fuel(run, 4);
    let (s2, steps) = resolve(env, s);
    let (s1, st1) = next(s, EventModel::Start);
    match s.cached {
        Some(p) => {
            let (sa, sta) = next(s1, reply(env, st1.effect));
            let (sb, stb) = next(sa, reply(env, sta.effect));
            let (sc, stc) = next(sb, reply(env, stb.effect));
            assert(steps =~= seq![st1, sta, stb, stc]);
            assert(steps[2].effect == EffectModel::Install(PACKAGE_NAME@, PACKAGE_VERSION@));
        },
        None => {
            let (sa, sta) = next(s1, reply(env, st1.effect));
            let (sb, stb) = next(sa, reply(env, sta.effect));
            assert(steps =~= seq![st1, sta, stb]);
            assert(steps[1].effect == EffectModel::Install(PACKAGE_NAME@, PACKAGE_VERSION@));
        },
    }
    lemma_warm_cache(later, s2);
}

/// Without a usable remembered path or a server's script on disk, a failing
/// installer ends the resolution with its own error text, which the failure
/// status shows too. The state is left as it was, so the next resolution
/// starts over exactly as this one did.
pub proof fn lemma_install_failure(env: Environment, s: ProvisionerModel, message: Seq<char>)
    requires
        s.phase == Phase::Ready,
        cache_unusable(env, s),
        !env.existing.contains(entry_path_spec()),
        env.install == Err::<(), Seq<char>>(message),
    ensures
        ({
            let (s2, steps) = resolve(env, s);
            &&& s2 == s
            &&& steps.last() == (StepModel {
                status: Some(StatusModel::Failed(FAILURE_PREFIX@ + message)),
                effect: EffectModel::Finish(Err(message)),
            })
            &&& forall|other: Environment| resolve(other, s2) == resolve(other, s)
        }),
{
    reveal_with_fuel(run, 4);
    let (s2, steps) = resolve(env, s);
    let (s1, st1) = next(s, EventModel::Start);
    match s.cached {
        Some(p) => {
            let (sa, sta) = next(s1, reply(env, st1.effect));
            let (sb, stb) = next(sa, reply(env, sta.effect));
            let (sc, stc) = next(sb, reply(env, stb.effect));
            assert(steps =~= seq![st1, sta, stb, stc]);
        },
        None => {
            let (sa, sta) = next(s1, reply(env, st1.effect));
            let (sb, stb) = next(sa, reply(env, sta.effect));
            assert(steps =~= seq![st1, sta, stb]);
        },
    }
}

} // verus!
