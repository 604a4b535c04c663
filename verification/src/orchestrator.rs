//! The orchestrator: it decides what is done next, and is told how it
//! went.
//!
//! The caller runs a loop. It asks for the pending request, does what the
//! request says (probes, runs a child process, looks for a file) with the
//! environment that the orchestrator holds, and hands the outcome back as
//! an event. The orchestrator never touches the host itself.

use vstd::prelude::*;
use vstd::string::*;
use crate::build_config::{
    BuildConfig, BuildConfigView, archive_found, find_archive, version_name, version_name_of,
};
use crate::environment::{
    BuildEnv, BuildEnvView, include_flags, law_forcing_is_idempotent, link_flags,
};
use crate::error::BuildError;
use crate::library::{LibraryDescriptor, LibraryView, library_views};
use crate::package::Package;
use crate::recipe::{
    Stage, Step, config_for, config_of, next_step, stage_after, stage_reached_by, step_after,
};
use crate::tools::{
    check_make, compiler, compiler_resolved, make_accepted, make_candidate, make_candidate_of,
};

verus! {

/// Where the orchestrator stands.
#[derive(Clone, Copy, Debug, PartialEq, Eq, Structural)]
pub enum Phase {
    /// Asking whether the system already has a newt that will do.
    ProbingSystem,
    /// Trying the make candidate of this index.
    LocatingMake(usize),
    /// Looking for a C compiler.
    ResolvingCompiler,
    /// Looking for the archive of a package.
    LocatingArchive(Package),
    /// Building a package, which has come as far as the stage.
    Building(Package, Stage),
    /// Compiling the glue object against the newt that was found or built.
    CompilingGlue,
    /// All is done.
    Finished,
    /// The build was given up.
    Failed(BuildError),
}

/// What the caller is to do next.
#[derive(Clone, Copy, Debug, PartialEq, Eq, Structural)]
pub enum Request {
    /// Probe the system for newt; answered by `Event::SystemProbed`.
    ProbeSystem,
    /// Run the make candidate of this index for its version banner;
    /// answered by `Event::MakeQueried`.
    QueryMake(usize),
    /// Discover a C compiler and look it up on the host; answered by
    /// `Event::CompilerResolved`.
    ResolveCompiler,
    /// See which archive candidates of the package are files; answered by
    /// `Event::ArchiveLocated`.
    LocateArchive(Package),
    /// Run a step of a package's recipe; the probe is answered by
    /// `Event::Probed`, every other step by `Event::StepFinished`.
    Run(Package, Step),
    /// Compile the glue object; answered by `Event::StepFinished`.
    CompileGlue,
    /// Nothing is left to do; the flag says whether newt is to be linked
    /// statically.
    Finish(bool),
    /// Report the error and stop.
    Abort(BuildError),
}

/// How a request went.
#[derive(Debug)]
pub enum Event {
    /// The system probe found this library, or none.
    SystemProbed(Option<LibraryDescriptor>),
    /// The make candidate printed this, or could not be run.
    MakeQueried(Option<String>),
    /// Discovery named this compiler, or none, and the host could invoke
    /// it, or not.
    CompilerResolved(Option<String>, bool),
    /// Whether the bzip2 archive is a file, and whether the gzip one is.
    ArchiveLocated(bool, bool),
    /// The child process ran and succeeded, or not.
    StepFinished(bool),
    /// The probe after an install found this library, or none.
    Probed(Option<LibraryDescriptor>),
}

/// An `Event` as sequences of characters.
pub enum EventView {
    SystemProbed(Option<LibraryView>),
    MakeQueried(Option<Seq<char>>),
    CompilerResolved(Option<Seq<char>>, bool),
    ArchiveLocated(bool, bool),
    StepFinished(bool),
    Probed(Option<LibraryView>),
}

/// The view of a library that may be absent.
pub open spec fn found_view(found: Option<LibraryDescriptor>) -> Option<LibraryView> {
    match found {
        Some(library) => Some(library@),
        None => None,
    }
}

/// The view of a configuration that may be absent.
pub open spec fn config_view(config: Option<BuildConfig>) -> Option<BuildConfigView> {
    match config {
        Some(config) => Some(config@),
        None => None,
    }
}

impl View for Event {
    type V = EventView;

    open spec fn view(&self) -> EventView {
        match self {
            Event::SystemProbed(found) => EventView::SystemProbed(found_view(*found)),
            Event::MakeQueried(output) => EventView::MakeQueried(output.deep_view()),
            Event::CompilerResolved(discovered, invocable) => EventView::CompilerResolved(
                discovered.deep_view(),
                *invocable,
            ),
            Event::ArchiveLocated(bzip2, gzip) => EventView::ArchiveLocated(*bzip2, *gzip),
            Event::StepFinished(succeeded) => EventView::StepFinished(*succeeded),
            Event::Probed(found) => EventView::Probed(found_view(*found)),
        }
    }
}

/// The environment in which `package` is built: the flags of the
/// libraries built so far are injected where the package depends on them,
/// and the marker for position-independent code is forced where it needs it.
pub open spec fn env_entering(env: BuildEnvView, package: Package, libs: Seq<LibraryView>)
    -> BuildEnvView {
    let injected = if package.spec_has_dependencies() {
        env.with_dependency_flags(libs)
    } else {
        env
    };
    if package.spec_needs_pic() {
        injected.with_pic_forced()
    } else {
        injected
    }
}

/// The environment after the install of `package`: forced compiler flags
/// are put back, and the package's `pkgconfig` directory joins the search
/// path of the probe.
pub open spec fn env_after_install(
    env: BuildEnvView,
    package: Package,
    config: Option<BuildConfigView>,
) -> BuildEnvView {
    let restored = if package.spec_needs_pic() {
        env.with_cflags_restored()
    } else {
        env
    };
    match config {
        Some(config) => restored.with_search_path(config.pkg_config_path),
        None => restored,
    }
}

/// The environment after a build, however it ended: forced compiler flags
/// are put back and the dependency flags are cleared.
pub open spec fn env_leaving(env: BuildEnvView) -> BuildEnvView {
    env.with_cflags_restored().without_dependency_flags()
}

/// An `Orchestrator` as sequences of characters.
pub struct OrchestratorView {
    pub phase: Phase,
    /// Whether static linkage was asked for.
    pub statik: bool,
    pub out_dir: Seq<char>,
    pub target: Seq<char>,
    pub crate_path: Seq<char>,
    pub env: BuildEnvView,
    /// The GNU Make that was found.
    pub make: Option<Seq<char>>,
    /// The configuration of the package that is being built.
    pub config: Option<BuildConfigView>,
    /// The libraries built so far that later builds depend on, in the
    /// order in which they were built.
    pub libs: Seq<LibraryView>,
    /// The newt that was found or built.
    pub library: Option<LibraryView>,
}

impl OrchestratorView {
    /// Given up outside a build: the environment stays as it is.
    pub open spec fn failed(self, error: BuildError) -> OrchestratorView {
        OrchestratorView { phase: Phase::Failed(error), ..self }
    }

    /// Given up inside a build: the environment is left as after any build.
    pub open spec fn build_failed(self, error: BuildError) -> OrchestratorView {
        OrchestratorView { phase: Phase::Failed(error), env: env_leaving(self.env), ..self }
    }

    /// A system copy is used if one was found and static linkage was not
    /// asked for; otherwise everything is built, beginning with the search
    /// for GNU Make.
    pub open spec fn after_system_probe(self, found: Option<LibraryView>) -> OrchestratorView {
        if !self.statik && found is Some {
            OrchestratorView { phase: Phase::CompilingGlue, library: found, ..self }
        } else {
            OrchestratorView { phase: Phase::LocatingMake(0), ..self }
        }
    }

    /// The first candidate whose banner is accepted is the make; without
    /// one the build is given up.
    pub open spec fn after_make_query(self, index: usize, output: Option<Seq<char>>)
        -> OrchestratorView {
        if make_accepted(output) && make_candidate_of(index as int) is Some {
            OrchestratorView {
                phase: Phase::ResolvingCompiler,
                make: make_candidate_of(index as int),
                ..self
            }
        } else if make_candidate_of(index + 1) is Some {
            OrchestratorView { phase: Phase::LocatingMake((index + 1) as usize), ..self }
        } else {
            self.failed(BuildError::MissingMake)
        }
    }

    /// A compiler that the host can invoke becomes the override where none
    /// is set, and the builds begin with popt; without any compiler the
    /// build is given up.
    pub open spec fn after_compiler_lookup(self, discovered: Option<Seq<char>>, invocable: bool)
        -> OrchestratorView {
        match discovered {
            Some(found) => OrchestratorView {
                phase: Phase::LocatingArchive(Package::Popt),
                env: self.env.with_compiler(compiler_resolved(found, invocable)).with_sysroot(
                    self.out_dir,
                ),
                ..self
            },
            None => self.failed(BuildError::MissingCompiler),
        }
    }

    /// With an archive the build of the package begins; without one the
    /// build is given up.
    pub open spec fn after_archive_lookup(self, package: Package, bzip2: bool, gzip: bool)
        -> OrchestratorView {
        match archive_found(
            self.crate_path,
            version_name_of(package.spec_name(), package.spec_version()),
            bzip2,
            gzip,
        ) {
            Some(archive) => OrchestratorView {
                phase: Phase::Building(package, Stage::NotExtracted),
                env: env_entering(self.env, package, self.libs),
                config: Some(config_of(package, self.out_dir, self.target, archive)),
                ..self
            },
            None => self.failed(BuildError::MissingArchive(package)),
        }
    }

    /// A step that succeeded takes the package to its next stage; one that
    /// did not ends the build.
    pub open spec fn after_step(self, package: Package, step: Step, succeeded: bool)
        -> OrchestratorView {
        if succeeded {
            OrchestratorView {
                phase: Phase::Building(package, stage_reached_by(step)),
                env: if step == Step::Install {
                    env_after_install(self.env, package, self.config)
                } else {
                    self.env
                },
                ..self
            }
        } else {
            self.build_failed(BuildError::StepFailed(package, step))
        }
    }

    /// A package that was found after its install is done: the next one
    /// follows, or, after newt, the glue object. One that was not found
    /// ends the build.
    pub open spec fn after_probe(self, package: Package, found: Option<LibraryView>)
        -> OrchestratorView {
        match found {
            Some(library) => match package.spec_successor() {
                Some(next) => OrchestratorView {
                    phase: Phase::LocatingArchive(next),
                    env: env_leaving(self.env),
                    config: None,
                    libs: self.libs.push(library),
                    ..self
                },
                None => OrchestratorView {
                    phase: Phase::CompilingGlue,
                    env: env_leaving(self.env),
                    config: None,
                    library: Some(library),
                    ..self
                },
            },
            None => self.build_failed(BuildError::StepFailed(package, Step::Probe)),
        }
    }

    /// With the glue object compiled all is done; without it the build is
    /// given up.
    pub open spec fn after_glue(self, succeeded: bool) -> OrchestratorView {
        if succeeded {
            OrchestratorView { phase: Phase::Finished, ..self }
        } else {
            self.failed(BuildError::GlueFailed)
        }
    }
}

/// The state in which an orchestrator starts: nothing is found or built,
/// and no compiler flags are held as saved.
pub open spec fn initial_state(
    statik: bool,
    out_dir: Seq<char>,
    target: Seq<char>,
    crate_path: Seq<char>,
    env: BuildEnvView,
) -> OrchestratorView {
    OrchestratorView {
        phase: Phase::ProbingSystem,
        statik,
        out_dir,
        target,
        crate_path,
        env: BuildEnvView { saved_cflags: None, ..env },
        make: None,
        config: None,
        libs: Seq::empty(),
        library: None,
    }
}

/// The request that is pending in a state.
pub open spec fn request_of(state: OrchestratorView) -> Request {
    match state.phase {
        Phase::ProbingSystem => Request::ProbeSystem,
        Phase::LocatingMake(index) => Request::QueryMake(index),
        Phase::ResolvingCompiler => Request::ResolveCompiler,
        Phase::LocatingArchive(package) => Request::LocateArchive(package),
        Phase::Building(package, stage) => match step_after(package, stage) {
            Some(step) => Request::Run(package, step),
            None => Request::Abort(BuildError::UnexpectedEvent),
        },
        Phase::CompilingGlue => Request::CompileGlue,
        Phase::Finished => Request::Finish(state.statik),
        Phase::Failed(error) => Request::Abort(error),
    }
}

/// The state that follows `state` on `event`. An event that does not
/// answer the pending request ends the build; once the build is finished
/// or given up, nothing changes any more.
pub open spec fn next_state(state: OrchestratorView, event: EventView) -> OrchestratorView {
    match state.phase {
        Phase::ProbingSystem => match event {
            EventView::SystemProbed(found) => state.after_system_probe(found),
            _ => state.failed(BuildError::UnexpectedEvent),
        },
        Phase::LocatingMake(index) => match event {
            EventView::MakeQueried(output) => state.after_make_query(index, output),
            _ => state.failed(BuildError::UnexpectedEvent),
        },
        Phase::ResolvingCompiler => match event {
            EventView::CompilerResolved(discovered, invocable) => state.after_compiler_lookup(
                discovered,
                invocable,
            ),
            _ => state.failed(BuildError::UnexpectedEvent),
        },
        Phase::LocatingArchive(package) => match event {
            EventView::ArchiveLocated(bzip2, gzip) => state.after_archive_lookup(
                package,
                bzip2,
                gzip,
            ),
            _ => state.failed(BuildError::UnexpectedEvent),
        },
        Phase::Building(package, stage) => match (step_after(package, stage), event) {
            (Some(Step::Probe), EventView::Probed(found)) => state.after_probe(package, found),
            (Some(Step::Probe), _) => state.build_failed(BuildError::UnexpectedEvent),
            (Some(step), EventView::StepFinished(succeeded)) => state.after_step(
                package,
                step,
                succeeded,
            ),
            (_, _) => state.build_failed(BuildError::UnexpectedEvent),
        },
        Phase::CompilingGlue => match event {
            EventView::StepFinished(succeeded) => state.after_glue(succeeded),
            _ => state.failed(BuildError::UnexpectedEvent),
        },
        Phase::Finished => state,
        Phase::Failed(_) => state,
    }
}

impl OrchestratorView {
    /// Whether the marker for position-independent code is being forced:
    /// from the start of such a package's build until its install is done.
    pub open spec fn forcing_pic(self) -> bool {
        self.phase matches Phase::Building(package, stage) && package.spec_needs_pic()
            && stage.rank() < Stage::Installed.rank()
    }

    /// Whether the flags of the libraries built so far stand in the
    /// preprocessor and linker flags.
    pub open spec fn flags_injected(self) -> bool {
        &&& include_flags(self.libs).len() > 0 ==> self.env.cppflags == Some(
            include_flags(self.libs),
        )
        &&& link_flags(self.libs).len() > 0 ==> self.env.ldflags == Some(link_flags(self.libs))
    }

    /// Whether the preprocessor and linker flags are both unset.
    pub open spec fn flags_cleared(self) -> bool {
        self.env.cppflags is None && self.env.ldflags is None
    }

    /// What holds of every state that an orchestrator is ever in.
    ///
    /// Compiler flags are held as saved only while the marker is being
    /// forced, and then the marker is there. Each package is built after
    /// those before it, with the configuration derived for it, and newt
    /// with the flags of both others injected. Once a build is over, the
    /// preprocessor and linker flags stay unset until they are injected
    /// again: no build sees flags that were set for another.
    pub open spec fn consistent(self) -> bool {
        &&& self.forcing_pic() ==> self.env.has_pic()
        &&& !self.forcing_pic() ==> self.env.saved_cflags is None
        &&& match self.phase {
            Phase::ProbingSystem => {
                &&& self.make is None
                &&& self.config is None
                &&& self.libs.len() == 0
                &&& self.library is None
            },
            Phase::LocatingMake(index) => {
                &&& make_candidate_of(index as int) is Some
                &&& self.make is None
                &&& self.config is None
                &&& self.libs.len() == 0
                &&& self.library is None
            },
            Phase::ResolvingCompiler => {
                &&& self.make is Some
                &&& self.config is None
                &&& self.libs.len() == 0
                &&& self.library is None
            },
            Phase::LocatingArchive(package) => {
                &&& self.make is Some
                &&& self.config is None
                &&& self.libs.len() == package.spec_rank()
                &&& self.library is None
                &&& self.libs.len() > 0 ==> self.flags_cleared()
            },
            Phase::Building(package, stage) => {
                &&& self.make is Some
                &&& self.config matches Some(config) && config == config_of(
                    package,
                    self.out_dir,
                    self.target,
                    config.archive_path,
                )
                &&& self.libs.len() == package.spec_rank()
                &&& self.library is None
                &&& stage != Stage::Probed
                &&& stage == Stage::Patched ==> package.spec_autoconf_aux_dir() is Some
                &&& package.spec_has_dependencies() ==> self.flags_injected()
                &&& self.libs.len() > 0 && !package.spec_has_dependencies()
                    ==> self.flags_cleared()
            },
            Phase::CompilingGlue => {
                &&& self.config is None
                &&& self.library is Some
                &&& self.libs.len() > 0 ==> self.flags_cleared()
            },
            Phase::Finished => {
                &&& self.library is Some
                &&& self.libs.len() > 0 ==> self.flags_cleared()
            },
            Phase::Failed(_) => true,
        }
    }
}

/// An orchestrator starts in a consistent state.
pub proof fn law_initial_state_is_consistent(
    statik: bool,
    out_dir: Seq<char>,
    target: Seq<char>,
    crate_path: Seq<char>,
    env: BuildEnvView,
)
    ensures
        initial_state(statik, out_dir, target, crate_path, env).consistent(),
{
}

/// Whatever event arrives, a consistent state is followed by a
/// consistent state.
pub proof fn law_consistency_is_kept(state: OrchestratorView, event: EventView)
    requires
        state.consistent(),
    ensures
        next_state(state, event).consistent(),
{
    let next = next_state(state, event);
    match state.phase {
        Phase::LocatingArchive(package) => {
            if next.phase is Building {
                let injected = if package.spec_has_dependencies() {
                    state.env.with_dependency_flags(state.libs)
                } else {
                    state.env
                };
                law_forcing_is_idempotent(injected);
            }
        },
        _ => {},
    }
}

/// Prepares the environment for the build of `package`.
fn enter_build(env: &mut BuildEnv, package: Package, libs: &Vec<LibraryDescriptor>)
    ensures
        final(env)@ == env_entering(old(env)@, package, library_views(libs@)),
{
    if package.has_dependencies() {
        env.export_env_libs(libs);
    }
    if package.needs_pic() {
        env.cflags_set_fpic();
    }
}

/// Takes the environment on from the install of `package` to its probe.
fn finish_install(env: &mut BuildEnv, package: Package, config: &Option<BuildConfig>)
    ensures
        final(env)@ == env_after_install(old(env)@, package, config_view(*config)),
{
    if package.needs_pic() {
        env.cflags_restore();
    }
    match config {
        Some(config) => {
            env.append_pkg_config_path(config.pkg_config_path());
        },
        None => {},
    }
}

/// Leaves the environment as it is to be after any build.
fn leave_build(env: &mut BuildEnv)
    ensures
        final(env)@ == env_leaving(old(env)@),
{
    env.cflags_restore();
    env.unset_env_libs();
}

/// Drives the build of newt and of what it depends on.
#[derive(Debug)]
pub struct Orchestrator {
    phase: Phase,
    statik: bool,
    out_dir: String,
    target: String,
    crate_path: String,
    env: BuildEnv,
    make: Option<String>,
    config: Option<BuildConfig>,
    libs: Vec<LibraryDescriptor>,
    library: Option<LibraryDescriptor>,
}

impl View for Orchestrator {
    type V = OrchestratorView;

    closed spec fn view(&self) -> OrchestratorView {
        OrchestratorView {
            phase: self.phase,
            statik: self.statik,
            out_dir: self.out_dir@,
            target: self.target@,
            crate_path: self.crate_path@,
            env: self.env@,
            make: self.make.deep_view(),
            config: config_view(self.config),
            libs: library_views(self.libs@),
            library: found_view(self.library),
        }
    }
}

impl Orchestrator {
    #[verifier::type_invariant]
    spec fn well_formed(self) -> bool {
        self@.consistent()
    }

    /// An orchestrator that has done nothing yet. `statik` asks for static
    /// linkage; `out_dir` is the output root, `target` the target triple,
    /// `crate_path` the directory that holds `vendor` and `gnuconfig`, and
    /// `env` the variables as the caller found them. Compiler flags held
    /// in `env` as saved are dropped.
    pub fn new(
        statik: bool,
        out_dir: &str,
        target: &str,
        crate_path: &str,
        env: BuildEnv,
    ) -> (orchestrator: Orchestrator)
        ensures
            orchestrator@ == initial_state(statik, out_dir@, target@, crate_path@, env@),
            orchestrator@.consistent(),
    {
        let mut env = env;
        env.saved_cflags = None;
        let libs: Vec<LibraryDescriptor> = Vec::new();
        assert(library_views(libs@) =~= Seq::empty());
        Orchestrator {
            phase: Phase::ProbingSystem,
            statik,
            out_dir: String::from_str(out_dir),
            target: String::from_str(target),
            crate_path: String::from_str(crate_path),
            env,
            make: None,
            config: None,
            libs,
            library: None,
        }
    }

    /// Takes in how the pending request went and moves on.
    pub fn handle(self, event: Event) -> (next: Orchestrator)
        ensures
            next@ == next_state(self@, event@),
            next@.consistent(),
    {
        proof {
            use_type_invariant(&self);
            law_consistency_is_kept(self@, event@);
        }
        let ghost before = self@;
        let ghost expected = next_state(self@, event@);
        let Orchestrator {
            phase,
            statik,
            out_dir,
            target,
            crate_path,
            env,
            make,
            config,
            libs,
            library,
        } = self;
        let mut phase = phase;
        let mut env = env;
        let mut make = make;
        let mut config = config;
        let mut libs = libs;
        let mut library = library;
        match phase {
            Phase::ProbingSystem => match event {
                Event::SystemProbed(found) => {
                    if !statik && found.is_some() {
                        library = found;
                        phase = Phase::CompilingGlue;
                    } else {
                        phase = Phase::LocatingMake(0);
                    }
                },
                _ => {
                    phase = Phase::Failed(BuildError::UnexpectedEvent);
                },
            },
            Phase::LocatingMake(index) => match event {
                Event::MakeQueried(output) => {
                    let accepted = match &output {
                        Some(banner) => check_make(Some(banner.as_str())),
                        None => check_make(None),
                    };
                    let candidate = make_candidate(index);
                    let another = index < usize::MAX && make_candidate(index + 1).is_some();
                    match candidate {
                        Some(name) if accepted => {
                            make = Some(String::from_str(name));
                            phase = Phase::ResolvingCompiler;
                        },
                        _ => {
                            if another {
                                phase = Phase::LocatingMake(index + 1);
                            } else {
                                phase = Phase::Failed(BuildError::MissingMake);
                            }
                        },
                    }
                },
                _ => {
                    phase = Phase::Failed(BuildError::UnexpectedEvent);
                },
            },
            Phase::ResolvingCompiler => match event {
                Event::CompilerResolved(discovered, invocable) => match discovered {
                    Some(found) => {
                        env.set_cc(compiler(found, invocable));
                        env.set_pkg_config_sysroot(out_dir.as_str());
                        phase = Phase::LocatingArchive(Package::Popt);
                    },
                    None => {
                        phase = Phase::Failed(BuildError::MissingCompiler);
                    },
                },
                _ => {
                    phase = Phase::Failed(BuildError::UnexpectedEvent);
                },
            },
            Phase::LocatingArchive(package) => match event {
                Event::ArchiveLocated(bzip2, gzip) => {
                    let name = version_name(package.name(), package.version());
                    match find_archive(crate_path.as_str(), name.as_str(), bzip2, gzip) {
                        Some(archive) => {
                            config = Some(
                                config_for(package, out_dir.as_str(), target.as_str(), archive),
                            );
                            enter_build(&mut env, package, &libs);
                            phase = Phase::Building(package, Stage::NotExtracted);
                        },
                        None => {
                            phase = Phase::Failed(BuildError::MissingArchive(package));
                        },
                    }
                },
                _ => {
                    phase = Phase::Failed(BuildError::UnexpectedEvent);
                },
            },
            Phase::Building(package, stage) => match (next_step(package, stage), event) {
                (Some(Step::Probe), Event::Probed(found)) => match found {
                    Some(found) => {
                        leave_build(&mut env);
                        config = None;
                        match package.successor() {
                            Some(next) => {
                                proof {
                                    assert(library_views(libs@.push(found))
                                        =~= library_views(libs@).push(found@));
                                }
                                libs.push(found);
                                phase = Phase::LocatingArchive(next);
                            },
                            None => {
                                library = Some(found);
                                phase = Phase::CompilingGlue;
                            },
                        }
                    },
                    None => {
                        leave_build(&mut env);
                        phase = Phase::Failed(BuildError::StepFailed(package, Step::Probe));
                    },
                },
                (Some(Step::Probe), _) => {
                    leave_build(&mut env);
                    phase = Phase::Failed(BuildError::UnexpectedEvent);
                },
                (Some(step), Event::StepFinished(succeeded)) => {
                    if succeeded {
                        match step {
                            Step::Install => {
                                finish_install(&mut env, package, &config);
                            },
                            _ => {},
                        }
                        phase = Phase::Building(package, stage_after(step));
                    } else {
                        leave_build(&mut env);
                        phase = Phase::Failed(BuildError::StepFailed(package, step));
                    }
                },
                (_, _) => {
                    leave_build(&mut env);
                    phase = Phase::Failed(BuildError::UnexpectedEvent);
                },
            },
            Phase::CompilingGlue => match event {
                Event::StepFinished(succeeded) => {
                    if succeeded {
                        phase = Phase::Finished;
                    } else {
                        phase = Phase::Failed(BuildError::GlueFailed);
                    }
                },
                _ => {
                    phase = Phase::Failed(BuildError::UnexpectedEvent);
                },
            },
            Phase::Finished => {},
            Phase::Failed(_) => {},
        }
        proof {
            assert(phase == expected.phase);
            assert(env@ == expected.env);
            assert(make.deep_view() == expected.make);
            assert(config_view(config) == expected.config);
            assert(library_views(libs@) == expected.libs);
            assert(found_view(library) == expected.library);
        }
        Orchestrator {
            phase,
            statik,
            out_dir,
            target,
            crate_path,
            env,
            make,
            config,
            libs,
            library,
        }
    }

    /// Where the orchestrator stands.
    pub fn phase(&self) -> (phase: Phase)
        ensures
            phase == self@.phase,
    {
        self.phase
    }

    /// What the caller is to do next.
    pub fn request(&self) -> (request: Request)
        ensures
            request == request_of(self@),
    {
        match self.phase {
            Phase::ProbingSystem => Request::ProbeSystem,
            Phase::LocatingMake(index) => Request::QueryMake(index),
            Phase::ResolvingCompiler => Request::ResolveCompiler,
            Phase::LocatingArchive(package) => Request::LocateArchive(package),
            Phase::Building(package, stage) => match next_step(package, stage) {
                Some(step) => Request::Run(package, step),
                None => Request::Abort(BuildError::UnexpectedEvent),
            },
            Phase::CompilingGlue => Request::CompileGlue,
            Phase::Finished => Request::Finish(self.statik),
            Phase::Failed(error) => Request::Abort(error),
        }
    }

    /// The variables to hand to whatever the pending request runs.
    pub fn env(&self) -> (env: &BuildEnv)
        ensures
            env@ == self@.env,
    {
        &self.env
    }

    /// The GNU Make that was found.
    pub fn make(&self) -> (make: Option<&str>)
        ensures
            make.deep_view() == self@.make,
    {
        match &self.make {
            Some(make) => Some(make.as_str()),
            None => None,
        }
    }

    /// The configuration of the package that is being built.
    pub fn config(&self) -> (config: Option<&BuildConfig>)
        ensures
            match config {
                Some(config) => self@.config == Some(config@),
                None => self@.config is None,
            },
    {
        self.config.as_ref()
    }

    /// The newt that was found or built.
    pub fn library(&self) -> (library: Option<&LibraryDescriptor>)
        ensures
            match library {
                Some(library) => self@.library == Some(library@),
                None => self@.library is None,
            },
    {
        self.library.as_ref()
    }

    /// The directory that holds `vendor` and `gnuconfig`.
    pub fn crate_path(&self) -> (path: &str)
        ensures
            path@ == self@.crate_path,
    {
        self.crate_path.as_str()
    }
}

} // verus!
