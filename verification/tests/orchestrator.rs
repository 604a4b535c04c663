use newt_build::environment::BuildEnv;
use newt_build::error::BuildError;
use newt_build::library::LibraryDescriptor;
use newt_build::orchestrator::{Event, Orchestrator, Phase, Request};
use newt_build::package::Package;
use newt_build::recipe::{Stage, Step};

fn library(name: &str) -> LibraryDescriptor {
    LibraryDescriptor {
        include_paths: vec![format!("/o/install/{}/include", name)],
        link_paths: vec![format!("/o/install/{}/lib", name)],
        statik: true,
    }
}

fn start(statik: bool, env: BuildEnv) -> Orchestrator {
    Orchestrator::new(statik, "/o", "x86_64-unknown-linux-gnu", "/c", env)
}

/// An orchestrator that is about to look for the archive of popt.
fn at_first_archive(env: BuildEnv) -> Orchestrator {
    start(true, env)
        .handle(Event::SystemProbed(None))
        .handle(Event::MakeQueried(Some(String::from("GNU Make 4.3\n"))))
        .handle(Event::CompilerResolved(Some(String::from("/usr/bin/cc")), true))
}

/// Answers every request of the build of one package with success.
fn build_package(mut orchestrator: Orchestrator, package: Package, gzip: bool) -> Orchestrator {
    assert_eq!(orchestrator.request(), Request::LocateArchive(package));
    orchestrator = orchestrator.handle(Event::ArchiveLocated(!gzip, gzip));
    loop {
        match orchestrator.request() {
            Request::Run(current, Step::Probe) if current == package => {
                return orchestrator.handle(Event::Probed(Some(library(package.name()))));
            }
            Request::Run(current, _) if current == package => {
                orchestrator = orchestrator.handle(Event::StepFinished(true));
            }
            other => panic!("unexpected request {:?}", other),
        }
    }
}

#[test]
fn starts_by_probing_the_system() {
    let orchestrator = start(false, BuildEnv::new());
    assert_eq!(orchestrator.phase(), Phase::ProbingSystem);
    assert_eq!(orchestrator.request(), Request::ProbeSystem);
    assert_eq!(orchestrator.make(), None);
    assert!(orchestrator.config().is_none());
    assert!(orchestrator.library().is_none());
    assert_eq!(orchestrator.crate_path(), "/c");
}

#[test]
fn start_drops_saved_compiler_flags() {
    let mut env = BuildEnv::new();
    env.cflags = Some(String::from("-O2"));
    env.saved_cflags = Some(Some(String::from("-g")));
    let orchestrator = start(false, env);
    assert_eq!(orchestrator.env().saved_cflags, None);
    assert_eq!(orchestrator.env().cflags.as_deref(), Some("-O2"));
}

#[test]
fn system_library_is_used_where_it_is_found() {
    let orchestrator = start(false, BuildEnv::new()).handle(Event::SystemProbed(Some(library("sys"))));
    assert_eq!(orchestrator.request(), Request::CompileGlue);
    let found = orchestrator.library().expect("the system library");
    assert_eq!(found.include_paths, vec![String::from("/o/install/sys/include")]);
    assert_eq!(found.link_paths, vec![String::from("/o/install/sys/lib")]);
    let orchestrator = orchestrator.handle(Event::StepFinished(true));
    assert_eq!(orchestrator.phase(), Phase::Finished);
    assert_eq!(orchestrator.request(), Request::Finish(false));
}

#[test]
fn static_linkage_builds_from_source_even_with_a_system_library() {
    let orchestrator = start(true, BuildEnv::new()).handle(Event::SystemProbed(Some(library("sys"))));
    assert_eq!(orchestrator.request(), Request::QueryMake(0));
    assert!(orchestrator.library().is_none());
}

#[test]
fn failed_system_probe_builds_from_source() {
    let orchestrator = start(false, BuildEnv::new()).handle(Event::SystemProbed(None));
    assert_eq!(orchestrator.phase(), Phase::LocatingMake(0));
    assert_eq!(orchestrator.request(), Request::QueryMake(0));
}

#[test]
fn first_gnu_make_is_taken() {
    let orchestrator = start(false, BuildEnv::new())
        .handle(Event::SystemProbed(None))
        .handle(Event::MakeQueried(Some(String::from("GNU Make 4.3\nBuilt for x86_64\n"))));
    assert_eq!(orchestrator.request(), Request::ResolveCompiler);
    assert_eq!(orchestrator.make(), Some("make"));
}

#[test]
fn gmake_is_tried_after_make() {
    let orchestrator = start(false, BuildEnv::new())
        .handle(Event::SystemProbed(None))
        .handle(Event::MakeQueried(Some(String::from("This is not GNU Make"))));
    assert_eq!(orchestrator.request(), Request::QueryMake(1));
    assert_eq!(orchestrator.make(), None);
    let orchestrator = orchestrator.handle(Event::MakeQueried(Some(String::from("GNU Make 3.81"))));
    assert_eq!(orchestrator.request(), Request::ResolveCompiler);
    assert_eq!(orchestrator.make(), Some("gmake"));
}

#[test]
fn without_gnu_make_the_build_is_given_up() {
    let orchestrator = start(false, BuildEnv::new())
        .handle(Event::SystemProbed(None))
        .handle(Event::MakeQueried(Some(String::new())))
        .handle(Event::MakeQueried(None));
    assert_eq!(orchestrator.phase(), Phase::Failed(BuildError::MissingMake));
    assert_eq!(orchestrator.request(), Request::Abort(BuildError::MissingMake));
    assert_eq!(orchestrator.make(), None);
}

#[test]
fn invocable_compiler_becomes_the_override() {
    let orchestrator = at_first_archive(BuildEnv::new());
    assert_eq!(orchestrator.request(), Request::LocateArchive(Package::Popt));
    assert_eq!(orchestrator.env().cc.as_deref(), Some("/usr/bin/cc"));
    assert_eq!(orchestrator.env().pkg_config_sysroot_dir.as_deref(), Some("/o"));
}

#[test]
fn compiler_override_of_the_caller_stays() {
    let mut env = BuildEnv::new();
    env.cc = Some(String::from("clang"));
    let orchestrator = at_first_archive(env);
    assert_eq!(orchestrator.env().cc.as_deref(), Some("clang"));
}

#[test]
fn compiler_that_cannot_be_invoked_is_not_published() {
    let orchestrator = start(true, BuildEnv::new())
        .handle(Event::SystemProbed(None))
        .handle(Event::MakeQueried(Some(String::from("GNU Make 4.3"))))
        .handle(Event::CompilerResolved(Some(String::from("/usr/bin/cc")), false));
    assert_eq!(orchestrator.request(), Request::LocateArchive(Package::Popt));
    assert_eq!(orchestrator.env().cc, None);
}

#[test]
fn without_a_compiler_the_build_is_given_up() {
    let orchestrator = start(true, BuildEnv::new())
        .handle(Event::SystemProbed(None))
        .handle(Event::MakeQueried(Some(String::from("GNU Make 4.3"))))
        .handle(Event::CompilerResolved(None, true));
    assert_eq!(orchestrator.request(), Request::Abort(BuildError::MissingCompiler));
}

#[test]
fn missing_archive_gives_the_build_up() {
    let orchestrator = at_first_archive(BuildEnv::new()).handle(Event::ArchiveLocated(false, false));
    assert_eq!(orchestrator.request(), Request::Abort(BuildError::MissingArchive(Package::Popt)));
    assert!(orchestrator.config().is_none());
}

#[test]
fn archive_found_begins_the_build() {
    let orchestrator = at_first_archive(BuildEnv::new()).handle(Event::ArchiveLocated(false, true));
    assert_eq!(orchestrator.phase(), Phase::Building(Package::Popt, Stage::NotExtracted));
    assert_eq!(orchestrator.request(), Request::Run(Package::Popt, Step::Extract));
    let config = orchestrator.config().expect("the configuration of popt");
    assert_eq!(config.archive_path(), "/c/vendor/popt-1.19.tar.gz");
    assert_eq!(config.src_path(), "/o/build/popt-1.19");
    assert_eq!(config.autoconf_aux_path(), Some("/o/build/popt-1.19/build-aux"));
    assert_eq!(config.target(), "x86_64-unknown-linux-gnu");
}

#[test]
fn from_source_build_runs_every_step_in_order() {
    let mut orchestrator = at_first_archive(BuildEnv::new());
    let mut requests = Vec::new();
    loop {
        let request = orchestrator.request();
        requests.push(request);
        let event = match request {
            Request::LocateArchive(Package::Slang) => Event::ArchiveLocated(true, false),
            Request::LocateArchive(_) => Event::ArchiveLocated(false, true),
            Request::Run(package, Step::Probe) => Event::Probed(Some(library(package.name()))),
            Request::Run(_, _) => Event::StepFinished(true),
            Request::CompileGlue => Event::StepFinished(true),
            Request::Finish(_) => break,
            other => panic!("unexpected request {:?}", other),
        };
        orchestrator = orchestrator.handle(event);
    }
    assert_eq!(
        requests,
        vec![
            Request::LocateArchive(Package::Popt),
            Request::Run(Package::Popt, Step::Extract),
            Request::Run(Package::Popt, Step::Patch),
            Request::Run(Package::Popt, Step::Configure),
            Request::Run(Package::Popt, Step::Install),
            Request::Run(Package::Popt, Step::Probe),
            Request::LocateArchive(Package::Slang),
            Request::Run(Package::Slang, Step::Extract),
            Request::Run(Package::Slang, Step::Patch),
            Request::Run(Package::Slang, Step::Configure),
            Request::Run(Package::Slang, Step::Install),
            Request::Run(Package::Slang, Step::Probe),
            Request::LocateArchive(Package::Newt),
            Request::Run(Package::Newt, Step::Extract),
            Request::Run(Package::Newt, Step::Configure),
            Request::Run(Package::Newt, Step::Install),
            Request::Run(Package::Newt, Step::Probe),
            Request::CompileGlue,
            Request::Finish(true),
        ]
    );
    let newt = orchestrator.library().expect("the newt that was built");
    assert_eq!(newt.include_paths, vec![String::from("/o/install/newt/include")]);
    assert_eq!(orchestrator.env().cppflags, None);
    assert_eq!(orchestrator.env().ldflags, None);
    assert_eq!(orchestrator.env().cflags, None);
    assert_eq!(orchestrator.env().saved_cflags, None);
    assert_eq!(
        orchestrator.env().pkg_config_path.as_deref(),
        Some(
            "/o/install/popt-1.19/lib/pkgconfig:/o/install/slang-2.3.3/lib/pkgconfig:/o/install/newt-0.52.25/lib/pkgconfig"
        )
    );
}

#[test]
fn installs_of_popt_and_slang_come_before_the_configure_of_newt() {
    let mut orchestrator = at_first_archive(BuildEnv::new());
    let mut installed = Vec::new();
    loop {
        let request = orchestrator.request();
        let event = match request {
            Request::Run(Package::Newt, Step::Configure) => break,
            Request::LocateArchive(_) => Event::ArchiveLocated(true, true),
            Request::Run(package, Step::Probe) => Event::Probed(Some(library(package.name()))),
            Request::Run(package, Step::Install) => {
                installed.push(package);
                Event::StepFinished(true)
            }
            Request::Run(_, _) => Event::StepFinished(true),
            other => panic!("unexpected request {:?}", other),
        };
        orchestrator = orchestrator.handle(event);
    }
    assert_eq!(installed, vec![Package::Popt, Package::Slang]);
    assert_eq!(
        orchestrator.env().cppflags.as_deref(),
        Some("-I/o/install/popt/include -I/o/install/slang/include ")
    );
    assert_eq!(
        orchestrator.env().ldflags.as_deref(),
        Some("-L/o/install/popt/lib -L/o/install/slang/lib ")
    );
}

#[test]
fn flags_of_the_caller_reach_popt_only() {
    let mut env = BuildEnv::new();
    env.cppflags = Some(String::from("-DOUTER"));
    env.ldflags = Some(String::from("-louter"));
    let orchestrator = at_first_archive(env).handle(Event::ArchiveLocated(false, true));
    assert_eq!(orchestrator.env().cppflags.as_deref(), Some("-DOUTER"));
    let orchestrator = build_package(at_first_archive(BuildEnv::new()), Package::Popt, true);
    assert_eq!(orchestrator.request(), Request::LocateArchive(Package::Slang));
    assert_eq!(orchestrator.env().cppflags, None);
    assert_eq!(orchestrator.env().ldflags, None);
    let orchestrator = orchestrator.handle(Event::ArchiveLocated(true, false));
    assert_eq!(orchestrator.env().cppflags, None);
    assert_eq!(orchestrator.env().ldflags, None);
}

#[test]
fn pic_is_forced_for_slang_and_put_back_after_its_install() {
    let mut env = BuildEnv::new();
    env.cflags = Some(String::from("-O2"));
    let mut orchestrator = build_package(at_first_archive(env), Package::Popt, true);
    assert_eq!(orchestrator.env().cflags.as_deref(), Some("-O2"));
    orchestrator = orchestrator.handle(Event::ArchiveLocated(true, false));
    for step in [Step::Extract, Step::Patch, Step::Configure, Step::Install] {
        assert_eq!(orchestrator.request(), Request::Run(Package::Slang, step));
        assert_eq!(orchestrator.env().cflags.as_deref(), Some("-O2 -fPIC"));
        assert_eq!(orchestrator.env().saved_cflags, Some(Some(String::from("-O2"))));
        orchestrator = orchestrator.handle(Event::StepFinished(true));
    }
    assert_eq!(orchestrator.request(), Request::Run(Package::Slang, Step::Probe));
    assert_eq!(orchestrator.env().cflags.as_deref(), Some("-O2"));
    assert_eq!(orchestrator.env().saved_cflags, None);
}

#[test]
fn pic_is_not_forced_for_popt_and_newt() {
    let mut orchestrator = at_first_archive(BuildEnv::new()).handle(Event::ArchiveLocated(false, true));
    assert_eq!(orchestrator.env().cflags, None);
    orchestrator = build_package(at_first_archive(BuildEnv::new()), Package::Popt, true);
    orchestrator = build_package(orchestrator, Package::Slang, false);
    orchestrator = orchestrator.handle(Event::ArchiveLocated(false, true));
    assert_eq!(orchestrator.request(), Request::Run(Package::Newt, Step::Extract));
    assert_eq!(orchestrator.env().cflags, None);
    assert_eq!(orchestrator.env().saved_cflags, None);
}

#[test]
fn failed_step_of_slang_puts_the_compiler_flags_back() {
    let mut env = BuildEnv::new();
    env.cflags = Some(String::from("-O2"));
    let orchestrator = build_package(at_first_archive(env), Package::Popt, true)
        .handle(Event::ArchiveLocated(true, false))
        .handle(Event::StepFinished(true))
        .handle(Event::StepFinished(true))
        .handle(Event::StepFinished(false));
    assert_eq!(
        orchestrator.request(),
        Request::Abort(BuildError::StepFailed(Package::Slang, Step::Configure))
    );
    assert_eq!(orchestrator.env().cflags.as_deref(), Some("-O2"));
    assert_eq!(orchestrator.env().saved_cflags, None);
    assert_eq!(orchestrator.env().cppflags, None);
    assert_eq!(orchestrator.env().ldflags, None);
}

#[test]
fn failed_step_of_newt_clears_the_injected_flags() {
    let mut orchestrator = build_package(at_first_archive(BuildEnv::new()), Package::Popt, true);
    orchestrator = build_package(orchestrator, Package::Slang, false);
    orchestrator = orchestrator.handle(Event::ArchiveLocated(false, true));
    assert!(orchestrator.env().cppflags.is_some());
    assert!(orchestrator.env().ldflags.is_some());
    orchestrator = orchestrator.handle(Event::StepFinished(false));
    assert_eq!(
        orchestrator.phase(),
        Phase::Failed(BuildError::StepFailed(Package::Newt, Step::Extract))
    );
    assert_eq!(orchestrator.env().cppflags, None);
    assert_eq!(orchestrator.env().ldflags, None);
}

#[test]
fn failed_probe_gives_the_build_up() {
    let mut orchestrator = at_first_archive(BuildEnv::new()).handle(Event::ArchiveLocated(false, true));
    for _ in 0..4 {
        orchestrator = orchestrator.handle(Event::StepFinished(true));
    }
    assert_eq!(orchestrator.request(), Request::Run(Package::Popt, Step::Probe));
    assert_eq!(
        orchestrator.env().pkg_config_path.as_deref(),
        Some("/o/install/popt-1.19/lib/pkgconfig")
    );
    orchestrator = orchestrator.handle(Event::Probed(None));
    assert_eq!(
        orchestrator.request(),
        Request::Abort(BuildError::StepFailed(Package::Popt, Step::Probe))
    );
}

#[test]
fn failed_glue_gives_the_build_up() {
    let orchestrator = start(false, BuildEnv::new())
        .handle(Event::SystemProbed(Some(library("sys"))))
        .handle(Event::StepFinished(false));
    assert_eq!(orchestrator.request(), Request::Abort(BuildError::GlueFailed));
}

#[test]
fn event_that_answers_another_request_gives_the_build_up() {
    let orchestrator = start(false, BuildEnv::new()).handle(Event::StepFinished(true));
    assert_eq!(orchestrator.request(), Request::Abort(BuildError::UnexpectedEvent));
    let orchestrator = at_first_archive(BuildEnv::new()).handle(Event::Probed(None));
    assert_eq!(orchestrator.request(), Request::Abort(BuildError::UnexpectedEvent));
    let orchestrator = at_first_archive(BuildEnv::new())
        .handle(Event::ArchiveLocated(false, true))
        .handle(Event::Probed(Some(library("popt"))));
    assert_eq!(orchestrator.request(), Request::Abort(BuildError::UnexpectedEvent));
    let mut orchestrator = at_first_archive(BuildEnv::new()).handle(Event::ArchiveLocated(false, true));
    for _ in 0..4 {
        orchestrator = orchestrator.handle(Event::StepFinished(true));
    }
    orchestrator = orchestrator.handle(Event::StepFinished(true));
    assert_eq!(orchestrator.request(), Request::Abort(BuildError::UnexpectedEvent));
}

#[test]
fn nothing_changes_once_the_build_is_over() {
    let finished = start(false, BuildEnv::new())
        .handle(Event::SystemProbed(Some(library("sys"))))
        .handle(Event::StepFinished(true))
        .handle(Event::StepFinished(false))
        .handle(Event::SystemProbed(None));
    assert_eq!(finished.request(), Request::Finish(false));
    assert!(finished.library().is_some());
    let failed = start(false, BuildEnv::new())
        .handle(Event::MakeQueried(None))
        .handle(Event::SystemProbed(Some(library("sys"))))
        .handle(Event::StepFinished(true));
    assert_eq!(failed.request(), Request::Abort(BuildError::UnexpectedEvent));
    assert!(failed.library().is_none());
}
