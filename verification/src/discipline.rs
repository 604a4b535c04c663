//! What holds of every run of the orchestrator: flags never leak out of
//! the build they were set for, and no package is configured before what
//! it depends on is installed.

use vstd::prelude::*;
use vstd::string::*;
use crate::environment::{
    BuildEnvView, include_flags, law_every_include_path_is_injected,
    law_every_link_path_is_injected, law_search_path_only_grows, link_flags, value_or_empty,
};
use crate::library::LibraryView;
use crate::orchestrator::{
    EventView, OrchestratorView, Phase, Request, initial_state, law_consistency_is_kept,
    next_state, request_of,
};
use crate::package::Package;
use crate::recipe::{Stage, Step};
use crate::text::{has_substring, is_prefix, occurs_at};

verus! {

/// When a build is left, on whatever event and whether it succeeded or
/// failed, the preprocessor and linker flags are unset.
pub proof fn law_leaving_a_build_clears_the_injection(state: OrchestratorView, event: EventView)
    requires
        state.phase is Building,
        !(next_state(state, event).phase is Building),
    ensures
        next_state(state, event).env.cppflags is None,
        next_state(state, event).env.ldflags is None,
{
}

/// No event takes anything off the search path of the probe: what was
/// there stays at its start.
pub proof fn law_search_path_is_never_truncated(state: OrchestratorView, event: EventView)
    ensures
        is_prefix(
            value_or_empty(state.env.pkg_config_path),
            value_or_empty(next_state(state, event).env.pkg_config_path),
        ),
        state.env.pkg_config_path is Some ==> next_state(state, event).env.pkg_config_path
            is Some,
{
    let prior = value_or_empty(state.env.pkg_config_path);
    let next = value_or_empty(next_state(state, event).env.pkg_config_path);
    if next != prior {
        law_search_path_only_grows(state.env, state.config->0.pkg_config_path);
        law_search_path_only_grows(
            state.env.with_cflags_restored(),
            state.config->0.pkg_config_path,
        );
    } else {
        assert(prior.subrange(0, prior.len() as int) =~= prior);
    }
}

/// The marker for position-independent code is being forced, it stands in
/// the compiler flags, and putting the compiler flags back would give
/// `prior`.
pub open spec fn holding_cflags(state: OrchestratorView, prior: Option<Seq<char>>) -> bool {
    &&& state.forcing_pic()
    &&& state.env.has_pic()
    &&& state.env.with_cflags_restored().cflags == prior
}

/// When the build of a package that needs position-independent code
/// begins, the marker is in the compiler flags, and what the compiler
/// flags were is held to be put back.
pub proof fn law_forcing_begins_with_the_build(state: OrchestratorView, event: EventView)
    requires
        state.consistent(),
        state.phase matches Phase::LocatingArchive(package) && package.spec_needs_pic(),
        next_state(state, event).phase is Building,
    ensures
        holding_cflags(next_state(state, event), state.env.cflags),
{
    law_consistency_is_kept(state, event);
}

/// While compiler flags are held, every event either keeps them held or
/// puts them back exactly as they were, be it a value or the absence of
/// one, and drops the save; a failure does the latter as an install does.
pub proof fn law_forcing_ends_with_the_build(
    state: OrchestratorView,
    event: EventView,
    prior: Option<Seq<char>>,
)
    requires
        holding_cflags(state, prior),
    ensures
        holding_cflags(next_state(state, event), prior) || (next_state(state, event).env.cflags
            == prior && next_state(state, event).env.saved_cflags is None),
{
}

/// The state reached from `state` by `events`, taken in order.
pub open spec fn state_after(state: OrchestratorView, events: Seq<EventView>) -> OrchestratorView
    decreases events.len(),
{
    if events.len() == 0 {
        state
    } else {
        next_state(state_after(state, events.drop_last()), events.last())
    }
}

/// The event at `at` answered the request to run `step` of `package`, and
/// said that the step succeeded.
pub open spec fn step_done_at(
    start: OrchestratorView,
    events: Seq<EventView>,
    at: int,
    package: Package,
    step: Step,
) -> bool {
    &&& 0 <= at < events.len()
    &&& request_of(state_after(start, events.take(at))) == Request::Run(package, step)
    &&& events[at] == EventView::StepFinished(true)
}

/// The event at `at` answered the request to probe for `package`, and
/// said that `library` was found.
pub open spec fn probed_at(
    start: OrchestratorView,
    events: Seq<EventView>,
    at: int,
    package: Package,
    library: LibraryView,
) -> bool {
    &&& 0 <= at < events.len()
    &&& request_of(state_after(start, events.take(at))) == Request::Run(package, Step::Probe)
    &&& events[at] == EventView::Probed(Some(library))
}

/// Whether a phase lies after the install of `package`.
pub open spec fn past_install(package: Package, phase: Phase) -> bool {
    match phase {
        Phase::LocatingArchive(current) => current.spec_rank() > package.spec_rank(),
        Phase::Building(current, stage) => current.spec_rank() > package.spec_rank() || (current
            == package && stage.rank() >= Stage::Installed.rank()),
        _ => false,
    }
}

/// Whether a phase lies after the probe for `package`.
pub open spec fn past_probe(package: Package, phase: Phase) -> bool {
    match phase {
        Phase::LocatingArchive(current) => current.spec_rank() > package.spec_rank(),
        Phase::Building(current, _) => current.spec_rank() > package.spec_rank(),
        _ => false,
    }
}

/// Every state of a run that begins in a consistent state is consistent.
pub proof fn law_runs_stay_consistent(start: OrchestratorView, events: Seq<EventView>)
    requires
        start.consistent(),
    ensures
        state_after(start, events).consistent(),
    decreases events.len(),
{
    if events.len() > 0 {
        law_runs_stay_consistent(start, events.drop_last());
        law_consistency_is_kept(state_after(start, events.drop_last()), events.last());
    }
}

/// A run that has come past the install of a package holds the event that
/// reported that install as done.
pub proof fn law_install_was_reported(
    start: OrchestratorView,
    events: Seq<EventView>,
    package: Package,
)
    requires
        !past_install(package, start.phase),
        past_install(package, state_after(start, events).phase),
    ensures
        exists|at: int| step_done_at(start, events, at, package, Step::Install),
    decreases events.len(),
{
    let earlier = events.drop_last();
    let before = state_after(start, earlier);
    if past_install(package, before.phase) {
        law_install_was_reported(start, earlier, package);
        let at = choose|at: int| step_done_at(start, earlier, at, package, Step::Install);
        assert(earlier.take(at) =~= events.take(at));
        assert(step_done_at(start, events, at, package, Step::Install));
    } else {
        let at = events.len() - 1;
        assert(events.take(at) =~= earlier);
        assert(step_done_at(start, events, at, package, Step::Install));
    }
}

/// A run that has come past the probe for a package holds the event that
/// reported the library, and keeps that library at the package's place
/// among the libraries built so far.
pub proof fn law_probe_was_reported(
    start: OrchestratorView,
    events: Seq<EventView>,
    package: Package,
)
    requires
        start.consistent(),
        !past_probe(package, start.phase),
        past_probe(package, state_after(start, events).phase),
    ensures
        package.spec_rank() < state_after(start, events).libs.len(),
        exists|at: int|
            probed_at(
                start,
                events,
                at,
                package,
                state_after(start, events).libs[package.spec_rank() as int],
            ),
    decreases events.len(),
{
    let earlier = events.drop_last();
    let before = state_after(start, earlier);
    let after = state_after(start, events);
    law_runs_stay_consistent(start, earlier);
    law_runs_stay_consistent(start, events);
    let place = package.spec_rank() as int;
    if past_probe(package, before.phase) {
        law_probe_was_reported(start, earlier, package);
        let at = choose|at: int| probed_at(start, earlier, at, package, before.libs[place]);
        assert(earlier.take(at) =~= events.take(at));
        assert(after.libs[place] == before.libs[place]);
        assert(probed_at(start, events, at, package, after.libs[place]));
    } else {
        let at = events.len() - 1;
        assert(events.take(at) =~= earlier);
        assert(probed_at(start, events, at, package, after.libs[place]));
    }
}

/// A text that holds a flag is not empty.
proof fn lemma_flag_fills(marker: Seq<char>, path: Seq<char>, flags: Seq<char>)
    requires
        has_substring(marker + path + " "@, flags),
    ensures
        flags.len() > 0,
{
    reveal_strlit(" ");
    let at = choose|at: int| occurs_at(marker + path + " "@, flags, at);
    assert((marker + path + " "@).len() > 0);
}

/// When newt is about to be configured, in a run from the very start:
/// the installs of popt and of slang were both reported as done; the
/// libraries that their probes reported are the two built so far; and
/// every include path and every link path of both stands in the
/// preprocessor and linker flags that newt is configured with.
pub proof fn law_newt_is_configured_after_its_dependencies(
    statik: bool,
    out_dir: Seq<char>,
    target: Seq<char>,
    crate_path: Seq<char>,
    env: BuildEnvView,
    events: Seq<EventView>,
)
    requires
        request_of(
            state_after(initial_state(statik, out_dir, target, crate_path, env), events),
        ) == Request::Run(Package::Newt, Step::Configure),
    ensures
        ({
            let start = initial_state(statik, out_dir, target, crate_path, env);
            let state = state_after(start, events);
            &&& exists|at: int| step_done_at(start, events, at, Package::Popt, Step::Install)
            &&& exists|at: int| step_done_at(start, events, at, Package::Slang, Step::Install)
            &&& state.libs.len() == 2
            &&& exists|at: int| probed_at(start, events, at, Package::Popt, state.libs[0])
            &&& exists|at: int| probed_at(start, events, at, Package::Slang, state.libs[1])
            &&& forall|lib: int, path: int|
                0 <= lib < 2 && 0 <= path < state.libs[lib].include_paths.len()
                    ==> has_substring(
                    "-I"@ + #[trigger] state.libs[lib].include_paths[path] + " "@,
                    value_or_empty(state.env.cppflags),
                )
            &&& forall|lib: int, path: int|
                0 <= lib < 2 && 0 <= path < state.libs[lib].link_paths.len() ==> has_substring(
                    "-L"@ + #[trigger] state.libs[lib].link_paths[path] + " "@,
                    value_or_empty(state.env.ldflags),
                )
        }),
{
    let start = initial_state(statik, out_dir, target, crate_path, env);
    let state = state_after(start, events);
    law_runs_stay_consistent(start, events);
    law_install_was_reported(start, events, Package::Popt);
    law_install_was_reported(start, events, Package::Slang);
    law_probe_was_reported(start, events, Package::Popt);
    law_probe_was_reported(start, events, Package::Slang);
    assert forall|lib: int, path: int|
        0 <= lib < 2 && 0 <= path < state.libs[lib].include_paths.len() implies has_substring(
        "-I"@ + #[trigger] state.libs[lib].include_paths[path] + " "@,
        value_or_empty(state.env.cppflags),
    ) by {
        law_every_include_path_is_injected(state.libs, lib, path);
        lemma_flag_fills(
            "-I"@,
            state.libs[lib].include_paths[path],
            include_flags(state.libs),
        );
    }
    assert forall|lib: int, path: int|
        0 <= lib < 2 && 0 <= path < state.libs[lib].link_paths.len() implies has_substring(
        "-L"@ + #[trigger] state.libs[lib].link_paths[path] + " "@,
        value_or_empty(state.env.ldflags),
    ) by {
        law_every_link_path_is_injected(state.libs, lib, path);
        lemma_flag_fills("-L"@, state.libs[lib].link_paths[path], link_flags(state.libs));
    }
}

} // verus!
