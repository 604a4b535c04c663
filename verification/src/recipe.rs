//! The recipe by which one package is built: extract, patch where needed,
//! configure, install, probe. Each step is handed out as a command line or
//! a request; running it is left to the caller.

use vstd::prelude::*;
use vstd::string::*;
use crate::build_config::{BuildConfig, BuildConfigView, derived_config};
use crate::package::Package;

verus! {

/// How far the build of one package has come.
#[derive(Clone, Copy, Debug, PartialEq, Eq, Structural)]
pub enum Stage {
    NotExtracted,
    Extracted,
    Patched,
    Configured,
    Installed,
    Probed,
}

/// One step of the recipe.
#[derive(Clone, Copy, Debug, PartialEq, Eq, Structural)]
pub enum Step {
    Extract,
    Patch,
    Configure,
    Install,
    Probe,
}

impl Stage {
    /// Position of the stage in the order in which stages are reached.
    pub open spec fn rank(self) -> nat {
        match self {
            Stage::NotExtracted => 0,
            Stage::Extracted => 1,
            Stage::Patched => 2,
            Stage::Configured => 3,
            Stage::Installed => 4,
            Stage::Probed => 5,
        }
    }
}

/// The step that takes `package` on from `stage`; none once it is probed.
/// Only packages with an autoconf directory are patched.
pub open spec fn step_after(package: Package, stage: Stage) -> Option<Step> {
    match stage {
        Stage::NotExtracted => Some(Step::Extract),
        Stage::Extracted => if package.spec_autoconf_aux_dir() is Some {
            Some(Step::Patch)
        } else {
            Some(Step::Configure)
        },
        Stage::Patched => Some(Step::Configure),
        Stage::Configured => Some(Step::Install),
        Stage::Installed => Some(Step::Probe),
        Stage::Probed => None,
    }
}

/// The stage that a package is in once `step` has succeeded.
pub open spec fn stage_reached_by(step: Step) -> Stage {
    match step {
        Step::Extract => Stage::Extracted,
        Step::Patch => Stage::Patched,
        Step::Configure => Stage::Configured,
        Step::Install => Stage::Installed,
        Step::Probe => Stage::Probed,
    }
}

/// The step that takes `package` on from `stage`.
pub fn next_step(package: Package, stage: Stage) -> (step: Option<Step>)
    ensures
        step == step_after(package, stage),
{
    match stage {
        Stage::NotExtracted => Some(Step::Extract),
        Stage::Extracted => {
            if package.autoconf_aux_dir().is_some() {
                Some(Step::Patch)
            } else {
                Some(Step::Configure)
            }
        },
        Stage::Patched => Some(Step::Configure),
        Stage::Configured => Some(Step::Install),
        Stage::Installed => Some(Step::Probe),
        Stage::Probed => None,
    }
}

/// The stage that a package is in once `step` has succeeded.
pub fn stage_after(step: Step) -> (stage: Stage)
    ensures
        stage == stage_reached_by(step),
{
    match step {
        Step::Extract => Stage::Extracted,
        Step::Patch => Stage::Patched,
        Step::Configure => Stage::Configured,
        Step::Install => Stage::Installed,
        Step::Probe => Stage::Probed,
    }
}

/// Every step takes a package to a later stage, so a recipe ends: after
/// at most five steps the package is probed.
pub proof fn law_steps_advance(package: Package, stage: Stage)
    ensures
        step_after(package, stage) is None <==> stage == Stage::Probed,
        step_after(package, stage) matches Some(step) ==> stage_reached_by(step).rank()
            > stage.rank(),
{
}

/// The configuration with which `package` is built at its pinned version:
/// derived from the output root, the target and the archive, with the
/// autoconf directory set where the package has one.
pub open spec fn config_of(
    package: Package,
    out_dir: Seq<char>,
    target: Seq<char>,
    archive_path: Seq<char>,
) -> BuildConfigView {
    let derived = derived_config(
        package.spec_name(),
        package.spec_version(),
        out_dir,
        target,
        archive_path,
    );
    match package.spec_autoconf_aux_dir() {
        Some(dir) => derived.with_autoconf_aux_path(dir),
        None => derived,
    }
}

/// Derives the configuration with which `package` is built.
pub fn config_for(package: Package, out_dir: &str, target: &str, archive_path: String) -> (config:
    BuildConfig)
    ensures
        config@ == config_of(package, out_dir@, target@, archive_path@),
{
    let mut config = BuildConfig::new(
        package.name(),
        package.version(),
        out_dir,
        target,
        archive_path,
    );
    match package.autoconf_aux_dir() {
        Some(dir) => {
            config.set_autoconf_aux_path(dir);
        },
        None => {},
    }
    config
}

/// A `Command` as sequences of characters.
pub struct CommandView {
    pub program: Seq<char>,
    pub args: Seq<Seq<char>>,
    pub dir: Seq<char>,
}

/// A child process to run: the program, its arguments, and the directory
/// it runs in.
#[derive(Debug)]
pub struct Command {
    pub program: String,
    pub args: Vec<String>,
    pub dir: String,
}

impl View for Command {
    type V = CommandView;

    open spec fn view(&self) -> CommandView {
        CommandView {
            program: self.program@,
            args: self.args.deep_view(),
            dir: self.dir@,
        }
    }
}

/// `tar <mode> <archive> -C <build_prefix>`, run in the build prefix.
pub open spec fn extract_command_of(package: Package, config: BuildConfigView) -> CommandView {
    CommandView {
        program: "tar"@,
        args: seq![package.spec_tar_mode(), config.archive_path, "-C"@, config.build_prefix],
        dir: config.build_prefix,
    }
}

/// `./configure --prefix=<install_prefix> --host=<host triple>` and the
/// package's own flags, run in the source tree.
pub open spec fn configure_command_of(package: Package, config: BuildConfigView) -> CommandView {
    CommandView {
        program: "./configure"@,
        args: seq!["--prefix="@ + config.install_prefix, "--host="@ + config.target]
            + package.spec_configure_flags(),
        dir: config.src_path,
    }
}

/// `<make> <install target>`, run in the source tree.
pub open spec fn install_command_of(
    package: Package,
    config: BuildConfigView,
    make: Seq<char>,
) -> CommandView {
    CommandView { program: make, args: seq![package.spec_install_target()], dir: config.src_path }
}

/// The command that unpacks the archive of `package`.
pub fn extract_command(package: Package, config: &BuildConfig) -> (command: Command)
    ensures
        command@ == extract_command_of(package, config@),
{
    let mut args: Vec<String> = Vec::new();
    args.push(String::from_str(package.tar_mode()));
    args.push(String::from_str(config.archive_path()));
    args.push(String::from_str("-C"));
    args.push(String::from_str(config.build_prefix()));
    assert(args.deep_view() =~= extract_command_of(package, config@).args);
    Command {
        program: String::from_str("tar"),
        args,
        dir: String::from_str(config.build_prefix()),
    }
}

/// The command that configures `package`.
pub fn configure_command(package: Package, config: &BuildConfig) -> (command: Command)
    ensures
        command@ == configure_command_of(package, config@),
{
    let mut prefix = String::from_str("--prefix=");
    prefix.append(config.install_prefix());
    let mut host = String::from_str("--host=");
    host.append(config.target());
    let mut args: Vec<String> = Vec::new();
    args.push(prefix);
    args.push(host);
    let mut flags = package.configure_flags();
    let ghost head = args.deep_view();
    let ghost tail = flags.deep_view();
    args.append(&mut flags);
    assert(args.deep_view() =~= head + tail);
    assert(head =~= seq!["--prefix="@ + config@.install_prefix, "--host="@ + config@.target]);
    Command {
        program: String::from_str("./configure"),
        args,
        dir: String::from_str(config.src_path()),
    }
}

/// The command that installs `package` with the make that was found.
pub fn install_command(package: Package, config: &BuildConfig, make: &str) -> (command: Command)
    ensures
        command@ == install_command_of(package, config@, make@),
{
    let mut args: Vec<String> = Vec::new();
    args.push(String::from_str(package.install_target()));
    assert(args.deep_view() =~= seq![package.spec_install_target()]);
    Command {
        program: String::from_str(make),
        args,
        dir: String::from_str(config.src_path()),
    }
}

/// A `FileCopy` as sequences of characters.
pub struct FileCopyView {
    pub from: Seq<char>,
    pub to: Seq<char>,
}

/// A file to copy over another.
#[derive(Debug)]
pub struct FileCopy {
    pub from: String,
    pub to: String,
}

impl View for FileCopy {
    type V = FileCopyView;

    open spec fn view(&self) -> FileCopyView {
        FileCopyView { from: self.from@, to: self.to@ }
    }
}

/// The views of a list of copies, in order.
pub open spec fn copy_views(copies: Seq<FileCopy>) -> Seq<FileCopyView> {
    Seq::new(copies.len(), |i: int| copies[i]@)
}

/// One bundled portability script copied into the autoconf directory.
pub open spec fn gnuconfig_copy_of(
    crate_path: Seq<char>,
    aux_path: Seq<char>,
    script: Seq<char>,
) -> FileCopyView {
    FileCopyView { from: crate_path + "/gnuconfig/"@ + script, to: aux_path + "/"@ + script }
}

/// The copies that refresh `config.guess` and `config.sub` in the autoconf
/// directory of a package; none for a package without such a directory.
pub open spec fn gnuconfig_copies_of(crate_path: Seq<char>, config: BuildConfigView) -> Seq<
    FileCopyView,
> {
    match config.autoconf_aux_path {
        Some(aux_path) => seq![
            gnuconfig_copy_of(crate_path, aux_path, "config.guess"@),
            gnuconfig_copy_of(crate_path, aux_path, "config.sub"@),
        ],
        None => Seq::empty(),
    }
}

/// The copy of one bundled script into the autoconf directory.
fn gnuconfig_copy(crate_path: &str, aux_path: &str, script: &str) -> (copy: FileCopy)
    ensures
        copy@ == gnuconfig_copy_of(crate_path@, aux_path@, script@),
{
    let mut from = String::from_str(crate_path);
    from.append("/gnuconfig/");
    from.append(script);
    let mut to = String::from_str(aux_path);
    to.append("/");
    to.append(script);
    FileCopy { from, to }
}

/// The file copies of the patch step for the package of `config`.
pub fn update_gnuconfig_files(crate_path: &str, config: &BuildConfig) -> (copies: Vec<FileCopy>)
    ensures
        copy_views(copies@) == gnuconfig_copies_of(crate_path@, config@),
{
    let mut copies: Vec<FileCopy> = Vec::new();
    match config.autoconf_aux_path() {
        Some(aux_path) => {
            copies.push(gnuconfig_copy(crate_path, aux_path, "config.guess"));
            copies.push(gnuconfig_copy(crate_path, aux_path, "config.sub"));
        },
        None => {},
    }
    assert(copy_views(copies@) =~= gnuconfig_copies_of(crate_path@, config@));
    copies
}

/// A `ProbeRequest` as sequences of characters.
pub struct ProbeRequestView {
    pub name: Seq<char>,
    pub min_version: Seq<char>,
    pub statik: bool,
    pub cflags_only: bool,
}

/// A query for an installed library: its name, the least version that
/// will do, whether flags for static linkage are asked for, and whether
/// only compiler flags are.
#[derive(Debug)]
pub struct ProbeRequest {
    pub name: String,
    pub min_version: String,
    pub statik: bool,
    pub cflags_only: bool,
}

impl View for ProbeRequest {
    type V = ProbeRequestView;

    open spec fn view(&self) -> ProbeRequestView {
        ProbeRequestView {
            name: self.name@,
            min_version: self.min_version@,
            statik: self.statik,
            cflags_only: self.cflags_only,
        }
    }
}

/// The probe that follows the install of `package`: at least its pinned
/// version, with flags for static linkage.
pub open spec fn probe_request_of(package: Package) -> ProbeRequestView {
    ProbeRequestView {
        name: package.spec_probe_name(),
        min_version: package.spec_version(),
        statik: true,
        cflags_only: package.spec_probe_cflags_only(),
    }
}

/// The probe for a copy of newt that the system already has.
pub open spec fn system_probe_request_of() -> ProbeRequestView {
    ProbeRequestView {
        name: Package::Newt.spec_probe_name(),
        min_version: Package::Newt.spec_version(),
        statik: false,
        cflags_only: false,
    }
}

/// The probe that follows the install of `package`.
pub fn probe_request(package: Package) -> (request: ProbeRequest)
    ensures
        request@ == probe_request_of(package),
{
    ProbeRequest {
        name: String::from_str(package.probe_name()),
        min_version: String::from_str(package.version()),
        statik: true,
        cflags_only: package.probe_cflags_only(),
    }
}

/// The probe for a copy of newt that the system already has.
pub fn system_probe_request() -> (request: ProbeRequest)
    ensures
        request@ == system_probe_request_of(),
{
    ProbeRequest {
        name: String::from_str(Package::Newt.probe_name()),
        min_version: String::from_str(Package::Newt.version()),
        statik: false,
        cflags_only: false,
    }
}

} // verus!
