use newt_build::build_config::BuildConfig;
use newt_build::error::{BuildError, ErrorKind};
use newt_build::package::{Package, NEWT_VERSION, POPT_VERSION, SLANG_VERSION};
use newt_build::recipe::{
    config_for, configure_command, extract_command, install_command, next_step, probe_request,
    stage_after, system_probe_request, update_gnuconfig_files, Stage, Step,
};

fn strings(items: &[&str]) -> Vec<String> {
    items.iter().map(|item| String::from(*item)).collect()
}

fn config(package: Package, archive: &str) -> BuildConfig {
    config_for(package, "/o", "riscv64gc-unknown-linux-gnu", String::from(archive))
}

#[test]
fn versions_are_pinned() {
    assert_eq!(NEWT_VERSION, "0.52.25");
    assert_eq!(POPT_VERSION, "1.19");
    assert_eq!(SLANG_VERSION, "2.3.3");
    assert_eq!(Package::Newt.version(), "0.52.25");
    assert_eq!(Package::Popt.version(), "1.19");
    assert_eq!(Package::Slang.version(), "2.3.3");
}

#[test]
fn packages_are_found_by_name() {
    assert_eq!(Package::from_name("popt"), Some(Package::Popt));
    assert_eq!(Package::from_name("slang"), Some(Package::Slang));
    assert_eq!(Package::from_name("newt"), Some(Package::Newt));
    assert_eq!(Package::from_name("libnewt"), None);
    assert_eq!(Package::from_name("Popt"), None);
    assert_eq!(Package::from_name(""), None);
    assert_eq!(Package::from_name(Package::Popt.name()), Some(Package::Popt));
    assert_eq!(Package::from_name(Package::Slang.name()), Some(Package::Slang));
    assert_eq!(Package::from_name(Package::Newt.name()), Some(Package::Newt));
}

#[test]
fn packages_follow_each_other_in_dependency_order() {
    assert_eq!(Package::Popt.successor(), Some(Package::Slang));
    assert_eq!(Package::Slang.successor(), Some(Package::Newt));
    assert_eq!(Package::Newt.successor(), None);
    assert!(!Package::Popt.has_dependencies());
    assert!(!Package::Slang.has_dependencies());
    assert!(Package::Newt.has_dependencies());
}

#[test]
fn only_slang_needs_pic() {
    assert!(!Package::Popt.needs_pic());
    assert!(Package::Slang.needs_pic());
    assert!(!Package::Newt.needs_pic());
}

#[test]
fn popt_and_slang_are_patched_and_newt_is_not() {
    assert_eq!(Package::Popt.autoconf_aux_dir(), Some("build-aux"));
    assert_eq!(Package::Slang.autoconf_aux_dir(), Some("autoconf"));
    assert_eq!(Package::Newt.autoconf_aux_dir(), None);
    assert_eq!(next_step(Package::Popt, Stage::Extracted), Some(Step::Patch));
    assert_eq!(next_step(Package::Slang, Stage::Extracted), Some(Step::Patch));
    assert_eq!(next_step(Package::Newt, Stage::Extracted), Some(Step::Configure));
}

#[test]
fn steps_follow_the_stages() {
    for package in [Package::Popt, Package::Slang, Package::Newt] {
        assert_eq!(next_step(package, Stage::NotExtracted), Some(Step::Extract));
        assert_eq!(next_step(package, Stage::Patched), Some(Step::Configure));
        assert_eq!(next_step(package, Stage::Configured), Some(Step::Install));
        assert_eq!(next_step(package, Stage::Installed), Some(Step::Probe));
        assert_eq!(next_step(package, Stage::Probed), None);
    }
    assert_eq!(stage_after(Step::Extract), Stage::Extracted);
    assert_eq!(stage_after(Step::Patch), Stage::Patched);
    assert_eq!(stage_after(Step::Configure), Stage::Configured);
    assert_eq!(stage_after(Step::Install), Stage::Installed);
    assert_eq!(stage_after(Step::Probe), Stage::Probed);
}

#[test]
fn every_recipe_ends_probed() {
    for (package, steps) in [(Package::Popt, 5), (Package::Slang, 5), (Package::Newt, 4)] {
        let mut stage = Stage::NotExtracted;
        let mut taken = 0;
        while let Some(step) = next_step(package, stage) {
            stage = stage_after(step);
            taken += 1;
            assert!(taken <= 5);
        }
        assert_eq!(stage, Stage::Probed);
        assert_eq!(taken, steps);
    }
}

#[test]
fn config_for_sets_the_autoconf_directory() {
    let popt = config(Package::Popt, "/c/vendor/popt-1.19.tar.gz");
    assert_eq!(popt.src_path(), "/o/build/popt-1.19");
    assert_eq!(popt.autoconf_aux_path(), Some("/o/build/popt-1.19/build-aux"));
    assert_eq!(popt.target(), "riscv64-unknown-linux-gnu");
    assert_eq!(popt.archive_path(), "/c/vendor/popt-1.19.tar.gz");
    let slang = config(Package::Slang, "/c/vendor/slang-2.3.3.tar.bz2");
    assert_eq!(slang.autoconf_aux_path(), Some("/o/build/slang-2.3.3/autoconf"));
    assert_eq!(slang.install_prefix(), "/o/install/slang-2.3.3");
    let newt = config(Package::Newt, "/c/vendor/newt-0.52.25.tar.gz");
    assert_eq!(newt.autoconf_aux_path(), None);
    assert_eq!(newt.pkg_config_path(), "/o/install/newt-0.52.25/lib/pkgconfig");
}

#[test]
fn gzip_archives_are_extracted_with_z() {
    let command = extract_command(Package::Popt, &config(Package::Popt, "/c/vendor/popt-1.19.tar.gz"));
    assert_eq!(command.program, "tar");
    assert_eq!(command.args, strings(&["xzf", "/c/vendor/popt-1.19.tar.gz", "-C", "/o/build"]));
    assert_eq!(command.dir, "/o/build");
    let command = extract_command(Package::Newt, &config(Package::Newt, "/c/vendor/newt-0.52.25.tar.gz"));
    assert_eq!(command.args, strings(&["xzf", "/c/vendor/newt-0.52.25.tar.gz", "-C", "/o/build"]));
}

#[test]
fn bzip2_archive_is_extracted_with_j() {
    let command = extract_command(Package::Slang, &config(Package::Slang, "/c/vendor/slang-2.3.3.tar.bz2"));
    assert_eq!(command.program, "tar");
    assert_eq!(command.args, strings(&["xjf", "/c/vendor/slang-2.3.3.tar.bz2", "-C", "/o/build"]));
    assert_eq!(command.dir, "/o/build");
}

#[test]
fn popt_is_configured_without_nls_and_rpath() {
    let command = configure_command(Package::Popt, &config(Package::Popt, "a"));
    assert_eq!(command.program, "./configure");
    assert_eq!(
        command.args,
        strings(&[
            "--prefix=/o/install/popt-1.19",
            "--host=riscv64-unknown-linux-gnu",
            "--disable-nls",
            "--disable-rpath",
        ])
    );
    assert_eq!(command.dir, "/o/build/popt-1.19");
}

#[test]
fn slang_is_configured_without_extra_flags() {
    let command = configure_command(Package::Slang, &config(Package::Slang, "a"));
    assert_eq!(
        command.args,
        strings(&["--prefix=/o/install/slang-2.3.3", "--host=riscv64-unknown-linux-gnu"])
    );
    assert_eq!(command.dir, "/o/build/slang-2.3.3");
}

#[test]
fn newt_is_configured_without_nls_python_and_tcl() {
    let config = config_for(Package::Newt, "/o", "x86_64-unknown-linux-gnu", String::from("a"));
    let command = configure_command(Package::Newt, &config);
    assert_eq!(
        command.args,
        strings(&[
            "--prefix=/o/install/newt-0.52.25",
            "--host=x86_64-unknown-linux-gnu",
            "--disable-nls",
            "--without-python",
            "--without-tcl",
        ])
    );
    assert_eq!(command.dir, "/o/build/newt-0.52.25");
}

#[test]
fn install_runs_the_make_that_was_found() {
    let command = install_command(Package::Popt, &config(Package::Popt, "a"), "gmake");
    assert_eq!(command.program, "gmake");
    assert_eq!(command.args, strings(&["install"]));
    assert_eq!(command.dir, "/o/build/popt-1.19");
    let command = install_command(Package::Newt, &config(Package::Newt, "a"), "make");
    assert_eq!(command.program, "make");
    assert_eq!(command.args, strings(&["install"]));
}

#[test]
fn slang_installs_its_static_archive_only() {
    let command = install_command(Package::Slang, &config(Package::Slang, "a"), "make");
    assert_eq!(command.args, strings(&["install-static"]));
    assert_eq!(command.dir, "/o/build/slang-2.3.3");
}

#[test]
fn patch_copies_both_scripts_into_the_autoconf_directory() {
    let copies = update_gnuconfig_files("/c", &config(Package::Popt, "a"));
    assert_eq!(copies.len(), 2);
    assert_eq!(copies[0].from, "/c/gnuconfig/config.guess");
    assert_eq!(copies[0].to, "/o/build/popt-1.19/build-aux/config.guess");
    assert_eq!(copies[1].from, "/c/gnuconfig/config.sub");
    assert_eq!(copies[1].to, "/o/build/popt-1.19/build-aux/config.sub");
    let copies = update_gnuconfig_files("/c", &config(Package::Slang, "a"));
    assert_eq!(copies[0].to, "/o/build/slang-2.3.3/autoconf/config.guess");
    assert_eq!(copies[1].to, "/o/build/slang-2.3.3/autoconf/config.sub");
}

#[test]
fn patch_copies_nothing_for_newt() {
    let copies = update_gnuconfig_files("/c", &config(Package::Newt, "a"));
    assert!(copies.is_empty());
}

#[test]
fn probes_ask_for_the_pinned_version() {
    let popt = probe_request(Package::Popt);
    assert_eq!(popt.name, "popt");
    assert_eq!(popt.min_version, "1.19");
    assert!(popt.statik);
    assert!(popt.cflags_only);
    let slang = probe_request(Package::Slang);
    assert_eq!(slang.name, "slang");
    assert_eq!(slang.min_version, "2.3.3");
    assert!(slang.statik);
    assert!(slang.cflags_only);
    let newt = probe_request(Package::Newt);
    assert_eq!(newt.name, "libnewt");
    assert_eq!(newt.min_version, "0.52.25");
    assert!(newt.statik);
    assert!(!newt.cflags_only);
}

#[test]
fn system_probe_asks_for_newt_as_it_is() {
    let request = system_probe_request();
    assert_eq!(request.name, "libnewt");
    assert_eq!(request.min_version, "0.52.25");
    assert!(!request.statik);
    assert!(!request.cflags_only);
}

#[test]
fn errors_name_step_and_package() {
    assert_eq!(
        BuildError::MissingMake.message(),
        "GNU Make is required for building this package."
    );
    assert_eq!(BuildError::MissingCompiler.message(), "no C compiler was found");
    assert_eq!(
        BuildError::MissingArchive(Package::Slang).message(),
        "no archive was found for slang"
    );
    assert_eq!(
        BuildError::StepFailed(Package::Popt, Step::Extract).message(),
        "error running tar for popt"
    );
    assert_eq!(
        BuildError::StepFailed(Package::Slang, Step::Patch).message(),
        "error refreshing config.guess and config.sub for slang"
    );
    assert_eq!(
        BuildError::StepFailed(Package::Newt, Step::Configure).message(),
        "error running configure for newt"
    );
    assert_eq!(
        BuildError::StepFailed(Package::Newt, Step::Install).message(),
        "error running make for newt"
    );
    assert_eq!(
        BuildError::StepFailed(Package::Popt, Step::Probe).message(),
        "error running pkg-config for popt"
    );
    assert_eq!(BuildError::GlueFailed.message(), "error compiling the glue object");
    assert_eq!(
        BuildError::UnexpectedEvent.message(),
        "an event arrived that answers no request"
    );
}

#[test]
fn errors_fall_into_kinds() {
    assert_eq!(BuildError::MissingMake.kind(), ErrorKind::MissingTool);
    assert_eq!(BuildError::MissingCompiler.kind(), ErrorKind::MissingTool);
    assert_eq!(BuildError::MissingArchive(Package::Popt).kind(), ErrorKind::MissingInput);
    assert_eq!(BuildError::StepFailed(Package::Popt, Step::Extract).kind(), ErrorKind::ToolFailure);
    assert_eq!(BuildError::StepFailed(Package::Popt, Step::Patch).kind(), ErrorKind::ToolFailure);
    assert_eq!(BuildError::StepFailed(Package::Popt, Step::Configure).kind(), ErrorKind::ToolFailure);
    assert_eq!(BuildError::StepFailed(Package::Popt, Step::Install).kind(), ErrorKind::ToolFailure);
    assert_eq!(BuildError::StepFailed(Package::Popt, Step::Probe).kind(), ErrorKind::ProbeFailure);
    assert_eq!(BuildError::GlueFailed.kind(), ErrorKind::ToolFailure);
    assert_eq!(BuildError::UnexpectedEvent.kind(), ErrorKind::Misuse);
}
