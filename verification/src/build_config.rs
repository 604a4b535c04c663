//! Where a package is unpacked, built and installed.
//!
//! Every path is a function of the package, its version and the output
//! root; the host triple is a function of the target triple. Nothing is
//! remembered between two derivations.

use vstd::prelude::*;
use vstd::string::*;
use crate::text::{chars_of, lemma_append_injective, lemma_prepend_injective, str_eq};

verus! {

/// `<package>-<version>`, the stem of archive and directory names.
pub open spec fn version_name_of(package: Seq<char>, version: Seq<char>) -> Seq<char> {
    package + "-"@ + version
}

/// The triple handed to `./configure` as `--host`. The autotools know the
/// canonical RISC-V triple only, so the extended one is mapped to it; every
/// other triple stands for itself.
pub open spec fn host_triple_of(target: Seq<char>) -> Seq<char> {
    if target == "riscv64gc-unknown-linux-gnu"@ {
        "riscv64-unknown-linux-gnu"@
    } else {
        target
    }
}

pub open spec fn build_prefix_of(out_dir: Seq<char>) -> Seq<char> {
    out_dir + "/build"@
}

pub open spec fn src_path_of(out_dir: Seq<char>, package: Seq<char>, version: Seq<char>) -> Seq<
    char,
> {
    build_prefix_of(out_dir) + "/"@ + version_name_of(package, version)
}

pub open spec fn install_prefix_of(
    out_dir: Seq<char>,
    package: Seq<char>,
    version: Seq<char>,
) -> Seq<char> {
    out_dir + "/install/"@ + version_name_of(package, version)
}

pub open spec fn pkg_config_path_of(
    out_dir: Seq<char>,
    package: Seq<char>,
    version: Seq<char>,
) -> Seq<char> {
    install_prefix_of(out_dir, package, version) + "/lib/pkgconfig"@
}

/// Archive path without its extension: `<crate_path>/vendor/<version_name>`.
pub open spec fn archive_base_of(crate_path: Seq<char>, version_name: Seq<char>) -> Seq<char> {
    crate_path + "/vendor/"@ + version_name
}

/// The archive that is unpacked, given which of the two packings is on
/// disk: the bzip2 one is preferred, the gzip one is second.
pub open spec fn archive_found(
    crate_path: Seq<char>,
    version_name: Seq<char>,
    bzip2_present: bool,
    gzip_present: bool,
) -> Option<Seq<char>> {
    if bzip2_present {
        Some(archive_base_of(crate_path, version_name) + ".tar.bz2"@)
    } else if gzip_present {
        Some(archive_base_of(crate_path, version_name) + ".tar.gz"@)
    } else {
        None
    }
}

/// `rel` appended to the path `base`, with `/` as the separator: a `rel`
/// that starts at the root replaces `base`; otherwise a separator is put
/// between the two unless `base` is empty or already ends in one.
pub open spec fn path_joined(base: Seq<char>, rel: Seq<char>) -> Seq<char> {
    if rel.len() > 0 && rel[0] == '/' {
        rel
    } else if base.len() > 0 && base.last() != '/' {
        base + seq!['/'] + rel
    } else {
        base + rel
    }
}

/// What a `BuildConfig` holds, as sequences of characters.
pub struct BuildConfigView {
    pub target: Seq<char>,
    pub build_prefix: Seq<char>,
    pub archive_path: Seq<char>,
    pub src_path: Seq<char>,
    pub install_prefix: Seq<char>,
    pub pkg_config_path: Seq<char>,
    pub autoconf_aux_path: Option<Seq<char>>,
}

/// The configuration derived from a package, its version, the output root,
/// the target triple and the archive to unpack.
pub open spec fn derived_config(
    package: Seq<char>,
    version: Seq<char>,
    out_dir: Seq<char>,
    target: Seq<char>,
    archive_path: Seq<char>,
) -> BuildConfigView {
    BuildConfigView {
        target: host_triple_of(target),
        build_prefix: build_prefix_of(out_dir),
        archive_path,
        src_path: src_path_of(out_dir, package, version),
        install_prefix: install_prefix_of(out_dir, package, version),
        pkg_config_path: pkg_config_path_of(out_dir, package, version),
        autoconf_aux_path: None,
    }
}

impl BuildConfigView {
    /// The same configuration with its autoconf directory set to `path`
    /// below the source tree.
    pub open spec fn with_autoconf_aux_path(self, path: Seq<char>) -> BuildConfigView {
        BuildConfigView { autoconf_aux_path: Some(path_joined(self.src_path, path)), ..self }
    }
}

/// `<package>-<version>`, the stem of archive and directory names.
pub fn version_name(package: &str, version: &str) -> (name: String)
    ensures
        name@ == version_name_of(package@, version@),
{
    let mut name = String::from_str(package);
    name.append("-");
    name.append(version);
    name
}

/// Maps a target triple to the host triple that `./configure` is given.
pub fn translate_target(target: &str) -> (host: String)
    ensures
        host@ == host_triple_of(target@),
{
    if str_eq(target, "riscv64gc-unknown-linux-gnu") {
        String::from_str("riscv64-unknown-linux-gnu")
    } else {
        String::from_str(target)
    }
}

/// Appends `rel` to the path `base`.
pub fn join_path(base: &str, rel: &str) -> (path: String)
    ensures
        path@ == path_joined(base@, rel@),
{
    let base_chars = chars_of(base);
    let rel_chars = chars_of(rel);
    if rel_chars.len() > 0 && rel_chars[0] == '/' {
        return String::from_str(rel);
    }
    let mut path = String::from_str(base);
    if base_chars.len() > 0 && base_chars[base_chars.len() - 1] != '/' {
        proof {
            reveal_strlit("/");
            assert("/"@ =~= seq!['/']);
        }
        path.append("/");
    }
    path.append(rel);
    path
}

/// The two places where the archive of `version_name` may lie, in the
/// order in which they are tried.
pub fn archive_candidates(crate_path: &str, version_name: &str) -> (candidates: Vec<String>)
    ensures
        candidates.deep_view() == seq![
            archive_base_of(crate_path@, version_name@) + ".tar.bz2"@,
            archive_base_of(crate_path@, version_name@) + ".tar.gz"@,
        ],
{
    let mut base = String::from_str(crate_path);
    base.append("/vendor/");
    base.append(version_name);
    let mut bzip2 = base.clone();
    bzip2.append(".tar.bz2");
    let mut gzip = base;
    gzip.append(".tar.gz");
    let mut candidates: Vec<String> = Vec::new();
    candidates.push(bzip2);
    candidates.push(gzip);
    assert(candidates.deep_view() =~= seq![
        archive_base_of(crate_path@, version_name@) + ".tar.bz2"@,
        archive_base_of(crate_path@, version_name@) + ".tar.gz"@,
    ]);
    candidates
}

/// Picks the archive of `version_name` below `<crate_path>/vendor`, given
/// which of the two candidates is a file on disk.
pub fn find_archive(
    crate_path: &str,
    version_name: &str,
    bzip2_present: bool,
    gzip_present: bool,
) -> (archive: Option<String>)
    ensures
        archive.deep_view() == archive_found(
            crate_path@,
            version_name@,
            bzip2_present,
            gzip_present,
        ),
{
    if !bzip2_present && !gzip_present {
        return None;
    }
    let mut archive = String::from_str(crate_path);
    archive.append("/vendor/");
    archive.append(version_name);
    if bzip2_present {
        archive.append(".tar.bz2");
    } else {
        archive.append(".tar.gz");
    }
    Some(archive)
}

/// Paths and host triple for the build of one package.
#[derive(Debug)]
pub struct BuildConfig {
    target: String,
    build_prefix: String,
    archive_path: String,
    src_path: String,
    install_prefix: String,
    pkg_config_path: String,
    autoconf_aux_path: Option<String>,
}

impl View for BuildConfig {
    type V = BuildConfigView;

    closed spec fn view(&self) -> BuildConfigView {
        BuildConfigView {
            target: self.target@,
            build_prefix: self.build_prefix@,
            archive_path: self.archive_path@,
            src_path: self.src_path@,
            install_prefix: self.install_prefix@,
            pkg_config_path: self.pkg_config_path@,
            autoconf_aux_path: self.autoconf_aux_path.deep_view(),
        }
    }
}

impl BuildConfig {
    /// Derives the configuration for `package` at `version`, staged below
    /// `out_dir` and built for `target`, from the archive at `archive_path`.
    pub fn new(
        package: &str,
        version: &str,
        out_dir: &str,
        target: &str,
        archive_path: String,
    ) -> (config: BuildConfig)
        ensures
            config@ == derived_config(package@, version@, out_dir@, target@, archive_path@),
    {
        let version_name = version_name(package, version);
        let mut build_prefix = String::from_str(out_dir);
        build_prefix.append("/build");
        let mut src_path = build_prefix.clone();
        src_path.append("/");
        src_path.append(version_name.as_str());
        let mut install_prefix = String::from_str(out_dir);
        install_prefix.append("/install/");
        install_prefix.append(version_name.as_str());
        let mut pkg_config_path = install_prefix.clone();
        pkg_config_path.append("/lib/pkgconfig");
        BuildConfig {
            target: translate_target(target),
            build_prefix,
            archive_path,
            src_path,
            install_prefix,
            pkg_config_path,
            autoconf_aux_path: None,
        }
    }

    /// Sets the autoconf directory to `path` below the source tree.
    pub fn set_autoconf_aux_path(&mut self, path: &str)
        ensures
            final(self)@ == old(self)@.with_autoconf_aux_path(path@),
    {
        let joined = join_path(self.src_path.as_str(), path);
        self.autoconf_aux_path = Some(joined);
    }

    /// The host triple handed to `./configure`.
    pub fn target(&self) -> (target: &str)
        ensures
            target@ == self@.target,
    {
        self.target.as_str()
    }

    /// The directory into which archives are unpacked.
    pub fn build_prefix(&self) -> (path: &str)
        ensures
            path@ == self@.build_prefix,
    {
        self.build_prefix.as_str()
    }

    /// The archive that is unpacked.
    pub fn archive_path(&self) -> (path: &str)
        ensures
            path@ == self@.archive_path,
    {
        self.archive_path.as_str()
    }

    /// The source tree of the package, below the build prefix.
    pub fn src_path(&self) -> (path: &str)
        ensures
            path@ == self@.src_path,
    {
        self.src_path.as_str()
    }

    /// The directory into which the package is installed.
    pub fn install_prefix(&self) -> (path: &str)
        ensures
            path@ == self@.install_prefix,
    {
        self.install_prefix.as_str()
    }

    /// The directory in which the installed package is probed for.
    pub fn pkg_config_path(&self) -> (path: &str)
        ensures
            path@ == self@.pkg_config_path,
    {
        self.pkg_config_path.as_str()
    }

    /// The directory whose portability scripts are refreshed, if it is set.
    pub fn autoconf_aux_path(&self) -> (path: Option<&str>)
        ensures
            path.deep_view() == self@.autoconf_aux_path,
    {
        match &self.autoconf_aux_path {
            Some(path) => Some(path.as_str()),
            None => None,
        }
    }
}

/// Two configurations derived from the same package, version, output root,
/// target and archive are the same configuration.
pub proof fn law_derivation_is_pure(
    first: BuildConfig,
    second: BuildConfig,
    package: Seq<char>,
    version: Seq<char>,
    out_dir: Seq<char>,
    target: Seq<char>,
    archive_path: Seq<char>,
)
    requires
        first@ == derived_config(package, version, out_dir, target, archive_path),
        second@ == derived_config(package, version, out_dir, target, archive_path),
    ensures
        first@ == second@,
{
}

/// Another output root gives another build prefix.
pub proof fn law_out_dir_shows_in_build_prefix(out_dir: Seq<char>, other: Seq<char>)
    requires
        out_dir != other,
    ensures
        build_prefix_of(out_dir) != build_prefix_of(other),
{
    if build_prefix_of(out_dir) == build_prefix_of(other) {
        lemma_append_injective(out_dir, other, "/build"@);
    }
}

/// With the output root fixed, another package at the same version, or
/// the same package at another version, gives another source path.
pub proof fn law_package_and_version_show_in_src_path(
    out_dir: Seq<char>,
    package: Seq<char>,
    version: Seq<char>,
    other_package: Seq<char>,
    other_version: Seq<char>,
)
    requires
        (package != other_package && version == other_version) || (package == other_package
            && version != other_version),
    ensures
        src_path_of(out_dir, package, version) != src_path_of(
            out_dir,
            other_package,
            other_version,
        ),
{
    let head = build_prefix_of(out_dir) + "/"@;
    let name = version_name_of(package, version);
    let other_name = version_name_of(other_package, other_version);
    if src_path_of(out_dir, package, version) == src_path_of(
        out_dir,
        other_package,
        other_version,
    ) {
        lemma_prepend_injective(head, name, other_name);
        if version == other_version {
            assert(name =~= package + ("-"@ + version));
            assert(other_name =~= other_package + ("-"@ + version));
            lemma_append_injective(package, other_package, "-"@ + version);
        } else {
            lemma_prepend_injective(package + "-"@, version, other_version);
        }
    }
}

/// Another target triple gives another host triple, unless the two are the
/// extended and the canonical RISC-V triple, which name the same host.
pub proof fn law_target_shows_in_host_triple(target: Seq<char>, other: Seq<char>)
    requires
        target != other,
        !(target == "riscv64gc-unknown-linux-gnu"@ && other == "riscv64-unknown-linux-gnu"@),
        !(target == "riscv64-unknown-linux-gnu"@ && other == "riscv64gc-unknown-linux-gnu"@),
    ensures
        host_triple_of(target) != host_triple_of(other),
{
}

/// Changing exactly one of package, version, output root and target
/// changes the derived configuration: another output root shows in the
/// build prefix, another package or version in the source path, another
/// target in the host triple. The one exception is a change of the target
/// between the two RISC-V triples.
pub proof fn law_one_changed_input_changes_config(
    package: Seq<char>,
    version: Seq<char>,
    out_dir: Seq<char>,
    target: Seq<char>,
    other_package: Seq<char>,
    other_version: Seq<char>,
    other_out_dir: Seq<char>,
    other_target: Seq<char>,
    archive_path: Seq<char>,
)
    requires
        ({
            ||| package != other_package && version == other_version && out_dir == other_out_dir
                && target == other_target
            ||| package == other_package && version != other_version && out_dir == other_out_dir
                && target == other_target
            ||| package == other_package && version == other_version && out_dir != other_out_dir
                && target == other_target
            ||| package == other_package && version == other_version && out_dir == other_out_dir
                && target != other_target
        }),
        !(target == "riscv64gc-unknown-linux-gnu"@ && other_target == "riscv64-unknown-linux-gnu"@),
        !(target == "riscv64-unknown-linux-gnu"@ && other_target == "riscv64gc-unknown-linux-gnu"@),
    ensures
        derived_config(package, version, out_dir, target, archive_path) != derived_config(
            other_package,
            other_version,
            other_out_dir,
            other_target,
            archive_path,
        ),
        out_dir != other_out_dir ==> build_prefix_of(out_dir) != build_prefix_of(other_out_dir),
        package != other_package || version != other_version ==> src_path_of(
            out_dir,
            package,
            version,
        ) != src_path_of(other_out_dir, other_package, other_version),
        target != other_target ==> host_triple_of(target) != host_triple_of(other_target),
{
    if out_dir != other_out_dir {
        law_out_dir_shows_in_build_prefix(out_dir, other_out_dir);
    } else if target != other_target {
        law_target_shows_in_host_triple(target, other_target);
    } else {
        law_package_and_version_show_in_src_path(
            out_dir,
            package,
            version,
            other_package,
            other_version,
        );
    }
}

} // verus!
