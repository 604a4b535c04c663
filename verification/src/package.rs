//! The three native packages and what is fixed about each of them: its
//! pinned version, how its archive is packed, and how it is configured,
//! installed and probed.

use vstd::prelude::*;
use vstd::string::*;
use crate::text::str_eq;

verus! {

/// Pinned version of newt; also the least version a system copy must have.
pub const NEWT_VERSION: &'static str = "0.52.25";

/// Pinned version of popt.
pub const POPT_VERSION: &'static str = "1.19";

/// Pinned version of slang.
pub const SLANG_VERSION: &'static str = "2.3.3";

/// One of the native packages built from a vendored archive.
#[derive(Clone, Copy, Debug, PartialEq, Eq, Structural)]
pub enum Package {
    Popt,
    Slang,
    Newt,
}

/// The package that a name stands for, if any.
pub open spec fn package_named(name: Seq<char>) -> Option<Package> {
    if name == "popt"@ {
        Some(Package::Popt)
    } else if name == "slang"@ {
        Some(Package::Slang)
    } else if name == "newt"@ {
        Some(Package::Newt)
    } else {
        None
    }
}

impl Package {
    /// Name of the package, as it stands in archive and directory names.
    pub open spec fn spec_name(self) -> Seq<char> {
        match self {
            Package::Popt => "popt"@,
            Package::Slang => "slang"@,
            Package::Newt => "newt"@,
        }
    }

    /// The pinned version of the package.
    pub open spec fn spec_version(self) -> Seq<char> {
        match self {
            Package::Popt => POPT_VERSION@,
            Package::Slang => SLANG_VERSION@,
            Package::Newt => NEWT_VERSION@,
        }
    }

    /// Name under which the installed package is probed for.
    pub open spec fn spec_probe_name(self) -> Seq<char> {
        match self {
            Package::Popt => "popt"@,
            Package::Slang => "slang"@,
            Package::Newt => "libnewt"@,
        }
    }

    /// Mode letters handed to tar: slang ships as bzip2, the others as gzip.
    pub open spec fn spec_tar_mode(self) -> Seq<char> {
        match self {
            Package::Slang => "xjf"@,
            _ => "xzf"@,
        }
    }

    /// Directory, below the source tree, that holds the package's
    /// `config.guess` and `config.sub`; newt needs no refresh of them.
    pub open spec fn spec_autoconf_aux_dir(self) -> Option<Seq<char>> {
        match self {
            Package::Popt => Some("build-aux"@),
            Package::Slang => Some("autoconf"@),
            Package::Newt => None,
        }
    }

    /// Flags handed to `./configure` after `--prefix` and `--host`.
    pub open spec fn spec_configure_flags(self) -> Seq<Seq<char>> {
        match self {
            Package::Popt => seq!["--disable-nls"@, "--disable-rpath"@],
            Package::Slang => Seq::empty(),
            Package::Newt => seq!["--disable-nls"@, "--without-python"@, "--without-tcl"@],
        }
    }

    /// Make target that installs the package; slang installs its static
    /// archive and headers only.
    pub open spec fn spec_install_target(self) -> Seq<char> {
        match self {
            Package::Slang => "install-static"@,
            _ => "install"@,
        }
    }

    /// Whether the package must be compiled as position-independent code.
    pub open spec fn spec_needs_pic(self) -> bool {
        self == Package::Slang
    }

    /// Whether the probe asks for compiler flags only.
    pub open spec fn spec_probe_cflags_only(self) -> bool {
        self != Package::Newt
    }

    /// Whether the flags of earlier builds are injected into this build.
    pub open spec fn spec_has_dependencies(self) -> bool {
        self == Package::Newt
    }

    /// How many packages are built before this one.
    pub open spec fn spec_rank(self) -> nat {
        match self {
            Package::Popt => 0,
            Package::Slang => 1,
            Package::Newt => 2,
        }
    }

    /// The package built after this one, in dependency order.
    pub open spec fn spec_successor(self) -> Option<Package> {
        match self {
            Package::Popt => Some(Package::Slang),
            Package::Slang => Some(Package::Newt),
            Package::Newt => None,
        }
    }

    /// The package that `name` stands for, if it is the name of one.
    pub fn from_name(name: &str) -> (package: Option<Package>)
        ensures
            package == package_named(name@),
    {
        if str_eq(name, "popt") {
            Some(Package::Popt)
        } else if str_eq(name, "slang") {
            Some(Package::Slang)
        } else if str_eq(name, "newt") {
            Some(Package::Newt)
        } else {
            None
        }
    }

    /// Name of the package, as it stands in archive and directory names.
    pub fn name(self) -> (name: &'static str)
        ensures
            name@ == self.spec_name(),
    {
        match self {
            Package::Popt => "popt",
            Package::Slang => "slang",
            Package::Newt => "newt",
        }
    }

    /// The pinned version of the package.
    pub fn version(self) -> (version: &'static str)
        ensures
            version@ == self.spec_version(),
    {
        match self {
            Package::Popt => POPT_VERSION,
            Package::Slang => SLANG_VERSION,
            Package::Newt => NEWT_VERSION,
        }
    }

    /// Name under which the installed package is probed for.
    pub fn probe_name(self) -> (name: &'static str)
        ensures
            name@ == self.spec_probe_name(),
    {
        match self {
            Package::Popt => "popt",
            Package::Slang => "slang",
            Package::Newt => "libnewt",
        }
    }

    /// Mode letters handed to tar for the archive of the package.
    pub fn tar_mode(self) -> (mode: &'static str)
        ensures
            mode@ == self.spec_tar_mode(),
    {
        match self {
            Package::Slang => "xjf",
            _ => "xzf",
        }
    }

    /// Directory, below the source tree, whose portability scripts are
    /// refreshed before the package is configured.
    pub fn autoconf_aux_dir(self) -> (dir: Option<&'static str>)
        ensures
            dir.deep_view() == self.spec_autoconf_aux_dir(),
    {
        match self {
            Package::Popt => Some("build-aux"),
            Package::Slang => Some("autoconf"),
            Package::Newt => None,
        }
    }

    /// Flags handed to `./configure` after `--prefix` and `--host`.
    pub fn configure_flags(self) -> (flags: Vec<String>)
        ensures
            flags.deep_view() == self.spec_configure_flags(),
    {
        let mut flags: Vec<String> = Vec::new();
        match self {
            Package::Popt => {
                flags.push(String::from_str("--disable-nls"));
                flags.push(String::from_str("--disable-rpath"));
            },
            Package::Slang => {},
            Package::Newt => {
                flags.push(String::from_str("--disable-nls"));
                flags.push(String::from_str("--without-python"));
                flags.push(String::from_str("--without-tcl"));
            },
        }
        assert(flags.deep_view() =~= self.spec_configure_flags());
        flags
    }

    /// Make target that installs the package.
    pub fn install_target(self) -> (target: &'static str)
        ensures
            target@ == self.spec_install_target(),
    {
        match self {
            Package::Slang => "install-static",
            _ => "install",
        }
    }

    /// Whether the package must be compiled as position-independent code.
    pub fn needs_pic(self) -> (needed: bool)
        ensures
            needed == self.spec_needs_pic(),
    {
        match self {
            Package::Slang => true,
            _ => false,
        }
    }

    /// Whether the probe asks for compiler flags only.
    pub fn probe_cflags_only(self) -> (only: bool)
        ensures
            only == self.spec_probe_cflags_only(),
    {
        match self {
            Package::Newt => false,
            _ => true,
        }
    }

    /// Whether the flags of earlier builds are injected into this build.
    pub fn has_dependencies(self) -> (has: bool)
        ensures
            has == self.spec_has_dependencies(),
    {
        match self {
            Package::Newt => true,
            _ => false,
        }
    }

    /// The package built after this one, in dependency order.
    pub fn successor(self) -> (next: Option<Package>)
        ensures
            next == self.spec_successor(),
    {
        match self {
            Package::Popt => Some(Package::Slang),
            Package::Slang => Some(Package::Newt),
            Package::Newt => None,
        }
    }
}

/// Every package is found again under its own name.
pub proof fn law_names_find_their_packages(package: Package)
    ensures
        package_named(package.spec_name()) == Some(package),
{
    reveal_strlit("popt");
    reveal_strlit("slang");
    reveal_strlit("newt");
    match package {
        Package::Popt => {},
        Package::Slang => {
            assert("slang"@.len() != "popt"@.len());
        },
        Package::Newt => {
            assert("newt"@[0] != "popt"@[0]);
            assert("newt"@.len() != "slang"@.len());
        },
    }
}

} // verus!
