//! The compiler and linker variables that every child process inherits,
//! held as a value.
//!
//! Each change is one of a pair: the flags of finished dependencies are
//! injected before a build and cleared after it; the marker for
//! position-independent code is forced before a build and the prior value
//! of the compiler flags is put back after it.

use vstd::prelude::*;
use vstd::string::*;
use crate::library::{LibraryDescriptor, LibraryView, library_views};
use crate::text::{
    contains, has_substring, is_prefix, lemma_piece_is_substring, lemma_substring_transitive,
};

verus! {

/// `marker` put before each path and a space after it, all in one string.
pub open spec fn flag_list(marker: Seq<char>, paths: Seq<Seq<char>>) -> Seq<char>
    decreases paths.len(),
{
    if paths.len() == 0 {
        Seq::empty()
    } else {
        flag_list(marker, paths.drop_last()) + (marker + paths.last() + " "@)
    }
}

/// `-I<path> ` for every include path of every library, in order.
pub open spec fn include_flags(libs: Seq<LibraryView>) -> Seq<char>
    decreases libs.len(),
{
    if libs.len() == 0 {
        Seq::empty()
    } else {
        include_flags(libs.drop_last()) + flag_list("-I"@, libs.last().include_paths)
    }
}

/// `-L<path> ` for every link path of every library, in order.
pub open spec fn link_flags(libs: Seq<LibraryView>) -> Seq<char>
    decreases libs.len(),
{
    if libs.len() == 0 {
        Seq::empty()
    } else {
        link_flags(libs.drop_last()) + flag_list("-L"@, libs.last().link_paths)
    }
}

/// The value of a variable, read as empty when it is unset.
pub open spec fn value_or_empty(variable: Option<Seq<char>>) -> Seq<char> {
    match variable {
        Some(value) => value,
        None => Seq::empty(),
    }
}

/// A `BuildEnv` as sequences of characters.
pub struct BuildEnvView {
    pub cc: Option<Seq<char>>,
    pub cflags: Option<Seq<char>>,
    pub cppflags: Option<Seq<char>>,
    pub ldflags: Option<Seq<char>>,
    pub pkg_config_path: Option<Seq<char>>,
    pub pkg_config_sysroot_dir: Option<Seq<char>>,
    pub saved_cflags: Option<Option<Seq<char>>>,
}

impl BuildEnvView {
    /// `path` appended to the search path, after a colon if there is one.
    pub open spec fn with_search_path(self, path: Seq<char>) -> BuildEnvView {
        BuildEnvView {
            pkg_config_path: Some(
                match self.pkg_config_path {
                    Some(value) => value + ":"@ + path,
                    None => path,
                },
            ),
            ..self
        }
    }

    /// The flags of `libs` injected: each of the two variables is set when
    /// there is at least one flag for it, and left as it is otherwise.
    pub open spec fn with_dependency_flags(self, libs: Seq<LibraryView>) -> BuildEnvView {
        BuildEnvView {
            cppflags: if include_flags(libs).len() > 0 {
                Some(include_flags(libs))
            } else {
                self.cppflags
            },
            ldflags: if link_flags(libs).len() > 0 {
                Some(link_flags(libs))
            } else {
                self.ldflags
            },
            ..self
        }
    }

    /// Both dependency variables unset.
    pub open spec fn without_dependency_flags(self) -> BuildEnvView {
        BuildEnvView { cppflags: None, ldflags: None, ..self }
    }

    /// Whether the compiler flags already ask for position-independent code.
    pub open spec fn has_pic(self) -> bool {
        has_substring("-fPIC"@, value_or_empty(self.cflags))
    }

    /// The marker forced: nothing changes where it is present; where it is
    /// not, the prior compiler flags are saved and the marker is appended.
    pub open spec fn with_pic_forced(self) -> BuildEnvView {
        if self.has_pic() {
            self
        } else {
            BuildEnvView {
                cflags: Some(value_or_empty(self.cflags) + " -fPIC"@),
                saved_cflags: Some(self.cflags),
                ..self
            }
        }
    }

    /// The saved compiler flags put back and the save dropped; nothing
    /// changes where nothing is saved.
    pub open spec fn with_cflags_restored(self) -> BuildEnvView {
        match self.saved_cflags {
            Some(prior) => BuildEnvView { cflags: prior, saved_cflags: None, ..self },
            None => self,
        }
    }

    /// The probe told to report its paths below `dir`.
    pub open spec fn with_sysroot(self, dir: Seq<char>) -> BuildEnvView {
        BuildEnvView { pkg_config_sysroot_dir: Some(dir), ..self }
    }

    /// The compiler published as the override, unless none was found or an
    /// override is already there.
    pub open spec fn with_compiler(self, compiler: Option<Seq<char>>) -> BuildEnvView {
        if compiler is Some && self.cc is None {
            BuildEnvView { cc: compiler, ..self }
        } else {
            self
        }
    }
}

/// Compiler and linker variables handed to every build step. A field is
/// `None` where the variable is unset.
#[derive(Debug)]
pub struct BuildEnv {
    /// Compiler override (`CC`).
    pub cc: Option<String>,
    /// Compiler flags (`CFLAGS`).
    pub cflags: Option<String>,
    /// Preprocessor flags (`CPPFLAGS`).
    pub cppflags: Option<String>,
    /// Linker flags (`LDFLAGS`).
    pub ldflags: Option<String>,
    /// Search path of the probe (`PKG_CONFIG_PATH`).
    pub pkg_config_path: Option<String>,
    /// Root below which the probe reports its paths
    /// (`PKG_CONFIG_SYSROOT_DIR`).
    pub pkg_config_sysroot_dir: Option<String>,
    /// The compiler flags as they were before the marker for
    /// position-independent code was forced; `None` while it is not.
    pub saved_cflags: Option<Option<String>>,
}

impl View for BuildEnv {
    type V = BuildEnvView;

    open spec fn view(&self) -> BuildEnvView {
        BuildEnvView {
            cc: self.cc.deep_view(),
            cflags: self.cflags.deep_view(),
            cppflags: self.cppflags.deep_view(),
            ldflags: self.ldflags.deep_view(),
            pkg_config_path: self.pkg_config_path.deep_view(),
            pkg_config_sysroot_dir: self.pkg_config_sysroot_dir.deep_view(),
            saved_cflags: self.saved_cflags.deep_view(),
        }
    }
}

/// A copy of an optional string.
fn copy_of(value: &Option<String>) -> (copy: Option<String>)
    ensures
        copy.deep_view() == value.deep_view(),
{
    match value {
        Some(text) => Some(text.clone()),
        None => None,
    }
}

/// Appends `marker`, a path and a space to `flags` for each of `paths`.
fn push_flags(flags: &mut String, marker: &str, paths: &Vec<String>)
    ensures
        final(flags)@ == old(flags)@ + flag_list(marker@, paths.deep_view()),
{
    let ghost all = paths.deep_view();
    let mut i: usize = 0;
    while i < paths.len()
        invariant
            i <= paths.len(),
            all == paths.deep_view(),
            flags@ == old(flags)@ + flag_list(marker@, all.take(i as int)),
        decreases paths.len() - i,
    {
        proof {
            assert(all.take(i + 1).drop_last() =~= all.take(i as int));
            assert(all.take(i + 1).last() == paths[i as int]@);
        }
        flags.append(marker);
        flags.append(paths[i].as_str());
        flags.append(" ");
        i += 1;
    }
    assert(all.take(paths.len() as int) =~= all);
}

impl BuildEnv {
    /// An environment with every variable unset.
    pub fn new() -> (env: BuildEnv)
        ensures
            env@ == (BuildEnvView {
                cc: None,
                cflags: None,
                cppflags: None,
                ldflags: None,
                pkg_config_path: None,
                pkg_config_sysroot_dir: None,
                saved_cflags: None,
            }),
    {
        BuildEnv {
            cc: None,
            cflags: None,
            cppflags: None,
            ldflags: None,
            pkg_config_path: None,
            pkg_config_sysroot_dir: None,
            saved_cflags: None,
        }
    }

    /// Appends the `pkgconfig` directory of a fresh install to the search
    /// path of the probe.
    pub fn append_pkg_config_path(&mut self, path: &str)
        ensures
            final(self)@ == old(self)@.with_search_path(path@),
    {
        let mut value = match &self.pkg_config_path {
            Some(current) => {
                let mut value = current.clone();
                value.append(":");
                value
            },
            None => String::new(),
        };
        value.append(path);
        proof {
            if old(self).pkg_config_path is None {
                assert(value@ =~= path@);
            }
        }
        self.pkg_config_path = Some(value);
    }

    /// Injects the include and link directories of `libs` into the
    /// preprocessor and linker flags.
    pub fn export_env_libs(&mut self, libs: &Vec<LibraryDescriptor>)
        ensures
            final(self)@ == old(self)@.with_dependency_flags(library_views(libs@)),
    {
        let ghost views = library_views(libs@);
        let mut include_paths = String::new();
        let mut link_paths = String::new();
        let mut i: usize = 0;
        while i < libs.len()
            invariant
                i <= libs.len(),
                views == library_views(libs@),
                include_paths@ == include_flags(views.take(i as int)),
                link_paths@ == link_flags(views.take(i as int)),
            decreases libs.len() - i,
        {
            proof {
                assert(views.take(i + 1).drop_last() =~= views.take(i as int));
                assert(views.take(i + 1).last() == libs[i as int]@);
            }
            push_flags(&mut include_paths, "-I", &libs[i].include_paths);
            push_flags(&mut link_paths, "-L", &libs[i].link_paths);
            i += 1;
        }
        assert(views.take(libs.len() as int) =~= views);
        if !include_paths.as_str().is_empty() {
            self.cppflags = Some(include_paths);
        }
        if !link_paths.as_str().is_empty() {
            self.ldflags = Some(link_paths);
        }
    }

    /// Clears the preprocessor and linker flags.
    pub fn unset_env_libs(&mut self)
        ensures
            final(self)@ == old(self)@.without_dependency_flags(),
            final(self)@.cppflags is None,
            final(self)@.ldflags is None,
    {
        self.cppflags = None;
        self.ldflags = None;
    }

    /// Forces the marker for position-independent code into the compiler
    /// flags, saving their prior value.
    pub fn cflags_set_fpic(&mut self)
        ensures
            final(self)@ == old(self)@.with_pic_forced(),
    {
        let mut cflags = match &self.cflags {
            Some(current) => current.clone(),
            None => String::new(),
        };
        if !contains(cflags.as_str(), "-fPIC") {
            self.saved_cflags = Some(copy_of(&self.cflags));
            cflags.append(" -fPIC");
            self.cflags = Some(cflags);
        }
    }

    /// Puts the saved compiler flags back, if any are saved.
    pub fn cflags_restore(&mut self)
        ensures
            final(self)@ == old(self)@.with_cflags_restored(),
    {
        match self.saved_cflags.take() {
            Some(prior) => {
                self.cflags = prior;
            },
            None => {},
        }
    }

    /// Tells the probe to report its paths below `dir`.
    pub fn set_pkg_config_sysroot(&mut self, dir: &str)
        ensures
            final(self)@ == old(self)@.with_sysroot(dir@),
    {
        self.pkg_config_sysroot_dir = Some(String::from_str(dir));
    }

    /// Publishes `compiler` as the compiler override, unless one is set.
    pub fn set_cc(&mut self, compiler: Option<String>)
        ensures
            final(self)@ == old(self)@.with_compiler(compiler.deep_view()),
    {
        if compiler.is_some() && self.cc.is_none() {
            self.cc = compiler;
        }
    }
}

/// The flag of every path stands in the flag list.
pub proof fn lemma_flag_in_list(marker: Seq<char>, paths: Seq<Seq<char>>, at: int)
    requires
        0 <= at < paths.len(),
    ensures
        has_substring(marker + paths[at] + " "@, flag_list(marker, paths)),
    decreases paths.len(),
{
    let before = flag_list(marker, paths.drop_last());
    let piece = marker + paths.last() + " "@;
    assert(flag_list(marker, paths) == before + piece);
    if at == paths.len() - 1 {
        lemma_piece_is_substring(before, piece, Seq::empty());
        assert(before + piece + Seq::<char>::empty() =~= before + piece);
    } else {
        lemma_flag_in_list(marker, paths.drop_last(), at);
        lemma_piece_is_substring(Seq::empty(), before, piece);
        assert(Seq::<char>::empty() + before + piece =~= before + piece);
        lemma_substring_transitive(marker + paths[at] + " "@, before, before + piece);
    }
}

/// Every include path of every injected library stands in the
/// preprocessor flags, behind `-I` and before a space.
pub proof fn law_every_include_path_is_injected(libs: Seq<LibraryView>, lib: int, path: int)
    requires
        0 <= lib < libs.len(),
        0 <= path < libs[lib].include_paths.len(),
    ensures
        has_substring("-I"@ + libs[lib].include_paths[path] + " "@, include_flags(libs)),
    decreases libs.len(),
{
    let before = include_flags(libs.drop_last());
    let piece = flag_list("-I"@, libs.last().include_paths);
    let flag = "-I"@ + libs[lib].include_paths[path] + " "@;
    if lib == libs.len() - 1 {
        lemma_flag_in_list("-I"@, libs.last().include_paths, path);
        lemma_piece_is_substring(before, piece, Seq::empty());
        assert(before + piece + Seq::<char>::empty() =~= before + piece);
        lemma_substring_transitive(flag, piece, before + piece);
    } else {
        law_every_include_path_is_injected(libs.drop_last(), lib, path);
        lemma_piece_is_substring(Seq::empty(), before, piece);
        assert(Seq::<char>::empty() + before + piece =~= before + piece);
        lemma_substring_transitive(flag, before, before + piece);
    }
}

/// Every link path of every injected library stands in the linker flags,
/// behind `-L` and before a space.
pub proof fn law_every_link_path_is_injected(libs: Seq<LibraryView>, lib: int, path: int)
    requires
        0 <= lib < libs.len(),
        0 <= path < libs[lib].link_paths.len(),
    ensures
        has_substring("-L"@ + libs[lib].link_paths[path] + " "@, link_flags(libs)),
    decreases libs.len(),
{
    let before = link_flags(libs.drop_last());
    let piece = flag_list("-L"@, libs.last().link_paths);
    let flag = "-L"@ + libs[lib].link_paths[path] + " "@;
    if lib == libs.len() - 1 {
        lemma_flag_in_list("-L"@, libs.last().link_paths, path);
        lemma_piece_is_substring(before, piece, Seq::empty());
        assert(before + piece + Seq::<char>::empty() =~= before + piece);
        lemma_substring_transitive(flag, piece, before + piece);
    } else {
        law_every_link_path_is_injected(libs.drop_last(), lib, path);
        lemma_piece_is_substring(Seq::empty(), before, piece);
        assert(Seq::<char>::empty() + before + piece =~= before + piece);
        lemma_substring_transitive(flag, before, before + piece);
    }
}

/// Whatever was injected, and into whatever environment, both dependency
/// variables are unset once the flags are cleared.
pub proof fn law_clearing_ends_the_injection(env: BuildEnvView, libs: Seq<LibraryView>)
    ensures
        env.with_dependency_flags(libs).without_dependency_flags().cppflags is None,
        env.with_dependency_flags(libs).without_dependency_flags().ldflags is None,
        env.with_dependency_flags(libs).without_dependency_flags()
            == env.without_dependency_flags(),
{
}

/// Where the compiler flags already hold the marker, forcing it changes
/// nothing: the value stays and nothing is saved.
pub proof fn law_forcing_present_marker_changes_nothing(env: BuildEnvView)
    requires
        env.has_pic(),
    ensures
        env.with_pic_forced() == env,
{
}

/// Where the marker is absent, forcing it appends it to the compiler
/// flags and saves their prior value; restoring then puts exactly that
/// value back, be it a value or the absence of one, and drops the save.
pub proof fn law_restoring_undoes_forcing(env: BuildEnvView)
    requires
        !env.has_pic(),
    ensures
        env.with_pic_forced().cflags == Some(value_or_empty(env.cflags) + " -fPIC"@),
        env.with_pic_forced().saved_cflags == Some(env.cflags),
        env.with_pic_forced().with_cflags_restored() == (BuildEnvView {
            saved_cflags: None,
            ..env
        }),
{
}

/// What is appended to the compiler flags is a space and the marker.
proof fn lemma_appended_marker()
    ensures
        " -fPIC"@ == " "@ + "-fPIC"@,
{
    reveal_strlit(" -fPIC");
    reveal_strlit("-fPIC");
    reveal_strlit(" ");
    assert(" -fPIC"@ =~= " "@ + "-fPIC"@);
}

/// After forcing, the marker is there; so forcing twice is forcing once.
pub proof fn law_forcing_is_idempotent(env: BuildEnvView)
    ensures
        env.with_pic_forced().has_pic(),
        env.with_pic_forced().with_pic_forced() == env.with_pic_forced(),
{
    if !env.has_pic() {
        let prior = value_or_empty(env.cflags);
        lemma_appended_marker();
        lemma_piece_is_substring(prior + " "@, "-fPIC"@, Seq::empty());
        assert(prior + " "@ + "-fPIC"@ + Seq::<char>::empty() =~= prior + (" "@ + "-fPIC"@));
        assert(has_substring("-fPIC"@, prior + " -fPIC"@));
    }
}

/// The search path only grows: what was there stays at its start, and the
/// new directory stands at its end.
pub proof fn law_search_path_only_grows(env: BuildEnvView, path: Seq<char>)
    ensures
        is_prefix(value_or_empty(env.pkg_config_path), value_or_empty(
            env.with_search_path(path).pkg_config_path,
        )),
        env.pkg_config_path is None ==> env.with_search_path(path).pkg_config_path == Some(path),
        env.pkg_config_path matches Some(value) ==> env.with_search_path(path).pkg_config_path
            == Some(value + ":"@ + path),
{
    let grown = value_or_empty(env.with_search_path(path).pkg_config_path);
    let prior = value_or_empty(env.pkg_config_path);
    assert(grown.subrange(0, prior.len() as int) =~= prior);
}

} // verus!
