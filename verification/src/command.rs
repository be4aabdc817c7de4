//! The process that runs a binary of a toolchain: which program it is, and
//! what its environment says.

use crate::paths::{path_option, FsPath};
use crate::platform::Platform;
use crate::text::{
    decimal, ends_with, lemma_views_push, parse_u32, parse_u32_spec, text_option, to_decimal,
    views,
};
use crate::toolchain::{Toolchain, ToolchainView};
use vstd::prelude::*;
use vstd::string::StringExecFns;

verus! {

/// What the host read from the environment of its own process.
#[derive(Debug, PartialEq, Eq)]
pub struct HostEnv {
    /// The value of the variable that counts re-entrant invocations.
    pub recursion_count: Option<String>,
    /// The tool's home directory as the host discovers it, if it can.
    pub elan_home: Option<FsPath>,
}

pub struct HostEnvView {
    pub recursion_count: Option<Seq<char>>,
    pub elan_home: Option<Seq<Seq<char>>>,
}

impl View for HostEnv {
    type V = HostEnvView;

    open spec fn view(&self) -> HostEnvView {
        HostEnvView {
            recursion_count: text_option(self.recursion_count),
            elan_home: path_option(self.elan_home),
        }
    }
}

/// One change to the environment that a process inherits.
#[derive(Debug, PartialEq, Eq)]
pub enum EnvChange {
    /// Put directories, in this order, before those that a search-path
    /// variable lists already.
    Prepend(String, Vec<FsPath>),
    SetText(String, String),
    SetPath(String, FsPath),
}

pub enum EnvChangeView {
    Prepend(Seq<char>, Seq<Seq<Seq<char>>>),
    SetText(Seq<char>, Seq<char>),
    SetPath(Seq<char>, Seq<Seq<char>>),
}

impl View for EnvChange {
    type V = EnvChangeView;

    open spec fn view(&self) -> EnvChangeView {
        match self {
            EnvChange::Prepend(var, dirs) => EnvChangeView::Prepend(var@, views(dirs@)),
            EnvChange::SetText(var, value) => EnvChangeView::SetText(var@, value@),
            EnvChange::SetPath(var, value) => EnvChangeView::SetPath(var@, value@),
        }
    }
}

impl EnvChangeView {
    /// The variable that the change is made to.
    pub open spec fn var(self) -> Seq<char> {
        match self {
            EnvChangeView::Prepend(var, _) => var,
            EnvChangeView::SetText(var, _) => var,
            EnvChangeView::SetPath(var, _) => var,
        }
    }
}

/// A process to spawn: the program, and the changes to make to the
/// environment, the later ones over the earlier ones.
#[derive(Debug, PartialEq, Eq)]
pub struct CommandPlan {
    pub program: FsPath,
    pub env: Vec<EnvChange>,
}

pub struct CommandView {
    pub program: Seq<Seq<char>>,
    pub env: Seq<EnvChangeView>,
}

impl View for CommandPlan {
    type V = CommandView;

    open spec fn view(&self) -> CommandView {
        CommandView { program: self.program@, env: views(self.env@) }
    }
}

impl CommandPlan {
    pub fn new(program: FsPath) -> (cmd: CommandPlan)
        ensures
            cmd@ == (CommandView { program: program@, env: Seq::empty() }),
    {
        let cmd = CommandPlan { program, env: Vec::new() };
        assert(cmd@.env =~= Seq::empty());
        cmd
    }

    fn change(&mut self, change: EnvChange)
        ensures
            final(self)@ == (CommandView {
                program: old(self)@.program,
                env: old(self)@.env.push(change@),
            }),
    {
        proof {
            lemma_views_push(self.env@, change);
        }
        self.env.push(change);
    }

    /// Sets a variable to a text.
    pub fn env(&mut self, var: &str, value: &str)
        ensures
            final(self)@ == (CommandView {
                program: old(self)@.program,
                env: old(self)@.env.push(EnvChangeView::SetText(var@, value@)),
            }),
    {
        self.change(EnvChange::SetText(var.to_owned(), value.to_owned()));
    }

    /// Sets a variable to a path.
    pub fn env_path(&mut self, var: &str, value: &FsPath)
        ensures
            final(self)@ == (CommandView {
                program: old(self)@.program,
                env: old(self)@.env.push(EnvChangeView::SetPath(var@, value@)),
            }),
    {
        self.change(EnvChange::SetPath(var.to_owned(), value.clone()));
    }

    /// Puts directories before those that a search-path variable lists.
    pub fn prepend_path(&mut self, var: &str, dirs: Vec<FsPath>)
        ensures
            final(self)@ == (CommandView {
                program: old(self)@.program,
                env: old(self)@.env.push(EnvChangeView::Prepend(var@, views(dirs@))),
            }),
    {
        self.change(EnvChange::Prepend(var.to_owned(), dirs));
    }
}

/// The variable that counts re-entrant invocations.
pub open spec fn recursion_var() -> Seq<char> {
    "LEAN_RECURSION_COUNT"@
}

/// The depth that the counter variable holds: its number, and zero where the
/// variable is absent or holds no number.
pub open spec fn recursion_depth_spec(count: Option<Seq<char>>) -> u32 {
    match count {
        Some(text) => match parse_u32_spec(text) {
            Some(depth) => depth,
            None => 0,
        },
        None => 0,
    }
}

pub fn recursion_depth(env: &HostEnv) -> (depth: u32)
    ensures
        depth == recursion_depth_spec(env@.recursion_count),
{
    match &env.recursion_count {
        Some(text) => match parse_u32(text.as_str()) {
            Some(depth) => depth,
            None => 0,
        },
        None => 0,
    }
}

/// Sets the counter variable `var` to one more than `depth`.
pub fn inc(var: &str, depth: u32, cmd: &mut CommandPlan)
    ensures
        final(cmd)@ == (CommandView {
            program: old(cmd)@.program,
            env: old(cmd)@.env.push(EnvChangeView::SetText(var@, decimal(depth as nat + 1))),
        }),
{
    let next = to_decimal(depth as u64 + 1);
    cmd.env(var, next.as_str());
}

/// The lowercase form that `str::to_lowercase` gives a text.
pub uninterp spec fn lowercase(s: Seq<char>) -> Seq<char>;

/// Calls `str::to_lowercase`.
///
/// Trusted: the result depends on the text alone.
#[verifier::external_body]
fn to_lowercase(s: &str) -> (lower: String)
    ensures
        lower@ == lowercase(s@),
{
    s.to_lowercase()
}

/// The name of the file of a binary, given the lowercase form of the name
/// asked for: the name itself if it ends in the suffix of executables,
/// whatever the case of its letters, and the name with that suffix otherwise.
pub open spec fn file_name(binary: Seq<char>, lowered: Seq<char>, suffix: Seq<char>) -> Seq<char> {
    if suffix.is_suffix_of(lowered) {
        binary
    } else {
        binary + suffix
    }
}

pub fn with_suffix(binary: &str, lowered: &str, suffix: &str) -> (name: String)
    ensures
        name@ == file_name(binary@, lowered@, suffix@),
{
    if ends_with(lowered, suffix) {
        binary.to_owned()
    } else {
        binary.to_owned().concat(suffix)
    }
}

/// The name of the file of the binary that is asked for as `binary`.
pub fn executable_name(binary: &str, platform: Platform) -> (name: String)
    ensures
        name@ == file_name(binary@, lowercase(binary@), platform.exe_suffix_spec()),
{
    let lowered = to_lowercase(binary);
    with_suffix(binary, lowered.as_str(), platform.exe_suffix())
}

/// Where executables carry no suffix, every name is kept as it is.
pub proof fn lemma_name_kept_without_suffix(binary: Seq<char>, lowered: Seq<char>)
    ensures
        file_name(binary, lowered, Platform::Unix.exe_suffix_spec()) == binary,
        file_name(binary, lowered, Platform::MacOs.exe_suffix_spec()) == binary,
{
    reveal_strlit("");
    assert(""@ =~= lowered.subrange(lowered.len() - 0, lowered.len() as int));
}

impl ToolchainView {
    /// The directories that come first on the search path of a spawned
    /// process: the tool's own binaries, so that its proxies are found, and,
    /// where the directory of the spawned image is searched first, the
    /// toolchain's binaries.
    pub open spec fn search_dirs(self, elan_home: Option<Seq<Seq<char>>>) -> Seq<Seq<Seq<char>>> {
        let proxies = match elan_home {
            Some(home) => seq![home.push("bin"@)],
            None => Seq::empty(),
        };
        if self.cfg.platform is Windows {
            proxies.push(self.path.push("bin"@))
        } else {
            proxies
        }
    }

    /// The changes that let a spawned process find the toolchain's shared
    /// libraries and the tool's proxies.
    pub open spec fn ldpath_changes(self, env: HostEnvView) -> Seq<EnvChangeView> {
        seq![
            EnvChangeView::Prepend(
                self.cfg.platform.loader_path_var_spec(),
                seq![self.path.push("lib"@)],
            ),
            EnvChangeView::Prepend("PATH"@, self.search_dirs(env.elan_home)),
        ]
    }

    /// What the host's own idea of the tool's home contributes.
    pub open spec fn home_changes(self, env: HostEnvView) -> Seq<EnvChangeView> {
        match env.elan_home {
            Some(home) => seq![EnvChangeView::SetPath("ELAN_HOME"@, home)],
            None => Seq::empty(),
        }
    }

    /// All changes to the environment of a process that runs for this
    /// toolchain.
    pub open spec fn env_changes(self, env: HostEnvView) -> Seq<EnvChangeView> {
        self.ldpath_changes(env) + self.home_changes(env) + seq![
            EnvChangeView::SetText(
                recursion_var(),
                decimal(recursion_depth_spec(env.recursion_count) as nat + 1),
            ),
            EnvChangeView::SetText("ELAN_TOOLCHAIN"@, self.name),
            EnvChangeView::SetPath("ELAN_HOME"@, self.cfg.elan_dir),
        ]
    }

    /// The process that runs `program` for this toolchain.
    pub open spec fn command(self, program: Seq<Seq<char>>, env: HostEnvView) -> CommandView {
        CommandView { program, env: self.env_changes(env) }
    }
}

impl<'a> Toolchain<'a> {
    /// Puts the toolchain's libraries on the loader's path and the tool's
    /// proxies on the search path.
    pub fn set_ldpath(&self, cmd: &mut CommandPlan, env: &HostEnv)
        ensures
            final(cmd)@ == (CommandView {
                program: old(cmd)@.program,
                env: old(cmd)@.env + self@.ldpath_changes(env@),
            }),
    {
        let new_path = self.path().join("lib");
        let mut loader_entries: Vec<FsPath> = Vec::new();
        loader_entries.push(new_path);
        assert(views(loader_entries@) =~= seq![self@.path.push("lib"@)]);
        cmd.prepend_path(self.cfg().platform.loader_path_var(), loader_entries);

        let mut path_entries: Vec<FsPath> = Vec::new();
        assert(views(path_entries@) =~= Seq::empty());
        match &env.elan_home {
            Some(home) => {
                let proxies = home.join("bin");
                proof {
                    lemma_views_push(path_entries@, proxies);
                }
                path_entries.push(proxies);
            },
            None => {},
        }
        if self.cfg().platform.is_windows() {
            let binaries = self.path().join("bin");
            proof {
                lemma_views_push(path_entries@, binaries);
            }
            path_entries.push(binaries);
        }
        assert(views(path_entries@) =~= self@.search_dirs(env@.elan_home));
        cmd.prepend_path("PATH", path_entries);
        assert(cmd@.env =~= old(cmd)@.env + self@.ldpath_changes(env@));
    }

    /// Makes every change to the environment of a process that runs for this
    /// toolchain.
    pub fn set_env(&self, cmd: &mut CommandPlan, env: &HostEnv)
        ensures
            final(cmd)@ == (CommandView {
                program: old(cmd)@.program,
                env: old(cmd)@.env + self@.env_changes(env@),
            }),
    {
        self.set_ldpath(cmd, env);
        match &env.elan_home {
            Some(home) => {
                cmd.env_path("ELAN_HOME", home);
            },
            None => {},
        }
        inc("LEAN_RECURSION_COUNT", recursion_depth(env), cmd);
        cmd.env("ELAN_TOOLCHAIN", self.name());
        cmd.env_path("ELAN_HOME", &self.cfg().elan_dir);
        assert(cmd@.env =~= old(cmd)@.env + self@.env_changes(env@));
    }

    /// The process that runs `program` for this toolchain.
    pub fn command(&self, program: FsPath, env: &HostEnv) -> (cmd: CommandPlan)
        ensures
            cmd@ == self@.command(program@, env@),
    {
        let mut cmd = CommandPlan::new(program);
        self.set_env(&mut cmd, env);
        assert(cmd@.env =~= self@.env_changes(env@));
        cmd
    }
}

} // verus!
