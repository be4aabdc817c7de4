//! A toolchain: its names, its directory, its kind, and the paths inside it.

use crate::errors::{Error, ErrorView, HostError};
use crate::install::{DescView, DownloadCfg, InstallMethod, ToolchainDesc};
use crate::naming::{lemma_sanitized_is_clean, sanitize, sanitized};
use crate::paths::{FsPath, PathStatus};
use crate::platform::Platform;
use crate::requests::{Request, RequestView};
use vstd::prelude::*;
use vstd::string::StringExecFns;

verus! {

/// What the library knows of its surroundings.
#[derive(Debug, PartialEq, Eq)]
pub struct Cfg {
    /// The directory that holds one directory per toolchain.
    pub toolchains_dir: FsPath,
    /// The home directory of the tool itself.
    pub elan_dir: FsPath,
    /// Where distribution installs keep what they download.
    pub download_dir: FsPath,
    pub platform: Platform,
    /// The depth of re-entrant invocations at which a binary that a toolchain
    /// lacks is no longer looked for on the search path.
    pub recursion_limit: u32,
}

pub struct CfgView {
    pub toolchains_dir: Seq<Seq<char>>,
    pub elan_dir: Seq<Seq<char>>,
    pub download_dir: Seq<Seq<char>>,
    pub platform: Platform,
    pub recursion_limit: u32,
}

impl View for Cfg {
    type V = CfgView;

    open spec fn view(&self) -> CfgView {
        CfgView {
            toolchains_dir: self.toolchains_dir@,
            elan_dir: self.elan_dir@,
            download_dir: self.download_dir@,
            platform: self.platform,
            recursion_limit: self.recursion_limit,
        }
    }
}

/// A fully resolved reference to a toolchain, which may or may not be
/// installed.
pub struct Toolchain<'a> {
    pub(crate) cfg: &'a Cfg,
    pub(crate) name: String,
    pub(crate) raw_name: String,
    pub(crate) path: FsPath,
    pub(crate) telemetry: FsPath,
    pub(crate) parsed: Result<ToolchainDesc, HostError>,
}

pub struct ToolchainView {
    pub cfg: CfgView,
    /// The name of the toolchain's directory.
    pub name: Seq<char>,
    /// The name as the user gave it.
    pub raw_name: Seq<char>,
    /// The toolchain's directory.
    pub path: Seq<Seq<char>>,
    /// The directory of the telemetry log.
    pub telemetry: Seq<Seq<char>>,
    /// What the distribution's parser made of the raw name.
    pub parsed: Result<DescView, Seq<char>>,
}

impl<'a> View for Toolchain<'a> {
    type V = ToolchainView;

    closed spec fn view(&self) -> ToolchainView {
        ToolchainView {
            cfg: self.cfg@,
            name: self.name@,
            raw_name: self.raw_name@,
            path: self.path@,
            telemetry: self.telemetry@,
            parsed: match self.parsed {
                Ok(desc) => Ok(desc@),
                Err(e) => Err(e@),
            },
        }
    }
}

impl ToolchainView {
    /// The directory name is the sanitized raw name, and the directory lies
    /// directly under the directory of all toolchains.
    pub open spec fn wf(self) -> bool {
        &&& self.name == sanitized(self.raw_name)
        &&& self.path == self.cfg.toolchains_dir.push(self.name)
        &&& self.telemetry == self.cfg.elan_dir.push("telemetry"@)
    }

    /// A toolchain is custom if the distribution's parser rejects its name.
    pub open spec fn is_custom(self) -> bool {
        self.parsed is Err
    }

    pub open spec fn is_tracking(self) -> bool {
        self.parsed matches Ok(desc) && desc.tracking
    }

    /// What the host found at the toolchain's directory counts as an
    /// installation: a directory or, where a linked installation is a
    /// symbolic link that a directory test does not follow, such a link.
    pub open spec fn is_installed(self, status: PathStatus) -> bool {
        status.is_directory || (self.cfg.platform is Windows && status.is_symlink)
    }

    pub open spec fn binary_file(self, name: Seq<char>) -> Seq<Seq<char>> {
        self.path.push("bin"@).push(name + self.cfg.platform.exe_suffix_spec())
    }

    /// The relative layout of the documentation under the toolchain's
    /// directory.
    pub open spec fn doc_file(self, relative: Seq<char>) -> Seq<Seq<char>> {
        self.path + seq!["share"@, "doc"@, "lean"@, "html"@, relative]
    }

    pub open spec fn doc_path(self, relative: Seq<char>, status: PathStatus) -> Result<
        Seq<Seq<char>>,
        ErrorView,
    > {
        if status.is_directory {
            Ok(self.doc_file(relative))
        } else {
            Err(ErrorView::NotADirectory(self.path))
        }
    }
}

pub open spec fn path_result(r: Result<FsPath, Error>) -> Result<Seq<Seq<char>>, ErrorView> {
    match r {
        Ok(p) => Ok(p@),
        Err(e) => Err(e@),
    }
}

pub open spec fn request_result(r: Result<Request, Error>) -> Result<RequestView, ErrorView> {
    match r {
        Ok(q) => Ok(q@),
        Err(e) => Err(e@),
    }
}

pub open spec fn unit_result(r: Result<(), Error>) -> Result<(), ErrorView> {
    match r {
        Ok(_) => Ok(()),
        Err(e) => Err(e@),
    }
}

impl<'a> Toolchain<'a> {
    /// Every toolchain is well formed, from its resolution on.
    #[verifier::type_invariant]
    closed spec fn inv(self) -> bool {
        self@.wf()
    }

    /// Resolves the toolchain that the user calls `name`. `parsed` is what
    /// the distribution's parser made of `name`. Nothing on disk is touched,
    /// and every name is accepted.
    pub fn from(cfg: &'a Cfg, name: &str, parsed: Result<ToolchainDesc, HostError>) -> (toolchain:
        Result<Toolchain<'a>, Error>)
        ensures
            toolchain matches Ok(t) && t@.wf() && t@.cfg == cfg@ && t@.raw_name == name@
                && t@.parsed == match parsed {
                Ok(desc) => Ok::<DescView, Seq<char>>(desc@),
                Err(e) => Err(e@),
            },
            toolchain matches Ok(t) && !t@.name.contains(':') && !t@.name.contains('/'),
    {
        proof {
            lemma_sanitized_is_clean(name@);
        }
        let sane_name = sanitize(name);
        let path = cfg.toolchains_dir.join(sane_name.as_str());
        Ok(
            Toolchain {
                cfg,
                name: sane_name,
                raw_name: name.to_owned(),
                path,
                telemetry: cfg.elan_dir.join("telemetry"),
                parsed,
            },
        )
    }

    /// The name of the toolchain's directory: the raw name, sanitized.
    pub fn name(&self) -> (name: &str)
        ensures
            name@ == self@.name,
            name@ == sanitized(self@.raw_name),
            !name@.contains(':'),
            !name@.contains('/'),
    {
        proof {
            use_type_invariant(self);
            lemma_sanitized_is_clean(self@.raw_name);
        }
        self.name.as_str()
    }

    pub fn raw_name(&self) -> (name: &str)
        ensures
            name@ == self@.raw_name,
    {
        self.raw_name.as_str()
    }

    /// The toolchain's directory, directly under the directory of all
    /// toolchains.
    pub fn path(&self) -> (path: &FsPath)
        ensures
            path@ == self@.path,
            path@ == self@.cfg.toolchains_dir.push(self@.name),
    {
        proof {
            use_type_invariant(self);
        }
        &self.path
    }

    pub fn cfg(&self) -> (cfg: &Cfg)
        ensures
            cfg@ == self@.cfg,
    {
        self.cfg
    }

    /// The directory of the telemetry log.
    pub fn telemetry_dir(&self) -> (dir: &FsPath)
        ensures
            dir@ == self@.telemetry,
            dir@ == self@.cfg.elan_dir.push("telemetry"@),
    {
        proof {
            use_type_invariant(self);
        }
        &self.telemetry
    }

    /// The parsed name; for a custom toolchain, the parser's refusal.
    pub fn desc(&self) -> (desc: Result<ToolchainDesc, Error>)
        ensures
            match desc {
                Ok(d) => self@.parsed == Ok::<DescView, Seq<char>>(d@),
                Err(e) => self@.parsed is Err && e@ == ErrorView::Host(self@.parsed->Err_0),
            },
    {
        match &self.parsed {
            Ok(d) => Ok(d.clone()),
            Err(e) => Err(Error::Host(e.clone())),
        }
    }

    pub fn is_custom(&self) -> (custom: bool)
        ensures
            custom == self@.is_custom(),
    {
        self.parsed.is_err()
    }

    pub fn is_tracking(&self) -> (tracking: bool)
        ensures
            tracking == self@.is_tracking(),
    {
        match &self.parsed {
            Ok(d) => d.tracking,
            Err(_) => false,
        }
    }

    /// Whether the toolchain is installed, given what the host found at its
    /// directory.
    pub fn is_installed(&self, status: PathStatus) -> (installed: bool)
        ensures
            installed == self@.is_installed(status),
    {
        status.is_directory || (self.cfg.platform.is_windows() && status.is_symlink)
    }

    /// Succeeds if the toolchain's directory is a real directory, given what
    /// the host found there.
    pub fn verify(&self, status: PathStatus) -> (verified: Result<(), Error>)
        ensures
            unit_result(verified) == if status.is_directory {
                Ok::<(), ErrorView>(())
            } else {
                Err(ErrorView::NotADirectory(self@.path))
            },
    {
        if status.is_directory {
            Ok(())
        } else {
            Err(Error::NotADirectory(self.path.clone()))
        }
    }

    /// Whether `method` may install this toolchain.
    pub fn is_valid_install_method(&self, method: &InstallMethod) -> (valid: bool)
        ensures
            valid == method@.suits(self@.is_custom()),
            valid <==> (method@ is Dist <==> !self@.is_custom()),
    {
        method.is_for_custom() == self.is_custom()
    }

    /// Refuses a toolchain that is not custom.
    pub fn ensure_custom(&self) -> (custom: Result<(), Error>)
        ensures
            unit_result(custom) == if self@.is_custom() {
                Ok::<(), ErrorView>(())
            } else {
                Err(ErrorView::InvalidCustomOperation(self@.name))
            },
    {
        if !self.is_custom() {
            Err(Error::InvalidCustomOperation(self.name.clone()))
        } else {
            Ok(())
        }
    }

    pub fn download_cfg(&self) -> (download: DownloadCfg)
        ensures
            download.download_dir@ == self@.cfg.download_dir,
    {
        DownloadCfg { download_dir: self.cfg.download_dir.clone() }
    }

    /// The path of a file of the toolchain's documentation, given what the
    /// host found at the toolchain's directory.
    pub fn doc_path(&self, relative: &str, status: PathStatus) -> (doc: Result<FsPath, Error>)
        ensures
            path_result(doc) == self@.doc_path(relative@, status),
    {
        match self.verify(status) {
            Err(e) => Err(e),
            Ok(_) => {
                let mut doc_dir = self.path.clone();
                doc_dir.push("share");
                doc_dir.push("doc");
                doc_dir.push("lean");
                doc_dir.push("html");
                doc_dir.push(relative);
                assert(doc_dir@ =~= self@.doc_file(relative@));
                Ok(doc_dir)
            },
        }
    }

    /// The request that shows a file of the documentation, given what the
    /// host found at the toolchain's directory.
    pub fn open_docs(&self, relative: &str, status: PathStatus) -> (request: Result<
        Request,
        Error,
    >)
        ensures
            request_result(request) == match self@.doc_path(relative@, status) {
                Ok(doc) => Ok::<RequestView, ErrorView>(RequestView::OpenBrowser(doc)),
                Err(e) => Err(e),
            },
    {
        match self.doc_path(relative, status) {
            Ok(doc) => Ok(Request::OpenBrowser(doc)),
            Err(e) => Err(e),
        }
    }

    /// The request that makes this toolchain the default.
    pub fn make_default(&self) -> (request: Request)
        ensures
            request@ == RequestView::SetDefault(self@.name),
    {
        Request::SetDefault(self.name.clone())
    }

    /// The request that makes this toolchain the override for a directory.
    pub fn make_override(&self, path: &FsPath) -> (request: Request)
        ensures
            request@ == RequestView::AddOverride(path@, self@.name),
    {
        Request::AddOverride(path.clone(), self.name.clone())
    }

    /// The path of a binary of the toolchain, whether it is there or not.
    pub fn binary_file(&self, name: &str) -> (path: FsPath)
        ensures
            path@ == self@.binary_file(name@),
    {
        let mut path = self.path.clone();
        path.push("bin");
        let file = name.to_owned().concat(self.cfg.platform.exe_suffix());
        path.push(file.as_str());
        path
    }
}

} // verus!
