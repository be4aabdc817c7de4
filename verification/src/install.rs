//! The ways to install a toolchain, which of them suits which kind of
//! toolchain, and what an installation attempt amounts to.

use crate::paths::{path_option, FsPath};
use vstd::prelude::*;

verus! {

/// What an installation attempt did.
#[derive(Clone, Copy, Debug, PartialEq, Eq, Structural)]
pub enum UpdateStatus {
    /// Nothing was installed before, and now something is.
    Installed,
    /// An installation was there, and it changed.
    Updated,
    /// Nothing changed.
    Unchanged,
}

/// The outcome of an attempt, from whether an installation was there before
/// and whether the installer changed anything.
pub open spec fn status_after(existed: bool, changed: bool) -> UpdateStatus {
    if !changed {
        UpdateStatus::Unchanged
    } else if existed {
        UpdateStatus::Updated
    } else {
        UpdateStatus::Installed
    }
}

pub fn classify(existed: bool, changed: bool) -> (status: UpdateStatus)
    ensures
        status == status_after(existed, changed),
        status is Installed <==> !existed && changed,
        status is Updated <==> existed && changed,
        status is Unchanged <==> !changed,
{
    if !changed {
        UpdateStatus::Unchanged
    } else if existed {
        UpdateStatus::Updated
    } else {
        UpdateStatus::Installed
    }
}

/// A name that the distribution's parser accepted.
#[derive(Debug, PartialEq, Eq)]
pub struct ToolchainDesc {
    /// The name as it was parsed.
    pub name: String,
    /// Whether the name follows a moving release rather than a pinned one.
    pub tracking: bool,
}

pub struct DescView {
    pub name: Seq<char>,
    pub tracking: bool,
}

impl View for ToolchainDesc {
    type V = DescView;

    open spec fn view(&self) -> DescView {
        DescView { name: self.name@, tracking: self.tracking }
    }
}

impl Clone for ToolchainDesc {
    fn clone(&self) -> (copy: Self)
        ensures
            copy@ == self@,
    {
        ToolchainDesc { name: self.name.clone(), tracking: self.tracking }
    }
}

/// Where a distribution install keeps what it downloads.
#[derive(Debug, PartialEq, Eq)]
pub struct DownloadCfg {
    pub download_dir: FsPath,
}

/// One way to put a toolchain in place.
#[derive(Debug, PartialEq, Eq)]
pub enum InstallMethod {
    /// Copy a directory.
    Copy(FsPath),
    /// Link to a directory.
    Link(FsPath),
    /// Unpack a local archive.
    Installer(FsPath),
    /// Fetch from the distribution server.
    Dist { desc: ToolchainDesc, update_hash: Option<FsPath>, download: DownloadCfg, force: bool },
}

pub enum InstallMethodView {
    Copy(Seq<Seq<char>>),
    Link(Seq<Seq<char>>),
    Installer(Seq<Seq<char>>),
    Dist { desc: DescView, update_hash: Option<Seq<Seq<char>>>, download_dir: Seq<Seq<char>>, force: bool },
}

impl View for InstallMethod {
    type V = InstallMethodView;

    open spec fn view(&self) -> InstallMethodView {
        match self {
            InstallMethod::Copy(src) => InstallMethodView::Copy(src@),
            InstallMethod::Link(src) => InstallMethodView::Link(src@),
            InstallMethod::Installer(archive) => InstallMethodView::Installer(archive@),
            InstallMethod::Dist { desc, update_hash, download, force } => InstallMethodView::Dist {
                desc: desc@,
                update_hash: path_option(*update_hash),
                download_dir: download.download_dir@,
                force: *force,
            },
        }
    }
}

impl InstallMethodView {
    /// Copying, linking and unpacking an archive install custom toolchains;
    /// the distribution server installs all others.
    pub open spec fn is_for_custom(self) -> bool {
        !(self is Dist)
    }

    /// Whether this method may install a toolchain that is, or is not, custom.
    pub open spec fn suits(self, custom: bool) -> bool {
        self.is_for_custom() == custom
    }
}

impl InstallMethod {
    pub fn is_for_custom(&self) -> (custom: bool)
        ensures
            custom == self@.is_for_custom(),
    {
        match self {
            InstallMethod::Dist { .. } => false,
            _ => true,
        }
    }
}

/// An optional package of a distribution toolchain, as listings show it.
#[derive(Debug, PartialEq, Eq)]
pub struct ComponentStatus {
    pub component: String,
    pub required: bool,
    pub installed: bool,
    pub available: bool,
}

} // verus!
