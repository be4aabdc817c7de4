//! What can go wrong, and the failures that the host reports.

use crate::paths::FsPath;
use vstd::prelude::*;

verus! {

/// A failure of work that the host did: installing, removing, downloading,
/// persisting settings. The library hands it on and never looks inside.
#[derive(Debug, PartialEq, Eq)]
pub struct HostError {
    pub message: String,
}

impl View for HostError {
    type V = Seq<char>;

    open spec fn view(&self) -> Seq<char> {
        self.message@
    }
}

impl Clone for HostError {
    fn clone(&self) -> (copy: Self)
        ensures
            copy@ == self@,
    {
        HostError { message: self.message.clone() }
    }
}

/// The steps that set up the hard link of a fallback executable.
#[derive(Clone, Copy, Debug, PartialEq, Eq, Structural)]
pub enum FallbackStep {
    CreateDir,
    Unlink,
    HardLink,
}

impl FallbackStep {
    pub open spec fn message_spec(self) -> Seq<char> {
        match self {
            FallbackStep::CreateDir => "unable to create dir to hold fallback exe"@,
            FallbackStep::Unlink => "unable to unlink old fallback exe"@,
            FallbackStep::HardLink => "unable to hard link fallback exe"@,
        }
    }

    /// What a failure of this step is reported as.
    pub fn message(self) -> (text: &'static str)
        ensures
            text@ == self.message_spec(),
    {
        match self {
            FallbackStep::CreateDir => "unable to create dir to hold fallback exe",
            FallbackStep::Unlink => "unable to unlink old fallback exe",
            FallbackStep::HardLink => "unable to hard link fallback exe",
        }
    }
}

#[derive(Debug, PartialEq, Eq)]
pub enum Error {
    /// The operation needs an installation that is not there.
    ToolchainNotInstalled(String),
    /// An operation for custom toolchains was asked of one that is not custom.
    InvalidCustomOperation(String),
    /// An installer whose extension is not that of a supported archive.
    BadInstallerType(String),
    /// The toolchain has no such binary, and the recursion guard forbids
    /// looking for it on the search path.
    BinaryNotFound(String, String),
    NotADirectory(FsPath),
    NotAFile(FsPath),
    /// A step of the fallback setup failed.
    Fallback(FallbackStep, HostError),
    /// The host's work failed; the failure is handed on as it came.
    Host(HostError),
    /// The host answered a request with a reply of another kind.
    UnexpectedReply,
}

pub enum ErrorView {
    ToolchainNotInstalled(Seq<char>),
    InvalidCustomOperation(Seq<char>),
    BadInstallerType(Seq<char>),
    BinaryNotFound(Seq<char>, Seq<char>),
    NotADirectory(Seq<Seq<char>>),
    NotAFile(Seq<Seq<char>>),
    Fallback(FallbackStep, Seq<char>),
    Host(Seq<char>),
    UnexpectedReply,
}

impl View for Error {
    type V = ErrorView;

    open spec fn view(&self) -> ErrorView {
        match self {
            Error::ToolchainNotInstalled(name) => ErrorView::ToolchainNotInstalled(name@),
            Error::InvalidCustomOperation(name) => ErrorView::InvalidCustomOperation(name@),
            Error::BadInstallerType(extension) => ErrorView::BadInstallerType(extension@),
            Error::BinaryNotFound(name, binary) => ErrorView::BinaryNotFound(name@, binary@),
            Error::NotADirectory(path) => ErrorView::NotADirectory(path@),
            Error::NotAFile(path) => ErrorView::NotAFile(path@),
            Error::Fallback(step, cause) => ErrorView::Fallback(*step, cause@),
            Error::Host(cause) => ErrorView::Host(cause@),
            Error::UnexpectedReply => ErrorView::UnexpectedReply,
        }
    }
}

} // verus!
