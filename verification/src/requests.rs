//! The work that the library asks of its host, and the host's answers.

use crate::errors::HostError;
use crate::install::{InstallMethod, InstallMethodView};
use crate::paths::{FsPath, PathStatus};
use vstd::prelude::*;

verus! {

/// An event for the telemetry log.
#[derive(Debug, PartialEq, Eq)]
pub enum TelemetryEvent {
    ToolchainUpdate { toolchain: String, success: bool },
}

pub enum TelemetryEventView {
    ToolchainUpdate { toolchain: Seq<char>, success: bool },
}

impl View for TelemetryEvent {
    type V = TelemetryEventView;

    open spec fn view(&self) -> TelemetryEventView {
        match self {
            TelemetryEvent::ToolchainUpdate { toolchain, success } => {
                TelemetryEventView::ToolchainUpdate { toolchain: toolchain@, success: *success }
            },
        }
    }
}

/// One piece of work for the host. Each is answered by one [`Reply`]:
/// `Failed` where the work failed, and otherwise the reply named here.
#[derive(Debug, PartialEq, Eq)]
pub enum Request {
    /// Look at a path. Answered by `Status`; never fails.
    Probe(FsPath),
    /// Give the file that holds the update hash of the named toolchain,
    /// creating the directory it lies in. Answered by `Path`.
    HashFile(String),
    /// Delete the update hash file. Answered by `Done`.
    RemoveUpdateHash(FsPath),
    /// Delete a file. Answered by `Done`.
    RemoveFile(FsPath),
    /// Remove the installation in a directory. Answered by `Done`.
    Uninstall(FsPath),
    /// Install into a directory by a method. Answered by `Flag`: whether
    /// anything changed.
    Install(InstallMethod, FsPath),
    /// Create a temporary file whose name has a prefix and an extension.
    /// Answered by `Path`.
    TempFile(String, String),
    /// Download a URL to a file. Answered by `Done`.
    Download(String, FsPath),
    /// Make a path absolute. Answered by `Path`.
    Absolute(FsPath),
    /// Say whether telemetry is switched on. Answered by `Flag`.
    TelemetryEnabled,
    /// Append an event to the telemetry log kept in a directory. Answered by
    /// `Done`.
    LogTelemetry(FsPath, TelemetryEvent),
    /// Create a directory and those above it. Answered by `Done`.
    CreateDirAll(FsPath),
    /// Make the second path a hard link to the first. Answered by `Done`.
    HardLink(FsPath, FsPath),
    /// Persist the named toolchain as the default. Answered by `Done`.
    SetDefault(String),
    /// Persist the named toolchain as the override for a directory. Answered
    /// by `Done`.
    AddOverride(FsPath, String),
    /// Show a file in the browser. Answered by `Done`.
    OpenBrowser(FsPath),
}

pub enum RequestView {
    Probe(Seq<Seq<char>>),
    HashFile(Seq<char>),
    RemoveUpdateHash(Seq<Seq<char>>),
    RemoveFile(Seq<Seq<char>>),
    Uninstall(Seq<Seq<char>>),
    Install(InstallMethodView, Seq<Seq<char>>),
    TempFile(Seq<char>, Seq<char>),
    Download(Seq<char>, Seq<Seq<char>>),
    Absolute(Seq<Seq<char>>),
    TelemetryEnabled,
    LogTelemetry(Seq<Seq<char>>, TelemetryEventView),
    CreateDirAll(Seq<Seq<char>>),
    HardLink(Seq<Seq<char>>, Seq<Seq<char>>),
    SetDefault(Seq<char>),
    AddOverride(Seq<Seq<char>>, Seq<char>),
    OpenBrowser(Seq<Seq<char>>),
}

impl View for Request {
    type V = RequestView;

    open spec fn view(&self) -> RequestView {
        match self {
            Request::Probe(p) => RequestView::Probe(p@),
            Request::HashFile(n) => RequestView::HashFile(n@),
            Request::RemoveUpdateHash(p) => RequestView::RemoveUpdateHash(p@),
            Request::RemoveFile(p) => RequestView::RemoveFile(p@),
            Request::Uninstall(p) => RequestView::Uninstall(p@),
            Request::Install(m, p) => RequestView::Install(m@, p@),
            Request::TempFile(prefix, extension) => RequestView::TempFile(prefix@, extension@),
            Request::Download(url, p) => RequestView::Download(url@, p@),
            Request::Absolute(p) => RequestView::Absolute(p@),
            Request::TelemetryEnabled => RequestView::TelemetryEnabled,
            Request::LogTelemetry(dir, event) => RequestView::LogTelemetry(dir@, event@),
            Request::CreateDirAll(p) => RequestView::CreateDirAll(p@),
            Request::HardLink(from, to) => RequestView::HardLink(from@, to@),
            Request::SetDefault(n) => RequestView::SetDefault(n@),
            Request::AddOverride(p, n) => RequestView::AddOverride(p@, n@),
            Request::OpenBrowser(p) => RequestView::OpenBrowser(p@),
        }
    }
}

impl RequestView {
    /// Whether the work changes what is installed: the toolchain's directory
    /// or its update hash.
    pub open spec fn changes_installation(self) -> bool {
        self is Install || self is Uninstall || self is RemoveUpdateHash
    }
}

/// The host's answer to a request.
#[derive(Debug, PartialEq, Eq)]
pub enum Reply {
    Status(PathStatus),
    Done,
    Flag(bool),
    Path(FsPath),
    Failed(HostError),
}

pub enum ReplyView {
    Status(PathStatus),
    Done,
    Flag(bool),
    Path(Seq<Seq<char>>),
    Failed(Seq<char>),
}

impl View for Reply {
    type V = ReplyView;

    open spec fn view(&self) -> ReplyView {
        match self {
            Reply::Status(s) => ReplyView::Status(*s),
            Reply::Done => ReplyView::Done,
            Reply::Flag(b) => ReplyView::Flag(*b),
            Reply::Path(p) => ReplyView::Path(p@),
            Reply::Failed(e) => ReplyView::Failed(e@),
        }
    }
}

} // verus!
