//! What the library tells the user while it works.

use crate::errors::HostError;
use crate::paths::FsPath;
use vstd::prelude::*;

verus! {

/// An event for the host's notification sink. The names are those of the
/// toolchain's directory.
#[derive(Debug, PartialEq, Eq)]
pub enum Notification {
    LookingForToolchain(String),
    InstallingToolchain(String),
    UpdatingToolchain(String),
    UsingExistingToolchain(String),
    ToolchainDirectory(FsPath, String),
    InstalledToolchain(String),
    UpdateHashMatches,
    UninstallingToolchain(String),
    UninstalledToolchain(String),
    ToolchainNotInstalled(String),
    TelemetryCleanupError(HostError),
}

pub enum NotificationView {
    LookingForToolchain(Seq<char>),
    InstallingToolchain(Seq<char>),
    UpdatingToolchain(Seq<char>),
    UsingExistingToolchain(Seq<char>),
    ToolchainDirectory(Seq<Seq<char>>, Seq<char>),
    InstalledToolchain(Seq<char>),
    UpdateHashMatches,
    UninstallingToolchain(Seq<char>),
    UninstalledToolchain(Seq<char>),
    ToolchainNotInstalled(Seq<char>),
    TelemetryCleanupError(Seq<char>),
}

impl View for Notification {
    type V = NotificationView;

    open spec fn view(&self) -> NotificationView {
        match self {
            Notification::LookingForToolchain(n) => NotificationView::LookingForToolchain(n@),
            Notification::InstallingToolchain(n) => NotificationView::InstallingToolchain(n@),
            Notification::UpdatingToolchain(n) => NotificationView::UpdatingToolchain(n@),
            Notification::UsingExistingToolchain(n) => NotificationView::UsingExistingToolchain(n@),
            Notification::ToolchainDirectory(p, n) => NotificationView::ToolchainDirectory(p@, n@),
            Notification::InstalledToolchain(n) => NotificationView::InstalledToolchain(n@),
            Notification::UpdateHashMatches => NotificationView::UpdateHashMatches,
            Notification::UninstallingToolchain(n) => NotificationView::UninstallingToolchain(n@),
            Notification::UninstalledToolchain(n) => NotificationView::UninstalledToolchain(n@),
            Notification::ToolchainNotInstalled(n) => NotificationView::ToolchainNotInstalled(n@),
            Notification::TelemetryCleanupError(e) => NotificationView::TelemetryCleanupError(e@),
        }
    }
}

} // verus!
