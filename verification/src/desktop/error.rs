//! Errors of the desktop services.

use vstd::prelude::*;

verus! {

/// The error class a desktop service reports.
#[derive(Debug, Clone, Copy, PartialEq, Eq, Structural, Hash)]
pub enum ErrorCode {
    InvalidArgument,
    NotFound,
    StaleRevision,
    Unavailable,
    Busy,
    EngineRejected,
    Unsupported,
}

/// Why a desktop service refused a request.
#[derive(Debug, Clone, Copy, PartialEq, Eq, Structural, Hash)]
pub enum DesktopError {
    InvalidWindowRef,
    WindowNotManaged,
    StaleWindowGeneration,
    InvalidGeometry,
    WorkAreaUnavailable,
    WorkAreaInvalid,
    WorkspaceRevisionChanged,
    WorkspaceOutOfRange,
    NoAtomicWorkspaceSwitch,
    ModeTransactionPending,
    ModeNotActive,
    ModeRejected,
    OutputNotFound,
    ModeTransactionNotFound,
    ModeRollbackRejected,
}

impl DesktopError {
    /// The class of the error.
    pub fn code(self) -> (r: ErrorCode)
        ensures
            r == (match self {
                DesktopError::InvalidWindowRef | DesktopError::InvalidGeometry
                | DesktopError::WorkspaceOutOfRange | DesktopError::ModeNotActive => ErrorCode::InvalidArgument,
                DesktopError::WindowNotManaged | DesktopError::OutputNotFound
                | DesktopError::ModeTransactionNotFound => ErrorCode::NotFound,
                DesktopError::StaleWindowGeneration | DesktopError::WorkspaceRevisionChanged => ErrorCode::StaleRevision,
                DesktopError::WorkAreaUnavailable | DesktopError::WorkAreaInvalid => ErrorCode::Unavailable,
                DesktopError::ModeTransactionPending => ErrorCode::Busy,
                DesktopError::ModeRejected | DesktopError::ModeRollbackRejected => ErrorCode::EngineRejected,
                DesktopError::NoAtomicWorkspaceSwitch => ErrorCode::Unsupported,
            }),
    {
        match self {
            DesktopError::InvalidWindowRef | DesktopError::InvalidGeometry
            | DesktopError::WorkspaceOutOfRange | DesktopError::ModeNotActive => ErrorCode::InvalidArgument,
            DesktopError::WindowNotManaged | DesktopError::OutputNotFound
            | DesktopError::ModeTransactionNotFound => ErrorCode::NotFound,
            DesktopError::StaleWindowGeneration | DesktopError::WorkspaceRevisionChanged => ErrorCode::StaleRevision,
            DesktopError::WorkAreaUnavailable | DesktopError::WorkAreaInvalid => ErrorCode::Unavailable,
            DesktopError::ModeTransactionPending => ErrorCode::Busy,
            DesktopError::ModeRejected | DesktopError::ModeRollbackRejected => ErrorCode::EngineRejected,
            DesktopError::NoAtomicWorkspaceSwitch => ErrorCode::Unsupported,
        }
    }

    /// The message reported with the error.
    pub fn message(self) -> (r: &'static str)
        ensures
            r@ == (match self {
                DesktopError::InvalidWindowRef => "window reference is invalid"@,
                DesktopError::WindowNotManaged => "window is not managed by X server"@,
                DesktopError::StaleWindowGeneration => "X11 backend has no matching window generation"@,
                DesktopError::InvalidGeometry => "window geometry is invalid"@,
                DesktopError::WorkAreaUnavailable => "root _NET_WORKAREA is unavailable"@,
                DesktopError::WorkAreaInvalid => "root _NET_WORKAREA is invalid"@,
                DesktopError::WorkspaceRevisionChanged => "workspace revision changed"@,
                DesktopError::WorkspaceOutOfRange => "workspace index is outside topology"@,
                DesktopError::NoAtomicWorkspaceSwitch => "X11 EWMH has no atomic workspace-and-window transaction"@,
                DesktopError::ModeTransactionPending => "RandR mode transaction already pending"@,
                DesktopError::ModeNotActive => "RandR output or mode is not active"@,
                DesktopError::ModeRejected => "RandR rejected mode change"@,
                DesktopError::OutputNotFound => "RandR output not found"@,
                DesktopError::ModeTransactionNotFound => "RandR mode transaction not found"@,
                DesktopError::ModeRollbackRejected => "RandR rejected mode rollback"@,
            }),
    {
        match self {
            DesktopError::InvalidWindowRef => "window reference is invalid",
            DesktopError::WindowNotManaged => "window is not managed by X server",
            DesktopError::StaleWindowGeneration => "X11 backend has no matching window generation",
            DesktopError::InvalidGeometry => "window geometry is invalid",
            DesktopError::WorkAreaUnavailable => "root _NET_WORKAREA is unavailable",
            DesktopError::WorkAreaInvalid => "root _NET_WORKAREA is invalid",
            DesktopError::WorkspaceRevisionChanged => "workspace revision changed",
            DesktopError::WorkspaceOutOfRange => "workspace index is outside topology",
            DesktopError::NoAtomicWorkspaceSwitch => "X11 EWMH has no atomic workspace-and-window transaction",
            DesktopError::ModeTransactionPending => "RandR mode transaction already pending",
            DesktopError::ModeNotActive => "RandR output or mode is not active",
            DesktopError::ModeRejected => "RandR rejected mode change",
            DesktopError::OutputNotFound => "RandR output not found",
            DesktopError::ModeTransactionNotFound => "RandR mode transaction not found",
            DesktopError::ModeRollbackRejected => "RandR rejected mode rollback",
        }
    }
}

} // verus!
