//! Command backends for Windows nodes: developer command execution on a
//! user-attached machine, and a sandbox backend that refuses every command.
use crate::capability::Capability;
use vstd::prelude::*;

verus! {

#[derive(Clone, Copy, Debug, PartialEq, Eq, Structural)]
pub enum CommandBackendKind {
    WindowsCommandDev,
    StubbedWindowsSandbox,
}

#[derive(Clone, Copy, Debug, PartialEq, Eq, Structural)]
pub enum GuestRuntimeKind {
    Wasmtime,
}

/// A command that a task asks its node to run.
pub struct CommandInvocation {
    pub program: String,
    pub args: Vec<String>,
    pub working_directory: String,
    pub timeout_ms: u64,
}

/// How a backend would run a command.
#[derive(Clone, Copy, Debug, PartialEq, Eq, Structural)]
pub struct CommandPlan {
    pub guest_runtime: GuestRuntimeKind,
    pub backend: CommandBackendKind,
    pub required_capability: Capability,
    pub user_attached_development_execution: bool,
}

pub enum BackendError {
    Denied(String),
}

/// Runs commands natively on a Windows machine that a developer attached.
#[derive(Clone, Copy, Debug, Default)]
pub struct WindowsCommandDevBackend;

/// Stands in for a Windows sandbox, which does not exist yet.
#[derive(Clone, Copy, Debug, Default)]
pub struct WindowsSandboxStubBackend;

impl WindowsCommandDevBackend {
    pub fn kind(&self) -> (k: CommandBackendKind)
        ensures
            k == CommandBackendKind::WindowsCommandDev,
    {
        CommandBackendKind::WindowsCommandDev
    }

    /// Every command runs in Wasmtime as user-attached development
    /// execution, and needs the Windows developer command capability.
    pub fn plan(&self, _invocation: &CommandInvocation) -> (r: Result<CommandPlan, BackendError>)
        ensures
            r matches Ok(p) && p == (CommandPlan {
                guest_runtime: GuestRuntimeKind::Wasmtime,
                backend: CommandBackendKind::WindowsCommandDev,
                required_capability: Capability::WindowsCommandDev,
                user_attached_development_execution: true,
            }),
    {
        Ok(
            CommandPlan {
                guest_runtime: GuestRuntimeKind::Wasmtime,
                backend: CommandBackendKind::WindowsCommandDev,
                required_capability: Capability::WindowsCommandDev,
                user_attached_development_execution: true,
            },
        )
    }
}

impl WindowsSandboxStubBackend {
    pub fn kind(&self) -> (k: CommandBackendKind)
        ensures
            k == CommandBackendKind::StubbedWindowsSandbox,
    {
        CommandBackendKind::StubbedWindowsSandbox
    }

    /// Refuses every command, pointing at the developer backend.
    pub fn plan(&self, _invocation: &CommandInvocation) -> (r: Result<CommandPlan, BackendError>)
        ensures
            r matches Err(BackendError::Denied(m)) && m@
                == "Windows sandbox backend is an explicit stub for MVP; use windows-command-dev only for user-attached development execution"@,
    {
        Err(
            BackendError::Denied(
                "Windows sandbox backend is an explicit stub for MVP; use windows-command-dev only for user-attached development execution".to_owned(),
            ),
        )
    }
}

} // verus!
