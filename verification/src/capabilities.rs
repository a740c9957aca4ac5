//! The part of the client's initialisation parameters that this layer reads.

use vstd::prelude::*;

verus! {

/// What the client declares about `workspace/didChangeWatchedFiles`.
#[derive(Clone, Copy, Debug, PartialEq, Eq, Structural)]
pub struct DidChangeWatchedFilesClientCapabilities {
    /// Whether the client lets the server register watchers after start-up.
    pub dynamic_registration: Option<bool>,
}

/// Workspace capabilities of the client.
#[derive(Clone, Copy, Debug, PartialEq, Eq, Structural)]
pub struct WorkspaceClientCapabilities {
    pub did_change_watched_files: Option<DidChangeWatchedFilesClientCapabilities>,
}

/// Capabilities of the client.
#[derive(Clone, Copy, Debug, PartialEq, Eq, Structural)]
pub struct ClientCapabilities {
    pub workspace: Option<WorkspaceClientCapabilities>,
}

/// The snapshot of the client's initialisation parameters.
#[derive(Clone, Copy, Debug, PartialEq, Eq, Structural)]
pub struct InitializeParams {
    pub capabilities: ClientCapabilities,
}

impl InitializeParams {
    /// Whether the client declared, and switched on, dynamic registration of
    /// watched files. Anything short of an explicit `true` counts as no.
    pub open spec fn supports_watch_files(self) -> bool {
        &&& self.capabilities.workspace matches Some(workspace)
        &&& workspace.did_change_watched_files matches Some(watched_files)
        &&& watched_files.dynamic_registration == Some(true)
    }

    /// Computes [`Self::supports_watch_files`].
    pub fn watch_files_supported(&self) -> (supported: bool)
        ensures
            supported == self.supports_watch_files(),
    {
        match self.capabilities.workspace {
            Some(workspace) => match workspace.did_change_watched_files {
                Some(watched_files) => match watched_files.dynamic_registration {
                    Some(enabled) => enabled,
                    None => false,
                },
                None => false,
            },
            None => false,
        }
    }
}

} // verus!
