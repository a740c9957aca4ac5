//! What holds of the handshake.

use vstd::prelude::*;

use crate::capabilities::InitializeParams;
use crate::negotiate::handshake;
use crate::negotiate::progress_token_request;

verus! {

/// The watcher is registered if and only if the client declared dynamic
/// registration of watched files and set it to `true`. Then it is
/// registered once; otherwise no registration is sent at all. The progress
/// token is reserved either way.
pub proof fn lemma_watcher_registered_iff_supported(params: InitializeParams)
    ensures
        params.supports_watch_files() <==> exists|i: int|
            0 <= i < handshake(params).len() && #[trigger] handshake(params)[i]
                is RegisterCapability,
        params.supports_watch_files() <==> (params.capabilities.workspace matches Some(workspace)
            && workspace.did_change_watched_files matches Some(watched_files)
            && watched_files.dynamic_registration == Some(true)),
        forall|i: int, j: int|
            0 <= i < handshake(params).len() && 0 <= j < handshake(params).len()
                && #[trigger] handshake(params)[i] is RegisterCapability
                && #[trigger] handshake(params)[j] is RegisterCapability ==> i == j,
        handshake(params)[0] == progress_token_request(),
{
    if params.supports_watch_files() {
        assert(handshake(params)[1] is RegisterCapability);
    }
}

} // verus!
