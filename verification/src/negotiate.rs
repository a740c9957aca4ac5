//! The start-up handshake: reserving a progress token and, where the client
//! allows it, asking to be told when the project configuration changes.

use vstd::prelude::*;

use crate::adapter::LanguageServerProtocolAdapter;
use crate::capabilities::InitializeParams;
use crate::message::RequestId;
use crate::message::RequestIdView;
use crate::outbound::Outbound;
use crate::outbound::OutboundView;
use crate::outbound::WatchKind;
use crate::outbound::WatcherRegistration;
use crate::outbound::WatcherRegistrationView;
use crate::router::DID_CHANGE_WATCHED_FILES;

verus! {

/// The token under which compilation progress is reported.
pub const COMPILING_PROGRESS_TOKEN: &'static str = "compiling-gleam";

/// The identifier of the request that reserves the progress token.
pub const CREATE_COMPILING_PROGRESS_TOKEN: &'static str = "create-compiling-progress-token";

/// The identifier of the watcher registration.
pub const WATCH_REGISTRATION_ID: &'static str = "watch-gleam-toml";

/// The glob pattern that matches the project configuration file.
pub const CONFIG_FILE_PATTERN: &'static str = "gleam.toml";

/// The identifier of the request that registers the watcher.
pub const REGISTER_REQUEST_ID: i32 = 1;

/// The request that reserves the progress token.
pub open spec fn progress_token_request() -> OutboundView {
    OutboundView::CreateProgressToken {
        id: RequestIdView::Text(CREATE_COMPILING_PROGRESS_TOKEN@),
        token: COMPILING_PROGRESS_TOKEN@,
    }
}

/// The request that registers a single watcher for changes to the project
/// configuration file.
pub open spec fn watch_request() -> OutboundView {
    OutboundView::RegisterCapability {
        id: RequestIdView::Number(REGISTER_REQUEST_ID),
        registration: WatcherRegistrationView {
            id: WATCH_REGISTRATION_ID@,
            method: DID_CHANGE_WATCHED_FILES@,
            glob_pattern: CONFIG_FILE_PATTERN@,
            kind: WatchKind::Change,
        },
    }
}

/// The requests of the handshake, in the order in which they are sent: the
/// progress token always, the watcher only where the client supports it.
pub open spec fn handshake(params: InitializeParams) -> Seq<OutboundView> {
    if params.supports_watch_files() {
        seq![progress_token_request(), watch_request()]
    } else {
        seq![progress_token_request()]
    }
}

impl LanguageServerProtocolAdapter {
    /// The request that registers the project configuration file as a
    /// watched file, so that the client reports when it changes. `None`
    /// where the client did not declare support for dynamic registration:
    /// the session then never learns of such a change.
    pub fn start_watching_gleam_toml(&self) -> (request: Option<Outbound>)
        ensures
            self@.params.supports_watch_files() ==> request is Some && request->0@
                == watch_request(),
            !self@.params.supports_watch_files() ==> request is None,
    {
        let supports_watch_files = self.initialise_params().watch_files_supported();
        if !supports_watch_files {
            return None;
        }
        let watch_config = WatcherRegistration {
            id: String::from_str(WATCH_REGISTRATION_ID),
            method: String::from_str(DID_CHANGE_WATCHED_FILES),
            glob_pattern: String::from_str(CONFIG_FILE_PATTERN),
            kind: WatchKind::Change,
        };
        Some(
            Outbound::RegisterCapability {
                id: RequestId::Number(REGISTER_REQUEST_ID),
                registration: watch_config,
            },
        )
    }

    /// The request that reserves the token for compilation progress. No
    /// answer to it is awaited.
    pub fn create_compilation_progress_token(&self) -> (request: Outbound)
        ensures
            request@ == progress_token_request(),
    {
        Outbound::CreateProgressToken {
            id: RequestId::Text(String::from_str(CREATE_COMPILING_PROGRESS_TOKEN)),
            token: String::from_str(COMPILING_PROGRESS_TOKEN),
        }
    }

    /// The requests of the handshake, in sending order.
    pub fn negotiate(&self) -> (requests: Vec<Outbound>)
        ensures
            requests.deep_view() == handshake(self@.params),
    {
        let mut requests: Vec<Outbound> = Vec::new();
        requests.push(self.create_compilation_progress_token());
        match self.start_watching_gleam_toml() {
            Some(request) => {
                requests.push(request);
            },
            None => {},
        }
        proof {
            assert(requests.deep_view() =~= handshake(self@.params));
        }
        requests
    }
}

} // verus!
