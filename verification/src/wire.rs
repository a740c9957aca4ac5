//! The wire form of outbound messages: a method name and parameters as JSON
//! text, written by `lsp_types` and `serde_json`.

use vstd::prelude::*;

use crate::message::RequestId;
use crate::message::RequestIdView;
use crate::outbound::LspDiagnostic;
use crate::outbound::LspDiagnosticView;
use crate::outbound::Outbound;
use crate::outbound::OutboundView;

verus! {

pub const CREATE_PROGRESS: &'static str = "window/workDoneProgress/create";

pub const REGISTER_CAPABILITY: &'static str = "client/registerCapability";

pub const PUBLISH_DIAGNOSTICS: &'static str = "textDocument/publishDiagnostics";

pub const SHOW_MESSAGE: &'static str = "window/showMessage";

/// The scheme and empty authority that turn an absolute path into a URI.
pub const FILE_SCHEME: &'static str = "file://";

/// A message ready for the transport.
#[derive(Clone, Debug, PartialEq, Eq)]
pub enum WireMessage {
    Request { id: RequestId, method: String, params: String },
    Notification { method: String, params: String },
    /// A successful response; `result` is JSON text.
    Response { id: RequestId, result: String },
}

/// What a [`WireMessage`] stands for in contracts.
pub ghost enum WireMessageView {
    Request { id: RequestIdView, method: Seq<char>, params: Seq<char> },
    Notification { method: Seq<char>, params: Seq<char> },
    Response { id: RequestIdView, result: Seq<char> },
}

impl View for WireMessage {
    type V = WireMessageView;

    open spec fn view(&self) -> WireMessageView {
        match self {
            WireMessage::Request { id, method, params } => WireMessageView::Request {
                id: id@,
                method: method@,
                params: params@,
            },
            WireMessage::Notification { method, params } => WireMessageView::Notification {
                method: method@,
                params: params@,
            },
            WireMessage::Response { id, result } => WireMessageView::Response {
                id: id@,
                result: result@,
            },
        }
    }
}

/// The parameters of the message with this method have no JSON form.
#[derive(Clone, Debug, PartialEq, Eq)]
pub struct EncodeError {
    pub method: String,
}

/// The JSON text of `lsp_types::WorkDoneProgressCreateParams` for a string
/// token, as `serde_json::to_string` writes it; `None` where it reports an
/// error.
pub uninterp spec fn progress_token_json(token: Seq<char>) -> Option<Seq<char>>;

/// The JSON text of `lsp_types::RegistrationParams` with one registration
/// whose options are `lsp_types::DidChangeWatchedFilesRegistrationOptions`
/// with one watcher, as `serde_json::to_string` writes it; `None` where it
/// reports an error. `kind` is the watcher's kind as flag bits.
pub uninterp spec fn registration_json(
    id: Seq<char>,
    method: Seq<char>,
    glob_pattern: Seq<char>,
    kind: u8,
) -> Option<Seq<char>>;

/// The JSON text of `lsp_types::PublishDiagnosticsParams`, as
/// `serde_json::to_string` writes it; `None` where `uri` does not parse as a
/// URL or the writer reports an error.
pub uninterp spec fn publish_diagnostics_json(
    uri: Seq<char>,
    diagnostics: Seq<LspDiagnosticView>,
    version: Option<i32>,
) -> Option<Seq<char>>;

/// The JSON text of `lsp_types::ShowMessageParams`, as
/// `serde_json::to_string` writes it; `None` where the reader of the type
/// number or the writer reports an error.
pub uninterp spec fn show_message_json(typ: i32, message: Seq<char>) -> Option<Seq<char>>;

/// Calls `serde_json::to_string` on an `lsp_types::WorkDoneProgressCreateParams`
/// whose token is the string `token`. The contract only names the text that
/// comes back; an error of the writer comes back as `None`.
#[verifier::external_body]
fn encode_progress_token(token: &str) -> (json: Option<String>)
    ensures
        json.deep_view() == progress_token_json(token@),
{
    let token = lsp_types::NumberOrString::String(token.to_owned());
    serde_json::to_string(&lsp_types::WorkDoneProgressCreateParams { token }).ok()
}

/// Calls `serde_json::to_string` on an `lsp_types::RegistrationParams` that
/// holds one `lsp_types::Registration`. Its options are what
/// `serde_json::to_value` makes of one `lsp_types::FileSystemWatcher`, whose
/// kind is what `lsp_types::WatchKind::from_bits` makes of `kind`. The
/// contract only names the text that comes back; an error of the writer
/// comes back as `None`.
#[verifier::external_body]
fn encode_registration(id: &str, method: &str, glob_pattern: &str, kind: u8) -> (json: Option<
    String,
>)
    ensures
        json.deep_view() == registration_json(id@, method@, glob_pattern@, kind),
{
    let kind = lsp_types::WatchKind::from_bits(kind);
    let watchers = vec![lsp_types::FileSystemWatcher { glob_pattern: glob_pattern.to_owned(), kind }];
    let options = lsp_types::DidChangeWatchedFilesRegistrationOptions { watchers };
    let register_options = Some(serde_json::to_value(options).ok()?);
    let (id, method) = (id.to_owned(), method.to_owned());
    let registrations = vec![lsp_types::Registration { id, method, register_options }];
    serde_json::to_string(&lsp_types::RegistrationParams { registrations }).ok()
}

/// Calls `serde_json::to_string` on an `lsp_types::PublishDiagnosticsParams`
/// whose URI is what `lsp_types::Url::parse` makes of `uri`. Each diagnostic
/// carries its range, its message, and the severity that `serde_json`
/// reads from the severity's number; every other field is left at its
/// default. The contract only names the text that comes back; a URI that
/// does not parse, or an error of the writer, comes back as `None`.
#[verifier::external_body]
fn encode_publish_diagnostics(
    uri: &str,
    diagnostics: &Vec<LspDiagnostic>,
    version: Option<i32>,
) -> (json: Option<String>)
    ensures
        json.deep_view() == publish_diagnostics_json(uri@, diagnostics.deep_view(), version),
{
    let uri = lsp_types::Url::parse(uri).ok()?;
    let diagnostics = diagnostics.iter().map(|d| lsp_types::Diagnostic {
        range: lsp_types::Range::new(
            lsp_types::Position::new(d.range.start.line, d.range.start.character),
            lsp_types::Position::new(d.range.end.line, d.range.end.character),
        ),
        severity: serde_json::from_value(d.severity.code.into()).ok(),
        message: d.message.clone(),
        ..Default::default()
    }).collect();
    serde_json::to_string(&lsp_types::PublishDiagnosticsParams { uri, diagnostics, version }).ok()
}

/// Calls `serde_json::to_string` on an `lsp_types::ShowMessageParams` whose
/// type is what `serde_json::from_value` reads from the number `typ`. The
/// contract only names the text that comes back; an error of the reader or
/// of the writer comes back as `None`.
#[verifier::external_body]
fn encode_show_message(typ: i32, message: &str) -> (json: Option<String>)
    ensures
        json.deep_view() == show_message_json(typ, message@),
{
    let typ = serde_json::from_value(typ.into()).ok()?;
    serde_json::to_string(&lsp_types::ShowMessageParams { typ, message: message.to_owned() }).ok()
}

/// The URI of the file at `path`.
pub open spec fn file_uri(path: Seq<char>) -> Seq<char> {
    FILE_SCHEME@ + path
}

/// A message with the given method whose parameters are `params`, or the
/// error that says they could not be written.
pub open spec fn framed(
    id: Option<RequestIdView>,
    method: Seq<char>,
    params: Option<Seq<char>>,
) -> Result<WireMessageView, Seq<char>> {
    match params {
        Some(params) => Ok(
            match id {
                Some(id) => WireMessageView::Request { id, method, params },
                None => WireMessageView::Notification { method, params },
            },
        ),
        None => Err(method),
    }
}

/// The wire form of a message, or the method whose parameters could not be
/// written.
///
/// Diagnostics are published under the file's URI and without a document
/// version. A response carries its result as it is.
pub open spec fn encoded(message: OutboundView) -> Result<WireMessageView, Seq<char>> {
    match message {
        OutboundView::CreateProgressToken { id, token } => framed(
            Some(id),
            CREATE_PROGRESS@,
            progress_token_json(token),
        ),
        OutboundView::RegisterCapability { id, registration } => framed(
            Some(id),
            REGISTER_CAPABILITY@,
            registration_json(
                registration.id,
                registration.method,
                registration.glob_pattern,
                registration.kind.flag(),
            ),
        ),
        OutboundView::PublishDiagnostics { path, diagnostics } => framed(
            None,
            PUBLISH_DIAGNOSTICS@,
            publish_diagnostics_json(file_uri(path), diagnostics, None),
        ),
        OutboundView::ShowMessage { typ, message } => framed(
            None,
            SHOW_MESSAGE@,
            show_message_json(typ.code, message),
        ),
        OutboundView::Response { id, result } => Ok(WireMessageView::Response { id, result }),
    }
}

/// What a result of [`encode`] stands for in contracts.
pub open spec fn result_view(result: Result<WireMessage, EncodeError>) -> Result<
    WireMessageView,
    Seq<char>,
> {
    match result {
        Ok(message) => Ok(message@),
        Err(error) => Err(error.method@),
    }
}

/// The request `id` with the given method and parameters, or an error
/// where there are no parameters.
pub fn request(id: RequestId, method: &'static str, params: Option<String>) -> (result: Result<
    WireMessage,
    EncodeError,
>)
    ensures
        result_view(result) == framed(Some(id@), method@, params.deep_view()),
{
    match params {
        Some(params) => Ok(WireMessage::Request { id, method: String::from_str(method), params }),
        None => Err(EncodeError { method: String::from_str(method) }),
    }
}

/// The notification with the given method and parameters, or an error
/// where there are no parameters.
pub fn notification(method: &'static str, params: Option<String>) -> (result: Result<
    WireMessage,
    EncodeError,
>)
    ensures
        result_view(result) == framed(None, method@, params.deep_view()),
{
    match params {
        Some(params) => Ok(WireMessage::Notification { method: String::from_str(method), params }),
        None => Err(EncodeError { method: String::from_str(method) }),
    }
}

/// Computes [`file_uri`].
pub fn path_to_uri(path: &String) -> (uri: String)
    ensures
        uri@ == file_uri(path@),
{
    String::from_str(FILE_SCHEME).concat(path.as_str())
}

/// Puts `message` into its wire form.
pub fn encode(message: &Outbound) -> (result: Result<WireMessage, EncodeError>)
    ensures
        result_view(result) == encoded(message@),
{
    match message {
        Outbound::CreateProgressToken { id, token } => request(
            id.duplicate(),
            CREATE_PROGRESS,
            encode_progress_token(token.as_str()),
        ),
        Outbound::RegisterCapability { id, registration } => request(
            id.duplicate(),
            REGISTER_CAPABILITY,
            encode_registration(
                registration.id.as_str(),
                registration.method.as_str(),
                registration.glob_pattern.as_str(),
                registration.kind.bits(),
            ),
        ),
        Outbound::PublishDiagnostics { path, diagnostics } => {
            let uri = path_to_uri(path);
            notification(
                PUBLISH_DIAGNOSTICS,
                encode_publish_diagnostics(uri.as_str(), diagnostics, None),
            )
        },
        Outbound::ShowMessage { typ, message } => notification(
            SHOW_MESSAGE,
            encode_show_message(typ.code, message.as_str()),
        ),
        Outbound::Response { id, result } => Ok(
            WireMessage::Response { id: id.duplicate(), result: result.clone() },
        ),
    }
}

} // verus!
