//! Whether raw parameters have the shape an engine operation expects, as
//! `serde_json` and `lsp_types` judge it.

use vstd::prelude::*;

use crate::message::InboundMessage;
use crate::message::InboundMessageView;
use crate::router::classify;
use crate::router::route;
use crate::router::Operation;
use crate::router::Route;

verus! {

/// Whether `serde_json::from_str` reads `params` as an
/// `lsp_types::DocumentFormattingParams`.
pub uninterp spec fn reads_as_formatting_params(params: Seq<char>) -> bool;

/// Whether `serde_json::from_str` reads `params` as an
/// `lsp_types::HoverParams`.
pub uninterp spec fn reads_as_hover_params(params: Seq<char>) -> bool;

/// Whether `serde_json::from_str` reads `params` as an
/// `lsp_types::GotoDefinitionParams`.
pub uninterp spec fn reads_as_definition_params(params: Seq<char>) -> bool;

/// Whether `serde_json::from_str` reads `params` as an
/// `lsp_types::CompletionParams`.
pub uninterp spec fn reads_as_completion_params(params: Seq<char>) -> bool;

/// Whether `serde_json::from_str` reads `params` as an
/// `lsp_types::DidOpenTextDocumentParams`.
pub uninterp spec fn reads_as_did_open_params(params: Seq<char>) -> bool;

/// Whether `serde_json::from_str` reads `params` as an
/// `lsp_types::DidSaveTextDocumentParams`.
pub uninterp spec fn reads_as_did_save_params(params: Seq<char>) -> bool;

/// Whether `serde_json::from_str` reads `params` as an
/// `lsp_types::DidCloseTextDocumentParams`.
pub uninterp spec fn reads_as_did_close_params(params: Seq<char>) -> bool;

/// Whether `serde_json::from_str` reads `params` as an
/// `lsp_types::DidChangeTextDocumentParams`.
pub uninterp spec fn reads_as_did_change_params(params: Seq<char>) -> bool;

/// Calls `serde_json::from_str` for an `lsp_types::DocumentFormattingParams`
/// and says whether it gave a value. The contract only names that answer.
#[verifier::external_body]
fn reads_as_formatting(params: &str) -> (ok: bool)
    ensures
        ok == reads_as_formatting_params(params@),
{
    serde_json::from_str::<lsp_types::DocumentFormattingParams>(params).is_ok()
}

/// Calls `serde_json::from_str` for an `lsp_types::HoverParams` and says
/// whether it gave a value. The contract only names that answer.
#[verifier::external_body]
fn reads_as_hover(params: &str) -> (ok: bool)
    ensures
        ok == reads_as_hover_params(params@),
{
    serde_json::from_str::<lsp_types::HoverParams>(params).is_ok()
}

/// Calls `serde_json::from_str` for an `lsp_types::GotoDefinitionParams` and
/// says whether it gave a value. The contract only names that answer.
#[verifier::external_body]
fn reads_as_definition(params: &str) -> (ok: bool)
    ensures
        ok == reads_as_definition_params(params@),
{
    serde_json::from_str::<lsp_types::GotoDefinitionParams>(params).is_ok()
}

/// Calls `serde_json::from_str` for an `lsp_types::CompletionParams` and
/// says whether it gave a value. The contract only names that answer.
#[verifier::external_body]
fn reads_as_completion(params: &str) -> (ok: bool)
    ensures
        ok == reads_as_completion_params(params@),
{
    serde_json::from_str::<lsp_types::CompletionParams>(params).is_ok()
}

/// Calls `serde_json::from_str` for an `lsp_types::DidOpenTextDocumentParams`
/// and says whether it gave a value. The contract only names that answer.
#[verifier::external_body]
fn reads_as_did_open(params: &str) -> (ok: bool)
    ensures
        ok == reads_as_did_open_params(params@),
{
    serde_json::from_str::<lsp_types::DidOpenTextDocumentParams>(params).is_ok()
}

/// Calls `serde_json::from_str` for an `lsp_types::DidSaveTextDocumentParams`
/// and says whether it gave a value. The contract only names that answer.
#[verifier::external_body]
fn reads_as_did_save(params: &str) -> (ok: bool)
    ensures
        ok == reads_as_did_save_params(params@),
{
    serde_json::from_str::<lsp_types::DidSaveTextDocumentParams>(params).is_ok()
}

/// Calls `serde_json::from_str` for an `lsp_types::DidCloseTextDocumentParams`
/// and says whether it gave a value. The contract only names that answer.
#[verifier::external_body]
fn reads_as_did_close(params: &str) -> (ok: bool)
    ensures
        ok == reads_as_did_close_params(params@),
{
    serde_json::from_str::<lsp_types::DidCloseTextDocumentParams>(params).is_ok()
}

/// Calls `serde_json::from_str` for an
/// `lsp_types::DidChangeTextDocumentParams` and says whether it gave a
/// value. The contract only names that answer.
#[verifier::external_body]
fn reads_as_did_change(params: &str) -> (ok: bool)
    ensures
        ok == reads_as_did_change_params(params@),
{
    serde_json::from_str::<lsp_types::DidChangeTextDocumentParams>(params).is_ok()
}

/// Whether `params` has the shape that `operation` expects.
pub open spec fn decodes(operation: Operation, params: Seq<char>) -> bool {
    match operation {
        Operation::Format => reads_as_formatting_params(params),
        Operation::Hover => reads_as_hover_params(params),
        Operation::GotoDefinition => reads_as_definition_params(params),
        Operation::Completion => reads_as_completion_params(params),
        Operation::DidOpen => reads_as_did_open_params(params),
        Operation::DidSave => reads_as_did_save_params(params),
        Operation::DidClose => reads_as_did_close_params(params),
        Operation::DidChange => reads_as_did_change_params(params),
    }
}

/// Computes [`decodes`].
pub fn params_decode(operation: Operation, params: &String) -> (ok: bool)
    ensures
        ok == decodes(operation, params@),
{
    match operation {
        Operation::Format => reads_as_formatting(params.as_str()),
        Operation::Hover => reads_as_hover(params.as_str()),
        Operation::GotoDefinition => reads_as_definition(params.as_str()),
        Operation::Completion => reads_as_completion(params.as_str()),
        Operation::DidOpen => reads_as_did_open(params.as_str()),
        Operation::DidSave => reads_as_did_save(params.as_str()),
        Operation::DidClose => reads_as_did_close(params.as_str()),
        Operation::DidChange => reads_as_did_change(params.as_str()),
    }
}

/// Whether the parameters of `message` have the shape expected by the
/// operation it invokes. Where it invokes none, nothing is expected.
pub open spec fn decodable(message: InboundMessageView) -> bool {
    match (route(message), message) {
        (Route::Engine(operation), InboundMessageView::Request { params, .. }) => decodes(
            operation,
            params,
        ),
        (Route::Engine(operation), InboundMessageView::Notification { params, .. }) => decodes(
            operation,
            params,
        ),
        _ => true,
    }
}

/// Whether `message` can be taken up: it is not a request this layer does
/// not serve, and where it invokes an operation its parameters decode.
pub open spec fn admissible(message: InboundMessageView) -> bool {
    route(message).admits(decodable(message))
}

/// Computes [`admissible`].
pub fn is_admissible(message: &InboundMessage) -> (admitted: bool)
    ensures
        admitted == admissible(message@),
{
    let destination = classify(message);
    let decoded = match (destination, message) {
        (Route::Engine(operation), InboundMessage::Request { params, .. }) => params_decode(
            operation,
            params,
        ),
        (Route::Engine(operation), InboundMessage::Notification { params, .. }) => params_decode(
            operation,
            params,
        ),
        _ => true,
    };
    destination.is_admitted(decoded)
}

} // verus!
