use protocol_adapter::decode::is_admissible;
use protocol_adapter::decode::params_decode;
use protocol_adapter::message::InboundMessage;
use protocol_adapter::message::RequestId;
use protocol_adapter::router::classify;
use protocol_adapter::router::is_shutdown;
use protocol_adapter::router::is_watched_files_change;
use protocol_adapter::router::classify_notification_method;
use protocol_adapter::router::classify_request_method;
use protocol_adapter::router::Operation;
use protocol_adapter::router::Route;

fn request(method: &str) -> InboundMessage {
    InboundMessage::Request {
        id: RequestId::Number(7),
        method: method.to_string(),
        params: "{}".to_string(),
    }
}

fn notification(method: &str) -> InboundMessage {
    InboundMessage::Notification { method: method.to_string(), params: "{}".to_string() }
}

#[test]
fn requests_go_to_their_operations() {
    assert_eq!(classify(&request("textDocument/formatting")), Route::Engine(Operation::Format));
    assert_eq!(classify(&request("textDocument/hover")), Route::Engine(Operation::Hover));
    assert_eq!(
        classify(&request("textDocument/definition")),
        Route::Engine(Operation::GotoDefinition)
    );
    assert_eq!(
        classify(&request("textDocument/completion")),
        Route::Engine(Operation::Completion)
    );
}

#[test]
fn shutdown_request_ends_the_session() {
    assert_eq!(classify(&request("shutdown")), Route::Shutdown);
}

#[test]
fn other_requests_are_unsupported() {
    assert_eq!(classify(&request("textDocument/rename")), Route::Unsupported);
    assert_eq!(classify(&request("textDocument/didOpen")), Route::Unsupported);
    assert_eq!(classify(&request("")), Route::Unsupported);
    assert_eq!(classify_request_method(&"shutdown".to_string()), None);
    assert_eq!(classify_request_method(&"textDocument/Hover".to_string()), None);
}

#[test]
fn notifications_go_to_their_operations() {
    assert_eq!(classify(&notification("textDocument/didOpen")), Route::Engine(Operation::DidOpen));
    assert_eq!(classify(&notification("textDocument/didSave")), Route::Engine(Operation::DidSave));
    assert_eq!(
        classify(&notification("textDocument/didClose")),
        Route::Engine(Operation::DidClose)
    );
    assert_eq!(
        classify(&notification("textDocument/didChange")),
        Route::Engine(Operation::DidChange)
    );
}

#[test]
fn configuration_change_reloads() {
    assert_eq!(classify(&notification("workspace/didChangeWatchedFiles")), Route::Reload);
    assert_eq!(classify_notification_method(&"workspace/didChangeWatchedFiles".to_string()), None);
}

#[test]
fn other_notifications_are_ignored() {
    assert_eq!(classify(&notification("foo/bar")), Route::Ignore);
    assert_eq!(classify(&notification("shutdown")), Route::Ignore);
    assert_eq!(classify(&notification("textDocument/hover")), Route::Ignore);
    assert_eq!(classify(&notification("exit")), Route::Ignore);
}

#[test]
fn responses_are_ignored() {
    assert_eq!(classify(&InboundMessage::Response), Route::Ignore);
}

#[test]
fn request_operations_answer_and_notification_operations_do_not() {
    assert!(Operation::Format.is_request());
    assert!(Operation::Hover.is_request());
    assert!(Operation::GotoDefinition.is_request());
    assert!(Operation::Completion.is_request());
    assert!(!Operation::DidOpen.is_request());
    assert!(!Operation::DidSave.is_request());
    assert!(!Operation::DidClose.is_request());
    assert!(!Operation::DidChange.is_request());
}

#[test]
fn request_id_duplicate_is_equal() {
    assert_eq!(RequestId::Number(-3).duplicate(), RequestId::Number(-3));
    assert_eq!(RequestId::Text("a".to_string()).duplicate(), RequestId::Text("a".to_string()));
    assert_ne!(RequestId::Text("1".to_string()), RequestId::Number(1));
}

#[test]
fn unsupported_route_is_never_admitted() {
    assert!(!Route::Unsupported.is_admitted(true));
    assert!(!Route::Unsupported.is_admitted(false));
}

#[test]
fn engine_route_is_admitted_when_the_parameters_decode() {
    assert!(Route::Engine(Operation::Hover).is_admitted(true));
    assert!(!Route::Engine(Operation::Hover).is_admitted(false));
    assert!(Route::Engine(Operation::DidOpen).is_admitted(true));
    assert!(!Route::Engine(Operation::DidOpen).is_admitted(false));
}

#[test]
fn other_routes_are_admitted_whatever_the_parameters() {
    assert!(Route::Shutdown.is_admitted(false));
    assert!(Route::Reload.is_admitted(false));
    assert!(Route::Ignore.is_admitted(false));
    assert!(Route::Shutdown.is_admitted(true));
}

#[test]
fn parameters_decode_for_the_operation_they_belong_to() {
    let position = "{\"textDocument\":{\"uri\":\"file:///a.gleam\"},\
\"position\":{\"line\":1,\"character\":2}}"
        .to_string();
    let document = "{\"textDocument\":{\"uri\":\"file:///a.gleam\"}}".to_string();
    assert!(params_decode(Operation::Hover, &position));
    assert!(params_decode(Operation::GotoDefinition, &position));
    assert!(params_decode(Operation::Completion, &position));
    assert!(!params_decode(Operation::Format, &position));
    assert!(!params_decode(Operation::DidOpen, &position));
    assert!(!params_decode(Operation::DidChange, &position));
    assert!(params_decode(Operation::DidSave, &document));
    assert!(params_decode(Operation::DidClose, &document));
    assert!(!params_decode(Operation::Hover, &document));
    assert!(!params_decode(Operation::Hover, &"".to_string()));
}

#[test]
fn each_operation_has_its_own_shape_of_parameters() {
    let formatting = "{\"textDocument\":{\"uri\":\"file:///a.gleam\"},\
\"options\":{\"tabSize\":2,\"insertSpaces\":true}}"
        .to_string();
    let opened = "{\"textDocument\":{\"uri\":\"file:///a.gleam\",\
\"languageId\":\"gleam\",\"version\":1,\"text\":\"pub fn\"}}"
        .to_string();
    let changed = "{\"textDocument\":{\"uri\":\"file:///a.gleam\",\"version\":2},\
\"contentChanges\":[{\"text\":\"pub fn main() {}\"}]}"
        .to_string();
    let nothing = "{}".to_string();
    assert!(params_decode(Operation::Format, &formatting));
    assert!(params_decode(Operation::DidOpen, &opened));
    assert!(params_decode(Operation::DidChange, &changed));
    let operations = [
        Operation::Format,
        Operation::Hover,
        Operation::GotoDefinition,
        Operation::Completion,
        Operation::DidOpen,
        Operation::DidSave,
        Operation::DidClose,
        Operation::DidChange,
    ];
    for operation in operations {
        assert!(!params_decode(operation, &nothing));
        assert!(!params_decode(operation, &"[1, 2".to_string()));
    }
}

#[test]
fn message_is_admissible_when_routed_and_decodable() {
    let position = "{\"textDocument\":{\"uri\":\"file:///a.gleam\"},\
\"position\":{\"line\":1,\"character\":2}}";
    let hover = InboundMessage::Request {
        id: RequestId::Number(1),
        method: "textDocument/hover".to_string(),
        params: position.to_string(),
    };
    assert!(is_admissible(&hover));
    assert!(!is_admissible(&request("textDocument/hover")));
    assert!(!is_admissible(&request("textDocument/rename")));
    assert!(is_admissible(&request("shutdown")));
    assert!(is_admissible(&notification("foo/bar")));
    assert!(!is_admissible(&notification("textDocument/didOpen")));
    assert!(is_admissible(&notification("workspace/didChangeWatchedFiles")));
    assert!(is_admissible(&InboundMessage::Response));
}

#[test]
fn shutdown_and_watched_files_are_told_by_name() {
    assert!(is_shutdown(&"shutdown".to_string()));
    assert!(!is_shutdown(&"Shutdown".to_string()));
    assert!(!is_shutdown(&"exit".to_string()));
    assert!(is_watched_files_change(&"workspace/didChangeWatchedFiles".to_string()));
    assert!(!is_watched_files_change(&"workspace/didChangeConfiguration".to_string()));
}
