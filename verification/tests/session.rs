use protocol_adapter::adapter::LanguageServerProtocolAdapter;
use protocol_adapter::adapter::Refused;
use protocol_adapter::capabilities::ClientCapabilities;
use protocol_adapter::capabilities::DidChangeWatchedFilesClientCapabilities;
use protocol_adapter::capabilities::InitializeParams;
use protocol_adapter::capabilities::WorkspaceClientCapabilities;
use protocol_adapter::diagnostic::Diagnostic;
use protocol_adapter::diagnostic::Level;
use protocol_adapter::diagnostic::Position;
use protocol_adapter::diagnostic::Range;
use protocol_adapter::feedback::Feedback;
use protocol_adapter::message::InboundMessage;
use protocol_adapter::message::RequestId;
use protocol_adapter::outbound::DiagnosticSeverity;
use protocol_adapter::outbound::LspDiagnostic;
use protocol_adapter::outbound::MessageType;
use protocol_adapter::outbound::Outbound;
use protocol_adapter::outbound::WatchKind;
use protocol_adapter::outbound::WatcherRegistration;
use protocol_adapter::router::Operation;
use protocol_adapter::session::Action;
use protocol_adapter::session::Event;
use protocol_adapter::session::Phase;

fn params(dynamic_registration: Option<bool>) -> InitializeParams {
    InitializeParams {
        capabilities: ClientCapabilities {
            workspace: Some(WorkspaceClientCapabilities {
                did_change_watched_files: Some(DidChangeWatchedFilesClientCapabilities {
                    dynamic_registration,
                }),
            }),
        },
    }
}

fn ready() -> LanguageServerProtocolAdapter {
    let mut adapter = LanguageServerProtocolAdapter::new(params(None));
    adapter.start();
    adapter.finish(&Feedback::new());
    adapter
}

const AT: &str = "{\"textDocument\":{\"uri\":\"file:///a.gleam\"},\
\"position\":{\"line\":1,\"character\":2}}";

const ELSEWHERE: &str = "{\"textDocument\":{\"uri\":\"file:///b.gleam\"},\
\"position\":{\"line\":3,\"character\":4}}";

const FORMAT: &str = "{\"textDocument\":{\"uri\":\"file:///a.gleam\"},\
\"options\":{\"tabSize\":2,\"insertSpaces\":true}}";

const OPENED: &str = "{\"textDocument\":{\"uri\":\"file:///a.gleam\",\
\"languageId\":\"gleam\",\"version\":1,\"text\":\"pub fn\"}}";

const SAVED: &str = "{\"textDocument\":{\"uri\":\"file:///a.gleam\"}}";

const CHANGED: &str = "{\"textDocument\":{\"uri\":\"file:///a.gleam\",\"version\":2},\
\"contentChanges\":[{\"text\":\"pub fn main() {}\"}]}";

fn request(id: i32, method: &str, params: &str) -> InboundMessage {
    InboundMessage::Request {
        id: RequestId::Number(id),
        method: method.to_string(),
        params: params.to_string(),
    }
}

fn notification(method: &str, params: &str) -> InboundMessage {
    InboundMessage::Notification { method: method.to_string(), params: params.to_string() }
}

fn token_request() -> Action {
    Action::Send(Outbound::CreateProgressToken {
        id: RequestId::Text("create-compiling-progress-token".to_string()),
        token: "compiling-gleam".to_string(),
    })
}

fn watch_request() -> Action {
    Action::Send(Outbound::RegisterCapability {
        id: RequestId::Number(1),
        registration: WatcherRegistration {
            id: "watch-gleam-toml".to_string(),
            method: "workspace/didChangeWatchedFiles".to_string(),
            glob_pattern: "gleam.toml".to_string(),
            kind: WatchKind::Change,
        },
    })
}

fn syntax_error() -> Diagnostic {
    Diagnostic {
        level: Level::Error,
        text: "Syntax error".to_string(),
        location: Some(Range {
            start: Position { line: 2, character: 4 },
            end: Position { line: 2, character: 9 },
        }),
    }
}

fn syntax_error_published() -> LspDiagnostic {
    LspDiagnostic {
        range: Range {
            start: Position { line: 2, character: 4 },
            end: Position { line: 2, character: 9 },
        },
        severity: DiagnosticSeverity { code: 1 },
        message: "Syntax error".to_string(),
    }
}

#[test]
fn new_adapter_is_starting() {
    let adapter = LanguageServerProtocolAdapter::new(params(Some(true)));
    assert_eq!(adapter.phase(), Phase::Starting);
    assert!(!adapter.is_idle());
    assert!(!adapter.is_terminated());
}

#[test]
fn start_sends_the_handshake_then_analyses() {
    let mut adapter = LanguageServerProtocolAdapter::new(params(Some(true)));
    assert_eq!(adapter.start(), vec![token_request(), watch_request(), Action::Analyse]);
    assert_eq!(adapter.phase(), Phase::Starting);

    let mut adapter = LanguageServerProtocolAdapter::new(params(Some(false)));
    assert_eq!(adapter.start(), vec![token_request(), Action::Analyse]);
}

#[test]
fn first_analysis_is_published_and_makes_the_session_ready() {
    let mut adapter = LanguageServerProtocolAdapter::new(params(None));
    adapter.start();
    assert!(!adapter.accepts(&Event::Received(notification("textDocument/didOpen", OPENED))));
    let mut feedback = Feedback::new();
    feedback.set_diagnostics("/a.gleam".to_string(), vec![syntax_error()]);
    assert!(adapter.accepts(&Event::Finished { feedback: Feedback::new() }));
    assert_eq!(
        adapter.finish(&feedback),
        vec![Action::Send(Outbound::PublishDiagnostics {
            path: "/a.gleam".to_string(),
            diagnostics: vec![syntax_error_published()],
        })]
    );
    assert_eq!(adapter.phase(), Phase::Ready);
    assert!(adapter.is_idle());
}

#[test]
fn shutdown_ends_the_session_and_nothing_queued_is_routed() {
    let mut adapter = LanguageServerProtocolAdapter::new(params(None));
    let events = vec![
        Event::Finished { feedback: Feedback::new() },
        Event::Received(request(5, "shutdown", "null")),
        Event::Received(request(6, "textDocument/hover", AT)),
        Event::Received(notification("textDocument/didOpen", OPENED)),
        Event::Received(request(7, "no/such/method", "{}")),
    ];
    let actions = adapter.run(&events);
    assert_eq!(
        actions,
        Ok(vec![token_request(), Action::Analyse, Action::Shutdown { id: RequestId::Number(5) }])
    );
    assert!(adapter.is_terminated());
    assert_eq!(adapter.phase(), Phase::Terminated);
    assert!(!adapter.accepts(&Event::Received(request(6, "textDocument/hover", AT))));
    assert!(!adapter.accepts(&Event::Received(InboundMessage::Response)));
    assert!(!adapter.accepts(&Event::Finished { feedback: Feedback::new() }));
}

#[test]
fn shutdown_wins_over_everything_else_in_the_message() {
    let mut adapter = ready();
    let actions = adapter.handle_message(&InboundMessage::Request {
        id: RequestId::Text("bye".to_string()),
        method: "shutdown".to_string(),
        params: "{\"unexpected\":true}".to_string(),
    });
    assert_eq!(actions, vec![Action::Shutdown { id: RequestId::Text("bye".to_string()) }]);
    assert!(adapter.is_terminated());
}

#[test]
fn configuration_change_rebuilds_then_analyses_before_anything_else() {
    let mut adapter = ready();
    let changed = Event::Received(notification("workspace/didChangeWatchedFiles", "{\"changes\":[]}"));
    assert!(adapter.accepts(&changed));
    assert_eq!(adapter.handle_event(&changed), vec![Action::RebuildEngine, Action::Analyse]);
    assert!(!adapter.is_idle());
    assert!(!adapter.accepts(&Event::Received(request(1, "textDocument/hover", AT))));
    assert!(!adapter.accepts(&Event::Received(notification("foo/bar", "{}"))));
    assert!(!adapter.accepts(&Event::Answered {
        payload: "null".to_string(),
        feedback: Feedback::new(),
    }));

    let mut feedback = Feedback::new();
    feedback.push_message(Diagnostic {
        level: Level::Warning,
        text: "deprecated".to_string(),
        location: None,
    });
    let analysed = Event::Finished { feedback };
    assert!(adapter.accepts(&analysed));
    assert_eq!(
        adapter.handle_event(&analysed),
        vec![Action::Send(Outbound::ShowMessage {
            typ: MessageType { code: 2 },
            message: "deprecated".to_string(),
        })]
    );
    assert!(adapter.is_idle());
}

#[test]
fn configuration_change_is_replayed_in_order() {
    let mut adapter = LanguageServerProtocolAdapter::new(params(None));
    let events = vec![
        Event::Finished { feedback: Feedback::new() },
        Event::Received(notification("workspace/didChangeWatchedFiles", "{}")),
        Event::Finished { feedback: Feedback::new() },
        Event::Received(request(3, "textDocument/hover", AT)),
    ];
    assert_eq!(
        adapter.run(&events),
        Ok(vec![
            token_request(),
            Action::Analyse,
            Action::RebuildEngine,
            Action::Analyse,
            Action::Invoke { operation: Operation::Hover, params: AT.to_string() },
        ])
    );
    assert_eq!(adapter.phase(), Phase::Ready);
    assert!(!adapter.is_idle());
}

#[test]
fn did_open_with_invalid_syntax_publishes_one_diagnostic() {
    let mut adapter = ready();
    let opened = notification("textDocument/didOpen", OPENED);
    assert!(adapter.accepts(&Event::Received(notification("textDocument/didOpen", OPENED))));
    assert_eq!(
        adapter.handle_message(&opened),
        vec![Action::Invoke { operation: Operation::DidOpen, params: OPENED.to_string() }]
    );
    let mut feedback = Feedback::new();
    feedback.set_diagnostics("a.gleam".to_string(), vec![syntax_error()]);
    let actions = adapter.handle_event(&Event::Finished { feedback });
    assert_eq!(
        actions,
        vec![Action::Send(Outbound::PublishDiagnostics {
            path: "a.gleam".to_string(),
            diagnostics: vec![syntax_error_published()],
        })]
    );
    assert!(adapter.is_idle());
}

#[test]
fn unknown_notification_does_nothing() {
    let mut adapter = ready();
    let unknown = Event::Received(notification("foo/bar", "{}"));
    assert!(adapter.accepts(&unknown));
    assert_eq!(adapter.handle_event(&unknown), vec![]);
    assert_eq!(adapter.phase(), Phase::Ready);
    assert!(adapter.is_idle());
    assert_eq!(adapter.handle_notification(&"foo/bar".to_string(), &"{}".to_string()), vec![]);
    assert!(adapter.is_idle());
}

#[test]
fn response_does_nothing() {
    let mut adapter = ready();
    assert!(adapter.accepts(&Event::Received(InboundMessage::Response)));
    assert_eq!(adapter.handle_message(&InboundMessage::Response), vec![]);
    assert!(adapter.is_idle());
}

#[test]
fn two_hover_requests_get_their_own_responses_in_order() {
    let mut adapter = LanguageServerProtocolAdapter::new(params(None));
    let events = vec![
        Event::Finished { feedback: Feedback::new() },
        Event::Received(request(11, "textDocument/hover", AT)),
        Event::Answered { payload: "{\"contents\":\"one\"}".to_string(), feedback: Feedback::new() },
        Event::Received(request(12, "textDocument/hover", ELSEWHERE)),
        Event::Answered { payload: "{\"contents\":\"two\"}".to_string(), feedback: Feedback::new() },
    ];
    assert_eq!(
        adapter.run(&events),
        Ok(vec![
            token_request(),
            Action::Analyse,
            Action::Invoke { operation: Operation::Hover, params: AT.to_string() },
            Action::Send(Outbound::Response {
                id: RequestId::Number(11),
                result: "{\"contents\":\"one\"}".to_string(),
            }),
            Action::Invoke { operation: Operation::Hover, params: ELSEWHERE.to_string() },
            Action::Send(Outbound::Response {
                id: RequestId::Number(12),
                result: "{\"contents\":\"two\"}".to_string(),
            }),
        ])
    );
    assert!(adapter.is_idle());
}

#[test]
fn request_feedback_is_published_before_the_response() {
    let mut adapter = ready();
    assert_eq!(
        adapter.handle_request(
            &RequestId::Text("fmt".to_string()),
            &"textDocument/formatting".to_string(),
            &FORMAT.to_string(),
        ),
        vec![Action::Invoke { operation: Operation::Format, params: FORMAT.to_string() }]
    );
    assert!(!adapter.accepts(&Event::Finished { feedback: Feedback::new() }));
    let mut feedback = Feedback::new();
    feedback.set_diagnostics("/a.gleam".to_string(), vec![syntax_error()]);
    feedback.push_message(Diagnostic {
        level: Level::Error,
        text: "could not format".to_string(),
        location: None,
    });
    assert_eq!(
        adapter.answer(&"null".to_string(), &feedback),
        vec![
            Action::Send(Outbound::PublishDiagnostics {
                path: "/a.gleam".to_string(),
                diagnostics: vec![syntax_error_published()],
            }),
            Action::Send(Outbound::ShowMessage {
                typ: MessageType { code: 1 },
                message: "could not format".to_string(),
            }),
            Action::Send(Outbound::Response {
                id: RequestId::Text("fmt".to_string()),
                result: "null".to_string(),
            }),
        ]
    );
    assert!(adapter.is_idle());
}

#[test]
fn each_request_method_invokes_its_operation() {
    let cases = [
        ("textDocument/formatting", Operation::Format, FORMAT),
        ("textDocument/hover", Operation::Hover, AT),
        ("textDocument/definition", Operation::GotoDefinition, AT),
        ("textDocument/completion", Operation::Completion, AT),
    ];
    for (method, operation, params) in cases {
        let mut adapter = ready();
        assert!(adapter.accepts(&Event::Received(request(1, method, params))));
        assert_eq!(
            adapter.handle_message(&request(1, method, params)),
            vec![Action::Invoke { operation, params: params.to_string() }]
        );
        assert!(adapter.accepts(&Event::Answered {
            payload: "null".to_string(),
            feedback: Feedback::new(),
        }));
    }
}

#[test]
fn each_document_notification_invokes_its_operation() {
    let cases = [
        ("textDocument/didOpen", Operation::DidOpen, OPENED),
        ("textDocument/didSave", Operation::DidSave, SAVED),
        ("textDocument/didClose", Operation::DidClose, SAVED),
        ("textDocument/didChange", Operation::DidChange, CHANGED),
    ];
    for (method, operation, params) in cases {
        let mut adapter = ready();
        assert!(adapter.accepts(&Event::Received(notification(method, params))));
        assert_eq!(
            adapter.handle_message(&notification(method, params)),
            vec![Action::Invoke { operation, params: params.to_string() }]
        );
        assert!(adapter.accepts(&Event::Finished { feedback: Feedback::new() }));
        assert!(!adapter.accepts(&Event::Answered {
            payload: "null".to_string(),
            feedback: Feedback::new(),
        }));
        assert_eq!(adapter.finish(&Feedback::new()), vec![]);
        assert!(adapter.is_idle());
    }
}

#[test]
fn unsupported_request_is_not_accepted() {
    let adapter = ready();
    assert!(!adapter.accepts(&Event::Received(request(1, "textDocument/rename", AT))));
    assert!(adapter.accepts(&Event::Received(request(1, "textDocument/hover", AT))));
    assert!(adapter.accepts(&Event::Received(request(1, "shutdown", "{}"))));
}

#[test]
fn parameters_of_the_wrong_shape_are_not_accepted() {
    let adapter = ready();
    assert!(!adapter.accepts(&Event::Received(request(1, "textDocument/hover", "{}"))));
    assert!(!adapter.accepts(&Event::Received(request(1, "textDocument/hover", "null"))));
    assert!(!adapter.accepts(&Event::Received(request(1, "textDocument/hover", FORMAT))));
    assert!(!adapter.accepts(&Event::Received(request(1, "textDocument/formatting", AT))));
    assert!(!adapter.accepts(&Event::Received(notification("textDocument/didOpen", SAVED))));
    assert!(!adapter.accepts(&Event::Received(notification("textDocument/didChange", "not json"))));
    assert!(adapter.accepts(&Event::Received(notification("foo/bar", "not json"))));
    assert!(adapter.accepts(&Event::Received(notification(
        "workspace/didChangeWatchedFiles",
        "not json"
    ))));
    assert!(adapter.accepts(&Event::Received(request(1, "shutdown", "not json"))));
}

#[test]
fn run_fails_at_an_unsupported_request() {
    let mut adapter = LanguageServerProtocolAdapter::new(params(None));
    let events = vec![
        Event::Finished { feedback: Feedback::new() },
        Event::Received(notification("textDocument/didSave", SAVED)),
        Event::Finished { feedback: Feedback::new() },
        Event::Received(request(9, "textDocument/rename", AT)),
        Event::Received(request(10, "textDocument/hover", AT)),
    ];
    assert_eq!(
        adapter.run(&events),
        Err(Refused {
            at: 3,
            actions: vec![
                token_request(),
                Action::Analyse,
                Action::Invoke { operation: Operation::DidSave, params: SAVED.to_string() },
            ],
        })
    );
    assert!(adapter.is_idle());
}

#[test]
fn run_fails_at_parameters_that_do_not_decode() {
    let mut adapter = LanguageServerProtocolAdapter::new(params(None));
    let events = vec![
        Event::Finished { feedback: Feedback::new() },
        Event::Received(request(9, "textDocument/hover", "{\"position\":1}")),
    ];
    assert_eq!(
        adapter.run(&events),
        Err(Refused { at: 1, actions: vec![token_request(), Action::Analyse] })
    );
}

#[test]
fn run_fails_at_a_message_that_arrives_while_the_engine_works() {
    let mut adapter = LanguageServerProtocolAdapter::new(params(None));
    let events = vec![Event::Received(notification("foo/bar", "{}"))];
    assert_eq!(
        adapter.run(&events),
        Err(Refused { at: 0, actions: vec![token_request(), Action::Analyse] })
    );
    assert_eq!(adapter.phase(), Phase::Starting);
}

#[test]
fn nothing_is_accepted_before_the_session_has_begun() {
    let adapter = LanguageServerProtocolAdapter::new(params(None));
    assert!(!adapter.accepts(&Event::Received(notification("foo/bar", "{}"))));
    assert!(!adapter.accepts(&Event::Finished { feedback: Feedback::new() }));
    assert!(!adapter.accepts(&Event::Answered {
        payload: "null".to_string(),
        feedback: Feedback::new(),
    }));
}

#[test]
fn run_without_events_only_begins_the_session() {
    let mut adapter = LanguageServerProtocolAdapter::new(params(Some(true)));
    assert_eq!(adapter.run(&vec![]), Ok(vec![token_request(), watch_request(), Action::Analyse]));
    assert_eq!(adapter.phase(), Phase::Starting);
}
