use event_dispatch::codec::{decode_request, encode_payload, Payload, PayloadTag};
use event_dispatch::dispatcher::Dispatcher;
use event_dispatch::document;
use event_dispatch::document::DocumentEvent;
use event_dispatch::error::DispatchError;
use event_dispatch::folder;
use event_dispatch::folder::FolderEvent;
use event_dispatch::handler::Handler;
use event_dispatch::plugin::Plugin;
use event_dispatch::state::{StateRegistry, SubsystemState};

const DOC_STATE: u64 = 1;
const FOLDER_STATE: u64 = 2;

fn setup() -> (Dispatcher, StateRegistry) {
    let mut d = Dispatcher::new();
    d.install(document::init(DOC_STATE));
    d.install(folder::init(FOLDER_STATE));
    let mut states = StateRegistry::new();
    states.register_state(DOC_STATE, SubsystemState::new());
    states.register_state(FOLDER_STATE, SubsystemState::new());
    (d, states)
}

#[test]
fn unknown_plugin_name_yields_plugin_not_found() {
    let (d, mut states) = setup();
    let req = encode_payload(&Payload::Id(1));
    let r = d.dispatch(&mut states, &String::from("nosuch"), 1, &req);
    assert_eq!(r, Err(DispatchError::PluginNotFound));
}

#[test]
fn unknown_plugin_wins_over_unknown_command() {
    // A command code registered on no plugin at all still reports the
    // unknown plugin first: the plugin lookup precedes the command lookup.
    let (d, mut states) = setup();
    let r = d.dispatch(&mut states, &String::from("nosuch"), 9999, &Vec::new());
    assert_eq!(r, Err(DispatchError::PluginNotFound));
}

#[test]
fn unknown_command_yields_command_not_found() {
    let (d, mut states) = setup();
    let r = d.dispatch(&mut states, &String::from("document"), 9999, &Vec::new());
    assert_eq!(r, Err(DispatchError::CommandNotFound));
}

#[test]
fn reserved_folder_commands_are_not_registered() {
    let (d, mut states) = setup();
    let req = encode_payload(&Payload::Id(1));
    let r = d.dispatch(
        &mut states,
        &String::from("folder"),
        FolderEvent::DeleteWorkspace.code(),
        &req,
    );
    assert_eq!(r, Err(DispatchError::CommandNotFound));
    let r2 = d.dispatch(
        &mut states,
        &String::from("folder"),
        FolderEvent::CopyLink.code(),
        &Vec::new(),
    );
    assert_eq!(r2, Err(DispatchError::CommandNotFound));
}

#[test]
fn undecodable_request_never_reaches_the_handler() {
    let (d, mut states) = setup();
    // CreateDocument declares a record request; hand it an identifier.
    let bad = encode_payload(&Payload::Id(77));
    let r = d.dispatch(
        &mut states,
        &String::from("document"),
        DocumentEvent::CreateDocument.code(),
        &bad,
    );
    assert_eq!(r, Err(DispatchError::DecodeError));
    // The store handler never ran: the record does not exist.
    let open = encode_payload(&Payload::Id(77));
    let r2 = d.dispatch(
        &mut states,
        &String::from("document"),
        DocumentEvent::OpenDocument.code(),
        &open,
    );
    assert_eq!(
        r2,
        Err(DispatchError::Internal {
            kind: String::from("NotFound"),
            msg: String::from("document missing"),
        })
    );
}

#[test]
fn unresolvable_state_yields_state_unavailable() {
    let mut d = Dispatcher::new();
    d.install(document::init(DOC_STATE));
    // A registry in which the document subsystem was never registered.
    let mut states = StateRegistry::new();
    let req = encode_payload(&Payload::Record { id: 5, data: vec![1] });
    let r = d.dispatch(
        &mut states,
        &String::from("document"),
        DocumentEvent::CreateDocument.code(),
        &req,
    );
    assert_eq!(r, Err(DispatchError::StateUnavailable));
}

#[test]
fn torn_down_state_yields_state_unavailable() {
    let (d, mut states) = setup();
    // Tear the document subsystem down; its key no longer resolves.
    let removed = states.remove_state(DOC_STATE);
    assert!(removed.is_some());
    let req = encode_payload(&Payload::Record { id: 5, data: vec![1] });
    let r = d.dispatch(
        &mut states,
        &String::from("document"),
        DocumentEvent::CreateDocument.code(),
        &req,
    );
    assert_eq!(r, Err(DispatchError::StateUnavailable));
    // The folder plugin's state is untouched by the document teardown.
    assert!(states.resolves(FOLDER_STATE));
}

#[test]
fn unbound_state_yields_state_unavailable() {
    let mut d = Dispatcher::new();
    let p = Plugin::new(String::from("bare")).register(0, Handler::Ack(None));
    d.install(p);
    let mut states = StateRegistry::new();
    let r = d.dispatch(&mut states, &String::from("bare"), 0, &Vec::new());
    assert_eq!(r, Err(DispatchError::StateUnavailable));
}

#[test]
fn last_registration_wins() {
    let mut d = Dispatcher::new();
    let p = Plugin::new(String::from("p"))
        .with_state(DOC_STATE)
        .register(
            7,
            Handler::Respond { request: None, response: Payload::Data(vec![1]) },
        )
        .register(
            7,
            Handler::Respond { request: None, response: Payload::Data(vec![2]) },
        );
    d.install(p);
    let mut states = StateRegistry::new();
    states.register_state(DOC_STATE, SubsystemState::new());
    let r = d.dispatch(&mut states, &String::from("p"), 7, &Vec::new());
    let bytes = r.expect("the overriding handler responds");
    assert_eq!(
        decode_request(Some(PayloadTag::Data), &bytes),
        Some(Some(Payload::Data(vec![2])))
    );
}

#[test]
fn create_then_open_document_round_trip() {
    let (d, mut states) = setup();
    let spec = encode_payload(&Payload::Record { id: 42, data: vec![10, 11] });
    let r = d.dispatch(
        &mut states,
        &String::from("document"),
        DocumentEvent::CreateDocument.code(),
        &spec,
    );
    assert_eq!(r, Ok(Vec::new()));
    let open = encode_payload(&Payload::Id(42));
    let r2 = d.dispatch(
        &mut states,
        &String::from("document"),
        DocumentEvent::OpenDocument.code(),
        &open,
    );
    let bytes = r2.expect("the stored document is returned");
    assert_eq!(
        decode_request(Some(PayloadTag::Record), &bytes),
        Some(Some(Payload::Record { id: 42, data: vec![10, 11] }))
    );
}

#[test]
fn open_missing_document_reports_business_not_found() {
    let (d, mut states) = setup();
    let open = encode_payload(&Payload::Id(42));
    let r = d.dispatch(
        &mut states,
        &String::from("document"),
        DocumentEvent::OpenDocument.code(),
        &open,
    );
    assert_eq!(
        r,
        Err(DispatchError::Internal {
            kind: String::from("NotFound"),
            msg: String::from("document missing"),
        })
    );
}

#[test]
fn same_code_on_two_plugins_stays_separate() {
    // "document" and "folder" both register command code 0; dispatching
    // code 0 against "folder" never invokes the document plugin's handler.
    let (d, mut states) = setup();
    assert_eq!(DocumentEvent::CreateDocument.code(), 0);
    assert_eq!(FolderEvent::CreateWorkspace.code(), 0);
    // CreateWorkspace takes a data request; CreateDocument would reject it
    // as a decode error and store nothing.
    let req = encode_payload(&Payload::Data(vec![1, 2]));
    let r = d.dispatch(&mut states, &String::from("folder"), 0, &req);
    let bytes = r.expect("the folder handler responds");
    assert_eq!(
        decode_request(Some(PayloadTag::Record), &bytes),
        Some(Some(Payload::Record { id: 0, data: Vec::new() }))
    );
    // The document plugin's store was never touched.
    let open = encode_payload(&Payload::Id(0));
    let r2 = d.dispatch(
        &mut states,
        &String::from("document"),
        DocumentEvent::OpenDocument.code(),
        &open,
    );
    assert_eq!(
        r2,
        Err(DispatchError::Internal {
            kind: String::from("NotFound"),
            msg: String::from("document missing"),
        })
    );
}

#[test]
fn independent_pairs_complete_the_same_in_either_order() {
    let doc_req = encode_payload(&Payload::Record { id: 8, data: vec![3] });
    let folder_req = encode_payload(&Payload::Id(9));

    let (d1, mut s1) = setup();
    let a_first = d1.dispatch(
        &mut s1,
        &String::from("document"),
        DocumentEvent::CreateDocument.code(),
        &doc_req,
    );
    let b_second = d1.dispatch(
        &mut s1,
        &String::from("folder"),
        FolderEvent::ReadView.code(),
        &folder_req,
    );

    let (d2, mut s2) = setup();
    let b_first = d2.dispatch(
        &mut s2,
        &String::from("folder"),
        FolderEvent::ReadView.code(),
        &folder_req,
    );
    let a_second = d2.dispatch(
        &mut s2,
        &String::from("document"),
        DocumentEvent::CreateDocument.code(),
        &doc_req,
    );

    assert_eq!(a_first, a_second);
    assert_eq!(b_first, b_second);
}

#[test]
fn echo_handler_returns_the_request() {
    let (d, mut states) = setup();
    let req = encode_payload(&Payload::Data(vec![4, 5, 6]));
    let r = d.dispatch(
        &mut states,
        &String::from("document"),
        DocumentEvent::ConvertDocument.code(),
        &req,
    );
    let bytes = r.expect("conversion responds");
    assert_eq!(
        decode_request(Some(PayloadTag::Data), &bytes),
        Some(Some(Payload::Data(vec![4, 5, 6])))
    );
}

#[test]
fn uninstall_removes_the_whole_plugin() {
    let (mut d, mut states) = setup();
    d.uninstall(&String::from("document"));
    let open = encode_payload(&Payload::Id(1));
    let r = d.dispatch(
        &mut states,
        &String::from("document"),
        DocumentEvent::OpenDocument.code(),
        &open,
    );
    assert_eq!(r, Err(DispatchError::PluginNotFound));
    // The folder plugin is still installed.
    let r2 = d.dispatch(
        &mut states,
        &String::from("folder"),
        FolderEvent::RestoreAllTrash.code(),
        &Vec::new(),
    );
    assert_eq!(r2, Ok(Vec::new()));
}

#[test]
fn document_event_codes_are_stable() {
    assert_eq!(DocumentEvent::CreateDocument.code(), 0);
    assert_eq!(DocumentEvent::OpenDocument.code(), 1);
    assert_eq!(DocumentEvent::CloseDocument.code(), 2);
    assert_eq!(DocumentEvent::ApplyAction.code(), 3);
    assert_eq!(DocumentEvent::GetDocumentData.code(), 4);
    assert_eq!(DocumentEvent::ConvertDataToDocument.code(), 5);
    assert_eq!(DocumentEvent::Redo.code(), 6);
    assert_eq!(DocumentEvent::Undo.code(), 7);
    assert_eq!(DocumentEvent::CanUndoRedo.code(), 8);
    assert_eq!(DocumentEvent::GetDocumentSnapshots.code(), 9);
    assert_eq!(DocumentEvent::CreateText.code(), 10);
    assert_eq!(DocumentEvent::ApplyTextDeltaEvent.code(), 11);
    assert_eq!(DocumentEvent::ConvertDocument.code(), 12);
}

#[test]
fn folder_event_codes_keep_their_gaps() {
    assert_eq!(FolderEvent::CreateWorkspace.code(), 0);
    assert_eq!(FolderEvent::ReadWorkspaceViews.code(), 5);
    assert_eq!(FolderEvent::CreateView.code(), 10);
    assert_eq!(FolderEvent::CopyLink.code(), 20);
    assert_eq!(FolderEvent::ReadTrash.code(), 23);
    assert_eq!(FolderEvent::DeleteAllTrash.code(), 27);
    assert_eq!(FolderEvent::ImportData.code(), 30);
    assert_eq!(FolderEvent::UpdateViewIcon.code(), 35);
}

#[test]
fn declared_shapes_match_the_commands() {
    assert_eq!(
        DocumentEvent::CreateDocument.request_tag(),
        Some(PayloadTag::Record)
    );
    assert_eq!(DocumentEvent::CreateDocument.response_tag(), None);
    assert_eq!(DocumentEvent::OpenDocument.request_tag(), Some(PayloadTag::Id));
    assert_eq!(
        DocumentEvent::OpenDocument.response_tag(),
        Some(PayloadTag::Record)
    );
    assert_eq!(FolderEvent::GetCurrentWorkspaceSetting.request_tag(), None);
    assert_eq!(
        FolderEvent::GetCurrentWorkspaceSetting.response_tag(),
        Some(PayloadTag::Data)
    );
}

#[test]
fn command_names_serve_diagnostics() {
    assert_eq!(DocumentEvent::CreateDocument.name(), "CreateDocument");
    assert_eq!(DocumentEvent::ConvertDocument.name(), "ConvertDocument");
    assert_eq!(FolderEvent::MoveNestedView.name(), "MoveNestedView");
}
