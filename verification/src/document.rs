//! The document subsystem's commands and its plugin. Each command carries a
//! fixed, explicitly assigned numeric code, stable across releases: gaps are
//! permitted, a retired number is never reused for a different command, and
//! equality is by the code. The textual name serves diagnostics only.

use vstd::prelude::*;
use crate::codec::{Payload, PayloadTag, PayloadView};
use crate::handler::Handler;
use crate::plugin::Plugin;

verus! {

/// The commands of the document subsystem.
#[derive(Clone, Copy, PartialEq, Eq, Structural, Hash, Debug)]
pub enum DocumentEvent {
    CreateDocument,
    OpenDocument,
    CloseDocument,
    ApplyAction,
    GetDocumentData,
    ConvertDataToDocument,
    Redo,
    Undo,
    CanUndoRedo,
    GetDocumentSnapshots,
    CreateText,
    ApplyTextDeltaEvent,
    ConvertDocument,
}

impl DocumentEvent {
    /// The stable numeric code of this command.
    pub open spec fn spec_code(self) -> u64 {
        match self {
            DocumentEvent::CreateDocument => 0,
            DocumentEvent::OpenDocument => 1,
            DocumentEvent::CloseDocument => 2,
            DocumentEvent::ApplyAction => 3,
            DocumentEvent::GetDocumentData => 4,
            DocumentEvent::ConvertDataToDocument => 5,
            DocumentEvent::Redo => 6,
            DocumentEvent::Undo => 7,
            DocumentEvent::CanUndoRedo => 8,
            DocumentEvent::GetDocumentSnapshots => 9,
            DocumentEvent::CreateText => 10,
            DocumentEvent::ApplyTextDeltaEvent => 11,
            DocumentEvent::ConvertDocument => 12,
        }
    }

    /// The stable numeric code of this command.
    pub fn code(&self) -> (c: u64)
        ensures
            c == self.spec_code(),
    {
        match self {
            DocumentEvent::CreateDocument => 0,
            DocumentEvent::OpenDocument => 1,
            DocumentEvent::CloseDocument => 2,
            DocumentEvent::ApplyAction => 3,
            DocumentEvent::GetDocumentData => 4,
            DocumentEvent::ConvertDataToDocument => 5,
            DocumentEvent::Redo => 6,
            DocumentEvent::Undo => 7,
            DocumentEvent::CanUndoRedo => 8,
            DocumentEvent::GetDocumentSnapshots => 9,
            DocumentEvent::CreateText => 10,
            DocumentEvent::ApplyTextDeltaEvent => 11,
            DocumentEvent::ConvertDocument => 12,
        }
    }


    /// The textual name of this command, for diagnostics and tracing; it
    /// carries no behaviour.
    pub open spec fn spec_name(self) -> Seq<char> {
        match self {
            DocumentEvent::CreateDocument => "CreateDocument"@,
            DocumentEvent::OpenDocument => "OpenDocument"@,
            DocumentEvent::CloseDocument => "CloseDocument"@,
            DocumentEvent::ApplyAction => "ApplyAction"@,
            DocumentEvent::GetDocumentData => "GetDocumentData"@,
            DocumentEvent::ConvertDataToDocument => "ConvertDataToDocument"@,
            DocumentEvent::Redo => "Redo"@,
            DocumentEvent::Undo => "Undo"@,
            DocumentEvent::CanUndoRedo => "CanUndoRedo"@,
            DocumentEvent::GetDocumentSnapshots => "GetDocumentSnapshots"@,
            DocumentEvent::CreateText => "CreateText"@,
            DocumentEvent::ApplyTextDeltaEvent => "ApplyTextDeltaEvent"@,
            DocumentEvent::ConvertDocument => "ConvertDocument"@,
        }
    }

    /// The textual name of this command, for diagnostics and tracing.
    pub fn name(&self) -> (s: &'static str)
        ensures
            s@ == self.spec_name(),
    {
        match self {
            DocumentEvent::CreateDocument => "CreateDocument",
            DocumentEvent::OpenDocument => "OpenDocument",
            DocumentEvent::CloseDocument => "CloseDocument",
            DocumentEvent::ApplyAction => "ApplyAction",
            DocumentEvent::GetDocumentData => "GetDocumentData",
            DocumentEvent::ConvertDataToDocument => "ConvertDataToDocument",
            DocumentEvent::Redo => "Redo",
            DocumentEvent::Undo => "Undo",
            DocumentEvent::CanUndoRedo => "CanUndoRedo",
            DocumentEvent::GetDocumentSnapshots => "GetDocumentSnapshots",
            DocumentEvent::CreateText => "CreateText",
            DocumentEvent::ApplyTextDeltaEvent => "ApplyTextDeltaEvent",
            DocumentEvent::ConvertDocument => "ConvertDocument",
        }
    }

    /// The declared request shape of this command; `None` accepts no
    /// payload.
    pub open spec fn spec_request_tag(self) -> Option<PayloadTag> {
        match self {
            DocumentEvent::CreateDocument => Some(PayloadTag::Record),
            DocumentEvent::OpenDocument => Some(PayloadTag::Id),
            DocumentEvent::CloseDocument => Some(PayloadTag::Id),
            DocumentEvent::ApplyAction => Some(PayloadTag::Data),
            DocumentEvent::GetDocumentData => Some(PayloadTag::Id),
            DocumentEvent::ConvertDataToDocument => Some(PayloadTag::Data),
            DocumentEvent::Redo => Some(PayloadTag::Id),
            DocumentEvent::Undo => Some(PayloadTag::Id),
            DocumentEvent::CanUndoRedo => Some(PayloadTag::Id),
            DocumentEvent::GetDocumentSnapshots => Some(PayloadTag::Id),
            DocumentEvent::CreateText => Some(PayloadTag::Data),
            DocumentEvent::ApplyTextDeltaEvent => Some(PayloadTag::Data),
            DocumentEvent::ConvertDocument => Some(PayloadTag::Data),
        }
    }

    /// The declared response shape of this command; `None` returns no
    /// payload on success.
    pub open spec fn spec_response_tag(self) -> Option<PayloadTag> {
        match self {
            DocumentEvent::CreateDocument => None,
            DocumentEvent::OpenDocument => Some(PayloadTag::Record),
            DocumentEvent::CloseDocument => None,
            DocumentEvent::ApplyAction => None,
            DocumentEvent::GetDocumentData => Some(PayloadTag::Record),
            DocumentEvent::ConvertDataToDocument => Some(PayloadTag::Record),
            DocumentEvent::Redo => Some(PayloadTag::Data),
            DocumentEvent::Undo => Some(PayloadTag::Data),
            DocumentEvent::CanUndoRedo => Some(PayloadTag::Data),
            DocumentEvent::GetDocumentSnapshots => Some(PayloadTag::Data),
            DocumentEvent::CreateText => None,
            DocumentEvent::ApplyTextDeltaEvent => None,
            DocumentEvent::ConvertDocument => Some(PayloadTag::Data),
        }
    }

    /// The declared request shape of this command.
    pub fn request_tag(&self) -> (t: Option<PayloadTag>)
        ensures
            t == self.spec_request_tag(),
    {
        match self {
            DocumentEvent::CreateDocument => Some(PayloadTag::Record),
            DocumentEvent::OpenDocument => Some(PayloadTag::Id),
            DocumentEvent::CloseDocument => Some(PayloadTag::Id),
            DocumentEvent::ApplyAction => Some(PayloadTag::Data),
            DocumentEvent::GetDocumentData => Some(PayloadTag::Id),
            DocumentEvent::ConvertDataToDocument => Some(PayloadTag::Data),
            DocumentEvent::Redo => Some(PayloadTag::Id),
            DocumentEvent::Undo => Some(PayloadTag::Id),
            DocumentEvent::CanUndoRedo => Some(PayloadTag::Id),
            DocumentEvent::GetDocumentSnapshots => Some(PayloadTag::Id),
            DocumentEvent::CreateText => Some(PayloadTag::Data),
            DocumentEvent::ApplyTextDeltaEvent => Some(PayloadTag::Data),
            DocumentEvent::ConvertDocument => Some(PayloadTag::Data),
        }
    }

    /// The declared response shape of this command.
    pub fn response_tag(&self) -> (t: Option<PayloadTag>)
        ensures
            t == self.spec_response_tag(),
    {
        match self {
            DocumentEvent::CreateDocument => None,
            DocumentEvent::OpenDocument => Some(PayloadTag::Record),
            DocumentEvent::CloseDocument => None,
            DocumentEvent::ApplyAction => None,
            DocumentEvent::GetDocumentData => Some(PayloadTag::Record),
            DocumentEvent::ConvertDataToDocument => Some(PayloadTag::Record),
            DocumentEvent::Redo => Some(PayloadTag::Data),
            DocumentEvent::Undo => Some(PayloadTag::Data),
            DocumentEvent::CanUndoRedo => Some(PayloadTag::Data),
            DocumentEvent::GetDocumentSnapshots => Some(PayloadTag::Data),
            DocumentEvent::CreateText => None,
            DocumentEvent::ApplyTextDeltaEvent => None,
            DocumentEvent::ConvertDocument => Some(PayloadTag::Data),
        }
    }
}

/// Codes are pairwise distinct: two document commands with one code are the
/// same command.
pub proof fn lemma_document_codes_distinct(a: DocumentEvent, b: DocumentEvent)
    ensures
        a.spec_code() == b.spec_code() ==> a == b,
{
}

/// The handler the document plugin installs for a command.
pub open spec fn document_binding(e: DocumentEvent, h: Handler) -> bool {
    match e {
        DocumentEvent::CreateDocument => h == Handler::Store,
        DocumentEvent::OpenDocument => h matches Handler::Fetch { missing } && missing@
            == "document missing"@,
        DocumentEvent::CloseDocument => h == Handler::Ack(Some(PayloadTag::Id)),
        DocumentEvent::ApplyAction => h == Handler::Ack(Some(PayloadTag::Data)),
        DocumentEvent::GetDocumentData => h matches Handler::Fetch { missing } && missing@
            == "document missing"@,
        DocumentEvent::ConvertDataToDocument => h matches Handler::Respond {
            request: Some(PayloadTag::Data),
            response,
        } && response@ == (PayloadView::Record { id: 0, data: Seq::<u8>::empty() }),
        DocumentEvent::Redo => h matches Handler::Respond { request: Some(PayloadTag::Id), response }
            && response@ == PayloadView::Data(Seq::<u8>::empty()),
        DocumentEvent::Undo => h matches Handler::Respond { request: Some(PayloadTag::Id), response }
            && response@ == PayloadView::Data(Seq::<u8>::empty()),
        DocumentEvent::CanUndoRedo => h matches Handler::Respond {
            request: Some(PayloadTag::Id),
            response,
        } && response@ == PayloadView::Data(Seq::<u8>::empty()),
        DocumentEvent::GetDocumentSnapshots => h matches Handler::Respond {
            request: Some(PayloadTag::Id),
            response,
        } && response@ == PayloadView::Data(Seq::<u8>::empty()),
        DocumentEvent::CreateText => h == Handler::Ack(Some(PayloadTag::Data)),
        DocumentEvent::ApplyTextDeltaEvent => h == Handler::Ack(Some(PayloadTag::Data)),
        DocumentEvent::ConvertDocument => h == Handler::Echo(PayloadTag::Data),
    }
}

/// Builds the document plugin: binds the shared-state key and registers one
/// handler per document command. The declared request and response shapes of
/// every registered handler match the command's own declaration.
pub fn init(state: u64) -> (p: Plugin)
    ensures
        p.wf(),
        p.spec_name() == "document"@,
        p.spec_state() == Some(state),
        forall|e: DocumentEvent| #[trigger] p.spec_handlers().contains_key(e.spec_code()),
        forall|e: DocumentEvent| document_binding(e, p.spec_handlers()[#[trigger] e.spec_code()]),
        forall|e: DocumentEvent|
            p.spec_handlers()[#[trigger] e.spec_code()].spec_request_tag() == e.spec_request_tag()
                && p.spec_handlers()[e.spec_code()].spec_response_tag() == e.spec_response_tag(),
{
    let p = Plugin::new(String::from_str("document")).with_state(state).register(
        DocumentEvent::CreateDocument.code(),
        Handler::Store,
    ).register(
        DocumentEvent::OpenDocument.code(),
        Handler::Fetch { missing: String::from_str("document missing") },
    ).register(DocumentEvent::CloseDocument.code(), Handler::Ack(Some(PayloadTag::Id))).register(
        DocumentEvent::ApplyAction.code(),
        Handler::Ack(Some(PayloadTag::Data)),
    ).register(
        DocumentEvent::GetDocumentData.code(),
        Handler::Fetch { missing: String::from_str("document missing") },
    ).register(
        DocumentEvent::ConvertDataToDocument.code(),
        Handler::Respond {
            request: Some(PayloadTag::Data),
            response: Payload::Record { id: 0, data: Vec::new() },
        },
    ).register(
        DocumentEvent::Redo.code(),
        Handler::Respond { request: Some(PayloadTag::Id), response: Payload::Data(Vec::new()) },
    ).register(
        DocumentEvent::Undo.code(),
        Handler::Respond { request: Some(PayloadTag::Id), response: Payload::Data(Vec::new()) },
    ).register(
        DocumentEvent::CanUndoRedo.code(),
        Handler::Respond { request: Some(PayloadTag::Id), response: Payload::Data(Vec::new()) },
    ).register(
        DocumentEvent::GetDocumentSnapshots.code(),
        Handler::Respond { request: Some(PayloadTag::Id), response: Payload::Data(Vec::new()) },
    ).register(DocumentEvent::CreateText.code(), Handler::Ack(Some(PayloadTag::Data))).register(
        DocumentEvent::ApplyTextDeltaEvent.code(),
        Handler::Ack(Some(PayloadTag::Data)),
    ).register(DocumentEvent::ConvertDocument.code(), Handler::Echo(PayloadTag::Data));
    proof {
        assert forall|e: DocumentEvent| #[trigger]
            p.spec_handlers().contains_key(e.spec_code()) by {
            let c = e.spec_code();
            assert(0 <= c <= 12);
        }
    }
    p
}

} // verus!
