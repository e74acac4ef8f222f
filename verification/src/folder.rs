//! The folder subsystem's commands and its plugin, built the same way as
//! the document plugin: fixed numeric codes with permitted gaps (reserved or
//! retired commands keep their numbers), one handler registered per active
//! command. `DeleteWorkspace` and `CopyLink` are declared but not registered.

use vstd::prelude::*;
use crate::codec::{Payload, PayloadTag, PayloadView};
use crate::handler::Handler;
use crate::plugin::Plugin;

verus! {

/// The commands of the folder subsystem.
#[derive(Clone, Copy, PartialEq, Eq, Structural, Hash, Debug)]
pub enum FolderEvent {
    CreateWorkspace,
    GetCurrentWorkspaceSetting,
    ReadCurrentWorkspace,
    DeleteWorkspace,
    OpenWorkspace,
    ReadWorkspaceViews,
    CreateView,
    ReadView,
    UpdateView,
    DeleteView,
    DuplicateView,
    CloseView,
    CreateOrphanView,
    CopyLink,
    SetLatestView,
    MoveView,
    ReadTrash,
    PutbackTrash,
    DeleteTrash,
    RestoreAllTrash,
    DeleteAllTrash,
    ImportData,
    GetFolderSnapshots,
    MoveNestedView,
    ReadFavorites,
    ToggleFavorite,
    UpdateViewIcon,
}

impl FolderEvent {
    /// The stable numeric code of this command.
    pub open spec fn spec_code(self) -> u64 {
        match self {
            FolderEvent::CreateWorkspace => 0,
            FolderEvent::GetCurrentWorkspaceSetting => 1,
            FolderEvent::ReadCurrentWorkspace => 2,
            FolderEvent::DeleteWorkspace => 3,
            FolderEvent::OpenWorkspace => 4,
            FolderEvent::ReadWorkspaceViews => 5,
            FolderEvent::CreateView => 10,
            FolderEvent::ReadView => 11,
            FolderEvent::UpdateView => 12,
            FolderEvent::DeleteView => 13,
            FolderEvent::DuplicateView => 14,
            FolderEvent::CloseView => 15,
            FolderEvent::CreateOrphanView => 16,
            FolderEvent::CopyLink => 20,
            FolderEvent::SetLatestView => 21,
            FolderEvent::MoveView => 22,
            FolderEvent::ReadTrash => 23,
            FolderEvent::PutbackTrash => 24,
            FolderEvent::DeleteTrash => 25,
            FolderEvent::RestoreAllTrash => 26,
            FolderEvent::DeleteAllTrash => 27,
            FolderEvent::ImportData => 30,
            FolderEvent::GetFolderSnapshots => 31,
            FolderEvent::MoveNestedView => 32,
            FolderEvent::ReadFavorites => 33,
            FolderEvent::ToggleFavorite => 34,
            FolderEvent::UpdateViewIcon => 35,
        }
    }

    /// The stable numeric code of this command.
    pub fn code(&self) -> (c: u64)
        ensures
            c == self.spec_code(),
    {
        match self {
            FolderEvent::CreateWorkspace => 0,
            FolderEvent::GetCurrentWorkspaceSetting => 1,
            FolderEvent::ReadCurrentWorkspace => 2,
            FolderEvent::DeleteWorkspace => 3,
            FolderEvent::OpenWorkspace => 4,
            FolderEvent::ReadWorkspaceViews => 5,
            FolderEvent::CreateView => 10,
            FolderEvent::ReadView => 11,
            FolderEvent::UpdateView => 12,
            FolderEvent::DeleteView => 13,
            FolderEvent::DuplicateView => 14,
            FolderEvent::CloseView => 15,
            FolderEvent::CreateOrphanView => 16,
            FolderEvent::CopyLink => 20,
            FolderEvent::SetLatestView => 21,
            FolderEvent::MoveView => 22,
            FolderEvent::ReadTrash => 23,
            FolderEvent::PutbackTrash => 24,
            FolderEvent::DeleteTrash => 25,
            FolderEvent::RestoreAllTrash => 26,
            FolderEvent::DeleteAllTrash => 27,
            FolderEvent::ImportData => 30,
            FolderEvent::GetFolderSnapshots => 31,
            FolderEvent::MoveNestedView => 32,
            FolderEvent::ReadFavorites => 33,
            FolderEvent::ToggleFavorite => 34,
            FolderEvent::UpdateViewIcon => 35,
        }
    }


    /// The textual name of this command, for diagnostics and tracing; it
    /// carries no behaviour.
    pub open spec fn spec_name(self) -> Seq<char> {
        match self {
            FolderEvent::CreateWorkspace => "CreateWorkspace"@,
            FolderEvent::GetCurrentWorkspaceSetting => "GetCurrentWorkspaceSetting"@,
            FolderEvent::ReadCurrentWorkspace => "ReadCurrentWorkspace"@,
            FolderEvent::DeleteWorkspace => "DeleteWorkspace"@,
            FolderEvent::OpenWorkspace => "OpenWorkspace"@,
            FolderEvent::ReadWorkspaceViews => "ReadWorkspaceViews"@,
            FolderEvent::CreateView => "CreateView"@,
            FolderEvent::ReadView => "ReadView"@,
            FolderEvent::UpdateView => "UpdateView"@,
            FolderEvent::DeleteView => "DeleteView"@,
            FolderEvent::DuplicateView => "DuplicateView"@,
            FolderEvent::CloseView => "CloseView"@,
            FolderEvent::CreateOrphanView => "CreateOrphanView"@,
            FolderEvent::CopyLink => "CopyLink"@,
            FolderEvent::SetLatestView => "SetLatestView"@,
            FolderEvent::MoveView => "MoveView"@,
            FolderEvent::ReadTrash => "ReadTrash"@,
            FolderEvent::PutbackTrash => "PutbackTrash"@,
            FolderEvent::DeleteTrash => "DeleteTrash"@,
            FolderEvent::RestoreAllTrash => "RestoreAllTrash"@,
            FolderEvent::DeleteAllTrash => "DeleteAllTrash"@,
            FolderEvent::ImportData => "ImportData"@,
            FolderEvent::GetFolderSnapshots => "GetFolderSnapshots"@,
            FolderEvent::MoveNestedView => "MoveNestedView"@,
            FolderEvent::ReadFavorites => "ReadFavorites"@,
            FolderEvent::ToggleFavorite => "ToggleFavorite"@,
            FolderEvent::UpdateViewIcon => "UpdateViewIcon"@,
        }
    }

    /// The textual name of this command, for diagnostics and tracing.
    pub fn name(&self) -> (s: &'static str)
        ensures
            s@ == self.spec_name(),
    {
        match self {
            FolderEvent::CreateWorkspace => "CreateWorkspace",
            FolderEvent::GetCurrentWorkspaceSetting => "GetCurrentWorkspaceSetting",
            FolderEvent::ReadCurrentWorkspace => "ReadCurrentWorkspace",
            FolderEvent::DeleteWorkspace => "DeleteWorkspace",
            FolderEvent::OpenWorkspace => "OpenWorkspace",
            FolderEvent::ReadWorkspaceViews => "ReadWorkspaceViews",
            FolderEvent::CreateView => "CreateView",
            FolderEvent::ReadView => "ReadView",
            FolderEvent::UpdateView => "UpdateView",
            FolderEvent::DeleteView => "DeleteView",
            FolderEvent::DuplicateView => "DuplicateView",
            FolderEvent::CloseView => "CloseView",
            FolderEvent::CreateOrphanView => "CreateOrphanView",
            FolderEvent::CopyLink => "CopyLink",
            FolderEvent::SetLatestView => "SetLatestView",
            FolderEvent::MoveView => "MoveView",
            FolderEvent::ReadTrash => "ReadTrash",
            FolderEvent::PutbackTrash => "PutbackTrash",
            FolderEvent::DeleteTrash => "DeleteTrash",
            FolderEvent::RestoreAllTrash => "RestoreAllTrash",
            FolderEvent::DeleteAllTrash => "DeleteAllTrash",
            FolderEvent::ImportData => "ImportData",
            FolderEvent::GetFolderSnapshots => "GetFolderSnapshots",
            FolderEvent::MoveNestedView => "MoveNestedView",
            FolderEvent::ReadFavorites => "ReadFavorites",
            FolderEvent::ToggleFavorite => "ToggleFavorite",
            FolderEvent::UpdateViewIcon => "UpdateViewIcon",
        }
    }

    /// The declared request shape of this command; `None` accepts no
    /// payload.
    pub open spec fn spec_request_tag(self) -> Option<PayloadTag> {
        match self {
            FolderEvent::CreateWorkspace => Some(PayloadTag::Data),
            FolderEvent::GetCurrentWorkspaceSetting => None,
            FolderEvent::ReadCurrentWorkspace => None,
            FolderEvent::DeleteWorkspace => Some(PayloadTag::Id),
            FolderEvent::OpenWorkspace => Some(PayloadTag::Id),
            FolderEvent::ReadWorkspaceViews => Some(PayloadTag::Id),
            FolderEvent::CreateView => Some(PayloadTag::Data),
            FolderEvent::ReadView => Some(PayloadTag::Id),
            FolderEvent::UpdateView => Some(PayloadTag::Data),
            FolderEvent::DeleteView => Some(PayloadTag::Data),
            FolderEvent::DuplicateView => Some(PayloadTag::Data),
            FolderEvent::CloseView => Some(PayloadTag::Id),
            FolderEvent::CreateOrphanView => Some(PayloadTag::Data),
            FolderEvent::CopyLink => None,
            FolderEvent::SetLatestView => Some(PayloadTag::Id),
            FolderEvent::MoveView => Some(PayloadTag::Data),
            FolderEvent::ReadTrash => None,
            FolderEvent::PutbackTrash => Some(PayloadTag::Id),
            FolderEvent::DeleteTrash => Some(PayloadTag::Data),
            FolderEvent::RestoreAllTrash => None,
            FolderEvent::DeleteAllTrash => None,
            FolderEvent::ImportData => Some(PayloadTag::Data),
            FolderEvent::GetFolderSnapshots => Some(PayloadTag::Id),
            FolderEvent::MoveNestedView => Some(PayloadTag::Data),
            FolderEvent::ReadFavorites => None,
            FolderEvent::ToggleFavorite => Some(PayloadTag::Data),
            FolderEvent::UpdateViewIcon => Some(PayloadTag::Data),
        }
    }

    /// The declared response shape of this command; `None` returns no
    /// payload on success.
    pub open spec fn spec_response_tag(self) -> Option<PayloadTag> {
        match self {
            FolderEvent::CreateWorkspace => Some(PayloadTag::Record),
            FolderEvent::GetCurrentWorkspaceSetting => Some(PayloadTag::Data),
            FolderEvent::ReadCurrentWorkspace => Some(PayloadTag::Record),
            FolderEvent::DeleteWorkspace => None,
            FolderEvent::OpenWorkspace => Some(PayloadTag::Record),
            FolderEvent::ReadWorkspaceViews => Some(PayloadTag::Data),
            FolderEvent::CreateView => Some(PayloadTag::Record),
            FolderEvent::ReadView => Some(PayloadTag::Record),
            FolderEvent::UpdateView => Some(PayloadTag::Record),
            FolderEvent::DeleteView => None,
            FolderEvent::DuplicateView => None,
            FolderEvent::CloseView => None,
            FolderEvent::CreateOrphanView => Some(PayloadTag::Record),
            FolderEvent::CopyLink => None,
            FolderEvent::SetLatestView => None,
            FolderEvent::MoveView => None,
            FolderEvent::ReadTrash => Some(PayloadTag::Data),
            FolderEvent::PutbackTrash => None,
            FolderEvent::DeleteTrash => None,
            FolderEvent::RestoreAllTrash => None,
            FolderEvent::DeleteAllTrash => None,
            FolderEvent::ImportData => None,
            FolderEvent::GetFolderSnapshots => Some(PayloadTag::Data),
            FolderEvent::MoveNestedView => None,
            FolderEvent::ReadFavorites => Some(PayloadTag::Data),
            FolderEvent::ToggleFavorite => None,
            FolderEvent::UpdateViewIcon => None,
        }
    }

    /// The declared request shape of this command.
    pub fn request_tag(&self) -> (t: Option<PayloadTag>)
        ensures
            t == self.spec_request_tag(),
    {
        match self {
            FolderEvent::CreateWorkspace => Some(PayloadTag::Data),
            FolderEvent::GetCurrentWorkspaceSetting => None,
            FolderEvent::ReadCurrentWorkspace => None,
            FolderEvent::DeleteWorkspace => Some(PayloadTag::Id),
            FolderEvent::OpenWorkspace => Some(PayloadTag::Id),
            FolderEvent::ReadWorkspaceViews => Some(PayloadTag::Id),
            FolderEvent::CreateView => Some(PayloadTag::Data),
            FolderEvent::ReadView => Some(PayloadTag::Id),
            FolderEvent::UpdateView => Some(PayloadTag::Data),
            FolderEvent::DeleteView => Some(PayloadTag::Data),
            FolderEvent::DuplicateView => Some(PayloadTag::Data),
            FolderEvent::CloseView => Some(PayloadTag::Id),
            FolderEvent::CreateOrphanView => Some(PayloadTag::Data),
            FolderEvent::CopyLink => None,
            FolderEvent::SetLatestView => Some(PayloadTag::Id),
            FolderEvent::MoveView => Some(PayloadTag::Data),
            FolderEvent::ReadTrash => None,
            FolderEvent::PutbackTrash => Some(PayloadTag::Id),
            FolderEvent::DeleteTrash => Some(PayloadTag::Data),
            FolderEvent::RestoreAllTrash => None,
            FolderEvent::DeleteAllTrash => None,
            FolderEvent::ImportData => Some(PayloadTag::Data),
            FolderEvent::GetFolderSnapshots => Some(PayloadTag::Id),
            FolderEvent::MoveNestedView => Some(PayloadTag::Data),
            FolderEvent::ReadFavorites => None,
            FolderEvent::ToggleFavorite => Some(PayloadTag::Data),
            FolderEvent::UpdateViewIcon => Some(PayloadTag::Data),
        }
    }

    /// The declared response shape of this command.
    pub fn response_tag(&self) -> (t: Option<PayloadTag>)
        ensures
            t == self.spec_response_tag(),
    {
        match self {
            FolderEvent::CreateWorkspace => Some(PayloadTag::Record),
            FolderEvent::GetCurrentWorkspaceSetting => Some(PayloadTag::Data),
            FolderEvent::ReadCurrentWorkspace => Some(PayloadTag::Record),
            FolderEvent::DeleteWorkspace => None,
            FolderEvent::OpenWorkspace => Some(PayloadTag::Record),
            FolderEvent::ReadWorkspaceViews => Some(PayloadTag::Data),
            FolderEvent::CreateView => Some(PayloadTag::Record),
            FolderEvent::ReadView => Some(PayloadTag::Record),
            FolderEvent::UpdateView => Some(PayloadTag::Record),
            FolderEvent::DeleteView => None,
            FolderEvent::DuplicateView => None,
            FolderEvent::CloseView => None,
            FolderEvent::CreateOrphanView => Some(PayloadTag::Record),
            FolderEvent::CopyLink => None,
            FolderEvent::SetLatestView => None,
            FolderEvent::MoveView => None,
            FolderEvent::ReadTrash => Some(PayloadTag::Data),
            FolderEvent::PutbackTrash => None,
            FolderEvent::DeleteTrash => None,
            FolderEvent::RestoreAllTrash => None,
            FolderEvent::DeleteAllTrash => None,
            FolderEvent::ImportData => None,
            FolderEvent::GetFolderSnapshots => Some(PayloadTag::Data),
            FolderEvent::MoveNestedView => None,
            FolderEvent::ReadFavorites => Some(PayloadTag::Data),
            FolderEvent::ToggleFavorite => None,
            FolderEvent::UpdateViewIcon => None,
        }
    }

    /// True of the commands the folder plugin registers a handler for;
    /// `DeleteWorkspace` and `CopyLink` are reserved, declared without a
    /// handler.
    pub open spec fn spec_registered(self) -> bool {
        !(self is DeleteWorkspace || self is CopyLink)
    }
}

/// Codes are pairwise distinct: two folder commands with one code are the
/// same command.
pub proof fn lemma_folder_codes_distinct(a: FolderEvent, b: FolderEvent)
    ensures
        a.spec_code() == b.spec_code() ==> a == b,
{
}

/// The handler the folder plugin installs for a registered command.
pub open spec fn folder_binding(e: FolderEvent, h: Handler) -> bool {
    match e {
        FolderEvent::CreateWorkspace => h matches Handler::Respond { request: Some(PayloadTag::Data), response } && response@ == (PayloadView::Record { id: 0, data: Seq::<u8>::empty() }),
        FolderEvent::GetCurrentWorkspaceSetting => h matches Handler::Respond { request: None, response } && response@ == PayloadView::Data(Seq::<u8>::empty()),
        FolderEvent::ReadCurrentWorkspace => h matches Handler::Respond { request: None, response } && response@ == (PayloadView::Record { id: 0, data: Seq::<u8>::empty() }),
        FolderEvent::DeleteWorkspace => true,
        FolderEvent::OpenWorkspace => h matches Handler::Fetch { missing } && missing@ == "workspace missing"@,
        FolderEvent::ReadWorkspaceViews => h matches Handler::Respond { request: Some(PayloadTag::Id), response } && response@ == PayloadView::Data(Seq::<u8>::empty()),
        FolderEvent::CreateView => h matches Handler::Respond { request: Some(PayloadTag::Data), response } && response@ == (PayloadView::Record { id: 0, data: Seq::<u8>::empty() }),
        FolderEvent::ReadView => h matches Handler::Fetch { missing } && missing@ == "view missing"@,
        FolderEvent::UpdateView => h matches Handler::Respond { request: Some(PayloadTag::Data), response } && response@ == (PayloadView::Record { id: 0, data: Seq::<u8>::empty() }),
        FolderEvent::DeleteView => h == Handler::Ack(Some(PayloadTag::Data)),
        FolderEvent::DuplicateView => h == Handler::Ack(Some(PayloadTag::Data)),
        FolderEvent::CloseView => h == Handler::Ack(Some(PayloadTag::Id)),
        FolderEvent::CreateOrphanView => h matches Handler::Respond { request: Some(PayloadTag::Data), response } && response@ == (PayloadView::Record { id: 0, data: Seq::<u8>::empty() }),
        FolderEvent::CopyLink => true,
        FolderEvent::SetLatestView => h == Handler::Ack(Some(PayloadTag::Id)),
        FolderEvent::MoveView => h == Handler::Ack(Some(PayloadTag::Data)),
        FolderEvent::ReadTrash => h matches Handler::Respond { request: None, response } && response@ == PayloadView::Data(Seq::<u8>::empty()),
        FolderEvent::PutbackTrash => h == Handler::Ack(Some(PayloadTag::Id)),
        FolderEvent::DeleteTrash => h == Handler::Ack(Some(PayloadTag::Data)),
        FolderEvent::RestoreAllTrash => h == Handler::Ack(None),
        FolderEvent::DeleteAllTrash => h == Handler::Ack(None),
        FolderEvent::ImportData => h == Handler::Ack(Some(PayloadTag::Data)),
        FolderEvent::GetFolderSnapshots => h matches Handler::Respond { request: Some(PayloadTag::Id), response } && response@ == PayloadView::Data(Seq::<u8>::empty()),
        FolderEvent::MoveNestedView => h == Handler::Ack(Some(PayloadTag::Data)),
        FolderEvent::ReadFavorites => h matches Handler::Respond { request: None, response } && response@ == PayloadView::Data(Seq::<u8>::empty()),
        FolderEvent::ToggleFavorite => h == Handler::Ack(Some(PayloadTag::Data)),
        FolderEvent::UpdateViewIcon => h == Handler::Ack(Some(PayloadTag::Data)),
    }
}

/// Builds the folder plugin: binds the shared-state key and registers one
/// handler per active folder command. The declared request and response
/// shapes of every registered handler match the command's own declaration;
/// the reserved commands stay unregistered.
pub fn init(folder: u64) -> (p: Plugin)
    ensures
        p.wf(),
        p.spec_name() == "folder"@,
        p.spec_state() == Some(folder),
        forall|e: FolderEvent|
            e.spec_registered() ==> #[trigger] p.spec_handlers().contains_key(e.spec_code()),
        forall|e: FolderEvent|
            e.spec_registered() ==> folder_binding(
                e,
                p.spec_handlers()[#[trigger] e.spec_code()],
            ),
        forall|e: FolderEvent|
            e.spec_registered() ==> p.spec_handlers()[#[trigger] e.spec_code()].spec_request_tag()
                == e.spec_request_tag() && p.spec_handlers()[e.spec_code()].spec_response_tag()
                == e.spec_response_tag(),
        !p.spec_handlers().contains_key(FolderEvent::DeleteWorkspace.spec_code()),
        !p.spec_handlers().contains_key(FolderEvent::CopyLink.spec_code()),
{
    let mut p = Plugin::new(String::from_str("folder")).with_state(folder);
        p = p.register(FolderEvent::CreateWorkspace.code(), Handler::Respond { request: Some(PayloadTag::Data), response: Payload::Record { id: 0, data: Vec::new() } });
        p = p.register(FolderEvent::GetCurrentWorkspaceSetting.code(), Handler::Respond { request: None, response: Payload::Data(Vec::new()) });
        p = p.register(FolderEvent::ReadCurrentWorkspace.code(), Handler::Respond { request: None, response: Payload::Record { id: 0, data: Vec::new() } });
        p = p.register(FolderEvent::OpenWorkspace.code(), Handler::Fetch { missing: String::from_str("workspace missing") });
        p = p.register(FolderEvent::ReadWorkspaceViews.code(), Handler::Respond { request: Some(PayloadTag::Id), response: Payload::Data(Vec::new()) });
        p = p.register(FolderEvent::CreateView.code(), Handler::Respond { request: Some(PayloadTag::Data), response: Payload::Record { id: 0, data: Vec::new() } });
        p = p.register(FolderEvent::ReadView.code(), Handler::Fetch { missing: String::from_str("view missing") });
        p = p.register(FolderEvent::UpdateView.code(), Handler::Respond { request: Some(PayloadTag::Data), response: Payload::Record { id: 0, data: Vec::new() } });
        p = p.register(FolderEvent::DeleteView.code(), Handler::Ack(Some(PayloadTag::Data)));
        p = p.register(FolderEvent::DuplicateView.code(), Handler::Ack(Some(PayloadTag::Data)));
        p = p.register(FolderEvent::CloseView.code(), Handler::Ack(Some(PayloadTag::Id)));
        p = p.register(FolderEvent::CreateOrphanView.code(), Handler::Respond { request: Some(PayloadTag::Data), response: Payload::Record { id: 0, data: Vec::new() } });
        p = p.register(FolderEvent::SetLatestView.code(), Handler::Ack(Some(PayloadTag::Id)));
        p = p.register(FolderEvent::MoveView.code(), Handler::Ack(Some(PayloadTag::Data)));
        p = p.register(FolderEvent::ReadTrash.code(), Handler::Respond { request: None, response: Payload::Data(Vec::new()) });
        p = p.register(FolderEvent::PutbackTrash.code(), Handler::Ack(Some(PayloadTag::Id)));
        p = p.register(FolderEvent::DeleteTrash.code(), Handler::Ack(Some(PayloadTag::Data)));
        p = p.register(FolderEvent::RestoreAllTrash.code(), Handler::Ack(None));
        p = p.register(FolderEvent::DeleteAllTrash.code(), Handler::Ack(None));
        p = p.register(FolderEvent::ImportData.code(), Handler::Ack(Some(PayloadTag::Data)));
        p = p.register(FolderEvent::GetFolderSnapshots.code(), Handler::Respond { request: Some(PayloadTag::Id), response: Payload::Data(Vec::new()) });
        p = p.register(FolderEvent::MoveNestedView.code(), Handler::Ack(Some(PayloadTag::Data)));
        p = p.register(FolderEvent::ReadFavorites.code(), Handler::Respond { request: None, response: Payload::Data(Vec::new()) });
        p = p.register(FolderEvent::ToggleFavorite.code(), Handler::Ack(Some(PayloadTag::Data)));
        p = p.register(FolderEvent::UpdateViewIcon.code(), Handler::Ack(Some(PayloadTag::Data)));
    p
}

} // verus!
