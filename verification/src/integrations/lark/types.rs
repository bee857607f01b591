//! Request and record types of the pinned `lark-cli` profile.
use vstd::prelude::*;

use crate::integrations::lark::error::LarkCliError;
use crate::integrations::lark::identity::ChatId;
use crate::integrations::lark::identity::LarkIdentity;
use crate::integrations::lark::identity::MessageId;
use crate::integrations::lark::identity::OpenId;

verus! {

/// Capabilities verified against `lark-cli 1.0.0`.
#[derive(Clone, Copy, Debug, PartialEq, Eq, Structural)]
pub struct LarkCliCapabilities {
    pub documents: bool,
    pub document_revisions: bool,
    pub document_revision_aware_updates: bool,
    pub chats: bool,
    pub identity_search: bool,
    pub chat_members: bool,
    pub idempotent_messages: bool,
    pub raw_events: bool,
}

/// Exact live-safety decision for the pinned CLI profile.
#[derive(Clone, Copy, Debug, PartialEq, Eq, Structural)]
pub enum LarkWorkflowCompatibility {
    Supported,
    MissingRevisionAwareDocumentUpdates,
}

impl LarkCliCapabilities {
    pub open spec fn spec_all(self) -> bool {
        self.documents && self.document_revisions && self.document_revision_aware_updates
            && self.chats && self.identity_search && self.chat_members && self.idempotent_messages
            && self.raw_events
    }

    /// The profile of `lark-cli 1.0.0`: every capability present.
    pub fn verified() -> (r: Self)
        ensures
            r.spec_all(),
    {
        LarkCliCapabilities {
            documents: true,
            document_revisions: true,
            document_revision_aware_updates: true,
            chats: true,
            identity_search: true,
            chat_members: true,
            idempotent_messages: true,
            raw_events: true,
        }
    }

    /// Returns whether this profile can safely perform the feature workflow.
    pub fn lark_feature_workflow_compatibility(self) -> (r: LarkWorkflowCompatibility)
        ensures
            r == (if self.spec_all() {
                LarkWorkflowCompatibility::Supported
            } else {
                LarkWorkflowCompatibility::MissingRevisionAwareDocumentUpdates
            }),
    {
        if self.documents && self.document_revisions && self.document_revision_aware_updates
            && self.chats && self.identity_search && self.chat_members && self.idempotent_messages
            && self.raw_events {
            LarkWorkflowCompatibility::Supported
        } else {
            LarkWorkflowCompatibility::MissingRevisionAwareDocumentUpdates
        }
    }
}

/// Whether content may cross the CLI argv boundary.
#[derive(Clone, Copy, Debug, PartialEq, Eq, Structural)]
pub enum ContentSensitivity {
    NonSensitive,
    Sensitive,
}

impl ContentSensitivity {
    /// Sensitive content is refused on argv.
    pub fn require_argv_safe(self) -> (r: Result<(), LarkCliError>)
        ensures
            self == ContentSensitivity::NonSensitive <==> r is Ok,
            self == ContentSensitivity::Sensitive ==> r == Err::<(), LarkCliError>(
                LarkCliError::SensitiveArgv,
            ),
    {
        match self {
            ContentSensitivity::NonSensitive => Ok(()),
            ContentSensitivity::Sensitive => Err(LarkCliError::SensitiveArgv),
        }
    }
}

#[derive(Clone, Debug, PartialEq, Eq)]
pub struct DocumentCreateRequest {
    pub identity: LarkIdentity,
    pub title: Option<String>,
    pub markdown: String,
    pub parent: Option<DocumentParent>,
    pub sensitivity: ContentSensitivity,
}

#[derive(Clone, Debug, PartialEq, Eq)]
pub enum DocumentParent {
    Folder(String),
    WikiNode(String),
    WikiSpace(String),
}

#[derive(Clone, Debug, PartialEq, Eq)]
pub struct DocumentRecord {
    pub doc_id: String,
    pub doc_url: String,
    pub revision_id: String,
    pub message: String,
}

#[derive(Clone, Debug, PartialEq, Eq)]
pub struct DocumentSnapshot {
    pub doc_id: String,
    pub doc_url: String,
    pub revision_id: String,
    pub markdown: String,
}

#[derive(Clone, Debug, PartialEq, Eq)]
pub enum DocumentMatch {
    Missing,
    Found(DocumentSnapshot),
    Ambiguous(Vec<DocumentSnapshot>),
}

#[derive(Clone, Copy, Debug, PartialEq, Eq, Structural)]
pub enum DocumentUpdateMode {
    Append,
    Overwrite,
    ReplaceRange,
    ReplaceAll,
    InsertBefore,
    InsertAfter,
    DeleteRange,
}

pub open spec fn spec_mode_name(mode: DocumentUpdateMode) -> Seq<char> {
    match mode {
        DocumentUpdateMode::Append => "append"@,
        DocumentUpdateMode::Overwrite => "overwrite"@,
        DocumentUpdateMode::ReplaceRange => "replace_range"@,
        DocumentUpdateMode::ReplaceAll => "replace_all"@,
        DocumentUpdateMode::InsertBefore => "insert_before"@,
        DocumentUpdateMode::InsertAfter => "insert_after"@,
        DocumentUpdateMode::DeleteRange => "delete_range"@,
    }
}

impl DocumentUpdateMode {
    /// The `--mode` argument value.
    pub fn as_str(self) -> (r: &'static str)
        ensures
            r@ == spec_mode_name(self),
    {
        match self {
            DocumentUpdateMode::Append => "append",
            DocumentUpdateMode::Overwrite => "overwrite",
            DocumentUpdateMode::ReplaceRange => "replace_range",
            DocumentUpdateMode::ReplaceAll => "replace_all",
            DocumentUpdateMode::InsertBefore => "insert_before",
            DocumentUpdateMode::InsertAfter => "insert_after",
            DocumentUpdateMode::DeleteRange => "delete_range",
        }
    }
}

#[derive(Clone, Debug, PartialEq, Eq)]
pub struct DocumentUpdateRequest {
    pub identity: LarkIdentity,
    pub document: String,
    pub mode: DocumentUpdateMode,
    pub markdown: Option<String>,
    pub selection: Option<DocumentSelection>,
    pub new_title: Option<String>,
    pub sensitivity: ContentSensitivity,
}

#[derive(Clone, Debug, PartialEq, Eq)]
pub enum DocumentSelection {
    Ellipsis(String),
    Title(String),
}

#[derive(Clone, Debug, PartialEq, Eq)]
pub struct DocumentUpdateResult {
    pub success: bool,
    pub doc_id: Option<String>,
    pub mode: Option<String>,
    pub board_tokens: Vec<String>,
    pub task_id: Option<String>,
    pub warnings: Vec<String>,
}

#[derive(Clone, Debug, PartialEq, Eq)]
pub struct ChatSearchRequest {
    pub identity: LarkIdentity,
    pub query: Option<String>,
    pub member_ids: Vec<OpenId>,
    pub managed_only: bool,
    pub page_size: u8,
    pub page_token: Option<String>,
}

#[derive(Clone, Debug, PartialEq, Eq)]
pub struct ChatRecord {
    pub chat_id: ChatId,
    pub name: String,
    pub description: String,
    pub owner_id: String,
    pub external: bool,
    pub chat_status: String,
}

#[derive(Clone, Debug, PartialEq, Eq)]
pub enum ChatMatch {
    Missing,
    Found(ChatRecord),
    Ambiguous(Vec<ChatRecord>),
}

#[derive(Clone, Debug, PartialEq, Eq)]
pub struct ChatCreateRequest {
    pub name: String,
    pub description: Option<String>,
    pub current_user: Option<OpenId>,
    pub public: bool,
    pub sensitivity: ContentSensitivity,
}

#[derive(Clone, Debug, PartialEq, Eq)]
pub struct UserSearchRequest {
    pub identity: LarkIdentity,
    pub query: String,
    pub page_size: u8,
    pub page_token: Option<String>,
}

#[derive(Clone, Debug, PartialEq, Eq)]
pub struct UserRecord {
    pub open_id: OpenId,
    pub name: String,
    pub email: Option<String>,
}

#[derive(Clone, Debug, PartialEq, Eq)]
pub enum UserMatch {
    Missing,
    Found(UserRecord),
    Ambiguous(Vec<UserRecord>),
}

#[derive(Clone, Debug, PartialEq, Eq)]
pub struct ChatMember {
    pub member_id: OpenId,
    pub member_id_type: String,
    pub name: String,
    pub tenant_key: Option<String>,
}

#[derive(Clone, Debug, PartialEq, Eq)]
pub struct ChatMembers {
    pub members: Vec<ChatMember>,
    pub member_total: u64,
}

#[derive(Clone, Debug, PartialEq, Eq)]
pub struct ChatMemberAddResult {
    pub invalid_id_list: Vec<String>,
    pub not_existed_id_list: Vec<String>,
    pub pending_approval_id_list: Vec<String>,
}

#[derive(Clone, Debug, PartialEq, Eq)]
pub enum ChatMemberMatch {
    Complete,
    Incomplete(Vec<OpenId>),
}

#[derive(Clone, Debug, PartialEq, Eq)]
pub enum MessageTarget {
    Chat(ChatId),
    User(OpenId),
}

#[derive(Clone, Debug, PartialEq, Eq)]
pub struct SentMessage {
    pub message_id: MessageId,
    pub chat_id: ChatId,
    pub create_time: String,
}

} // verus!
