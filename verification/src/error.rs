//! The errors that the library reports.
use vstd::prelude::*;

use crate::text::{concat2, concat3, decimal, decimal_string, push_str};

verus! {

/// The commands that write to a library, as local mode refuses them.
#[derive(Clone, Copy, Debug, PartialEq, Eq, Structural)]
pub enum WriteCommand {
    /// Fetching an item template, which `add` and `attach` both do.
    AddOrAttach,
    Add,
    Attach,
    Update,
    Delete,
}

impl WriteCommand {
    /// The refusal of the command in local mode.
    pub open spec fn spec_message(self) -> Seq<char> {
        match self {
            WriteCommand::AddOrAttach => "`zot add` and `zot attach` are not supported in --local mode; use a write-enabled Zotero Web API key"@,
            WriteCommand::Add => "`zot add` is not supported in --local mode; use a write-enabled Zotero Web API key"@,
            WriteCommand::Attach => "`zot attach` is not supported in --local mode; use a write-enabled Zotero Web API key"@,
            WriteCommand::Update => "`zot update` is not supported in --local mode; use a write-enabled Zotero Web API key"@,
            WriteCommand::Delete => "`zot delete` is not supported in --local mode; use a write-enabled Zotero Web API key"@,
        }
    }

    /// The refusal of the command in local mode.
    pub fn message(&self) -> (s: String)
        ensures
            s@ == self.spec_message(),
    {
        match self {
            WriteCommand::AddOrAttach => "`zot add` and `zot attach` are not supported in --local mode; use a write-enabled Zotero Web API key".to_owned(),
            WriteCommand::Add => "`zot add` is not supported in --local mode; use a write-enabled Zotero Web API key".to_owned(),
            WriteCommand::Attach => "`zot attach` is not supported in --local mode; use a write-enabled Zotero Web API key".to_owned(),
            WriteCommand::Update => "`zot update` is not supported in --local mode; use a write-enabled Zotero Web API key".to_owned(),
            WriteCommand::Delete => "`zot delete` is not supported in --local mode; use a write-enabled Zotero Web API key".to_owned(),
        }
    }
}

/// Why a request or an input was refused.
#[derive(Debug, Clone, PartialEq, Eq)]
pub enum ZotError {
    /// `--item` was combined with a list filter.
    ItemWithListFilters,
    /// `--trash` was combined with `--collection` or `--top`.
    TrashWithListFilters,
    /// `update` was given nothing to change.
    NoUpdateFields,
    /// A JSON array was given that does not hold exactly one object.
    JsonArrayNotSingleObject,
    /// JSON was given that is neither an object nor an array.
    JsonNotItem,
    /// No library id was given.
    MissingLibraryId,
    /// More than one library id was given.
    MultipleLibraryIds,
    /// A URL did not parse; the text is the parser's.
    InvalidUrl(String),
    /// The API key cannot be sent as a header value.
    InvalidApiKey,
    /// `groups` was asked of a group library.
    GroupsNeedUserLibrary,
    /// `groups` was asked in local mode.
    GroupsInLocalMode,
    /// A command that writes was asked in local mode.
    LocalWrite(WriteCommand),
    /// The local Web API answered that it is disabled; the text is its base URL.
    LocalApiDisabled(String),
    /// The local Web API could not be reached; the text is its base URL.
    LocalConnectFailed(String),
    /// The Web API answered with an error: the status and the body.
    Api(String, String),
    /// The Web API refused to write with this key: the status and the body.
    WriteAccessDenied(String, String),
    /// A request failed before an answer came; the text says why.
    Transport(String),
    /// The Web API refused to create the item: its code and message.
    CreateFailed(u16, String),
    /// The Web API answered a create request with neither a created nor a failed object.
    CreateEmpty,
    /// An upload authorization without an upload URL.
    UploadMissingUrl,
    /// An upload authorization without a content type.
    UploadMissingContentType,
    /// An upload authorization without an upload key.
    UploadMissingKey,
    /// No user id on the profile page of the username.
    ProfileIdNotFound(String),
    /// Neither the item nor its children are a PDF attachment.
    NoPdfAttachment(String),
    /// The attachment has no download URL.
    NoDownloadUrl(String),
    /// A `file:` URL that names no local path.
    InvalidFileUrl(String),
    /// The attachment path is not a regular file.
    NotAFile(String),
    /// The attachment path has no file name that is valid UTF-8.
    NoFileName(String),
    /// The modification time of the attachment could not be read.
    MtimeUnavailable,
    /// The modification time of the attachment lies before 1970.
    MtimeBeforeEpoch,
    /// `delete` without `--yes` or `--dry-run`.
    DeleteWithoutYes(String),
    /// The item has no web page on zotero.org.
    NoZoteroUrl(String),
    /// The item has neither a URL nor a web page.
    NoItemUrl(String),
}

impl ZotError {
    /// The text of the error, as the command line reports it.
    pub open spec fn spec_message(&self) -> Seq<char> {
        match self {
            ZotError::ItemWithListFilters => "--item cannot be combined with --collection, --top, or --trash"@,
            ZotError::TrashWithListFilters => "--trash cannot be combined with --collection or --top"@,
            ZotError::NoUpdateFields => "no update fields provided"@,
            ZotError::JsonArrayNotSingleObject => "JSON array input must contain exactly one object item"@,
            ZotError::JsonNotItem => "JSON input must be a Zotero item object or a single-item array"@,
            ZotError::MissingLibraryId => "missing library id; set --user-id, --username, --group-id, ZOTERO_USER_ID, ZOTERO_USERNAME, or ZOTERO_GROUP_ID"@,
            ZotError::MultipleLibraryIds => "pass only one of --user-id, --username, or --group-id"@,
            ZotError::InvalidUrl(e) => e@,
            ZotError::InvalidApiKey => "invalid api key header value"@,
            ZotError::GroupsNeedUserLibrary => "`zot groups` requires a user library; pass --user-id or --username"@,
            ZotError::GroupsInLocalMode => "`zot groups` is not supported in --local mode; pass --user-id or --username"@,
            ZotError::LocalWrite(c) => c.spec_message(),
            ZotError::LocalApiDisabled(base) => "local Zotero API is disabled at "@ + base@ + ". enable 'Allow other applications on this computer to communicate with Zotero'"@,
            ZotError::LocalConnectFailed(base) => "failed to connect to the local Zotero API at "@ + base@ + ". start Zotero and enable 'Allow other applications on this computer to communicate with Zotero'"@,
            ZotError::Api(status, body) => "zotero api error "@ + status@ + ": "@ + body@,
            ZotError::WriteAccessDenied(status, body) => "zotero api error "@ + status@ + ": "@ + body@ + ". create a write-enabled Zotero API key to use `zot add`"@,
            ZotError::Transport(m) => m@,
            ZotError::CreateFailed(code, m) => "create failed "@ + decimal(*code as nat) + ": "@ + m@,
            ZotError::CreateEmpty => "create request returned no successful or failed objects"@,
            ZotError::UploadMissingUrl => "upload authorization did not include upload URL"@,
            ZotError::UploadMissingContentType => "upload authorization did not include content type"@,
            ZotError::UploadMissingKey => "upload authorization did not include upload key"@,
            ZotError::ProfileIdNotFound(u) => "could not find profile user id for "@ + u@,
            ZotError::NoPdfAttachment(k) => "no PDF attachment found for item "@ + k@,
            ZotError::NoDownloadUrl(k) => "attachment "@ + k@ + " has no download URL"@,
            ZotError::InvalidFileUrl(h) => "invalid file attachment URL: "@ + h@,
            ZotError::NotAFile(p) => "attachment path is not a file: "@ + p@,
            ZotError::NoFileName(p) => "attachment path has no valid filename: "@ + p@,
            ZotError::MtimeUnavailable => "failed to read attachment modification time"@,
            ZotError::MtimeBeforeEpoch => "attachment modification time is before Unix epoch"@,
            ZotError::DeleteWithoutYes(k) => "refusing to delete "@ + k@ + " without --yes"@,
            ZotError::NoZoteroUrl(k) => "no Zotero web URL for item "@ + k@,
            ZotError::NoItemUrl(k) => "no URL for item "@ + k@,
        }
    }

    /// The text of the error.
    pub fn message(&self) -> (s: String)
        ensures
            s@ == self.spec_message(),
    {
        match self {
            ZotError::ItemWithListFilters => "--item cannot be combined with --collection, --top, or --trash".to_owned(),
            ZotError::TrashWithListFilters => "--trash cannot be combined with --collection or --top".to_owned(),
            ZotError::NoUpdateFields => "no update fields provided".to_owned(),
            ZotError::JsonArrayNotSingleObject => "JSON array input must contain exactly one object item".to_owned(),
            ZotError::JsonNotItem => "JSON input must be a Zotero item object or a single-item array".to_owned(),
            ZotError::MissingLibraryId => "missing library id; set --user-id, --username, --group-id, ZOTERO_USER_ID, ZOTERO_USERNAME, or ZOTERO_GROUP_ID".to_owned(),
            ZotError::MultipleLibraryIds => "pass only one of --user-id, --username, or --group-id".to_owned(),
            ZotError::InvalidUrl(e) => e.clone(),
            ZotError::InvalidApiKey => "invalid api key header value".to_owned(),
            ZotError::GroupsNeedUserLibrary => "`zot groups` requires a user library; pass --user-id or --username".to_owned(),
            ZotError::GroupsInLocalMode => "`zot groups` is not supported in --local mode; pass --user-id or --username".to_owned(),
            ZotError::LocalWrite(c) => c.message(),
            ZotError::LocalApiDisabled(base) => concat3("local Zotero API is disabled at ", base.as_str(), ". enable 'Allow other applications on this computer to communicate with Zotero'"),
            ZotError::LocalConnectFailed(base) => concat3("failed to connect to the local Zotero API at ", base.as_str(), ". start Zotero and enable 'Allow other applications on this computer to communicate with Zotero'"),
            ZotError::Api(status, body) => {
                let mut s = concat3("zotero api error ", status.as_str(), ": ");
                push_str(&mut s, body.as_str());
                s
            },
            ZotError::WriteAccessDenied(status, body) => {
                let mut s = concat3("zotero api error ", status.as_str(), ": ");
                push_str(&mut s, body.as_str());
                push_str(&mut s, ". create a write-enabled Zotero API key to use `zot add`");
                s
            },
            ZotError::Transport(m) => m.clone(),
            ZotError::CreateFailed(code, m) => {
                let mut s = concat3("create failed ", decimal_string(*code as u64).as_str(), ": ");
                push_str(&mut s, m.as_str());
                s
            },
            ZotError::CreateEmpty => "create request returned no successful or failed objects".to_owned(),
            ZotError::UploadMissingUrl => "upload authorization did not include upload URL".to_owned(),
            ZotError::UploadMissingContentType => "upload authorization did not include content type".to_owned(),
            ZotError::UploadMissingKey => "upload authorization did not include upload key".to_owned(),
            ZotError::ProfileIdNotFound(u) => concat2("could not find profile user id for ", u.as_str()),
            ZotError::NoPdfAttachment(k) => concat2("no PDF attachment found for item ", k.as_str()),
            ZotError::NoDownloadUrl(k) => concat3("attachment ", k.as_str(), " has no download URL"),
            ZotError::InvalidFileUrl(h) => concat2("invalid file attachment URL: ", h.as_str()),
            ZotError::NotAFile(p) => concat2("attachment path is not a file: ", p.as_str()),
            ZotError::NoFileName(p) => concat2("attachment path has no valid filename: ", p.as_str()),
            ZotError::MtimeUnavailable => "failed to read attachment modification time".to_owned(),
            ZotError::MtimeBeforeEpoch => "attachment modification time is before Unix epoch".to_owned(),
            ZotError::DeleteWithoutYes(k) => concat3("refusing to delete ", k.as_str(), " without --yes"),
            ZotError::NoZoteroUrl(k) => concat2("no Zotero web URL for item ", k.as_str()),
            ZotError::NoItemUrl(k) => concat2("no URL for item ", k.as_str()),
        }
    }
}

} // verus!
