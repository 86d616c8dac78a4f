//! The data model of the protocol: envelopes, requests, responses, and the
//! values they carry.  Paths and timestamps are held as plain values so that
//! the logic over them can be verified.

use vstd::prelude::*;

verus! {

/// A framed message: an id chosen by the sender, an optional reference to the
/// request that produced it, and a typed payload.
#[derive(Clone, Debug, PartialEq, Eq)]
pub struct Envelope<T> {
    /// Generated by the sender, unique within its sending direction.
    pub id: String,
    /// Ties a response or stream element back to the request that produced
    /// it; absent for unsolicited messages.
    pub origin_id: Option<String>,
    /// The message carried by this envelope.
    pub payload: T,
}

/// The closed set of error kinds a verb handler may report.
#[derive(Copy, Clone, Debug, PartialEq, Eq, Structural)]
pub enum ResponseErrorKind {
    NotFound,
    PermissionDenied,
    AlreadyExists,
    InvalidInput,
    Io,
    Unsupported,
    Timeout,
    Other,
}

impl ResponseErrorKind {
    /// The wire tag of the kind, in lower snake form.
    pub open spec fn wire_tag_spec(self) -> Seq<char> {
        match self {
            ResponseErrorKind::NotFound => "not_found"@,
            ResponseErrorKind::PermissionDenied => "permission_denied"@,
            ResponseErrorKind::AlreadyExists => "already_exists"@,
            ResponseErrorKind::InvalidInput => "invalid_input"@,
            ResponseErrorKind::Io => "io"@,
            ResponseErrorKind::Unsupported => "unsupported"@,
            ResponseErrorKind::Timeout => "timeout"@,
            ResponseErrorKind::Other => "other"@,
        }
    }

    /// The wire tag of the kind, in lower snake form.
    pub fn wire_tag(self) -> (r: &'static str)
        ensures
            r@ == self.wire_tag_spec(),
    {
        match self {
            ResponseErrorKind::NotFound => "not_found",
            ResponseErrorKind::PermissionDenied => "permission_denied",
            ResponseErrorKind::AlreadyExists => "already_exists",
            ResponseErrorKind::InvalidInput => "invalid_input",
            ResponseErrorKind::Io => "io",
            ResponseErrorKind::Unsupported => "unsupported",
            ResponseErrorKind::Timeout => "timeout",
            ResponseErrorKind::Other => "other",
        }
    }
}

/// The type of a directory entry.
#[derive(Copy, Clone, Debug, PartialEq, Eq, Structural)]
pub enum FileType {
    Dir,
    File,
    Symlink,
}

impl FileType {
    /// The human-readable name used by the metadata rendering.
    pub open spec fn display_spec(self) -> Seq<char> {
        match self {
            FileType::Dir => "dir"@,
            FileType::File => "file"@,
            FileType::Symlink => "symlink"@,
        }
    }

    /// The human-readable name used by the metadata rendering.
    pub fn display_str(self) -> (r: &'static str)
        ensures
            r@ == self.display_spec(),
    {
        match self {
            FileType::Dir => "dir",
            FileType::File => "file",
            FileType::Symlink => "symlink",
        }
    }
}

/// A single entry reported for a directory listing.
#[derive(Clone, Debug, PartialEq, Eq)]
pub struct DirEntry {
    pub path: String,
    pub file_type: FileType,
    pub depth: u64,
}

/// The kind of a filesystem change, normalized from platform notifications.
#[derive(Copy, Clone, Debug, PartialEq, Eq, Structural)]
pub enum ChangeKind {
    /// A path was created.
    Create,
    /// A path was removed.
    Remove,
    /// A path was read or its access time touched.
    Access,
    /// A path's contents or attributes were modified.
    Modify,
    /// A path was renamed.
    Rename,
    /// Anything the platform reports that fits none of the above.
    Other,
}

impl ChangeKind {
    /// Returns true if the kind reports an access.
    pub fn is_access_kind(self) -> (r: bool)
        ensures
            r == (self == ChangeKind::Access),
    {
        matches!(self, ChangeKind::Access)
    }

    /// Returns true if the kind reports a modification.
    pub fn is_modify_kind(self) -> (r: bool)
        ensures
            r == (self == ChangeKind::Modify),
    {
        matches!(self, ChangeKind::Modify)
    }

    /// Returns true if the kind reports a rename.
    pub fn is_rename_kind(self) -> (r: bool)
        ensures
            r == (self == ChangeKind::Rename),
    {
        matches!(self, ChangeKind::Rename)
    }
}

/// A filesystem change reported by a watch subscription.
#[derive(Clone, Debug, PartialEq, Eq)]
pub struct Change {
    pub kind: ChangeKind,
    pub paths: Vec<String>,
}

/// Unix permission bits reported with metadata.
#[derive(Copy, Clone, Debug, PartialEq, Eq, Structural)]
pub struct UnixMetadata {
    pub owner_read: bool,
    pub owner_write: bool,
    pub owner_exec: bool,
    pub group_read: bool,
    pub group_write: bool,
    pub group_exec: bool,
    pub other_read: bool,
    pub other_write: bool,
    pub other_exec: bool,
}

/// Windows file attributes reported with metadata.
#[derive(Copy, Clone, Debug, PartialEq, Eq, Structural)]
pub struct WindowsMetadata {
    pub archive: bool,
    pub compressed: bool,
    pub encrypted: bool,
    pub hidden: bool,
    pub integrity_stream: bool,
    pub normal: bool,
    pub not_content_indexed: bool,
    pub no_scrub_data: bool,
    pub offline: bool,
    pub recall_on_data_access: bool,
    pub recall_on_open: bool,
    pub reparse_point: bool,
    pub sparse_file: bool,
    pub system: bool,
    pub temporary: bool,
}

/// Metadata reported for a path.  Timestamps are seconds since the epoch.
#[derive(Clone, Debug, PartialEq, Eq)]
pub struct Metadata {
    pub canonicalized_path: Option<String>,
    pub file_type: FileType,
    pub len: u64,
    pub readonly: bool,
    pub accessed: Option<u64>,
    pub created: Option<u64>,
    pub modified: Option<u64>,
    pub unix: Option<UnixMetadata>,
    pub windows: Option<WindowsMetadata>,
}

/// A match of a search query against a path name.
#[derive(Clone, Debug, PartialEq, Eq)]
pub struct SearchQueryPathMatch {
    pub path: String,
}

/// A match of a search query against the contents of a file.
#[derive(Clone, Debug, PartialEq, Eq)]
pub struct SearchQueryContentsMatch {
    pub path: String,
    pub lines: String,
    pub line_number: u64,
}

/// One match reported by a search.
#[derive(Clone, Debug, PartialEq, Eq)]
pub enum SearchQueryMatch {
    Path(SearchQueryPathMatch),
    Contents(SearchQueryContentsMatch),
}

/// Facts about the remote host.
#[derive(Clone, Debug, PartialEq, Eq)]
pub struct SystemInfo {
    pub family: String,
    pub os: String,
    pub arch: String,
    pub current_dir: String,
    pub main_separator: String,
    pub username: String,
    pub shell: String,
}

/// A capability the remote server reports as supported.
#[derive(Clone, Debug, PartialEq, Eq)]
pub struct Capability {
    pub kind: String,
    pub description: String,
}

/// The size of a pseudo-terminal in character cells.
#[derive(Copy, Clone, Debug, PartialEq, Eq, Structural)]
pub struct PtySize {
    pub rows: u16,
    pub cols: u16,
}

impl PtySize {
    /// Creates a size from a row and column count.
    pub fn from_rows_and_cols(rows: u16, cols: u16) -> (r: PtySize)
        ensures
            r.rows == rows,
            r.cols == cols,
    {
        PtySize { rows, cols }
    }
}

/// A request sent from the client to the server.
#[derive(Clone, Debug, PartialEq, Eq)]
pub enum RequestData {
    /// Spawn a process, optionally attached to a pseudo-terminal.
    Spawn { cmd: String, environment: Vec<(String, String)>, persist: bool, pty: Option<PtySize> },
    /// Watch a path for filesystem changes.
    Watch { path: String, recursive: bool },
    /// Search a tree for path or content matches.
    Search { path: String, query: String },
    /// Read the contents of a file.
    ReadFile { path: String },
    /// Write the contents of a file.
    WriteFile { path: String, data: Vec<u8> },
    /// Query the metadata of a path.
    Metadata { path: String },
    /// Ask whether a path exists.
    Exists { path: String },
    /// Query facts about the remote host.
    SystemInfo,
    /// Query the set of supported capabilities.
    Capabilities,
    /// Write to the stdin of a spawned process.
    ProcStdin { id: u64, data: Vec<u8> },
    /// Resize the pseudo-terminal of a spawned process.
    ProcResize { id: u64, size: PtySize },
    /// Kill a spawned process.
    ProcKill { id: u64 },
}

/// A message payload that is either one message or a batch of them.
#[derive(Clone, Debug, PartialEq, Eq)]
pub enum Msg<T> {
    Single(T),
    Batch(Vec<T>),
}

impl<T> Msg<T> {
    /// Returns true if the payload is a batch.
    pub fn is_batch(&self) -> (r: bool)
        ensures
            r == (self is Batch),
    {
        matches!(self, Msg::Batch(_))
    }

    /// Returns the single message, or nothing for a batch.
    pub fn into_single(self) -> (r: Option<T>)
        ensures
            match self {
                Msg::Single(t) => r == Option::Some(t),
                Msg::Batch(_) => r is None,
            },
    {
        match self {
            Msg::Single(t) => Option::Some(t),
            Msg::Batch(_) => Option::None,
        }
    }
}

/// A response or stream element sent from the server to the client.
#[derive(Clone, Debug, PartialEq, Eq)]
pub enum ResponseData {
    /// The request succeeded with nothing further to report.
    Okay,
    /// The request failed.
    Error { kind: ResponseErrorKind, description: String },
    /// Raw bytes read from a file.
    Blob { data: Vec<u8> },
    /// Text read from a file.
    Text { data: String },
    /// The entries of a directory listing, and the errors met while walking.
    DirEntries { entries: Vec<DirEntry>, errors: Vec<String> },
    /// A filesystem change observed by a watch subscription.
    Changed(Change),
    /// Whether a path exists.
    Exists { value: bool },
    /// The metadata of a path.
    Metadata(Metadata),
    /// A search was started; the server assigned it this id.
    SearchStarted { id: u64 },
    /// A batch of matches from a running search.
    SearchResults { id: u64, matches: Vec<SearchQueryMatch> },
    /// A search finished.
    SearchDone { id: u64 },
    /// A process was spawned; the server assigned it this id.
    ProcSpawned { id: u64 },
    /// Bytes from the stdout of a spawned process.
    ProcStdout { id: u64, data: Vec<u8> },
    /// Bytes from the stderr of a spawned process.
    ProcStderr { id: u64, data: Vec<u8> },
    /// A spawned process finished.
    ProcDone { id: u64, success: bool, code: Option<i32> },
    /// Facts about the remote host.
    SystemInfo(SystemInfo),
    /// The set of supported capabilities.
    Capabilities { supported: Vec<Capability> },
}

impl ResponseData {
    /// Returns true if this payload ends the stream of its origin id: the
    /// terminal markers of process and search subscriptions.
    pub open spec fn is_terminal_spec(self) -> bool {
        match self {
            ResponseData::ProcDone { .. } => true,
            ResponseData::SearchDone { .. } => true,
            _ => false,
        }
    }

    /// Returns true if this payload ends the stream of its origin id.
    pub fn is_terminal(&self) -> (r: bool)
        ensures
            r == self.is_terminal_spec(),
    {
        match self {
            ResponseData::ProcDone { .. } => true,
            ResponseData::SearchDone { .. } => true,
            _ => false,
        }
    }
}

} // verus!
