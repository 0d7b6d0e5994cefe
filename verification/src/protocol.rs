//! Message taxonomy: every frame that crosses a link is one of these
//! tagged variants.  Requests carry a unique 128-bit id; the paired
//! response echoes the same id.

use vstd::prelude::*;

verus! {

/// Unique identifier for a request-response pair (128-bit).
pub type RequestId = u128;

/// Client/Agent identifier.
pub type NodeId = String;

/// Session token for authenticated connections.
pub type SessionToken = String;

/// File system path.
pub type FsPath = String;

/// File type enumeration.
#[derive(Debug, Clone, Copy, PartialEq, Eq, Structural)]
pub enum FileType {
    File,
    Directory,
    Symlink,
    BlockDevice,
    CharDevice,
    Fifo,
    Socket,
}

/// File metadata: size, timestamps in seconds since the Unix epoch,
/// permission bits, ownership and kind flags.
#[derive(Debug, Clone)]
pub struct FileMetadata {
    pub size: u64,
    pub modified: u64,
    pub created: u64,
    pub accessed: u64,
    pub permissions: u32,
    pub uid: u32,
    pub gid: u32,
    pub is_dir: bool,
    pub is_file: bool,
    pub is_symlink: bool,
    pub file_type: FileType,
    pub symlink_target: Option<String>,
}

/// Directory entry information.
#[derive(Debug, Clone)]
pub struct DirEntry {
    pub name: String,
    pub metadata: FileMetadata,
}

/// Connection information handed out by the relay on successful auth.
#[derive(Debug, Clone)]
pub struct RelayInfo {
    pub relay_id: String,
    pub capabilities: Vec<String>,
    pub max_message_size: u64,
    pub heartbeat_interval: u64,
}

/// Type of node in the network.
#[derive(Debug, Clone, Copy, PartialEq, Eq, Structural)]
pub enum NodeType {
    Client,
    Agent,
    Relay,
}

/// Standard error codes for the protocol.
#[derive(Debug, Clone, Copy, PartialEq, Eq, Structural)]
pub enum ErrorCode {
    AuthenticationFailed,
    InvalidCredentials,
    SessionExpired,
    AccessDenied,
    PathNotAllowed,
    InsufficientPermissions,
    FileNotFound,
    DirectoryNotFound,
    PathAlreadyExists,
    InvalidPath,
    DiskFull,
    ReadOnlyFileSystem,
    NetworkError,
    ConnectionTimeout,
    MessageTooLarge,
    InvalidMessage,
    InternalError,
    NotImplemented,
    ServiceUnavailable,
}

/// Main message types for communication between all components.
#[derive(Debug, Clone)]
pub enum Message {
    /// Initial authentication request from client/agent to relay.
    AuthRequest { node_id: NodeId, node_type: NodeType, public_key: Vec<u8>, capabilities: Vec<String> },
    /// Authentication response from relay.
    AuthResponse { success: bool, session_token: Option<SessionToken>, relay_info: Option<RelayInfo>, error: Option<String> },
    /// Request to establish a secure channel between client and agent.
    EstablishChannel { target_node: NodeId, encrypted_key_exchange: Vec<u8> },
    /// Response to channel establishment.
    ChannelEstablished { success: bool, encrypted_response: Option<Vec<u8>>, error: Option<String> },
    /// Read data from a file.
    ReadFile { request_id: RequestId, path: FsPath, offset: u64, length: u32 },
    /// Response to a read operation.
    ReadFileResponse { request_id: RequestId, success: bool, data: Option<Vec<u8>>, bytes_read: u64, error: Option<String> },
    /// Write data to a file.
    WriteFile { request_id: RequestId, path: FsPath, offset: u64, data: Vec<u8>, sync: bool },
    /// Response to a write operation.
    WriteFileResponse { request_id: RequestId, success: bool, bytes_written: u64, error: Option<String> },
    /// Create a new file.
    CreateFile { request_id: RequestId, path: FsPath, mode: u32, exclusive: bool },
    /// Response to a create operation.
    CreateFileResponse { request_id: RequestId, success: bool, metadata: Option<FileMetadata>, error: Option<String> },
    /// Delete a file.
    DeleteFile { request_id: RequestId, path: FsPath },
    /// Response to a delete operation.
    DeleteFileResponse { request_id: RequestId, success: bool, error: Option<String> },
    /// Truncate a file to a given size.
    TruncateFile { request_id: RequestId, path: FsPath, size: u64 },
    /// Response to a truncate operation.
    TruncateFileResponse { request_id: RequestId, success: bool, error: Option<String> },
    /// List directory contents.
    ListDirectory { request_id: RequestId, path: FsPath },
    /// Response to a directory listing.
    ListDirectoryResponse { request_id: RequestId, success: bool, entries: Option<Vec<DirEntry>>, error: Option<String> },
    /// Create a directory.
    CreateDirectory { request_id: RequestId, path: FsPath, mode: u32 },
    /// Response to directory creation.
    CreateDirectoryResponse { request_id: RequestId, success: bool, metadata: Option<FileMetadata>, error: Option<String> },
    /// Remove a directory.
    RemoveDirectory { request_id: RequestId, path: FsPath, recursive: bool },
    /// Response to directory removal.
    RemoveDirectoryResponse { request_id: RequestId, success: bool, error: Option<String> },
    /// Get file/directory metadata.
    GetMetadata { request_id: RequestId, path: FsPath, follow_symlinks: bool },
    /// Response to a metadata request.
    GetMetadataResponse { request_id: RequestId, success: bool, metadata: Option<FileMetadata>, error: Option<String> },
    /// Set file/directory metadata.
    SetMetadata { request_id: RequestId, path: FsPath, metadata: FileMetadata },
    /// Response to a set-metadata request.
    SetMetadataResponse { request_id: RequestId, success: bool, error: Option<String> },
    /// Rename/move a file or directory.
    Rename { request_id: RequestId, from_path: FsPath, to_path: FsPath },
    /// Response to a rename operation.
    RenameResponse { request_id: RequestId, success: bool, error: Option<String> },
    /// Create a symbolic link.
    CreateSymlink { request_id: RequestId, link_path: FsPath, target_path: FsPath },
    /// Response to symlink creation.
    CreateSymlinkResponse { request_id: RequestId, success: bool, error: Option<String> },
    /// Check whether a path exists.
    PathExists { request_id: RequestId, path: FsPath },
    /// Response to a path existence check.
    PathExistsResponse { request_id: RequestId, exists: bool, error: Option<String> },
    /// Get filesystem space information.
    GetSpaceInfo { request_id: RequestId, path: FsPath },
    /// Response to a space-info request.
    GetSpaceInfoResponse { request_id: RequestId, success: bool, total_space: Option<u64>, available_space: Option<u64>, used_space: Option<u64>, error: Option<String> },
    /// Heartbeat/keepalive message, timestamp in milliseconds.
    Ping { timestamp: u64 },
    /// Response to a ping.
    Pong { timestamp: u64, original_timestamp: u64 },
    /// Notification of connection closure.
    ConnectionClose { reason: String },
    /// Generic error message.
    Error { request_id: Option<RequestId>, code: ErrorCode, message: String, details: Vec<(String, String)> },
}

/// Mathematical model of `FileMetadata`.
pub ghost struct FileMetadataV {
    pub size: u64,
    pub modified: u64,
    pub created: u64,
    pub accessed: u64,
    pub permissions: u32,
    pub uid: u32,
    pub gid: u32,
    pub is_dir: bool,
    pub is_file: bool,
    pub is_symlink: bool,
    pub file_type: FileType,
    pub symlink_target: Option<Seq<char>>,
}

/// Mathematical model of `DirEntry`.
pub ghost struct DirEntryV {
    pub name: Seq<char>,
    pub metadata: FileMetadataV,
}

/// Mathematical model of `RelayInfo`.
pub ghost struct RelayInfoV {
    pub relay_id: Seq<char>,
    pub capabilities: Seq<Seq<char>>,
    pub max_message_size: u64,
    pub heartbeat_interval: u64,
}

/// Mathematical model of `Message`: strings as character sequences,
/// byte buffers as byte sequences.
pub ghost enum MessageV {
    AuthRequest { node_id: Seq<char>, node_type: NodeType, public_key: Seq<u8>, capabilities: Seq<Seq<char>> },
    AuthResponse { success: bool, session_token: Option<Seq<char>>, relay_info: Option<RelayInfoV>, error: Option<Seq<char>> },
    EstablishChannel { target_node: Seq<char>, encrypted_key_exchange: Seq<u8> },
    ChannelEstablished { success: bool, encrypted_response: Option<Seq<u8>>, error: Option<Seq<char>> },
    ReadFile { request_id: u128, path: Seq<char>, offset: u64, length: u32 },
    ReadFileResponse { request_id: u128, success: bool, data: Option<Seq<u8>>, bytes_read: u64, error: Option<Seq<char>> },
    WriteFile { request_id: u128, path: Seq<char>, offset: u64, data: Seq<u8>, sync: bool },
    WriteFileResponse { request_id: u128, success: bool, bytes_written: u64, error: Option<Seq<char>> },
    CreateFile { request_id: u128, path: Seq<char>, mode: u32, exclusive: bool },
    CreateFileResponse { request_id: u128, success: bool, metadata: Option<FileMetadataV>, error: Option<Seq<char>> },
    DeleteFile { request_id: u128, path: Seq<char> },
    DeleteFileResponse { request_id: u128, success: bool, error: Option<Seq<char>> },
    TruncateFile { request_id: u128, path: Seq<char>, size: u64 },
    TruncateFileResponse { request_id: u128, success: bool, error: Option<Seq<char>> },
    ListDirectory { request_id: u128, path: Seq<char> },
    ListDirectoryResponse { request_id: u128, success: bool, entries: Option<Seq<DirEntryV>>, error: Option<Seq<char>> },
    CreateDirectory { request_id: u128, path: Seq<char>, mode: u32 },
    CreateDirectoryResponse { request_id: u128, success: bool, metadata: Option<FileMetadataV>, error: Option<Seq<char>> },
    RemoveDirectory { request_id: u128, path: Seq<char>, recursive: bool },
    RemoveDirectoryResponse { request_id: u128, success: bool, error: Option<Seq<char>> },
    GetMetadata { request_id: u128, path: Seq<char>, follow_symlinks: bool },
    GetMetadataResponse { request_id: u128, success: bool, metadata: Option<FileMetadataV>, error: Option<Seq<char>> },
    SetMetadata { request_id: u128, path: Seq<char>, metadata: FileMetadataV },
    SetMetadataResponse { request_id: u128, success: bool, error: Option<Seq<char>> },
    Rename { request_id: u128, from_path: Seq<char>, to_path: Seq<char> },
    RenameResponse { request_id: u128, success: bool, error: Option<Seq<char>> },
    CreateSymlink { request_id: u128, link_path: Seq<char>, target_path: Seq<char> },
    CreateSymlinkResponse { request_id: u128, success: bool, error: Option<Seq<char>> },
    PathExists { request_id: u128, path: Seq<char> },
    PathExistsResponse { request_id: u128, exists: bool, error: Option<Seq<char>> },
    GetSpaceInfo { request_id: u128, path: Seq<char> },
    GetSpaceInfoResponse { request_id: u128, success: bool, total_space: Option<u64>, available_space: Option<u64>, used_space: Option<u64>, error: Option<Seq<char>> },
    Ping { timestamp: u64 },
    Pong { timestamp: u64, original_timestamp: u64 },
    ConnectionClose { reason: Seq<char> },
    Error { request_id: Option<u128>, code: ErrorCode, message: Seq<char>, details: Seq<(Seq<char>, Seq<char>)> },
}

pub open spec fn opt_string_view(o: Option<String>) -> Option<Seq<char>> {
    match o {
        Some(s) => Some(s@),
        None => None,
    }
}

pub open spec fn opt_bytes_view(o: Option<Vec<u8>>) -> Option<Seq<u8>> {
    match o {
        Some(v) => Some(v@),
        None => None,
    }
}

pub open spec fn strings_view(v: Vec<String>) -> Seq<Seq<char>> {
    Seq::new(v@.len(), |i: int| v@[i]@)
}

pub open spec fn pairs_view(v: Vec<(String, String)>) -> Seq<(Seq<char>, Seq<char>)> {
    Seq::new(v@.len(), |i: int| (v@[i].0@, v@[i].1@))
}

impl View for FileMetadata {
    type V = FileMetadataV;

    open spec fn view(&self) -> FileMetadataV {
        FileMetadataV {
            size: self.size,
            modified: self.modified,
            created: self.created,
            accessed: self.accessed,
            permissions: self.permissions,
            uid: self.uid,
            gid: self.gid,
            is_dir: self.is_dir,
            is_file: self.is_file,
            is_symlink: self.is_symlink,
            file_type: self.file_type,
            symlink_target: opt_string_view(self.symlink_target),
        }
    }
}

impl View for DirEntry {
    type V = DirEntryV;

    open spec fn view(&self) -> DirEntryV {
        DirEntryV { name: self.name@, metadata: self.metadata@ }
    }
}

impl View for RelayInfo {
    type V = RelayInfoV;

    open spec fn view(&self) -> RelayInfoV {
        RelayInfoV {
            relay_id: self.relay_id@,
            capabilities: strings_view(self.capabilities),
            max_message_size: self.max_message_size,
            heartbeat_interval: self.heartbeat_interval,
        }
    }
}

pub open spec fn opt_metadata_view(o: Option<FileMetadata>) -> Option<FileMetadataV> {
    match o {
        Some(m) => Some(m@),
        None => None,
    }
}

pub open spec fn opt_relay_info_view(o: Option<RelayInfo>) -> Option<RelayInfoV> {
    match o {
        Some(r) => Some(r@),
        None => None,
    }
}

pub open spec fn entries_view(v: Vec<DirEntry>) -> Seq<DirEntryV> {
    Seq::new(v@.len(), |i: int| v@[i]@)
}

pub open spec fn opt_entries_view(o: Option<Vec<DirEntry>>) -> Option<Seq<DirEntryV>> {
    match o {
        Some(v) => Some(entries_view(v)),
        None => None,
    }
}

impl View for Message {
    type V = MessageV;

    open spec fn view(&self) -> MessageV {
        match self {
            Message::AuthRequest { node_id, node_type, public_key, capabilities } => MessageV::AuthRequest {
                node_id: node_id@,
                node_type: *node_type,
                public_key: public_key@,
                capabilities: strings_view(*capabilities),
            },
            Message::AuthResponse { success, session_token, relay_info, error } => MessageV::AuthResponse {
                success: *success,
                session_token: opt_string_view(*session_token),
                relay_info: opt_relay_info_view(*relay_info),
                error: opt_string_view(*error),
            },
            Message::EstablishChannel { target_node, encrypted_key_exchange } => MessageV::EstablishChannel {
                target_node: target_node@,
                encrypted_key_exchange: encrypted_key_exchange@,
            },
            Message::ChannelEstablished { success, encrypted_response, error } => MessageV::ChannelEstablished {
                success: *success,
                encrypted_response: opt_bytes_view(*encrypted_response),
                error: opt_string_view(*error),
            },
            Message::ReadFile { request_id, path, offset, length } => MessageV::ReadFile {
                request_id: *request_id,
                path: path@,
                offset: *offset,
                length: *length,
            },
            Message::ReadFileResponse { request_id, success, data, bytes_read, error } => MessageV::ReadFileResponse {
                request_id: *request_id,
                success: *success,
                data: opt_bytes_view(*data),
                bytes_read: *bytes_read,
                error: opt_string_view(*error),
            },
            Message::WriteFile { request_id, path, offset, data, sync } => MessageV::WriteFile {
                request_id: *request_id,
                path: path@,
                offset: *offset,
                data: data@,
                sync: *sync,
            },
            Message::WriteFileResponse { request_id, success, bytes_written, error } => MessageV::WriteFileResponse {
                request_id: *request_id,
                success: *success,
                bytes_written: *bytes_written,
                error: opt_string_view(*error),
            },
            Message::CreateFile { request_id, path, mode, exclusive } => MessageV::CreateFile {
                request_id: *request_id,
                path: path@,
                mode: *mode,
                exclusive: *exclusive,
            },
            Message::CreateFileResponse { request_id, success, metadata, error } => MessageV::CreateFileResponse {
                request_id: *request_id,
                success: *success,
                metadata: opt_metadata_view(*metadata),
                error: opt_string_view(*error),
            },
            Message::DeleteFile { request_id, path } => MessageV::DeleteFile {
                request_id: *request_id,
                path: path@,
            },
            Message::DeleteFileResponse { request_id, success, error } => MessageV::DeleteFileResponse {
                request_id: *request_id,
                success: *success,
                error: opt_string_view(*error),
            },
            Message::TruncateFile { request_id, path, size } => MessageV::TruncateFile {
                request_id: *request_id,
                path: path@,
                size: *size,
            },
            Message::TruncateFileResponse { request_id, success, error } => MessageV::TruncateFileResponse {
                request_id: *request_id,
                success: *success,
                error: opt_string_view(*error),
            },
            Message::ListDirectory { request_id, path } => MessageV::ListDirectory {
                request_id: *request_id,
                path: path@,
            },
            Message::ListDirectoryResponse { request_id, success, entries, error } => MessageV::ListDirectoryResponse {
                request_id: *request_id,
                success: *success,
                entries: opt_entries_view(*entries),
                error: opt_string_view(*error),
            },
            Message::CreateDirectory { request_id, path, mode } => MessageV::CreateDirectory {
                request_id: *request_id,
                path: path@,
                mode: *mode,
            },
            Message::CreateDirectoryResponse { request_id, success, metadata, error } => MessageV::CreateDirectoryResponse {
                request_id: *request_id,
                success: *success,
                metadata: opt_metadata_view(*metadata),
                error: opt_string_view(*error),
            },
            Message::RemoveDirectory { request_id, path, recursive } => MessageV::RemoveDirectory {
                request_id: *request_id,
                path: path@,
                recursive: *recursive,
            },
            Message::RemoveDirectoryResponse { request_id, success, error } => MessageV::RemoveDirectoryResponse {
                request_id: *request_id,
                success: *success,
                error: opt_string_view(*error),
            },
            Message::GetMetadata { request_id, path, follow_symlinks } => MessageV::GetMetadata {
                request_id: *request_id,
                path: path@,
                follow_symlinks: *follow_symlinks,
            },
            Message::GetMetadataResponse { request_id, success, metadata, error } => MessageV::GetMetadataResponse {
                request_id: *request_id,
                success: *success,
                metadata: opt_metadata_view(*metadata),
                error: opt_string_view(*error),
            },
            Message::SetMetadata { request_id, path, metadata } => MessageV::SetMetadata {
                request_id: *request_id,
                path: path@,
                metadata: metadata@,
            },
            Message::SetMetadataResponse { request_id, success, error } => MessageV::SetMetadataResponse {
                request_id: *request_id,
                success: *success,
                error: opt_string_view(*error),
            },
            Message::Rename { request_id, from_path, to_path } => MessageV::Rename {
                request_id: *request_id,
                from_path: from_path@,
                to_path: to_path@,
            },
            Message::RenameResponse { request_id, success, error } => MessageV::RenameResponse {
                request_id: *request_id,
                success: *success,
                error: opt_string_view(*error),
            },
            Message::CreateSymlink { request_id, link_path, target_path } => MessageV::CreateSymlink {
                request_id: *request_id,
                link_path: link_path@,
                target_path: target_path@,
            },
            Message::CreateSymlinkResponse { request_id, success, error } => MessageV::CreateSymlinkResponse {
                request_id: *request_id,
                success: *success,
                error: opt_string_view(*error),
            },
            Message::PathExists { request_id, path } => MessageV::PathExists {
                request_id: *request_id,
                path: path@,
            },
            Message::PathExistsResponse { request_id, exists, error } => MessageV::PathExistsResponse {
                request_id: *request_id,
                exists: *exists,
                error: opt_string_view(*error),
            },
            Message::GetSpaceInfo { request_id, path } => MessageV::GetSpaceInfo {
                request_id: *request_id,
                path: path@,
            },
            Message::GetSpaceInfoResponse { request_id, success, total_space, available_space, used_space, error } => MessageV::GetSpaceInfoResponse {
                request_id: *request_id,
                success: *success,
                total_space: *total_space,
                available_space: *available_space,
                used_space: *used_space,
                error: opt_string_view(*error),
            },
            Message::Ping { timestamp } => MessageV::Ping { timestamp: *timestamp },
            Message::Pong { timestamp, original_timestamp } => MessageV::Pong {
                timestamp: *timestamp,
                original_timestamp: *original_timestamp,
            },
            Message::ConnectionClose { reason } => MessageV::ConnectionClose { reason: reason@ },
            Message::Error { request_id, code, message, details } => MessageV::Error {
                request_id: *request_id,
                code: *code,
                message: message@,
                details: pairs_view(*details),
            },
        }
    }
}

/// The request id carried by a message, if its variant has one.
pub open spec fn spec_request_id(m: MessageV) -> Option<u128> {
    match m {
        MessageV::ReadFile { request_id, .. } => Some(request_id),
        MessageV::ReadFileResponse { request_id, .. } => Some(request_id),
        MessageV::WriteFile { request_id, .. } => Some(request_id),
        MessageV::WriteFileResponse { request_id, .. } => Some(request_id),
        MessageV::CreateFile { request_id, .. } => Some(request_id),
        MessageV::CreateFileResponse { request_id, .. } => Some(request_id),
        MessageV::DeleteFile { request_id, .. } => Some(request_id),
        MessageV::DeleteFileResponse { request_id, .. } => Some(request_id),
        MessageV::TruncateFile { request_id, .. } => Some(request_id),
        MessageV::TruncateFileResponse { request_id, .. } => Some(request_id),
        MessageV::ListDirectory { request_id, .. } => Some(request_id),
        MessageV::ListDirectoryResponse { request_id, .. } => Some(request_id),
        MessageV::CreateDirectory { request_id, .. } => Some(request_id),
        MessageV::CreateDirectoryResponse { request_id, .. } => Some(request_id),
        MessageV::RemoveDirectory { request_id, .. } => Some(request_id),
        MessageV::RemoveDirectoryResponse { request_id, .. } => Some(request_id),
        MessageV::GetMetadata { request_id, .. } => Some(request_id),
        MessageV::GetMetadataResponse { request_id, .. } => Some(request_id),
        MessageV::SetMetadata { request_id, .. } => Some(request_id),
        MessageV::SetMetadataResponse { request_id, .. } => Some(request_id),
        MessageV::Rename { request_id, .. } => Some(request_id),
        MessageV::RenameResponse { request_id, .. } => Some(request_id),
        MessageV::CreateSymlink { request_id, .. } => Some(request_id),
        MessageV::CreateSymlinkResponse { request_id, .. } => Some(request_id),
        MessageV::PathExists { request_id, .. } => Some(request_id),
        MessageV::PathExistsResponse { request_id, .. } => Some(request_id),
        MessageV::GetSpaceInfo { request_id, .. } => Some(request_id),
        MessageV::GetSpaceInfoResponse { request_id, .. } => Some(request_id),
        MessageV::Error { request_id, .. } => request_id,
        _ => None,
    }
}

/// Whether a message is a response variant.
pub open spec fn spec_is_response(m: MessageV) -> bool {
    match m {
        MessageV::AuthResponse { .. } => true,
        MessageV::ChannelEstablished { .. } => true,
        MessageV::ReadFileResponse { .. } => true,
        MessageV::WriteFileResponse { .. } => true,
        MessageV::CreateFileResponse { .. } => true,
        MessageV::DeleteFileResponse { .. } => true,
        MessageV::TruncateFileResponse { .. } => true,
        MessageV::ListDirectoryResponse { .. } => true,
        MessageV::CreateDirectoryResponse { .. } => true,
        MessageV::RemoveDirectoryResponse { .. } => true,
        MessageV::GetMetadataResponse { .. } => true,
        MessageV::SetMetadataResponse { .. } => true,
        MessageV::RenameResponse { .. } => true,
        MessageV::CreateSymlinkResponse { .. } => true,
        MessageV::PathExistsResponse { .. } => true,
        MessageV::GetSpaceInfoResponse { .. } => true,
        MessageV::Pong { .. } => true,
        MessageV::Error { .. } => true,
        _ => false,
    }
}

impl Message {
    /// Extract the request id from a message, if present.
    pub fn request_id(&self) -> (r: Option<RequestId>)
        ensures
            r == spec_request_id(self@),
    {
        match self {
            Message::ReadFile { request_id, .. } => Some(*request_id),
            Message::ReadFileResponse { request_id, .. } => Some(*request_id),
            Message::WriteFile { request_id, .. } => Some(*request_id),
            Message::WriteFileResponse { request_id, .. } => Some(*request_id),
            Message::CreateFile { request_id, .. } => Some(*request_id),
            Message::CreateFileResponse { request_id, .. } => Some(*request_id),
            Message::DeleteFile { request_id, .. } => Some(*request_id),
            Message::DeleteFileResponse { request_id, .. } => Some(*request_id),
            Message::TruncateFile { request_id, .. } => Some(*request_id),
            Message::TruncateFileResponse { request_id, .. } => Some(*request_id),
            Message::ListDirectory { request_id, .. } => Some(*request_id),
            Message::ListDirectoryResponse { request_id, .. } => Some(*request_id),
            Message::CreateDirectory { request_id, .. } => Some(*request_id),
            Message::CreateDirectoryResponse { request_id, .. } => Some(*request_id),
            Message::RemoveDirectory { request_id, .. } => Some(*request_id),
            Message::RemoveDirectoryResponse { request_id, .. } => Some(*request_id),
            Message::GetMetadata { request_id, .. } => Some(*request_id),
            Message::GetMetadataResponse { request_id, .. } => Some(*request_id),
            Message::SetMetadata { request_id, .. } => Some(*request_id),
            Message::SetMetadataResponse { request_id, .. } => Some(*request_id),
            Message::Rename { request_id, .. } => Some(*request_id),
            Message::RenameResponse { request_id, .. } => Some(*request_id),
            Message::CreateSymlink { request_id, .. } => Some(*request_id),
            Message::CreateSymlinkResponse { request_id, .. } => Some(*request_id),
            Message::PathExists { request_id, .. } => Some(*request_id),
            Message::PathExistsResponse { request_id, .. } => Some(*request_id),
            Message::GetSpaceInfo { request_id, .. } => Some(*request_id),
            Message::GetSpaceInfoResponse { request_id, .. } => Some(*request_id),
            Message::Error { request_id, .. } => *request_id,
            _ => None,
        }
    }

    /// Whether this is a response message.
    pub fn is_response(&self) -> (r: bool)
        ensures
            r == spec_is_response(self@),
    {
        match self {
            Message::AuthResponse { .. } => true,
            Message::ChannelEstablished { .. } => true,
            Message::ReadFileResponse { .. } => true,
            Message::WriteFileResponse { .. } => true,
            Message::CreateFileResponse { .. } => true,
            Message::DeleteFileResponse { .. } => true,
            Message::TruncateFileResponse { .. } => true,
            Message::ListDirectoryResponse { .. } => true,
            Message::CreateDirectoryResponse { .. } => true,
            Message::RemoveDirectoryResponse { .. } => true,
            Message::GetMetadataResponse { .. } => true,
            Message::SetMetadataResponse { .. } => true,
            Message::RenameResponse { .. } => true,
            Message::CreateSymlinkResponse { .. } => true,
            Message::PathExistsResponse { .. } => true,
            Message::GetSpaceInfoResponse { .. } => true,
            Message::Pong { .. } => true,
            Message::Error { .. } => true,
            _ => false,
        }
    }

    /// Message type name for logging.
    pub fn message_type(&self) -> (r: &'static str)
        ensures
            r@ == spec_message_type(self@),
    {
        match self {
            Message::AuthRequest { .. } => "AuthRequest",
            Message::AuthResponse { .. } => "AuthResponse",
            Message::EstablishChannel { .. } => "EstablishChannel",
            Message::ChannelEstablished { .. } => "ChannelEstablished",
            Message::ReadFile { .. } => "ReadFile",
            Message::ReadFileResponse { .. } => "ReadFileResponse",
            Message::WriteFile { .. } => "WriteFile",
            Message::WriteFileResponse { .. } => "WriteFileResponse",
            Message::CreateFile { .. } => "CreateFile",
            Message::CreateFileResponse { .. } => "CreateFileResponse",
            Message::DeleteFile { .. } => "DeleteFile",
            Message::DeleteFileResponse { .. } => "DeleteFileResponse",
            Message::TruncateFile { .. } => "TruncateFile",
            Message::TruncateFileResponse { .. } => "TruncateFileResponse",
            Message::ListDirectory { .. } => "ListDirectory",
            Message::ListDirectoryResponse { .. } => "ListDirectoryResponse",
            Message::CreateDirectory { .. } => "CreateDirectory",
            Message::CreateDirectoryResponse { .. } => "CreateDirectoryResponse",
            Message::RemoveDirectory { .. } => "RemoveDirectory",
            Message::RemoveDirectoryResponse { .. } => "RemoveDirectoryResponse",
            Message::GetMetadata { .. } => "GetMetadata",
            Message::GetMetadataResponse { .. } => "GetMetadataResponse",
            Message::SetMetadata { .. } => "SetMetadata",
            Message::SetMetadataResponse { .. } => "SetMetadataResponse",
            Message::Rename { .. } => "Rename",
            Message::RenameResponse { .. } => "RenameResponse",
            Message::CreateSymlink { .. } => "CreateSymlink",
            Message::CreateSymlinkResponse { .. } => "CreateSymlinkResponse",
            Message::PathExists { .. } => "PathExists",
            Message::PathExistsResponse { .. } => "PathExistsResponse",
            Message::GetSpaceInfo { .. } => "GetSpaceInfo",
            Message::GetSpaceInfoResponse { .. } => "GetSpaceInfoResponse",
            Message::Ping { .. } => "Ping",
            Message::Pong { .. } => "Pong",
            Message::ConnectionClose { .. } => "ConnectionClose",
            Message::Error { .. } => "Error",
        }
    }
}

/// Message type name, at the specification level.
pub open spec fn spec_message_type(m: MessageV) -> Seq<char> {
    match m {
        MessageV::AuthRequest { .. } => "AuthRequest"@,
        MessageV::AuthResponse { .. } => "AuthResponse"@,
        MessageV::EstablishChannel { .. } => "EstablishChannel"@,
        MessageV::ChannelEstablished { .. } => "ChannelEstablished"@,
        MessageV::ReadFile { .. } => "ReadFile"@,
        MessageV::ReadFileResponse { .. } => "ReadFileResponse"@,
        MessageV::WriteFile { .. } => "WriteFile"@,
        MessageV::WriteFileResponse { .. } => "WriteFileResponse"@,
        MessageV::CreateFile { .. } => "CreateFile"@,
        MessageV::CreateFileResponse { .. } => "CreateFileResponse"@,
        MessageV::DeleteFile { .. } => "DeleteFile"@,
        MessageV::DeleteFileResponse { .. } => "DeleteFileResponse"@,
        MessageV::TruncateFile { .. } => "TruncateFile"@,
        MessageV::TruncateFileResponse { .. } => "TruncateFileResponse"@,
        MessageV::ListDirectory { .. } => "ListDirectory"@,
        MessageV::ListDirectoryResponse { .. } => "ListDirectoryResponse"@,
        MessageV::CreateDirectory { .. } => "CreateDirectory"@,
        MessageV::CreateDirectoryResponse { .. } => "CreateDirectoryResponse"@,
        MessageV::RemoveDirectory { .. } => "RemoveDirectory"@,
        MessageV::RemoveDirectoryResponse { .. } => "RemoveDirectoryResponse"@,
        MessageV::GetMetadata { .. } => "GetMetadata"@,
        MessageV::GetMetadataResponse { .. } => "GetMetadataResponse"@,
        MessageV::SetMetadata { .. } => "SetMetadata"@,
        MessageV::SetMetadataResponse { .. } => "SetMetadataResponse"@,
        MessageV::Rename { .. } => "Rename"@,
        MessageV::RenameResponse { .. } => "RenameResponse"@,
        MessageV::CreateSymlink { .. } => "CreateSymlink"@,
        MessageV::CreateSymlinkResponse { .. } => "CreateSymlinkResponse"@,
        MessageV::PathExists { .. } => "PathExists"@,
        MessageV::PathExistsResponse { .. } => "PathExistsResponse"@,
        MessageV::GetSpaceInfo { .. } => "GetSpaceInfo"@,
        MessageV::GetSpaceInfoResponse { .. } => "GetSpaceInfoResponse"@,
        MessageV::Ping { .. } => "Ping"@,
        MessageV::Pong { .. } => "Pong"@,
        MessageV::ConnectionClose { .. } => "ConnectionClose"@,
        MessageV::Error { .. } => "Error"@,
    }
}

/// Relies on uuid::Uuid::new_v4 for a random version-4 UUID; the 128-bit
/// value is random apart from its fixed version and variant bits, so
/// nothing is promised of it.
#[verifier::external_body]
pub fn generate_request_id() -> RequestId {
    uuid::Uuid::new_v4().as_u128()
}

} // verus!
