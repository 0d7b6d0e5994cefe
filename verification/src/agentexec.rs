//! The agent dispatcher's decision halves: the size pre-check a write
//! passes before any filesystem action, and the response each
//! operation builds from its outcome.  The filesystem work itself is
//! the caller's; every response echoes its request id, and the
//! statistics move exactly once per outcome.

use vstd::prelude::*;
use crate::protocol::{
    DirEntry, ErrorCode, FileMetadata, Message, MessageV, entries_view, spec_request_id,
};
use crate::status::FilesystemStatistics;
use crate::strutil::str_to_string;

verus! {

/// The error text each code carries in a response.
pub open spec fn spec_error_label(e: ErrorCode) -> Seq<char> {
    match e {
        ErrorCode::AuthenticationFailed => "authentication failed"@,
        ErrorCode::InvalidCredentials => "invalid credentials"@,
        ErrorCode::SessionExpired => "session expired"@,
        ErrorCode::AccessDenied => "access denied"@,
        ErrorCode::PathNotAllowed => "path denied by policy"@,
        ErrorCode::InsufficientPermissions => "insufficient permissions"@,
        ErrorCode::FileNotFound => "file not found"@,
        ErrorCode::DirectoryNotFound => "directory not found"@,
        ErrorCode::PathAlreadyExists => "path already exists"@,
        ErrorCode::InvalidPath => "invalid path"@,
        ErrorCode::DiskFull => "disk full"@,
        ErrorCode::ReadOnlyFileSystem => "read-only filesystem"@,
        ErrorCode::NetworkError => "network error"@,
        ErrorCode::ConnectionTimeout => "connection timeout"@,
        ErrorCode::MessageTooLarge => "message too large"@,
        ErrorCode::InvalidMessage => "invalid message"@,
        ErrorCode::InternalError => "internal error"@,
        ErrorCode::NotImplemented => "not implemented"@,
        ErrorCode::ServiceUnavailable => "service unavailable"@,
    }
}

/// The error text for a code, as a value.
pub fn error_label(e: ErrorCode) -> (r: String)
    ensures
        r@ == spec_error_label(e),
{
    match e {
        ErrorCode::AuthenticationFailed => str_to_string("authentication failed"),
        ErrorCode::InvalidCredentials => str_to_string("invalid credentials"),
        ErrorCode::SessionExpired => str_to_string("session expired"),
        ErrorCode::AccessDenied => str_to_string("access denied"),
        ErrorCode::PathNotAllowed => str_to_string("path denied by policy"),
        ErrorCode::InsufficientPermissions => str_to_string("insufficient permissions"),
        ErrorCode::FileNotFound => str_to_string("file not found"),
        ErrorCode::DirectoryNotFound => str_to_string("directory not found"),
        ErrorCode::PathAlreadyExists => str_to_string("path already exists"),
        ErrorCode::InvalidPath => str_to_string("invalid path"),
        ErrorCode::DiskFull => str_to_string("disk full"),
        ErrorCode::ReadOnlyFileSystem => str_to_string("read-only filesystem"),
        ErrorCode::NetworkError => str_to_string("network error"),
        ErrorCode::ConnectionTimeout => str_to_string("connection timeout"),
        ErrorCode::MessageTooLarge => str_to_string("message too large"),
        ErrorCode::InvalidMessage => str_to_string("invalid message"),
        ErrorCode::InternalError => str_to_string("internal error"),
        ErrorCode::NotImplemented => str_to_string("not implemented"),
        ErrorCode::ServiceUnavailable => str_to_string("service unavailable"),
    }
}

/// Whether a write of `len` bytes at `offset` stays within the size
/// cap: the check the dispatcher makes before any filesystem action.
pub fn write_precheck(offset: u64, len: usize, cap: u64) -> (r: bool)
    ensures
        r == (offset + len <= cap),
{
    if offset > cap {
        return false;
    }
    (len as u64) <= cap - offset
}

/// Build a read response from the operation's outcome and move the
/// counters: on success the payload and its length travel back and the
/// bytes-read statistic grows by exactly that length; on failure the
/// payload is empty, the error is the code's text, and the error count
/// grows by one.  Either way the response echoes the request id and
/// the operation total grows by one.
pub fn read_file_response(
    request_id: u128,
    outcome: Result<Vec<u8>, ErrorCode>,
    stats: &mut FilesystemStatistics,
) -> (r: Message)
    requires
        old(stats).total_operations < u64::MAX,
        old(stats).error_count < u64::MAX,
        outcome matches Ok(d) ==> old(stats).bytes_read + d@.len() <= u64::MAX,
    ensures
        spec_request_id(r@) == Some(request_id),
        ({
            let m = r@;
            m matches MessageV::ReadFileResponse {
                request_id: rid,
                success,
                data,
                bytes_read,
                error,
            } && rid == request_id && (match outcome {
                Ok(d) => success && data == Some(d@) && bytes_read == d@.len() && error is None,
                Err(e) => !success && data is None && bytes_read == 0 && error == Some(
                    spec_error_label(e),
                ),
            })
        }),
        final(stats).total_operations == old(stats).total_operations + 1,
        final(stats).error_count == old(stats).error_count + (if outcome is Err {
            1int
        } else {
            0int
        }),
        final(stats).bytes_read == old(stats).bytes_read + (match outcome {
            Ok(d) => d@.len() as int,
            Err(_) => 0int,
        }),
        final(stats).bytes_written == old(stats).bytes_written,
        final(stats).active_operations == old(stats).active_operations,
{
    stats.total_operations = stats.total_operations + 1;
    match outcome {
        Ok(d) => {
            let n = d.len() as u64;
            stats.bytes_read = stats.bytes_read + n;
            Message::ReadFileResponse {
                request_id,
                success: true,
                data: Some(d),
                bytes_read: n,
                error: None,
            }
        },
        Err(e) => {
            stats.error_count = stats.error_count + 1;
            Message::ReadFileResponse {
                request_id,
                success: false,
                data: None,
                bytes_read: 0,
                error: Some(error_label(e)),
            }
        },
    }
}

/// Build a write (or copy) response from the outcome and move the
/// counters: on success the byte count travels back and the
/// bytes-written statistic grows by exactly that count; on failure the
/// error is the code's text and the error count grows by one.
pub fn write_file_response(
    request_id: u128,
    outcome: Result<u64, ErrorCode>,
    stats: &mut FilesystemStatistics,
) -> (r: Message)
    requires
        old(stats).total_operations < u64::MAX,
        old(stats).error_count < u64::MAX,
        outcome matches Ok(n) ==> old(stats).bytes_written + n <= u64::MAX,
    ensures
        spec_request_id(r@) == Some(request_id),
        ({
            let m = r@;
            m matches MessageV::WriteFileResponse {
                request_id: rid,
                success,
                bytes_written,
                error,
            } && rid == request_id && (match outcome {
                Ok(n) => success && bytes_written == n && error is None,
                Err(e) => !success && bytes_written == 0 && error == Some(spec_error_label(e)),
            })
        }),
        final(stats).total_operations == old(stats).total_operations + 1,
        final(stats).error_count == old(stats).error_count + (if outcome is Err {
            1int
        } else {
            0int
        }),
        final(stats).bytes_written == old(stats).bytes_written + (match outcome {
            Ok(n) => n as int,
            Err(_) => 0int,
        }),
        final(stats).bytes_read == old(stats).bytes_read,
        final(stats).active_operations == old(stats).active_operations,
{
    stats.total_operations = stats.total_operations + 1;
    match outcome {
        Ok(n) => {
            stats.bytes_written = stats.bytes_written + n;
            Message::WriteFileResponse { request_id, success: true, bytes_written: n, error: None }
        },
        Err(e) => {
            stats.error_count = stats.error_count + 1;
            Message::WriteFileResponse {
                request_id,
                success: false,
                bytes_written: 0,
                error: Some(error_label(e)),
            }
        },
    }
}

/// Build a directory-listing response from the outcome and move the
/// counters: the entries travel back exactly on success.
pub fn list_directory_response(
    request_id: u128,
    outcome: Result<Vec<DirEntry>, ErrorCode>,
    stats: &mut FilesystemStatistics,
) -> (r: Message)
    requires
        old(stats).total_operations < u64::MAX,
        old(stats).error_count < u64::MAX,
    ensures
        spec_request_id(r@) == Some(request_id),
        ({
            let m = r@;
            m matches MessageV::ListDirectoryResponse {
                request_id: rid,
                success,
                entries,
                error,
            } && rid == request_id && (match outcome {
                Ok(es) => success && entries == Some(entries_view(es)) && error is None,
                Err(e) => !success && entries is None && error == Some(spec_error_label(e)),
            })
        }),
        final(stats).total_operations == old(stats).total_operations + 1,
        final(stats).error_count == old(stats).error_count + (if outcome is Err {
            1int
        } else {
            0int
        }),
        final(stats).bytes_read == old(stats).bytes_read,
        final(stats).bytes_written == old(stats).bytes_written,
        final(stats).active_operations == old(stats).active_operations,
{
    stats.total_operations = stats.total_operations + 1;
    match outcome {
        Ok(es) => Message::ListDirectoryResponse {
            request_id,
            success: true,
            entries: Some(es),
            error: None,
        },
        Err(e) => {
            stats.error_count = stats.error_count + 1;
            Message::ListDirectoryResponse {
                request_id,
                success: false,
                entries: None,
                error: Some(error_label(e)),
            }
        },
    }
}

/// Build a metadata response from the outcome and move the counters:
/// the metadata record travels back exactly on success.
pub fn metadata_response(
    request_id: u128,
    outcome: Result<FileMetadata, ErrorCode>,
    stats: &mut FilesystemStatistics,
) -> (r: Message)
    requires
        old(stats).total_operations < u64::MAX,
        old(stats).error_count < u64::MAX,
    ensures
        spec_request_id(r@) == Some(request_id),
        ({
            let m = r@;
            m matches MessageV::GetMetadataResponse {
                request_id: rid,
                success,
                metadata,
                error,
            } && rid == request_id && (match outcome {
                Ok(md) => success && metadata == Some(md@) && error is None,
                Err(e) => !success && metadata is None && error == Some(spec_error_label(e)),
            })
        }),
        final(stats).total_operations == old(stats).total_operations + 1,
        final(stats).error_count == old(stats).error_count + (if outcome is Err {
            1int
        } else {
            0int
        }),
        final(stats).bytes_read == old(stats).bytes_read,
        final(stats).bytes_written == old(stats).bytes_written,
        final(stats).active_operations == old(stats).active_operations,
{
    stats.total_operations = stats.total_operations + 1;
    match outcome {
        Ok(md) => Message::GetMetadataResponse {
            request_id,
            success: true,
            metadata: Some(md),
            error: None,
        },
        Err(e) => {
            stats.error_count = stats.error_count + 1;
            Message::GetMetadataResponse {
                request_id,
                success: false,
                metadata: None,
                error: Some(error_label(e)),
            }
        },
    }
}

/// Build a delete response from the outcome and move the counters.
pub fn delete_file_response(
    request_id: u128,
    outcome: Result<(), ErrorCode>,
    stats: &mut FilesystemStatistics,
) -> (r: Message)
    requires
        old(stats).total_operations < u64::MAX,
        old(stats).error_count < u64::MAX,
    ensures
        spec_request_id(r@) == Some(request_id),
        ({
            let m = r@;
            m matches MessageV::DeleteFileResponse { request_id: rid, success, error } && rid
                == request_id && (match outcome {
                Ok(_) => success && error is None,
                Err(e) => !success && error == Some(spec_error_label(e)),
            })
        }),
        final(stats).total_operations == old(stats).total_operations + 1,
        final(stats).error_count == old(stats).error_count + (if outcome is Err {
            1int
        } else {
            0int
        }),
        final(stats).bytes_read == old(stats).bytes_read,
        final(stats).bytes_written == old(stats).bytes_written,
        final(stats).active_operations == old(stats).active_operations,
{
    stats.total_operations = stats.total_operations + 1;
    match outcome {
        Ok(_) => Message::DeleteFileResponse { request_id, success: true, error: None },
        Err(e) => {
            stats.error_count = stats.error_count + 1;
            Message::DeleteFileResponse {
                request_id,
                success: false,
                error: Some(error_label(e)),
            }
        },
    }
}

} // verus!
