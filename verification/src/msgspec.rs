//! Wire format of whole messages: a one-byte variant tag followed by the
//! variant's fields, and the proof that decoding undoes encoding for
//! every variant.

use vstd::prelude::*;
use crate::codec::{
    bytes_at, lemma_bytes_at_split, enc_u8, dec_u8, lemma_dec_enc_u8, enc_u32, dec_u32,
    lemma_dec_enc_u32, enc_u64, dec_u64, lemma_dec_enc_u64, enc_u128, dec_u128,
    lemma_dec_enc_u128, enc_bool, dec_bool, lemma_dec_enc_bool, enc_string, dec_string,
    wf_string, lemma_dec_enc_string, enc_bytes, dec_bytes, wf_bytes, lemma_dec_enc_bytes,
};
use crate::wire::{
    enc_opt_string, dec_opt_string, wf_opt_string, lemma_dec_enc_opt_string, enc_opt_bytes,
    dec_opt_bytes, wf_opt_bytes, lemma_dec_enc_opt_bytes, enc_opt_u64, dec_opt_u64,
    lemma_dec_enc_opt_u64, enc_opt_u128, dec_opt_u128, lemma_dec_enc_opt_u128, enc_strings,
    dec_strings, wf_strings, lemma_dec_enc_strings, enc_node_type, dec_node_type,
    lemma_dec_enc_node_type, enc_error_code, dec_error_code, lemma_dec_enc_error_code,
    enc_metadata, dec_metadata, wf_metadata, lemma_dec_enc_metadata, enc_opt_metadata,
    dec_opt_metadata, wf_opt_metadata, lemma_dec_enc_opt_metadata, enc_opt_entries,
    dec_opt_entries, wf_opt_entries, lemma_dec_enc_opt_entries, enc_opt_relay_info,
    dec_opt_relay_info, wf_opt_relay_info, lemma_dec_enc_opt_relay_info, enc_pairs, dec_pairs,
    wf_pairs, lemma_dec_enc_pairs,
};
use crate::protocol::MessageV;

verus! {

/// The tag byte that introduces each variant on the wire.
pub open spec fn msg_tag(m: MessageV) -> u8 {
    match m {
        MessageV::AuthRequest { .. } => 0,
        MessageV::AuthResponse { .. } => 1,
        MessageV::EstablishChannel { .. } => 2,
        MessageV::ChannelEstablished { .. } => 3,
        MessageV::ReadFile { .. } => 4,
        MessageV::ReadFileResponse { .. } => 5,
        MessageV::WriteFile { .. } => 6,
        MessageV::WriteFileResponse { .. } => 7,
        MessageV::CreateFile { .. } => 8,
        MessageV::CreateFileResponse { .. } => 9,
        MessageV::DeleteFile { .. } => 10,
        MessageV::DeleteFileResponse { .. } => 11,
        MessageV::TruncateFile { .. } => 12,
        MessageV::TruncateFileResponse { .. } => 13,
        MessageV::ListDirectory { .. } => 14,
        MessageV::ListDirectoryResponse { .. } => 15,
        MessageV::CreateDirectory { .. } => 16,
        MessageV::CreateDirectoryResponse { .. } => 17,
        MessageV::RemoveDirectory { .. } => 18,
        MessageV::RemoveDirectoryResponse { .. } => 19,
        MessageV::GetMetadata { .. } => 20,
        MessageV::GetMetadataResponse { .. } => 21,
        MessageV::SetMetadata { .. } => 22,
        MessageV::SetMetadataResponse { .. } => 23,
        MessageV::Rename { .. } => 24,
        MessageV::RenameResponse { .. } => 25,
        MessageV::CreateSymlink { .. } => 26,
        MessageV::CreateSymlinkResponse { .. } => 27,
        MessageV::PathExists { .. } => 28,
        MessageV::PathExistsResponse { .. } => 29,
        MessageV::GetSpaceInfo { .. } => 30,
        MessageV::GetSpaceInfoResponse { .. } => 31,
        MessageV::Ping { .. } => 32,
        MessageV::Pong { .. } => 33,
        MessageV::ConnectionClose { .. } => 34,
        MessageV::Error { .. } => 35,
    }
}

/// Encoding of a variant's fields, in declaration order.
pub open spec fn enc_msg_payload(m: MessageV) -> Seq<u8> {
    match m {
        MessageV::AuthRequest { node_id, node_type, public_key, capabilities } => enc_string(
            node_id,
        ) + (enc_node_type(node_type) + (enc_bytes(public_key) + enc_strings(capabilities))),
        MessageV::AuthResponse { success, session_token, relay_info, error } => enc_bool(success)
            + (enc_opt_string(session_token) + (enc_opt_relay_info(relay_info) + enc_opt_string(
            error,
        ))),
        MessageV::EstablishChannel { target_node, encrypted_key_exchange } => enc_string(
            target_node,
        ) + enc_bytes(encrypted_key_exchange),
        MessageV::ChannelEstablished { success, encrypted_response, error } => enc_bool(success) + (
        enc_opt_bytes(encrypted_response) + enc_opt_string(error)),
        MessageV::ReadFile { request_id, path, offset, length } => enc_u128(request_id) + (
        enc_string(path) + (enc_u64(offset) + enc_u32(length))),
        MessageV::ReadFileResponse { request_id, success, data, bytes_read, error } => enc_u128(
            request_id,
        ) + (enc_bool(success) + (enc_opt_bytes(data) + (enc_u64(bytes_read) + enc_opt_string(
            error,
        )))),
        MessageV::WriteFile { request_id, path, offset, data, sync } => enc_u128(request_id) + (
        enc_string(path) + (enc_u64(offset) + (enc_bytes(data) + enc_bool(sync)))),
        MessageV::WriteFileResponse { request_id, success, bytes_written, error } => enc_u128(
            request_id,
        ) + (enc_bool(success) + (enc_u64(bytes_written) + enc_opt_string(error))),
        MessageV::CreateFile { request_id, path, mode, exclusive } => enc_u128(request_id) + (
        enc_string(path) + (enc_u32(mode) + enc_bool(exclusive))),
        MessageV::CreateFileResponse { request_id, success, metadata, error } => enc_u128(
            request_id,
        ) + (enc_bool(success) + (enc_opt_metadata(metadata) + enc_opt_string(error))),
        MessageV::DeleteFile { request_id, path } => enc_u128(request_id) + enc_string(path),
        MessageV::DeleteFileResponse { request_id, success, error } => enc_u128(request_id) + (
        enc_bool(success) + enc_opt_string(error)),
        MessageV::TruncateFile { request_id, path, size } => enc_u128(request_id) + (enc_string(
            path,
        ) + enc_u64(size)),
        MessageV::TruncateFileResponse { request_id, success, error } => enc_u128(request_id) + (
        enc_bool(success) + enc_opt_string(error)),
        MessageV::ListDirectory { request_id, path } => enc_u128(request_id) + enc_string(path),
        MessageV::ListDirectoryResponse { request_id, success, entries, error } => enc_u128(
            request_id,
        ) + (enc_bool(success) + (enc_opt_entries(entries) + enc_opt_string(error))),
        MessageV::CreateDirectory { request_id, path, mode } => enc_u128(request_id) + (enc_string(
            path,
        ) + enc_u32(mode)),
        MessageV::CreateDirectoryResponse { request_id, success, metadata, error } => enc_u128(
            request_id,
        ) + (enc_bool(success) + (enc_opt_metadata(metadata) + enc_opt_string(error))),
        MessageV::RemoveDirectory { request_id, path, recursive } => enc_u128(request_id) + (
        enc_string(path) + enc_bool(recursive)),
        MessageV::RemoveDirectoryResponse { request_id, success, error } => enc_u128(request_id) + (
        enc_bool(success) + enc_opt_string(error)),
        MessageV::GetMetadata { request_id, path, follow_symlinks } => enc_u128(request_id) + (
        enc_string(path) + enc_bool(follow_symlinks)),
        MessageV::GetMetadataResponse { request_id, success, metadata, error } => enc_u128(
            request_id,
        ) + (enc_bool(success) + (enc_opt_metadata(metadata) + enc_opt_string(error))),
        MessageV::SetMetadata { request_id, path, metadata } => enc_u128(request_id) + (enc_string(
            path,
        ) + enc_metadata(metadata)),
        MessageV::SetMetadataResponse { request_id, success, error } => enc_u128(request_id) + (
        enc_bool(success) + enc_opt_string(error)),
        MessageV::Rename { request_id, from_path, to_path } => enc_u128(request_id) + (enc_string(
            from_path,
        ) + enc_string(to_path)),
        MessageV::RenameResponse { request_id, success, error } => enc_u128(request_id) + (
        enc_bool(success) + enc_opt_string(error)),
        MessageV::CreateSymlink { request_id, link_path, target_path } => enc_u128(request_id) + (
        enc_string(link_path) + enc_string(target_path)),
        MessageV::CreateSymlinkResponse { request_id, success, error } => enc_u128(request_id) + (
        enc_bool(success) + enc_opt_string(error)),
        MessageV::PathExists { request_id, path } => enc_u128(request_id) + enc_string(path),
        MessageV::PathExistsResponse { request_id, exists, error } => enc_u128(request_id) + (
        enc_bool(exists) + enc_opt_string(error)),
        MessageV::GetSpaceInfo { request_id, path } => enc_u128(request_id) + enc_string(path),
        MessageV::GetSpaceInfoResponse {
            request_id,
            success,
            total_space,
            available_space,
            used_space,
            error,
        } => enc_u128(request_id) + (enc_bool(success) + (enc_opt_u64(total_space) + (enc_opt_u64(
            available_space,
        ) + (enc_opt_u64(used_space) + enc_opt_string(error))))),
        MessageV::Ping { timestamp } => enc_u64(timestamp),
        MessageV::Pong { timestamp, original_timestamp } => enc_u64(timestamp) + enc_u64(
            original_timestamp,
        ),
        MessageV::ConnectionClose { reason } => enc_string(reason),
        MessageV::Error { request_id, code, message, details } => enc_opt_u128(request_id) + (
        enc_error_code(code) + (enc_string(message) + enc_pairs(details))),
    }
}

/// Full encoding of a message: tag byte, then fields.
pub open spec fn enc_msg(m: MessageV) -> Seq<u8> {
    enc_u8(msg_tag(m)) + enc_msg_payload(m)
}

/// Every variable-length part of the message fits its length prefix.
pub open spec fn wf_msg(m: MessageV) -> bool {
    match m {
        MessageV::AuthRequest { node_id, public_key, capabilities, .. } => wf_string(node_id)
            && wf_bytes(public_key) && wf_strings(capabilities),
        MessageV::AuthResponse { session_token, relay_info, error, .. } => wf_opt_string(
            session_token,
        ) && wf_opt_relay_info(relay_info) && wf_opt_string(error),
        MessageV::EstablishChannel { target_node, encrypted_key_exchange } => wf_string(
            target_node,
        ) && wf_bytes(encrypted_key_exchange),
        MessageV::ChannelEstablished { encrypted_response, error, .. } => wf_opt_bytes(
            encrypted_response,
        ) && wf_opt_string(error),
        MessageV::ReadFile { path, .. } => wf_string(path),
        MessageV::ReadFileResponse { data, error, .. } => wf_opt_bytes(data) && wf_opt_string(
            error,
        ),
        MessageV::WriteFile { path, data, .. } => wf_string(path) && wf_bytes(data),
        MessageV::WriteFileResponse { error, .. } => wf_opt_string(error),
        MessageV::CreateFile { path, .. } => wf_string(path),
        MessageV::CreateFileResponse { metadata, error, .. } => wf_opt_metadata(metadata)
            && wf_opt_string(error),
        MessageV::DeleteFile { path, .. } => wf_string(path),
        MessageV::DeleteFileResponse { error, .. } => wf_opt_string(error),
        MessageV::TruncateFile { path, .. } => wf_string(path),
        MessageV::TruncateFileResponse { error, .. } => wf_opt_string(error),
        MessageV::ListDirectory { path, .. } => wf_string(path),
        MessageV::ListDirectoryResponse { entries, error, .. } => wf_opt_entries(entries)
            && wf_opt_string(error),
        MessageV::CreateDirectory { path, .. } => wf_string(path),
        MessageV::CreateDirectoryResponse { metadata, error, .. } => wf_opt_metadata(metadata)
            && wf_opt_string(error),
        MessageV::RemoveDirectory { path, .. } => wf_string(path),
        MessageV::RemoveDirectoryResponse { error, .. } => wf_opt_string(error),
        MessageV::GetMetadata { path, .. } => wf_string(path),
        MessageV::GetMetadataResponse { metadata, error, .. } => wf_opt_metadata(metadata)
            && wf_opt_string(error),
        MessageV::SetMetadata { path, metadata, .. } => wf_string(path) && wf_metadata(metadata),
        MessageV::SetMetadataResponse { error, .. } => wf_opt_string(error),
        MessageV::Rename { from_path, to_path, .. } => wf_string(from_path) && wf_string(to_path),
        MessageV::RenameResponse { error, .. } => wf_opt_string(error),
        MessageV::CreateSymlink { link_path, target_path, .. } => wf_string(link_path)
            && wf_string(target_path),
        MessageV::CreateSymlinkResponse { error, .. } => wf_opt_string(error),
        MessageV::PathExists { path, .. } => wf_string(path),
        MessageV::PathExistsResponse { error, .. } => wf_opt_string(error),
        MessageV::GetSpaceInfo { path, .. } => wf_string(path),
        MessageV::GetSpaceInfoResponse { error, .. } => wf_opt_string(error),
        MessageV::Ping { .. } => true,
        MessageV::Pong { .. } => true,
        MessageV::ConnectionClose { reason } => wf_string(reason),
        MessageV::Error { message, details, .. } => wf_string(message) && wf_pairs(details),
    }
}

pub open spec fn dec_msg_payload_low(s: Seq<u8>, i: int, tag: u8) -> Option<(MessageV, int)> {
    if tag == 0 {

        match dec_string(s, i) {
            None => None,
            Some((node_id, i1)) => match dec_node_type(s, i1) {
                None => None,
                Some((node_type, i2)) => match dec_bytes(s, i2) {
                    None => None,
                    Some((public_key, i3)) => match dec_strings(s, i3) {
                        None => None,
                        Some((capabilities, i4)) => Some(
                            (MessageV::AuthRequest { node_id, node_type, public_key, capabilities }, i4),
                        ),
                    },
                },
            },
        }
    } else if tag == 1 {

        match dec_bool(s, i) {
            None => None,
            Some((success, i1)) => match dec_opt_string(s, i1) {
                None => None,
                Some((session_token, i2)) => match dec_opt_relay_info(s, i2) {
                    None => None,
                    Some((relay_info, i3)) => match dec_opt_string(s, i3) {
                        None => None,
                        Some((error, i4)) => Some(
                            (MessageV::AuthResponse { success, session_token, relay_info, error }, i4),
                        ),
                    },
                },
            },
        }
    } else if tag == 2 {

        match dec_string(s, i) {
            None => None,
            Some((target_node, i1)) => match dec_bytes(s, i1) {
                None => None,
                Some((encrypted_key_exchange, i2)) => Some(
                    (MessageV::EstablishChannel { target_node, encrypted_key_exchange }, i2),
                ),
            },
        }
    } else if tag == 3 {

        match dec_bool(s, i) {
            None => None,
            Some((success, i1)) => match dec_opt_bytes(s, i1) {
                None => None,
                Some((encrypted_response, i2)) => match dec_opt_string(s, i2) {
                    None => None,
                    Some((error, i3)) => Some(
                        (MessageV::ChannelEstablished { success, encrypted_response, error }, i3),
                    ),
                },
            },
        }
    } else if tag == 4 {

        match dec_u128(s, i) {
            None => None,
            Some((request_id, i1)) => match dec_string(s, i1) {
                None => None,
                Some((path, i2)) => match dec_u64(s, i2) {
                    None => None,
                    Some((offset, i3)) => match dec_u32(s, i3) {
                        None => None,
                        Some((length, i4)) => Some(
                            (MessageV::ReadFile { request_id, path, offset, length }, i4),
                        ),
                    },
                },
            },
        }
    } else if tag == 5 {

        match dec_u128(s, i) {
            None => None,
            Some((request_id, i1)) => match dec_bool(s, i1) {
                None => None,
                Some((success, i2)) => match dec_opt_bytes(s, i2) {
                    None => None,
                    Some((data, i3)) => match dec_u64(s, i3) {
                        None => None,
                        Some((bytes_read, i4)) => match dec_opt_string(s, i4) {
                            None => None,
                            Some((error, i5)) => Some(
                                (
                                    MessageV::ReadFileResponse {
                                        request_id,
                                        success,
                                        data,
                                        bytes_read,
                                        error,
                                    },
                                    i5,
                                ),
                            ),
                        },
                    },
                },
            },
        }
    } else if tag == 6 {

        match dec_u128(s, i) {
            None => None,
            Some((request_id, i1)) => match dec_string(s, i1) {
                None => None,
                Some((path, i2)) => match dec_u64(s, i2) {
                    None => None,
                    Some((offset, i3)) => match dec_bytes(s, i3) {
                        None => None,
                        Some((data, i4)) => match dec_bool(s, i4) {
                            None => None,
                            Some((sync, i5)) => Some(
                                (MessageV::WriteFile { request_id, path, offset, data, sync }, i5),
                            ),
                        },
                    },
                },
            },
        }
    } else if tag == 7 {

        match dec_u128(s, i) {
            None => None,
            Some((request_id, i1)) => match dec_bool(s, i1) {
                None => None,
                Some((success, i2)) => match dec_u64(s, i2) {
                    None => None,
                    Some((bytes_written, i3)) => match dec_opt_string(s, i3) {
                        None => None,
                        Some((error, i4)) => Some(
                            (
                                MessageV::WriteFileResponse {
                                    request_id,
                                    success,
                                    bytes_written,
                                    error,
                                },
                                i4,
                            ),
                        ),
                    },
                },
            },
        }
    } else if tag == 8 {

        match dec_u128(s, i) {
            None => None,
            Some((request_id, i1)) => match dec_string(s, i1) {
                None => None,
                Some((path, i2)) => match dec_u32(s, i2) {
                    None => None,
                    Some((mode, i3)) => match dec_bool(s, i3) {
                        None => None,
                        Some((exclusive, i4)) => Some(
                            (MessageV::CreateFile { request_id, path, mode, exclusive }, i4),
                        ),
                    },
                },
            },
        }
    } else if tag == 9 {

        match dec_u128(s, i) {
            None => None,
            Some((request_id, i1)) => match dec_bool(s, i1) {
                None => None,
                Some((success, i2)) => match dec_opt_metadata(s, i2) {
                    None => None,
                    Some((metadata, i3)) => match dec_opt_string(s, i3) {
                        None => None,
                        Some((error, i4)) => Some(
                            (
                                MessageV::CreateFileResponse { request_id, success, metadata, error },
                                i4,
                            ),
                        ),
                    },
                },
            },
        }
    } else if tag == 10 {

        match dec_u128(s, i) {
            None => None,
            Some((request_id, i1)) => match dec_string(s, i1) {
                None => None,
                Some((path, i2)) => Some((MessageV::DeleteFile { request_id, path }, i2)),
            },
        }
    } else if tag == 11 {

        match dec_u128(s, i) {
            None => None,
            Some((request_id, i1)) => match dec_bool(s, i1) {
                None => None,
                Some((success, i2)) => match dec_opt_string(s, i2) {
                    None => None,
                    Some((error, i3)) => Some(
                        (MessageV::DeleteFileResponse { request_id, success, error }, i3),
                    ),
                },
            },
        }
    } else {
        None
    }
}

pub open spec fn dec_msg_payload_mid(s: Seq<u8>, i: int, tag: u8) -> Option<(MessageV, int)> {
    if tag == 12 {

        match dec_u128(s, i) {
            None => None,
            Some((request_id, i1)) => match dec_string(s, i1) {
                None => None,
                Some((path, i2)) => match dec_u64(s, i2) {
                    None => None,
                    Some((size, i3)) => Some(
                        (MessageV::TruncateFile { request_id, path, size }, i3),
                    ),
                },
            },
        }
    } else if tag == 13 {

        match dec_u128(s, i) {
            None => None,
            Some((request_id, i1)) => match dec_bool(s, i1) {
                None => None,
                Some((success, i2)) => match dec_opt_string(s, i2) {
                    None => None,
                    Some((error, i3)) => Some(
                        (MessageV::TruncateFileResponse { request_id, success, error }, i3),
                    ),
                },
            },
        }
    } else if tag == 14 {

        match dec_u128(s, i) {
            None => None,
            Some((request_id, i1)) => match dec_string(s, i1) {
                None => None,
                Some((path, i2)) => Some((MessageV::ListDirectory { request_id, path }, i2)),
            },
        }
    } else if tag == 15 {

        match dec_u128(s, i) {
            None => None,
            Some((request_id, i1)) => match dec_bool(s, i1) {
                None => None,
                Some((success, i2)) => match dec_opt_entries(s, i2) {
                    None => None,
                    Some((entries, i3)) => match dec_opt_string(s, i3) {
                        None => None,
                        Some((error, i4)) => Some(
                            (
                                MessageV::ListDirectoryResponse {
                                    request_id,
                                    success,
                                    entries,
                                    error,
                                },
                                i4,
                            ),
                        ),
                    },
                },
            },
        }
    } else if tag == 16 {

        match dec_u128(s, i) {
            None => None,
            Some((request_id, i1)) => match dec_string(s, i1) {
                None => None,
                Some((path, i2)) => match dec_u32(s, i2) {
                    None => None,
                    Some((mode, i3)) => Some(
                        (MessageV::CreateDirectory { request_id, path, mode }, i3),
                    ),
                },
            },
        }
    } else if tag == 17 {

        match dec_u128(s, i) {
            None => None,
            Some((request_id, i1)) => match dec_bool(s, i1) {
                None => None,
                Some((success, i2)) => match dec_opt_metadata(s, i2) {
                    None => None,
                    Some((metadata, i3)) => match dec_opt_string(s, i3) {
                        None => None,
                        Some((error, i4)) => Some(
                            (
                                MessageV::CreateDirectoryResponse {
                                    request_id,
                                    success,
                                    metadata,
                                    error,
                                },
                                i4,
                            ),
                        ),
                    },
                },
            },
        }
    } else if tag == 18 {

        match dec_u128(s, i) {
            None => None,
            Some((request_id, i1)) => match dec_string(s, i1) {
                None => None,
                Some((path, i2)) => match dec_bool(s, i2) {
                    None => None,
                    Some((recursive, i3)) => Some(
                        (MessageV::RemoveDirectory { request_id, path, recursive }, i3),
                    ),
                },
            },
        }
    } else if tag == 19 {

        match dec_u128(s, i) {
            None => None,
            Some((request_id, i1)) => match dec_bool(s, i1) {
                None => None,
                Some((success, i2)) => match dec_opt_string(s, i2) {
                    None => None,
                    Some((error, i3)) => Some(
                        (MessageV::RemoveDirectoryResponse { request_id, success, error }, i3),
                    ),
                },
            },
        }
    } else if tag == 20 {

        match dec_u128(s, i) {
            None => None,
            Some((request_id, i1)) => match dec_string(s, i1) {
                None => None,
                Some((path, i2)) => match dec_bool(s, i2) {
                    None => None,
                    Some((follow_symlinks, i3)) => Some(
                        (MessageV::GetMetadata { request_id, path, follow_symlinks }, i3),
                    ),
                },
            },
        }
    } else if tag == 21 {

        match dec_u128(s, i) {
            None => None,
            Some((request_id, i1)) => match dec_bool(s, i1) {
                None => None,
                Some((success, i2)) => match dec_opt_metadata(s, i2) {
                    None => None,
                    Some((metadata, i3)) => match dec_opt_string(s, i3) {
                        None => None,
                        Some((error, i4)) => Some(
                            (
                                MessageV::GetMetadataResponse { request_id, success, metadata, error },
                                i4,
                            ),
                        ),
                    },
                },
            },
        }
    } else if tag == 22 {

        match dec_u128(s, i) {
            None => None,
            Some((request_id, i1)) => match dec_string(s, i1) {
                None => None,
                Some((path, i2)) => match dec_metadata(s, i2) {
                    None => None,
                    Some((metadata, i3)) => Some(
                        (MessageV::SetMetadata { request_id, path, metadata }, i3),
                    ),
                },
            },
        }
    } else if tag == 23 {

        match dec_u128(s, i) {
            None => None,
            Some((request_id, i1)) => match dec_bool(s, i1) {
                None => None,
                Some((success, i2)) => match dec_opt_string(s, i2) {
                    None => None,
                    Some((error, i3)) => Some(
                        (MessageV::SetMetadataResponse { request_id, success, error }, i3),
                    ),
                },
            },
        }
    } else {
        None
    }
}

pub open spec fn dec_msg_payload_high(s: Seq<u8>, i: int, tag: u8) -> Option<(MessageV, int)> {
    if tag == 24 {

        match dec_u128(s, i) {
            None => None,
            Some((request_id, i1)) => match dec_string(s, i1) {
                None => None,
                Some((from_path, i2)) => match dec_string(s, i2) {
                    None => None,
                    Some((to_path, i3)) => Some(
                        (MessageV::Rename { request_id, from_path, to_path }, i3),
                    ),
                },
            },
        }
    } else if tag == 25 {

        match dec_u128(s, i) {
            None => None,
            Some((request_id, i1)) => match dec_bool(s, i1) {
                None => None,
                Some((success, i2)) => match dec_opt_string(s, i2) {
                    None => None,
                    Some((error, i3)) => Some(
                        (MessageV::RenameResponse { request_id, success, error }, i3),
                    ),
                },
            },
        }
    } else if tag == 26 {

        match dec_u128(s, i) {
            None => None,
            Some((request_id, i1)) => match dec_string(s, i1) {
                None => None,
                Some((link_path, i2)) => match dec_string(s, i2) {
                    None => None,
                    Some((target_path, i3)) => Some(
                        (MessageV::CreateSymlink { request_id, link_path, target_path }, i3),
                    ),
                },
            },
        }
    } else if tag == 27 {

        match dec_u128(s, i) {
            None => None,
            Some((request_id, i1)) => match dec_bool(s, i1) {
                None => None,
                Some((success, i2)) => match dec_opt_string(s, i2) {
                    None => None,
                    Some((error, i3)) => Some(
                        (MessageV::CreateSymlinkResponse { request_id, success, error }, i3),
                    ),
                },
            },
        }
    } else if tag == 28 {

        match dec_u128(s, i) {
            None => None,
            Some((request_id, i1)) => match dec_string(s, i1) {
                None => None,
                Some((path, i2)) => Some((MessageV::PathExists { request_id, path }, i2)),
            },
        }
    } else if tag == 29 {

        match dec_u128(s, i) {
            None => None,
            Some((request_id, i1)) => match dec_bool(s, i1) {
                None => None,
                Some((exists, i2)) => match dec_opt_string(s, i2) {
                    None => None,
                    Some((error, i3)) => Some(
                        (MessageV::PathExistsResponse { request_id, exists, error }, i3),
                    ),
                },
            },
        }
    } else if tag == 30 {

        match dec_u128(s, i) {
            None => None,
            Some((request_id, i1)) => match dec_string(s, i1) {
                None => None,
                Some((path, i2)) => Some((MessageV::GetSpaceInfo { request_id, path }, i2)),
            },
        }
    } else if tag == 31 {

        match dec_u128(s, i) {
            None => None,
            Some((request_id, i1)) => match dec_bool(s, i1) {
                None => None,
                Some((success, i2)) => match dec_opt_u64(s, i2) {
                    None => None,
                    Some((total_space, i3)) => match dec_opt_u64(s, i3) {
                        None => None,
                        Some((available_space, i4)) => match dec_opt_u64(s, i4) {
                            None => None,
                            Some((used_space, i5)) => match dec_opt_string(s, i5) {
                                None => None,
                                Some((error, i6)) => Some(
                                    (
                                        MessageV::GetSpaceInfoResponse {
                                            request_id,
                                            success,
                                            total_space,
                                            available_space,
                                            used_space,
                                            error,
                                        },
                                        i6,
                                    ),
                                ),
                            },
                        },
                    },
                },
            },
        }
    } else if tag == 32 {

        match dec_u64(s, i) {
            None => None,
            Some((timestamp, i1)) => Some((MessageV::Ping { timestamp }, i1)),
        }
    } else if tag == 33 {

        match dec_u64(s, i) {
            None => None,
            Some((timestamp, i1)) => match dec_u64(s, i1) {
                None => None,
                Some((original_timestamp, i2)) => Some(
                    (MessageV::Pong { timestamp, original_timestamp }, i2),
                ),
            },
        }
    } else if tag == 34 {

        match dec_string(s, i) {
            None => None,
            Some((reason, i1)) => Some((MessageV::ConnectionClose { reason }, i1)),
        }
    } else if tag == 35 {

        match dec_opt_u128(s, i) {
            None => None,
            Some((request_id, i1)) => match dec_error_code(s, i1) {
                None => None,
                Some((code, i2)) => match dec_string(s, i2) {
                    None => None,
                    Some((message, i3)) => match dec_pairs(s, i3) {
                        None => None,
                        Some((details, i4)) => Some(
                            (MessageV::Error { request_id, code, message, details }, i4),
                        ),
                    },
                },
            },
        }
    } else {
        None
    }
}

/// Decoding of a variant's fields given its tag.
pub open spec fn dec_msg_payload(s: Seq<u8>, i: int, tag: u8) -> Option<(MessageV, int)> {
    if tag < 12 {
        dec_msg_payload_low(s, i, tag)
    } else if tag < 24 {
        dec_msg_payload_mid(s, i, tag)
    } else {
        dec_msg_payload_high(s, i, tag)
    }
}

/// Decoding of a whole message starting at position `i`.
pub open spec fn dec_msg_at(s: Seq<u8>, i: int) -> Option<(MessageV, int)> {
    match dec_u8(s, i) {
        None => None,
        Some((tag, j)) => dec_msg_payload(s, j, tag),
    }
}

/// A message decodes only when the whole buffer is consumed.
pub open spec fn dec_msg(s: Seq<u8>) -> Option<MessageV> {
    match dec_msg_at(s, 0) {
        None => None,
        Some((m, e)) => if e == s.len() {
            Some(m)
        } else {
            None
        },
    }
}

} // verus!

verus! {

#[verifier::rlimit(100)]
proof fn lemma_dec_enc_payload_auth_request(s: Seq<u8>, j: int, m: MessageV)
    requires
        bytes_at(s, j, enc_msg_payload(m)),
        wf_msg(m),
        m is AuthRequest,
    ensures
        dec_msg_payload(s, j, msg_tag(m)) == Some((m, j + enc_msg_payload(m).len())),
{
    match m {
                        MessageV::AuthRequest { node_id, node_type, public_key, capabilities } => {
            let e1 = enc_string(node_id);
            let e2 = enc_node_type(node_type);
            let e3 = enc_bytes(public_key);
            let e4 = enc_strings(capabilities);
            lemma_bytes_at_split(s, j, e1, e2 + (e3 + e4));
            lemma_bytes_at_split(s, j + e1.len(), e2, e3 + e4);
            lemma_bytes_at_split(s, j + e1.len() + e2.len(), e3, e4);
            lemma_dec_enc_string(s, j, node_id);
            lemma_dec_enc_node_type(s, j + e1.len(), node_type);
            lemma_dec_enc_bytes(s, j + e1.len() + e2.len(), public_key);
            lemma_dec_enc_strings(s, j + e1.len() + e2.len() + e3.len(), capabilities);
        },
        _ => {
            assert(false);
        },
    }
}

#[verifier::rlimit(100)]
proof fn lemma_dec_enc_payload_auth_response(s: Seq<u8>, j: int, m: MessageV)
    requires
        bytes_at(s, j, enc_msg_payload(m)),
        wf_msg(m),
        m is AuthResponse,
    ensures
        dec_msg_payload(s, j, msg_tag(m)) == Some((m, j + enc_msg_payload(m).len())),
{
    match m {
        MessageV::AuthResponse { success, session_token, relay_info, error } => {
            let e1 = enc_bool(success);
            let e2 = enc_opt_string(session_token);
            let e3 = enc_opt_relay_info(relay_info);
            let e4 = enc_opt_string(error);
            lemma_bytes_at_split(s, j, e1, e2 + (e3 + e4));
            lemma_bytes_at_split(s, j + e1.len(), e2, e3 + e4);
            lemma_bytes_at_split(s, j + e1.len() + e2.len(), e3, e4);
            lemma_dec_enc_bool(s, j, success);
            lemma_dec_enc_opt_string(s, j + e1.len(), session_token);
            lemma_dec_enc_opt_relay_info(s, j + e1.len() + e2.len(), relay_info);
            lemma_dec_enc_opt_string(s, j + e1.len() + e2.len() + e3.len(), error);
        },
        _ => {
            assert(false);
        },
    }
}

#[verifier::rlimit(100)]
proof fn lemma_dec_enc_payload_establish_channel(s: Seq<u8>, j: int, m: MessageV)
    requires
        bytes_at(s, j, enc_msg_payload(m)),
        wf_msg(m),
        m is EstablishChannel,
    ensures
        dec_msg_payload(s, j, msg_tag(m)) == Some((m, j + enc_msg_payload(m).len())),
{
    match m {
        MessageV::EstablishChannel { target_node, encrypted_key_exchange } => {
            let e1 = enc_string(target_node);
            let e2 = enc_bytes(encrypted_key_exchange);
            lemma_bytes_at_split(s, j, e1, e2);
            lemma_dec_enc_string(s, j, target_node);
            lemma_dec_enc_bytes(s, j + e1.len(), encrypted_key_exchange);
        },
        _ => {
            assert(false);
        },
    }
}

#[verifier::rlimit(100)]
proof fn lemma_dec_enc_payload_channel_established(s: Seq<u8>, j: int, m: MessageV)
    requires
        bytes_at(s, j, enc_msg_payload(m)),
        wf_msg(m),
        m is ChannelEstablished,
    ensures
        dec_msg_payload(s, j, msg_tag(m)) == Some((m, j + enc_msg_payload(m).len())),
{
    match m {
        MessageV::ChannelEstablished { success, encrypted_response, error } => {
            let e1 = enc_bool(success);
            let e2 = enc_opt_bytes(encrypted_response);
            let e3 = enc_opt_string(error);
            lemma_bytes_at_split(s, j, e1, e2 + e3);
            lemma_bytes_at_split(s, j + e1.len(), e2, e3);
            lemma_dec_enc_bool(s, j, success);
            lemma_dec_enc_opt_bytes(s, j + e1.len(), encrypted_response);
            lemma_dec_enc_opt_string(s, j + e1.len() + e2.len(), error);
        },
        _ => {
            assert(false);
        },
    }
}

#[verifier::rlimit(100)]
proof fn lemma_dec_enc_payload_read_file(s: Seq<u8>, j: int, m: MessageV)
    requires
        bytes_at(s, j, enc_msg_payload(m)),
        wf_msg(m),
        m is ReadFile,
    ensures
        dec_msg_payload(s, j, msg_tag(m)) == Some((m, j + enc_msg_payload(m).len())),
{
    match m {
        MessageV::ReadFile { request_id, path, offset, length } => {
            let e1 = enc_u128(request_id);
            let e2 = enc_string(path);
            let e3 = enc_u64(offset);
            let e4 = enc_u32(length);
            lemma_bytes_at_split(s, j, e1, e2 + (e3 + e4));
            lemma_bytes_at_split(s, j + e1.len(), e2, e3 + e4);
            lemma_bytes_at_split(s, j + e1.len() + e2.len(), e3, e4);
            lemma_dec_enc_u128(s, j, request_id);
            lemma_dec_enc_string(s, j + e1.len(), path);
            lemma_dec_enc_u64(s, j + e1.len() + e2.len(), offset);
            lemma_dec_enc_u32(s, j + e1.len() + e2.len() + e3.len(), length);
        },
        _ => {
            assert(false);
        },
    }
}

#[verifier::rlimit(100)]
proof fn lemma_dec_enc_payload_read_file_response(s: Seq<u8>, j: int, m: MessageV)
    requires
        bytes_at(s, j, enc_msg_payload(m)),
        wf_msg(m),
        m is ReadFileResponse,
    ensures
        dec_msg_payload(s, j, msg_tag(m)) == Some((m, j + enc_msg_payload(m).len())),
{
    match m {
        MessageV::ReadFileResponse { request_id, success, data, bytes_read, error } => {
            let e1 = enc_u128(request_id);
            let e2 = enc_bool(success);
            let e3 = enc_opt_bytes(data);
            let e4 = enc_u64(bytes_read);
            let e5 = enc_opt_string(error);
            lemma_bytes_at_split(s, j, e1, e2 + (e3 + (e4 + e5)));
            lemma_bytes_at_split(s, j + e1.len(), e2, e3 + (e4 + e5));
            lemma_bytes_at_split(s, j + e1.len() + e2.len(), e3, e4 + e5);
            lemma_bytes_at_split(s, j + e1.len() + e2.len() + e3.len(), e4, e5);
            lemma_dec_enc_u128(s, j, request_id);
            lemma_dec_enc_bool(s, j + e1.len(), success);
            lemma_dec_enc_opt_bytes(s, j + e1.len() + e2.len(), data);
            lemma_dec_enc_u64(s, j + e1.len() + e2.len() + e3.len(), bytes_read);
            lemma_dec_enc_opt_string(s, j + e1.len() + e2.len() + e3.len() + e4.len(), error);
        },
        _ => {
            assert(false);
        },
    }
}

#[verifier::rlimit(100)]
proof fn lemma_dec_enc_payload_write_file(s: Seq<u8>, j: int, m: MessageV)
    requires
        bytes_at(s, j, enc_msg_payload(m)),
        wf_msg(m),
        m is WriteFile,
    ensures
        dec_msg_payload(s, j, msg_tag(m)) == Some((m, j + enc_msg_payload(m).len())),
{
    match m {
                MessageV::WriteFile { request_id, path, offset, data, sync } => {
            let e1 = enc_u128(request_id);
            let e2 = enc_string(path);
            let e3 = enc_u64(offset);
            let e4 = enc_bytes(data);
            let e5 = enc_bool(sync);
            lemma_bytes_at_split(s, j, e1, e2 + (e3 + (e4 + e5)));
            lemma_bytes_at_split(s, j + e1.len(), e2, e3 + (e4 + e5));
            lemma_bytes_at_split(s, j + e1.len() + e2.len(), e3, e4 + e5);
            lemma_bytes_at_split(s, j + e1.len() + e2.len() + e3.len(), e4, e5);
            lemma_dec_enc_u128(s, j, request_id);
            lemma_dec_enc_string(s, j + e1.len(), path);
            lemma_dec_enc_u64(s, j + e1.len() + e2.len(), offset);
            lemma_dec_enc_bytes(s, j + e1.len() + e2.len() + e3.len(), data);
            lemma_dec_enc_bool(s, j + e1.len() + e2.len() + e3.len() + e4.len(), sync);
        },
        _ => {
            assert(false);
        },
    }
}

#[verifier::rlimit(100)]
proof fn lemma_dec_enc_payload_write_file_response(s: Seq<u8>, j: int, m: MessageV)
    requires
        bytes_at(s, j, enc_msg_payload(m)),
        wf_msg(m),
        m is WriteFileResponse,
    ensures
        dec_msg_payload(s, j, msg_tag(m)) == Some((m, j + enc_msg_payload(m).len())),
{
    match m {
        MessageV::WriteFileResponse { request_id, success, bytes_written, error } => {
            let e1 = enc_u128(request_id);
            let e2 = enc_bool(success);
            let e3 = enc_u64(bytes_written);
            let e4 = enc_opt_string(error);
            lemma_bytes_at_split(s, j, e1, e2 + (e3 + e4));
            lemma_bytes_at_split(s, j + e1.len(), e2, e3 + e4);
            lemma_bytes_at_split(s, j + e1.len() + e2.len(), e3, e4);
            lemma_dec_enc_u128(s, j, request_id);
            lemma_dec_enc_bool(s, j + e1.len(), success);
            lemma_dec_enc_u64(s, j + e1.len() + e2.len(), bytes_written);
            lemma_dec_enc_opt_string(s, j + e1.len() + e2.len() + e3.len(), error);
        },
        _ => {
            assert(false);
        },
    }
}

#[verifier::rlimit(100)]
proof fn lemma_dec_enc_payload_create_file(s: Seq<u8>, j: int, m: MessageV)
    requires
        bytes_at(s, j, enc_msg_payload(m)),
        wf_msg(m),
        m is CreateFile,
    ensures
        dec_msg_payload(s, j, msg_tag(m)) == Some((m, j + enc_msg_payload(m).len())),
{
    match m {
        MessageV::CreateFile { request_id, path, mode, exclusive } => {
            let e1 = enc_u128(request_id);
            let e2 = enc_string(path);
            let e3 = enc_u32(mode);
            let e4 = enc_bool(exclusive);
            lemma_bytes_at_split(s, j, e1, e2 + (e3 + e4));
            lemma_bytes_at_split(s, j + e1.len(), e2, e3 + e4);
            lemma_bytes_at_split(s, j + e1.len() + e2.len(), e3, e4);
            lemma_dec_enc_u128(s, j, request_id);
            lemma_dec_enc_string(s, j + e1.len(), path);
            lemma_dec_enc_u32(s, j + e1.len() + e2.len(), mode);
            lemma_dec_enc_bool(s, j + e1.len() + e2.len() + e3.len(), exclusive);
        },
        _ => {
            assert(false);
        },
    }
}

#[verifier::rlimit(100)]
proof fn lemma_dec_enc_payload_create_file_response(s: Seq<u8>, j: int, m: MessageV)
    requires
        bytes_at(s, j, enc_msg_payload(m)),
        wf_msg(m),
        m is CreateFileResponse,
    ensures
        dec_msg_payload(s, j, msg_tag(m)) == Some((m, j + enc_msg_payload(m).len())),
{
    match m {
        MessageV::CreateFileResponse { request_id, success, metadata, error } => {
            let e1 = enc_u128(request_id);
            let e2 = enc_bool(success);
            let e3 = enc_opt_metadata(metadata);
            let e4 = enc_opt_string(error);
            lemma_bytes_at_split(s, j, e1, e2 + (e3 + e4));
            lemma_bytes_at_split(s, j + e1.len(), e2, e3 + e4);
            lemma_bytes_at_split(s, j + e1.len() + e2.len(), e3, e4);
            lemma_dec_enc_u128(s, j, request_id);
            lemma_dec_enc_bool(s, j + e1.len(), success);
            lemma_dec_enc_opt_metadata(s, j + e1.len() + e2.len(), metadata);
            lemma_dec_enc_opt_string(s, j + e1.len() + e2.len() + e3.len(), error);
        },
        _ => {
            assert(false);
        },
    }
}

#[verifier::rlimit(100)]
proof fn lemma_dec_enc_payload_delete_file(s: Seq<u8>, j: int, m: MessageV)
    requires
        bytes_at(s, j, enc_msg_payload(m)),
        wf_msg(m),
        m is DeleteFile,
    ensures
        dec_msg_payload(s, j, msg_tag(m)) == Some((m, j + enc_msg_payload(m).len())),
{
    match m {
        MessageV::DeleteFile { request_id, path } => {
            let e1 = enc_u128(request_id);
            let e2 = enc_string(path);
            lemma_bytes_at_split(s, j, e1, e2);
            lemma_dec_enc_u128(s, j, request_id);
            lemma_dec_enc_string(s, j + e1.len(), path);
        },
        _ => {
            assert(false);
        },
    }
}

#[verifier::rlimit(100)]
proof fn lemma_dec_enc_payload_delete_file_response(s: Seq<u8>, j: int, m: MessageV)
    requires
        bytes_at(s, j, enc_msg_payload(m)),
        wf_msg(m),
        m is DeleteFileResponse,
    ensures
        dec_msg_payload(s, j, msg_tag(m)) == Some((m, j + enc_msg_payload(m).len())),
{
    match m {
        MessageV::DeleteFileResponse { request_id, success, error } => {
            let e1 = enc_u128(request_id);
            let e2 = enc_bool(success);
            let e3 = enc_opt_string(error);
            lemma_bytes_at_split(s, j, e1, e2 + e3);
            lemma_bytes_at_split(s, j + e1.len(), e2, e3);
            lemma_dec_enc_u128(s, j, request_id);
            lemma_dec_enc_bool(s, j + e1.len(), success);
            lemma_dec_enc_opt_string(s, j + e1.len() + e2.len(), error);
        },
        _ => {
            assert(false);
        },
    }
}

#[verifier::rlimit(100)]
proof fn lemma_dec_enc_payload_truncate_file(s: Seq<u8>, j: int, m: MessageV)
    requires
        bytes_at(s, j, enc_msg_payload(m)),
        wf_msg(m),
        m is TruncateFile,
    ensures
        dec_msg_payload(s, j, msg_tag(m)) == Some((m, j + enc_msg_payload(m).len())),
{
    match m {
                        MessageV::TruncateFile { request_id, path, size } => {
            let e1 = enc_u128(request_id);
            let e2 = enc_string(path);
            let e3 = enc_u64(size);
            lemma_bytes_at_split(s, j, e1, e2 + e3);
            lemma_bytes_at_split(s, j + e1.len(), e2, e3);
            lemma_dec_enc_u128(s, j, request_id);
            lemma_dec_enc_string(s, j + e1.len(), path);
            lemma_dec_enc_u64(s, j + e1.len() + e2.len(), size);
        },
        _ => {
            assert(false);
        },
    }
}

#[verifier::rlimit(100)]
proof fn lemma_dec_enc_payload_truncate_file_response(s: Seq<u8>, j: int, m: MessageV)
    requires
        bytes_at(s, j, enc_msg_payload(m)),
        wf_msg(m),
        m is TruncateFileResponse,
    ensures
        dec_msg_payload(s, j, msg_tag(m)) == Some((m, j + enc_msg_payload(m).len())),
{
    match m {
        MessageV::TruncateFileResponse { request_id, success, error } => {
            let e1 = enc_u128(request_id);
            let e2 = enc_bool(success);
            let e3 = enc_opt_string(error);
            lemma_bytes_at_split(s, j, e1, e2 + e3);
            lemma_bytes_at_split(s, j + e1.len(), e2, e3);
            lemma_dec_enc_u128(s, j, request_id);
            lemma_dec_enc_bool(s, j + e1.len(), success);
            lemma_dec_enc_opt_string(s, j + e1.len() + e2.len(), error);
        },
        _ => {
            assert(false);
        },
    }
}

#[verifier::rlimit(100)]
proof fn lemma_dec_enc_payload_list_directory(s: Seq<u8>, j: int, m: MessageV)
    requires
        bytes_at(s, j, enc_msg_payload(m)),
        wf_msg(m),
        m is ListDirectory,
    ensures
        dec_msg_payload(s, j, msg_tag(m)) == Some((m, j + enc_msg_payload(m).len())),
{
    match m {
        MessageV::ListDirectory { request_id, path } => {
            let e1 = enc_u128(request_id);
            let e2 = enc_string(path);
            lemma_bytes_at_split(s, j, e1, e2);
            lemma_dec_enc_u128(s, j, request_id);
            lemma_dec_enc_string(s, j + e1.len(), path);
        },
        _ => {
            assert(false);
        },
    }
}

#[verifier::rlimit(100)]
proof fn lemma_dec_enc_payload_list_directory_response(s: Seq<u8>, j: int, m: MessageV)
    requires
        bytes_at(s, j, enc_msg_payload(m)),
        wf_msg(m),
        m is ListDirectoryResponse,
    ensures
        dec_msg_payload(s, j, msg_tag(m)) == Some((m, j + enc_msg_payload(m).len())),
{
    match m {
        MessageV::ListDirectoryResponse { request_id, success, entries, error } => {
            let e1 = enc_u128(request_id);
            let e2 = enc_bool(success);
            let e3 = enc_opt_entries(entries);
            let e4 = enc_opt_string(error);
            lemma_bytes_at_split(s, j, e1, e2 + (e3 + e4));
            lemma_bytes_at_split(s, j + e1.len(), e2, e3 + e4);
            lemma_bytes_at_split(s, j + e1.len() + e2.len(), e3, e4);
            lemma_dec_enc_u128(s, j, request_id);
            lemma_dec_enc_bool(s, j + e1.len(), success);
            lemma_dec_enc_opt_entries(s, j + e1.len() + e2.len(), entries);
            lemma_dec_enc_opt_string(s, j + e1.len() + e2.len() + e3.len(), error);
        },
        _ => {
            assert(false);
        },
    }
}

#[verifier::rlimit(100)]
proof fn lemma_dec_enc_payload_create_directory(s: Seq<u8>, j: int, m: MessageV)
    requires
        bytes_at(s, j, enc_msg_payload(m)),
        wf_msg(m),
        m is CreateDirectory,
    ensures
        dec_msg_payload(s, j, msg_tag(m)) == Some((m, j + enc_msg_payload(m).len())),
{
    match m {
        MessageV::CreateDirectory { request_id, path, mode } => {
            let e1 = enc_u128(request_id);
            let e2 = enc_string(path);
            let e3 = enc_u32(mode);
            lemma_bytes_at_split(s, j, e1, e2 + e3);
            lemma_bytes_at_split(s, j + e1.len(), e2, e3);
            lemma_dec_enc_u128(s, j, request_id);
            lemma_dec_enc_string(s, j + e1.len(), path);
            lemma_dec_enc_u32(s, j + e1.len() + e2.len(), mode);
        },
        _ => {
            assert(false);
        },
    }
}

#[verifier::rlimit(100)]
proof fn lemma_dec_enc_payload_create_directory_response(s: Seq<u8>, j: int, m: MessageV)
    requires
        bytes_at(s, j, enc_msg_payload(m)),
        wf_msg(m),
        m is CreateDirectoryResponse,
    ensures
        dec_msg_payload(s, j, msg_tag(m)) == Some((m, j + enc_msg_payload(m).len())),
{
    match m {
        MessageV::CreateDirectoryResponse { request_id, success, metadata, error } => {
            let e1 = enc_u128(request_id);
            let e2 = enc_bool(success);
            let e3 = enc_opt_metadata(metadata);
            let e4 = enc_opt_string(error);
            lemma_bytes_at_split(s, j, e1, e2 + (e3 + e4));
            lemma_bytes_at_split(s, j + e1.len(), e2, e3 + e4);
            lemma_bytes_at_split(s, j + e1.len() + e2.len(), e3, e4);
            lemma_dec_enc_u128(s, j, request_id);
            lemma_dec_enc_bool(s, j + e1.len(), success);
            lemma_dec_enc_opt_metadata(s, j + e1.len() + e2.len(), metadata);
            lemma_dec_enc_opt_string(s, j + e1.len() + e2.len() + e3.len(), error);
        },
        _ => {
            assert(false);
        },
    }
}

#[verifier::rlimit(100)]
proof fn lemma_dec_enc_payload_remove_directory(s: Seq<u8>, j: int, m: MessageV)
    requires
        bytes_at(s, j, enc_msg_payload(m)),
        wf_msg(m),
        m is RemoveDirectory,
    ensures
        dec_msg_payload(s, j, msg_tag(m)) == Some((m, j + enc_msg_payload(m).len())),
{
    match m {
                MessageV::RemoveDirectory { request_id, path, recursive } => {
            let e1 = enc_u128(request_id);
            let e2 = enc_string(path);
            let e3 = enc_bool(recursive);
            lemma_bytes_at_split(s, j, e1, e2 + e3);
            lemma_bytes_at_split(s, j + e1.len(), e2, e3);
            lemma_dec_enc_u128(s, j, request_id);
            lemma_dec_enc_string(s, j + e1.len(), path);
            lemma_dec_enc_bool(s, j + e1.len() + e2.len(), recursive);
        },
        _ => {
            assert(false);
        },
    }
}

#[verifier::rlimit(100)]
proof fn lemma_dec_enc_payload_remove_directory_response(s: Seq<u8>, j: int, m: MessageV)
    requires
        bytes_at(s, j, enc_msg_payload(m)),
        wf_msg(m),
        m is RemoveDirectoryResponse,
    ensures
        dec_msg_payload(s, j, msg_tag(m)) == Some((m, j + enc_msg_payload(m).len())),
{
    match m {
        MessageV::RemoveDirectoryResponse { request_id, success, error } => {
            let e1 = enc_u128(request_id);
            let e2 = enc_bool(success);
            let e3 = enc_opt_string(error);
            lemma_bytes_at_split(s, j, e1, e2 + e3);
            lemma_bytes_at_split(s, j + e1.len(), e2, e3);
            lemma_dec_enc_u128(s, j, request_id);
            lemma_dec_enc_bool(s, j + e1.len(), success);
            lemma_dec_enc_opt_string(s, j + e1.len() + e2.len(), error);
        },
        _ => {
            assert(false);
        },
    }
}

#[verifier::rlimit(100)]
proof fn lemma_dec_enc_payload_get_metadata(s: Seq<u8>, j: int, m: MessageV)
    requires
        bytes_at(s, j, enc_msg_payload(m)),
        wf_msg(m),
        m is GetMetadata,
    ensures
        dec_msg_payload(s, j, msg_tag(m)) == Some((m, j + enc_msg_payload(m).len())),
{
    match m {
        MessageV::GetMetadata { request_id, path, follow_symlinks } => {
            let e1 = enc_u128(request_id);
            let e2 = enc_string(path);
            let e3 = enc_bool(follow_symlinks);
            lemma_bytes_at_split(s, j, e1, e2 + e3);
            lemma_bytes_at_split(s, j + e1.len(), e2, e3);
            lemma_dec_enc_u128(s, j, request_id);
            lemma_dec_enc_string(s, j + e1.len(), path);
            lemma_dec_enc_bool(s, j + e1.len() + e2.len(), follow_symlinks);
        },
        _ => {
            assert(false);
        },
    }
}

#[verifier::rlimit(100)]
proof fn lemma_dec_enc_payload_get_metadata_response(s: Seq<u8>, j: int, m: MessageV)
    requires
        bytes_at(s, j, enc_msg_payload(m)),
        wf_msg(m),
        m is GetMetadataResponse,
    ensures
        dec_msg_payload(s, j, msg_tag(m)) == Some((m, j + enc_msg_payload(m).len())),
{
    match m {
        MessageV::GetMetadataResponse { request_id, success, metadata, error } => {
            let e1 = enc_u128(request_id);
            let e2 = enc_bool(success);
            let e3 = enc_opt_metadata(metadata);
            let e4 = enc_opt_string(error);
            lemma_bytes_at_split(s, j, e1, e2 + (e3 + e4));
            lemma_bytes_at_split(s, j + e1.len(), e2, e3 + e4);
            lemma_bytes_at_split(s, j + e1.len() + e2.len(), e3, e4);
            lemma_dec_enc_u128(s, j, request_id);
            lemma_dec_enc_bool(s, j + e1.len(), success);
            lemma_dec_enc_opt_metadata(s, j + e1.len() + e2.len(), metadata);
            lemma_dec_enc_opt_string(s, j + e1.len() + e2.len() + e3.len(), error);
        },
        _ => {
            assert(false);
        },
    }
}

#[verifier::rlimit(100)]
proof fn lemma_dec_enc_payload_set_metadata(s: Seq<u8>, j: int, m: MessageV)
    requires
        bytes_at(s, j, enc_msg_payload(m)),
        wf_msg(m),
        m is SetMetadata,
    ensures
        dec_msg_payload(s, j, msg_tag(m)) == Some((m, j + enc_msg_payload(m).len())),
{
    match m {
        MessageV::SetMetadata { request_id, path, metadata } => {
            let e1 = enc_u128(request_id);
            let e2 = enc_string(path);
            let e3 = enc_metadata(metadata);
            lemma_bytes_at_split(s, j, e1, e2 + e3);
            lemma_bytes_at_split(s, j + e1.len(), e2, e3);
            lemma_dec_enc_u128(s, j, request_id);
            lemma_dec_enc_string(s, j + e1.len(), path);
            lemma_dec_enc_metadata(s, j + e1.len() + e2.len(), metadata);
        },
        _ => {
            assert(false);
        },
    }
}

#[verifier::rlimit(100)]
proof fn lemma_dec_enc_payload_set_metadata_response(s: Seq<u8>, j: int, m: MessageV)
    requires
        bytes_at(s, j, enc_msg_payload(m)),
        wf_msg(m),
        m is SetMetadataResponse,
    ensures
        dec_msg_payload(s, j, msg_tag(m)) == Some((m, j + enc_msg_payload(m).len())),
{
    match m {
        MessageV::SetMetadataResponse { request_id, success, error } => {
            let e1 = enc_u128(request_id);
            let e2 = enc_bool(success);
            let e3 = enc_opt_string(error);
            lemma_bytes_at_split(s, j, e1, e2 + e3);
            lemma_bytes_at_split(s, j + e1.len(), e2, e3);
            lemma_dec_enc_u128(s, j, request_id);
            lemma_dec_enc_bool(s, j + e1.len(), success);
            lemma_dec_enc_opt_string(s, j + e1.len() + e2.len(), error);
        },
        _ => {
            assert(false);
        },
    }
}

#[verifier::rlimit(100)]
proof fn lemma_dec_enc_payload_rename(s: Seq<u8>, j: int, m: MessageV)
    requires
        bytes_at(s, j, enc_msg_payload(m)),
        wf_msg(m),
        m is Rename,
    ensures
        dec_msg_payload(s, j, msg_tag(m)) == Some((m, j + enc_msg_payload(m).len())),
{
    match m {
                        MessageV::Rename { request_id, from_path, to_path } => {
            let e1 = enc_u128(request_id);
            let e2 = enc_string(from_path);
            let e3 = enc_string(to_path);
            lemma_bytes_at_split(s, j, e1, e2 + e3);
            lemma_bytes_at_split(s, j + e1.len(), e2, e3);
            lemma_dec_enc_u128(s, j, request_id);
            lemma_dec_enc_string(s, j + e1.len(), from_path);
            lemma_dec_enc_string(s, j + e1.len() + e2.len(), to_path);
        },
        _ => {
            assert(false);
        },
    }
}

#[verifier::rlimit(100)]
proof fn lemma_dec_enc_payload_rename_response(s: Seq<u8>, j: int, m: MessageV)
    requires
        bytes_at(s, j, enc_msg_payload(m)),
        wf_msg(m),
        m is RenameResponse,
    ensures
        dec_msg_payload(s, j, msg_tag(m)) == Some((m, j + enc_msg_payload(m).len())),
{
    match m {
        MessageV::RenameResponse { request_id, success, error } => {
            let e1 = enc_u128(request_id);
            let e2 = enc_bool(success);
            let e3 = enc_opt_string(error);
            lemma_bytes_at_split(s, j, e1, e2 + e3);
            lemma_bytes_at_split(s, j + e1.len(), e2, e3);
            lemma_dec_enc_u128(s, j, request_id);
            lemma_dec_enc_bool(s, j + e1.len(), success);
            lemma_dec_enc_opt_string(s, j + e1.len() + e2.len(), error);
        },
        _ => {
            assert(false);
        },
    }
}

#[verifier::rlimit(100)]
proof fn lemma_dec_enc_payload_create_symlink(s: Seq<u8>, j: int, m: MessageV)
    requires
        bytes_at(s, j, enc_msg_payload(m)),
        wf_msg(m),
        m is CreateSymlink,
    ensures
        dec_msg_payload(s, j, msg_tag(m)) == Some((m, j + enc_msg_payload(m).len())),
{
    match m {
        MessageV::CreateSymlink { request_id, link_path, target_path } => {
            let e1 = enc_u128(request_id);
            let e2 = enc_string(link_path);
            let e3 = enc_string(target_path);
            lemma_bytes_at_split(s, j, e1, e2 + e3);
            lemma_bytes_at_split(s, j + e1.len(), e2, e3);
            lemma_dec_enc_u128(s, j, request_id);
            lemma_dec_enc_string(s, j + e1.len(), link_path);
            lemma_dec_enc_string(s, j + e1.len() + e2.len(), target_path);
        },
        _ => {
            assert(false);
        },
    }
}

#[verifier::rlimit(100)]
proof fn lemma_dec_enc_payload_create_symlink_response(s: Seq<u8>, j: int, m: MessageV)
    requires
        bytes_at(s, j, enc_msg_payload(m)),
        wf_msg(m),
        m is CreateSymlinkResponse,
    ensures
        dec_msg_payload(s, j, msg_tag(m)) == Some((m, j + enc_msg_payload(m).len())),
{
    match m {
        MessageV::CreateSymlinkResponse { request_id, success, error } => {
            let e1 = enc_u128(request_id);
            let e2 = enc_bool(success);
            let e3 = enc_opt_string(error);
            lemma_bytes_at_split(s, j, e1, e2 + e3);
            lemma_bytes_at_split(s, j + e1.len(), e2, e3);
            lemma_dec_enc_u128(s, j, request_id);
            lemma_dec_enc_bool(s, j + e1.len(), success);
            lemma_dec_enc_opt_string(s, j + e1.len() + e2.len(), error);
        },
        _ => {
            assert(false);
        },
    }
}

#[verifier::rlimit(100)]
proof fn lemma_dec_enc_payload_path_exists(s: Seq<u8>, j: int, m: MessageV)
    requires
        bytes_at(s, j, enc_msg_payload(m)),
        wf_msg(m),
        m is PathExists,
    ensures
        dec_msg_payload(s, j, msg_tag(m)) == Some((m, j + enc_msg_payload(m).len())),
{
    match m {
        MessageV::PathExists { request_id, path } => {
            let e1 = enc_u128(request_id);
            let e2 = enc_string(path);
            lemma_bytes_at_split(s, j, e1, e2);
            lemma_dec_enc_u128(s, j, request_id);
            lemma_dec_enc_string(s, j + e1.len(), path);
        },
        _ => {
            assert(false);
        },
    }
}

#[verifier::rlimit(100)]
proof fn lemma_dec_enc_payload_path_exists_response(s: Seq<u8>, j: int, m: MessageV)
    requires
        bytes_at(s, j, enc_msg_payload(m)),
        wf_msg(m),
        m is PathExistsResponse,
    ensures
        dec_msg_payload(s, j, msg_tag(m)) == Some((m, j + enc_msg_payload(m).len())),
{
    match m {
        MessageV::PathExistsResponse { request_id, exists, error } => {
            let e1 = enc_u128(request_id);
            let e2 = enc_bool(exists);
            let e3 = enc_opt_string(error);
            lemma_bytes_at_split(s, j, e1, e2 + e3);
            lemma_bytes_at_split(s, j + e1.len(), e2, e3);
            lemma_dec_enc_u128(s, j, request_id);
            lemma_dec_enc_bool(s, j + e1.len(), exists);
            lemma_dec_enc_opt_string(s, j + e1.len() + e2.len(), error);
        },
        _ => {
            assert(false);
        },
    }
}

#[verifier::rlimit(100)]
proof fn lemma_dec_enc_payload_get_space_info(s: Seq<u8>, j: int, m: MessageV)
    requires
        bytes_at(s, j, enc_msg_payload(m)),
        wf_msg(m),
        m is GetSpaceInfo,
    ensures
        dec_msg_payload(s, j, msg_tag(m)) == Some((m, j + enc_msg_payload(m).len())),
{
    match m {
                MessageV::GetSpaceInfo { request_id, path } => {
            let e1 = enc_u128(request_id);
            let e2 = enc_string(path);
            lemma_bytes_at_split(s, j, e1, e2);
            lemma_dec_enc_u128(s, j, request_id);
            lemma_dec_enc_string(s, j + e1.len(), path);
        },
        _ => {
            assert(false);
        },
    }
}

#[verifier::rlimit(100)]
proof fn lemma_dec_enc_payload_get_space_info_response(s: Seq<u8>, j: int, m: MessageV)
    requires
        bytes_at(s, j, enc_msg_payload(m)),
        wf_msg(m),
        m is GetSpaceInfoResponse,
    ensures
        dec_msg_payload(s, j, msg_tag(m)) == Some((m, j + enc_msg_payload(m).len())),
{
    match m {
        MessageV::GetSpaceInfoResponse { request_id, success, total_space, available_space, used_space, error } => {
            let e1 = enc_u128(request_id);
            let e2 = enc_bool(success);
            let e3 = enc_opt_u64(total_space);
            let e4 = enc_opt_u64(available_space);
            let e5 = enc_opt_u64(used_space);
            let e6 = enc_opt_string(error);
            lemma_bytes_at_split(s, j, e1, e2 + (e3 + (e4 + (e5 + e6))));
            lemma_bytes_at_split(s, j + e1.len(), e2, e3 + (e4 + (e5 + e6)));
            lemma_bytes_at_split(s, j + e1.len() + e2.len(), e3, e4 + (e5 + e6));
            lemma_bytes_at_split(s, j + e1.len() + e2.len() + e3.len(), e4, e5 + e6);
            lemma_bytes_at_split(s, j + e1.len() + e2.len() + e3.len() + e4.len(), e5, e6);
            lemma_dec_enc_u128(s, j, request_id);
            lemma_dec_enc_bool(s, j + e1.len(), success);
            lemma_dec_enc_opt_u64(s, j + e1.len() + e2.len(), total_space);
            lemma_dec_enc_opt_u64(s, j + e1.len() + e2.len() + e3.len(), available_space);
            lemma_dec_enc_opt_u64(s, j + e1.len() + e2.len() + e3.len() + e4.len(), used_space);
            lemma_dec_enc_opt_string(
                s,
                j + e1.len() + e2.len() + e3.len() + e4.len() + e5.len(),
                error,
            );
        },
        _ => {
            assert(false);
        },
    }
}

#[verifier::rlimit(100)]
proof fn lemma_dec_enc_payload_ping(s: Seq<u8>, j: int, m: MessageV)
    requires
        bytes_at(s, j, enc_msg_payload(m)),
        wf_msg(m),
        m is Ping,
    ensures
        dec_msg_payload(s, j, msg_tag(m)) == Some((m, j + enc_msg_payload(m).len())),
{
    match m {
        MessageV::Ping { timestamp } => {
            lemma_dec_enc_u64(s, j, timestamp);
        },
        _ => {
            assert(false);
        },
    }
}

#[verifier::rlimit(100)]
proof fn lemma_dec_enc_payload_pong(s: Seq<u8>, j: int, m: MessageV)
    requires
        bytes_at(s, j, enc_msg_payload(m)),
        wf_msg(m),
        m is Pong,
    ensures
        dec_msg_payload(s, j, msg_tag(m)) == Some((m, j + enc_msg_payload(m).len())),
{
    match m {
        MessageV::Pong { timestamp, original_timestamp } => {
            let e1 = enc_u64(timestamp);
            let e2 = enc_u64(original_timestamp);
            lemma_bytes_at_split(s, j, e1, e2);
            lemma_dec_enc_u64(s, j, timestamp);
            lemma_dec_enc_u64(s, j + e1.len(), original_timestamp);
        },
        _ => {
            assert(false);
        },
    }
}

#[verifier::rlimit(100)]
proof fn lemma_dec_enc_payload_connection_close(s: Seq<u8>, j: int, m: MessageV)
    requires
        bytes_at(s, j, enc_msg_payload(m)),
        wf_msg(m),
        m is ConnectionClose,
    ensures
        dec_msg_payload(s, j, msg_tag(m)) == Some((m, j + enc_msg_payload(m).len())),
{
    match m {
        MessageV::ConnectionClose { reason } => {
            lemma_dec_enc_string(s, j, reason);
        },
        _ => {
            assert(false);
        },
    }
}

#[verifier::rlimit(100)]
proof fn lemma_dec_enc_payload_error(s: Seq<u8>, j: int, m: MessageV)
    requires
        bytes_at(s, j, enc_msg_payload(m)),
        wf_msg(m),
        m is Error,
    ensures
        dec_msg_payload(s, j, msg_tag(m)) == Some((m, j + enc_msg_payload(m).len())),
{
    match m {
        MessageV::Error { request_id, code, message, details } => {
            let e1 = enc_opt_u128(request_id);
            let e2 = enc_error_code(code);
            let e3 = enc_string(message);
            let e4 = enc_pairs(details);
            lemma_bytes_at_split(s, j, e1, e2 + (e3 + e4));
            lemma_bytes_at_split(s, j + e1.len(), e2, e3 + e4);
            lemma_bytes_at_split(s, j + e1.len() + e2.len(), e3, e4);
            lemma_dec_enc_opt_u128(s, j, request_id);
            lemma_dec_enc_error_code(s, j + e1.len(), code);
            lemma_dec_enc_string(s, j + e1.len() + e2.len(), message);
            lemma_dec_enc_pairs(s, j + e1.len() + e2.len() + e3.len(), details);
        },
        _ => {
            assert(false);
        },
    }
}

/// Decoding undoes encoding: the round trip is exact for every message
/// variant whose variable-length parts fit their length prefixes.
#[verifier::rlimit(100)]
pub proof fn lemma_dec_enc_msg_at(s: Seq<u8>, i: int, m: MessageV)
    requires
        bytes_at(s, i, enc_msg(m)),
        wf_msg(m),
    ensures
        dec_msg_at(s, i) == Some((m, i + enc_msg(m).len())),
{
    lemma_bytes_at_split(s, i, enc_u8(msg_tag(m)), enc_msg_payload(m));
    lemma_dec_enc_u8(s, i, msg_tag(m));
    let j = i + 1;
    if m is AuthRequest {
        lemma_dec_enc_payload_auth_request(s, j, m);
    } else if m is AuthResponse {
        lemma_dec_enc_payload_auth_response(s, j, m);
    } else if m is EstablishChannel {
        lemma_dec_enc_payload_establish_channel(s, j, m);
    } else if m is ChannelEstablished {
        lemma_dec_enc_payload_channel_established(s, j, m);
    } else if m is ReadFile {
        lemma_dec_enc_payload_read_file(s, j, m);
    } else if m is ReadFileResponse {
        lemma_dec_enc_payload_read_file_response(s, j, m);
    } else if m is WriteFile {
        lemma_dec_enc_payload_write_file(s, j, m);
    } else if m is WriteFileResponse {
        lemma_dec_enc_payload_write_file_response(s, j, m);
    } else if m is CreateFile {
        lemma_dec_enc_payload_create_file(s, j, m);
    } else if m is CreateFileResponse {
        lemma_dec_enc_payload_create_file_response(s, j, m);
    } else if m is DeleteFile {
        lemma_dec_enc_payload_delete_file(s, j, m);
    } else if m is DeleteFileResponse {
        lemma_dec_enc_payload_delete_file_response(s, j, m);
    } else if m is TruncateFile {
        lemma_dec_enc_payload_truncate_file(s, j, m);
    } else if m is TruncateFileResponse {
        lemma_dec_enc_payload_truncate_file_response(s, j, m);
    } else if m is ListDirectory {
        lemma_dec_enc_payload_list_directory(s, j, m);
    } else if m is ListDirectoryResponse {
        lemma_dec_enc_payload_list_directory_response(s, j, m);
    } else if m is CreateDirectory {
        lemma_dec_enc_payload_create_directory(s, j, m);
    } else if m is CreateDirectoryResponse {
        lemma_dec_enc_payload_create_directory_response(s, j, m);
    } else if m is RemoveDirectory {
        lemma_dec_enc_payload_remove_directory(s, j, m);
    } else if m is RemoveDirectoryResponse {
        lemma_dec_enc_payload_remove_directory_response(s, j, m);
    } else if m is GetMetadata {
        lemma_dec_enc_payload_get_metadata(s, j, m);
    } else if m is GetMetadataResponse {
        lemma_dec_enc_payload_get_metadata_response(s, j, m);
    } else if m is SetMetadata {
        lemma_dec_enc_payload_set_metadata(s, j, m);
    } else if m is SetMetadataResponse {
        lemma_dec_enc_payload_set_metadata_response(s, j, m);
    } else if m is Rename {
        lemma_dec_enc_payload_rename(s, j, m);
    } else if m is RenameResponse {
        lemma_dec_enc_payload_rename_response(s, j, m);
    } else if m is CreateSymlink {
        lemma_dec_enc_payload_create_symlink(s, j, m);
    } else if m is CreateSymlinkResponse {
        lemma_dec_enc_payload_create_symlink_response(s, j, m);
    } else if m is PathExists {
        lemma_dec_enc_payload_path_exists(s, j, m);
    } else if m is PathExistsResponse {
        lemma_dec_enc_payload_path_exists_response(s, j, m);
    } else if m is GetSpaceInfo {
        lemma_dec_enc_payload_get_space_info(s, j, m);
    } else if m is GetSpaceInfoResponse {
        lemma_dec_enc_payload_get_space_info_response(s, j, m);
    } else if m is Ping {
        lemma_dec_enc_payload_ping(s, j, m);
    } else if m is Pong {
        lemma_dec_enc_payload_pong(s, j, m);
    } else if m is ConnectionClose {
        lemma_dec_enc_payload_connection_close(s, j, m);
    } else if m is Error {
        lemma_dec_enc_payload_error(s, j, m);
    }
}

/// Round trip over a whole buffer: a well-formed message comes back
/// from its own encoding, whichever variant it is.
pub proof fn lemma_round_trip(m: MessageV)
    requires
        wf_msg(m),
    ensures
        dec_msg(enc_msg(m)) == Some(m),
{
    let s = enc_msg(m);
    assert(s.subrange(0, s.len() as int) =~= s);
    lemma_dec_enc_msg_at(s, 0, m);
}

} // verus!
