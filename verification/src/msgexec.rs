//! Executable message encoder and decoder, proved against the
//! specification-level wire format.

use vstd::prelude::*;
use crate::codec::{
    enc_u8, enc_u32, enc_u64, enc_u128, enc_bool, enc_string, enc_bytes, encode_u8, encode_u32,
    encode_u64, encode_u128, encode_bool, encode_str, encode_bytes, decode_u8, decode_u32,
    decode_u64, decode_u128, decode_bool, decode_string, decode_bytes, dec_string,
};
use crate::wire::{
    enc_opt_string, dec_opt_string, enc_opt_bytes, dec_opt_bytes, enc_opt_u64, dec_opt_u64,
    enc_opt_u128, dec_opt_u128, enc_strings, enc_string_items, dec_strings, dec_string_items,
    lemma_enc_string_items_push, enc_node_type, dec_node_type, enc_error_code, dec_error_code,
    enc_file_type, dec_file_type, enc_metadata, dec_metadata, enc_opt_metadata, dec_opt_metadata,
    enc_direntry, dec_direntry, enc_entries, enc_entry_items, dec_entries, dec_entry_items,
    lemma_enc_entry_items_push, enc_opt_entries, dec_opt_entries, enc_relay_info, dec_relay_info,
    enc_opt_relay_info, dec_opt_relay_info, enc_pairs, enc_pair_items, dec_pairs, dec_pair_items,
    enc_pair, dec_pair, lemma_enc_pair_items_push,
};
use crate::msgspec::{msg_tag, enc_msg_payload, enc_msg, dec_msg_payload, dec_msg_at, dec_msg};
use crate::protocol::{
    Message, FileType, NodeType, ErrorCode, FileMetadata, DirEntry, RelayInfo, opt_string_view,
    opt_bytes_view, strings_view, pairs_view, opt_metadata_view, opt_relay_info_view,
    entries_view, opt_entries_view,
};

verus! {

fn encode_opt_str(out: &mut Vec<u8>, o: &Option<String>)
    ensures
        final(out)@ == old(out)@ + enc_opt_string(opt_string_view(*o)),
{
    match o {
        None => encode_bool(out, false),
        Some(s) => {
            encode_bool(out, true);
            encode_str(out, s.as_str());
            proof {
                assert(final(out)@ =~= old(out)@ + enc_opt_string(opt_string_view(*o)));
            }
        },
    }
}

fn encode_opt_bytes(out: &mut Vec<u8>, o: &Option<Vec<u8>>)
    ensures
        final(out)@ == old(out)@ + enc_opt_bytes(opt_bytes_view(*o)),
{
    match o {
        None => encode_bool(out, false),
        Some(b) => {
            encode_bool(out, true);
            encode_bytes(out, b);
            proof {
                assert(final(out)@ =~= old(out)@ + enc_opt_bytes(opt_bytes_view(*o)));
            }
        },
    }
}

fn encode_opt_u64(out: &mut Vec<u8>, o: &Option<u64>)
    ensures
        final(out)@ == old(out)@ + enc_opt_u64(*o),
{
    match o {
        None => encode_bool(out, false),
        Some(v) => {
            encode_bool(out, true);
            encode_u64(out, *v);
            proof {
                assert(final(out)@ =~= old(out)@ + enc_opt_u64(*o));
            }
        },
    }
}

fn encode_opt_u128(out: &mut Vec<u8>, o: &Option<u128>)
    ensures
        final(out)@ == old(out)@ + enc_opt_u128(*o),
{
    match o {
        None => encode_bool(out, false),
        Some(v) => {
            encode_bool(out, true);
            encode_u128(out, *v);
            proof {
                assert(final(out)@ =~= old(out)@ + enc_opt_u128(*o));
            }
        },
    }
}

fn encode_strings(out: &mut Vec<u8>, v: &Vec<String>)
    ensures
        final(out)@ == old(out)@ + enc_strings(strings_view(*v)),
{
    encode_u64(out, v.len() as u64);
    let ghost mid = out@;
    let mut k: usize = 0;
    while k < v.len()
        invariant
            k <= v@.len(),
            out@ == mid + enc_string_items(strings_view(*v).take(k as int)),
        decreases v@.len() - k,
    {
        encode_str(out, v[k].as_str());
        proof {
            lemma_enc_string_items_push(strings_view(*v).take(k as int), v@[k as int]@);
            assert(strings_view(*v).take(k as int).push(v@[k as int]@) =~= strings_view(
                *v,
            ).take(k + 1 as int));
        }
        k = k + 1;
    }
    proof {
        assert(strings_view(*v).take(v@.len() as int) =~= strings_view(*v));
        assert(strings_view(*v).len() == v@.len());
        assert(final(out)@ =~= old(out)@ + enc_strings(strings_view(*v)));
    }
}

fn encode_node_type(out: &mut Vec<u8>, t: NodeType)
    ensures
        final(out)@ == old(out)@ + enc_node_type(t),
{
    match t {
        NodeType::Client => encode_u8(out, 0),
        NodeType::Agent => encode_u8(out, 1),
        NodeType::Relay => encode_u8(out, 2),
    }
}

fn encode_error_code(out: &mut Vec<u8>, c: ErrorCode)
    ensures
        final(out)@ == old(out)@ + enc_error_code(c),
{
    match c {
        ErrorCode::AuthenticationFailed => encode_u8(out, 0),
        ErrorCode::InvalidCredentials => encode_u8(out, 1),
        ErrorCode::SessionExpired => encode_u8(out, 2),
        ErrorCode::AccessDenied => encode_u8(out, 3),
        ErrorCode::PathNotAllowed => encode_u8(out, 4),
        ErrorCode::InsufficientPermissions => encode_u8(out, 5),
        ErrorCode::FileNotFound => encode_u8(out, 6),
        ErrorCode::DirectoryNotFound => encode_u8(out, 7),
        ErrorCode::PathAlreadyExists => encode_u8(out, 8),
        ErrorCode::InvalidPath => encode_u8(out, 9),
        ErrorCode::DiskFull => encode_u8(out, 10),
        ErrorCode::ReadOnlyFileSystem => encode_u8(out, 11),
        ErrorCode::NetworkError => encode_u8(out, 12),
        ErrorCode::ConnectionTimeout => encode_u8(out, 13),
        ErrorCode::MessageTooLarge => encode_u8(out, 14),
        ErrorCode::InvalidMessage => encode_u8(out, 15),
        ErrorCode::InternalError => encode_u8(out, 16),
        ErrorCode::NotImplemented => encode_u8(out, 17),
        ErrorCode::ServiceUnavailable => encode_u8(out, 18),
    }
}

fn encode_file_type(out: &mut Vec<u8>, t: FileType)
    ensures
        final(out)@ == old(out)@ + enc_file_type(t),
{
    match t {
        FileType::File => encode_u8(out, 0),
        FileType::Directory => encode_u8(out, 1),
        FileType::Symlink => encode_u8(out, 2),
        FileType::BlockDevice => encode_u8(out, 3),
        FileType::CharDevice => encode_u8(out, 4),
        FileType::Fifo => encode_u8(out, 5),
        FileType::Socket => encode_u8(out, 6),
    }
}

#[verifier::rlimit(100)]
fn encode_metadata(out: &mut Vec<u8>, m: &FileMetadata)
    ensures
        final(out)@ == old(out)@ + enc_metadata(m@),
{
    encode_u64(out, m.size);
    encode_u64(out, m.modified);
    encode_u64(out, m.created);
    encode_u64(out, m.accessed);
    encode_u32(out, m.permissions);
    encode_u32(out, m.uid);
    encode_u32(out, m.gid);
    encode_bool(out, m.is_dir);
    encode_bool(out, m.is_file);
    encode_bool(out, m.is_symlink);
    encode_file_type(out, m.file_type);
    encode_opt_str(out, &m.symlink_target);
    proof {
        assert(final(out)@ =~= old(out)@ + enc_metadata(m@));
    }
}

fn encode_opt_metadata(out: &mut Vec<u8>, o: &Option<FileMetadata>)
    ensures
        final(out)@ == old(out)@ + enc_opt_metadata(opt_metadata_view(*o)),
{
    match o {
        None => encode_bool(out, false),
        Some(m) => {
            encode_bool(out, true);
            encode_metadata(out, m);
            proof {
                assert(final(out)@ =~= old(out)@ + enc_opt_metadata(opt_metadata_view(*o)));
            }
        },
    }
}

fn encode_direntry(out: &mut Vec<u8>, e: &DirEntry)
    ensures
        final(out)@ == old(out)@ + enc_direntry(e@),
{
    encode_str(out, e.name.as_str());
    encode_metadata(out, &e.metadata);
    proof {
        assert(final(out)@ =~= old(out)@ + enc_direntry(e@));
    }
}

fn encode_entries(out: &mut Vec<u8>, v: &Vec<DirEntry>)
    ensures
        final(out)@ == old(out)@ + enc_entries(entries_view(*v)),
{
    encode_u64(out, v.len() as u64);
    let ghost mid = out@;
    let mut k: usize = 0;
    while k < v.len()
        invariant
            k <= v@.len(),
            out@ == mid + enc_entry_items(entries_view(*v).take(k as int)),
        decreases v@.len() - k,
    {
        encode_direntry(out, &v[k]);
        proof {
            lemma_enc_entry_items_push(entries_view(*v).take(k as int), v@[k as int]@);
            assert(entries_view(*v).take(k as int).push(v@[k as int]@) =~= entries_view(
                *v,
            ).take(k + 1 as int));
        }
        k = k + 1;
    }
    proof {
        assert(entries_view(*v).take(v@.len() as int) =~= entries_view(*v));
        assert(entries_view(*v).len() == v@.len());
        assert(final(out)@ =~= old(out)@ + enc_entries(entries_view(*v)));
    }
}

fn encode_opt_entries(out: &mut Vec<u8>, o: &Option<Vec<DirEntry>>)
    ensures
        final(out)@ == old(out)@ + enc_opt_entries(opt_entries_view(*o)),
{
    match o {
        None => encode_bool(out, false),
        Some(v) => {
            encode_bool(out, true);
            encode_entries(out, v);
            proof {
                assert(final(out)@ =~= old(out)@ + enc_opt_entries(opt_entries_view(*o)));
            }
        },
    }
}

fn encode_relay_info(out: &mut Vec<u8>, r: &RelayInfo)
    ensures
        final(out)@ == old(out)@ + enc_relay_info(r@),
{
    encode_str(out, r.relay_id.as_str());
    encode_strings(out, &r.capabilities);
    encode_u64(out, r.max_message_size);
    encode_u64(out, r.heartbeat_interval);
    proof {
        assert(final(out)@ =~= old(out)@ + enc_relay_info(r@));
    }
}

fn encode_opt_relay_info(out: &mut Vec<u8>, o: &Option<RelayInfo>)
    ensures
        final(out)@ == old(out)@ + enc_opt_relay_info(opt_relay_info_view(*o)),
{
    match o {
        None => encode_bool(out, false),
        Some(r) => {
            encode_bool(out, true);
            encode_relay_info(out, r);
            proof {
                assert(final(out)@ =~= old(out)@ + enc_opt_relay_info(opt_relay_info_view(*o)));
            }
        },
    }
}

fn encode_pairs(out: &mut Vec<u8>, v: &Vec<(String, String)>)
    ensures
        final(out)@ == old(out)@ + enc_pairs(pairs_view(*v)),
{
    encode_u64(out, v.len() as u64);
    let ghost mid = out@;
    let mut k: usize = 0;
    while k < v.len()
        invariant
            k <= v@.len(),
            out@ == mid + enc_pair_items(pairs_view(*v).take(k as int)),
        decreases v@.len() - k,
    {
        encode_str(out, v[k].0.as_str());
        encode_str(out, v[k].1.as_str());
        proof {
            lemma_enc_pair_items_push(
                pairs_view(*v).take(k as int),
                (v@[k as int].0@, v@[k as int].1@),
            );
            assert(pairs_view(*v).take(k as int).push((v@[k as int].0@, v@[k as int].1@))
                =~= pairs_view(*v).take(k + 1 as int));
            assert(out@ =~= mid + enc_pair_items(pairs_view(*v).take(k + 1 as int)));
        }
        k = k + 1;
    }
    proof {
        assert(pairs_view(*v).take(v@.len() as int) =~= pairs_view(*v));
        assert(pairs_view(*v).len() == v@.len());
        assert(final(out)@ =~= old(out)@ + enc_pairs(pairs_view(*v)));
    }
}

#[verifier::rlimit(100)]
fn encode_message_0(m: &Message) -> (r: Option<Vec<u8>>)
    ensures
        r is Some <==> 0 <= msg_tag(m@) < 6,
        r is Some ==> r.unwrap()@ == enc_msg(m@),
{
    let mut out: Vec<u8> = Vec::new();
    match m {
                Message::AuthRequest { node_id, node_type, public_key, capabilities } => {
            encode_u8(&mut out, 0);
            encode_str(&mut out, node_id.as_str());
            encode_node_type(&mut out, *node_type);
            encode_bytes(&mut out, public_key);
            encode_strings(&mut out, capabilities);
            proof {
                assert(out@ =~= enc_msg(m@));
            }
        },
        Message::AuthResponse { success, session_token, relay_info, error } => {
            encode_u8(&mut out, 1);
            encode_bool(&mut out, *success);
            encode_opt_str(&mut out, session_token);
            encode_opt_relay_info(&mut out, relay_info);
            encode_opt_str(&mut out, error);
            proof {
                assert(out@ =~= enc_msg(m@));
            }
        },
        Message::EstablishChannel { target_node, encrypted_key_exchange } => {
            encode_u8(&mut out, 2);
            encode_str(&mut out, target_node.as_str());
            encode_bytes(&mut out, encrypted_key_exchange);
            proof {
                assert(out@ =~= enc_msg(m@));
            }
        },
        Message::ChannelEstablished { success, encrypted_response, error } => {
            encode_u8(&mut out, 3);
            encode_bool(&mut out, *success);
            encode_opt_bytes(&mut out, encrypted_response);
            encode_opt_str(&mut out, error);
            proof {
                assert(out@ =~= enc_msg(m@));
            }
        },
        Message::ReadFile { request_id, path, offset, length } => {
            encode_u8(&mut out, 4);
            encode_u128(&mut out, *request_id);
            encode_str(&mut out, path.as_str());
            encode_u64(&mut out, *offset);
            encode_u32(&mut out, *length);
            proof {
                assert(out@ =~= enc_msg(m@));
            }
        },
        Message::ReadFileResponse { request_id, success, data, bytes_read, error } => {
            encode_u8(&mut out, 5);
            encode_u128(&mut out, *request_id);
            encode_bool(&mut out, *success);
            encode_opt_bytes(&mut out, data);
            encode_u64(&mut out, *bytes_read);
            encode_opt_str(&mut out, error);
            proof {
                assert(out@ =~= enc_msg(m@));
            }
        },
        _ => {
            return None;
        },
    }
    Some(out)
}

#[verifier::rlimit(100)]
fn encode_message_1(m: &Message) -> (r: Option<Vec<u8>>)
    ensures
        r is Some <==> 6 <= msg_tag(m@) < 12,
        r is Some ==> r.unwrap()@ == enc_msg(m@),
{
    let mut out: Vec<u8> = Vec::new();
    match m {
        Message::WriteFile { request_id, path, offset, data, sync } => {
            encode_u8(&mut out, 6);
            encode_u128(&mut out, *request_id);
            encode_str(&mut out, path.as_str());
            encode_u64(&mut out, *offset);
            encode_bytes(&mut out, data);
            encode_bool(&mut out, *sync);
            proof {
                assert(out@ =~= enc_msg(m@));
            }
        },
        Message::WriteFileResponse { request_id, success, bytes_written, error } => {
            encode_u8(&mut out, 7);
            encode_u128(&mut out, *request_id);
            encode_bool(&mut out, *success);
            encode_u64(&mut out, *bytes_written);
            encode_opt_str(&mut out, error);
            proof {
                assert(out@ =~= enc_msg(m@));
            }
        },
        Message::CreateFile { request_id, path, mode, exclusive } => {
            encode_u8(&mut out, 8);
            encode_u128(&mut out, *request_id);
            encode_str(&mut out, path.as_str());
            encode_u32(&mut out, *mode);
            encode_bool(&mut out, *exclusive);
            proof {
                assert(out@ =~= enc_msg(m@));
            }
        },
        Message::CreateFileResponse { request_id, success, metadata, error } => {
            encode_u8(&mut out, 9);
            encode_u128(&mut out, *request_id);
            encode_bool(&mut out, *success);
            encode_opt_metadata(&mut out, metadata);
            encode_opt_str(&mut out, error);
            proof {
                assert(out@ =~= enc_msg(m@));
            }
        },
        Message::DeleteFile { request_id, path } => {
            encode_u8(&mut out, 10);
            encode_u128(&mut out, *request_id);
            encode_str(&mut out, path.as_str());
            proof {
                assert(out@ =~= enc_msg(m@));
            }
        },
        Message::DeleteFileResponse { request_id, success, error } => {
            encode_u8(&mut out, 11);
            encode_u128(&mut out, *request_id);
            encode_bool(&mut out, *success);
            encode_opt_str(&mut out, error);
            proof {
                assert(out@ =~= enc_msg(m@));
            }
        },
        _ => {
            return None;
        },
    }
    Some(out)
}

#[verifier::rlimit(100)]
fn encode_message_2(m: &Message) -> (r: Option<Vec<u8>>)
    ensures
        r is Some <==> 12 <= msg_tag(m@) < 18,
        r is Some ==> r.unwrap()@ == enc_msg(m@),
{
    let mut out: Vec<u8> = Vec::new();
    match m {
                Message::TruncateFile { request_id, path, size } => {
            encode_u8(&mut out, 12);
            encode_u128(&mut out, *request_id);
            encode_str(&mut out, path.as_str());
            encode_u64(&mut out, *size);
            proof {
                assert(out@ =~= enc_msg(m@));
            }
        },
        Message::TruncateFileResponse { request_id, success, error } => {
            encode_u8(&mut out, 13);
            encode_u128(&mut out, *request_id);
            encode_bool(&mut out, *success);
            encode_opt_str(&mut out, error);
            proof {
                assert(out@ =~= enc_msg(m@));
            }
        },
        Message::ListDirectory { request_id, path } => {
            encode_u8(&mut out, 14);
            encode_u128(&mut out, *request_id);
            encode_str(&mut out, path.as_str());
            proof {
                assert(out@ =~= enc_msg(m@));
            }
        },
        Message::ListDirectoryResponse { request_id, success, entries, error } => {
            encode_u8(&mut out, 15);
            encode_u128(&mut out, *request_id);
            encode_bool(&mut out, *success);
            encode_opt_entries(&mut out, entries);
            encode_opt_str(&mut out, error);
            proof {
                assert(out@ =~= enc_msg(m@));
            }
        },
        Message::CreateDirectory { request_id, path, mode } => {
            encode_u8(&mut out, 16);
            encode_u128(&mut out, *request_id);
            encode_str(&mut out, path.as_str());
            encode_u32(&mut out, *mode);
            proof {
                assert(out@ =~= enc_msg(m@));
            }
        },
        Message::CreateDirectoryResponse { request_id, success, metadata, error } => {
            encode_u8(&mut out, 17);
            encode_u128(&mut out, *request_id);
            encode_bool(&mut out, *success);
            encode_opt_metadata(&mut out, metadata);
            encode_opt_str(&mut out, error);
            proof {
                assert(out@ =~= enc_msg(m@));
            }
        },
        _ => {
            return None;
        },
    }
    Some(out)
}

#[verifier::rlimit(100)]
fn encode_message_3(m: &Message) -> (r: Option<Vec<u8>>)
    ensures
        r is Some <==> 18 <= msg_tag(m@) < 24,
        r is Some ==> r.unwrap()@ == enc_msg(m@),
{
    let mut out: Vec<u8> = Vec::new();
    match m {
        Message::RemoveDirectory { request_id, path, recursive } => {
            encode_u8(&mut out, 18);
            encode_u128(&mut out, *request_id);
            encode_str(&mut out, path.as_str());
            encode_bool(&mut out, *recursive);
            proof {
                assert(out@ =~= enc_msg(m@));
            }
        },
        Message::RemoveDirectoryResponse { request_id, success, error } => {
            encode_u8(&mut out, 19);
            encode_u128(&mut out, *request_id);
            encode_bool(&mut out, *success);
            encode_opt_str(&mut out, error);
            proof {
                assert(out@ =~= enc_msg(m@));
            }
        },
        Message::GetMetadata { request_id, path, follow_symlinks } => {
            encode_u8(&mut out, 20);
            encode_u128(&mut out, *request_id);
            encode_str(&mut out, path.as_str());
            encode_bool(&mut out, *follow_symlinks);
            proof {
                assert(out@ =~= enc_msg(m@));
            }
        },
        Message::GetMetadataResponse { request_id, success, metadata, error } => {
            encode_u8(&mut out, 21);
            encode_u128(&mut out, *request_id);
            encode_bool(&mut out, *success);
            encode_opt_metadata(&mut out, metadata);
            encode_opt_str(&mut out, error);
            proof {
                assert(out@ =~= enc_msg(m@));
            }
        },
        Message::SetMetadata { request_id, path, metadata } => {
            encode_u8(&mut out, 22);
            encode_u128(&mut out, *request_id);
            encode_str(&mut out, path.as_str());
            encode_metadata(&mut out, metadata);
            proof {
                assert(out@ =~= enc_msg(m@));
            }
        },
        Message::SetMetadataResponse { request_id, success, error } => {
            encode_u8(&mut out, 23);
            encode_u128(&mut out, *request_id);
            encode_bool(&mut out, *success);
            encode_opt_str(&mut out, error);
            proof {
                assert(out@ =~= enc_msg(m@));
            }
        },
        _ => {
            return None;
        },
    }
    Some(out)
}

#[verifier::rlimit(100)]
fn encode_message_4(m: &Message) -> (r: Option<Vec<u8>>)
    ensures
        r is Some <==> 24 <= msg_tag(m@) < 30,
        r is Some ==> r.unwrap()@ == enc_msg(m@),
{
    let mut out: Vec<u8> = Vec::new();
    match m {
                Message::Rename { request_id, from_path, to_path } => {
            encode_u8(&mut out, 24);
            encode_u128(&mut out, *request_id);
            encode_str(&mut out, from_path.as_str());
            encode_str(&mut out, to_path.as_str());
            proof {
                assert(out@ =~= enc_msg(m@));
            }
        },
        Message::RenameResponse { request_id, success, error } => {
            encode_u8(&mut out, 25);
            encode_u128(&mut out, *request_id);
            encode_bool(&mut out, *success);
            encode_opt_str(&mut out, error);
            proof {
                assert(out@ =~= enc_msg(m@));
            }
        },
        Message::CreateSymlink { request_id, link_path, target_path } => {
            encode_u8(&mut out, 26);
            encode_u128(&mut out, *request_id);
            encode_str(&mut out, link_path.as_str());
            encode_str(&mut out, target_path.as_str());
            proof {
                assert(out@ =~= enc_msg(m@));
            }
        },
        Message::CreateSymlinkResponse { request_id, success, error } => {
            encode_u8(&mut out, 27);
            encode_u128(&mut out, *request_id);
            encode_bool(&mut out, *success);
            encode_opt_str(&mut out, error);
            proof {
                assert(out@ =~= enc_msg(m@));
            }
        },
        Message::PathExists { request_id, path } => {
            encode_u8(&mut out, 28);
            encode_u128(&mut out, *request_id);
            encode_str(&mut out, path.as_str());
            proof {
                assert(out@ =~= enc_msg(m@));
            }
        },
        Message::PathExistsResponse { request_id, exists, error } => {
            encode_u8(&mut out, 29);
            encode_u128(&mut out, *request_id);
            encode_bool(&mut out, *exists);
            encode_opt_str(&mut out, error);
            proof {
                assert(out@ =~= enc_msg(m@));
            }
        },
        _ => {
            return None;
        },
    }
    Some(out)
}

#[verifier::rlimit(100)]
fn encode_message_5(m: &Message) -> (r: Option<Vec<u8>>)
    ensures
        r is Some <==> 30 <= msg_tag(m@) < 36,
        r is Some ==> r.unwrap()@ == enc_msg(m@),
{
    let mut out: Vec<u8> = Vec::new();
    match m {
        Message::GetSpaceInfo { request_id, path } => {
            encode_u8(&mut out, 30);
            encode_u128(&mut out, *request_id);
            encode_str(&mut out, path.as_str());
            proof {
                assert(out@ =~= enc_msg(m@));
            }
        },
        Message::GetSpaceInfoResponse {
            request_id,
            success,
            total_space,
            available_space,
            used_space,
            error,
        } => {
            encode_u8(&mut out, 31);
            encode_u128(&mut out, *request_id);
            encode_bool(&mut out, *success);
            encode_opt_u64(&mut out, total_space);
            encode_opt_u64(&mut out, available_space);
            encode_opt_u64(&mut out, used_space);
            encode_opt_str(&mut out, error);
            proof {
                assert(out@ =~= enc_msg(m@));
            }
        },
        Message::Ping { timestamp } => {
            encode_u8(&mut out, 32);
            encode_u64(&mut out, *timestamp);
            proof {
                assert(out@ =~= enc_msg(m@));
            }
        },
        Message::Pong { timestamp, original_timestamp } => {
            encode_u8(&mut out, 33);
            encode_u64(&mut out, *timestamp);
            encode_u64(&mut out, *original_timestamp);
            proof {
                assert(out@ =~= enc_msg(m@));
            }
        },
        Message::ConnectionClose { reason } => {
            encode_u8(&mut out, 34);
            encode_str(&mut out, reason.as_str());
            proof {
                assert(out@ =~= enc_msg(m@));
            }
        },
        Message::Error { request_id, code, message, details } => {
            encode_u8(&mut out, 35);
            encode_opt_u128(&mut out, request_id);
            encode_error_code(&mut out, *code);
            encode_str(&mut out, message.as_str());
            encode_pairs(&mut out, details);
            proof {
                assert(out@ =~= enc_msg(m@));
            }
        },
        _ => {
            return None;
        },
    }
    Some(out)
}

pub fn encode_message(m: &Message) -> (r: Vec<u8>)
    ensures
        r@ == enc_msg(m@),
{
    if let Some(v) = encode_message_0(m) {
        return v;
    }
    if let Some(v) = encode_message_1(m) {
        return v;
    }
    if let Some(v) = encode_message_2(m) {
        return v;
    }
    if let Some(v) = encode_message_3(m) {
        return v;
    }
    if let Some(v) = encode_message_4(m) {
        return v;
    }
    if let Some(v) = encode_message_5(m) {
        return v;
    }
    proof {
        assert(false);
    }
    Vec::new()
}

} // verus!

verus! {

fn decode_opt_string(data: &Vec<u8>, i: usize) -> (r: Option<(Option<String>, usize)>)
    ensures
        r is Some <==> dec_opt_string(data@, i as int) is Some,
        r is Some ==> dec_opt_string(data@, i as int) == Some(
            (opt_string_view(r.unwrap().0), r.unwrap().1 as int),
        ) && i < r.unwrap().1 <= data@.len(),
{
    match decode_bool(data, i) {
        None => None,
        Some((false, j)) => Some((None, j)),
        Some((true, j)) => match decode_string(data, j) {
            None => None,
            Some((s, k)) => Some((Some(s), k)),
        },
    }
}

fn decode_opt_bytes(data: &Vec<u8>, i: usize) -> (r: Option<(Option<Vec<u8>>, usize)>)
    ensures
        r is Some <==> dec_opt_bytes(data@, i as int) is Some,
        r is Some ==> dec_opt_bytes(data@, i as int) == Some(
            (opt_bytes_view(r.unwrap().0), r.unwrap().1 as int),
        ) && i < r.unwrap().1 <= data@.len(),
{
    match decode_bool(data, i) {
        None => None,
        Some((false, j)) => Some((None, j)),
        Some((true, j)) => match decode_bytes(data, j) {
            None => None,
            Some((b, k)) => Some((Some(b), k)),
        },
    }
}

fn decode_opt_u64(data: &Vec<u8>, i: usize) -> (r: Option<(Option<u64>, usize)>)
    ensures
        r is Some <==> dec_opt_u64(data@, i as int) is Some,
        r is Some ==> dec_opt_u64(data@, i as int) == Some((r.unwrap().0, r.unwrap().1 as int))
            && i < r.unwrap().1 <= data@.len(),
{
    match decode_bool(data, i) {
        None => None,
        Some((false, j)) => Some((None, j)),
        Some((true, j)) => match decode_u64(data, j) {
            None => None,
            Some((v, k)) => Some((Some(v), k)),
        },
    }
}

fn decode_opt_u128(data: &Vec<u8>, i: usize) -> (r: Option<(Option<u128>, usize)>)
    ensures
        r is Some <==> dec_opt_u128(data@, i as int) is Some,
        r is Some ==> dec_opt_u128(data@, i as int) == Some((r.unwrap().0, r.unwrap().1 as int))
            && i < r.unwrap().1 <= data@.len(),
{
    match decode_bool(data, i) {
        None => None,
        Some((false, j)) => Some((None, j)),
        Some((true, j)) => match decode_u128(data, j) {
            None => None,
            Some((v, k)) => Some((Some(v), k)),
        },
    }
}

fn decode_node_type(data: &Vec<u8>, i: usize) -> (r: Option<(NodeType, usize)>)
    ensures
        r is Some <==> dec_node_type(data@, i as int) is Some,
        r is Some ==> dec_node_type(data@, i as int) == Some((r.unwrap().0, r.unwrap().1 as int))
            && i < r.unwrap().1 <= data@.len(),
{
    match decode_u8(data, i) {
        None => None,
        Some((0u8, j)) => Some((NodeType::Client, j)),
        Some((1u8, j)) => Some((NodeType::Agent, j)),
        Some((2u8, j)) => Some((NodeType::Relay, j)),
        Some(_) => None,
    }
}

fn decode_file_type(data: &Vec<u8>, i: usize) -> (r: Option<(FileType, usize)>)
    ensures
        r is Some <==> dec_file_type(data@, i as int) is Some,
        r is Some ==> dec_file_type(data@, i as int) == Some((r.unwrap().0, r.unwrap().1 as int))
            && i < r.unwrap().1 <= data@.len(),
{
    match decode_u8(data, i) {
        None => None,
        Some((0u8, j)) => Some((FileType::File, j)),
        Some((1u8, j)) => Some((FileType::Directory, j)),
        Some((2u8, j)) => Some((FileType::Symlink, j)),
        Some((3u8, j)) => Some((FileType::BlockDevice, j)),
        Some((4u8, j)) => Some((FileType::CharDevice, j)),
        Some((5u8, j)) => Some((FileType::Fifo, j)),
        Some((6u8, j)) => Some((FileType::Socket, j)),
        Some(_) => None,
    }
}

fn decode_error_code(data: &Vec<u8>, i: usize) -> (r: Option<(ErrorCode, usize)>)
    ensures
        r is Some <==> dec_error_code(data@, i as int) is Some,
        r is Some ==> dec_error_code(data@, i as int) == Some((r.unwrap().0, r.unwrap().1 as int))
            && i < r.unwrap().1 <= data@.len(),
{
    match decode_u8(data, i) {
        None => None,
        Some((0u8, j)) => Some((ErrorCode::AuthenticationFailed, j)),
        Some((1u8, j)) => Some((ErrorCode::InvalidCredentials, j)),
        Some((2u8, j)) => Some((ErrorCode::SessionExpired, j)),
        Some((3u8, j)) => Some((ErrorCode::AccessDenied, j)),
        Some((4u8, j)) => Some((ErrorCode::PathNotAllowed, j)),
        Some((5u8, j)) => Some((ErrorCode::InsufficientPermissions, j)),
        Some((6u8, j)) => Some((ErrorCode::FileNotFound, j)),
        Some((7u8, j)) => Some((ErrorCode::DirectoryNotFound, j)),
        Some((8u8, j)) => Some((ErrorCode::PathAlreadyExists, j)),
        Some((9u8, j)) => Some((ErrorCode::InvalidPath, j)),
        Some((10u8, j)) => Some((ErrorCode::DiskFull, j)),
        Some((11u8, j)) => Some((ErrorCode::ReadOnlyFileSystem, j)),
        Some((12u8, j)) => Some((ErrorCode::NetworkError, j)),
        Some((13u8, j)) => Some((ErrorCode::ConnectionTimeout, j)),
        Some((14u8, j)) => Some((ErrorCode::MessageTooLarge, j)),
        Some((15u8, j)) => Some((ErrorCode::InvalidMessage, j)),
        Some((16u8, j)) => Some((ErrorCode::InternalError, j)),
        Some((17u8, j)) => Some((ErrorCode::NotImplemented, j)),
        Some((18u8, j)) => Some((ErrorCode::ServiceUnavailable, j)),
        Some(_) => None,
    }
}

#[verifier::rlimit(100)]
fn decode_metadata(data: &Vec<u8>, i: usize) -> (r: Option<(FileMetadata, usize)>)
    ensures
        r is Some <==> dec_metadata(data@, i as int) is Some,
        r is Some ==> dec_metadata(data@, i as int) == Some((r.unwrap().0@, r.unwrap().1 as int))
            && i < r.unwrap().1 <= data@.len(),
{
    let r1 = decode_u64(data, i);
    if r1.is_none() {
        return None;
    }
    let (size, i1) = r1.unwrap();
    let r2 = decode_u64(data, i1);
    if r2.is_none() {
        return None;
    }
    let (modified, i2) = r2.unwrap();
    let r3 = decode_u64(data, i2);
    if r3.is_none() {
        return None;
    }
    let (created, i3) = r3.unwrap();
    let r4 = decode_u64(data, i3);
    if r4.is_none() {
        return None;
    }
    let (accessed, i4) = r4.unwrap();
    let r5 = decode_u32(data, i4);
    if r5.is_none() {
        return None;
    }
    let (permissions, i5) = r5.unwrap();
    let r6 = decode_u32(data, i5);
    if r6.is_none() {
        return None;
    }
    let (uid, i6) = r6.unwrap();
    let r7 = decode_u32(data, i6);
    if r7.is_none() {
        return None;
    }
    let (gid, i7) = r7.unwrap();
    let r8 = decode_bool(data, i7);
    if r8.is_none() {
        return None;
    }
    let (is_dir, i8) = r8.unwrap();
    let r9 = decode_bool(data, i8);
    if r9.is_none() {
        return None;
    }
    let (is_file, i9) = r9.unwrap();
    let r10 = decode_bool(data, i9);
    if r10.is_none() {
        return None;
    }
    let (is_symlink, i10) = r10.unwrap();
    let r11 = decode_file_type(data, i10);
    if r11.is_none() {
        return None;
    }
    let (file_type, i11) = r11.unwrap();
    let r12 = decode_opt_string(data, i11);
    if r12.is_none() {
        return None;
    }
    let (symlink_target, i12) = r12.unwrap();
    Some(
        (
            FileMetadata {
                size,
                modified,
                created,
                accessed,
                permissions,
                uid,
                gid,
                is_dir,
                is_file,
                is_symlink,
                file_type,
                symlink_target,
            },
            i12,
        ),
    )
}

fn decode_opt_metadata(data: &Vec<u8>, i: usize) -> (r: Option<(Option<FileMetadata>, usize)>)
    ensures
        r is Some <==> dec_opt_metadata(data@, i as int) is Some,
        r is Some ==> dec_opt_metadata(data@, i as int) == Some(
            (opt_metadata_view(r.unwrap().0), r.unwrap().1 as int),
        ) && i < r.unwrap().1 <= data@.len(),
{
    match decode_bool(data, i) {
        None => None,
        Some((false, j)) => Some((None, j)),
        Some((true, j)) => match decode_metadata(data, j) {
            None => None,
            Some((m, k)) => Some((Some(m), k)),
        },
    }
}

fn decode_direntry(data: &Vec<u8>, i: usize) -> (r: Option<(DirEntry, usize)>)
    ensures
        r is Some <==> dec_direntry(data@, i as int) is Some,
        r is Some ==> dec_direntry(data@, i as int) == Some((r.unwrap().0@, r.unwrap().1 as int))
            && i < r.unwrap().1 <= data@.len(),
{
    match decode_string(data, i) {
        None => None,
        Some((name, j)) => match decode_metadata(data, j) {
            None => None,
            Some((metadata, k)) => Some((DirEntry { name, metadata }, k)),
        },
    }
}

fn decode_strings(data: &Vec<u8>, i: usize) -> (r: Option<(Vec<String>, usize)>)
    ensures
        r is Some <==> dec_strings(data@, i as int) is Some,
        r is Some ==> dec_strings(data@, i as int) == Some(
            (strings_view(r.unwrap().0), r.unwrap().1 as int),
        ) && i < r.unwrap().1 <= data@.len(),
{
    match decode_u64(data, i) {
        None => None,
        Some((n, j)) => {
            let mut acc: Vec<String> = Vec::new();
            let mut k: u64 = 0;
            let mut pos: usize = j;
            let mut failed = false;
            while k < n
                invariant
                    k <= n,
                    j <= pos <= data@.len(),
                    !failed ==> strings_view(acc).len() == k,
                    !failed ==> dec_string_items(data@, j as int, n as int) == (match dec_string_items(
                        data@,
                        pos as int,
                        n - k,
                    ) {
                        None => None::<(Seq<Seq<char>>, int)>,
                        Some((rest, e)) => Some((strings_view(acc) + rest, e)),
                    }),
                    failed ==> dec_string_items(data@, j as int, n as int) is None,
                decreases n - k,
            {
                match decode_string(data, pos) {
                    None => {
                        failed = true;
                        k = n;
                    },
                    Some((s, p2)) => {
                        let ghost prev = strings_view(acc);
                        proof {
                            let rest = dec_string_items(data@, p2 as int, n - k - 1);
                            if rest is Some {
                                let (cs, e) = rest.unwrap();
                                assert(prev + (seq![s@] + cs) =~= prev.push(s@) + cs);
                            }
                        }
                        acc.push(s);
                        proof {
                            assert(strings_view(acc) =~= prev.push(s@));
                        }
                        pos = p2;
                        k = k + 1;
                    },
                }
            }
            if failed {
                None
            } else {
                proof {
                    assert(dec_string_items(data@, pos as int, 0) == Some(
                        (Seq::<Seq<char>>::empty(), pos as int),
                    ));
                    assert(strings_view(acc) + Seq::<Seq<char>>::empty() =~= strings_view(acc));
                }
                Some((acc, pos))
            }
        },
    }
}

fn decode_entries(data: &Vec<u8>, i: usize) -> (r: Option<(Vec<DirEntry>, usize)>)
    ensures
        r is Some <==> dec_entries(data@, i as int) is Some,
        r is Some ==> dec_entries(data@, i as int) == Some(
            (entries_view(r.unwrap().0), r.unwrap().1 as int),
        ) && i < r.unwrap().1 <= data@.len(),
{
    match decode_u64(data, i) {
        None => None,
        Some((n, j)) => {
            let mut acc: Vec<DirEntry> = Vec::new();
            let mut k: u64 = 0;
            let mut pos: usize = j;
            let mut failed = false;
            while k < n
                invariant
                    k <= n,
                    j <= pos <= data@.len(),
                    !failed ==> entries_view(acc).len() == k,
                    !failed ==> dec_entry_items(data@, j as int, n as int) == (match dec_entry_items(
                        data@,
                        pos as int,
                        n - k,
                    ) {
                        None => None::<(Seq<crate::protocol::DirEntryV>, int)>,
                        Some((rest, e)) => Some((entries_view(acc) + rest, e)),
                    }),
                    failed ==> dec_entry_items(data@, j as int, n as int) is None,
                decreases n - k,
            {
                match decode_direntry(data, pos) {
                    None => {
                        failed = true;
                        k = n;
                    },
                    Some((d, p2)) => {
                        let ghost prev = entries_view(acc);
                        proof {
                            let rest = dec_entry_items(data@, p2 as int, n - k - 1);
                            if rest is Some {
                                let (cs, e) = rest.unwrap();
                                assert(prev + (seq![d@] + cs) =~= prev.push(d@) + cs);
                            }
                        }
                        acc.push(d);
                        proof {
                            assert(entries_view(acc) =~= prev.push(d@));
                        }
                        pos = p2;
                        k = k + 1;
                    },
                }
            }
            if failed {
                None
            } else {
                proof {
                    assert(dec_entry_items(data@, pos as int, 0) == Some(
                        (Seq::<crate::protocol::DirEntryV>::empty(), pos as int),
                    ));
                    assert(entries_view(acc) + Seq::<crate::protocol::DirEntryV>::empty()
                        =~= entries_view(acc));
                }
                Some((acc, pos))
            }
        },
    }
}

fn decode_opt_entries(data: &Vec<u8>, i: usize) -> (r: Option<(Option<Vec<DirEntry>>, usize)>)
    ensures
        r is Some <==> dec_opt_entries(data@, i as int) is Some,
        r is Some ==> dec_opt_entries(data@, i as int) == Some(
            (opt_entries_view(r.unwrap().0), r.unwrap().1 as int),
        ) && i < r.unwrap().1 <= data@.len(),
{
    match decode_bool(data, i) {
        None => None,
        Some((false, j)) => Some((None, j)),
        Some((true, j)) => match decode_entries(data, j) {
            None => None,
            Some((v, k)) => Some((Some(v), k)),
        },
    }
}

fn decode_relay_info(data: &Vec<u8>, i: usize) -> (r: Option<(RelayInfo, usize)>)
    ensures
        r is Some <==> dec_relay_info(data@, i as int) is Some,
        r is Some ==> dec_relay_info(data@, i as int) == Some(
            (r.unwrap().0@, r.unwrap().1 as int),
        ) && i < r.unwrap().1 <= data@.len(),
{
    match decode_string(data, i) {
        None => None,
        Some((relay_id, i1)) => match decode_strings(data, i1) {
            None => None,
            Some((capabilities, i2)) => match decode_u64(data, i2) {
                None => None,
                Some((max_message_size, i3)) => match decode_u64(data, i3) {
                    None => None,
                    Some((heartbeat_interval, i4)) => Some(
                        (
                            RelayInfo { relay_id, capabilities, max_message_size, heartbeat_interval },
                            i4,
                        ),
                    ),
                },
            },
        },
    }
}

fn decode_opt_relay_info(data: &Vec<u8>, i: usize) -> (r: Option<(Option<RelayInfo>, usize)>)
    ensures
        r is Some <==> dec_opt_relay_info(data@, i as int) is Some,
        r is Some ==> dec_opt_relay_info(data@, i as int) == Some(
            (opt_relay_info_view(r.unwrap().0), r.unwrap().1 as int),
        ) && i < r.unwrap().1 <= data@.len(),
{
    match decode_bool(data, i) {
        None => None,
        Some((false, j)) => Some((None, j)),
        Some((true, j)) => match decode_relay_info(data, j) {
            None => None,
            Some((r2, k)) => Some((Some(r2), k)),
        },
    }
}

fn decode_pairs(data: &Vec<u8>, i: usize) -> (r: Option<(Vec<(String, String)>, usize)>)
    ensures
        r is Some <==> dec_pairs(data@, i as int) is Some,
        r is Some ==> dec_pairs(data@, i as int) == Some(
            (pairs_view(r.unwrap().0), r.unwrap().1 as int),
        ) && i < r.unwrap().1 <= data@.len(),
{
    match decode_u64(data, i) {
        None => None,
        Some((n, j)) => {
            let mut acc: Vec<(String, String)> = Vec::new();
            let mut k: u64 = 0;
            let mut pos: usize = j;
            let mut failed = false;
            while k < n
                invariant
                    k <= n,
                    j <= pos <= data@.len(),
                    !failed ==> pairs_view(acc).len() == k,
                    !failed ==> dec_pair_items(data@, j as int, n as int) == (match dec_pair_items(
                        data@,
                        pos as int,
                        n - k,
                    ) {
                        None => None::<(Seq<(Seq<char>, Seq<char>)>, int)>,
                        Some((rest, e)) => Some((pairs_view(acc) + rest, e)),
                    }),
                    failed ==> dec_pair_items(data@, j as int, n as int) is None,
                decreases n - k,
            {
                let ra = decode_string(data, pos);
                if ra.is_none() {
                    proof {
                        assert(dec_pair(data@, pos as int) is None);
                    }
                    failed = true;
                    k = n;
                } else {
                    let (a, pa) = ra.unwrap();
                    let rb = decode_string(data, pa);
                    if rb.is_none() {
                        proof {
                            assert(dec_pair(data@, pos as int) is None);
                        }
                        failed = true;
                        k = n;
                    } else {
                        let (b, p2) = rb.unwrap();
                        let ghost prev = pairs_view(acc);
                        proof {
                            assert(dec_pair(data@, pos as int) == Some(((a@, b@), p2 as int)));
                            let rest = dec_pair_items(data@, p2 as int, n - k - 1);
                            if rest is Some {
                                let (cs, e) = rest.unwrap();
                                assert(prev + (seq![(a@, b@)] + cs) =~= prev.push((a@, b@)) + cs);
                            }
                        }
                        acc.push((a, b));
                        proof {
                            assert(pairs_view(acc) =~= prev.push((a@, b@)));
                        }
                        pos = p2;
                        k = k + 1;
                    }
                }
            }
            if failed {
                None
            } else {
                proof {
                    assert(dec_pair_items(data@, pos as int, 0) == Some(
                        (Seq::<(Seq<char>, Seq<char>)>::empty(), pos as int),
                    ));
                    assert(pairs_view(acc) + Seq::<(Seq<char>, Seq<char>)>::empty() =~= pairs_view(
                        acc,
                    ));
                }
                Some((acc, pos))
            }
        },
    }
}

#[verifier::rlimit(100)]
fn decode_payload_0(buf: &Vec<u8>, i: usize, tag: u8) -> (r: Option<(Message, usize)>)
    requires
        0 <= tag < 6,
    ensures
        r is Some <==> dec_msg_payload(buf@, i as int, tag) is Some,
        r is Some ==> dec_msg_payload(buf@, i as int, tag) == Some(
            (r.unwrap().0@, r.unwrap().1 as int),
        ) && r.unwrap().1 <= buf@.len(),
{
    if tag == 0 {
        match decode_string(buf, i) {
            None => None,
            Some((node_id, p0)) => {
                match decode_node_type(buf, p0) {
                    None => None,
                    Some((node_type, p1)) => {
                        match decode_bytes(buf, p1) {
                            None => None,
                            Some((public_key, p2)) => {
                                match decode_strings(buf, p2) {
                                    None => None,
                                    Some((capabilities, p3)) => {
                                        Some((Message::AuthRequest { node_id, node_type, public_key, capabilities }, p3))
                                    },
                                }
                            },
                        }
                    },
                }
            },
        }
    } else     if tag == 1 {
        match decode_bool(buf, i) {
            None => None,
            Some((success, p0)) => {
                match decode_opt_string(buf, p0) {
                    None => None,
                    Some((session_token, p1)) => {
                        match decode_opt_relay_info(buf, p1) {
                            None => None,
                            Some((relay_info, p2)) => {
                                match decode_opt_string(buf, p2) {
                                    None => None,
                                    Some((error, p3)) => {
                                        Some((Message::AuthResponse { success, session_token, relay_info, error }, p3))
                                    },
                                }
                            },
                        }
                    },
                }
            },
        }
    } else     if tag == 2 {
        match decode_string(buf, i) {
            None => None,
            Some((target_node, p0)) => {
                match decode_bytes(buf, p0) {
                    None => None,
                    Some((encrypted_key_exchange, p1)) => {
                        Some((Message::EstablishChannel { target_node, encrypted_key_exchange }, p1))
                    },
                }
            },
        }
    } else     if tag == 3 {
        match decode_bool(buf, i) {
            None => None,
            Some((success, p0)) => {
                match decode_opt_bytes(buf, p0) {
                    None => None,
                    Some((encrypted_response, p1)) => {
                        match decode_opt_string(buf, p1) {
                            None => None,
                            Some((error, p2)) => {
                                Some((Message::ChannelEstablished { success, encrypted_response, error }, p2))
                            },
                        }
                    },
                }
            },
        }
    } else     if tag == 4 {
        match decode_u128(buf, i) {
            None => None,
            Some((request_id, p0)) => {
                match decode_string(buf, p0) {
                    None => None,
                    Some((path, p1)) => {
                        match decode_u64(buf, p1) {
                            None => None,
                            Some((offset, p2)) => {
                                match decode_u32(buf, p2) {
                                    None => None,
                                    Some((length, p3)) => {
                                        Some((Message::ReadFile { request_id, path, offset, length }, p3))
                                    },
                                }
                            },
                        }
                    },
                }
            },
        }
    } else     if tag == 5 {
        match decode_u128(buf, i) {
            None => None,
            Some((request_id, p0)) => {
                match decode_bool(buf, p0) {
                    None => None,
                    Some((success, p1)) => {
                        match decode_opt_bytes(buf, p1) {
                            None => None,
                            Some((data, p2)) => {
                                match decode_u64(buf, p2) {
                                    None => None,
                                    Some((bytes_read, p3)) => {
                                        match decode_opt_string(buf, p3) {
                                            None => None,
                                            Some((error, p4)) => {
                                                Some((Message::ReadFileResponse { request_id, success, data, bytes_read, error }, p4))
                                            },
                                        }
                                    },
                                }
                            },
                        }
                    },
                }
            },
        }
    } else {
        None
    }
}

#[verifier::rlimit(100)]
fn decode_payload_1(buf: &Vec<u8>, i: usize, tag: u8) -> (r: Option<(Message, usize)>)
    requires
        6 <= tag < 12,
    ensures
        r is Some <==> dec_msg_payload(buf@, i as int, tag) is Some,
        r is Some ==> dec_msg_payload(buf@, i as int, tag) == Some(
            (r.unwrap().0@, r.unwrap().1 as int),
        ) && r.unwrap().1 <= buf@.len(),
{
    if tag == 6 {
        match decode_u128(buf, i) {
            None => None,
            Some((request_id, p0)) => {
                match decode_string(buf, p0) {
                    None => None,
                    Some((path, p1)) => {
                        match decode_u64(buf, p1) {
                            None => None,
                            Some((offset, p2)) => {
                                match decode_bytes(buf, p2) {
                                    None => None,
                                    Some((data, p3)) => {
                                        match decode_bool(buf, p3) {
                                            None => None,
                                            Some((sync, p4)) => {
                                                Some((Message::WriteFile { request_id, path, offset, data, sync }, p4))
                                            },
                                        }
                                    },
                                }
                            },
                        }
                    },
                }
            },
        }
    } else     if tag == 7 {
        match decode_u128(buf, i) {
            None => None,
            Some((request_id, p0)) => {
                match decode_bool(buf, p0) {
                    None => None,
                    Some((success, p1)) => {
                        match decode_u64(buf, p1) {
                            None => None,
                            Some((bytes_written, p2)) => {
                                match decode_opt_string(buf, p2) {
                                    None => None,
                                    Some((error, p3)) => {
                                        Some((Message::WriteFileResponse { request_id, success, bytes_written, error }, p3))
                                    },
                                }
                            },
                        }
                    },
                }
            },
        }
    } else     if tag == 8 {
        match decode_u128(buf, i) {
            None => None,
            Some((request_id, p0)) => {
                match decode_string(buf, p0) {
                    None => None,
                    Some((path, p1)) => {
                        match decode_u32(buf, p1) {
                            None => None,
                            Some((mode, p2)) => {
                                match decode_bool(buf, p2) {
                                    None => None,
                                    Some((exclusive, p3)) => {
                                        Some((Message::CreateFile { request_id, path, mode, exclusive }, p3))
                                    },
                                }
                            },
                        }
                    },
                }
            },
        }
    } else     if tag == 9 {
        match decode_u128(buf, i) {
            None => None,
            Some((request_id, p0)) => {
                match decode_bool(buf, p0) {
                    None => None,
                    Some((success, p1)) => {
                        match decode_opt_metadata(buf, p1) {
                            None => None,
                            Some((metadata, p2)) => {
                                match decode_opt_string(buf, p2) {
                                    None => None,
                                    Some((error, p3)) => {
                                        Some((Message::CreateFileResponse { request_id, success, metadata, error }, p3))
                                    },
                                }
                            },
                        }
                    },
                }
            },
        }
    } else     if tag == 10 {
        match decode_u128(buf, i) {
            None => None,
            Some((request_id, p0)) => {
                match decode_string(buf, p0) {
                    None => None,
                    Some((path, p1)) => {
                        Some((Message::DeleteFile { request_id, path }, p1))
                    },
                }
            },
        }
    } else     if tag == 11 {
        match decode_u128(buf, i) {
            None => None,
            Some((request_id, p0)) => {
                match decode_bool(buf, p0) {
                    None => None,
                    Some((success, p1)) => {
                        match decode_opt_string(buf, p1) {
                            None => None,
                            Some((error, p2)) => {
                                Some((Message::DeleteFileResponse { request_id, success, error }, p2))
                            },
                        }
                    },
                }
            },
        }
    } else {
        None
    }
}

#[verifier::rlimit(100)]
fn decode_payload_2(buf: &Vec<u8>, i: usize, tag: u8) -> (r: Option<(Message, usize)>)
    requires
        12 <= tag < 18,
    ensures
        r is Some <==> dec_msg_payload(buf@, i as int, tag) is Some,
        r is Some ==> dec_msg_payload(buf@, i as int, tag) == Some(
            (r.unwrap().0@, r.unwrap().1 as int),
        ) && r.unwrap().1 <= buf@.len(),
{
    if tag == 12 {
        match decode_u128(buf, i) {
            None => None,
            Some((request_id, p0)) => {
                match decode_string(buf, p0) {
                    None => None,
                    Some((path, p1)) => {
                        match decode_u64(buf, p1) {
                            None => None,
                            Some((size, p2)) => {
                                Some((Message::TruncateFile { request_id, path, size }, p2))
                            },
                        }
                    },
                }
            },
        }
    } else     if tag == 13 {
        match decode_u128(buf, i) {
            None => None,
            Some((request_id, p0)) => {
                match decode_bool(buf, p0) {
                    None => None,
                    Some((success, p1)) => {
                        match decode_opt_string(buf, p1) {
                            None => None,
                            Some((error, p2)) => {
                                Some((Message::TruncateFileResponse { request_id, success, error }, p2))
                            },
                        }
                    },
                }
            },
        }
    } else     if tag == 14 {
        match decode_u128(buf, i) {
            None => None,
            Some((request_id, p0)) => {
                match decode_string(buf, p0) {
                    None => None,
                    Some((path, p1)) => {
                        Some((Message::ListDirectory { request_id, path }, p1))
                    },
                }
            },
        }
    } else     if tag == 15 {
        match decode_u128(buf, i) {
            None => None,
            Some((request_id, p0)) => {
                match decode_bool(buf, p0) {
                    None => None,
                    Some((success, p1)) => {
                        match decode_opt_entries(buf, p1) {
                            None => None,
                            Some((entries, p2)) => {
                                match decode_opt_string(buf, p2) {
                                    None => None,
                                    Some((error, p3)) => {
                                        Some((Message::ListDirectoryResponse { request_id, success, entries, error }, p3))
                                    },
                                }
                            },
                        }
                    },
                }
            },
        }
    } else     if tag == 16 {
        match decode_u128(buf, i) {
            None => None,
            Some((request_id, p0)) => {
                match decode_string(buf, p0) {
                    None => None,
                    Some((path, p1)) => {
                        match decode_u32(buf, p1) {
                            None => None,
                            Some((mode, p2)) => {
                                Some((Message::CreateDirectory { request_id, path, mode }, p2))
                            },
                        }
                    },
                }
            },
        }
    } else     if tag == 17 {
        match decode_u128(buf, i) {
            None => None,
            Some((request_id, p0)) => {
                match decode_bool(buf, p0) {
                    None => None,
                    Some((success, p1)) => {
                        match decode_opt_metadata(buf, p1) {
                            None => None,
                            Some((metadata, p2)) => {
                                match decode_opt_string(buf, p2) {
                                    None => None,
                                    Some((error, p3)) => {
                                        Some((Message::CreateDirectoryResponse { request_id, success, metadata, error }, p3))
                                    },
                                }
                            },
                        }
                    },
                }
            },
        }
    } else {
        None
    }
}

#[verifier::rlimit(100)]
fn decode_payload_3(buf: &Vec<u8>, i: usize, tag: u8) -> (r: Option<(Message, usize)>)
    requires
        18 <= tag < 24,
    ensures
        r is Some <==> dec_msg_payload(buf@, i as int, tag) is Some,
        r is Some ==> dec_msg_payload(buf@, i as int, tag) == Some(
            (r.unwrap().0@, r.unwrap().1 as int),
        ) && r.unwrap().1 <= buf@.len(),
{
    if tag == 18 {
        match decode_u128(buf, i) {
            None => None,
            Some((request_id, p0)) => {
                match decode_string(buf, p0) {
                    None => None,
                    Some((path, p1)) => {
                        match decode_bool(buf, p1) {
                            None => None,
                            Some((recursive, p2)) => {
                                Some((Message::RemoveDirectory { request_id, path, recursive }, p2))
                            },
                        }
                    },
                }
            },
        }
    } else     if tag == 19 {
        match decode_u128(buf, i) {
            None => None,
            Some((request_id, p0)) => {
                match decode_bool(buf, p0) {
                    None => None,
                    Some((success, p1)) => {
                        match decode_opt_string(buf, p1) {
                            None => None,
                            Some((error, p2)) => {
                                Some((Message::RemoveDirectoryResponse { request_id, success, error }, p2))
                            },
                        }
                    },
                }
            },
        }
    } else     if tag == 20 {
        match decode_u128(buf, i) {
            None => None,
            Some((request_id, p0)) => {
                match decode_string(buf, p0) {
                    None => None,
                    Some((path, p1)) => {
                        match decode_bool(buf, p1) {
                            None => None,
                            Some((follow_symlinks, p2)) => {
                                Some((Message::GetMetadata { request_id, path, follow_symlinks }, p2))
                            },
                        }
                    },
                }
            },
        }
    } else     if tag == 21 {
        match decode_u128(buf, i) {
            None => None,
            Some((request_id, p0)) => {
                match decode_bool(buf, p0) {
                    None => None,
                    Some((success, p1)) => {
                        match decode_opt_metadata(buf, p1) {
                            None => None,
                            Some((metadata, p2)) => {
                                match decode_opt_string(buf, p2) {
                                    None => None,
                                    Some((error, p3)) => {
                                        Some((Message::GetMetadataResponse { request_id, success, metadata, error }, p3))
                                    },
                                }
                            },
                        }
                    },
                }
            },
        }
    } else     if tag == 22 {
        match decode_u128(buf, i) {
            None => None,
            Some((request_id, p0)) => {
                match decode_string(buf, p0) {
                    None => None,
                    Some((path, p1)) => {
                        match decode_metadata(buf, p1) {
                            None => None,
                            Some((metadata, p2)) => {
                                Some((Message::SetMetadata { request_id, path, metadata }, p2))
                            },
                        }
                    },
                }
            },
        }
    } else     if tag == 23 {
        match decode_u128(buf, i) {
            None => None,
            Some((request_id, p0)) => {
                match decode_bool(buf, p0) {
                    None => None,
                    Some((success, p1)) => {
                        match decode_opt_string(buf, p1) {
                            None => None,
                            Some((error, p2)) => {
                                Some((Message::SetMetadataResponse { request_id, success, error }, p2))
                            },
                        }
                    },
                }
            },
        }
    } else {
        None
    }
}

#[verifier::rlimit(100)]
fn decode_payload_4(buf: &Vec<u8>, i: usize, tag: u8) -> (r: Option<(Message, usize)>)
    requires
        24 <= tag < 30,
    ensures
        r is Some <==> dec_msg_payload(buf@, i as int, tag) is Some,
        r is Some ==> dec_msg_payload(buf@, i as int, tag) == Some(
            (r.unwrap().0@, r.unwrap().1 as int),
        ) && r.unwrap().1 <= buf@.len(),
{
    if tag == 24 {
        match decode_u128(buf, i) {
            None => None,
            Some((request_id, p0)) => {
                match decode_string(buf, p0) {
                    None => None,
                    Some((from_path, p1)) => {
                        match decode_string(buf, p1) {
                            None => None,
                            Some((to_path, p2)) => {
                                Some((Message::Rename { request_id, from_path, to_path }, p2))
                            },
                        }
                    },
                }
            },
        }
    } else     if tag == 25 {
        match decode_u128(buf, i) {
            None => None,
            Some((request_id, p0)) => {
                match decode_bool(buf, p0) {
                    None => None,
                    Some((success, p1)) => {
                        match decode_opt_string(buf, p1) {
                            None => None,
                            Some((error, p2)) => {
                                Some((Message::RenameResponse { request_id, success, error }, p2))
                            },
                        }
                    },
                }
            },
        }
    } else     if tag == 26 {
        match decode_u128(buf, i) {
            None => None,
            Some((request_id, p0)) => {
                match decode_string(buf, p0) {
                    None => None,
                    Some((link_path, p1)) => {
                        match decode_string(buf, p1) {
                            None => None,
                            Some((target_path, p2)) => {
                                Some((Message::CreateSymlink { request_id, link_path, target_path }, p2))
                            },
                        }
                    },
                }
            },
        }
    } else     if tag == 27 {
        match decode_u128(buf, i) {
            None => None,
            Some((request_id, p0)) => {
                match decode_bool(buf, p0) {
                    None => None,
                    Some((success, p1)) => {
                        match decode_opt_string(buf, p1) {
                            None => None,
                            Some((error, p2)) => {
                                Some((Message::CreateSymlinkResponse { request_id, success, error }, p2))
                            },
                        }
                    },
                }
            },
        }
    } else     if tag == 28 {
        match decode_u128(buf, i) {
            None => None,
            Some((request_id, p0)) => {
                match decode_string(buf, p0) {
                    None => None,
                    Some((path, p1)) => {
                        Some((Message::PathExists { request_id, path }, p1))
                    },
                }
            },
        }
    } else     if tag == 29 {
        match decode_u128(buf, i) {
            None => None,
            Some((request_id, p0)) => {
                match decode_bool(buf, p0) {
                    None => None,
                    Some((exists, p1)) => {
                        match decode_opt_string(buf, p1) {
                            None => None,
                            Some((error, p2)) => {
                                Some((Message::PathExistsResponse { request_id, exists, error }, p2))
                            },
                        }
                    },
                }
            },
        }
    } else {
        None
    }
}

#[verifier::rlimit(100)]
fn decode_payload_5(buf: &Vec<u8>, i: usize, tag: u8) -> (r: Option<(Message, usize)>)
    requires
        30 <= tag < 36,
    ensures
        r is Some <==> dec_msg_payload(buf@, i as int, tag) is Some,
        r is Some ==> dec_msg_payload(buf@, i as int, tag) == Some(
            (r.unwrap().0@, r.unwrap().1 as int),
        ) && r.unwrap().1 <= buf@.len(),
{
    if tag == 30 {
        match decode_u128(buf, i) {
            None => None,
            Some((request_id, p0)) => {
                match decode_string(buf, p0) {
                    None => None,
                    Some((path, p1)) => {
                        Some((Message::GetSpaceInfo { request_id, path }, p1))
                    },
                }
            },
        }
    } else     if tag == 31 {
        match decode_u128(buf, i) {
            None => None,
            Some((request_id, p0)) => {
                match decode_bool(buf, p0) {
                    None => None,
                    Some((success, p1)) => {
                        match decode_opt_u64(buf, p1) {
                            None => None,
                            Some((total_space, p2)) => {
                                match decode_opt_u64(buf, p2) {
                                    None => None,
                                    Some((available_space, p3)) => {
                                        match decode_opt_u64(buf, p3) {
                                            None => None,
                                            Some((used_space, p4)) => {
                                                match decode_opt_string(buf, p4) {
                                                    None => None,
                                                    Some((error, p5)) => {
                                                        Some((Message::GetSpaceInfoResponse { request_id, success, total_space, available_space, used_space, error }, p5))
                                                    },
                                                }
                                            },
                                        }
                                    },
                                }
                            },
                        }
                    },
                }
            },
        }
    } else     if tag == 32 {
        match decode_u64(buf, i) {
            None => None,
            Some((timestamp, p0)) => {
                Some((Message::Ping { timestamp }, p0))
            },
        }
    } else     if tag == 33 {
        match decode_u64(buf, i) {
            None => None,
            Some((timestamp, p0)) => {
                match decode_u64(buf, p0) {
                    None => None,
                    Some((original_timestamp, p1)) => {
                        Some((Message::Pong { timestamp, original_timestamp }, p1))
                    },
                }
            },
        }
    } else     if tag == 34 {
        match decode_string(buf, i) {
            None => None,
            Some((reason, p0)) => {
                Some((Message::ConnectionClose { reason }, p0))
            },
        }
    } else     if tag == 35 {
        match decode_opt_u128(buf, i) {
            None => None,
            Some((request_id, p0)) => {
                match decode_error_code(buf, p0) {
                    None => None,
                    Some((code, p1)) => {
                        match decode_string(buf, p1) {
                            None => None,
                            Some((message, p2)) => {
                                match decode_pairs(buf, p2) {
                                    None => None,
                                    Some((details, p3)) => {
                                        Some((Message::Error { request_id, code, message, details }, p3))
                                    },
                                }
                            },
                        }
                    },
                }
            },
        }
    } else {
        None
    }
}

/// Decode one message from the buffer starting at its first byte; the
/// whole buffer must be consumed.
pub fn decode_message(buf: &Vec<u8>) -> (r: Option<Message>)
    ensures
        r is Some ==> dec_msg(buf@) == Some(r.unwrap()@),
        r is None ==> dec_msg(buf@) is None,
{
    match decode_u8(buf, 0) {
        None => None,
        Some((tag, j)) => {
            let dr = if tag < 6 {
                decode_payload_0(buf, j, tag)
            } else if tag < 12 {
                decode_payload_1(buf, j, tag)
            } else if tag < 18 {
                decode_payload_2(buf, j, tag)
            } else if tag < 24 {
                decode_payload_3(buf, j, tag)
            } else if tag < 30 {
                decode_payload_4(buf, j, tag)
            } else if tag < 36 {
                decode_payload_5(buf, j, tag)
            } else {
                None
            };
            match dr {
                None => None,
                Some((m, e)) => if e == buf.len() {
                    Some(m)
                } else {
                    None
                },
            }
        },
    }
}

} // verus!
