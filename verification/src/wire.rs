//! Wire codec for composite values: optional fields, string lists,
//! file metadata, directory entries and relay information.

use vstd::prelude::*;
use crate::codec::{
    bytes_at, lemma_bytes_at_split, enc_u8, dec_u8, lemma_dec_enc_u8, enc_u32, dec_u32,
    lemma_dec_enc_u32, enc_u64, dec_u64, lemma_dec_enc_u64, enc_u128, dec_u128,
    lemma_dec_enc_u128, enc_bool, dec_bool, lemma_dec_enc_bool, enc_string, dec_string,
    wf_string, lemma_dec_enc_string, enc_bytes, dec_bytes, wf_bytes, lemma_dec_enc_bytes,
};
use crate::protocol::{FileType, NodeType, ErrorCode, FileMetadataV, DirEntryV, RelayInfoV};

verus! {

// ---------------------------------------------------------------------------
// optional fields
// ---------------------------------------------------------------------------
pub open spec fn enc_opt_string(o: Option<Seq<char>>) -> Seq<u8> {
    match o {
        None => enc_bool(false),
        Some(s) => enc_bool(true) + enc_string(s),
    }
}

pub open spec fn dec_opt_string(s: Seq<u8>, i: int) -> Option<(Option<Seq<char>>, int)> {
    match dec_bool(s, i) {
        None => None,
        Some((false, j)) => Some((None, j)),
        Some((true, j)) => match dec_string(s, j) {
            None => None,
            Some((cs, k)) => Some((Some(cs), k)),
        },
    }
}

pub open spec fn wf_opt_string(o: Option<Seq<char>>) -> bool {
    match o {
        None => true,
        Some(s) => wf_string(s),
    }
}

pub proof fn lemma_dec_enc_opt_string(s: Seq<u8>, i: int, o: Option<Seq<char>>)
    requires
        bytes_at(s, i, enc_opt_string(o)),
        wf_opt_string(o),
    ensures
        dec_opt_string(s, i) == Some((o, i + enc_opt_string(o).len())),
{
    match o {
        None => {
            lemma_dec_enc_bool(s, i, false);
        },
        Some(cs) => {
            lemma_bytes_at_split(s, i, enc_bool(true), enc_string(cs));
            lemma_dec_enc_bool(s, i, true);
            lemma_dec_enc_string(s, i + 1, cs);
        },
    }
}

pub open spec fn enc_opt_bytes(o: Option<Seq<u8>>) -> Seq<u8> {
    match o {
        None => enc_bool(false),
        Some(b) => enc_bool(true) + enc_bytes(b),
    }
}

pub open spec fn dec_opt_bytes(s: Seq<u8>, i: int) -> Option<(Option<Seq<u8>>, int)> {
    match dec_bool(s, i) {
        None => None,
        Some((false, j)) => Some((None, j)),
        Some((true, j)) => match dec_bytes(s, j) {
            None => None,
            Some((b, k)) => Some((Some(b), k)),
        },
    }
}

pub open spec fn wf_opt_bytes(o: Option<Seq<u8>>) -> bool {
    match o {
        None => true,
        Some(b) => wf_bytes(b),
    }
}

pub proof fn lemma_dec_enc_opt_bytes(s: Seq<u8>, i: int, o: Option<Seq<u8>>)
    requires
        bytes_at(s, i, enc_opt_bytes(o)),
        wf_opt_bytes(o),
    ensures
        dec_opt_bytes(s, i) == Some((o, i + enc_opt_bytes(o).len())),
{
    match o {
        None => {
            lemma_dec_enc_bool(s, i, false);
        },
        Some(b) => {
            lemma_bytes_at_split(s, i, enc_bool(true), enc_bytes(b));
            lemma_dec_enc_bool(s, i, true);
            lemma_dec_enc_bytes(s, i + 1, b);
        },
    }
}

pub open spec fn enc_opt_u64(o: Option<u64>) -> Seq<u8> {
    match o {
        None => enc_bool(false),
        Some(v) => enc_bool(true) + enc_u64(v),
    }
}

pub open spec fn dec_opt_u64(s: Seq<u8>, i: int) -> Option<(Option<u64>, int)> {
    match dec_bool(s, i) {
        None => None,
        Some((false, j)) => Some((None, j)),
        Some((true, j)) => match dec_u64(s, j) {
            None => None,
            Some((v, k)) => Some((Some(v), k)),
        },
    }
}

pub proof fn lemma_dec_enc_opt_u64(s: Seq<u8>, i: int, o: Option<u64>)
    requires
        bytes_at(s, i, enc_opt_u64(o)),
    ensures
        dec_opt_u64(s, i) == Some((o, i + enc_opt_u64(o).len())),
{
    match o {
        None => {
            lemma_dec_enc_bool(s, i, false);
        },
        Some(v) => {
            lemma_bytes_at_split(s, i, enc_bool(true), enc_u64(v));
            lemma_dec_enc_bool(s, i, true);
            lemma_dec_enc_u64(s, i + 1, v);
        },
    }
}

pub open spec fn enc_opt_u128(o: Option<u128>) -> Seq<u8> {
    match o {
        None => enc_bool(false),
        Some(v) => enc_bool(true) + enc_u128(v),
    }
}

pub open spec fn dec_opt_u128(s: Seq<u8>, i: int) -> Option<(Option<u128>, int)> {
    match dec_bool(s, i) {
        None => None,
        Some((false, j)) => Some((None, j)),
        Some((true, j)) => match dec_u128(s, j) {
            None => None,
            Some((v, k)) => Some((Some(v), k)),
        },
    }
}

pub proof fn lemma_dec_enc_opt_u128(s: Seq<u8>, i: int, o: Option<u128>)
    requires
        bytes_at(s, i, enc_opt_u128(o)),
    ensures
        dec_opt_u128(s, i) == Some((o, i + enc_opt_u128(o).len())),
{
    match o {
        None => {
            lemma_dec_enc_bool(s, i, false);
        },
        Some(v) => {
            lemma_bytes_at_split(s, i, enc_bool(true), enc_u128(v));
            lemma_dec_enc_bool(s, i, true);
            lemma_dec_enc_u128(s, i + 1, v);
        },
    }
}

// ---------------------------------------------------------------------------
// lists of strings
// ---------------------------------------------------------------------------
pub open spec fn enc_string_items(ss: Seq<Seq<char>>) -> Seq<u8>
    decreases ss.len(),
{
    if ss.len() == 0 {
        Seq::empty()
    } else {
        enc_string(ss[0]) + enc_string_items(ss.drop_first())
    }
}

pub open spec fn enc_strings(ss: Seq<Seq<char>>) -> Seq<u8> {
    enc_u64(ss.len() as u64) + enc_string_items(ss)
}

pub open spec fn dec_string_items(s: Seq<u8>, i: int, n: int) -> Option<(Seq<Seq<char>>, int)>
    decreases n,
{
    if n <= 0 {
        Some((Seq::empty(), i))
    } else {
        match dec_string(s, i) {
            None => None,
            Some((cs, j)) => match dec_string_items(s, j, n - 1) {
                None => None,
                Some((rest, k)) => Some((seq![cs] + rest, k)),
            },
        }
    }
}

pub open spec fn dec_strings(s: Seq<u8>, i: int) -> Option<(Seq<Seq<char>>, int)> {
    match dec_u64(s, i) {
        None => None,
        Some((n, j)) => dec_string_items(s, j, n as int),
    }
}

pub open spec fn wf_strings(ss: Seq<Seq<char>>) -> bool {
    &&& ss.len() <= u64::MAX
    &&& forall|k: int| 0 <= k < ss.len() ==> wf_string(#[trigger] ss[k])
}

pub proof fn lemma_enc_string_items_push(ss: Seq<Seq<char>>, cs: Seq<char>)
    ensures
        enc_string_items(ss.push(cs)) == enc_string_items(ss) + enc_string(cs),
    decreases ss.len(),
{
    if ss.len() == 0 {
        assert(ss.push(cs).drop_first() =~= Seq::<Seq<char>>::empty());
        assert(ss.push(cs)[0] == cs);
        assert(enc_string_items(ss.push(cs)) == enc_string(cs) + enc_string_items(
            Seq::<Seq<char>>::empty(),
        ));
        assert(enc_string(cs) + Seq::<u8>::empty() =~= enc_string(cs));
        assert(Seq::<u8>::empty() + enc_string(cs) =~= enc_string(cs));
    } else {
        assert(ss.push(cs).drop_first() =~= ss.drop_first().push(cs));
        lemma_enc_string_items_push(ss.drop_first(), cs);
        assert(enc_string_items(ss.push(cs)) =~= enc_string_items(ss) + enc_string(cs));
    }
}

pub proof fn lemma_dec_enc_string_items(s: Seq<u8>, i: int, ss: Seq<Seq<char>>)
    requires
        bytes_at(s, i, enc_string_items(ss)),
        forall|k: int| 0 <= k < ss.len() ==> wf_string(#[trigger] ss[k]),
    ensures
        dec_string_items(s, i, ss.len() as int) == Some((ss, i + enc_string_items(ss).len())),
    decreases ss.len(),
{
    if ss.len() == 0 {
        assert(ss =~= Seq::<Seq<char>>::empty());
    } else {
        lemma_bytes_at_split(s, i, enc_string(ss[0]), enc_string_items(ss.drop_first()));
        lemma_dec_enc_string(s, i, ss[0]);
        lemma_dec_enc_string_items(s, i + enc_string(ss[0]).len(), ss.drop_first());
        assert(seq![ss[0]] + ss.drop_first() =~= ss);
    }
}

pub proof fn lemma_dec_enc_strings(s: Seq<u8>, i: int, ss: Seq<Seq<char>>)
    requires
        bytes_at(s, i, enc_strings(ss)),
        wf_strings(ss),
    ensures
        dec_strings(s, i) == Some((ss, i + enc_strings(ss).len())),
{
    lemma_bytes_at_split(s, i, enc_u64(ss.len() as u64), enc_string_items(ss));
    lemma_dec_enc_u64(s, i, ss.len() as u64);
    lemma_dec_enc_string_items(s, i + 8, ss);
}

// ---------------------------------------------------------------------------
// enum tags
// ---------------------------------------------------------------------------
pub open spec fn enc_file_type(t: FileType) -> Seq<u8> {
    match t {
        FileType::File => enc_u8(0),
        FileType::Directory => enc_u8(1),
        FileType::Symlink => enc_u8(2),
        FileType::BlockDevice => enc_u8(3),
        FileType::CharDevice => enc_u8(4),
        FileType::Fifo => enc_u8(5),
        FileType::Socket => enc_u8(6),
    }
}

pub open spec fn dec_file_type(s: Seq<u8>, i: int) -> Option<(FileType, int)> {
    match dec_u8(s, i) {
        None => None,
        Some((0u8, j)) => Some((FileType::File, j)),
        Some((1u8, j)) => Some((FileType::Directory, j)),
        Some((2u8, j)) => Some((FileType::Symlink, j)),
        Some((3u8, j)) => Some((FileType::BlockDevice, j)),
        Some((4u8, j)) => Some((FileType::CharDevice, j)),
        Some((5u8, j)) => Some((FileType::Fifo, j)),
        Some((6u8, j)) => Some((FileType::Socket, j)),
        Some(_) => None,
    }
}

pub proof fn lemma_dec_enc_file_type(s: Seq<u8>, i: int, t: FileType)
    requires
        bytes_at(s, i, enc_file_type(t)),
    ensures
        dec_file_type(s, i) == Some((t, i + 1)),
{
    match t {
        FileType::File => lemma_dec_enc_u8(s, i, 0),
        FileType::Directory => lemma_dec_enc_u8(s, i, 1),
        FileType::Symlink => lemma_dec_enc_u8(s, i, 2),
        FileType::BlockDevice => lemma_dec_enc_u8(s, i, 3),
        FileType::CharDevice => lemma_dec_enc_u8(s, i, 4),
        FileType::Fifo => lemma_dec_enc_u8(s, i, 5),
        FileType::Socket => lemma_dec_enc_u8(s, i, 6),
    }
}

pub open spec fn enc_node_type(t: NodeType) -> Seq<u8> {
    match t {
        NodeType::Client => enc_u8(0),
        NodeType::Agent => enc_u8(1),
        NodeType::Relay => enc_u8(2),
    }
}

pub open spec fn dec_node_type(s: Seq<u8>, i: int) -> Option<(NodeType, int)> {
    match dec_u8(s, i) {
        None => None,
        Some((0u8, j)) => Some((NodeType::Client, j)),
        Some((1u8, j)) => Some((NodeType::Agent, j)),
        Some((2u8, j)) => Some((NodeType::Relay, j)),
        Some(_) => None,
    }
}

pub proof fn lemma_dec_enc_node_type(s: Seq<u8>, i: int, t: NodeType)
    requires
        bytes_at(s, i, enc_node_type(t)),
    ensures
        dec_node_type(s, i) == Some((t, i + 1)),
{
    match t {
        NodeType::Client => lemma_dec_enc_u8(s, i, 0),
        NodeType::Agent => lemma_dec_enc_u8(s, i, 1),
        NodeType::Relay => lemma_dec_enc_u8(s, i, 2),
    }
}

pub open spec fn error_code_tag(c: ErrorCode) -> u8 {
    match c {
        ErrorCode::AuthenticationFailed => 0,
        ErrorCode::InvalidCredentials => 1,
        ErrorCode::SessionExpired => 2,
        ErrorCode::AccessDenied => 3,
        ErrorCode::PathNotAllowed => 4,
        ErrorCode::InsufficientPermissions => 5,
        ErrorCode::FileNotFound => 6,
        ErrorCode::DirectoryNotFound => 7,
        ErrorCode::PathAlreadyExists => 8,
        ErrorCode::InvalidPath => 9,
        ErrorCode::DiskFull => 10,
        ErrorCode::ReadOnlyFileSystem => 11,
        ErrorCode::NetworkError => 12,
        ErrorCode::ConnectionTimeout => 13,
        ErrorCode::MessageTooLarge => 14,
        ErrorCode::InvalidMessage => 15,
        ErrorCode::InternalError => 16,
        ErrorCode::NotImplemented => 17,
        ErrorCode::ServiceUnavailable => 18,
    }
}

pub open spec fn enc_error_code(c: ErrorCode) -> Seq<u8> {
    enc_u8(error_code_tag(c))
}

pub open spec fn dec_error_code(s: Seq<u8>, i: int) -> Option<(ErrorCode, int)> {
    match dec_u8(s, i) {
        None => None,
        Some((0u8, j)) => Some((ErrorCode::AuthenticationFailed, j)),
        Some((1u8, j)) => Some((ErrorCode::InvalidCredentials, j)),
        Some((2u8, j)) => Some((ErrorCode::SessionExpired, j)),
        Some((3u8, j)) => Some((ErrorCode::AccessDenied, j)),
        Some((4u8, j)) => Some((ErrorCode::PathNotAllowed, j)),
        Some((5u8, j)) => Some((ErrorCode::InsufficientPermissions, j)),
        Some((6u8, j)) => Some((ErrorCode::FileNotFound, j)),
        Some((7u8, j)) => Some((ErrorCode::DirectoryNotFound, j)),
        Some((8u8, j)) => Some((ErrorCode::PathAlreadyExists, j)),
        Some((9u8, j)) => Some((ErrorCode::InvalidPath, j)),
        Some((10u8, j)) => Some((ErrorCode::DiskFull, j)),
        Some((11u8, j)) => Some((ErrorCode::ReadOnlyFileSystem, j)),
        Some((12u8, j)) => Some((ErrorCode::NetworkError, j)),
        Some((13u8, j)) => Some((ErrorCode::ConnectionTimeout, j)),
        Some((14u8, j)) => Some((ErrorCode::MessageTooLarge, j)),
        Some((15u8, j)) => Some((ErrorCode::InvalidMessage, j)),
        Some((16u8, j)) => Some((ErrorCode::InternalError, j)),
        Some((17u8, j)) => Some((ErrorCode::NotImplemented, j)),
        Some((18u8, j)) => Some((ErrorCode::ServiceUnavailable, j)),
        Some(_) => None,
    }
}

pub proof fn lemma_dec_enc_error_code(s: Seq<u8>, i: int, c: ErrorCode)
    requires
        bytes_at(s, i, enc_error_code(c)),
    ensures
        dec_error_code(s, i) == Some((c, i + 1)),
{
    lemma_dec_enc_u8(s, i, error_code_tag(c));
}

// ---------------------------------------------------------------------------
// file metadata
// ---------------------------------------------------------------------------
pub open spec fn enc_metadata(m: FileMetadataV) -> Seq<u8> {
    enc_u64(m.size) + (enc_u64(m.modified) + (enc_u64(m.created) + (enc_u64(m.accessed) + (
    enc_u32(m.permissions) + (enc_u32(m.uid) + (enc_u32(m.gid) + (enc_bool(m.is_dir) + (enc_bool(
        m.is_file,
    ) + (enc_bool(m.is_symlink) + (enc_file_type(m.file_type) + enc_opt_string(
        m.symlink_target,
    )))))))))))
}

pub open spec fn dec_metadata(s: Seq<u8>, i: int) -> Option<(FileMetadataV, int)> {
    match dec_u64(s, i) {
        None => None,
        Some((size, i1)) => match dec_u64(s, i1) {
            None => None,
            Some((modified, i2)) => match dec_u64(s, i2) {
                None => None,
                Some((created, i3)) => match dec_u64(s, i3) {
                    None => None,
                    Some((accessed, i4)) => match dec_u32(s, i4) {
                        None => None,
                        Some((permissions, i5)) => match dec_u32(s, i5) {
                            None => None,
                            Some((uid, i6)) => match dec_u32(s, i6) {
                                None => None,
                                Some((gid, i7)) => match dec_bool(s, i7) {
                                    None => None,
                                    Some((is_dir, i8)) => match dec_bool(s, i8) {
                                        None => None,
                                        Some((is_file, i9)) => match dec_bool(s, i9) {
                                            None => None,
                                            Some((is_symlink, i10)) => match dec_file_type(
                                                s,
                                                i10,
                                            ) {
                                                None => None,
                                                Some((file_type, i11)) => match dec_opt_string(
                                                    s,
                                                    i11,
                                                ) {
                                                    None => None,
                                                    Some((symlink_target, i12)) => Some(
                                                        (
                                                            FileMetadataV {
                                                                size,
                                                                modified,
                                                                created,
                                                                accessed,
                                                                permissions,
                                                                uid,
                                                                gid,
                                                                is_dir,
                                                                is_file,
                                                                is_symlink,
                                                                file_type,
                                                                symlink_target,
                                                            },
                                                            i12,
                                                        ),
                                                    ),
                                                },
                                            },
                                        },
                                    },
                                },
                            },
                        },
                    },
                },
            },
        },
    }
}

pub open spec fn wf_metadata(m: FileMetadataV) -> bool {
    wf_opt_string(m.symlink_target)
}

#[verifier::rlimit(100)]
pub proof fn lemma_dec_enc_metadata(s: Seq<u8>, i: int, m: FileMetadataV)
    requires
        bytes_at(s, i, enc_metadata(m)),
        wf_metadata(m),
    ensures
        dec_metadata(s, i) == Some((m, i + enc_metadata(m).len())),
{
    let e1 = enc_u64(m.size);
    let e2 = enc_u64(m.modified);
    let e3 = enc_u64(m.created);
    let e4 = enc_u64(m.accessed);
    let e5 = enc_u32(m.permissions);
    let e6 = enc_u32(m.uid);
    let e7 = enc_u32(m.gid);
    let e8 = enc_bool(m.is_dir);
    let e9 = enc_bool(m.is_file);
    let e10 = enc_bool(m.is_symlink);
    let e11 = enc_file_type(m.file_type);
    let e12 = enc_opt_string(m.symlink_target);
    lemma_bytes_at_split(s, i, e1, e2 + (e3 + (e4 + (e5 + (e6 + (e7 + (e8 + (e9 + (e10 + (e11
        + e12))))))))));
    let i1 = i + e1.len();
    lemma_bytes_at_split(s, i1, e2, e3 + (e4 + (e5 + (e6 + (e7 + (e8 + (e9 + (e10 + (e11
        + e12)))))))));
    let i2 = i1 + e2.len();
    lemma_bytes_at_split(s, i2, e3, e4 + (e5 + (e6 + (e7 + (e8 + (e9 + (e10 + (e11 + e12))))))));
    let i3 = i2 + e3.len();
    lemma_bytes_at_split(s, i3, e4, e5 + (e6 + (e7 + (e8 + (e9 + (e10 + (e11 + e12)))))));
    let i4 = i3 + e4.len();
    lemma_bytes_at_split(s, i4, e5, e6 + (e7 + (e8 + (e9 + (e10 + (e11 + e12))))));
    let i5 = i4 + e5.len();
    lemma_bytes_at_split(s, i5, e6, e7 + (e8 + (e9 + (e10 + (e11 + e12)))));
    let i6 = i5 + e6.len();
    lemma_bytes_at_split(s, i6, e7, e8 + (e9 + (e10 + (e11 + e12))));
    let i7 = i6 + e7.len();
    lemma_bytes_at_split(s, i7, e8, e9 + (e10 + (e11 + e12)));
    let i8 = i7 + e8.len();
    lemma_bytes_at_split(s, i8, e9, e10 + (e11 + e12));
    let i9 = i8 + e9.len();
    lemma_bytes_at_split(s, i9, e10, e11 + e12);
    let i10 = i9 + e10.len();
    lemma_bytes_at_split(s, i10, e11, e12);
    let i11 = i10 + e11.len();
    lemma_dec_enc_u64(s, i, m.size);
    lemma_dec_enc_u64(s, i1, m.modified);
    lemma_dec_enc_u64(s, i2, m.created);
    lemma_dec_enc_u64(s, i3, m.accessed);
    lemma_dec_enc_u32(s, i4, m.permissions);
    lemma_dec_enc_u32(s, i5, m.uid);
    lemma_dec_enc_u32(s, i6, m.gid);
    lemma_dec_enc_bool(s, i7, m.is_dir);
    lemma_dec_enc_bool(s, i8, m.is_file);
    lemma_dec_enc_bool(s, i9, m.is_symlink);
    lemma_dec_enc_file_type(s, i10, m.file_type);
    lemma_dec_enc_opt_string(s, i11, m.symlink_target);
}

pub open spec fn enc_opt_metadata(o: Option<FileMetadataV>) -> Seq<u8> {
    match o {
        None => enc_bool(false),
        Some(m) => enc_bool(true) + enc_metadata(m),
    }
}

pub open spec fn dec_opt_metadata(s: Seq<u8>, i: int) -> Option<(Option<FileMetadataV>, int)> {
    match dec_bool(s, i) {
        None => None,
        Some((false, j)) => Some((None, j)),
        Some((true, j)) => match dec_metadata(s, j) {
            None => None,
            Some((m, k)) => Some((Some(m), k)),
        },
    }
}

pub open spec fn wf_opt_metadata(o: Option<FileMetadataV>) -> bool {
    match o {
        None => true,
        Some(m) => wf_metadata(m),
    }
}

pub proof fn lemma_dec_enc_opt_metadata(s: Seq<u8>, i: int, o: Option<FileMetadataV>)
    requires
        bytes_at(s, i, enc_opt_metadata(o)),
        wf_opt_metadata(o),
    ensures
        dec_opt_metadata(s, i) == Some((o, i + enc_opt_metadata(o).len())),
{
    match o {
        None => {
            lemma_dec_enc_bool(s, i, false);
        },
        Some(m) => {
            lemma_bytes_at_split(s, i, enc_bool(true), enc_metadata(m));
            lemma_dec_enc_bool(s, i, true);
            lemma_dec_enc_metadata(s, i + 1, m);
        },
    }
}

// ---------------------------------------------------------------------------
// directory entries
// ---------------------------------------------------------------------------
pub open spec fn enc_direntry(e: DirEntryV) -> Seq<u8> {
    enc_string(e.name) + enc_metadata(e.metadata)
}

pub open spec fn dec_direntry(s: Seq<u8>, i: int) -> Option<(DirEntryV, int)> {
    match dec_string(s, i) {
        None => None,
        Some((name, j)) => match dec_metadata(s, j) {
            None => None,
            Some((metadata, k)) => Some((DirEntryV { name, metadata }, k)),
        },
    }
}

pub open spec fn wf_direntry(e: DirEntryV) -> bool {
    wf_string(e.name) && wf_metadata(e.metadata)
}

pub proof fn lemma_dec_enc_direntry(s: Seq<u8>, i: int, e: DirEntryV)
    requires
        bytes_at(s, i, enc_direntry(e)),
        wf_direntry(e),
    ensures
        dec_direntry(s, i) == Some((e, i + enc_direntry(e).len())),
{
    lemma_bytes_at_split(s, i, enc_string(e.name), enc_metadata(e.metadata));
    lemma_dec_enc_string(s, i, e.name);
    lemma_dec_enc_metadata(s, i + enc_string(e.name).len(), e.metadata);
}

pub open spec fn enc_entry_items(es: Seq<DirEntryV>) -> Seq<u8>
    decreases es.len(),
{
    if es.len() == 0 {
        Seq::empty()
    } else {
        enc_direntry(es[0]) + enc_entry_items(es.drop_first())
    }
}

pub open spec fn enc_entries(es: Seq<DirEntryV>) -> Seq<u8> {
    enc_u64(es.len() as u64) + enc_entry_items(es)
}

pub open spec fn dec_entry_items(s: Seq<u8>, i: int, n: int) -> Option<(Seq<DirEntryV>, int)>
    decreases n,
{
    if n <= 0 {
        Some((Seq::empty(), i))
    } else {
        match dec_direntry(s, i) {
            None => None,
            Some((e, j)) => match dec_entry_items(s, j, n - 1) {
                None => None,
                Some((rest, k)) => Some((seq![e] + rest, k)),
            },
        }
    }
}

pub open spec fn dec_entries(s: Seq<u8>, i: int) -> Option<(Seq<DirEntryV>, int)> {
    match dec_u64(s, i) {
        None => None,
        Some((n, j)) => dec_entry_items(s, j, n as int),
    }
}

pub open spec fn wf_entries(es: Seq<DirEntryV>) -> bool {
    &&& es.len() <= u64::MAX
    &&& forall|k: int| 0 <= k < es.len() ==> wf_direntry(#[trigger] es[k])
}

pub proof fn lemma_enc_entry_items_push(es: Seq<DirEntryV>, e: DirEntryV)
    ensures
        enc_entry_items(es.push(e)) == enc_entry_items(es) + enc_direntry(e),
    decreases es.len(),
{
    if es.len() == 0 {
        assert(es.push(e).drop_first() =~= Seq::<DirEntryV>::empty());
        assert(es.push(e)[0] == e);
        assert(enc_entry_items(es.push(e)) == enc_direntry(e) + enc_entry_items(
            Seq::<DirEntryV>::empty(),
        ));
        assert(enc_direntry(e) + Seq::<u8>::empty() =~= enc_direntry(e));
        assert(Seq::<u8>::empty() + enc_direntry(e) =~= enc_direntry(e));
    } else {
        assert(es.push(e).drop_first() =~= es.drop_first().push(e));
        lemma_enc_entry_items_push(es.drop_first(), e);
        assert(enc_entry_items(es.push(e)) =~= enc_entry_items(es) + enc_direntry(e));
    }
}

#[verifier::rlimit(50)]
pub proof fn lemma_dec_enc_entry_items(s: Seq<u8>, i: int, es: Seq<DirEntryV>)
    requires
        bytes_at(s, i, enc_entry_items(es)),
        forall|k: int| 0 <= k < es.len() ==> wf_direntry(#[trigger] es[k]),
    ensures
        dec_entry_items(s, i, es.len() as int) == Some((es, i + enc_entry_items(es).len())),
    decreases es.len(),
{
    if es.len() == 0 {
        assert(es =~= Seq::<DirEntryV>::empty());
    } else {
        lemma_bytes_at_split(s, i, enc_direntry(es[0]), enc_entry_items(es.drop_first()));
        lemma_dec_enc_direntry(s, i, es[0]);
        lemma_dec_enc_entry_items(s, i + enc_direntry(es[0]).len(), es.drop_first());
        assert(seq![es[0]] + es.drop_first() =~= es);
    }
}

pub proof fn lemma_dec_enc_entries(s: Seq<u8>, i: int, es: Seq<DirEntryV>)
    requires
        bytes_at(s, i, enc_entries(es)),
        wf_entries(es),
    ensures
        dec_entries(s, i) == Some((es, i + enc_entries(es).len())),
{
    lemma_bytes_at_split(s, i, enc_u64(es.len() as u64), enc_entry_items(es));
    lemma_dec_enc_u64(s, i, es.len() as u64);
    lemma_dec_enc_entry_items(s, i + 8, es);
}

pub open spec fn enc_opt_entries(o: Option<Seq<DirEntryV>>) -> Seq<u8> {
    match o {
        None => enc_bool(false),
        Some(es) => enc_bool(true) + enc_entries(es),
    }
}

pub open spec fn dec_opt_entries(s: Seq<u8>, i: int) -> Option<(Option<Seq<DirEntryV>>, int)> {
    match dec_bool(s, i) {
        None => None,
        Some((false, j)) => Some((None, j)),
        Some((true, j)) => match dec_entries(s, j) {
            None => None,
            Some((es, k)) => Some((Some(es), k)),
        },
    }
}

pub open spec fn wf_opt_entries(o: Option<Seq<DirEntryV>>) -> bool {
    match o {
        None => true,
        Some(es) => wf_entries(es),
    }
}

pub proof fn lemma_dec_enc_opt_entries(s: Seq<u8>, i: int, o: Option<Seq<DirEntryV>>)
    requires
        bytes_at(s, i, enc_opt_entries(o)),
        wf_opt_entries(o),
    ensures
        dec_opt_entries(s, i) == Some((o, i + enc_opt_entries(o).len())),
{
    match o {
        None => {
            lemma_dec_enc_bool(s, i, false);
        },
        Some(es) => {
            lemma_bytes_at_split(s, i, enc_bool(true), enc_entries(es));
            lemma_dec_enc_bool(s, i, true);
            lemma_dec_enc_entries(s, i + 1, es);
        },
    }
}

// ---------------------------------------------------------------------------
// relay info
// ---------------------------------------------------------------------------
pub open spec fn enc_relay_info(r: RelayInfoV) -> Seq<u8> {
    enc_string(r.relay_id) + (enc_strings(r.capabilities) + (enc_u64(r.max_message_size) + enc_u64(
        r.heartbeat_interval,
    )))
}

pub open spec fn dec_relay_info(s: Seq<u8>, i: int) -> Option<(RelayInfoV, int)> {
    match dec_string(s, i) {
        None => None,
        Some((relay_id, i1)) => match dec_strings(s, i1) {
            None => None,
            Some((capabilities, i2)) => match dec_u64(s, i2) {
                None => None,
                Some((max_message_size, i3)) => match dec_u64(s, i3) {
                    None => None,
                    Some((heartbeat_interval, i4)) => Some(
                        (
                            RelayInfoV {
                                relay_id,
                                capabilities,
                                max_message_size,
                                heartbeat_interval,
                            },
                            i4,
                        ),
                    ),
                },
            },
        },
    }
}

pub open spec fn wf_relay_info(r: RelayInfoV) -> bool {
    wf_string(r.relay_id) && wf_strings(r.capabilities)
}

pub proof fn lemma_dec_enc_relay_info(s: Seq<u8>, i: int, r: RelayInfoV)
    requires
        bytes_at(s, i, enc_relay_info(r)),
        wf_relay_info(r),
    ensures
        dec_relay_info(s, i) == Some((r, i + enc_relay_info(r).len())),
{
    let e1 = enc_string(r.relay_id);
    let e2 = enc_strings(r.capabilities);
    let e3 = enc_u64(r.max_message_size);
    let e4 = enc_u64(r.heartbeat_interval);
    lemma_bytes_at_split(s, i, e1, e2 + (e3 + e4));
    let i1 = i + e1.len();
    lemma_bytes_at_split(s, i1, e2, e3 + e4);
    let i2 = i1 + e2.len();
    lemma_bytes_at_split(s, i2, e3, e4);
    let i3 = i2 + e3.len();
    lemma_dec_enc_string(s, i, r.relay_id);
    lemma_dec_enc_strings(s, i1, r.capabilities);
    lemma_dec_enc_u64(s, i2, r.max_message_size);
    lemma_dec_enc_u64(s, i3, r.heartbeat_interval);
}

pub open spec fn enc_opt_relay_info(o: Option<RelayInfoV>) -> Seq<u8> {
    match o {
        None => enc_bool(false),
        Some(r) => enc_bool(true) + enc_relay_info(r),
    }
}

pub open spec fn dec_opt_relay_info(s: Seq<u8>, i: int) -> Option<(Option<RelayInfoV>, int)> {
    match dec_bool(s, i) {
        None => None,
        Some((false, j)) => Some((None, j)),
        Some((true, j)) => match dec_relay_info(s, j) {
            None => None,
            Some((r, k)) => Some((Some(r), k)),
        },
    }
}

pub open spec fn wf_opt_relay_info(o: Option<RelayInfoV>) -> bool {
    match o {
        None => true,
        Some(r) => wf_relay_info(r),
    }
}

pub proof fn lemma_dec_enc_opt_relay_info(s: Seq<u8>, i: int, o: Option<RelayInfoV>)
    requires
        bytes_at(s, i, enc_opt_relay_info(o)),
        wf_opt_relay_info(o),
    ensures
        dec_opt_relay_info(s, i) == Some((o, i + enc_opt_relay_info(o).len())),
{
    match o {
        None => {
            lemma_dec_enc_bool(s, i, false);
        },
        Some(r) => {
            lemma_bytes_at_split(s, i, enc_bool(true), enc_relay_info(r));
            lemma_dec_enc_bool(s, i, true);
            lemma_dec_enc_relay_info(s, i + 1, r);
        },
    }
}

// ---------------------------------------------------------------------------
// key/value detail pairs
// ---------------------------------------------------------------------------
pub open spec fn enc_pair(p: (Seq<char>, Seq<char>)) -> Seq<u8> {
    enc_string(p.0) + enc_string(p.1)
}

pub open spec fn dec_pair(s: Seq<u8>, i: int) -> Option<((Seq<char>, Seq<char>), int)> {
    match dec_string(s, i) {
        None => None,
        Some((a, j)) => match dec_string(s, j) {
            None => None,
            Some((b, k)) => Some(((a, b), k)),
        },
    }
}

pub open spec fn wf_pair(p: (Seq<char>, Seq<char>)) -> bool {
    wf_string(p.0) && wf_string(p.1)
}

pub proof fn lemma_dec_enc_pair(s: Seq<u8>, i: int, p: (Seq<char>, Seq<char>))
    requires
        bytes_at(s, i, enc_pair(p)),
        wf_pair(p),
    ensures
        dec_pair(s, i) == Some((p, i + enc_pair(p).len())),
{
    lemma_bytes_at_split(s, i, enc_string(p.0), enc_string(p.1));
    lemma_dec_enc_string(s, i, p.0);
    lemma_dec_enc_string(s, i + enc_string(p.0).len(), p.1);
}

pub open spec fn enc_pair_items(ps: Seq<(Seq<char>, Seq<char>)>) -> Seq<u8>
    decreases ps.len(),
{
    if ps.len() == 0 {
        Seq::empty()
    } else {
        enc_pair(ps[0]) + enc_pair_items(ps.drop_first())
    }
}

pub open spec fn enc_pairs(ps: Seq<(Seq<char>, Seq<char>)>) -> Seq<u8> {
    enc_u64(ps.len() as u64) + enc_pair_items(ps)
}

pub open spec fn dec_pair_items(s: Seq<u8>, i: int, n: int) -> Option<
    (Seq<(Seq<char>, Seq<char>)>, int),
>
    decreases n,
{
    if n <= 0 {
        Some((Seq::empty(), i))
    } else {
        match dec_pair(s, i) {
            None => None,
            Some((p, j)) => match dec_pair_items(s, j, n - 1) {
                None => None,
                Some((rest, k)) => Some((seq![p] + rest, k)),
            },
        }
    }
}

pub open spec fn dec_pairs(s: Seq<u8>, i: int) -> Option<(Seq<(Seq<char>, Seq<char>)>, int)> {
    match dec_u64(s, i) {
        None => None,
        Some((n, j)) => dec_pair_items(s, j, n as int),
    }
}

pub open spec fn wf_pairs(ps: Seq<(Seq<char>, Seq<char>)>) -> bool {
    &&& ps.len() <= u64::MAX
    &&& forall|k: int| 0 <= k < ps.len() ==> wf_pair(#[trigger] ps[k])
}

pub proof fn lemma_enc_pair_items_push(ps: Seq<(Seq<char>, Seq<char>)>, p: (Seq<char>, Seq<char>))
    ensures
        enc_pair_items(ps.push(p)) == enc_pair_items(ps) + enc_pair(p),
    decreases ps.len(),
{
    if ps.len() == 0 {
        assert(ps.push(p).drop_first() =~= Seq::<(Seq<char>, Seq<char>)>::empty());
        assert(ps.push(p)[0] == p);
        assert(enc_pair_items(ps.push(p)) == enc_pair(p) + enc_pair_items(
            Seq::<(Seq<char>, Seq<char>)>::empty(),
        ));
        assert(enc_pair(p) + Seq::<u8>::empty() =~= enc_pair(p));
        assert(Seq::<u8>::empty() + enc_pair(p) =~= enc_pair(p));
    } else {
        assert(ps.push(p).drop_first() =~= ps.drop_first().push(p));
        lemma_enc_pair_items_push(ps.drop_first(), p);
        assert(enc_pair_items(ps.push(p)) =~= enc_pair_items(ps) + enc_pair(p));
    }
}

pub proof fn lemma_dec_enc_pair_items(s: Seq<u8>, i: int, ps: Seq<(Seq<char>, Seq<char>)>)
    requires
        bytes_at(s, i, enc_pair_items(ps)),
        forall|k: int| 0 <= k < ps.len() ==> wf_pair(#[trigger] ps[k]),
    ensures
        dec_pair_items(s, i, ps.len() as int) == Some((ps, i + enc_pair_items(ps).len())),
    decreases ps.len(),
{
    if ps.len() == 0 {
        assert(ps =~= Seq::<(Seq<char>, Seq<char>)>::empty());
    } else {
        lemma_bytes_at_split(s, i, enc_pair(ps[0]), enc_pair_items(ps.drop_first()));
        lemma_dec_enc_pair(s, i, ps[0]);
        lemma_dec_enc_pair_items(s, i + enc_pair(ps[0]).len(), ps.drop_first());
        assert(seq![ps[0]] + ps.drop_first() =~= ps);
    }
}

pub proof fn lemma_dec_enc_pairs(s: Seq<u8>, i: int, ps: Seq<(Seq<char>, Seq<char>)>)
    requires
        bytes_at(s, i, enc_pairs(ps)),
        wf_pairs(ps),
    ensures
        dec_pairs(s, i) == Some((ps, i + enc_pairs(ps).len())),
{
    lemma_bytes_at_split(s, i, enc_u64(ps.len() as u64), enc_pair_items(ps));
    lemma_dec_enc_u64(s, i, ps.len() as u64);
    lemma_dec_enc_pair_items(s, i + 8, ps);
}

} // verus!
