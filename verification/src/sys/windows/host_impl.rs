//! WASI values and Windows values, one in terms of the other.

use crate::host;
use crate::winx::file::{
    AccessRight, CreationDisposition, FlagsAndAttributes, FILE_APPEND_DATA,
    FILE_ATTRIBUTE_NORMAL, FILE_FLAG_BACKUP_SEMANTICS, FILE_FLAG_OVERLAPPED, SYNCHRONIZE,
};
use crate::winx::winerror::WinError;
use vstd::prelude::*;
use vstd::string::StringSliceAdditionalSpecFns;
use vstd::utf8::{decode_utf8, encode_utf8_decode_utf8, valid_utf8};

verus! {

/// The WASI error that stands for a Windows error. An error without a
/// counterpart is `ENOTSUP`.
pub open spec fn errno_of_win(error: WinError) -> host::__wasi_errno_t {
    match error {
        WinError::ERROR_SUCCESS => host::__WASI_ESUCCESS,
        WinError::ERROR_BAD_ENVIRONMENT => host::__WASI_E2BIG,
        WinError::ERROR_FILE_NOT_FOUND => host::__WASI_ENOENT,
        WinError::ERROR_PATH_NOT_FOUND => host::__WASI_ENOENT,
        WinError::ERROR_TOO_MANY_OPEN_FILES => host::__WASI_ENFILE,
        WinError::ERROR_ACCESS_DENIED => host::__WASI_EACCES,
        WinError::ERROR_SHARING_VIOLATION => host::__WASI_EACCES,
        WinError::ERROR_INVALID_HANDLE => host::__WASI_EBADF,
        WinError::ERROR_INVALID_NAME => host::__WASI_EBADF,
        WinError::ERROR_NOT_ENOUGH_MEMORY => host::__WASI_ENOMEM,
        WinError::ERROR_OUTOFMEMORY => host::__WASI_ENOMEM,
        WinError::ERROR_DIR_NOT_EMPTY => host::__WASI_ENOTEMPTY,
        WinError::ERROR_DEV_NOT_EXIST => host::__WASI_ENODEV,
        WinError::ERROR_NOT_READY => host::__WASI_EBUSY,
        WinError::ERROR_BUSY => host::__WASI_EBUSY,
        WinError::ERROR_NOT_SUPPORTED => host::__WASI_ENOTSUP,
        WinError::ERROR_FILE_EXISTS => host::__WASI_EEXIST,
        WinError::ERROR_BROKEN_PIPE => host::__WASI_EPIPE,
        WinError::ERROR_BUFFER_OVERFLOW => host::__WASI_ENAMETOOLONG,
        WinError::ERROR_DISK_FULL => host::__WASI_ENOSPC,
        WinError::ERROR_SHARING_BUFFER_EXCEEDED => host::__WASI_ENFILE,
        _ => host::__WASI_ENOTSUP,
    }
}

/// The WASI error that stands for a Windows error.
pub fn errno_from_win(error: WinError) -> (errno: host::__wasi_errno_t)
    ensures
        errno == errno_of_win(error),
{
    match error {
        WinError::ERROR_SUCCESS => host::__WASI_ESUCCESS,
        WinError::ERROR_BAD_ENVIRONMENT => host::__WASI_E2BIG,
        WinError::ERROR_FILE_NOT_FOUND | WinError::ERROR_PATH_NOT_FOUND => host::__WASI_ENOENT,
        WinError::ERROR_TOO_MANY_OPEN_FILES => host::__WASI_ENFILE,
        WinError::ERROR_ACCESS_DENIED | WinError::ERROR_SHARING_VIOLATION => host::__WASI_EACCES,
        WinError::ERROR_INVALID_HANDLE | WinError::ERROR_INVALID_NAME => host::__WASI_EBADF,
        WinError::ERROR_NOT_ENOUGH_MEMORY | WinError::ERROR_OUTOFMEMORY => host::__WASI_ENOMEM,
        WinError::ERROR_DIR_NOT_EMPTY => host::__WASI_ENOTEMPTY,
        WinError::ERROR_DEV_NOT_EXIST => host::__WASI_ENODEV,
        WinError::ERROR_NOT_READY | WinError::ERROR_BUSY => host::__WASI_EBUSY,
        WinError::ERROR_NOT_SUPPORTED => host::__WASI_ENOTSUP,
        WinError::ERROR_FILE_EXISTS => host::__WASI_EEXIST,
        WinError::ERROR_BROKEN_PIPE => host::__WASI_EPIPE,
        WinError::ERROR_BUFFER_OVERFLOW => host::__WASI_ENAMETOOLONG,
        WinError::ERROR_DISK_FULL => host::__WASI_ENOSPC,
        WinError::ERROR_SHARING_BUFFER_EXCEEDED => host::__WASI_ENFILE,
        _ => host::__WASI_ENOTSUP,
    }
}

/// Whether `flags` holds one of the three flags that ask for synchronised
/// input or output.
pub open spec fn wants_sync(fdflags: host::__wasi_fdflags_t) -> bool {
    fdflags & host::__WASI_FDFLAG_DSYNC != 0 || fdflags & host::__WASI_FDFLAG_RSYNC != 0
        || fdflags & host::__WASI_FDFLAG_SYNC != 0
}

/// The access rights that descriptor flags ask for.
pub open spec fn win_rights_of_fdflags(fdflags: host::__wasi_fdflags_t) -> u32 {
    let append: u32 = if fdflags & host::__WASI_FDFLAG_APPEND != 0 {
        FILE_APPEND_DATA
    } else {
        0
    };
    if wants_sync(fdflags) {
        append | SYNCHRONIZE
    } else {
        append
    }
}

/// The file flags that descriptor flags ask for.
pub open spec fn win_flags_of_fdflags(fdflags: host::__wasi_fdflags_t) -> u32 {
    if fdflags & host::__WASI_FDFLAG_NONBLOCK != 0 {
        FILE_FLAG_OVERLAPPED
    } else {
        0
    }
}

/// The access rights and file flags with which Windows opens a file for the
/// descriptor flags `fdflags`: non-blocking is overlapped input and output,
/// append is the right to append, and each of the three synchronisation flags
/// is the right to synchronise.
pub fn win_from_fdflags(fdflags: host::__wasi_fdflags_t) -> (res: (AccessRight, FlagsAndAttributes))
    ensures
        res.0.bits == win_rights_of_fdflags(fdflags),
        res.1.bits == win_flags_of_fdflags(fdflags),
{
    let mut win_rights = AccessRight::empty();
    let mut win_flags_attrs = FlagsAndAttributes::empty();

    if fdflags & host::__WASI_FDFLAG_NONBLOCK != 0 {
        win_flags_attrs.insert(FILE_FLAG_OVERLAPPED);
    }
    if fdflags & host::__WASI_FDFLAG_APPEND != 0 {
        win_rights.insert(FILE_APPEND_DATA);
    }
    if fdflags & host::__WASI_FDFLAG_DSYNC != 0 || fdflags & host::__WASI_FDFLAG_RSYNC != 0
        || fdflags & host::__WASI_FDFLAG_SYNC != 0 {
        win_rights.insert(SYNCHRONIZE);
    }
    proof {
        let append: u32 = if fdflags & host::__WASI_FDFLAG_APPEND != 0 {
            FILE_APPEND_DATA
        } else {
            0
        };
        assert(0u32 | FILE_FLAG_OVERLAPPED == FILE_FLAG_OVERLAPPED) by (bit_vector);
        assert(0u32 | FILE_APPEND_DATA == FILE_APPEND_DATA) by (bit_vector);
    }
    (win_rights, win_flags_attrs)
}

/// The descriptor flags that access rights stand for.
pub open spec fn fdflags_of_win(rights: u32) -> host::__wasi_fdflags_t {
    let append: host::__wasi_fdflags_t = if rights & FILE_APPEND_DATA == FILE_APPEND_DATA {
        host::__WASI_FDFLAG_APPEND
    } else {
        0
    };
    if rights & SYNCHRONIZE == SYNCHRONIZE {
        append | host::__WASI_FDFLAG_DSYNC | host::__WASI_FDFLAG_RSYNC | host::__WASI_FDFLAG_SYNC
    } else {
        append
    }
}

/// The descriptor flags of a handle with the access rights `rights`: the
/// right to append is the append flag, the right to synchronise is all three
/// synchronisation flags. Whether a handle is non-blocking cannot be told.
pub fn fdflags_from_win(rights: AccessRight) -> (fdflags: host::__wasi_fdflags_t)
    ensures
        fdflags == fdflags_of_win(rights.bits),
{
    let mut fdflags: host::__wasi_fdflags_t = 0;
    if rights.contains(FILE_APPEND_DATA) {
        fdflags = fdflags | host::__WASI_FDFLAG_APPEND;
    }
    proof {
        assert(0u16 | host::__WASI_FDFLAG_APPEND == host::__WASI_FDFLAG_APPEND) by (bit_vector);
    }
    if rights.contains(SYNCHRONIZE) {
        fdflags = fdflags | host::__WASI_FDFLAG_DSYNC;
        fdflags = fdflags | host::__WASI_FDFLAG_RSYNC;
        fdflags = fdflags | host::__WASI_FDFLAG_SYNC;
    }
    fdflags
}

/// The creation disposition that open flags ask for.
pub open spec fn disposition_of_oflags(oflags: host::__wasi_oflags_t) -> CreationDisposition {
    if oflags & host::__WASI_O_CREAT != 0 && oflags & host::__WASI_O_EXCL != 0 {
        CreationDisposition::CREATE_NEW
    } else if oflags & host::__WASI_O_CREAT != 0 {
        CreationDisposition::CREATE_ALWAYS
    } else if oflags & host::__WASI_O_TRUNC != 0 {
        CreationDisposition::TRUNCATE_EXISTING
    } else {
        CreationDisposition::OPEN_EXISTING
    }
}

/// The file flags that open flags ask for.
pub open spec fn win_flags_of_oflags(oflags: host::__wasi_oflags_t) -> u32 {
    if oflags & host::__WASI_O_DIRECTORY != 0 {
        FILE_FLAG_BACKUP_SEMANTICS
    } else {
        FILE_ATTRIBUTE_NORMAL
    }
}

/// The creation disposition and file flags with which Windows opens a file
/// for the open flags `oflags`: a directory needs backup semantics; create
/// with exclusive is a new file, create alone a file in any case, truncate an
/// existing file cut to nothing, and nothing of these an existing file.
pub fn win_from_oflags(oflags: host::__wasi_oflags_t) -> (res: (
    CreationDisposition,
    FlagsAndAttributes,
))
    ensures
        res.0 == disposition_of_oflags(oflags),
        res.1.bits == win_flags_of_oflags(oflags),
{
    let win_flags_attrs = if oflags & host::__WASI_O_DIRECTORY != 0 {
        FlagsAndAttributes { bits: FILE_FLAG_BACKUP_SEMANTICS }
    } else {
        FlagsAndAttributes { bits: FILE_ATTRIBUTE_NORMAL }
    };

    let win_disp = if oflags & host::__WASI_O_CREAT != 0 && oflags & host::__WASI_O_EXCL != 0 {
        CreationDisposition::CREATE_NEW
    } else if oflags & host::__WASI_O_CREAT != 0 {
        CreationDisposition::CREATE_ALWAYS
    } else if oflags & host::__WASI_O_TRUNC != 0 {
        CreationDisposition::TRUNCATE_EXISTING
    } else {
        CreationDisposition::OPEN_EXISTING
    };

    (win_disp, win_flags_attrs)
}


/// The UTF-16 code units of one character: itself, if it fits 16 bits, else
/// the pair of surrogates that stands for it.
pub open spec fn utf16_units(c: char) -> Seq<u16> {
    let code = c as u32;
    if code < 0x1_0000 {
        seq![code as u16]
    } else {
        seq![
            (0xd800 + ((code - 0x1_0000) as u32 >> 10)) as u16,
            (0xdc00 + ((code - 0x1_0000) as u32 & 0x3ff)) as u16,
        ]
    }
}

/// The UTF-16 code units of some characters, one character after the other.
pub open spec fn utf16_of(chars: Seq<char>) -> Seq<u16>
    decreases chars.len(),
{
    if chars.len() == 0 {
        seq![]
    } else {
        utf16_of(chars.drop_last()) + utf16_units(chars.last())
    }
}

/// `std::str::from_utf8`: the string that the bytes are, if they are valid
/// UTF-8, and nothing if they are not. The contract claims that the check of
/// the standard library is the definition of UTF-8, and that the string has
/// the bytes it was made of.
#[verifier::external_body]
fn str_from_utf8(slice: &[u8]) -> (res: Option<&str>)
    ensures
        res.is_some() == valid_utf8(slice@),
        res.is_some() ==> res.unwrap().spec_bytes() == slice@,
{
    std::str::from_utf8(slice).ok()
}

/// `str::encode_utf16`, collected: the UTF-16 code units of a string. The
/// contract claims that each character that fits 16 bits is one unit, and
/// each other character the pair of surrogates that UTF-16 defines for it.
#[verifier::external_body]
fn str_encode_utf16(s: &str) -> (res: Vec<u16>)
    ensures
        res@ == utf16_of(s@),
{
    s.encode_utf16().collect()
}

/// The UTF-16 code units of a string that is given as UTF-8. Bytes that are
/// no valid UTF-8 are `EILSEQ`.
pub fn to_utf16(slice: &[u8]) -> (res: Result<Vec<u16>, host::__wasi_errno_t>)
    ensures
        valid_utf8(slice@) ==> (res matches Ok(units) && units@ == utf16_of(
            decode_utf8(slice@),
        )),
        !valid_utf8(slice@) ==> (res matches Err(e) && e == host::__WASI_EILSEQ),
{
    match str_from_utf8(slice) {
        Some(s) => {
            proof {
                encode_utf8_decode_utf8(s@);
            }
            Ok(str_encode_utf16(s))
        },
        None => Err(host::__WASI_EILSEQ),
    }
}

/// The number of a file on its volume, of its two halves.
pub fn file_serial_no(high: u32, low: u32) -> (no: u64)
    ensures
        no == ((high as u64) << 32) | (low as u64),
{
    ((high as u64) << 32) | (low as u64)
}

pub const BACKSLASH: u16 = 92;

pub const QUESTION_MARK: u16 = 63;

/// Whether a wide path starts with the prefix `\\?\` of an extended path.
pub open spec fn has_extended_prefix(path: Seq<u16>) -> bool {
    path.len() >= 4 && path[0] == BACKSLASH && path[1] == BACKSLASH && path[2] == QUESTION_MARK
        && path[3] == BACKSLASH
}

/// A wide path without the prefix `\\?\`, if it has one: with the prefix,
/// relative components in the path would not be resolved.
pub fn strip_extended_prefix(path: &Vec<u16>) -> (out: Vec<u16>)
    ensures
        has_extended_prefix(path@) ==> out@ == path@.subrange(4, path@.len() as int),
        !has_extended_prefix(path@) ==> out@ == path@,
{
    let start: usize = if path.len() >= 4 && path[0] == BACKSLASH && path[1] == BACKSLASH
        && path[2] == QUESTION_MARK && path[3] == BACKSLASH {
        4
    } else {
        0
    };
    let mut out: Vec<u16> = Vec::new();
    let mut i: usize = start;
    while i < path.len()
        invariant
            start <= i <= path.len(),
            out@ == path@.subrange(start as int, i as int),
        decreases path.len() - i,
    {
        out.push(path[i]);
        i += 1;
    }
    proof {
        assert(path@.subrange(0, path@.len() as int) =~= path@);
    }
    out
}

} // verus!
