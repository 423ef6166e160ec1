//! WASI types and constants as the guest sees them.
#![allow(non_camel_case_types)]

use vstd::prelude::*;

verus! {

pub type __wasi_errno_t = u16;

pub type __wasi_fd_t = u32;

pub type __wasi_rights_t = u64;

pub type __wasi_filetype_t = u8;

pub type __wasi_filesize_t = u64;

pub type __wasi_filedelta_t = i64;

pub type __wasi_timestamp_t = u64;

pub type __wasi_userdata_t = u64;

pub type __wasi_dircookie_t = u64;

pub type __wasi_inode_t = u64;

pub type __wasi_device_t = u64;

pub type __wasi_linkcount_t = u32;

pub type __wasi_oflags_t = u16;

pub type __wasi_fdflags_t = u16;

pub type __wasi_lookupflags_t = u32;

pub type __wasi_fstflags_t = u16;

pub type __wasi_whence_t = u8;

pub type __wasi_clockid_t = u32;

pub type __wasi_eventtype_t = u8;

pub type __wasi_eventrwflags_t = u16;

pub type __wasi_subclockflags_t = u16;

pub type __wasi_advice_t = u8;

pub type __wasi_preopentype_t = u8;

pub const __WASI_ESUCCESS: __wasi_errno_t = 0;

pub const __WASI_E2BIG: __wasi_errno_t = 1;

pub const __WASI_EACCES: __wasi_errno_t = 2;

pub const __WASI_EADDRINUSE: __wasi_errno_t = 3;

pub const __WASI_EADDRNOTAVAIL: __wasi_errno_t = 4;

pub const __WASI_EAFNOSUPPORT: __wasi_errno_t = 5;

pub const __WASI_EAGAIN: __wasi_errno_t = 6;

pub const __WASI_EALREADY: __wasi_errno_t = 7;

pub const __WASI_EBADF: __wasi_errno_t = 8;

pub const __WASI_EBADMSG: __wasi_errno_t = 9;

pub const __WASI_EBUSY: __wasi_errno_t = 10;

pub const __WASI_ECANCELED: __wasi_errno_t = 11;

pub const __WASI_ECHILD: __wasi_errno_t = 12;

pub const __WASI_ECONNABORTED: __wasi_errno_t = 13;

pub const __WASI_ECONNREFUSED: __wasi_errno_t = 14;

pub const __WASI_ECONNRESET: __wasi_errno_t = 15;

pub const __WASI_EDEADLK: __wasi_errno_t = 16;

pub const __WASI_EDESTADDRREQ: __wasi_errno_t = 17;

pub const __WASI_EDOM: __wasi_errno_t = 18;

pub const __WASI_EDQUOT: __wasi_errno_t = 19;

pub const __WASI_EEXIST: __wasi_errno_t = 20;

pub const __WASI_EFAULT: __wasi_errno_t = 21;

pub const __WASI_EFBIG: __wasi_errno_t = 22;

pub const __WASI_EHOSTUNREACH: __wasi_errno_t = 23;

pub const __WASI_EIDRM: __wasi_errno_t = 24;

pub const __WASI_EILSEQ: __wasi_errno_t = 25;

pub const __WASI_EINPROGRESS: __wasi_errno_t = 26;

pub const __WASI_EINTR: __wasi_errno_t = 27;

pub const __WASI_EINVAL: __wasi_errno_t = 28;

pub const __WASI_EIO: __wasi_errno_t = 29;

pub const __WASI_EISCONN: __wasi_errno_t = 30;

pub const __WASI_EISDIR: __wasi_errno_t = 31;

pub const __WASI_ELOOP: __wasi_errno_t = 32;

pub const __WASI_EMFILE: __wasi_errno_t = 33;

pub const __WASI_EMLINK: __wasi_errno_t = 34;

pub const __WASI_EMSGSIZE: __wasi_errno_t = 35;

pub const __WASI_EMULTIHOP: __wasi_errno_t = 36;

pub const __WASI_ENAMETOOLONG: __wasi_errno_t = 37;

pub const __WASI_ENETDOWN: __wasi_errno_t = 38;

pub const __WASI_ENETRESET: __wasi_errno_t = 39;

pub const __WASI_ENETUNREACH: __wasi_errno_t = 40;

pub const __WASI_ENFILE: __wasi_errno_t = 41;

pub const __WASI_ENOBUFS: __wasi_errno_t = 42;

pub const __WASI_ENODEV: __wasi_errno_t = 43;

pub const __WASI_ENOENT: __wasi_errno_t = 44;

pub const __WASI_ENOEXEC: __wasi_errno_t = 45;

pub const __WASI_ENOLCK: __wasi_errno_t = 46;

pub const __WASI_ENOLINK: __wasi_errno_t = 47;

pub const __WASI_ENOMEM: __wasi_errno_t = 48;

pub const __WASI_ENOMSG: __wasi_errno_t = 49;

pub const __WASI_ENOPROTOOPT: __wasi_errno_t = 50;

pub const __WASI_ENOSPC: __wasi_errno_t = 51;

pub const __WASI_ENOSYS: __wasi_errno_t = 52;

pub const __WASI_ENOTCONN: __wasi_errno_t = 53;

pub const __WASI_ENOTDIR: __wasi_errno_t = 54;

pub const __WASI_ENOTEMPTY: __wasi_errno_t = 55;

pub const __WASI_ENOTRECOVERABLE: __wasi_errno_t = 56;

pub const __WASI_ENOTSOCK: __wasi_errno_t = 57;

pub const __WASI_ENOTSUP: __wasi_errno_t = 58;

pub const __WASI_ENOTTY: __wasi_errno_t = 59;

pub const __WASI_ENXIO: __wasi_errno_t = 60;

pub const __WASI_EOVERFLOW: __wasi_errno_t = 61;

pub const __WASI_EOWNERDEAD: __wasi_errno_t = 62;

pub const __WASI_EPERM: __wasi_errno_t = 63;

pub const __WASI_EPIPE: __wasi_errno_t = 64;

pub const __WASI_EPROTO: __wasi_errno_t = 65;

pub const __WASI_EPROTONOSUPPORT: __wasi_errno_t = 66;

pub const __WASI_EPROTOTYPE: __wasi_errno_t = 67;

pub const __WASI_ERANGE: __wasi_errno_t = 68;

pub const __WASI_EROFS: __wasi_errno_t = 69;

pub const __WASI_ESPIPE: __wasi_errno_t = 70;

pub const __WASI_ESRCH: __wasi_errno_t = 71;

pub const __WASI_ESTALE: __wasi_errno_t = 72;

pub const __WASI_ETIMEDOUT: __wasi_errno_t = 73;

pub const __WASI_ETXTBSY: __wasi_errno_t = 74;

pub const __WASI_EXDEV: __wasi_errno_t = 75;

pub const __WASI_ENOTCAPABLE: __wasi_errno_t = 76;

pub const __WASI_RIGHT_FD_DATASYNC: __wasi_rights_t = 0x1;

pub const __WASI_RIGHT_FD_READ: __wasi_rights_t = 0x2;

pub const __WASI_RIGHT_FD_SEEK: __wasi_rights_t = 0x4;

pub const __WASI_RIGHT_FD_FDSTAT_SET_FLAGS: __wasi_rights_t = 0x8;

pub const __WASI_RIGHT_FD_SYNC: __wasi_rights_t = 0x10;

pub const __WASI_RIGHT_FD_TELL: __wasi_rights_t = 0x20;

pub const __WASI_RIGHT_FD_WRITE: __wasi_rights_t = 0x40;

pub const __WASI_RIGHT_FD_ADVISE: __wasi_rights_t = 0x80;

pub const __WASI_RIGHT_FD_ALLOCATE: __wasi_rights_t = 0x100;

pub const __WASI_RIGHT_PATH_CREATE_DIRECTORY: __wasi_rights_t = 0x200;

pub const __WASI_RIGHT_PATH_CREATE_FILE: __wasi_rights_t = 0x400;

pub const __WASI_RIGHT_PATH_LINK_SOURCE: __wasi_rights_t = 0x800;

pub const __WASI_RIGHT_PATH_LINK_TARGET: __wasi_rights_t = 0x1000;

pub const __WASI_RIGHT_PATH_OPEN: __wasi_rights_t = 0x2000;

pub const __WASI_RIGHT_FD_READDIR: __wasi_rights_t = 0x4000;

pub const __WASI_RIGHT_PATH_READLINK: __wasi_rights_t = 0x8000;

pub const __WASI_RIGHT_PATH_RENAME_SOURCE: __wasi_rights_t = 0x10000;

pub const __WASI_RIGHT_PATH_RENAME_TARGET: __wasi_rights_t = 0x20000;

pub const __WASI_RIGHT_PATH_FILESTAT_GET: __wasi_rights_t = 0x40000;

pub const __WASI_RIGHT_PATH_FILESTAT_SET_SIZE: __wasi_rights_t = 0x80000;

pub const __WASI_RIGHT_PATH_FILESTAT_SET_TIMES: __wasi_rights_t = 0x100000;

pub const __WASI_RIGHT_FD_FILESTAT_GET: __wasi_rights_t = 0x200000;

pub const __WASI_RIGHT_FD_FILESTAT_SET_SIZE: __wasi_rights_t = 0x400000;

pub const __WASI_RIGHT_FD_FILESTAT_SET_TIMES: __wasi_rights_t = 0x800000;

pub const __WASI_RIGHT_PATH_SYMLINK: __wasi_rights_t = 0x1000000;

pub const __WASI_RIGHT_PATH_REMOVE_DIRECTORY: __wasi_rights_t = 0x2000000;

pub const __WASI_RIGHT_PATH_UNLINK_FILE: __wasi_rights_t = 0x4000000;

pub const __WASI_RIGHT_POLL_FD_READWRITE: __wasi_rights_t = 0x8000000;

pub const __WASI_RIGHT_SOCK_SHUTDOWN: __wasi_rights_t = 0x10000000;

/// Every right that exists.
pub const RIGHTS_ALL: __wasi_rights_t = 0x1fff_ffff;

/// Rights of a block device: all of them.
pub const RIGHTS_BLOCK_DEVICE_BASE: __wasi_rights_t = 0x1fff_ffff;

pub const RIGHTS_BLOCK_DEVICE_INHERITING: __wasi_rights_t = 0x1fff_ffff;

/// Rights of a character device that is no terminal: all of them.
pub const RIGHTS_CHARACTER_DEVICE_BASE: __wasi_rights_t = 0x1fff_ffff;

pub const RIGHTS_CHARACTER_DEVICE_INHERITING: __wasi_rights_t = 0x1fff_ffff;

/// Rights of a regular file: the content rights (data sync, read, seek,
/// set flags, sync, tell, write, advise, allocate), the three filestat
/// rights on a descriptor, and polling.
pub const RIGHTS_REGULAR_FILE_BASE: __wasi_rights_t = 0x08e0_01ff;

pub const RIGHTS_REGULAR_FILE_INHERITING: __wasi_rights_t = 0;

/// Rights of a directory: set flags, sync, advise, every `PATH_*` right,
/// reading the directory, filestat get and set-times on the descriptor, and
/// polling. No right to read, write, seek or resize the handle itself.
pub const RIGHTS_DIRECTORY_BASE: __wasi_rights_t = 0x0fbf_fe98;

/// What a directory hands down: its own rights and those of a regular file.
pub const RIGHTS_DIRECTORY_INHERITING: __wasi_rights_t = 0x0fff_ffff;

/// Rights of a socket: read, set flags, write, filestat get, polling, shutdown.
pub const RIGHTS_SOCKET_BASE: __wasi_rights_t = 0x1820_004a;

pub const RIGHTS_SOCKET_INHERITING: __wasi_rights_t = 0x1fff_ffff;

/// Rights of a terminal: read, set flags, write, filestat get, polling.
pub const RIGHTS_TTY_BASE: __wasi_rights_t = 0x0820_004a;

pub const RIGHTS_TTY_INHERITING: __wasi_rights_t = 0;

pub const __WASI_FILETYPE_UNKNOWN: __wasi_filetype_t = 0;

pub const __WASI_FILETYPE_BLOCK_DEVICE: __wasi_filetype_t = 1;

pub const __WASI_FILETYPE_CHARACTER_DEVICE: __wasi_filetype_t = 2;

pub const __WASI_FILETYPE_DIRECTORY: __wasi_filetype_t = 3;

pub const __WASI_FILETYPE_REGULAR_FILE: __wasi_filetype_t = 4;

pub const __WASI_FILETYPE_SOCKET_DGRAM: __wasi_filetype_t = 5;

pub const __WASI_FILETYPE_SOCKET_STREAM: __wasi_filetype_t = 6;

pub const __WASI_FILETYPE_SYMBOLIC_LINK: __wasi_filetype_t = 7;

pub const __WASI_O_CREAT: __wasi_oflags_t = 0x1;

pub const __WASI_O_DIRECTORY: __wasi_oflags_t = 0x2;

pub const __WASI_O_EXCL: __wasi_oflags_t = 0x4;

pub const __WASI_O_TRUNC: __wasi_oflags_t = 0x8;

pub const __WASI_FDFLAG_APPEND: __wasi_fdflags_t = 0x1;

pub const __WASI_FDFLAG_DSYNC: __wasi_fdflags_t = 0x2;

pub const __WASI_FDFLAG_NONBLOCK: __wasi_fdflags_t = 0x4;

pub const __WASI_FDFLAG_RSYNC: __wasi_fdflags_t = 0x8;

pub const __WASI_FDFLAG_SYNC: __wasi_fdflags_t = 0x10;

pub const __WASI_LOOKUP_SYMLINK_FOLLOW: __wasi_lookupflags_t = 0x1;

pub const __WASI_FILESTAT_SET_ATIM: __wasi_fstflags_t = 0x1;

pub const __WASI_FILESTAT_SET_ATIM_NOW: __wasi_fstflags_t = 0x2;

pub const __WASI_FILESTAT_SET_MTIM: __wasi_fstflags_t = 0x4;

pub const __WASI_FILESTAT_SET_MTIM_NOW: __wasi_fstflags_t = 0x8;

pub const __WASI_WHENCE_CUR: __wasi_whence_t = 0;

pub const __WASI_WHENCE_END: __wasi_whence_t = 1;

pub const __WASI_WHENCE_SET: __wasi_whence_t = 2;

pub const __WASI_CLOCK_REALTIME: __wasi_clockid_t = 0;

pub const __WASI_CLOCK_MONOTONIC: __wasi_clockid_t = 1;

pub const __WASI_CLOCK_PROCESS_CPUTIME_ID: __wasi_clockid_t = 2;

pub const __WASI_CLOCK_THREAD_CPUTIME_ID: __wasi_clockid_t = 3;

pub const __WASI_EVENTTYPE_CLOCK: __wasi_eventtype_t = 0;

pub const __WASI_EVENTTYPE_FD_READ: __wasi_eventtype_t = 1;

pub const __WASI_EVENTTYPE_FD_WRITE: __wasi_eventtype_t = 2;

pub const __WASI_EVENT_FD_READWRITE_HANGUP: __wasi_eventrwflags_t = 0x1;

pub const __WASI_SUBSCRIPTION_CLOCK_ABSTIME: __wasi_subclockflags_t = 0x1;

pub const __WASI_ADVICE_NORMAL: __wasi_advice_t = 0;

pub const __WASI_ADVICE_SEQUENTIAL: __wasi_advice_t = 1;

pub const __WASI_ADVICE_RANDOM: __wasi_advice_t = 2;

pub const __WASI_ADVICE_WILLNEED: __wasi_advice_t = 3;

pub const __WASI_ADVICE_DONTNEED: __wasi_advice_t = 4;

pub const __WASI_ADVICE_NOREUSE: __wasi_advice_t = 5;

pub const __WASI_PREOPENTYPE_DIR: __wasi_preopentype_t = 0;

pub const __WASI_DIRCOOKIE_START: __wasi_dircookie_t = 0;

/// `need` asks for nothing beyond `have`.
pub open spec fn rights_within(need: __wasi_rights_t, have: __wasi_rights_t) -> bool {
    need & !have == 0
}

/// Nothing is within every set of rights.
pub proof fn lemma_nothing_is_within(have: __wasi_rights_t)
    ensures
        rights_within(0, have),
{
    assert(0u64 & !have == 0) by (bit_vector);
}

/// Whether every right of `need` is among those of `have`.
pub fn rights_contain(have: __wasi_rights_t, need: __wasi_rights_t) -> (ok: bool)
    ensures
        ok == rights_within(need, have),
{
    need & !have == 0
}

/// The name of a preopened directory, as far as its length.
#[derive(Clone, Copy, Debug, PartialEq, Eq, Structural)]
pub struct __wasi_prestat_dir {
    pub pr_name_len: usize,
}

/// What a preopened resource is, by its type; only directories exist.
#[derive(Clone, Copy, Debug, PartialEq, Eq, Structural)]
pub struct __wasi_prestat_u {
    pub dir: __wasi_prestat_dir,
}

/// The description of a preopened resource.
#[derive(Clone, Copy, Debug, PartialEq, Eq, Structural)]
pub struct __wasi_prestat_t {
    pub pr_type: __wasi_preopentype_t,
    pub u: __wasi_prestat_u,
}

/// The attributes of a descriptor.
#[derive(Clone, Copy, Debug, PartialEq, Eq, Structural)]
pub struct __wasi_fdstat_t {
    pub fs_filetype: __wasi_filetype_t,
    pub fs_flags: __wasi_fdflags_t,
    pub fs_rights_base: __wasi_rights_t,
    pub fs_rights_inheriting: __wasi_rights_t,
}

/// The attributes of a file.
#[derive(Clone, Copy, Debug, PartialEq, Eq, Structural)]
pub struct __wasi_filestat_t {
    pub st_dev: __wasi_device_t,
    pub st_ino: __wasi_inode_t,
    pub st_filetype: __wasi_filetype_t,
    pub st_nlink: __wasi_linkcount_t,
    pub st_size: __wasi_filesize_t,
    pub st_atim: __wasi_timestamp_t,
    pub st_mtim: __wasi_timestamp_t,
    pub st_ctim: __wasi_timestamp_t,
}

/// The header of a directory entry; the name follows it.
#[derive(Clone, Copy, Debug, PartialEq, Eq, Structural)]
pub struct __wasi_dirent_t {
    /// The cookie with which a listing goes on behind this entry.
    pub d_next: __wasi_dircookie_t,
    pub d_ino: __wasi_inode_t,
    pub d_namlen: u32,
    pub d_type: __wasi_filetype_t,
}

} // verus!
