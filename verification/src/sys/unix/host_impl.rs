//! WASI values and Unix values, one in terms of the other.

use crate::host;
use vstd::prelude::*;

verus! {

// The error numbers of a Linux host.

pub const EPERM: i32 = 1;

pub const ENOENT: i32 = 2;

pub const ESRCH: i32 = 3;

pub const EINTR: i32 = 4;

pub const EIO: i32 = 5;

pub const ENXIO: i32 = 6;

pub const E2BIG: i32 = 7;

pub const ENOEXEC: i32 = 8;

pub const EBADF: i32 = 9;

pub const ECHILD: i32 = 10;

pub const EAGAIN: i32 = 11;

pub const ENOMEM: i32 = 12;

pub const EACCES: i32 = 13;

pub const EFAULT: i32 = 14;

pub const EBUSY: i32 = 16;

pub const EEXIST: i32 = 17;

pub const EXDEV: i32 = 18;

pub const ENODEV: i32 = 19;

pub const ENOTDIR: i32 = 20;

pub const EISDIR: i32 = 21;

pub const EINVAL: i32 = 22;

pub const ENFILE: i32 = 23;

pub const EMFILE: i32 = 24;

pub const ENOTTY: i32 = 25;

pub const ETXTBSY: i32 = 26;

pub const EFBIG: i32 = 27;

pub const ENOSPC: i32 = 28;

pub const ESPIPE: i32 = 29;

pub const EROFS: i32 = 30;

pub const EMLINK: i32 = 31;

pub const EPIPE: i32 = 32;

pub const EDOM: i32 = 33;

pub const ERANGE: i32 = 34;

pub const EDEADLK: i32 = 35;

pub const ENAMETOOLONG: i32 = 36;

pub const ENOLCK: i32 = 37;

pub const ENOSYS: i32 = 38;

pub const ENOTEMPTY: i32 = 39;

pub const ELOOP: i32 = 40;

pub const ENOMSG: i32 = 42;

pub const EIDRM: i32 = 43;

pub const ENOLINK: i32 = 67;

pub const EPROTO: i32 = 71;

pub const EMULTIHOP: i32 = 72;

pub const EBADMSG: i32 = 74;

pub const EOVERFLOW: i32 = 75;

pub const EILSEQ: i32 = 84;

pub const ENOTSOCK: i32 = 88;

pub const EDESTADDRREQ: i32 = 89;

pub const EMSGSIZE: i32 = 90;

pub const EPROTOTYPE: i32 = 91;

pub const ENOPROTOOPT: i32 = 92;

pub const EPROTONOSUPPORT: i32 = 93;

pub const ENOTSUP: i32 = 95;

pub const EAFNOSUPPORT: i32 = 97;

pub const EADDRINUSE: i32 = 98;

pub const EADDRNOTAVAIL: i32 = 99;

pub const ENETDOWN: i32 = 100;

pub const ENETUNREACH: i32 = 101;

pub const ENETRESET: i32 = 102;

pub const ECONNABORTED: i32 = 103;

pub const ECONNRESET: i32 = 104;

pub const ENOBUFS: i32 = 105;

pub const EISCONN: i32 = 106;

pub const ENOTCONN: i32 = 107;

pub const ETIMEDOUT: i32 = 110;

pub const ECONNREFUSED: i32 = 111;

pub const EHOSTUNREACH: i32 = 113;

pub const EALREADY: i32 = 114;

pub const EINPROGRESS: i32 = 115;

pub const ESTALE: i32 = 116;

pub const EDQUOT: i32 = 122;

pub const ECANCELED: i32 = 125;

pub const EOWNERDEAD: i32 = 130;

pub const ENOTRECOVERABLE: i32 = 131;

/// The WASI error that stands for the error number `err` of a Linux host:
/// the error of the same name. A number without a counterpart is `ENOTSUP`,
/// so that a refusal of the host is never taken for a failure of it.
pub open spec fn errno_of_host(err: i32) -> host::__wasi_errno_t {
    match err {
        1 => host::__WASI_EPERM,
        2 => host::__WASI_ENOENT,
        3 => host::__WASI_ESRCH,
        4 => host::__WASI_EINTR,
        5 => host::__WASI_EIO,
        6 => host::__WASI_ENXIO,
        7 => host::__WASI_E2BIG,
        8 => host::__WASI_ENOEXEC,
        9 => host::__WASI_EBADF,
        10 => host::__WASI_ECHILD,
        11 => host::__WASI_EAGAIN,
        12 => host::__WASI_ENOMEM,
        13 => host::__WASI_EACCES,
        14 => host::__WASI_EFAULT,
        16 => host::__WASI_EBUSY,
        17 => host::__WASI_EEXIST,
        18 => host::__WASI_EXDEV,
        19 => host::__WASI_ENODEV,
        20 => host::__WASI_ENOTDIR,
        21 => host::__WASI_EISDIR,
        22 => host::__WASI_EINVAL,
        23 => host::__WASI_ENFILE,
        24 => host::__WASI_EMFILE,
        25 => host::__WASI_ENOTTY,
        26 => host::__WASI_ETXTBSY,
        27 => host::__WASI_EFBIG,
        28 => host::__WASI_ENOSPC,
        29 => host::__WASI_ESPIPE,
        30 => host::__WASI_EROFS,
        31 => host::__WASI_EMLINK,
        32 => host::__WASI_EPIPE,
        33 => host::__WASI_EDOM,
        34 => host::__WASI_ERANGE,
        35 => host::__WASI_EDEADLK,
        36 => host::__WASI_ENAMETOOLONG,
        37 => host::__WASI_ENOLCK,
        38 => host::__WASI_ENOSYS,
        39 => host::__WASI_ENOTEMPTY,
        40 => host::__WASI_ELOOP,
        42 => host::__WASI_ENOMSG,
        43 => host::__WASI_EIDRM,
        67 => host::__WASI_ENOLINK,
        71 => host::__WASI_EPROTO,
        72 => host::__WASI_EMULTIHOP,
        74 => host::__WASI_EBADMSG,
        75 => host::__WASI_EOVERFLOW,
        84 => host::__WASI_EILSEQ,
        88 => host::__WASI_ENOTSOCK,
        89 => host::__WASI_EDESTADDRREQ,
        90 => host::__WASI_EMSGSIZE,
        91 => host::__WASI_EPROTOTYPE,
        92 => host::__WASI_ENOPROTOOPT,
        93 => host::__WASI_EPROTONOSUPPORT,
        95 => host::__WASI_ENOTSUP,
        97 => host::__WASI_EAFNOSUPPORT,
        98 => host::__WASI_EADDRINUSE,
        99 => host::__WASI_EADDRNOTAVAIL,
        100 => host::__WASI_ENETDOWN,
        101 => host::__WASI_ENETUNREACH,
        102 => host::__WASI_ENETRESET,
        103 => host::__WASI_ECONNABORTED,
        104 => host::__WASI_ECONNRESET,
        105 => host::__WASI_ENOBUFS,
        106 => host::__WASI_EISCONN,
        107 => host::__WASI_ENOTCONN,
        110 => host::__WASI_ETIMEDOUT,
        111 => host::__WASI_ECONNREFUSED,
        113 => host::__WASI_EHOSTUNREACH,
        114 => host::__WASI_EALREADY,
        115 => host::__WASI_EINPROGRESS,
        116 => host::__WASI_ESTALE,
        122 => host::__WASI_EDQUOT,
        125 => host::__WASI_ECANCELED,
        130 => host::__WASI_EOWNERDEAD,
        131 => host::__WASI_ENOTRECOVERABLE,
        _ => host::__WASI_ENOTSUP,
    }
}

/// The WASI error that stands for the error number `err` of a Linux host.
pub fn errno_from_host(err: i32) -> (errno: host::__wasi_errno_t)
    ensures
        errno == errno_of_host(err),
{
    match err {
        1 => host::__WASI_EPERM,
        2 => host::__WASI_ENOENT,
        3 => host::__WASI_ESRCH,
        4 => host::__WASI_EINTR,
        5 => host::__WASI_EIO,
        6 => host::__WASI_ENXIO,
        7 => host::__WASI_E2BIG,
        8 => host::__WASI_ENOEXEC,
        9 => host::__WASI_EBADF,
        10 => host::__WASI_ECHILD,
        11 => host::__WASI_EAGAIN,
        12 => host::__WASI_ENOMEM,
        13 => host::__WASI_EACCES,
        14 => host::__WASI_EFAULT,
        16 => host::__WASI_EBUSY,
        17 => host::__WASI_EEXIST,
        18 => host::__WASI_EXDEV,
        19 => host::__WASI_ENODEV,
        20 => host::__WASI_ENOTDIR,
        21 => host::__WASI_EISDIR,
        22 => host::__WASI_EINVAL,
        23 => host::__WASI_ENFILE,
        24 => host::__WASI_EMFILE,
        25 => host::__WASI_ENOTTY,
        26 => host::__WASI_ETXTBSY,
        27 => host::__WASI_EFBIG,
        28 => host::__WASI_ENOSPC,
        29 => host::__WASI_ESPIPE,
        30 => host::__WASI_EROFS,
        31 => host::__WASI_EMLINK,
        32 => host::__WASI_EPIPE,
        33 => host::__WASI_EDOM,
        34 => host::__WASI_ERANGE,
        35 => host::__WASI_EDEADLK,
        36 => host::__WASI_ENAMETOOLONG,
        37 => host::__WASI_ENOLCK,
        38 => host::__WASI_ENOSYS,
        39 => host::__WASI_ENOTEMPTY,
        40 => host::__WASI_ELOOP,
        42 => host::__WASI_ENOMSG,
        43 => host::__WASI_EIDRM,
        67 => host::__WASI_ENOLINK,
        71 => host::__WASI_EPROTO,
        72 => host::__WASI_EMULTIHOP,
        74 => host::__WASI_EBADMSG,
        75 => host::__WASI_EOVERFLOW,
        84 => host::__WASI_EILSEQ,
        88 => host::__WASI_ENOTSOCK,
        89 => host::__WASI_EDESTADDRREQ,
        90 => host::__WASI_EMSGSIZE,
        91 => host::__WASI_EPROTOTYPE,
        92 => host::__WASI_ENOPROTOOPT,
        93 => host::__WASI_EPROTONOSUPPORT,
        95 => host::__WASI_ENOTSUP,
        97 => host::__WASI_EAFNOSUPPORT,
        98 => host::__WASI_EADDRINUSE,
        99 => host::__WASI_EADDRNOTAVAIL,
        100 => host::__WASI_ENETDOWN,
        101 => host::__WASI_ENETUNREACH,
        102 => host::__WASI_ENETRESET,
        103 => host::__WASI_ECONNABORTED,
        104 => host::__WASI_ECONNRESET,
        105 => host::__WASI_ENOBUFS,
        106 => host::__WASI_EISCONN,
        107 => host::__WASI_ENOTCONN,
        110 => host::__WASI_ETIMEDOUT,
        111 => host::__WASI_ECONNREFUSED,
        113 => host::__WASI_EHOSTUNREACH,
        114 => host::__WASI_EALREADY,
        115 => host::__WASI_EINPROGRESS,
        116 => host::__WASI_ESTALE,
        122 => host::__WASI_EDQUOT,
        125 => host::__WASI_ECANCELED,
        130 => host::__WASI_EOWNERDEAD,
        131 => host::__WASI_ENOTRECOVERABLE,
        _ => host::__WASI_ENOTSUP,
    }
}

/// No error of the host is taken for success.
pub proof fn lemma_host_error_is_an_error(err: i32)
    ensures
        errno_of_host(err) != host::__WASI_ESUCCESS,
{
}

} // verus!
