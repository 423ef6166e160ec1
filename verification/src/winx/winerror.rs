//! Windows error codes by name.
#![allow(non_camel_case_types)]

use vstd::prelude::*;

verus! {

/// A Windows error code as an enum.
#[derive(Debug, Clone, Copy, PartialEq, Eq, Structural)]
pub enum WinError {
    /// Unknown error occurred.
    UnknownError,
    /// The operation completed successfully.
    ERROR_SUCCESS,
    /// Incorrect function.
    ERROR_INVALID_FUNCTION,
    /// The system cannot find the file specified.
    ERROR_FILE_NOT_FOUND,
    /// The system cannot find the path specified.
    ERROR_PATH_NOT_FOUND,
    /// The system cannot open the file.
    ERROR_TOO_MANY_OPEN_FILES,
    /// Access is denied.
    ERROR_ACCESS_DENIED,
    /// The handle is invalid.
    ERROR_INVALID_HANDLE,
    /// The storage control blocks were destroyed.
    ERROR_ARENA_TRASHED,
    /// Not enough storage is available to process this command.
    ERROR_NOT_ENOUGH_MEMORY,
    /// The storage control block address is invalid.
    ERROR_INVALID_BLOCK,
    /// The environment is incorrect.
    ERROR_BAD_ENVIRONMENT,
    /// An attempt was made to load a program with an incorrect format.
    ERROR_BAD_FORMAT,
    /// The access code is invalid.
    ERROR_INVALID_ACCESS,
    /// The data is invalid.
    ERROR_INVALID_DATA,
    /// Not enough storage is available to complete this operation.
    ERROR_OUTOFMEMORY,
    /// The system cannot find the drive specified.
    ERROR_INVALID_DRIVE,
    /// The directory cannot be removed.
    ERROR_CURRENT_DIRECTORY,
    /// The system cannot move the file to a different disk drive.
    ERROR_NOT_SAME_DEVICE,
    /// There are no more files.
    ERROR_NO_MORE_FILES,
    /// The media is write-protected.
    ERROR_WRITE_PROTECT,
    /// The system cannot find the device specified.
    ERROR_BAD_UNIT,
    /// The device is not ready.
    ERROR_NOT_READY,
    /// The device does not recognize the command.
    ERROR_BAD_COMMAND,
    /// Data error (cyclic redundancy check).
    ERROR_CRC,
    /// The program issued a command but the command length is incorrect.
    ERROR_BAD_LENGTH,
    /// The drive cannot locate a specific area or track on the disk.
    ERROR_SEEK,
    /// The specified disk cannot be accessed.
    ERROR_NOT_DOS_DISK,
    /// The drive cannot find the sector requested.
    ERROR_SECTOR_NOT_FOUND,
    /// The printer is out of paper.
    ERROR_OUT_OF_PAPER,
    /// The system cannot write to the specified device.
    ERROR_WRITE_FAULT,
    /// The system cannot read from the specified device.
    ERROR_READ_FAULT,
    /// A device attached to the system is not functioning.
    ERROR_GEN_FAILURE,
    /// The process cannot access the file because it is being used by another process.
    ERROR_SHARING_VIOLATION,
    /// The process cannot access the file because another process has locked a portion of the file.
    ERROR_LOCK_VIOLATION,
    /// The wrong disk is in the drive. Insert %2 (Volume Serial Number: %3) into drive %1.
    ERROR_WRONG_DISK,
    /// Too many files opened for sharing.
    ERROR_SHARING_BUFFER_EXCEEDED,
    /// Reached the end of the file.
    ERROR_HANDLE_EOF,
    /// The disk is full.
    ERROR_HANDLE_DISK_FULL,
    /// The request is not supported.
    ERROR_NOT_SUPPORTED,
    /// Windows cannot find the network path.
    ERROR_REM_NOT_LIST,
    /// You were not connected because a duplicate name exists on the network.
    ERROR_DUP_NAME,
    /// The network path was not found.
    ERROR_BAD_NETPATH,
    /// The network is busy.
    ERROR_NETWORK_BUSY,
    /// The specified network resource or device is no longer available.
    ERROR_DEV_NOT_EXIST,
    /// The network BIOS command limit has been reached.
    ERROR_TOO_MANY_CMDS,
    /// A network adapter hardware error occurred.
    ERROR_ADAP_HDW_ERR,
    /// The specified server cannot perform the requested operation.
    ERROR_BAD_NET_RESP,
    /// An unexpected network error occurred.
    ERROR_UNEXP_NET_ERR,
    /// The remote adapter is not compatible.
    ERROR_BAD_REM_ADAP,
    /// The print queue is full.
    ERROR_PRINTQ_FULL,
    /// Space to store the file waiting to be printed is not available on the server.
    ERROR_NO_SPOOL_SPACE,
    /// Your file waiting to be printed was deleted.
    ERROR_PRINT_CANCELLED,
    /// The specified network name is no longer available.
    ERROR_NETNAME_DELETED,
    /// Network access is denied.
    ERROR_NETWORK_ACCESS_DENIED,
    /// The network resource type is not correct.
    ERROR_BAD_DEV_TYPE,
    /// The network name cannot be found.
    ERROR_BAD_NET_NAME,
    /// The name limit for the local computer network adapter card was exceeded.
    ERROR_TOO_MANY_NAMES,
    /// The network BIOS session limit was exceeded.
    ERROR_TOO_MANY_SESS,
    /// The remote server has been paused or is in the process of being started.
    ERROR_SHARING_PAUSED,
    /// No more connections can be made to this remote computer at this time because the computer has accepted the maximum number of connections.
    ERROR_REQ_NOT_ACCEP,
    /// The specified printer or disk device has been paused.
    ERROR_REDIR_PAUSED,
    /// The file exists.
    ERROR_FILE_EXISTS,
    /// The directory or file cannot be created.
    ERROR_CANNOT_MAKE,
    /// Fail on INT 24.
    ERROR_FAIL_I24,
    /// Storage to process this request is not available.
    ERROR_OUT_OF_STRUCTURES,
    /// The local device name is already in use.
    ERROR_ALREADY_ASSIGNED,
    /// The specified network password is not correct.
    ERROR_INVALID_PASSWORD,
    /// The parameter is incorrect.
    ERROR_INVALID_PARAMETER,
    /// A write fault occurred on the network.
    ERROR_NET_WRITE_FAULT,
    /// The system cannot start another process at this time.
    ERROR_NO_PROC_SLOTS,
    /// Cannot create another system semaphore.
    ERROR_TOO_MANY_SEMAPHORES,
    /// Cannot create another system semaphore.
    ERROR_EXCL_SEM_ALREADY_OWNED,
    /// The semaphore is set and cannot be closed.
    ERROR_SEM_IS_SET,
    /// The semaphore cannot be set again.
    ERROR_TOO_MANY_SEM_REQUESTS,
    /// Cannot request exclusive semaphores at interrupt time.
    ERROR_INVALID_AT_INTERRUPT_TIME,
    /// The previous ownership of this semaphore has ended.
    ERROR_SEM_OWNER_DIED,
    /// Insert the disk for drive %1.
    ERROR_SEM_USER_LIMIT,
    /// The program stopped because an alternate disk was not inserted.
    ERROR_DISK_CHANGE,
    /// The disk is in use or locked by another process.
    ERROR_DRIVE_LOCKED,
    /// The pipe has been ended.
    ERROR_BROKEN_PIPE,
    /// The system cannot open the device or file specified.
    ERROR_OPEN_FAILED,
    /// The file name is too long.
    ERROR_BUFFER_OVERFLOW,
    /// There is not enough space on the disk.
    ERROR_DISK_FULL,
    /// No more internal file identifiers are available.
    ERROR_NO_MORE_SEARCH_HANDLES,
    /// The target internal file identifier is incorrect.
    ERROR_INVALID_TARGET_HANDLE,
    /// The Input Output Control (IOCTL) call made by the application program is not correct.
    ERROR_INVALID_CATEGORY,
    /// The verify-on-write switch parameter value is not correct.
    ERROR_INVALID_VERIFY_SWITCH,
    /// The system does not support the command requested.
    ERROR_BAD_DRIVER_LEVEL,
    /// This function is not supported on this system.
    ERROR_CALL_NOT_IMPLEMENTED,
    /// The semaphore time-out period has expired.
    ERROR_SEM_TIMEOUT,
    /// The data area passed to a system call is too small.
    ERROR_INSUFFICIENT_BUFFER,
    /// The file name, directory name, or volume label syntax is incorrect.
    ERROR_INVALID_NAME,
    /// The system call level is not correct.
    ERROR_INVALID_LEVEL,
    /// The disk has no volume label.
    ERROR_NO_VOLUME_LABEL,
    /// The specified module could not be found.
    ERROR_MOD_NOT_FOUND,
    /// The specified procedure could not be found.
    ERROR_PROC_NOT_FOUND,
    /// There are no child processes to wait for.
    ERROR_WAIT_NO_CHILDREN,
    /// The %1 application cannot be run in Win32 mode.
    ERROR_CHILD_NOT_COMPLETE,
    /// Attempt to use a file handle to an open disk partition for an operation other than raw disk I/O.
    ERROR_DIRECT_ACCESS_HANDLE,
    /// An attempt was made to move the file pointer before the beginning of the file.
    ERROR_NEGATIVE_SEEK,
    /// The file pointer cannot be set on the specified device or file.
    ERROR_SEEK_ON_DEVICE,
    /// A JOIN or SUBST command cannot be used for a drive that contains previously joined drives.
    ERROR_IS_JOIN_TARGET,
    /// An attempt was made to use a JOIN or SUBST command on a drive that has already been joined.
    ERROR_IS_JOINED,
    /// An attempt was made to use a JOIN or SUBST command on a drive that has already been substituted.
    ERROR_IS_SUBSTED,
    /// The system tried to delete the JOIN of a drive that is not joined.
    ERROR_NOT_JOINED,
    /// The system tried to delete the substitution of a drive that is not substituted.
    ERROR_NOT_SUBSTED,
    /// The system tried to join a drive to a directory on a joined drive.
    ERROR_JOIN_TO_JOIN,
    /// The system tried to substitute a drive to a directory on a substituted drive.
    ERROR_SUBST_TO_SUBST,
    /// The system tried to join a drive to a directory on a substituted drive.
    ERROR_JOIN_TO_SUBST,
    /// The system tried to SUBST a drive to a directory on a joined drive.
    ERROR_SUBST_TO_JOIN,
    /// The system cannot perform a JOIN or SUBST at this time.
    ERROR_BUSY_DRIVE,
    /// The system cannot join or substitute a drive to or for a directory on the same drive.
    ERROR_SAME_DRIVE,
    /// The directory is not a subdirectory of the root directory.
    ERROR_DIR_NOT_ROOT,
    /// The directory is not empty.
    ERROR_DIR_NOT_EMPTY,
    /// The path specified is being used in a substitute.
    ERROR_IS_SUBST_PATH,
    /// Not enough resources are available to process this command.
    ERROR_IS_JOIN_PATH,
    /// The path specified cannot be used at this time.
    ERROR_PATH_BUSY,
    /// An attempt was made to join or substitute a drive for which a directory on the drive is the target of a previous substitute.
    ERROR_IS_SUBST_TARGET,
    /// System trace information was not specified in your CONFIG.SYS file, or tracing is disallowed.
    ERROR_SYSTEM_TRACE,
    /// The number of specified semaphore events for DosMuxSemWait is not correct.
    ERROR_INVALID_EVENT_COUNT,
    /// DosMuxSemWait did not execute; too many semaphores are already set.
    ERROR_TOO_MANY_MUXWAITERS,
    /// The DosMuxSemWait list is not correct.
    ERROR_INVALID_LIST_FORMAT,
    /// The volume label you entered exceeds the label character limit of the destination file system.
    ERROR_LABEL_TOO_LONG,
    /// Cannot create another thread.
    ERROR_TOO_MANY_TCBS,
    /// The recipient process has refused the signal.
    ERROR_SIGNAL_REFUSED,
    /// The segment is already discarded and cannot be locked.
    ERROR_DISCARDED,
    /// The segment is already unlocked.
    ERROR_NOT_LOCKED,
    /// The address for the thread ID is not correct.
    ERROR_BAD_THREADID_ADDR,
    /// One or more arguments are not correct.
    ERROR_BAD_ARGUMENTS,
    /// The specified path is invalid.
    ERROR_BAD_PATHNAME,
    /// The requested resource is in use.
    ERROR_BUSY,
}

/// The code that stands for no known error.
pub const UNKNOWN_ERROR_CODE: u32 = 0xffff_ffff;

/// The number of an error.
pub open spec fn code_of(err: WinError) -> u32 {
    match err {
        WinError::UnknownError => UNKNOWN_ERROR_CODE,
        WinError::ERROR_SUCCESS => 0,
        WinError::ERROR_INVALID_FUNCTION => 1,
        WinError::ERROR_FILE_NOT_FOUND => 2,
        WinError::ERROR_PATH_NOT_FOUND => 3,
        WinError::ERROR_TOO_MANY_OPEN_FILES => 4,
        WinError::ERROR_ACCESS_DENIED => 5,
        WinError::ERROR_INVALID_HANDLE => 6,
        WinError::ERROR_ARENA_TRASHED => 7,
        WinError::ERROR_NOT_ENOUGH_MEMORY => 8,
        WinError::ERROR_INVALID_BLOCK => 9,
        WinError::ERROR_BAD_ENVIRONMENT => 10,
        WinError::ERROR_BAD_FORMAT => 11,
        WinError::ERROR_INVALID_ACCESS => 12,
        WinError::ERROR_INVALID_DATA => 13,
        WinError::ERROR_OUTOFMEMORY => 14,
        WinError::ERROR_INVALID_DRIVE => 15,
        WinError::ERROR_CURRENT_DIRECTORY => 16,
        WinError::ERROR_NOT_SAME_DEVICE => 17,
        WinError::ERROR_NO_MORE_FILES => 18,
        WinError::ERROR_WRITE_PROTECT => 19,
        WinError::ERROR_BAD_UNIT => 20,
        WinError::ERROR_NOT_READY => 21,
        WinError::ERROR_BAD_COMMAND => 22,
        WinError::ERROR_CRC => 23,
        WinError::ERROR_BAD_LENGTH => 24,
        WinError::ERROR_SEEK => 25,
        WinError::ERROR_NOT_DOS_DISK => 26,
        WinError::ERROR_SECTOR_NOT_FOUND => 27,
        WinError::ERROR_OUT_OF_PAPER => 28,
        WinError::ERROR_WRITE_FAULT => 29,
        WinError::ERROR_READ_FAULT => 30,
        WinError::ERROR_GEN_FAILURE => 31,
        WinError::ERROR_SHARING_VIOLATION => 32,
        WinError::ERROR_LOCK_VIOLATION => 33,
        WinError::ERROR_WRONG_DISK => 34,
        WinError::ERROR_SHARING_BUFFER_EXCEEDED => 36,
        WinError::ERROR_HANDLE_EOF => 38,
        WinError::ERROR_HANDLE_DISK_FULL => 39,
        WinError::ERROR_NOT_SUPPORTED => 50,
        WinError::ERROR_REM_NOT_LIST => 51,
        WinError::ERROR_DUP_NAME => 52,
        WinError::ERROR_BAD_NETPATH => 53,
        WinError::ERROR_NETWORK_BUSY => 54,
        WinError::ERROR_DEV_NOT_EXIST => 55,
        WinError::ERROR_TOO_MANY_CMDS => 56,
        WinError::ERROR_ADAP_HDW_ERR => 57,
        WinError::ERROR_BAD_NET_RESP => 58,
        WinError::ERROR_UNEXP_NET_ERR => 59,
        WinError::ERROR_BAD_REM_ADAP => 60,
        WinError::ERROR_PRINTQ_FULL => 61,
        WinError::ERROR_NO_SPOOL_SPACE => 62,
        WinError::ERROR_PRINT_CANCELLED => 63,
        WinError::ERROR_NETNAME_DELETED => 64,
        WinError::ERROR_NETWORK_ACCESS_DENIED => 65,
        WinError::ERROR_BAD_DEV_TYPE => 66,
        WinError::ERROR_BAD_NET_NAME => 67,
        WinError::ERROR_TOO_MANY_NAMES => 68,
        WinError::ERROR_TOO_MANY_SESS => 69,
        WinError::ERROR_SHARING_PAUSED => 70,
        WinError::ERROR_REQ_NOT_ACCEP => 71,
        WinError::ERROR_REDIR_PAUSED => 72,
        WinError::ERROR_FILE_EXISTS => 80,
        WinError::ERROR_CANNOT_MAKE => 82,
        WinError::ERROR_FAIL_I24 => 83,
        WinError::ERROR_OUT_OF_STRUCTURES => 84,
        WinError::ERROR_ALREADY_ASSIGNED => 85,
        WinError::ERROR_INVALID_PASSWORD => 86,
        WinError::ERROR_INVALID_PARAMETER => 87,
        WinError::ERROR_NET_WRITE_FAULT => 88,
        WinError::ERROR_NO_PROC_SLOTS => 89,
        WinError::ERROR_TOO_MANY_SEMAPHORES => 100,
        WinError::ERROR_EXCL_SEM_ALREADY_OWNED => 101,
        WinError::ERROR_SEM_IS_SET => 102,
        WinError::ERROR_TOO_MANY_SEM_REQUESTS => 103,
        WinError::ERROR_INVALID_AT_INTERRUPT_TIME => 104,
        WinError::ERROR_SEM_OWNER_DIED => 105,
        WinError::ERROR_SEM_USER_LIMIT => 106,
        WinError::ERROR_DISK_CHANGE => 107,
        WinError::ERROR_DRIVE_LOCKED => 108,
        WinError::ERROR_BROKEN_PIPE => 109,
        WinError::ERROR_OPEN_FAILED => 110,
        WinError::ERROR_BUFFER_OVERFLOW => 111,
        WinError::ERROR_DISK_FULL => 112,
        WinError::ERROR_NO_MORE_SEARCH_HANDLES => 113,
        WinError::ERROR_INVALID_TARGET_HANDLE => 114,
        WinError::ERROR_INVALID_CATEGORY => 117,
        WinError::ERROR_INVALID_VERIFY_SWITCH => 118,
        WinError::ERROR_BAD_DRIVER_LEVEL => 119,
        WinError::ERROR_CALL_NOT_IMPLEMENTED => 120,
        WinError::ERROR_SEM_TIMEOUT => 121,
        WinError::ERROR_INSUFFICIENT_BUFFER => 122,
        WinError::ERROR_INVALID_NAME => 123,
        WinError::ERROR_INVALID_LEVEL => 124,
        WinError::ERROR_NO_VOLUME_LABEL => 125,
        WinError::ERROR_MOD_NOT_FOUND => 126,
        WinError::ERROR_PROC_NOT_FOUND => 127,
        WinError::ERROR_WAIT_NO_CHILDREN => 128,
        WinError::ERROR_CHILD_NOT_COMPLETE => 129,
        WinError::ERROR_DIRECT_ACCESS_HANDLE => 130,
        WinError::ERROR_NEGATIVE_SEEK => 131,
        WinError::ERROR_SEEK_ON_DEVICE => 132,
        WinError::ERROR_IS_JOIN_TARGET => 133,
        WinError::ERROR_IS_JOINED => 134,
        WinError::ERROR_IS_SUBSTED => 135,
        WinError::ERROR_NOT_JOINED => 136,
        WinError::ERROR_NOT_SUBSTED => 137,
        WinError::ERROR_JOIN_TO_JOIN => 138,
        WinError::ERROR_SUBST_TO_SUBST => 139,
        WinError::ERROR_JOIN_TO_SUBST => 140,
        WinError::ERROR_SUBST_TO_JOIN => 141,
        WinError::ERROR_BUSY_DRIVE => 142,
        WinError::ERROR_SAME_DRIVE => 143,
        WinError::ERROR_DIR_NOT_ROOT => 144,
        WinError::ERROR_DIR_NOT_EMPTY => 145,
        WinError::ERROR_IS_SUBST_PATH => 146,
        WinError::ERROR_IS_JOIN_PATH => 147,
        WinError::ERROR_PATH_BUSY => 148,
        WinError::ERROR_IS_SUBST_TARGET => 149,
        WinError::ERROR_SYSTEM_TRACE => 150,
        WinError::ERROR_INVALID_EVENT_COUNT => 151,
        WinError::ERROR_TOO_MANY_MUXWAITERS => 152,
        WinError::ERROR_INVALID_LIST_FORMAT => 153,
        WinError::ERROR_LABEL_TOO_LONG => 154,
        WinError::ERROR_TOO_MANY_TCBS => 155,
        WinError::ERROR_SIGNAL_REFUSED => 156,
        WinError::ERROR_DISCARDED => 157,
        WinError::ERROR_NOT_LOCKED => 158,
        WinError::ERROR_BAD_THREADID_ADDR => 159,
        WinError::ERROR_BAD_ARGUMENTS => 160,
        WinError::ERROR_BAD_PATHNAME => 161,
        WinError::ERROR_BUSY => 170,
    }
}

/// Whether `err` is the number of an error that has a name.
pub open spec fn is_known_code(err: u32) -> bool {
    exists|e: WinError| e != WinError::UnknownError && code_of(e) == err
}

/// The text that describes an error.
pub open spec fn desc_of(err: WinError) -> &'static str {
    match err {
        WinError::UnknownError => " Unknown error occurred.",
        WinError::ERROR_SUCCESS => " The operation completed successfully.",
        WinError::ERROR_INVALID_FUNCTION => " Incorrect function.",
        WinError::ERROR_FILE_NOT_FOUND => " The system cannot find the file specified.",
        WinError::ERROR_PATH_NOT_FOUND => " The system cannot find the path specified.",
        WinError::ERROR_TOO_MANY_OPEN_FILES => " The system cannot open the file.",
        WinError::ERROR_ACCESS_DENIED => " Access is denied.",
        WinError::ERROR_INVALID_HANDLE => " The handle is invalid.",
        WinError::ERROR_ARENA_TRASHED => " The storage control blocks were destroyed.",
        WinError::ERROR_NOT_ENOUGH_MEMORY => " Not enough storage is available to process this command.",
        WinError::ERROR_INVALID_BLOCK => " The storage control block address is invalid.",
        WinError::ERROR_BAD_ENVIRONMENT => " The environment is incorrect.",
        WinError::ERROR_BAD_FORMAT => " An attempt was made to load a program with an incorrect format.",
        WinError::ERROR_INVALID_ACCESS => " The access code is invalid.",
        WinError::ERROR_INVALID_DATA => " The data is invalid.",
        WinError::ERROR_OUTOFMEMORY => " Not enough storage is available to complete this operation.",
        WinError::ERROR_INVALID_DRIVE => " The system cannot find the drive specified.",
        WinError::ERROR_CURRENT_DIRECTORY => " The directory cannot be removed.",
        WinError::ERROR_NOT_SAME_DEVICE => " The system cannot move the file to a different disk drive.",
        WinError::ERROR_NO_MORE_FILES => " There are no more files.",
        WinError::ERROR_WRITE_PROTECT => " The media is write-protected.",
        WinError::ERROR_BAD_UNIT => " The system cannot find the device specified.",
        WinError::ERROR_NOT_READY => " The device is not ready.",
        WinError::ERROR_BAD_COMMAND => " The device does not recognize the command.",
        WinError::ERROR_CRC => " Data error (cyclic redundancy check).",
        WinError::ERROR_BAD_LENGTH => " The program issued a command but the command length is incorrect.",
        WinError::ERROR_SEEK => " The drive cannot locate a specific area or track on the disk.",
        WinError::ERROR_NOT_DOS_DISK => " The specified disk cannot be accessed.",
        WinError::ERROR_SECTOR_NOT_FOUND => " The drive cannot find the sector requested.",
        WinError::ERROR_OUT_OF_PAPER => " The printer is out of paper.",
        WinError::ERROR_WRITE_FAULT => " The system cannot write to the specified device.",
        WinError::ERROR_READ_FAULT => " The system cannot read from the specified device.",
        WinError::ERROR_GEN_FAILURE => " A device attached to the system is not functioning.",
        WinError::ERROR_SHARING_VIOLATION => " The process cannot access the file because it is being used by another process.",
        WinError::ERROR_LOCK_VIOLATION => " The process cannot access the file because another process has locked a portion of the file.",
        WinError::ERROR_WRONG_DISK => " The wrong disk is in the drive. Insert %2 (Volume Serial Number: %3) into drive %1.",
        WinError::ERROR_SHARING_BUFFER_EXCEEDED => " Too many files opened for sharing.",
        WinError::ERROR_HANDLE_EOF => " Reached the end of the file.",
        WinError::ERROR_HANDLE_DISK_FULL => " The disk is full.",
        WinError::ERROR_NOT_SUPPORTED => " The request is not supported.",
        WinError::ERROR_REM_NOT_LIST => " Windows cannot find the network path.",
        WinError::ERROR_DUP_NAME => " You were not connected because a duplicate name exists on the network.",
        WinError::ERROR_BAD_NETPATH => " The network path was not found.",
        WinError::ERROR_NETWORK_BUSY => " The network is busy.",
        WinError::ERROR_DEV_NOT_EXIST => " The specified network resource or device is no longer available.",
        WinError::ERROR_TOO_MANY_CMDS => " The network BIOS command limit has been reached.",
        WinError::ERROR_ADAP_HDW_ERR => " A network adapter hardware error occurred.",
        WinError::ERROR_BAD_NET_RESP => " The specified server cannot perform the requested operation.",
        WinError::ERROR_UNEXP_NET_ERR => " An unexpected network error occurred.",
        WinError::ERROR_BAD_REM_ADAP => " The remote adapter is not compatible.",
        WinError::ERROR_PRINTQ_FULL => " The print queue is full.",
        WinError::ERROR_NO_SPOOL_SPACE => " Space to store the file waiting to be printed is not available on the server.",
        WinError::ERROR_PRINT_CANCELLED => " Your file waiting to be printed was deleted.",
        WinError::ERROR_NETNAME_DELETED => " The specified network name is no longer available.",
        WinError::ERROR_NETWORK_ACCESS_DENIED => " Network access is denied.",
        WinError::ERROR_BAD_DEV_TYPE => " The network resource type is not correct.",
        WinError::ERROR_BAD_NET_NAME => " The network name cannot be found.",
        WinError::ERROR_TOO_MANY_NAMES => " The name limit for the local computer network adapter card was exceeded.",
        WinError::ERROR_TOO_MANY_SESS => " The network BIOS session limit was exceeded.",
        WinError::ERROR_SHARING_PAUSED => " The remote server has been paused or is in the process of being started.",
        WinError::ERROR_REQ_NOT_ACCEP => " No more connections can be made to this remote computer at this time because the computer has accepted the maximum number of connections.",
        WinError::ERROR_REDIR_PAUSED => " The specified printer or disk device has been paused.",
        WinError::ERROR_FILE_EXISTS => " The file exists.",
        WinError::ERROR_CANNOT_MAKE => " The directory or file cannot be created.",
        WinError::ERROR_FAIL_I24 => " Fail on INT 24.",
        WinError::ERROR_OUT_OF_STRUCTURES => " Storage to process this request is not available.",
        WinError::ERROR_ALREADY_ASSIGNED => " The local device name is already in use.",
        WinError::ERROR_INVALID_PASSWORD => " The specified network password is not correct.",
        WinError::ERROR_INVALID_PARAMETER => " The parameter is incorrect.",
        WinError::ERROR_NET_WRITE_FAULT => " A write fault occurred on the network.",
        WinError::ERROR_NO_PROC_SLOTS => " The system cannot start another process at this time.",
        WinError::ERROR_TOO_MANY_SEMAPHORES => " Cannot create another system semaphore.",
        WinError::ERROR_EXCL_SEM_ALREADY_OWNED => " Cannot create another system semaphore.",
        WinError::ERROR_SEM_IS_SET => " The semaphore is set and cannot be closed.",
        WinError::ERROR_TOO_MANY_SEM_REQUESTS => " The semaphore cannot be set again.",
        WinError::ERROR_INVALID_AT_INTERRUPT_TIME => " Cannot request exclusive semaphores at interrupt time.",
        WinError::ERROR_SEM_OWNER_DIED => " The previous ownership of this semaphore has ended.",
        WinError::ERROR_SEM_USER_LIMIT => " Insert the disk for drive %1.",
        WinError::ERROR_DISK_CHANGE => " The program stopped because an alternate disk was not inserted.",
        WinError::ERROR_DRIVE_LOCKED => " The disk is in use or locked by another process.",
        WinError::ERROR_BROKEN_PIPE => " The pipe has been ended.",
        WinError::ERROR_OPEN_FAILED => " The system cannot open the device or file specified.",
        WinError::ERROR_BUFFER_OVERFLOW => " The file name is too long.",
        WinError::ERROR_DISK_FULL => " There is not enough space on the disk.",
        WinError::ERROR_NO_MORE_SEARCH_HANDLES => " No more internal file identifiers are available.",
        WinError::ERROR_INVALID_TARGET_HANDLE => " The target internal file identifier is incorrect.",
        WinError::ERROR_INVALID_CATEGORY => " The Input Output Control (IOCTL) call made by the application program is not correct.",
        WinError::ERROR_INVALID_VERIFY_SWITCH => " The verify-on-write switch parameter value is not correct.",
        WinError::ERROR_BAD_DRIVER_LEVEL => " The system does not support the command requested.",
        WinError::ERROR_CALL_NOT_IMPLEMENTED => " This function is not supported on this system.",
        WinError::ERROR_SEM_TIMEOUT => " The semaphore time-out period has expired.",
        WinError::ERROR_INSUFFICIENT_BUFFER => " The data area passed to a system call is too small.",
        WinError::ERROR_INVALID_NAME => " The file name, directory name, or volume label syntax is incorrect.",
        WinError::ERROR_INVALID_LEVEL => " The system call level is not correct.",
        WinError::ERROR_NO_VOLUME_LABEL => " The disk has no volume label.",
        WinError::ERROR_MOD_NOT_FOUND => " The specified module could not be found.",
        WinError::ERROR_PROC_NOT_FOUND => " The specified procedure could not be found.",
        WinError::ERROR_WAIT_NO_CHILDREN => " There are no child processes to wait for.",
        WinError::ERROR_CHILD_NOT_COMPLETE => " The %1 application cannot be run in Win32 mode.",
        WinError::ERROR_DIRECT_ACCESS_HANDLE => " Attempt to use a file handle to an open disk partition for an operation other than raw disk I/O.",
        WinError::ERROR_NEGATIVE_SEEK => " An attempt was made to move the file pointer before the beginning of the file.",
        WinError::ERROR_SEEK_ON_DEVICE => " The file pointer cannot be set on the specified device or file.",
        WinError::ERROR_IS_JOIN_TARGET => " A JOIN or SUBST command cannot be used for a drive that contains previously joined drives.",
        WinError::ERROR_IS_JOINED => " An attempt was made to use a JOIN or SUBST command on a drive that has already been joined.",
        WinError::ERROR_IS_SUBSTED => " An attempt was made to use a JOIN or SUBST command on a drive that has already been substituted.",
        WinError::ERROR_NOT_JOINED => " The system tried to delete the JOIN of a drive that is not joined.",
        WinError::ERROR_NOT_SUBSTED => " The system tried to delete the substitution of a drive that is not substituted.",
        WinError::ERROR_JOIN_TO_JOIN => " The system tried to join a drive to a directory on a joined drive.",
        WinError::ERROR_SUBST_TO_SUBST => " The system tried to substitute a drive to a directory on a substituted drive.",
        WinError::ERROR_JOIN_TO_SUBST => " The system tried to join a drive to a directory on a substituted drive.",
        WinError::ERROR_SUBST_TO_JOIN => " The system tried to SUBST a drive to a directory on a joined drive.",
        WinError::ERROR_BUSY_DRIVE => " The system cannot perform a JOIN or SUBST at this time.",
        WinError::ERROR_SAME_DRIVE => " The system cannot join or substitute a drive to or for a directory on the same drive.",
        WinError::ERROR_DIR_NOT_ROOT => " The directory is not a subdirectory of the root directory.",
        WinError::ERROR_DIR_NOT_EMPTY => " The directory is not empty.",
        WinError::ERROR_IS_SUBST_PATH => " The path specified is being used in a substitute.",
        WinError::ERROR_IS_JOIN_PATH => " Not enough resources are available to process this command.",
        WinError::ERROR_PATH_BUSY => " The path specified cannot be used at this time.",
        WinError::ERROR_IS_SUBST_TARGET => " An attempt was made to join or substitute a drive for which a directory on the drive is the target of a previous substitute.",
        WinError::ERROR_SYSTEM_TRACE => " System trace information was not specified in your CONFIG.SYS file, or tracing is disallowed.",
        WinError::ERROR_INVALID_EVENT_COUNT => " The number of specified semaphore events for DosMuxSemWait is not correct.",
        WinError::ERROR_TOO_MANY_MUXWAITERS => " DosMuxSemWait did not execute; too many semaphores are already set.",
        WinError::ERROR_INVALID_LIST_FORMAT => " The DosMuxSemWait list is not correct.",
        WinError::ERROR_LABEL_TOO_LONG => " The volume label you entered exceeds the label character limit of the destination file system.",
        WinError::ERROR_TOO_MANY_TCBS => " Cannot create another thread.",
        WinError::ERROR_SIGNAL_REFUSED => " The recipient process has refused the signal.",
        WinError::ERROR_DISCARDED => " The segment is already discarded and cannot be locked.",
        WinError::ERROR_NOT_LOCKED => " The segment is already unlocked.",
        WinError::ERROR_BAD_THREADID_ADDR => " The address for the thread ID is not correct.",
        WinError::ERROR_BAD_ARGUMENTS => " One or more arguments are not correct.",
        WinError::ERROR_BAD_PATHNAME => " The specified path is invalid.",
        WinError::ERROR_BUSY => " The requested resource is in use.",
    }
}

impl WinError {
    /// The error with the number `err`, or `UnknownError` where no error of
    /// that number has a name.
    pub fn from_u32(err: u32) -> (res: WinError)
        ensures
            is_known_code(err) ==> res != WinError::UnknownError && code_of(res) == err,
            !is_known_code(err) ==> res == WinError::UnknownError,
            forall|e: WinError| e != WinError::UnknownError && code_of(e) == err ==> res == e,
    {
        let res = match err {
            0 => WinError::ERROR_SUCCESS,
            1 => WinError::ERROR_INVALID_FUNCTION,
            2 => WinError::ERROR_FILE_NOT_FOUND,
            3 => WinError::ERROR_PATH_NOT_FOUND,
            4 => WinError::ERROR_TOO_MANY_OPEN_FILES,
            5 => WinError::ERROR_ACCESS_DENIED,
            6 => WinError::ERROR_INVALID_HANDLE,
            7 => WinError::ERROR_ARENA_TRASHED,
            8 => WinError::ERROR_NOT_ENOUGH_MEMORY,
            9 => WinError::ERROR_INVALID_BLOCK,
            10 => WinError::ERROR_BAD_ENVIRONMENT,
            11 => WinError::ERROR_BAD_FORMAT,
            12 => WinError::ERROR_INVALID_ACCESS,
            13 => WinError::ERROR_INVALID_DATA,
            14 => WinError::ERROR_OUTOFMEMORY,
            15 => WinError::ERROR_INVALID_DRIVE,
            16 => WinError::ERROR_CURRENT_DIRECTORY,
            17 => WinError::ERROR_NOT_SAME_DEVICE,
            18 => WinError::ERROR_NO_MORE_FILES,
            19 => WinError::ERROR_WRITE_PROTECT,
            20 => WinError::ERROR_BAD_UNIT,
            21 => WinError::ERROR_NOT_READY,
            22 => WinError::ERROR_BAD_COMMAND,
            23 => WinError::ERROR_CRC,
            24 => WinError::ERROR_BAD_LENGTH,
            25 => WinError::ERROR_SEEK,
            26 => WinError::ERROR_NOT_DOS_DISK,
            27 => WinError::ERROR_SECTOR_NOT_FOUND,
            28 => WinError::ERROR_OUT_OF_PAPER,
            29 => WinError::ERROR_WRITE_FAULT,
            30 => WinError::ERROR_READ_FAULT,
            31 => WinError::ERROR_GEN_FAILURE,
            32 => WinError::ERROR_SHARING_VIOLATION,
            33 => WinError::ERROR_LOCK_VIOLATION,
            34 => WinError::ERROR_WRONG_DISK,
            36 => WinError::ERROR_SHARING_BUFFER_EXCEEDED,
            38 => WinError::ERROR_HANDLE_EOF,
            39 => WinError::ERROR_HANDLE_DISK_FULL,
            50 => WinError::ERROR_NOT_SUPPORTED,
            51 => WinError::ERROR_REM_NOT_LIST,
            52 => WinError::ERROR_DUP_NAME,
            53 => WinError::ERROR_BAD_NETPATH,
            54 => WinError::ERROR_NETWORK_BUSY,
            55 => WinError::ERROR_DEV_NOT_EXIST,
            56 => WinError::ERROR_TOO_MANY_CMDS,
            57 => WinError::ERROR_ADAP_HDW_ERR,
            58 => WinError::ERROR_BAD_NET_RESP,
            59 => WinError::ERROR_UNEXP_NET_ERR,
            60 => WinError::ERROR_BAD_REM_ADAP,
            61 => WinError::ERROR_PRINTQ_FULL,
            62 => WinError::ERROR_NO_SPOOL_SPACE,
            63 => WinError::ERROR_PRINT_CANCELLED,
            64 => WinError::ERROR_NETNAME_DELETED,
            65 => WinError::ERROR_NETWORK_ACCESS_DENIED,
            66 => WinError::ERROR_BAD_DEV_TYPE,
            67 => WinError::ERROR_BAD_NET_NAME,
            68 => WinError::ERROR_TOO_MANY_NAMES,
            69 => WinError::ERROR_TOO_MANY_SESS,
            70 => WinError::ERROR_SHARING_PAUSED,
            71 => WinError::ERROR_REQ_NOT_ACCEP,
            72 => WinError::ERROR_REDIR_PAUSED,
            80 => WinError::ERROR_FILE_EXISTS,
            82 => WinError::ERROR_CANNOT_MAKE,
            83 => WinError::ERROR_FAIL_I24,
            84 => WinError::ERROR_OUT_OF_STRUCTURES,
            85 => WinError::ERROR_ALREADY_ASSIGNED,
            86 => WinError::ERROR_INVALID_PASSWORD,
            87 => WinError::ERROR_INVALID_PARAMETER,
            88 => WinError::ERROR_NET_WRITE_FAULT,
            89 => WinError::ERROR_NO_PROC_SLOTS,
            100 => WinError::ERROR_TOO_MANY_SEMAPHORES,
            101 => WinError::ERROR_EXCL_SEM_ALREADY_OWNED,
            102 => WinError::ERROR_SEM_IS_SET,
            103 => WinError::ERROR_TOO_MANY_SEM_REQUESTS,
            104 => WinError::ERROR_INVALID_AT_INTERRUPT_TIME,
            105 => WinError::ERROR_SEM_OWNER_DIED,
            106 => WinError::ERROR_SEM_USER_LIMIT,
            107 => WinError::ERROR_DISK_CHANGE,
            108 => WinError::ERROR_DRIVE_LOCKED,
            109 => WinError::ERROR_BROKEN_PIPE,
            110 => WinError::ERROR_OPEN_FAILED,
            111 => WinError::ERROR_BUFFER_OVERFLOW,
            112 => WinError::ERROR_DISK_FULL,
            113 => WinError::ERROR_NO_MORE_SEARCH_HANDLES,
            114 => WinError::ERROR_INVALID_TARGET_HANDLE,
            117 => WinError::ERROR_INVALID_CATEGORY,
            118 => WinError::ERROR_INVALID_VERIFY_SWITCH,
            119 => WinError::ERROR_BAD_DRIVER_LEVEL,
            120 => WinError::ERROR_CALL_NOT_IMPLEMENTED,
            121 => WinError::ERROR_SEM_TIMEOUT,
            122 => WinError::ERROR_INSUFFICIENT_BUFFER,
            123 => WinError::ERROR_INVALID_NAME,
            124 => WinError::ERROR_INVALID_LEVEL,
            125 => WinError::ERROR_NO_VOLUME_LABEL,
            126 => WinError::ERROR_MOD_NOT_FOUND,
            127 => WinError::ERROR_PROC_NOT_FOUND,
            128 => WinError::ERROR_WAIT_NO_CHILDREN,
            129 => WinError::ERROR_CHILD_NOT_COMPLETE,
            130 => WinError::ERROR_DIRECT_ACCESS_HANDLE,
            131 => WinError::ERROR_NEGATIVE_SEEK,
            132 => WinError::ERROR_SEEK_ON_DEVICE,
            133 => WinError::ERROR_IS_JOIN_TARGET,
            134 => WinError::ERROR_IS_JOINED,
            135 => WinError::ERROR_IS_SUBSTED,
            136 => WinError::ERROR_NOT_JOINED,
            137 => WinError::ERROR_NOT_SUBSTED,
            138 => WinError::ERROR_JOIN_TO_JOIN,
            139 => WinError::ERROR_SUBST_TO_SUBST,
            140 => WinError::ERROR_JOIN_TO_SUBST,
            141 => WinError::ERROR_SUBST_TO_JOIN,
            142 => WinError::ERROR_BUSY_DRIVE,
            143 => WinError::ERROR_SAME_DRIVE,
            144 => WinError::ERROR_DIR_NOT_ROOT,
            145 => WinError::ERROR_DIR_NOT_EMPTY,
            146 => WinError::ERROR_IS_SUBST_PATH,
            147 => WinError::ERROR_IS_JOIN_PATH,
            148 => WinError::ERROR_PATH_BUSY,
            149 => WinError::ERROR_IS_SUBST_TARGET,
            150 => WinError::ERROR_SYSTEM_TRACE,
            151 => WinError::ERROR_INVALID_EVENT_COUNT,
            152 => WinError::ERROR_TOO_MANY_MUXWAITERS,
            153 => WinError::ERROR_INVALID_LIST_FORMAT,
            154 => WinError::ERROR_LABEL_TOO_LONG,
            155 => WinError::ERROR_TOO_MANY_TCBS,
            156 => WinError::ERROR_SIGNAL_REFUSED,
            157 => WinError::ERROR_DISCARDED,
            158 => WinError::ERROR_NOT_LOCKED,
            159 => WinError::ERROR_BAD_THREADID_ADDR,
            160 => WinError::ERROR_BAD_ARGUMENTS,
            161 => WinError::ERROR_BAD_PATHNAME,
            170 => WinError::ERROR_BUSY,
            _ => WinError::UnknownError,
        };
        proof {
            if res != WinError::UnknownError {
                assert(code_of(res) == err);
            } else {
                assert forall|e: WinError| e != WinError::UnknownError implies code_of(e)
                    != err by {}
            }
        }
        res
    }

    /// The number of the error.
    pub fn code(self) -> (res: u32)
        ensures
            res == code_of(self),
    {
        match self {
            WinError::UnknownError => UNKNOWN_ERROR_CODE,
            WinError::ERROR_SUCCESS => 0,
            WinError::ERROR_INVALID_FUNCTION => 1,
            WinError::ERROR_FILE_NOT_FOUND => 2,
            WinError::ERROR_PATH_NOT_FOUND => 3,
            WinError::ERROR_TOO_MANY_OPEN_FILES => 4,
            WinError::ERROR_ACCESS_DENIED => 5,
            WinError::ERROR_INVALID_HANDLE => 6,
            WinError::ERROR_ARENA_TRASHED => 7,
            WinError::ERROR_NOT_ENOUGH_MEMORY => 8,
            WinError::ERROR_INVALID_BLOCK => 9,
            WinError::ERROR_BAD_ENVIRONMENT => 10,
            WinError::ERROR_BAD_FORMAT => 11,
            WinError::ERROR_INVALID_ACCESS => 12,
            WinError::ERROR_INVALID_DATA => 13,
            WinError::ERROR_OUTOFMEMORY => 14,
            WinError::ERROR_INVALID_DRIVE => 15,
            WinError::ERROR_CURRENT_DIRECTORY => 16,
            WinError::ERROR_NOT_SAME_DEVICE => 17,
            WinError::ERROR_NO_MORE_FILES => 18,
            WinError::ERROR_WRITE_PROTECT => 19,
            WinError::ERROR_BAD_UNIT => 20,
            WinError::ERROR_NOT_READY => 21,
            WinError::ERROR_BAD_COMMAND => 22,
            WinError::ERROR_CRC => 23,
            WinError::ERROR_BAD_LENGTH => 24,
            WinError::ERROR_SEEK => 25,
            WinError::ERROR_NOT_DOS_DISK => 26,
            WinError::ERROR_SECTOR_NOT_FOUND => 27,
            WinError::ERROR_OUT_OF_PAPER => 28,
            WinError::ERROR_WRITE_FAULT => 29,
            WinError::ERROR_READ_FAULT => 30,
            WinError::ERROR_GEN_FAILURE => 31,
            WinError::ERROR_SHARING_VIOLATION => 32,
            WinError::ERROR_LOCK_VIOLATION => 33,
            WinError::ERROR_WRONG_DISK => 34,
            WinError::ERROR_SHARING_BUFFER_EXCEEDED => 36,
            WinError::ERROR_HANDLE_EOF => 38,
            WinError::ERROR_HANDLE_DISK_FULL => 39,
            WinError::ERROR_NOT_SUPPORTED => 50,
            WinError::ERROR_REM_NOT_LIST => 51,
            WinError::ERROR_DUP_NAME => 52,
            WinError::ERROR_BAD_NETPATH => 53,
            WinError::ERROR_NETWORK_BUSY => 54,
            WinError::ERROR_DEV_NOT_EXIST => 55,
            WinError::ERROR_TOO_MANY_CMDS => 56,
            WinError::ERROR_ADAP_HDW_ERR => 57,
            WinError::ERROR_BAD_NET_RESP => 58,
            WinError::ERROR_UNEXP_NET_ERR => 59,
            WinError::ERROR_BAD_REM_ADAP => 60,
            WinError::ERROR_PRINTQ_FULL => 61,
            WinError::ERROR_NO_SPOOL_SPACE => 62,
            WinError::ERROR_PRINT_CANCELLED => 63,
            WinError::ERROR_NETNAME_DELETED => 64,
            WinError::ERROR_NETWORK_ACCESS_DENIED => 65,
            WinError::ERROR_BAD_DEV_TYPE => 66,
            WinError::ERROR_BAD_NET_NAME => 67,
            WinError::ERROR_TOO_MANY_NAMES => 68,
            WinError::ERROR_TOO_MANY_SESS => 69,
            WinError::ERROR_SHARING_PAUSED => 70,
            WinError::ERROR_REQ_NOT_ACCEP => 71,
            WinError::ERROR_REDIR_PAUSED => 72,
            WinError::ERROR_FILE_EXISTS => 80,
            WinError::ERROR_CANNOT_MAKE => 82,
            WinError::ERROR_FAIL_I24 => 83,
            WinError::ERROR_OUT_OF_STRUCTURES => 84,
            WinError::ERROR_ALREADY_ASSIGNED => 85,
            WinError::ERROR_INVALID_PASSWORD => 86,
            WinError::ERROR_INVALID_PARAMETER => 87,
            WinError::ERROR_NET_WRITE_FAULT => 88,
            WinError::ERROR_NO_PROC_SLOTS => 89,
            WinError::ERROR_TOO_MANY_SEMAPHORES => 100,
            WinError::ERROR_EXCL_SEM_ALREADY_OWNED => 101,
            WinError::ERROR_SEM_IS_SET => 102,
            WinError::ERROR_TOO_MANY_SEM_REQUESTS => 103,
            WinError::ERROR_INVALID_AT_INTERRUPT_TIME => 104,
            WinError::ERROR_SEM_OWNER_DIED => 105,
            WinError::ERROR_SEM_USER_LIMIT => 106,
            WinError::ERROR_DISK_CHANGE => 107,
            WinError::ERROR_DRIVE_LOCKED => 108,
            WinError::ERROR_BROKEN_PIPE => 109,
            WinError::ERROR_OPEN_FAILED => 110,
            WinError::ERROR_BUFFER_OVERFLOW => 111,
            WinError::ERROR_DISK_FULL => 112,
            WinError::ERROR_NO_MORE_SEARCH_HANDLES => 113,
            WinError::ERROR_INVALID_TARGET_HANDLE => 114,
            WinError::ERROR_INVALID_CATEGORY => 117,
            WinError::ERROR_INVALID_VERIFY_SWITCH => 118,
            WinError::ERROR_BAD_DRIVER_LEVEL => 119,
            WinError::ERROR_CALL_NOT_IMPLEMENTED => 120,
            WinError::ERROR_SEM_TIMEOUT => 121,
            WinError::ERROR_INSUFFICIENT_BUFFER => 122,
            WinError::ERROR_INVALID_NAME => 123,
            WinError::ERROR_INVALID_LEVEL => 124,
            WinError::ERROR_NO_VOLUME_LABEL => 125,
            WinError::ERROR_MOD_NOT_FOUND => 126,
            WinError::ERROR_PROC_NOT_FOUND => 127,
            WinError::ERROR_WAIT_NO_CHILDREN => 128,
            WinError::ERROR_CHILD_NOT_COMPLETE => 129,
            WinError::ERROR_DIRECT_ACCESS_HANDLE => 130,
            WinError::ERROR_NEGATIVE_SEEK => 131,
            WinError::ERROR_SEEK_ON_DEVICE => 132,
            WinError::ERROR_IS_JOIN_TARGET => 133,
            WinError::ERROR_IS_JOINED => 134,
            WinError::ERROR_IS_SUBSTED => 135,
            WinError::ERROR_NOT_JOINED => 136,
            WinError::ERROR_NOT_SUBSTED => 137,
            WinError::ERROR_JOIN_TO_JOIN => 138,
            WinError::ERROR_SUBST_TO_SUBST => 139,
            WinError::ERROR_JOIN_TO_SUBST => 140,
            WinError::ERROR_SUBST_TO_JOIN => 141,
            WinError::ERROR_BUSY_DRIVE => 142,
            WinError::ERROR_SAME_DRIVE => 143,
            WinError::ERROR_DIR_NOT_ROOT => 144,
            WinError::ERROR_DIR_NOT_EMPTY => 145,
            WinError::ERROR_IS_SUBST_PATH => 146,
            WinError::ERROR_IS_JOIN_PATH => 147,
            WinError::ERROR_PATH_BUSY => 148,
            WinError::ERROR_IS_SUBST_TARGET => 149,
            WinError::ERROR_SYSTEM_TRACE => 150,
            WinError::ERROR_INVALID_EVENT_COUNT => 151,
            WinError::ERROR_TOO_MANY_MUXWAITERS => 152,
            WinError::ERROR_INVALID_LIST_FORMAT => 153,
            WinError::ERROR_LABEL_TOO_LONG => 154,
            WinError::ERROR_TOO_MANY_TCBS => 155,
            WinError::ERROR_SIGNAL_REFUSED => 156,
            WinError::ERROR_DISCARDED => 157,
            WinError::ERROR_NOT_LOCKED => 158,
            WinError::ERROR_BAD_THREADID_ADDR => 159,
            WinError::ERROR_BAD_ARGUMENTS => 160,
            WinError::ERROR_BAD_PATHNAME => 161,
            WinError::ERROR_BUSY => 170,
        }
    }

    /// The text that describes the error.
    pub fn desc(self) -> (res: &'static str)
        ensures
            res == desc_of(self),
    {
        match self {
            WinError::UnknownError => " Unknown error occurred.",
            WinError::ERROR_SUCCESS => " The operation completed successfully.",
            WinError::ERROR_INVALID_FUNCTION => " Incorrect function.",
            WinError::ERROR_FILE_NOT_FOUND => " The system cannot find the file specified.",
            WinError::ERROR_PATH_NOT_FOUND => " The system cannot find the path specified.",
            WinError::ERROR_TOO_MANY_OPEN_FILES => " The system cannot open the file.",
            WinError::ERROR_ACCESS_DENIED => " Access is denied.",
            WinError::ERROR_INVALID_HANDLE => " The handle is invalid.",
            WinError::ERROR_ARENA_TRASHED => " The storage control blocks were destroyed.",
            WinError::ERROR_NOT_ENOUGH_MEMORY => " Not enough storage is available to process this command.",
            WinError::ERROR_INVALID_BLOCK => " The storage control block address is invalid.",
            WinError::ERROR_BAD_ENVIRONMENT => " The environment is incorrect.",
            WinError::ERROR_BAD_FORMAT => " An attempt was made to load a program with an incorrect format.",
            WinError::ERROR_INVALID_ACCESS => " The access code is invalid.",
            WinError::ERROR_INVALID_DATA => " The data is invalid.",
            WinError::ERROR_OUTOFMEMORY => " Not enough storage is available to complete this operation.",
            WinError::ERROR_INVALID_DRIVE => " The system cannot find the drive specified.",
            WinError::ERROR_CURRENT_DIRECTORY => " The directory cannot be removed.",
            WinError::ERROR_NOT_SAME_DEVICE => " The system cannot move the file to a different disk drive.",
            WinError::ERROR_NO_MORE_FILES => " There are no more files.",
            WinError::ERROR_WRITE_PROTECT => " The media is write-protected.",
            WinError::ERROR_BAD_UNIT => " The system cannot find the device specified.",
            WinError::ERROR_NOT_READY => " The device is not ready.",
            WinError::ERROR_BAD_COMMAND => " The device does not recognize the command.",
            WinError::ERROR_CRC => " Data error (cyclic redundancy check).",
            WinError::ERROR_BAD_LENGTH => " The program issued a command but the command length is incorrect.",
            WinError::ERROR_SEEK => " The drive cannot locate a specific area or track on the disk.",
            WinError::ERROR_NOT_DOS_DISK => " The specified disk cannot be accessed.",
            WinError::ERROR_SECTOR_NOT_FOUND => " The drive cannot find the sector requested.",
            WinError::ERROR_OUT_OF_PAPER => " The printer is out of paper.",
            WinError::ERROR_WRITE_FAULT => " The system cannot write to the specified device.",
            WinError::ERROR_READ_FAULT => " The system cannot read from the specified device.",
            WinError::ERROR_GEN_FAILURE => " A device attached to the system is not functioning.",
            WinError::ERROR_SHARING_VIOLATION => " The process cannot access the file because it is being used by another process.",
            WinError::ERROR_LOCK_VIOLATION => " The process cannot access the file because another process has locked a portion of the file.",
            WinError::ERROR_WRONG_DISK => " The wrong disk is in the drive. Insert %2 (Volume Serial Number: %3) into drive %1.",
            WinError::ERROR_SHARING_BUFFER_EXCEEDED => " Too many files opened for sharing.",
            WinError::ERROR_HANDLE_EOF => " Reached the end of the file.",
            WinError::ERROR_HANDLE_DISK_FULL => " The disk is full.",
            WinError::ERROR_NOT_SUPPORTED => " The request is not supported.",
            WinError::ERROR_REM_NOT_LIST => " Windows cannot find the network path.",
            WinError::ERROR_DUP_NAME => " You were not connected because a duplicate name exists on the network.",
            WinError::ERROR_BAD_NETPATH => " The network path was not found.",
            WinError::ERROR_NETWORK_BUSY => " The network is busy.",
            WinError::ERROR_DEV_NOT_EXIST => " The specified network resource or device is no longer available.",
            WinError::ERROR_TOO_MANY_CMDS => " The network BIOS command limit has been reached.",
            WinError::ERROR_ADAP_HDW_ERR => " A network adapter hardware error occurred.",
            WinError::ERROR_BAD_NET_RESP => " The specified server cannot perform the requested operation.",
            WinError::ERROR_UNEXP_NET_ERR => " An unexpected network error occurred.",
            WinError::ERROR_BAD_REM_ADAP => " The remote adapter is not compatible.",
            WinError::ERROR_PRINTQ_FULL => " The print queue is full.",
            WinError::ERROR_NO_SPOOL_SPACE => " Space to store the file waiting to be printed is not available on the server.",
            WinError::ERROR_PRINT_CANCELLED => " Your file waiting to be printed was deleted.",
            WinError::ERROR_NETNAME_DELETED => " The specified network name is no longer available.",
            WinError::ERROR_NETWORK_ACCESS_DENIED => " Network access is denied.",
            WinError::ERROR_BAD_DEV_TYPE => " The network resource type is not correct.",
            WinError::ERROR_BAD_NET_NAME => " The network name cannot be found.",
            WinError::ERROR_TOO_MANY_NAMES => " The name limit for the local computer network adapter card was exceeded.",
            WinError::ERROR_TOO_MANY_SESS => " The network BIOS session limit was exceeded.",
            WinError::ERROR_SHARING_PAUSED => " The remote server has been paused or is in the process of being started.",
            WinError::ERROR_REQ_NOT_ACCEP => " No more connections can be made to this remote computer at this time because the computer has accepted the maximum number of connections.",
            WinError::ERROR_REDIR_PAUSED => " The specified printer or disk device has been paused.",
            WinError::ERROR_FILE_EXISTS => " The file exists.",
            WinError::ERROR_CANNOT_MAKE => " The directory or file cannot be created.",
            WinError::ERROR_FAIL_I24 => " Fail on INT 24.",
            WinError::ERROR_OUT_OF_STRUCTURES => " Storage to process this request is not available.",
            WinError::ERROR_ALREADY_ASSIGNED => " The local device name is already in use.",
            WinError::ERROR_INVALID_PASSWORD => " The specified network password is not correct.",
            WinError::ERROR_INVALID_PARAMETER => " The parameter is incorrect.",
            WinError::ERROR_NET_WRITE_FAULT => " A write fault occurred on the network.",
            WinError::ERROR_NO_PROC_SLOTS => " The system cannot start another process at this time.",
            WinError::ERROR_TOO_MANY_SEMAPHORES => " Cannot create another system semaphore.",
            WinError::ERROR_EXCL_SEM_ALREADY_OWNED => " Cannot create another system semaphore.",
            WinError::ERROR_SEM_IS_SET => " The semaphore is set and cannot be closed.",
            WinError::ERROR_TOO_MANY_SEM_REQUESTS => " The semaphore cannot be set again.",
            WinError::ERROR_INVALID_AT_INTERRUPT_TIME => " Cannot request exclusive semaphores at interrupt time.",
            WinError::ERROR_SEM_OWNER_DIED => " The previous ownership of this semaphore has ended.",
            WinError::ERROR_SEM_USER_LIMIT => " Insert the disk for drive %1.",
            WinError::ERROR_DISK_CHANGE => " The program stopped because an alternate disk was not inserted.",
            WinError::ERROR_DRIVE_LOCKED => " The disk is in use or locked by another process.",
            WinError::ERROR_BROKEN_PIPE => " The pipe has been ended.",
            WinError::ERROR_OPEN_FAILED => " The system cannot open the device or file specified.",
            WinError::ERROR_BUFFER_OVERFLOW => " The file name is too long.",
            WinError::ERROR_DISK_FULL => " There is not enough space on the disk.",
            WinError::ERROR_NO_MORE_SEARCH_HANDLES => " No more internal file identifiers are available.",
            WinError::ERROR_INVALID_TARGET_HANDLE => " The target internal file identifier is incorrect.",
            WinError::ERROR_INVALID_CATEGORY => " The Input Output Control (IOCTL) call made by the application program is not correct.",
            WinError::ERROR_INVALID_VERIFY_SWITCH => " The verify-on-write switch parameter value is not correct.",
            WinError::ERROR_BAD_DRIVER_LEVEL => " The system does not support the command requested.",
            WinError::ERROR_CALL_NOT_IMPLEMENTED => " This function is not supported on this system.",
            WinError::ERROR_SEM_TIMEOUT => " The semaphore time-out period has expired.",
            WinError::ERROR_INSUFFICIENT_BUFFER => " The data area passed to a system call is too small.",
            WinError::ERROR_INVALID_NAME => " The file name, directory name, or volume label syntax is incorrect.",
            WinError::ERROR_INVALID_LEVEL => " The system call level is not correct.",
            WinError::ERROR_NO_VOLUME_LABEL => " The disk has no volume label.",
            WinError::ERROR_MOD_NOT_FOUND => " The specified module could not be found.",
            WinError::ERROR_PROC_NOT_FOUND => " The specified procedure could not be found.",
            WinError::ERROR_WAIT_NO_CHILDREN => " There are no child processes to wait for.",
            WinError::ERROR_CHILD_NOT_COMPLETE => " The %1 application cannot be run in Win32 mode.",
            WinError::ERROR_DIRECT_ACCESS_HANDLE => " Attempt to use a file handle to an open disk partition for an operation other than raw disk I/O.",
            WinError::ERROR_NEGATIVE_SEEK => " An attempt was made to move the file pointer before the beginning of the file.",
            WinError::ERROR_SEEK_ON_DEVICE => " The file pointer cannot be set on the specified device or file.",
            WinError::ERROR_IS_JOIN_TARGET => " A JOIN or SUBST command cannot be used for a drive that contains previously joined drives.",
            WinError::ERROR_IS_JOINED => " An attempt was made to use a JOIN or SUBST command on a drive that has already been joined.",
            WinError::ERROR_IS_SUBSTED => " An attempt was made to use a JOIN or SUBST command on a drive that has already been substituted.",
            WinError::ERROR_NOT_JOINED => " The system tried to delete the JOIN of a drive that is not joined.",
            WinError::ERROR_NOT_SUBSTED => " The system tried to delete the substitution of a drive that is not substituted.",
            WinError::ERROR_JOIN_TO_JOIN => " The system tried to join a drive to a directory on a joined drive.",
            WinError::ERROR_SUBST_TO_SUBST => " The system tried to substitute a drive to a directory on a substituted drive.",
            WinError::ERROR_JOIN_TO_SUBST => " The system tried to join a drive to a directory on a substituted drive.",
            WinError::ERROR_SUBST_TO_JOIN => " The system tried to SUBST a drive to a directory on a joined drive.",
            WinError::ERROR_BUSY_DRIVE => " The system cannot perform a JOIN or SUBST at this time.",
            WinError::ERROR_SAME_DRIVE => " The system cannot join or substitute a drive to or for a directory on the same drive.",
            WinError::ERROR_DIR_NOT_ROOT => " The directory is not a subdirectory of the root directory.",
            WinError::ERROR_DIR_NOT_EMPTY => " The directory is not empty.",
            WinError::ERROR_IS_SUBST_PATH => " The path specified is being used in a substitute.",
            WinError::ERROR_IS_JOIN_PATH => " Not enough resources are available to process this command.",
            WinError::ERROR_PATH_BUSY => " The path specified cannot be used at this time.",
            WinError::ERROR_IS_SUBST_TARGET => " An attempt was made to join or substitute a drive for which a directory on the drive is the target of a previous substitute.",
            WinError::ERROR_SYSTEM_TRACE => " System trace information was not specified in your CONFIG.SYS file, or tracing is disallowed.",
            WinError::ERROR_INVALID_EVENT_COUNT => " The number of specified semaphore events for DosMuxSemWait is not correct.",
            WinError::ERROR_TOO_MANY_MUXWAITERS => " DosMuxSemWait did not execute; too many semaphores are already set.",
            WinError::ERROR_INVALID_LIST_FORMAT => " The DosMuxSemWait list is not correct.",
            WinError::ERROR_LABEL_TOO_LONG => " The volume label you entered exceeds the label character limit of the destination file system.",
            WinError::ERROR_TOO_MANY_TCBS => " Cannot create another thread.",
            WinError::ERROR_SIGNAL_REFUSED => " The recipient process has refused the signal.",
            WinError::ERROR_DISCARDED => " The segment is already discarded and cannot be locked.",
            WinError::ERROR_NOT_LOCKED => " The segment is already unlocked.",
            WinError::ERROR_BAD_THREADID_ADDR => " The address for the thread ID is not correct.",
            WinError::ERROR_BAD_ARGUMENTS => " One or more arguments are not correct.",
            WinError::ERROR_BAD_PATHNAME => " The specified path is invalid.",
            WinError::ERROR_BUSY => " The requested resource is in use.",
        }
    }
}

/// Every named error is found again by its number.
pub proof fn lemma_from_code_round_trip(err: WinError)
    requires
        err != WinError::UnknownError,
    ensures
        is_known_code(code_of(err)),
        forall|other: WinError|
            other != WinError::UnknownError && code_of(other) == code_of(err) ==> other == err,
{
}

} // verus!
