//! File types, creation dispositions, attributes and access rights of the
//! Windows API.
#![allow(non_camel_case_types)]

use crate::winx::winerror::WinError;
use vstd::prelude::*;

verus! {

/// Maximum total path length for Unicode in Windows.
pub const WIDE_MAX_PATH: u32 = 0x7fff;

pub const FILE_TYPE_UNKNOWN: u32 = 0x0000;

pub const FILE_TYPE_DISK: u32 = 0x0001;

pub const FILE_TYPE_CHAR: u32 = 0x0002;

pub const FILE_TYPE_PIPE: u32 = 0x0003;

/// The type of a file handle, as `GetFileType` reports it.
#[derive(Debug, Copy, Clone, PartialEq, Eq, Structural)]
pub struct FileType(pub u32);

impl FileType {
    /// Returns true if character device such as LPT device or console
    pub fn is_char(&self) -> (res: bool)
        ensures
            res == (self.0 == FILE_TYPE_CHAR),
    {
        self.0 == FILE_TYPE_CHAR
    }

    /// Returns true if disk device such as file or dir
    pub fn is_disk(&self) -> (res: bool)
        ensures
            res == (self.0 == FILE_TYPE_DISK),
    {
        self.0 == FILE_TYPE_DISK
    }

    /// Returns true if pipe device such as socket, named pipe or anonymous pipe
    pub fn is_pipe(&self) -> (res: bool)
        ensures
            res == (self.0 == FILE_TYPE_PIPE),
    {
        self.0 == FILE_TYPE_PIPE
    }

    /// Returns true if unknown device
    pub fn is_unknown(&self) -> (res: bool)
        ensures
            res == (self.0 == FILE_TYPE_UNKNOWN),
    {
        self.0 == FILE_TYPE_UNKNOWN
    }
}

/// The file type of a handle, given what `GetFileType` answered and the last
/// error after the call: an unknown type together with an error is that
/// error; everything else is the type.
pub fn get_file_type(raw_type: u32, last_error: WinError) -> (res: Result<FileType, WinError>)
    ensures
        raw_type == FILE_TYPE_UNKNOWN && last_error != WinError::ERROR_SUCCESS ==> res == Err::<
            FileType,
            _,
        >(last_error),
        !(raw_type == FILE_TYPE_UNKNOWN && last_error != WinError::ERROR_SUCCESS) ==> res == Ok::<
            _,
            WinError,
        >(FileType(raw_type)),
{
    let file_type = FileType(raw_type);
    if file_type.is_unknown() && last_error != WinError::ERROR_SUCCESS {
        Err(last_error)
    } else {
        Ok(file_type)
    }
}

/// What to do with a file that exists, and with one that does not.
#[derive(Debug, Clone, Copy, PartialEq, Eq, Structural)]
pub enum CreationDisposition {
    NO_DISPOSITION,
    /// Creates a new file, only if it does not already exist.
    CREATE_NEW,
    /// Creates a new file, always.
    CREATE_ALWAYS,
    /// Opens a file or device, only if it exists.
    OPEN_EXISTING,
    /// Opens a file, always.
    OPEN_ALWAYS,
    /// Opens a file and truncates it so that its size is zero bytes, only if
    /// it exists.
    TRUNCATE_EXISTING,
}

/// The number of a disposition.
pub open spec fn disposition_code(disp: CreationDisposition) -> u32 {
    match disp {
        CreationDisposition::NO_DISPOSITION => 0,
        CreationDisposition::CREATE_NEW => 1,
        CreationDisposition::CREATE_ALWAYS => 2,
        CreationDisposition::OPEN_EXISTING => 3,
        CreationDisposition::OPEN_ALWAYS => 4,
        CreationDisposition::TRUNCATE_EXISTING => 5,
    }
}

impl CreationDisposition {
    /// The disposition with the number `disp`; `NO_DISPOSITION` for a number
    /// that stands for none.
    pub fn from_u32(disp: u32) -> (res: CreationDisposition)
        ensures
            1 <= disp <= 5 ==> disposition_code(res) == disp,
            !(1 <= disp <= 5) ==> res == CreationDisposition::NO_DISPOSITION,
    {
        match disp {
            1 => CreationDisposition::CREATE_NEW,
            2 => CreationDisposition::CREATE_ALWAYS,
            3 => CreationDisposition::OPEN_EXISTING,
            4 => CreationDisposition::OPEN_ALWAYS,
            5 => CreationDisposition::TRUNCATE_EXISTING,
            _ => CreationDisposition::NO_DISPOSITION,
        }
    }

    /// The number of the disposition.
    pub fn code(self) -> (res: u32)
        ensures
            res == disposition_code(self),
    {
        match self {
            CreationDisposition::NO_DISPOSITION => 0,
            CreationDisposition::CREATE_NEW => 1,
            CreationDisposition::CREATE_ALWAYS => 2,
            CreationDisposition::OPEN_EXISTING => 3,
            CreationDisposition::OPEN_ALWAYS => 4,
            CreationDisposition::TRUNCATE_EXISTING => 5,
        }
    }
}

pub const FILE_ATTRIBUTE_READONLY: u32 = 0x0000_0001;

pub const FILE_ATTRIBUTE_HIDDEN: u32 = 0x0000_0002;

pub const FILE_ATTRIBUTE_SYSTEM: u32 = 0x0000_0004;

pub const FILE_ATTRIBUTE_ARCHIVE: u32 = 0x0000_0020;

pub const FILE_ATTRIBUTE_NORMAL: u32 = 0x0000_0080;

pub const FILE_ATTRIBUTE_TEMPORARY: u32 = 0x0000_0100;

pub const FILE_ATTRIBUTE_OFFLINE: u32 = 0x0000_1000;

pub const FILE_ATTRIBUTE_ENCRYPTED: u32 = 0x0000_4000;

pub const FILE_FLAG_OPEN_NO_RECALL: u32 = 0x0010_0000;

pub const FILE_FLAG_OPEN_REPARSE_POINT: u32 = 0x0020_0000;

pub const FILE_FLAG_SESSION_AWARE: u32 = 0x0080_0000;

pub const FILE_FLAG_POSIX_SEMANTICS: u32 = 0x0100_0000;

pub const FILE_FLAG_BACKUP_SEMANTICS: u32 = 0x0200_0000;

pub const FILE_FLAG_DELETE_ON_CLOSE: u32 = 0x0400_0000;

pub const FILE_FLAG_SEQUENTIAL_SCAN: u32 = 0x0800_0000;

pub const FILE_FLAG_RANDOM_ACCESS: u32 = 0x1000_0000;

pub const FILE_FLAG_NO_BUFFERING: u32 = 0x2000_0000;

pub const FILE_FLAG_OVERLAPPED: u32 = 0x4000_0000;

pub const FILE_FLAG_WRITE_THROUGH: u32 = 0x8000_0000;

/// Every attribute and flag that `FlagsAndAttributes` knows.
pub const FLAGS_AND_ATTRIBUTES_ALL: u32 = 0xffb0_51a7;

/// Attributes and flags of a file that is opened or created.
#[derive(Debug, Clone, Copy, PartialEq, Eq, Structural)]
pub struct FlagsAndAttributes {
    pub bits: u32,
}

impl FlagsAndAttributes {
    /// No flag at all.
    pub fn empty() -> (res: FlagsAndAttributes)
        ensures
            res.bits == 0,
    {
        FlagsAndAttributes { bits: 0 }
    }

    /// The flags of `bits` that are known; the others are dropped.
    pub fn from_bits_truncate(bits: u32) -> (res: FlagsAndAttributes)
        ensures
            res.bits == bits & FLAGS_AND_ATTRIBUTES_ALL,
    {
        FlagsAndAttributes { bits: bits & FLAGS_AND_ATTRIBUTES_ALL }
    }

    pub fn bits(&self) -> (res: u32)
        ensures
            res == self.bits,
    {
        self.bits
    }

    /// Whether every flag of `flags` is set.
    pub fn contains(&self, flags: u32) -> (res: bool)
        ensures
            res == (self.bits & flags == flags),
    {
        self.bits & flags == flags
    }

    /// Sets the flags of `flags`.
    pub fn insert(&mut self, flags: u32)
        ensures
            final(self).bits == old(self).bits | flags,
    {
        self.bits = self.bits | flags;
    }
}

pub const FILE_READ_DATA: u32 = 0x0001;

pub const FILE_WRITE_DATA: u32 = 0x0002;

pub const FILE_APPEND_DATA: u32 = 0x0004;

pub const FILE_READ_EA: u32 = 0x0008;

pub const FILE_WRITE_EA: u32 = 0x0010;

pub const FILE_TRAVERSE: u32 = 0x0020;

pub const FILE_DELETE_CHILD: u32 = 0x0040;

pub const FILE_READ_ATTRIBUTES: u32 = 0x0080;

pub const FILE_WRITE_ATTRIBUTES: u32 = 0x0100;

pub const DELETE: u32 = 0x0001_0000;

pub const READ_CONTROL: u32 = 0x0002_0000;

pub const WRITE_DAC: u32 = 0x0004_0000;

pub const WRITE_OWNER: u32 = 0x0008_0000;

pub const SYNCHRONIZE: u32 = 0x0010_0000;

pub const ACCESS_SYSTEM_SECURITY: u32 = 0x0100_0000;

pub const MAXIMUM_ALLOWED: u32 = 0x0200_0000;

pub const RESERVED1: u32 = 0x0400_0000;

pub const RESERVED2: u32 = 0x0800_0000;

pub const GENERIC_ALL: u32 = 0x1000_0000;

pub const GENERIC_EXECUTE: u32 = 0x2000_0000;

pub const GENERIC_WRITE: u32 = 0x4000_0000;

pub const GENERIC_READ: u32 = 0x8000_0000;

/// Read control, read data, read attributes, read extended attributes and
/// synchronize.
pub const FILE_GENERIC_READ: u32 = 0x0012_0089;

/// Read control, write data, write attributes, write extended attributes,
/// append data and synchronize.
pub const FILE_GENERIC_WRITE: u32 = 0x0012_0116;

/// Every access right that `AccessRight` knows.
pub const ACCESS_RIGHT_ALL: u32 = 0xff1f_01ff;

/// The access rights of a handle: an access mask.
#[derive(Debug, Clone, Copy, PartialEq, Eq, Structural)]
pub struct AccessRight {
    pub bits: u32,
}

impl AccessRight {
    /// No right at all.
    pub fn empty() -> (res: AccessRight)
        ensures
            res.bits == 0,
    {
        AccessRight { bits: 0 }
    }

    /// The rights of `bits` that are known; the others are dropped.
    pub fn from_bits_truncate(bits: u32) -> (res: AccessRight)
        ensures
            res.bits == bits & ACCESS_RIGHT_ALL,
    {
        AccessRight { bits: bits & ACCESS_RIGHT_ALL }
    }

    pub fn bits(&self) -> (res: u32)
        ensures
            res == self.bits,
    {
        self.bits
    }

    /// Whether every right of `rights` is held.
    pub fn contains(&self, rights: u32) -> (res: bool)
        ensures
            res == (self.bits & rights == rights),
    {
        self.bits & rights == rights
    }

    /// Adds the rights of `rights`.
    pub fn insert(&mut self, rights: u32)
        ensures
            final(self).bits == old(self).bits | rights,
    {
        self.bits = self.bits | rights;
    }
}

/// `s` as a wide string for the Windows API: with a NUL behind it.
pub fn str_to_wide(s: &Vec<u16>) -> (wide: Vec<u16>)
    ensures
        wide@ == s@.push(0u16),
{
    let mut win_unicode: Vec<u16> = s.clone();
    win_unicode.push(0);
    win_unicode
}

} // verus!
