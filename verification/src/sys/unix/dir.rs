//! Directory entries of a Unix host.

use crate::host;
use vstd::prelude::*;

verus! {

pub const DT_UNKNOWN: u8 = 0;

pub const DT_FIFO: u8 = 1;

pub const DT_CHR: u8 = 2;

pub const DT_DIR: u8 = 4;

pub const DT_BLK: u8 = 6;

pub const DT_REG: u8 = 8;

pub const DT_LNK: u8 = 10;

pub const DT_SOCK: u8 = 12;

/// The type of a directory entry, where the host knows it.
#[derive(Copy, Clone, Debug, PartialEq, Eq, Structural, Hash)]
pub enum Type {
    Fifo,
    CharacterDevice,
    Directory,
    BlockDevice,
    File,
    Symlink,
    Socket,
}

/// The type that the `d_type` of a directory entry stands for.
pub open spec fn type_of_d_type(d_type: u8) -> Option<Type> {
    if d_type == DT_FIFO {
        Some(Type::Fifo)
    } else if d_type == DT_CHR {
        Some(Type::CharacterDevice)
    } else if d_type == DT_DIR {
        Some(Type::Directory)
    } else if d_type == DT_BLK {
        Some(Type::BlockDevice)
    } else if d_type == DT_REG {
        Some(Type::File)
    } else if d_type == DT_LNK {
        Some(Type::Symlink)
    } else if d_type == DT_SOCK {
        Some(Type::Socket)
    } else {
        None
    }
}

/// The WASI file type of a directory entry. A pipe, a socket and an entry of
/// a type that the host does not know are all unknown.
pub open spec fn filetype_of(t: Option<Type>) -> host::__wasi_filetype_t {
    match t {
        Some(Type::BlockDevice) => host::__WASI_FILETYPE_BLOCK_DEVICE,
        Some(Type::CharacterDevice) => host::__WASI_FILETYPE_CHARACTER_DEVICE,
        Some(Type::Directory) => host::__WASI_FILETYPE_DIRECTORY,
        Some(Type::File) => host::__WASI_FILETYPE_REGULAR_FILE,
        Some(Type::Symlink) => host::__WASI_FILETYPE_SYMBOLIC_LINK,
        _ => host::__WASI_FILETYPE_UNKNOWN,
    }
}

/// The type of a directory entry with the given `d_type`, if known.
pub fn file_type(d_type: u8) -> (res: Option<Type>)
    ensures
        res == type_of_d_type(d_type),
{
    match d_type {
        1 => Some(Type::Fifo),
        2 => Some(Type::CharacterDevice),
        4 => Some(Type::Directory),
        6 => Some(Type::BlockDevice),
        8 => Some(Type::File),
        10 => Some(Type::Symlink),
        12 => Some(Type::Socket),
        _ => None,
    }
}

/// The WASI file type of a directory entry of type `t`.
pub fn into_filetype(t: Option<Type>) -> (res: host::__wasi_filetype_t)
    ensures
        res == filetype_of(t),
{
    let t = match t {
        Some(t) => t,
        None => {
            return host::__WASI_FILETYPE_UNKNOWN;
        },
    };
    match t {
        Type::BlockDevice => host::__WASI_FILETYPE_BLOCK_DEVICE,
        Type::CharacterDevice => host::__WASI_FILETYPE_CHARACTER_DEVICE,
        Type::Directory => host::__WASI_FILETYPE_DIRECTORY,
        Type::File => host::__WASI_FILETYPE_REGULAR_FILE,
        Type::Symlink => host::__WASI_FILETYPE_SYMBOLIC_LINK,
        _ => host::__WASI_FILETYPE_UNKNOWN,
    }
}

/// A place in a directory listing, as the host counts it.
#[derive(Clone, Copy, Debug, PartialEq, Eq, Structural)]
pub struct SeekLoc(pub i64);

impl SeekLoc {
    pub fn from_raw(loc: i64) -> (res: SeekLoc)
        ensures
            res.0 == loc,
    {
        SeekLoc(loc)
    }

    pub fn to_raw(&self) -> (res: i64)
        ensures
            res == self.0,
    {
        self.0
    }
}

} // verus!
