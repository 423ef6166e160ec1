//! Descriptors: what one entry of the descriptor table holds.

use crate::host;
use vstd::prelude::*;

verus! {

/// Names a resource that the host adapter holds open. The library never looks
/// inside: it only hands the token back with the request it decided on.
#[derive(Clone, Copy, Debug, PartialEq, Eq, Structural, Hash)]
pub struct OsHandle(pub u64);

/// What the host adapter found a handle to be.
#[derive(Clone, Copy, Debug, PartialEq, Eq, Structural, Hash)]
pub enum HostFileKind {
    BlockDevice,
    /// A character device that is no terminal.
    CharacterDevice,
    /// A terminal or console.
    Terminal,
    Directory,
    RegularFile,
    SocketDgram,
    SocketStream,
    /// A pipe without socket semantics.
    Fifo,
    /// Anything else.
    Unknown,
}

/// A host handle together with what the adapter learned about it.
#[derive(Clone, Copy, Debug, PartialEq, Eq, Structural, Hash)]
pub struct HostFile {
    pub handle: OsHandle,
    pub kind: HostFileKind,
    /// The handle was opened for reading.
    pub readable: bool,
    /// The handle was opened for writing.
    pub writable: bool,
}

/// File type and the most rights (base, inheriting) a handle of `kind` can
/// carry; `None` for a kind that cannot be a descriptor.
pub open spec fn type_rights(kind: HostFileKind) -> Option<
    (host::__wasi_filetype_t, host::__wasi_rights_t, host::__wasi_rights_t),
> {
    match kind {
        HostFileKind::BlockDevice => Some(
            (
                host::__WASI_FILETYPE_BLOCK_DEVICE,
                host::RIGHTS_BLOCK_DEVICE_BASE,
                host::RIGHTS_BLOCK_DEVICE_INHERITING,
            ),
        ),
        HostFileKind::CharacterDevice => Some(
            (
                host::__WASI_FILETYPE_CHARACTER_DEVICE,
                host::RIGHTS_CHARACTER_DEVICE_BASE,
                host::RIGHTS_CHARACTER_DEVICE_INHERITING,
            ),
        ),
        HostFileKind::Terminal => Some(
            (host::__WASI_FILETYPE_CHARACTER_DEVICE, host::RIGHTS_TTY_BASE, host::RIGHTS_TTY_BASE),
        ),
        HostFileKind::Directory => Some(
            (
                host::__WASI_FILETYPE_DIRECTORY,
                host::RIGHTS_DIRECTORY_BASE,
                host::RIGHTS_DIRECTORY_INHERITING,
            ),
        ),
        HostFileKind::RegularFile => Some(
            (
                host::__WASI_FILETYPE_REGULAR_FILE,
                host::RIGHTS_REGULAR_FILE_BASE,
                host::RIGHTS_REGULAR_FILE_INHERITING,
            ),
        ),
        HostFileKind::SocketDgram => Some(
            (
                host::__WASI_FILETYPE_SOCKET_DGRAM,
                host::RIGHTS_SOCKET_BASE,
                host::RIGHTS_SOCKET_INHERITING,
            ),
        ),
        HostFileKind::SocketStream => Some(
            (
                host::__WASI_FILETYPE_SOCKET_STREAM,
                host::RIGHTS_SOCKET_BASE,
                host::RIGHTS_SOCKET_INHERITING,
            ),
        ),
        HostFileKind::Fifo => Some(
            (
                host::__WASI_FILETYPE_UNKNOWN,
                host::RIGHTS_REGULAR_FILE_BASE,
                host::RIGHTS_REGULAR_FILE_INHERITING,
            ),
        ),
        HostFileKind::Unknown => None,
    }
}

/// The file type of a handle and the rights that do not contradict it.
/// A kind that cannot be a descriptor is `EINVAL`.
pub fn determine_type_rights(kind: HostFileKind) -> (res: Result<
    (host::__wasi_filetype_t, host::__wasi_rights_t, host::__wasi_rights_t),
    host::__wasi_errno_t,
>)
    ensures
        match type_rights(kind) {
            Some(t) => res == Ok::<_, host::__wasi_errno_t>(t),
            None => res == Err::<
                (host::__wasi_filetype_t, host::__wasi_rights_t, host::__wasi_rights_t),
                _,
            >(host::__WASI_EINVAL),
        },
{
    match kind {
        HostFileKind::BlockDevice => Ok(
            (
                host::__WASI_FILETYPE_BLOCK_DEVICE,
                host::RIGHTS_BLOCK_DEVICE_BASE,
                host::RIGHTS_BLOCK_DEVICE_INHERITING,
            ),
        ),
        HostFileKind::CharacterDevice => Ok(
            (
                host::__WASI_FILETYPE_CHARACTER_DEVICE,
                host::RIGHTS_CHARACTER_DEVICE_BASE,
                host::RIGHTS_CHARACTER_DEVICE_INHERITING,
            ),
        ),
        HostFileKind::Terminal => Ok(
            (host::__WASI_FILETYPE_CHARACTER_DEVICE, host::RIGHTS_TTY_BASE, host::RIGHTS_TTY_BASE),
        ),
        HostFileKind::Directory => Ok(
            (
                host::__WASI_FILETYPE_DIRECTORY,
                host::RIGHTS_DIRECTORY_BASE,
                host::RIGHTS_DIRECTORY_INHERITING,
            ),
        ),
        HostFileKind::RegularFile => Ok(
            (
                host::__WASI_FILETYPE_REGULAR_FILE,
                host::RIGHTS_REGULAR_FILE_BASE,
                host::RIGHTS_REGULAR_FILE_INHERITING,
            ),
        ),
        HostFileKind::SocketDgram => Ok(
            (
                host::__WASI_FILETYPE_SOCKET_DGRAM,
                host::RIGHTS_SOCKET_BASE,
                host::RIGHTS_SOCKET_INHERITING,
            ),
        ),
        HostFileKind::SocketStream => Ok(
            (
                host::__WASI_FILETYPE_SOCKET_STREAM,
                host::RIGHTS_SOCKET_BASE,
                host::RIGHTS_SOCKET_INHERITING,
            ),
        ),
        HostFileKind::Fifo => Ok(
            (
                host::__WASI_FILETYPE_UNKNOWN,
                host::RIGHTS_REGULAR_FILE_BASE,
                host::RIGHTS_REGULAR_FILE_INHERITING,
            ),
        ),
        HostFileKind::Unknown => Err(host::__WASI_EINVAL),
    }
}

/// `base` without the right to read where the handle cannot be read, and
/// without the right to write where it cannot be written.
pub open spec fn access_trimmed(
    base: host::__wasi_rights_t,
    readable: bool,
    writable: bool,
) -> host::__wasi_rights_t {
    let r = if readable {
        base
    } else {
        base & !host::__WASI_RIGHT_FD_READ
    };
    if writable {
        r
    } else {
        r & !host::__WASI_RIGHT_FD_WRITE
    }
}

/// As `determine_type_rights`, with the base rights cut down to the access
/// mode the handle was opened with.
pub fn determine_type_and_access_rights(file: &HostFile) -> (res: Result<
    (host::__wasi_filetype_t, host::__wasi_rights_t, host::__wasi_rights_t),
    host::__wasi_errno_t,
>)
    ensures
        match type_rights(file.kind) {
            Some(t) => res == Ok::<_, host::__wasi_errno_t>(
                (t.0, access_trimmed(t.1, file.readable, file.writable), t.2),
            ),
            None => res == Err::<
                (host::__wasi_filetype_t, host::__wasi_rights_t, host::__wasi_rights_t),
                _,
            >(host::__WASI_EINVAL),
        },
{
    match determine_type_rights(file.kind) {
        Ok((file_type, base, inheriting)) => {
            let mut rights_base: host::__wasi_rights_t = base;
            if !file.readable {
                rights_base = rights_base & !host::__WASI_RIGHT_FD_READ;
            }
            if !file.writable {
                rights_base = rights_base & !host::__WASI_RIGHT_FD_WRITE;
            }
            Ok((file_type, rights_base, inheriting))
        },
        Err(e) => Err(e),
    }
}

/// What stands behind a descriptor.
#[derive(Clone, Copy, Debug, PartialEq, Eq, Structural, Hash)]
pub enum Descriptor {
    File(OsHandle),
    Directory(OsHandle),
    Stdin,
    Stdout,
    Stderr,
}

impl Descriptor {
    /// The host handle, where the descriptor has one of its own.
    pub open spec fn handle(self) -> Option<OsHandle> {
        match self {
            Descriptor::File(h) => Some(h),
            Descriptor::Directory(h) => Some(h),
            _ => None,
        }
    }

    /// The host handle of a file or directory; a standard stream is `EBADF`.
    pub fn as_file(&self) -> (res: Result<OsHandle, host::__wasi_errno_t>)
        ensures
            match self.handle() {
                Some(h) => res == Ok::<_, host::__wasi_errno_t>(h),
                None => res == Err::<OsHandle, _>(host::__WASI_EBADF),
            },
    {
        match self {
            Descriptor::File(file) => Ok(*file),
            Descriptor::Directory(dir) => Ok(*dir),
            _ => Err(host::__WASI_EBADF),
        }
    }

    /// Whether a host file or directory stands behind the descriptor.
    pub fn is_file(&self) -> (res: bool)
        ensures
            res == self.handle().is_some(),
    {
        match self {
            Descriptor::File(_) => true,
            Descriptor::Directory(_) => true,
            _ => false,
        }
    }

    pub fn is_stdin(&self) -> (res: bool)
        ensures
            res == (*self == Descriptor::Stdin),
    {
        match self {
            Descriptor::Stdin => true,
            _ => false,
        }
    }

    pub fn is_stdout(&self) -> (res: bool)
        ensures
            res == (*self == Descriptor::Stdout),
    {
        match self {
            Descriptor::Stdout => true,
            _ => false,
        }
    }

    pub fn is_stderr(&self) -> (res: bool)
        ensures
            res == (*self == Descriptor::Stderr),
    {
        match self {
            Descriptor::Stderr => true,
            _ => false,
        }
    }
}

/// One entry of the descriptor table.
#[derive(Clone, Debug)]
pub struct FdEntry {
    pub file_type: host::__wasi_filetype_t,
    pub descriptor: Descriptor,
    /// Rights the descriptor may exercise itself.
    pub rights_base: host::__wasi_rights_t,
    /// Rights that descriptors opened through this one may carry.
    pub rights_inheriting: host::__wasi_rights_t,
    /// The guest-visible path, set exactly for a preopened root.
    pub preopen_path: Option<Vec<u8>>,
    /// Whether the table owns the host handle and has to release it.
    pub needs_close: bool,
}

/// An entry as a mathematical value.
pub struct FdEntryView {
    pub file_type: host::__wasi_filetype_t,
    pub descriptor: Descriptor,
    pub rights_base: host::__wasi_rights_t,
    pub rights_inheriting: host::__wasi_rights_t,
    pub preopen_path: Option<Seq<u8>>,
    pub needs_close: bool,
}

impl FdEntryView {
    /// A directory descriptor, and only that, has the directory file type.
    pub open spec fn wf(self) -> bool {
        (self.descriptor is Directory) <==> (self.file_type == host::__WASI_FILETYPE_DIRECTORY)
    }

    /// The entry grants `rights_base` itself and `rights_inheriting` to what
    /// is opened through it.
    pub open spec fn grants(
        self,
        rights_base: host::__wasi_rights_t,
        rights_inheriting: host::__wasi_rights_t,
    ) -> bool {
        host::rights_within(rights_base, self.rights_base) && host::rights_within(
            rights_inheriting,
            self.rights_inheriting,
        )
    }

    pub open spec fn is_preopen(self) -> bool {
        self.preopen_path.is_some()
    }
}

impl View for FdEntry {
    type V = FdEntryView;

    open spec fn view(&self) -> FdEntryView {
        FdEntryView {
            file_type: self.file_type,
            descriptor: self.descriptor,
            rights_base: self.rights_base,
            rights_inheriting: self.rights_inheriting,
            preopen_path: match self.preopen_path {
                Some(p) => Some(p@),
                None => None,
            },
            needs_close: self.needs_close,
        }
    }
}

/// The descriptor kind that goes with a file type.
pub open spec fn descriptor_for(file_type: host::__wasi_filetype_t, handle: OsHandle) -> Descriptor {
    if file_type == host::__WASI_FILETYPE_DIRECTORY {
        Descriptor::Directory(handle)
    } else {
        Descriptor::File(handle)
    }
}

/// The entry that `FdEntry::from` makes of a host file of a usable kind.
pub open spec fn entry_of(file: HostFile) -> FdEntryView
    recommends
        type_rights(file.kind).is_some(),
{
    let t = type_rights(file.kind).unwrap();
    FdEntryView {
        file_type: t.0,
        descriptor: descriptor_for(t.0, file.handle),
        rights_base: access_trimmed(t.1, file.readable, file.writable),
        rights_inheriting: t.2,
        preopen_path: None,
        needs_close: true,
    }
}

/// The entry of a standard stream of a usable kind: as `entry_of`, but behind
/// it stands the stream instead of a handle.
pub open spec fn stdio_entry_of(stream: Descriptor, file: HostFile) -> FdEntryView
    recommends
        type_rights(file.kind).is_some(),
{
    let t = type_rights(file.kind).unwrap();
    FdEntryView {
        file_type: t.0,
        descriptor: stream,
        rights_base: access_trimmed(t.1, file.readable, file.writable),
        rights_inheriting: t.2,
        preopen_path: None,
        needs_close: true,
    }
}

impl FdEntry {
    /// An entry that owns `file`, with the rights its kind and access mode
    /// allow. A kind that cannot be a descriptor is `EINVAL`.
    pub fn from(file: HostFile) -> (res: Result<FdEntry, host::__wasi_errno_t>)
        ensures
            match type_rights(file.kind) {
                Some(_) => res.is_ok() && res.unwrap()@ == entry_of(file) && res.unwrap()@.wf(),
                None => res.is_err() && res.unwrap_err() == host::__WASI_EINVAL,
            },
    {
        match determine_type_and_access_rights(&file) {
            Ok((file_type, rights_base, rights_inheriting)) => {
                let descriptor = if file_type == host::__WASI_FILETYPE_DIRECTORY {
                    Descriptor::Directory(file.handle)
                } else {
                    Descriptor::File(file.handle)
                };
                Ok(
                    FdEntry {
                        file_type,
                        descriptor,
                        rights_base,
                        rights_inheriting,
                        preopen_path: None,
                        needs_close: true,
                    },
                )
            },
            Err(e) => Err(e),
        }
    }

    /// The entry of standard input, given what the host found it to be.
    pub fn duplicate_stdin(file: HostFile) -> (res: Result<FdEntry, host::__wasi_errno_t>)
        ensures
            match type_rights(file.kind) {
                Some(_) => res.is_ok() && res.unwrap()@ == stdio_entry_of(Descriptor::Stdin, file),
                None => res.is_err() && res.unwrap_err() == host::__WASI_EINVAL,
            },
    {
        Self::stdio(Descriptor::Stdin, file)
    }

    /// The entry of standard output, given what the host found it to be.
    pub fn duplicate_stdout(file: HostFile) -> (res: Result<FdEntry, host::__wasi_errno_t>)
        ensures
            match type_rights(file.kind) {
                Some(_) => res.is_ok() && res.unwrap()@ == stdio_entry_of(Descriptor::Stdout, file),
                None => res.is_err() && res.unwrap_err() == host::__WASI_EINVAL,
            },
    {
        Self::stdio(Descriptor::Stdout, file)
    }

    /// The entry of standard error, given what the host found it to be.
    pub fn duplicate_stderr(file: HostFile) -> (res: Result<FdEntry, host::__wasi_errno_t>)
        ensures
            match type_rights(file.kind) {
                Some(_) => res.is_ok() && res.unwrap()@ == stdio_entry_of(Descriptor::Stderr, file),
                None => res.is_err() && res.unwrap_err() == host::__WASI_EINVAL,
            },
    {
        Self::stdio(Descriptor::Stderr, file)
    }

    fn stdio(stream: Descriptor, file: HostFile) -> (res: Result<FdEntry, host::__wasi_errno_t>)
        ensures
            match type_rights(file.kind) {
                Some(_) => res.is_ok() && res.unwrap()@ == stdio_entry_of(stream, file),
                None => res.is_err() && res.unwrap_err() == host::__WASI_EINVAL,
            },
    {
        match determine_type_and_access_rights(&file) {
            Ok((file_type, rights_base, rights_inheriting)) => Ok(
                FdEntry {
                    file_type,
                    descriptor: stream,
                    rights_base,
                    rights_inheriting,
                    preopen_path: None,
                    needs_close: true,
                },
            ),
            Err(e) => Err(e),
        }
    }

    /// The descriptor, if the entry grants the rights asked for; else
    /// `ENOTCAPABLE`.
    pub fn as_descriptor(
        &self,
        rights_base: host::__wasi_rights_t,
        rights_inheriting: host::__wasi_rights_t,
    ) -> (res: Result<&Descriptor, host::__wasi_errno_t>)
        ensures
            self@.grants(rights_base, rights_inheriting) ==> res.is_ok() && *res.unwrap()
                == self.descriptor,
            !self@.grants(rights_base, rights_inheriting) ==> res.is_err() && res.unwrap_err()
                == host::__WASI_ENOTCAPABLE,
    {
        match self.validate_rights(rights_base, rights_inheriting) {
            Ok(()) => Ok(&self.descriptor),
            Err(e) => Err(e),
        }
    }

    /// `Ok` if the entry grants the rights asked for, else `ENOTCAPABLE`.
    pub fn validate_rights(
        &self,
        rights_base: host::__wasi_rights_t,
        rights_inheriting: host::__wasi_rights_t,
    ) -> (res: Result<(), host::__wasi_errno_t>)
        ensures
            self@.grants(rights_base, rights_inheriting) ==> res.is_ok(),
            !self@.grants(rights_base, rights_inheriting) ==> res.is_err() && res.unwrap_err()
                == host::__WASI_ENOTCAPABLE,
    {
        if rights_base & !self.rights_base != 0 || rights_inheriting & !self.rights_inheriting
            != 0 {
            Err(host::__WASI_ENOTCAPABLE)
        } else {
            Ok(())
        }
    }
}

} // verus!
