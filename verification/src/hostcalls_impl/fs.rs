//! The file system calls: which rights each needs, what the host is asked to
//! do, and what becomes of its answer.
//!
//! A call on a descriptor starts with a function of its name, which looks
//! the descriptor up with the rights that the call needs and returns the
//! host handle to work on. A call on a path starts with a function of its
//! name too, which begins the resolution of the path (`fs_helpers`). What
//! the host then does is its own matter; where its answer needs a decision,
//! a second function takes the answer.

use crate::ctx::{lookup, WasiCtx};
use crate::fdentry::{
    entry_of, type_rights, Descriptor, FdEntry, FdEntryView, HostFile, OsHandle,
};
use crate::host;
use crate::hostcalls_impl::fs_helpers::{begins, path_get, resolution_start, PendingClone};
use crate::memory::{dirent_bytes, enc_dirent, lemma_dirent_bytes_len, DIRENT_SIZE};
use vstd::prelude::*;

verus! {

/// The host handle behind `fd`, looked up with the rights given: the errors
/// of the lookup, and `EBADF` for a standard stream.
pub open spec fn handle_lookup(
    fds: Map<host::__wasi_fd_t, FdEntry>,
    fd: host::__wasi_fd_t,
    rights_base: host::__wasi_rights_t,
    rights_inheriting: host::__wasi_rights_t,
) -> Result<OsHandle, host::__wasi_errno_t> {
    match lookup(fds, fd, rights_base, rights_inheriting) {
        Err(e) => Err(e),
        Ok(fe) => match fe.descriptor.handle() {
            Some(handle) => Ok(handle),
            None => Err(host::__WASI_EBADF),
        },
    }
}

fn file_handle(
    wasi_ctx: &WasiCtx,
    fd: host::__wasi_fd_t,
    rights_base: host::__wasi_rights_t,
    rights_inheriting: host::__wasi_rights_t,
) -> (res: Result<OsHandle, host::__wasi_errno_t>)
    ensures
        res == handle_lookup(wasi_ctx.fds(), fd, rights_base, rights_inheriting),
{
    match wasi_ctx.get_fd_entry(fd, rights_base, rights_inheriting) {
        Ok(fe) => fe.descriptor.as_file(),
        Err(e) => Err(e),
    }
}

/// The handle that the host has to release for an entry that left the table.
pub open spec fn handle_to_release(fe: FdEntry) -> Option<OsHandle> {
    if fe.needs_close {
        fe.descriptor.handle()
    } else {
        None
    }
}

fn release(fe: &FdEntry) -> (res: Option<OsHandle>)
    ensures
        res == handle_to_release(*fe),
{
    if fe.needs_close {
        match fe.descriptor {
            Descriptor::File(handle) => Some(handle),
            Descriptor::Directory(handle) => Some(handle),
            _ => None,
        }
    } else {
        None
    }
}

/// Closes `fd`: the entry leaves the table, and the handle returned, if any,
/// is the host's to close. An unknown descriptor is `EBADF`; a preopened
/// root is refused with `ENOTSUP` and stays.
pub fn fd_close(wasi_ctx: &mut WasiCtx, fd: host::__wasi_fd_t) -> (res: Result<
    Option<OsHandle>,
    host::__wasi_errno_t,
>)
    ensures
        final(wasi_ctx).args() == old(wasi_ctx).args(),
        final(wasi_ctx).env() == old(wasi_ctx).env(),
        match crate::ctx::removal(old(wasi_ctx).fds(), fd) {
            Ok(fe) => res == Ok::<_, host::__wasi_errno_t>(handle_to_release(fe)) && final(wasi_ctx).fds() == old(wasi_ctx).fds().remove(fd),
            Err(e) => res == Err::<Option<OsHandle>, _>(e) && final(wasi_ctx).fds() == old(wasi_ctx).fds(),
        },
{
    match wasi_ctx.remove_fd_entry(fd) {
        Ok(fe) => Ok(release(&fe)),
        Err(e) => Err(e),
    }
}

/// Renumbers `from` to `to`, as `WasiCtx::renumber` does; the handle
/// returned, if any, is that of the descriptor that `to` named before, and
/// the host's to close.
pub fn fd_renumber(
    wasi_ctx: &mut WasiCtx,
    from: host::__wasi_fd_t,
    to: host::__wasi_fd_t,
) -> (res: Result<Option<OsHandle>, host::__wasi_errno_t>)
    ensures
        final(wasi_ctx).args() == old(wasi_ctx).args(),
        final(wasi_ctx).env() == old(wasi_ctx).env(),
        match crate::ctx::renumber_refusal(old(wasi_ctx).fds(), from, to) {
            Some(e) => res == Err::<Option<OsHandle>, _>(e) && final(wasi_ctx).fds() == old(wasi_ctx).fds(),
            None => final(wasi_ctx).fds() == crate::ctx::renumbered(
                old(wasi_ctx).fds(),
                from,
                to,
            ) && res == Ok::<_, host::__wasi_errno_t>(
                if from == to {
                    None
                } else {
                    handle_to_release(old(wasi_ctx).fds()[to])
                },
            ),
        },
{
    match wasi_ctx.renumber(from, to) {
        Ok(Some(retired)) => Ok(release(&retired)),
        Ok(None) => Ok(None),
        Err(e) => Err(e),
    }
}

/// The handle to synchronise the data of; needs `FD_DATASYNC`.
pub fn fd_datasync(wasi_ctx: &WasiCtx, fd: host::__wasi_fd_t) -> (res: Result<
    OsHandle,
    host::__wasi_errno_t,
>)
    ensures
        res == handle_lookup(wasi_ctx.fds(), fd, host::__WASI_RIGHT_FD_DATASYNC, 0),
{
    file_handle(wasi_ctx, fd, host::__WASI_RIGHT_FD_DATASYNC, 0)
}

/// The handle to synchronise; needs `FD_SYNC`.
pub fn fd_sync(wasi_ctx: &WasiCtx, fd: host::__wasi_fd_t) -> (res: Result<
    OsHandle,
    host::__wasi_errno_t,
>)
    ensures
        res == handle_lookup(wasi_ctx.fds(), fd, host::__WASI_RIGHT_FD_SYNC, 0),
{
    file_handle(wasi_ctx, fd, host::__WASI_RIGHT_FD_SYNC, 0)
}

/// The rights that reading or writing at an offset needs beside the right
/// to read or to write: the right to seek.
pub open spec fn positional(right: host::__wasi_rights_t) -> host::__wasi_rights_t {
    right | host::__WASI_RIGHT_FD_SEEK
}

/// The handle to read from at an offset, without moving the cursor; needs
/// `FD_READ` and `FD_SEEK`.
pub fn fd_pread(wasi_ctx: &WasiCtx, fd: host::__wasi_fd_t) -> (res: Result<
    OsHandle,
    host::__wasi_errno_t,
>)
    ensures
        res == handle_lookup(wasi_ctx.fds(), fd, positional(host::__WASI_RIGHT_FD_READ), 0),
{
    file_handle(wasi_ctx, fd, host::__WASI_RIGHT_FD_READ | host::__WASI_RIGHT_FD_SEEK, 0)
}

/// The handle to write to at an offset, without moving the cursor; needs
/// `FD_WRITE` and `FD_SEEK`.
pub fn fd_pwrite(wasi_ctx: &WasiCtx, fd: host::__wasi_fd_t) -> (res: Result<
    OsHandle,
    host::__wasi_errno_t,
>)
    ensures
        res == handle_lookup(wasi_ctx.fds(), fd, positional(host::__WASI_RIGHT_FD_WRITE), 0),
{
    file_handle(wasi_ctx, fd, host::__WASI_RIGHT_FD_WRITE | host::__WASI_RIGHT_FD_SEEK, 0)
}

/// What `fd_read` answers: the descriptor to read from, which is a file or
/// standard input.
pub open spec fn read_source(fds: Map<host::__wasi_fd_t, FdEntry>, fd: host::__wasi_fd_t) -> Result<
    Descriptor,
    host::__wasi_errno_t,
> {
    match lookup(fds, fd, host::__WASI_RIGHT_FD_READ, 0) {
        Err(e) => Err(e),
        Ok(fe) => match fe.descriptor {
            Descriptor::Stdout => Err(host::__WASI_EBADF),
            Descriptor::Stderr => Err(host::__WASI_EBADF),
            d => Ok(d),
        },
    }
}

/// What to read from; needs `FD_READ`. Standard output and standard error
/// cannot be read: `EBADF`.
pub fn fd_read(wasi_ctx: &WasiCtx, fd: host::__wasi_fd_t) -> (res: Result<
    Descriptor,
    host::__wasi_errno_t,
>)
    ensures
        res == read_source(wasi_ctx.fds(), fd),
{
    match wasi_ctx.get_fd_entry(fd, host::__WASI_RIGHT_FD_READ, 0) {
        Ok(fe) => match fe.descriptor {
            Descriptor::Stdout => Err(host::__WASI_EBADF),
            Descriptor::Stderr => Err(host::__WASI_EBADF),
            d => Ok(d),
        },
        Err(e) => Err(e),
    }
}

/// Whether a read of `nread` bytes from `fd` was the end of standard input.
pub open spec fn stdin_ended(
    fds: Map<host::__wasi_fd_t, FdEntry>,
    fd: host::__wasi_fd_t,
    nread: usize,
) -> bool {
    nread == 0 && fds.contains_key(fd) && fds[fd].descriptor == Descriptor::Stdin
}

/// Takes note of a read that the host has done: when standard input is at
/// its end, its descriptor no longer needs to be closed. Nothing else
/// changes.
pub fn fd_read_done(wasi_ctx: &mut WasiCtx, fd: host::__wasi_fd_t, nread: usize)
    ensures
        final(wasi_ctx).args() == old(wasi_ctx).args(),
        final(wasi_ctx).env() == old(wasi_ctx).env(),
        stdin_ended(old(wasi_ctx).fds(), fd, nread) ==> final(wasi_ctx).fds() == old(wasi_ctx).fds().insert(fd, FdEntry { needs_close: false, ..old(wasi_ctx).fds()[fd] }),
        !stdin_ended(old(wasi_ctx).fds(), fd, nread) ==> final(wasi_ctx).fds() == old(wasi_ctx).fds(),
{
    if nread != 0 {
        return ;
    }
    proof {
        assert forall|have: host::__wasi_rights_t| host::rights_within(0, have) by {
            host::lemma_nothing_is_within(have);
        }
    }
    match wasi_ctx.get_fd_entry_mut(fd, 0, 0) {
        Ok(fe) => {
            if fe.descriptor.is_stdin() {
                fe.needs_close = false;
            } else {
                assert(old(wasi_ctx).fds().insert(fd, *fe) =~= old(wasi_ctx).fds());
            }
        },
        Err(_) => {},
    }
}

/// What `fd_write` answers: the descriptor to write to, which is a file,
/// standard output or standard error.
pub open spec fn write_sink(fds: Map<host::__wasi_fd_t, FdEntry>, fd: host::__wasi_fd_t) -> Result<
    Descriptor,
    host::__wasi_errno_t,
> {
    match lookup(fds, fd, host::__WASI_RIGHT_FD_WRITE, 0) {
        Err(e) => Err(e),
        Ok(fe) => match fe.descriptor {
            Descriptor::Stdin => Err(host::__WASI_EBADF),
            d => Ok(d),
        },
    }
}

/// What to write to; needs `FD_WRITE`. Standard input cannot be written:
/// `EBADF`.
pub fn fd_write(wasi_ctx: &WasiCtx, fd: host::__wasi_fd_t) -> (res: Result<
    Descriptor,
    host::__wasi_errno_t,
>)
    ensures
        res == write_sink(wasi_ctx.fds(), fd),
{
    match wasi_ctx.get_fd_entry(fd, host::__WASI_RIGHT_FD_WRITE, 0) {
        Ok(fe) => match fe.descriptor {
            Descriptor::Stdin => Err(host::__WASI_EBADF),
            d => Ok(d),
        },
        Err(e) => Err(e),
    }
}

/// From where an offset counts.
#[derive(Clone, Copy, Debug, PartialEq, Eq, Structural)]
pub enum SeekFrom {
    /// From the start of the file, to which the offset is taken as unsigned.
    Start(u64),
    End(i64),
    Current(i64),
}

/// The right that a seek needs: to ask where the cursor is, which is a seek
/// by nothing from where it stands, takes `FD_TELL`; every other seek takes
/// `FD_SEEK`.
pub open spec fn seek_right(
    offset: host::__wasi_filedelta_t,
    whence: host::__wasi_whence_t,
) -> host::__wasi_rights_t {
    if offset == 0 && whence == host::__WASI_WHENCE_CUR {
        host::__WASI_RIGHT_FD_TELL
    } else {
        host::__WASI_RIGHT_FD_SEEK
    }
}

/// The position that an offset and a `whence` name; `None` for a `whence`
/// that does not exist.
pub open spec fn seek_position(
    offset: host::__wasi_filedelta_t,
    whence: host::__wasi_whence_t,
) -> Option<SeekFrom> {
    if whence == host::__WASI_WHENCE_CUR {
        Some(SeekFrom::Current(offset))
    } else if whence == host::__WASI_WHENCE_END {
        Some(SeekFrom::End(offset))
    } else if whence == host::__WASI_WHENCE_SET {
        Some(SeekFrom::Start(offset as u64))
    } else {
        None
    }
}

/// What `fd_seek` answers.
pub open spec fn seek_request(
    fds: Map<host::__wasi_fd_t, FdEntry>,
    fd: host::__wasi_fd_t,
    offset: host::__wasi_filedelta_t,
    whence: host::__wasi_whence_t,
) -> Result<(OsHandle, SeekFrom), host::__wasi_errno_t> {
    match handle_lookup(fds, fd, seek_right(offset, whence), 0) {
        Err(e) => Err(e),
        Ok(handle) => match seek_position(offset, whence) {
            Some(pos) => Ok((handle, pos)),
            None => Err(host::__WASI_EINVAL),
        },
    }
}

/// The handle whose cursor to move, and where to; needs `FD_SEEK`, or
/// `FD_TELL` where the cursor is only asked for. A `whence` that does not
/// exist is `EINVAL`.
pub fn fd_seek(
    wasi_ctx: &WasiCtx,
    fd: host::__wasi_fd_t,
    offset: host::__wasi_filedelta_t,
    whence: host::__wasi_whence_t,
) -> (res: Result<(OsHandle, SeekFrom), host::__wasi_errno_t>)
    ensures
        res == seek_request(wasi_ctx.fds(), fd, offset, whence),
{
    let rights = if offset == 0 && whence == host::__WASI_WHENCE_CUR {
        host::__WASI_RIGHT_FD_TELL
    } else {
        host::__WASI_RIGHT_FD_SEEK
    };
    let handle = match file_handle(wasi_ctx, fd, rights, 0) {
        Ok(handle) => handle,
        Err(e) => {
            return Err(e);
        },
    };
    let pos = if whence == host::__WASI_WHENCE_CUR {
        SeekFrom::Current(offset)
    } else if whence == host::__WASI_WHENCE_END {
        SeekFrom::End(offset)
    } else if whence == host::__WASI_WHENCE_SET {
        SeekFrom::Start(offset as u64)
    } else {
        return Err(host::__WASI_EINVAL);
    };
    Ok((handle, pos))
}

/// The handle whose cursor to report; needs `FD_TELL`.
pub fn fd_tell(wasi_ctx: &WasiCtx, fd: host::__wasi_fd_t) -> (res: Result<
    OsHandle,
    host::__wasi_errno_t,
>)
    ensures
        res == handle_lookup(wasi_ctx.fds(), fd, host::__WASI_RIGHT_FD_TELL, 0),
{
    file_handle(wasi_ctx, fd, host::__WASI_RIGHT_FD_TELL, 0)
}

/// The attributes of an entry, with the flags that the host reports for its
/// handle.
pub open spec fn fdstat_of(fe: FdEntry, fs_flags: host::__wasi_fdflags_t) -> host::__wasi_fdstat_t {
    host::__wasi_fdstat_t {
        fs_filetype: fe.file_type,
        fs_flags,
        fs_rights_base: fe.rights_base,
        fs_rights_inheriting: fe.rights_inheriting,
    }
}

/// The attributes of `fd`: its file type and rights from the table, its
/// flags as the host reports them for the handle. Needs no right; an unknown
/// descriptor is `EBADF`.
pub fn fd_fdstat_get(
    wasi_ctx: &WasiCtx,
    fd: host::__wasi_fd_t,
    fs_flags: host::__wasi_fdflags_t,
) -> (res: Result<host::__wasi_fdstat_t, host::__wasi_errno_t>)
    ensures
        wasi_ctx.fds().contains_key(fd) ==> res == Ok::<_, host::__wasi_errno_t>(
            fdstat_of(wasi_ctx.fds()[fd], fs_flags),
        ),
        !wasi_ctx.fds().contains_key(fd) ==> res == Err::<host::__wasi_fdstat_t, _>(
            host::__WASI_EBADF,
        ),
{
    proof {
        assert forall|have: host::__wasi_rights_t| host::rights_within(0, have) by {
            host::lemma_nothing_is_within(have);
        }
    }
    match wasi_ctx.get_fd_entry(fd, 0, 0) {
        Ok(fe) => Ok(
            host::__wasi_fdstat_t {
                fs_filetype: fe.file_type,
                fs_flags,
                fs_rights_base: fe.rights_base,
                fs_rights_inheriting: fe.rights_inheriting,
            },
        ),
        Err(e) => Err(e),
    }
}

/// The handle whose flags to set; needs `FD_FDSTAT_SET_FLAGS`.
pub fn fd_fdstat_set_flags(wasi_ctx: &WasiCtx, fd: host::__wasi_fd_t) -> (res: Result<
    OsHandle,
    host::__wasi_errno_t,
>)
    ensures
        res == handle_lookup(wasi_ctx.fds(), fd, host::__WASI_RIGHT_FD_FDSTAT_SET_FLAGS, 0),
{
    file_handle(wasi_ctx, fd, host::__WASI_RIGHT_FD_FDSTAT_SET_FLAGS, 0)
}

/// Cuts the rights of `fd` down to those given. Rights can only be given
/// up: where the descriptor lacks one of them the answer is `ENOTCAPABLE`
/// and nothing changes.
pub fn fd_fdstat_set_rights(
    wasi_ctx: &mut WasiCtx,
    fd: host::__wasi_fd_t,
    fs_rights_base: host::__wasi_rights_t,
    fs_rights_inheriting: host::__wasi_rights_t,
) -> (res: Result<(), host::__wasi_errno_t>)
    ensures
        final(wasi_ctx).args() == old(wasi_ctx).args(),
        final(wasi_ctx).env() == old(wasi_ctx).env(),
        match lookup(old(wasi_ctx).fds(), fd, fs_rights_base, fs_rights_inheriting) {
            Ok(fe) => res.is_ok() && final(wasi_ctx).fds() == old(wasi_ctx).fds().insert(
                fd,
                FdEntry {
                    rights_base: fs_rights_base,
                    rights_inheriting: fs_rights_inheriting,
                    ..fe
                },
            ),
            Err(e) => res == Err::<(), _>(e) && final(wasi_ctx).fds() == old(wasi_ctx).fds(),
        },
{
    match wasi_ctx.get_fd_entry_mut(fd, fs_rights_base, fs_rights_inheriting) {
        Ok(fe) => {
            fe.rights_base = fs_rights_base;
            fe.rights_inheriting = fs_rights_inheriting;
            Ok(())
        },
        Err(e) => Err(e),
    }
}

/// What the host is advised to expect of a file.
#[derive(Clone, Copy, Debug, PartialEq, Eq, Structural)]
pub enum Advice {
    Normal,
    Sequential,
    Random,
    WillNeed,
    DontNeed,
    NoReuse,
}

/// The advice that a number stands for.
pub open spec fn advice_of(advice: host::__wasi_advice_t) -> Option<Advice> {
    if advice == host::__WASI_ADVICE_NORMAL {
        Some(Advice::Normal)
    } else if advice == host::__WASI_ADVICE_SEQUENTIAL {
        Some(Advice::Sequential)
    } else if advice == host::__WASI_ADVICE_RANDOM {
        Some(Advice::Random)
    } else if advice == host::__WASI_ADVICE_WILLNEED {
        Some(Advice::WillNeed)
    } else if advice == host::__WASI_ADVICE_DONTNEED {
        Some(Advice::DontNeed)
    } else if advice == host::__WASI_ADVICE_NOREUSE {
        Some(Advice::NoReuse)
    } else {
        None
    }
}

/// What `fd_advise` answers.
pub open spec fn advise_request(
    fds: Map<host::__wasi_fd_t, FdEntry>,
    fd: host::__wasi_fd_t,
    advice: host::__wasi_advice_t,
) -> Result<(OsHandle, Advice), host::__wasi_errno_t> {
    match handle_lookup(fds, fd, host::__WASI_RIGHT_FD_ADVISE, 0) {
        Err(e) => Err(e),
        Ok(handle) => match advice_of(advice) {
            Some(a) => Ok((handle, a)),
            None => Err(host::__WASI_EINVAL),
        },
    }
}

/// The handle to advise the host about, and the advice; needs `FD_ADVISE`.
/// Advice that does not exist is `EINVAL`. A host that takes no advice has
/// nothing to do for advice that exists.
pub fn fd_advise(
    wasi_ctx: &WasiCtx,
    fd: host::__wasi_fd_t,
    advice: host::__wasi_advice_t,
) -> (res: Result<(OsHandle, Advice), host::__wasi_errno_t>)
    ensures
        res == advise_request(wasi_ctx.fds(), fd, advice),
{
    let handle = match file_handle(wasi_ctx, fd, host::__WASI_RIGHT_FD_ADVISE, 0) {
        Ok(handle) => handle,
        Err(e) => {
            return Err(e);
        },
    };
    let host_advice = if advice == host::__WASI_ADVICE_NORMAL {
        Advice::Normal
    } else if advice == host::__WASI_ADVICE_SEQUENTIAL {
        Advice::Sequential
    } else if advice == host::__WASI_ADVICE_RANDOM {
        Advice::Random
    } else if advice == host::__WASI_ADVICE_WILLNEED {
        Advice::WillNeed
    } else if advice == host::__WASI_ADVICE_DONTNEED {
        Advice::DontNeed
    } else if advice == host::__WASI_ADVICE_NOREUSE {
        Advice::NoReuse
    } else {
        return Err(host::__WASI_EINVAL);
    };
    Ok((handle, host_advice))
}

/// The handle to reserve space for; needs `FD_ALLOCATE`.
pub fn fd_allocate(wasi_ctx: &WasiCtx, fd: host::__wasi_fd_t) -> (res: Result<
    OsHandle,
    host::__wasi_errno_t,
>)
    ensures
        res == handle_lookup(wasi_ctx.fds(), fd, host::__WASI_RIGHT_FD_ALLOCATE, 0),
{
    file_handle(wasi_ctx, fd, host::__WASI_RIGHT_FD_ALLOCATE, 0)
}

/// The handle whose attributes to read; needs `FD_FILESTAT_GET`.
pub fn fd_filestat_get(wasi_ctx: &WasiCtx, fd: host::__wasi_fd_t) -> (res: Result<
    OsHandle,
    host::__wasi_errno_t,
>)
    ensures
        res == handle_lookup(wasi_ctx.fds(), fd, host::__WASI_RIGHT_FD_FILESTAT_GET, 0),
{
    file_handle(wasi_ctx, fd, host::__WASI_RIGHT_FD_FILESTAT_GET, 0)
}

/// The handle to cut or extend to a size; needs `FD_FILESTAT_SET_SIZE`.
pub fn fd_filestat_set_size(wasi_ctx: &WasiCtx, fd: host::__wasi_fd_t) -> (res: Result<
    OsHandle,
    host::__wasi_errno_t,
>)
    ensures
        res == handle_lookup(wasi_ctx.fds(), fd, host::__WASI_RIGHT_FD_FILESTAT_SET_SIZE, 0),
{
    file_handle(wasi_ctx, fd, host::__WASI_RIGHT_FD_FILESTAT_SET_SIZE, 0)
}

/// The handle of the directory to list; needs `FD_READDIR`.
pub fn fd_readdir(wasi_ctx: &WasiCtx, fd: host::__wasi_fd_t) -> (res: Result<
    OsHandle,
    host::__wasi_errno_t,
>)
    ensures
        res == handle_lookup(wasi_ctx.fds(), fd, host::__WASI_RIGHT_FD_READDIR, 0),
{
    file_handle(wasi_ctx, fd, host::__WASI_RIGHT_FD_READDIR, 0)
}


/// The rights that a directory must grant for a file to be opened in it:
/// those in `rights_base` and `rights_inheriting`, the right to open a path
/// and, by the flags of the call, the right to create a file (`O_CREAT`),
/// to set the size of a file (`O_TRUNC`), and, handed down to the new
/// descriptor, the right to synchronise its data (`FDFLAG_DSYNC`) or itself
/// (`FDFLAG_RSYNC`, `FDFLAG_SYNC`).
pub open spec fn open_rights(
    rights_base: host::__wasi_rights_t,
    rights_inheriting: host::__wasi_rights_t,
    oflags: host::__wasi_oflags_t,
    fdflags: host::__wasi_fdflags_t,
) -> (host::__wasi_rights_t, host::__wasi_rights_t) {
    let base = rights_base | host::__WASI_RIGHT_PATH_OPEN;
    let base = if oflags & host::__WASI_O_CREAT != 0 {
        base | host::__WASI_RIGHT_PATH_CREATE_FILE
    } else {
        base
    };
    let base = if oflags & host::__WASI_O_TRUNC != 0 {
        base | host::__WASI_RIGHT_PATH_FILESTAT_SET_SIZE
    } else {
        base
    };
    let inheriting = if fdflags & host::__WASI_FDFLAG_DSYNC != 0 {
        rights_inheriting | host::__WASI_RIGHT_FD_DATASYNC
    } else {
        rights_inheriting
    };
    let inheriting = if fdflags & host::__WASI_FDFLAG_RSYNC != 0 || fdflags
        & host::__WASI_FDFLAG_SYNC != 0 {
        inheriting | host::__WASI_RIGHT_FD_SYNC
    } else {
        inheriting
    };
    (base, inheriting)
}

/// The rights that a directory must grant for a file to be opened in it
/// with the flags `oflags` and `fdflags`, beyond `rights_base` and
/// `rights_inheriting`, which it must grant in any case.
pub fn path_open_rights(
    rights_base: host::__wasi_rights_t,
    rights_inheriting: host::__wasi_rights_t,
    oflags: host::__wasi_oflags_t,
    fdflags: host::__wasi_fdflags_t,
) -> (res: (host::__wasi_rights_t, host::__wasi_rights_t))
    ensures
        res == open_rights(rights_base, rights_inheriting, oflags, fdflags),
{
    // which rights are needed on the dirfd?
    let mut needed_base: host::__wasi_rights_t = rights_base | host::__WASI_RIGHT_PATH_OPEN;
    let mut needed_inheriting: host::__wasi_rights_t = rights_inheriting;

    // convert open flags
    if oflags & host::__WASI_O_CREAT != 0 {
        needed_base = needed_base | host::__WASI_RIGHT_PATH_CREATE_FILE;
    }
    if oflags & host::__WASI_O_TRUNC != 0 {
        needed_base = needed_base | host::__WASI_RIGHT_PATH_FILESTAT_SET_SIZE;
    }
    // convert file descriptor flags
    if fdflags & host::__WASI_FDFLAG_DSYNC != 0 {
        needed_inheriting = needed_inheriting | host::__WASI_RIGHT_FD_DATASYNC;
    }
    if fdflags & host::__WASI_FDFLAG_RSYNC != 0 || fdflags & host::__WASI_FDFLAG_SYNC != 0 {
        needed_inheriting = needed_inheriting | host::__WASI_RIGHT_FD_SYNC;
    }
    (needed_base, needed_inheriting)
}

/// The rights that tell that a file is opened to be read.
pub const RIGHTS_THAT_READ: host::__wasi_rights_t = 0x4002;

/// The rights that tell that a file is opened to be written.
pub const RIGHTS_THAT_WRITE: host::__wasi_rights_t = 0x40_0141;

/// A file that is to be opened, once its path is resolved.
pub struct PathOpen {
    /// The resolution of the path, which comes first.
    pub resolve: PendingClone,
    /// Whether the host opens the file for reading.
    pub read: bool,
    /// Whether the host opens the file for writing.
    pub write: bool,
    /// The open flags, which the host takes as they are; it never follows a
    /// link in the last component.
    pub oflags: host::__wasi_oflags_t,
    pub fs_flags: host::__wasi_fdflags_t,
}

/// Begins to open the file `path` below the directory `dirfd`. The directory
/// must grant what `path_open_rights` says for the flags. The file is opened
/// for reading where a right to read it or to list it is asked for, and for
/// writing where a right to write, to synchronise data, to allocate or to
/// set the size is asked for. The last component is needed where the file
/// may be created.
pub fn path_open(
    wasi_ctx: &WasiCtx,
    dirfd: host::__wasi_fd_t,
    dirflags: host::__wasi_lookupflags_t,
    path: &Vec<u8>,
    oflags: host::__wasi_oflags_t,
    fs_rights_base: host::__wasi_rights_t,
    fs_rights_inheriting: host::__wasi_rights_t,
    fs_flags: host::__wasi_fdflags_t,
) -> (res: Result<PathOpen, host::__wasi_errno_t>)
    ensures
        match resolution_start(
            wasi_ctx.fds(),
            dirfd,
            path@,
            open_rights(0, 0, oflags, fs_flags).0,
            open_rights(0, 0, oflags, fs_flags).1,
        ) {
            Ok(handle) => res matches Ok(open) && open.resolve.dir == handle
                && open.resolve.dirflags == dirflags && open.resolve.path@ == path@
                && open.resolve.needs_final_component == (oflags & host::__WASI_O_CREAT != 0)
                && open.read == (fs_rights_base & RIGHTS_THAT_READ != 0) && open.write == (
            fs_rights_base & RIGHTS_THAT_WRITE != 0) && open.oflags == oflags && open.fs_flags
                == fs_flags,
            Err(e) => res matches Err(x) && x == e,
        },
{
    // which open mode do we need?
    let read = fs_rights_base & (host::__WASI_RIGHT_FD_READ | host::__WASI_RIGHT_FD_READDIR)
        != 0;
    let write = fs_rights_base & (host::__WASI_RIGHT_FD_DATASYNC | host::__WASI_RIGHT_FD_WRITE
        | host::__WASI_RIGHT_FD_ALLOCATE | host::__WASI_RIGHT_FD_FILESTAT_SET_SIZE) != 0;
    proof {
        assert(host::__WASI_RIGHT_FD_READ | host::__WASI_RIGHT_FD_READDIR == RIGHTS_THAT_READ)
            by (bit_vector);
        assert(host::__WASI_RIGHT_FD_DATASYNC | host::__WASI_RIGHT_FD_WRITE
            | host::__WASI_RIGHT_FD_ALLOCATE | host::__WASI_RIGHT_FD_FILESTAT_SET_SIZE
            == RIGHTS_THAT_WRITE) by (bit_vector);
    }
    let (needed_base, needed_inheriting) = path_open_rights(0, 0, oflags, fs_flags);
    match path_get(
        wasi_ctx,
        dirfd,
        dirflags,
        path,
        needed_base,
        needed_inheriting,
        oflags & host::__WASI_O_CREAT != 0,
    ) {
        Ok(resolve) => Ok(PathOpen { resolve, read, write, oflags, fs_flags }),
        Err(e) => Err(e),
    }
}

/// What the host found at a path that it could not open.
#[derive(Clone, Copy, Debug, PartialEq, Eq, Structural)]
pub enum Probe {
    Socket,
    Symlink,
    /// Something else, or nothing that the host could look at.
    Other,
}

/// The error of an open that the host refused with `errno`, given what
/// stands at the path: `ENXIO` for a socket is `ENOTSUP`; `ENOTDIR` for a
/// link is `ELOOP`, as the link was not followed; `EMLINK` is `ELOOP` for the
/// same reason; every other error is itself.
pub open spec fn open_errno(errno: host::__wasi_errno_t, probe: Probe) -> host::__wasi_errno_t {
    if errno == host::__WASI_ENXIO && probe == Probe::Socket {
        host::__WASI_ENOTSUP
    } else if errno == host::__WASI_ENOTDIR && probe == Probe::Symlink {
        host::__WASI_ELOOP
    } else if errno == host::__WASI_EMLINK {
        host::__WASI_ELOOP
    } else {
        errno
    }
}

/// The error that `path_open` reports when the host refused to open the
/// file. The host needs to look at the path only for `ENXIO` and `ENOTDIR`.
pub fn path_open_errno(errno: host::__wasi_errno_t, probe: Probe) -> (res: host::__wasi_errno_t)
    ensures
        res == open_errno(errno, probe),
{
    if errno == host::__WASI_ENXIO {
        match probe {
            Probe::Socket => host::__WASI_ENOTSUP,
            _ => host::__WASI_ENXIO,
        }
    } else if errno == host::__WASI_ENOTDIR {
        match probe {
            Probe::Symlink => host::__WASI_ELOOP,
            _ => host::__WASI_ENOTDIR,
        }
    } else if errno == host::__WASI_EMLINK {
        host::__WASI_ELOOP
    } else {
        errno
    }
}

/// An open that failed after the host had opened the file: the handle is
/// the host's to close.
#[derive(Clone, Copy, Debug, PartialEq, Eq, Structural)]
pub struct OpenFailure {
    pub errno: host::__wasi_errno_t,
    pub close: OsHandle,
}

/// The entry of a file that was opened through `parent` with the rights
/// `fs_rights_base` and `fs_rights_inheriting` asked for: the rights that the
/// kind of the file allows, as far as they were asked for and as far as the
/// parent hands them down.
pub open spec fn opened_entry(
    parent: FdEntryView,
    fs_rights_base: host::__wasi_rights_t,
    fs_rights_inheriting: host::__wasi_rights_t,
    file: HostFile,
) -> FdEntryView
    recommends
        type_rights(file.kind).is_some(),
{
    let natural = entry_of(file);
    FdEntryView {
        rights_base: natural.rights_base & fs_rights_base & parent.rights_inheriting,
        rights_inheriting: natural.rights_inheriting & fs_rights_inheriting
            & parent.rights_inheriting,
        ..natural
    }
}

/// Puts the file that the host opened into the table, as a descriptor with
/// the rights of `opened_entry`, and returns its number. Where the directory
/// `dirfd` is gone from the table (`EBADF`), the file is of a kind that
/// cannot be a descriptor (`EINVAL`) or no number is free (`EMFILE`), the
/// table stays as it is and the file is the host's to close.
pub fn path_open_finish(
    wasi_ctx: &mut WasiCtx,
    dirfd: host::__wasi_fd_t,
    fs_rights_base: host::__wasi_rights_t,
    fs_rights_inheriting: host::__wasi_rights_t,
    file: HostFile,
) -> (res: Result<host::__wasi_fd_t, OpenFailure>)
    ensures
        final(wasi_ctx).args() == old(wasi_ctx).args(),
        final(wasi_ctx).env() == old(wasi_ctx).env(),
        match res {
            Ok(fd) => {
                &&& old(wasi_ctx).fds().contains_key(dirfd)
                &&& type_rights(file.kind).is_some()
                &&& crate::ctx::is_lowest_free(old(wasi_ctx).fds(), fd)
                &&& final(wasi_ctx).fds().dom() == old(wasi_ctx).fds().dom().insert(fd)
                &&& forall|other: host::__wasi_fd_t|
                    other != fd && old(wasi_ctx).fds().contains_key(other) ==> final(wasi_ctx).fds()[other] == old(wasi_ctx).fds()[other]
                &&& final(wasi_ctx).fds()[fd]@ == opened_entry(
                    old(wasi_ctx).fds()[dirfd]@,
                    fs_rights_base,
                    fs_rights_inheriting,
                    file,
                )
            },
            Err(failure) => {
                &&& final(wasi_ctx).fds() == old(wasi_ctx).fds()
                &&& failure.close == file.handle
                &&& failure.errno == (if !old(wasi_ctx).fds().contains_key(dirfd) {
                    host::__WASI_EBADF
                } else if type_rights(file.kind).is_none() {
                    host::__WASI_EINVAL
                } else {
                    host::__WASI_EMFILE
                })
                &&& failure.errno == host::__WASI_EMFILE ==> crate::ctx::is_full(
                    old(wasi_ctx).fds(),
                )
            },
        },
{
    proof {
        assert forall|have: host::__wasi_rights_t| host::rights_within(0, have) by {
            host::lemma_nothing_is_within(have);
        }
    }
    let handed_down = match wasi_ctx.get_fd_entry(dirfd, 0, 0) {
        Ok(parent) => parent.rights_inheriting,
        Err(e) => {
            return Err(OpenFailure { errno: e, close: file.handle });
        },
    };
    // Determine the type of the new file descriptor and which rights contradict with this type
    let mut fe = match FdEntry::from(file) {
        Ok(fe) => fe,
        Err(e) => {
            return Err(OpenFailure { errno: e, close: file.handle });
        },
    };
    fe.rights_base = fe.rights_base & fs_rights_base & handed_down;
    fe.rights_inheriting = fe.rights_inheriting & fs_rights_inheriting & handed_down;
    match wasi_ctx.insert_fd_entry(fe) {
        Ok(fd) => Ok(fd),
        Err(e) => Err(OpenFailure { errno: e, close: file.handle }),
    }
}

/// A descriptor that was opened through a directory has no right that the
/// directory does not hand down, and none that was not asked for.
pub proof fn lemma_opened_rights_are_trimmed(
    parent: FdEntryView,
    fs_rights_base: host::__wasi_rights_t,
    fs_rights_inheriting: host::__wasi_rights_t,
    file: HostFile,
)
    ensures
        host::rights_within(
            opened_entry(parent, fs_rights_base, fs_rights_inheriting, file).rights_base,
            parent.rights_inheriting & fs_rights_base,
        ),
        host::rights_within(
            opened_entry(parent, fs_rights_base, fs_rights_inheriting, file).rights_inheriting,
            parent.rights_inheriting & fs_rights_inheriting,
        ),
        host::rights_within(
            opened_entry(parent, fs_rights_base, fs_rights_inheriting, file).rights_base,
            entry_of(file).rights_base,
        ),
        host::rights_within(
            opened_entry(parent, fs_rights_base, fs_rights_inheriting, file).rights_inheriting,
            entry_of(file).rights_inheriting,
        ),
{
    let natural_base = entry_of(file).rights_base;
    let natural_inheriting = entry_of(file).rights_inheriting;
    let down = parent.rights_inheriting;
    assert((natural_base & fs_rights_base & down) & !(down & fs_rights_base) == 0)
        by (bit_vector);
    assert((natural_inheriting & fs_rights_inheriting & down) & !(down & fs_rights_inheriting)
        == 0) by (bit_vector);
    assert((natural_base & fs_rights_base & down) & !natural_base == 0) by (bit_vector);
    assert((natural_inheriting & fs_rights_inheriting & down) & !natural_inheriting == 0)
        by (bit_vector);
}


/// Begins to create the directory `path` below `dirfd`; needs
/// `PATH_CREATE_DIRECTORY`.
pub fn path_create_directory(
    wasi_ctx: &WasiCtx,
    dirfd: host::__wasi_fd_t,
    path: &Vec<u8>,
) -> (res: Result<PendingClone, host::__wasi_errno_t>)
    ensures
        begins(res, wasi_ctx.fds(), dirfd, 0, path@, host::__WASI_RIGHT_PATH_CREATE_DIRECTORY, 0, false),
{
    path_get(wasi_ctx, dirfd, 0, path, host::__WASI_RIGHT_PATH_CREATE_DIRECTORY, 0, false)
}

/// Begins to read the link `path` below `dirfd`; needs `PATH_READLINK`. The
/// link itself is meant, so it is not followed.
pub fn path_readlink(
    wasi_ctx: &WasiCtx,
    dirfd: host::__wasi_fd_t,
    path: &Vec<u8>,
) -> (res: Result<PendingClone, host::__wasi_errno_t>)
    ensures
        begins(res, wasi_ctx.fds(), dirfd, 0, path@, host::__WASI_RIGHT_PATH_READLINK, 0, false),
{
    path_get(wasi_ctx, dirfd, 0, path, host::__WASI_RIGHT_PATH_READLINK, 0, false)
}

/// Begins to read the attributes of `path` below `dirfd`; needs
/// `PATH_FILESTAT_GET`. `dirflags` says whether a link is followed.
pub fn path_filestat_get(
    wasi_ctx: &WasiCtx,
    dirfd: host::__wasi_fd_t,
    dirflags: host::__wasi_lookupflags_t,
    path: &Vec<u8>,
) -> (res: Result<PendingClone, host::__wasi_errno_t>)
    ensures
        begins(res, wasi_ctx.fds(), dirfd, dirflags, path@, host::__WASI_RIGHT_PATH_FILESTAT_GET, 0, false),
{
    path_get(wasi_ctx, dirfd, dirflags, path, host::__WASI_RIGHT_PATH_FILESTAT_GET, 0, false)
}

/// Begins to create a link at `new_path` below `dirfd`; needs `PATH_SYMLINK`.
/// What the link says is not resolved: the host stores it as it is.
pub fn path_symlink(
    wasi_ctx: &WasiCtx,
    dirfd: host::__wasi_fd_t,
    new_path: &Vec<u8>,
) -> (res: Result<PendingClone, host::__wasi_errno_t>)
    ensures
        begins(res, wasi_ctx.fds(), dirfd, 0, new_path@, host::__WASI_RIGHT_PATH_SYMLINK, 0, false),
{
    path_get(wasi_ctx, dirfd, 0, new_path, host::__WASI_RIGHT_PATH_SYMLINK, 0, false)
}

/// Begins to remove the file `path` below `dirfd`; needs `PATH_UNLINK_FILE`.
pub fn path_unlink_file(
    wasi_ctx: &WasiCtx,
    dirfd: host::__wasi_fd_t,
    path: &Vec<u8>,
) -> (res: Result<PendingClone, host::__wasi_errno_t>)
    ensures
        begins(res, wasi_ctx.fds(), dirfd, 0, path@, host::__WASI_RIGHT_PATH_UNLINK_FILE, 0, false),
{
    path_get(wasi_ctx, dirfd, 0, path, host::__WASI_RIGHT_PATH_UNLINK_FILE, 0, false)
}

/// Begins to remove the directory `path` below `dirfd`; needs
/// `PATH_REMOVE_DIRECTORY`.
pub fn path_remove_directory(
    wasi_ctx: &WasiCtx,
    dirfd: host::__wasi_fd_t,
    path: &Vec<u8>,
) -> (res: Result<PendingClone, host::__wasi_errno_t>)
    ensures
        begins(res, wasi_ctx.fds(), dirfd, 0, path@, host::__WASI_RIGHT_PATH_REMOVE_DIRECTORY, 0, false),
{
    path_get(wasi_ctx, dirfd, 0, path, host::__WASI_RIGHT_PATH_REMOVE_DIRECTORY, 0, false)
}

/// Begins to make `new_path` below `new_dirfd` another name of the file
/// `old_path` below `old_dirfd`; the old directory needs `PATH_LINK_SOURCE`
/// and the new one `PATH_LINK_TARGET`. Both sides are looked up before either
/// path is walked; the first of the pair is the old side.
pub fn path_link(
    wasi_ctx: &WasiCtx,
    old_dirfd: host::__wasi_fd_t,
    old_path: &Vec<u8>,
    new_dirfd: host::__wasi_fd_t,
    new_path: &Vec<u8>,
) -> (res: Result<(PendingClone, PendingClone), host::__wasi_errno_t>)
    ensures
        match resolution_start(wasi_ctx.fds(), old_dirfd, old_path@, host::__WASI_RIGHT_PATH_LINK_SOURCE, 0) {
            Err(e) => res matches Err(x) && x == e,
            Ok(_) => match res {
                Ok(pair) => begins(
                    Ok(pair.0),
                    wasi_ctx.fds(),
                    old_dirfd,
                    0,
                    old_path@,
                    host::__WASI_RIGHT_PATH_LINK_SOURCE,
                    0,
                    false,
                ) && begins(
                    Ok(pair.1),
                    wasi_ctx.fds(),
                    new_dirfd,
                    0,
                    new_path@,
                    host::__WASI_RIGHT_PATH_LINK_TARGET,
                    0,
                    false,
                ),
                Err(x) => begins(
                    Err(x),
                    wasi_ctx.fds(),
                    new_dirfd,
                    0,
                    new_path@,
                    host::__WASI_RIGHT_PATH_LINK_TARGET,
                    0,
                    false,
                ),
            },
        },
{
    let old = match path_get(wasi_ctx, old_dirfd, 0, old_path, host::__WASI_RIGHT_PATH_LINK_SOURCE, 0, false) {
        Ok(old) => old,
        Err(e) => {
            return Err(e);
        },
    };
    match path_get(wasi_ctx, new_dirfd, 0, new_path, host::__WASI_RIGHT_PATH_LINK_TARGET, 0, false) {
        Ok(new) => Ok((old, new)),
        Err(e) => Err(e),
    }
}

/// Begins to rename `old_path` below `old_dirfd` to `new_path` below
/// `new_dirfd`; the old directory needs `PATH_RENAME_SOURCE` and the new one
/// `PATH_RENAME_TARGET`. Both sides are looked up before either path is
/// walked; the first of the pair is the old side.
pub fn path_rename(
    wasi_ctx: &WasiCtx,
    old_dirfd: host::__wasi_fd_t,
    old_path: &Vec<u8>,
    new_dirfd: host::__wasi_fd_t,
    new_path: &Vec<u8>,
) -> (res: Result<(PendingClone, PendingClone), host::__wasi_errno_t>)
    ensures
        match resolution_start(wasi_ctx.fds(), old_dirfd, old_path@, host::__WASI_RIGHT_PATH_RENAME_SOURCE, 0) {
            Err(e) => res matches Err(x) && x == e,
            Ok(_) => match res {
                Ok(pair) => begins(
                    Ok(pair.0),
                    wasi_ctx.fds(),
                    old_dirfd,
                    0,
                    old_path@,
                    host::__WASI_RIGHT_PATH_RENAME_SOURCE,
                    0,
                    false,
                ) && begins(
                    Ok(pair.1),
                    wasi_ctx.fds(),
                    new_dirfd,
                    0,
                    new_path@,
                    host::__WASI_RIGHT_PATH_RENAME_TARGET,
                    0,
                    false,
                ),
                Err(x) => begins(
                    Err(x),
                    wasi_ctx.fds(),
                    new_dirfd,
                    0,
                    new_path@,
                    host::__WASI_RIGHT_PATH_RENAME_TARGET,
                    0,
                    false,
                ),
            },
        },
{
    let old = match path_get(wasi_ctx, old_dirfd, 0, old_path, host::__WASI_RIGHT_PATH_RENAME_SOURCE, 0, false) {
        Ok(old) => old,
        Err(e) => {
            return Err(e);
        },
    };
    match path_get(wasi_ctx, new_dirfd, 0, new_path, host::__WASI_RIGHT_PATH_RENAME_TARGET, 0, false) {
        Ok(new) => Ok((old, new)),
        Err(e) => Err(e),
    }
}

/// How many bytes of a link that is `len` bytes long fit a buffer of
/// `buf_len` bytes: the host copies that many.
pub fn path_readlink_copied(len: usize, buf_len: usize) -> (copied: usize)
    ensures
        copied == if len < buf_len {
            len
        } else {
            buf_len
        },
{
    if len < buf_len {
        len
    } else {
        buf_len
    }
}

/// The error of an unlink that the host refused with `errno`: a host that
/// answers `EPERM` for a directory is taken to say `EISDIR`.
pub open spec fn unlink_errno(
    errno: host::__wasi_errno_t,
    is_directory: bool,
) -> host::__wasi_errno_t {
    if errno == host::__WASI_EPERM && is_directory {
        host::__WASI_EISDIR
    } else {
        errno
    }
}

/// The error that `path_unlink_file` reports when the host refused to
/// remove the file; `is_directory` says whether a directory stands at the
/// path, which the host needs to find out for `EPERM` only.
pub fn path_unlink_file_errno(errno: host::__wasi_errno_t, is_directory: bool) -> (res:
    host::__wasi_errno_t)
    ensures
        res == unlink_errno(errno, is_directory),
{
    if errno == host::__WASI_EPERM && is_directory {
        host::__WASI_EISDIR
    } else {
        errno
    }
}

/// What becomes of a timestamp of a file.
#[derive(Clone, Copy, Debug, PartialEq, Eq, Structural)]
pub enum TimeChange {
    /// It stays as it is.
    Omit,
    /// It is set to the time of the call.
    Now,
    /// It is set to a time, in nanoseconds since the epoch.
    SetTo(host::__wasi_timestamp_t),
}

/// What becomes of a timestamp when the flag to set it to `time` is `set`
/// and the flag to set it to the time of the call is `now`; `None` where
/// both flags are given, which contradict each other.
pub open spec fn time_change(
    set: bool,
    now: bool,
    time: host::__wasi_timestamp_t,
) -> Option<TimeChange> {
    if set && now {
        None
    } else if now {
        Some(TimeChange::Now)
    } else if set {
        Some(TimeChange::SetTo(time))
    } else {
        Some(TimeChange::Omit)
    }
}

/// What becomes of the time of access and of the time of modification, by
/// the flags of the call; `None` where the flags for one of them contradict
/// each other.
pub open spec fn time_changes(
    st_atim: host::__wasi_timestamp_t,
    st_mtim: host::__wasi_timestamp_t,
    fst_flags: host::__wasi_fstflags_t,
) -> Option<(TimeChange, TimeChange)> {
    let atim = time_change(
        fst_flags & host::__WASI_FILESTAT_SET_ATIM != 0,
        fst_flags & host::__WASI_FILESTAT_SET_ATIM_NOW != 0,
        st_atim,
    );
    let mtim = time_change(
        fst_flags & host::__WASI_FILESTAT_SET_MTIM != 0,
        fst_flags & host::__WASI_FILESTAT_SET_MTIM_NOW != 0,
        st_mtim,
    );
    if atim.is_some() && mtim.is_some() {
        Some((atim.unwrap(), mtim.unwrap()))
    } else {
        None
    }
}

fn change_of(set: bool, now: bool, time: host::__wasi_timestamp_t) -> (res: Option<TimeChange>)
    ensures
        res == time_change(set, now, time),
{
    if set && now {
        None
    } else if now {
        Some(TimeChange::Now)
    } else if set {
        Some(TimeChange::SetTo(time))
    } else {
        Some(TimeChange::Omit)
    }
}

/// What becomes of the two timestamps of a file, by the flags of the call.
/// Flags that contradict each other are `EINVAL`.
pub fn filestat_set_times_changes(
    st_atim: host::__wasi_timestamp_t,
    st_mtim: host::__wasi_timestamp_t,
    fst_flags: host::__wasi_fstflags_t,
) -> (res: Result<(TimeChange, TimeChange), host::__wasi_errno_t>)
    ensures
        match time_changes(st_atim, st_mtim, fst_flags) {
            Some(changes) => res == Ok::<_, host::__wasi_errno_t>(changes),
            None => res == Err::<(TimeChange, TimeChange), _>(host::__WASI_EINVAL),
        },
{
    let atim = change_of(
        fst_flags & host::__WASI_FILESTAT_SET_ATIM != 0,
        fst_flags & host::__WASI_FILESTAT_SET_ATIM_NOW != 0,
        st_atim,
    );
    let mtim = change_of(
        fst_flags & host::__WASI_FILESTAT_SET_MTIM != 0,
        fst_flags & host::__WASI_FILESTAT_SET_MTIM_NOW != 0,
        st_mtim,
    );
    match (atim, mtim) {
        (Some(atim), Some(mtim)) => Ok((atim, mtim)),
        _ => Err(host::__WASI_EINVAL),
    }
}

/// What `fd_filestat_set_times` answers.
pub open spec fn set_times_request(
    fds: Map<host::__wasi_fd_t, FdEntry>,
    fd: host::__wasi_fd_t,
    st_atim: host::__wasi_timestamp_t,
    st_mtim: host::__wasi_timestamp_t,
    fst_flags: host::__wasi_fstflags_t,
) -> Result<(OsHandle, TimeChange, TimeChange), host::__wasi_errno_t> {
    match handle_lookup(fds, fd, host::__WASI_RIGHT_FD_FILESTAT_SET_TIMES, 0) {
        Err(e) => Err(e),
        Ok(handle) => match time_changes(st_atim, st_mtim, fst_flags) {
            Some(changes) => Ok((handle, changes.0, changes.1)),
            None => Err(host::__WASI_EINVAL),
        },
    }
}

/// The handle whose timestamps to set, and what becomes of the time of
/// access and of the time of modification; needs `FD_FILESTAT_SET_TIMES`.
/// Flags that contradict each other are `EINVAL`.
pub fn fd_filestat_set_times(
    wasi_ctx: &WasiCtx,
    fd: host::__wasi_fd_t,
    st_atim: host::__wasi_timestamp_t,
    st_mtim: host::__wasi_timestamp_t,
    fst_flags: host::__wasi_fstflags_t,
) -> (res: Result<(OsHandle, TimeChange, TimeChange), host::__wasi_errno_t>)
    ensures
        res == set_times_request(wasi_ctx.fds(), fd, st_atim, st_mtim, fst_flags),
{
    let handle = match file_handle(wasi_ctx, fd, host::__WASI_RIGHT_FD_FILESTAT_SET_TIMES, 0) {
        Ok(handle) => handle,
        Err(e) => {
            return Err(e);
        },
    };
    match filestat_set_times_changes(st_atim, st_mtim, fst_flags) {
        Ok((atim, mtim)) => Ok((handle, atim, mtim)),
        Err(e) => Err(e),
    }
}

/// Begins to set the timestamps of `path` below `dirfd`; needs
/// `PATH_FILESTAT_SET_TIMES`. `dirflags` says whether a link is followed.
/// Flags that contradict each other are `EINVAL`, once the directory has
/// passed.
pub fn path_filestat_set_times(
    wasi_ctx: &WasiCtx,
    dirfd: host::__wasi_fd_t,
    dirflags: host::__wasi_lookupflags_t,
    path: &Vec<u8>,
    st_atim: host::__wasi_timestamp_t,
    st_mtim: host::__wasi_timestamp_t,
    fst_flags: host::__wasi_fstflags_t,
) -> (res: Result<(PendingClone, TimeChange, TimeChange), host::__wasi_errno_t>)
    ensures
        match resolution_start(
            wasi_ctx.fds(),
            dirfd,
            path@,
            host::__WASI_RIGHT_PATH_FILESTAT_SET_TIMES,
            0,
        ) {
            Err(e) => res matches Err(x) && x == e,
            Ok(_) => match time_changes(st_atim, st_mtim, fst_flags) {
                None => res matches Err(x) && x == host::__WASI_EINVAL,
                Some(changes) => res matches Ok(request) && request.1 == changes.0 && request.2
                    == changes.1 && begins(
                    Ok(request.0),
                    wasi_ctx.fds(),
                    dirfd,
                    dirflags,
                    path@,
                    host::__WASI_RIGHT_PATH_FILESTAT_SET_TIMES,
                    0,
                    false,
                ),
            },
        },
{
    let resolve = match path_get(
        wasi_ctx,
        dirfd,
        dirflags,
        path,
        host::__WASI_RIGHT_PATH_FILESTAT_SET_TIMES,
        0,
        false,
    ) {
        Ok(resolve) => resolve,
        Err(e) => {
            return Err(e);
        },
    };
    match filestat_set_times_changes(st_atim, st_mtim, fst_flags) {
        Ok((atim, mtim)) => Ok((resolve, atim, mtim)),
        Err(e) => Err(e),
    }
}

pub const NANOS_PER_SEC: u64 = 1_000_000_000;

/// The nanoseconds that `sec` seconds and `nsec` nanoseconds are; `None`
/// where one of them is negative or the sum does not fit 64 bits.
pub open spec fn timestamp_of(sec: i64, nsec: i64) -> Option<host::__wasi_timestamp_t> {
    if sec < 0 || nsec < 0 || sec * NANOS_PER_SEC + nsec > u64::MAX {
        None
    } else {
        Some((sec * NANOS_PER_SEC + nsec) as u64)
    }
}

/// A time of the host in nanoseconds. A time that does not fit 64 bits is
/// `EOVERFLOW`.
pub fn timestamp_from_host(sec: i64, nsec: i64) -> (res: Result<
    host::__wasi_timestamp_t,
    host::__wasi_errno_t,
>)
    ensures
        match timestamp_of(sec, nsec) {
            Some(t) => res == Ok::<_, host::__wasi_errno_t>(t),
            None => res == Err::<host::__wasi_timestamp_t, _>(host::__WASI_EOVERFLOW),
        },
{
    if sec < 0 || nsec < 0 {
        return Err(host::__WASI_EOVERFLOW);
    }
    let sec_ns = match (sec as u64).checked_mul(NANOS_PER_SEC) {
        Some(sec_ns) => sec_ns,
        None => {
            return Err(host::__WASI_EOVERFLOW);
        },
    };
    match sec_ns.checked_add(nsec as u64) {
        Some(t) => Ok(t),
        None => Err(host::__WASI_EOVERFLOW),
    }
}

/// Later times of the host are later timestamps.
pub proof fn lemma_timestamps_keep_order(sec1: i64, nsec1: i64, sec2: i64, nsec2: i64)
    requires
        0 <= nsec1 < NANOS_PER_SEC,
        0 <= nsec2 < NANOS_PER_SEC,
        sec1 < sec2 || (sec1 == sec2 && nsec1 <= nsec2),
        timestamp_of(sec1, nsec1).is_some(),
        timestamp_of(sec2, nsec2).is_some(),
    ensures
        timestamp_of(sec1, nsec1).unwrap() <= timestamp_of(sec2, nsec2).unwrap(),
{
    if sec1 < sec2 {
        assert(sec1 * NANOS_PER_SEC + NANOS_PER_SEC <= sec2 * NANOS_PER_SEC) by (nonlinear_arith)
            requires
                sec1 + 1 <= sec2,
        ;
    }
}

/// The attributes of a file as the host reports them.
#[derive(Clone, Copy, Debug, PartialEq, Eq, Structural)]
pub struct HostStat {
    pub dev: u64,
    pub ino: u64,
    pub filetype: host::__wasi_filetype_t,
    pub nlink: u64,
    pub size: u64,
    pub atim_sec: i64,
    pub atim_nsec: i64,
    pub mtim_sec: i64,
    pub mtim_nsec: i64,
    pub ctim_sec: i64,
    pub ctim_nsec: i64,
}

/// The attributes of a file as the guest sees them; `None` where the number
/// of links does not fit 32 bits or a timestamp does not fit 64 bits.
pub open spec fn filestat_of(stat: HostStat) -> Option<host::__wasi_filestat_t> {
    let atim = timestamp_of(stat.atim_sec, stat.atim_nsec);
    let mtim = timestamp_of(stat.mtim_sec, stat.mtim_nsec);
    let ctim = timestamp_of(stat.ctim_sec, stat.ctim_nsec);
    if stat.nlink > u32::MAX || atim.is_none() || mtim.is_none() || ctim.is_none() {
        None
    } else {
        Some(
            host::__wasi_filestat_t {
                st_dev: stat.dev,
                st_ino: stat.ino,
                st_filetype: stat.filetype,
                st_nlink: stat.nlink as u32,
                st_size: stat.size,
                st_atim: atim.unwrap(),
                st_mtim: mtim.unwrap(),
                st_ctim: ctim.unwrap(),
            },
        )
    }
}

/// The attributes of a file as the guest sees them. What does not fit is
/// `EOVERFLOW`.
pub fn filestat_from_host(stat: &HostStat) -> (res: Result<
    host::__wasi_filestat_t,
    host::__wasi_errno_t,
>)
    ensures
        match filestat_of(*stat) {
            Some(filestat) => res == Ok::<_, host::__wasi_errno_t>(filestat),
            None => res == Err::<host::__wasi_filestat_t, _>(host::__WASI_EOVERFLOW),
        },
{
    if stat.nlink > u32::MAX as u64 {
        return Err(host::__WASI_EOVERFLOW);
    }
    let st_atim = match timestamp_from_host(stat.atim_sec, stat.atim_nsec) {
        Ok(t) => t,
        Err(e) => {
            return Err(e);
        },
    };
    let st_mtim = match timestamp_from_host(stat.mtim_sec, stat.mtim_nsec) {
        Ok(t) => t,
        Err(e) => {
            return Err(e);
        },
    };
    let st_ctim = match timestamp_from_host(stat.ctim_sec, stat.ctim_nsec) {
        Ok(t) => t,
        Err(e) => {
            return Err(e);
        },
    };
    Ok(
        host::__wasi_filestat_t {
            st_dev: stat.dev,
            st_ino: stat.ino,
            st_filetype: stat.filetype,
            st_nlink: stat.nlink as u32,
            st_size: stat.size,
            st_atim,
            st_mtim,
            st_ctim,
        },
    )
}

/// The name under which the guest knows the preopened directory `fd`. The
/// descriptor must grant `PATH_OPEN`; one that is no preopened root is
/// `ENOTSUP`, and a preopened root that is no directory is `ENOTDIR`.
pub open spec fn preopen_name(fds: Map<host::__wasi_fd_t, FdEntry>, fd: host::__wasi_fd_t) -> Result<
    Seq<u8>,
    host::__wasi_errno_t,
> {
    match lookup(fds, fd, host::__WASI_RIGHT_PATH_OPEN, 0) {
        Err(e) => Err(e),
        Ok(fe) => match fe.preopen_path {
            None => Err(host::__WASI_ENOTSUP),
            Some(path) => if fe.file_type != host::__WASI_FILETYPE_DIRECTORY {
                Err(host::__WASI_ENOTDIR)
            } else {
                Ok(path@)
            },
        },
    }
}

/// The description of the preopened directory `fd`: that it is a directory,
/// and how long its name is.
pub fn fd_prestat_get(wasi_ctx: &WasiCtx, fd: host::__wasi_fd_t) -> (res: Result<
    host::__wasi_prestat_t,
    host::__wasi_errno_t,
>)
    ensures
        match preopen_name(wasi_ctx.fds(), fd) {
            Ok(name) => res matches Ok(prestat) && prestat.pr_type
                == host::__WASI_PREOPENTYPE_DIR && prestat.u.dir.pr_name_len == name.len(),
            Err(e) => res matches Err(x) && x == e,
        },
{
    match wasi_ctx.get_fd_entry(fd, host::__WASI_RIGHT_PATH_OPEN, 0) {
        Ok(fe) => match &fe.preopen_path {
            Some(po_path) => {
                if fe.file_type != host::__WASI_FILETYPE_DIRECTORY {
                    return Err(host::__WASI_ENOTDIR);
                }
                Ok(
                    host::__wasi_prestat_t {
                        pr_type: host::__WASI_PREOPENTYPE_DIR,
                        u: host::__wasi_prestat_u {
                            dir: host::__wasi_prestat_dir { pr_name_len: po_path.len() },
                        },
                    },
                )
            },
            None => Err(host::__WASI_ENOTSUP),
        },
        Err(e) => Err(e),
    }
}

/// The name of the preopened directory `fd`, for a buffer of `path_len`
/// bytes. A name that does not fit the buffer is `ENAMETOOLONG`.
pub fn fd_prestat_dir_name(wasi_ctx: &WasiCtx, fd: host::__wasi_fd_t, path_len: usize) -> (res:
    Result<Vec<u8>, host::__wasi_errno_t>)
    ensures
        match preopen_name(wasi_ctx.fds(), fd) {
            Ok(name) => if name.len() > path_len {
                res matches Err(x) && x == host::__WASI_ENAMETOOLONG
            } else {
                res matches Ok(bytes) && bytes@ == name
            },
            Err(e) => res matches Err(x) && x == e,
        },
{
    match wasi_ctx.get_fd_entry(fd, host::__WASI_RIGHT_PATH_OPEN, 0) {
        Ok(fe) => match &fe.preopen_path {
            Some(po_path) => {
                if fe.file_type != host::__WASI_FILETYPE_DIRECTORY {
                    return Err(host::__WASI_ENOTDIR);
                }
                if po_path.len() > path_len {
                    return Err(host::__WASI_ENAMETOOLONG);
                }
                Ok(po_path.clone())
            },
            None => Err(host::__WASI_ENOTSUP),
        },
        Err(e) => Err(e),
    }
}


/// One entry of a directory, as the cursor of the host yields it.
#[derive(Clone, Debug)]
pub struct DirEntry {
    pub ino: host::__wasi_inode_t,
    /// The cookie with which a listing goes on behind this entry.
    pub next: host::__wasi_dircookie_t,
    pub file_type: host::__wasi_filetype_t,
    /// The name, without a NUL.
    pub name: Vec<u8>,
}

/// An entry of a directory as a mathematical value.
pub struct DirEntryView {
    pub ino: host::__wasi_inode_t,
    pub next: host::__wasi_dircookie_t,
    pub file_type: host::__wasi_filetype_t,
    pub name: Seq<u8>,
}

impl View for DirEntry {
    type V = DirEntryView;

    open spec fn view(&self) -> DirEntryView {
        DirEntryView {
            ino: self.ino,
            next: self.next,
            file_type: self.file_type,
            name: self.name@,
        }
    }
}

impl DirEntryView {
    /// The header that goes before the name.
    pub open spec fn header(self) -> host::__wasi_dirent_t {
        host::__wasi_dirent_t {
            d_next: self.next,
            d_ino: self.ino,
            d_namlen: self.name.len() as u32,
            d_type: self.file_type,
        }
    }

    /// The bytes of the entry: the header, then the name.
    pub open spec fn bytes(self) -> Seq<u8> {
        dirent_bytes(self.header()) + self.name
    }

    /// How many bytes the entry takes.
    pub open spec fn size(self) -> nat {
        DIRENT_SIZE as nat + self.name.len()
    }
}

/// The bytes of a listing: those of its entries, one after the other.
pub open spec fn listing_bytes(entries: Seq<DirEntryView>) -> Seq<u8>
    decreases entries.len(),
{
    if entries.len() == 0 {
        Seq::empty()
    } else {
        entries[0].bytes() + listing_bytes(entries.skip(1))
    }
}

/// What of `bytes` fits `room` bytes: all of it, or its first `room` bytes.
pub open spec fn fitting(bytes: Seq<u8>, room: nat) -> Seq<u8> {
    if bytes.len() <= room {
        bytes
    } else {
        bytes.subrange(0, room as int)
    }
}

/// The buffer of one `fd_readdir` call: what of a listing fits the buffer of
/// the guest. An entry that does not fit whole is cut where the buffer ends.
pub struct ReaddirBuffer {
    bytes: Vec<u8>,
    capacity: usize,
    entries: Ghost<Seq<DirEntryView>>,
}

impl ReaddirBuffer {
    #[verifier::type_invariant]
    spec fn inv(self) -> bool {
        self.bytes@ == fitting(listing_bytes(self.entries@), self.capacity as nat)
    }

    /// The bytes written so far.
    pub closed spec fn written(&self) -> Seq<u8> {
        self.bytes@
    }

    /// The size of the buffer of the guest.
    pub closed spec fn capacity(&self) -> nat {
        self.capacity as nat
    }

    /// The entries given so far.
    pub closed spec fn entries(&self) -> Seq<DirEntryView> {
        self.entries@
    }

    /// An empty buffer for `capacity` bytes.
    pub fn new(capacity: usize) -> (buf: ReaddirBuffer)
        ensures
            buf.capacity() == capacity,
            buf.entries() == Seq::<DirEntryView>::empty(),
            buf.written() == Seq::<u8>::empty(),
    {
        ReaddirBuffer { bytes: Vec::new(), capacity, entries: Ghost(Seq::empty()) }
    }

    /// Whether the buffer is full, so that the host need not read on.
    pub fn is_full(&self) -> (full: bool)
        ensures
            full == (self.written().len() == self.capacity()),
    {
        proof {
            use_type_invariant(self);
        }
        self.bytes.len() == self.capacity
    }

    /// The buffer with `entry` behind what it holds, as far as it fits. A
    /// name whose length does not fit 32 bits is `EOVERFLOW`.
    pub fn push(self, entry: &DirEntry) -> (res: Result<ReaddirBuffer, host::__wasi_errno_t>)
        ensures
            entry.name@.len() > u32::MAX ==> (res matches Err(e) && e == host::__WASI_EOVERFLOW),
            entry.name@.len() <= u32::MAX ==> (res matches Ok(buf) && buf.capacity()
                == self.capacity() && buf.entries() == self.entries().push(entry@)
                && buf.written() == fitting(
                listing_bytes(self.entries().push(entry@)),
                self.capacity(),
            )),
    {
        proof {
            use_type_invariant(&self);
        }
        if entry.name.len() > u32::MAX as usize {
            return Err(host::__WASI_EOVERFLOW);
        }
        let ReaddirBuffer { mut bytes, capacity, entries } = self;
        let header = host::__wasi_dirent_t {
            d_next: entry.next,
            d_ino: entry.ino,
            d_namlen: entry.name.len() as u32,
            d_type: entry.file_type,
        };
        let encoded = enc_dirent(&header);
        let ghost before = bytes@;
        let ghost all = listing_bytes(entries@);
        let mut i: usize = 0;
        while i < encoded.len() && bytes.len() < capacity
            invariant
                i <= encoded.len(),
                bytes@.len() <= capacity,
                bytes@ == fitting(before + encoded@.subrange(0, i as int), capacity as nat),
                before.len() <= capacity,
            decreases encoded.len() - i,
        {
            bytes.push(encoded[i]);
            i += 1;
            proof {
                assert(before + encoded@.subrange(0, i as int) =~= (before + encoded@.subrange(
                    0,
                    i - 1,
                )).push(encoded@[i - 1]));
                assert(bytes@ =~= fitting(
                    before + encoded@.subrange(0, i as int),
                    capacity as nat,
                ));
            }
        }
        proof {
            assert(encoded@.subrange(0, encoded@.len() as int) =~= encoded@);
            assert(bytes@ =~= fitting(before + encoded@, capacity as nat));
        }
        let ghost with_header = before + encoded@;
        let mut j: usize = 0;
        while j < entry.name.len() && bytes.len() < capacity
            invariant
                j <= entry.name.len(),
                bytes@.len() <= capacity,
                bytes@ == fitting(
                    with_header + entry.name@.subrange(0, j as int),
                    capacity as nat,
                ),
            decreases entry.name.len() - j,
        {
            bytes.push(entry.name[j]);
            j += 1;
            proof {
                assert(with_header + entry.name@.subrange(0, j as int) =~= (with_header
                    + entry.name@.subrange(0, j - 1)).push(entry.name@[j - 1]));
                assert(bytes@ =~= fitting(
                    with_header + entry.name@.subrange(0, j as int),
                    capacity as nat,
                ));
            }
        }
        proof {
            assert(entry.name@.subrange(0, entry.name@.len() as int) =~= entry.name@);
            assert(bytes@ =~= fitting(with_header + entry.name@, capacity as nat));
            lemma_listing_push(entries@, entry@);
            // What was written before is what fits of the listing before; the
            // rest of that listing lies behind the end of the buffer.
            assert(before + encoded@ + entry.name@ =~= before + entry@.bytes());
            if all.len() <= capacity {
                assert(before == all);
            } else {
                assert(before.len() == capacity);
                assert(fitting(all + entry@.bytes(), capacity as nat) =~= before);
                assert(fitting(before + entry@.bytes(), capacity as nat) =~= before);
            }
            assert(bytes@ == fitting(all + entry@.bytes(), capacity as nat));
        }
        Ok(ReaddirBuffer { bytes, capacity, entries: Ghost(entries@.push(entry@)) })
    }

    /// The bytes for the buffer of the guest; their number is what the call
    /// reports as used.
    pub fn into_bytes(self) -> (bytes: Vec<u8>)
        ensures
            bytes@ == self.written(),
            bytes@ == fitting(listing_bytes(self.entries()), self.capacity()),
    {
        proof {
            use_type_invariant(&self);
        }
        self.bytes
    }
}

/// The listing of some entries and one more is the listing of the entries
/// followed by the bytes of the one.
pub proof fn lemma_listing_push(entries: Seq<DirEntryView>, entry: DirEntryView)
    ensures
        listing_bytes(entries.push(entry)) == listing_bytes(entries) + entry.bytes(),
    decreases entries.len(),
{
    if entries.len() == 0 {
        let one = entries.push(entry);
        assert(one.len() == 1);
        assert(one[0] == entry);
        assert(one.skip(1).len() == 0);
        assert(listing_bytes(one.skip(1)) =~= Seq::<u8>::empty());
        assert(listing_bytes(one) =~= entry.bytes());
        assert(listing_bytes(entries) =~= Seq::<u8>::empty());
        assert(listing_bytes(entries) + entry.bytes() =~= entry.bytes());
    } else {
        assert(entries.push(entry).skip(1) =~= entries.skip(1).push(entry));
        lemma_listing_push(entries.skip(1), entry);
        assert(entries.push(entry)[0] == entries[0]);
        assert(listing_bytes(entries.push(entry)) =~= entries[0].bytes() + (listing_bytes(
            entries.skip(1),
        ) + entry.bytes()));
    }
}


/// How many of the first entries of a listing stand whole in `room` bytes.
pub open spec fn whole_entries(entries: Seq<DirEntryView>, room: int) -> nat
    decreases entries.len(),
{
    if entries.len() == 0 || entries[0].size() > room {
        0
    } else {
        1 + whole_entries(entries.skip(1), room - entries[0].size())
    }
}

/// What a guest gathers of a listing with a buffer of `room` bytes: it
/// takes the entries that stand whole in the buffer, and asks again with
/// the cookie of the last of them, which lets the listing go on behind that
/// entry, until no entry comes whole.
pub open spec fn gathered(entries: Seq<DirEntryView>, room: nat) -> Seq<DirEntryView>
    decreases entries.len(),
{
    let whole = whole_entries(entries, room as int);
    if entries.len() == 0 || whole == 0 || whole > entries.len() {
        Seq::empty()
    } else {
        entries.take(whole as int) + gathered(entries.skip(whole as int), room)
    }
}

/// The bytes of an entry are as many as its size says.
pub proof fn lemma_entry_size(entry: DirEntryView)
    ensures
        entry.bytes().len() == entry.size(),
{
    lemma_dirent_bytes_len(entry.header());
}

/// The entries that stand whole in a buffer are among the entries, and
/// their bytes are the first bytes of what fits the buffer: a cut goes
/// through no entry but the one behind them.
pub proof fn lemma_whole_entries_are_intact(entries: Seq<DirEntryView>, room: nat)
    ensures
        whole_entries(entries, room as int) <= entries.len(),
        listing_bytes(entries.take(whole_entries(entries, room as int) as int)).len() <= room,
        listing_bytes(entries.take(whole_entries(entries, room as int) as int)).len()
            <= fitting(listing_bytes(entries), room).len(),
        fitting(listing_bytes(entries), room).subrange(
            0,
            listing_bytes(entries.take(whole_entries(entries, room as int) as int)).len() as int,
        ) == listing_bytes(entries.take(whole_entries(entries, room as int) as int)),
    decreases entries.len(),
{
    let whole = whole_entries(entries, room as int);
    if entries.len() == 0 || entries[0].size() > room {
        assert(entries.take(0) =~= Seq::<DirEntryView>::empty());
        assert(listing_bytes(entries.take(0)) =~= Seq::<u8>::empty());
        assert(fitting(listing_bytes(entries), room).subrange(0, 0) =~= Seq::<u8>::empty());
    } else {
        let first = entries[0];
        let rest = entries.skip(1);
        let left = (room - first.size()) as nat;
        lemma_entry_size(first);
        lemma_whole_entries_are_intact(rest, left);
        let whole_rest = whole_entries(rest, left as int);
        assert(whole == 1 + whole_rest);
        assert(entries.take(whole as int) =~= seq![first] + rest.take(whole_rest as int));
        assert(entries.take(whole as int)[0] == first);
        assert(entries.take(whole as int).skip(1) =~= rest.take(whole_rest as int));
        let intact_rest = listing_bytes(rest.take(whole_rest as int));
        assert(listing_bytes(entries.take(whole as int)) == first.bytes() + intact_rest);
        let all = listing_bytes(entries);
        let all_rest = listing_bytes(rest);
        assert(all == first.bytes() + all_rest);
        assert(fitting(all, room) =~= first.bytes() + fitting(all_rest, left));
        assert(fitting(all, room).subrange(0, (first.bytes() + intact_rest).len() as int)
            =~= first.bytes() + fitting(all_rest, left).subrange(0, intact_rest.len() as int));
    }
}

/// A buffer that holds the first entry whole holds at least one entry whole.
pub proof fn lemma_whole_entries_progress(entries: Seq<DirEntryView>, room: nat)
    requires
        entries.len() > 0,
        entries[0].size() <= room,
    ensures
        1 <= whole_entries(entries, room as int) <= entries.len(),
{
    lemma_whole_entries_are_intact(entries, room);
}

/// With a buffer that is large enough for each entry of a listing, a guest
/// gathers the whole listing, each entry once and in its order.
pub proof fn lemma_listing_is_gathered(entries: Seq<DirEntryView>, room: nat)
    requires
        forall|i: int| 0 <= i < entries.len() ==> (#[trigger] entries[i]).size() <= room,
    ensures
        gathered(entries, room) == entries,
    decreases entries.len(),
{
    if entries.len() == 0 {
        assert(gathered(entries, room) =~= entries);
    } else {
        lemma_whole_entries_progress(entries, room);
        let whole = whole_entries(entries, room as int) as int;
        let rest = entries.skip(whole);
        assert forall|i: int| 0 <= i < rest.len() implies (#[trigger] rest[i]).size() <= room by {
            assert(rest[i] == entries[i + whole]);
        }
        lemma_listing_is_gathered(rest, room);
        assert(entries.take(whole) + rest =~= entries);
    }
}

/// Reading a directory is restartable: with two buffers, each large enough
/// for each entry of the listing, a guest gathers the same entries.
pub proof fn lemma_readdir_is_restartable(entries: Seq<DirEntryView>, room1: nat, room2: nat)
    requires
        forall|i: int| 0 <= i < entries.len() ==> (#[trigger] entries[i]).size() <= room1,
        forall|i: int| 0 <= i < entries.len() ==> (#[trigger] entries[i]).size() <= room2,
    ensures
        gathered(entries, room1) == gathered(entries, room2),
        gathered(entries, room1).to_multiset() == entries.to_multiset(),
{
    lemma_listing_is_gathered(entries, room1);
    lemma_listing_is_gathered(entries, room2);
}

} // verus!
