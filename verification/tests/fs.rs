//! The calls on descriptors, and what becomes of the answers of the host.

use wasi_common::ctx::{FoundStdio, WasiCtx, WasiCtxBuilder};
use wasi_common::fdentry::{Descriptor, FdEntry, HostFile, HostFileKind, OsHandle};
use wasi_common::host::{
    RIGHTS_DIRECTORY_INHERITING,
    RIGHTS_REGULAR_FILE_BASE,
    __WASI_ADVICE_DONTNEED,
    __WASI_ADVICE_NOREUSE,
    __WASI_ADVICE_NORMAL,
    __WASI_ADVICE_RANDOM,
    __WASI_ADVICE_SEQUENTIAL,
    __WASI_ADVICE_WILLNEED,
    __WASI_DIRCOOKIE_START,
    __WASI_EBADF,
    __WASI_EEXIST,
    __WASI_EILSEQ,
    __WASI_EINVAL,
    __WASI_EISDIR,
    __WASI_ELOOP,
    __WASI_EMLINK,
    __WASI_ENAMETOOLONG,
    __WASI_ENOENT,
    __WASI_ENOTCAPABLE,
    __WASI_ENOTDIR,
    __WASI_ENOTEMPTY,
    __WASI_ENOTSUP,
    __WASI_ENXIO,
    __WASI_EOVERFLOW,
    __WASI_EPERM,
    __WASI_FDFLAG_APPEND,
    __WASI_FDFLAG_DSYNC,
    __WASI_FDFLAG_NONBLOCK,
    __WASI_FDFLAG_RSYNC,
    __WASI_FDFLAG_SYNC,
    __WASI_FILESTAT_SET_ATIM,
    __WASI_FILESTAT_SET_ATIM_NOW,
    __WASI_FILESTAT_SET_MTIM,
    __WASI_FILESTAT_SET_MTIM_NOW,
    __WASI_FILETYPE_DIRECTORY,
    __WASI_FILETYPE_REGULAR_FILE,
    __WASI_LOOKUP_SYMLINK_FOLLOW,
    __WASI_O_CREAT,
    __WASI_O_DIRECTORY,
    __WASI_O_EXCL,
    __WASI_O_TRUNC,
    __WASI_PREOPENTYPE_DIR,
    __WASI_RIGHT_FD_ADVISE,
    __WASI_RIGHT_FD_ALLOCATE,
    __WASI_RIGHT_FD_DATASYNC,
    __WASI_RIGHT_FD_FDSTAT_SET_FLAGS,
    __WASI_RIGHT_FD_FILESTAT_GET,
    __WASI_RIGHT_FD_FILESTAT_SET_SIZE,
    __WASI_RIGHT_FD_FILESTAT_SET_TIMES,
    __WASI_RIGHT_FD_READ,
    __WASI_RIGHT_FD_READDIR,
    __WASI_RIGHT_FD_SEEK,
    __WASI_RIGHT_FD_SYNC,
    __WASI_RIGHT_FD_TELL,
    __WASI_RIGHT_FD_WRITE,
    __WASI_RIGHT_PATH_CREATE_DIRECTORY,
    __WASI_RIGHT_PATH_CREATE_FILE,
    __WASI_RIGHT_PATH_FILESTAT_SET_SIZE,
    __WASI_RIGHT_PATH_FILESTAT_SET_TIMES,
    __WASI_RIGHT_PATH_LINK_SOURCE,
    __WASI_RIGHT_PATH_OPEN,
    __WASI_RIGHT_PATH_READLINK,
    __WASI_RIGHT_PATH_REMOVE_DIRECTORY,
    __WASI_RIGHT_PATH_RENAME_TARGET,
    __WASI_RIGHT_PATH_SYMLINK,
    __WASI_RIGHT_PATH_UNLINK_FILE,
    __WASI_WHENCE_CUR,
    __WASI_WHENCE_END,
    __WASI_WHENCE_SET,
    __wasi_dirent_t,
    __wasi_errno_t,
    __wasi_fd_t,
    __wasi_fdstat_t,
    __wasi_filestat_t,
    __wasi_rights_t,
};
use wasi_common::hostcalls_impl::fs::{
    fd_advise, fd_allocate, fd_close, fd_datasync, fd_fdstat_get, fd_fdstat_set_flags,
    fd_fdstat_set_rights, fd_filestat_get, fd_filestat_set_size, fd_filestat_set_times,
    fd_pread, fd_prestat_dir_name, fd_prestat_get, fd_pwrite, fd_read, fd_read_done,
    fd_readdir, fd_renumber, fd_seek, fd_sync, fd_tell, fd_write, filestat_from_host,
    filestat_set_times_changes, path_create_directory, path_filestat_set_times, path_link,
    path_open, path_open_errno, path_open_finish, path_open_rights, path_readlink,
    path_readlink_copied, path_remove_directory, path_rename, path_symlink, path_unlink_file,
    path_unlink_file_errno, timestamp_from_host, Advice, DirEntry, HostStat, OpenFailure,
    Probe, ReaddirBuffer, SeekFrom, TimeChange,
};
use wasi_common::memory::{enc_dirent, enc_filestat, DIRENT_SIZE, FILESTAT_SIZE};

fn file(handle: u64, kind: HostFileKind) -> HostFile {
    HostFile {
        handle: OsHandle(handle),
        kind,
        readable: true,
        writable: true,
    }
}

fn found() -> FoundStdio {
    FoundStdio {
        stdin: Ok(file(100, HostFileKind::Terminal)),
        stdout: Ok(file(101, HostFileKind::Terminal)),
        stderr: Ok(file(102, HostFileKind::Terminal)),
    }
}

/// Streams 0 to 2, a preopened directory 3, a regular file 4.
fn ctx() -> WasiCtx {
    let mut ctx = WasiCtxBuilder::new()
        .inherit_stdio()
        .preopened_dir(file(10, HostFileKind::Directory), b"/sandbox".to_vec())
        .build(found())
        .unwrap();
    let fd = ctx
        .insert_fd_entry(FdEntry::from(file(20, HostFileKind::RegularFile)).unwrap())
        .unwrap();
    assert_eq!(fd, 4);
    ctx
}

fn without(ctx: &mut WasiCtx, fd: __wasi_fd_t, right: __wasi_rights_t) {
    ctx.get_fd_entry_mut(fd, 0, 0).unwrap().rights_base &= !right;
}

#[test]
fn close_hands_out_the_handle_to_release() {
    let mut ctx = ctx();
    assert_eq!(fd_close(&mut ctx, 4), Ok(Some(OsHandle(20))));
    assert!(!ctx.contains_fd_entry(4));
    assert_eq!(fd_close(&mut ctx, 4), Err(__WASI_EBADF));
    // a standard stream has no handle to release
    assert_eq!(fd_close(&mut ctx, 1), Ok(None));
    // an entry that does not own its handle releases nothing
    let mut borrowed = FdEntry::from(file(30, HostFileKind::RegularFile)).unwrap();
    borrowed.needs_close = false;
    let fd = ctx.insert_fd_entry(borrowed).unwrap();
    assert_eq!(fd_close(&mut ctx, fd), Ok(None));
    // a preopened root stays
    assert_eq!(fd_close(&mut ctx, 3), Err(__WASI_ENOTSUP));
    assert!(ctx.contains_fd_entry(3));
}

#[test]
fn renumber_hands_out_the_handle_of_what_was_replaced() {
    let mut ctx = ctx();
    let other = ctx
        .insert_fd_entry(FdEntry::from(file(21, HostFileKind::RegularFile)).unwrap())
        .unwrap();
    assert_eq!(fd_renumber(&mut ctx, 4, other), Ok(Some(OsHandle(21))));
    assert_eq!(fd_renumber(&mut ctx, 4, other), Err(__WASI_EBADF));
    assert_eq!(fd_renumber(&mut ctx, other, other), Ok(None));
    assert_eq!(fd_renumber(&mut ctx, other, 3), Err(__WASI_ENOTSUP));
    // onto a standard stream: nothing to release
    assert_eq!(fd_renumber(&mut ctx, other, 0), Ok(None));
    assert_eq!(
        ctx.get_fd_entry(0, 0, 0).unwrap().descriptor,
        Descriptor::File(OsHandle(20))
    );
}

#[test]
fn each_call_needs_its_right() {
    let calls: Vec<(
        fn(&WasiCtx, __wasi_fd_t) -> Result<OsHandle, __wasi_errno_t>,
        __wasi_rights_t,
    )> = vec![
        (fd_datasync, __WASI_RIGHT_FD_DATASYNC),
        (fd_sync, __WASI_RIGHT_FD_SYNC),
        (fd_tell, __WASI_RIGHT_FD_TELL),
        (fd_allocate, __WASI_RIGHT_FD_ALLOCATE),
        (fd_fdstat_set_flags, __WASI_RIGHT_FD_FDSTAT_SET_FLAGS),
        (fd_filestat_get, __WASI_RIGHT_FD_FILESTAT_GET),
        (fd_filestat_set_size, __WASI_RIGHT_FD_FILESTAT_SET_SIZE),
        (fd_pread, __WASI_RIGHT_FD_READ),
        (fd_pread, __WASI_RIGHT_FD_SEEK),
        (fd_pwrite, __WASI_RIGHT_FD_WRITE),
        (fd_pwrite, __WASI_RIGHT_FD_SEEK),
    ];
    for (call, right) in calls {
        let mut ctx = ctx();
        assert_eq!(call(&ctx, 4), Ok(OsHandle(20)));
        assert_eq!(call(&ctx, 9), Err(__WASI_EBADF));
        without(&mut ctx, 4, right);
        assert_eq!(call(&ctx, 4), Err(__WASI_ENOTCAPABLE));
    }
    // a standard stream has no handle
    let ctx = ctx();
    assert_eq!(fd_filestat_get(&ctx, 0), Err(__WASI_EBADF));
    // a directory can be listed, a file cannot
    assert_eq!(fd_readdir(&ctx, 3), Ok(OsHandle(10)));
    assert_eq!(fd_readdir(&ctx, 4), Err(__WASI_ENOTCAPABLE));
}

#[test]
fn read_and_write_go_to_files_and_to_the_right_streams() {
    let mut ctx = ctx();
    assert_eq!(fd_read(&ctx, 4), Ok(Descriptor::File(OsHandle(20))));
    assert_eq!(fd_write(&ctx, 4), Ok(Descriptor::File(OsHandle(20))));
    assert_eq!(fd_read(&ctx, 0), Ok(Descriptor::Stdin));
    assert_eq!(fd_write(&ctx, 1), Ok(Descriptor::Stdout));
    assert_eq!(fd_write(&ctx, 2), Ok(Descriptor::Stderr));
    assert_eq!(fd_read(&ctx, 1), Err(__WASI_EBADF));
    assert_eq!(fd_read(&ctx, 2), Err(__WASI_EBADF));
    assert_eq!(fd_write(&ctx, 0), Err(__WASI_EBADF));
    assert_eq!(fd_read(&ctx, 9), Err(__WASI_EBADF));
    // a directory has no right to be read or written
    assert_eq!(fd_read(&ctx, 3), Err(__WASI_ENOTCAPABLE));
    assert_eq!(fd_write(&ctx, 3), Err(__WASI_ENOTCAPABLE));
    without(&mut ctx, 4, __WASI_RIGHT_FD_READ);
    assert_eq!(fd_read(&ctx, 4), Err(__WASI_ENOTCAPABLE));
    assert!(fd_write(&ctx, 4).is_ok());
}

#[test]
fn the_end_of_standard_input_needs_no_close() {
    let mut ctx = ctx();
    assert!(ctx.get_fd_entry(0, 0, 0).unwrap().needs_close);
    fd_read_done(&mut ctx, 0, 5);
    assert!(ctx.get_fd_entry(0, 0, 0).unwrap().needs_close);
    fd_read_done(&mut ctx, 0, 0);
    assert!(!ctx.get_fd_entry(0, 0, 0).unwrap().needs_close);
    assert_eq!(ctx.get_fd_entry(0, 0, 0).unwrap().descriptor, Descriptor::Stdin);
    // the end of a file changes nothing
    fd_read_done(&mut ctx, 4, 0);
    assert!(ctx.get_fd_entry(4, 0, 0).unwrap().needs_close);
    fd_read_done(&mut ctx, 9, 0);
    assert!(!ctx.contains_fd_entry(9));
}

#[test]
fn seek_needs_seek_and_tell_needs_tell() {
    let mut ctx = ctx();
    assert_eq!(
        fd_seek(&ctx, 4, 10, __WASI_WHENCE_SET),
        Ok((OsHandle(20), SeekFrom::Start(10)))
    );
    assert_eq!(
        fd_seek(&ctx, 4, -3, __WASI_WHENCE_END),
        Ok((OsHandle(20), SeekFrom::End(-3)))
    );
    assert_eq!(
        fd_seek(&ctx, 4, 7, __WASI_WHENCE_CUR),
        Ok((OsHandle(20), SeekFrom::Current(7)))
    );
    assert_eq!(fd_seek(&ctx, 4, 0, 3), Err(__WASI_EINVAL));
    assert_eq!(fd_seek(&ctx, 9, 0, __WASI_WHENCE_SET), Err(__WASI_EBADF));
    without(&mut ctx, 4, __WASI_RIGHT_FD_SEEK);
    assert_eq!(
        fd_seek(&ctx, 4, 10, __WASI_WHENCE_SET),
        Err(__WASI_ENOTCAPABLE)
    );
    assert_eq!(
        fd_seek(&ctx, 4, 1, __WASI_WHENCE_CUR),
        Err(__WASI_ENOTCAPABLE)
    );
    // to ask where the cursor stands takes the right to tell only
    assert_eq!(
        fd_seek(&ctx, 4, 0, __WASI_WHENCE_CUR),
        Ok((OsHandle(20), SeekFrom::Current(0)))
    );
    without(&mut ctx, 4, __WASI_RIGHT_FD_TELL);
    assert_eq!(
        fd_seek(&ctx, 4, 0, __WASI_WHENCE_CUR),
        Err(__WASI_ENOTCAPABLE)
    );
    // the rights come before the whence
    assert_eq!(fd_seek(&ctx, 4, 0, 9), Err(__WASI_ENOTCAPABLE));
}

#[test]
fn fdstat_reports_type_rights_and_the_flags_of_the_host() {
    let ctx = ctx();
    let stat = fd_fdstat_get(&ctx, 4, __WASI_FDFLAG_APPEND).unwrap();
    assert_eq!(
        stat,
        __wasi_fdstat_t {
            fs_filetype: __WASI_FILETYPE_REGULAR_FILE,
            fs_flags: __WASI_FDFLAG_APPEND,
            fs_rights_base: RIGHTS_REGULAR_FILE_BASE,
            fs_rights_inheriting: 0,
        }
    );
    let stat = fd_fdstat_get(&ctx, 3, 0).unwrap();
    assert_eq!(stat.fs_filetype, __WASI_FILETYPE_DIRECTORY);
    assert_eq!(stat.fs_rights_inheriting, RIGHTS_DIRECTORY_INHERITING);
    assert_eq!(fd_fdstat_get(&ctx, 9, 0), Err(__WASI_EBADF));
}

#[test]
fn rights_can_be_given_up_but_not_gained() {
    let mut ctx = ctx();
    assert_eq!(
        fd_fdstat_set_rights(&mut ctx, 4, __WASI_RIGHT_FD_READ, 0),
        Ok(())
    );
    assert_eq!(
        ctx.get_fd_entry(4, 0, 0).unwrap().rights_base,
        __WASI_RIGHT_FD_READ
    );
    assert_eq!(
        fd_fdstat_set_rights(&mut ctx, 4, __WASI_RIGHT_FD_READ | __WASI_RIGHT_FD_WRITE, 0),
        Err(__WASI_ENOTCAPABLE)
    );
    assert_eq!(
        fd_fdstat_set_rights(&mut ctx, 4, 0, __WASI_RIGHT_FD_READ),
        Err(__WASI_ENOTCAPABLE)
    );
    assert_eq!(
        ctx.get_fd_entry(4, 0, 0).unwrap().rights_base,
        __WASI_RIGHT_FD_READ
    );
    assert_eq!(fd_fdstat_set_rights(&mut ctx, 9, 0, 0), Err(__WASI_EBADF));
    assert_eq!(
        fd_fdstat_set_rights(&mut ctx, 3, __WASI_RIGHT_PATH_OPEN, __WASI_RIGHT_FD_READ),
        Ok(())
    );
    assert_eq!(
        ctx.get_fd_entry(3, 0, 0).unwrap().rights_inheriting,
        __WASI_RIGHT_FD_READ
    );
}

#[test]
fn advice_that_does_not_exist_is_invalid() {
    let mut ctx = ctx();
    let all = [
        (__WASI_ADVICE_NORMAL, Advice::Normal),
        (__WASI_ADVICE_SEQUENTIAL, Advice::Sequential),
        (__WASI_ADVICE_RANDOM, Advice::Random),
        (__WASI_ADVICE_WILLNEED, Advice::WillNeed),
        (__WASI_ADVICE_DONTNEED, Advice::DontNeed),
        (__WASI_ADVICE_NOREUSE, Advice::NoReuse),
    ];
    for (number, advice) in all {
        assert_eq!(fd_advise(&ctx, 4, number), Ok((OsHandle(20), advice)));
    }
    assert_eq!(fd_advise(&ctx, 4, 6), Err(__WASI_EINVAL));
    assert_eq!(fd_advise(&ctx, 4, 255), Err(__WASI_EINVAL));
    assert_eq!(fd_advise(&ctx, 9, 0), Err(__WASI_EBADF));
    without(&mut ctx, 4, __WASI_RIGHT_FD_ADVISE);
    assert_eq!(fd_advise(&ctx, 4, 0), Err(__WASI_ENOTCAPABLE));
    assert_eq!(fd_advise(&ctx, 4, 6), Err(__WASI_ENOTCAPABLE));
}

#[test]
fn the_flags_of_set_times_choose_now_a_time_or_nothing() {
    assert_eq!(
        filestat_set_times_changes(1, 2, 0),
        Ok((TimeChange::Omit, TimeChange::Omit))
    );
    assert_eq!(
        filestat_set_times_changes(1, 2, __WASI_FILESTAT_SET_ATIM),
        Ok((TimeChange::SetTo(1), TimeChange::Omit))
    );
    assert_eq!(
        filestat_set_times_changes(1, 2, __WASI_FILESTAT_SET_MTIM),
        Ok((TimeChange::Omit, TimeChange::SetTo(2)))
    );
    assert_eq!(
        filestat_set_times_changes(
            1,
            2,
            __WASI_FILESTAT_SET_ATIM_NOW | __WASI_FILESTAT_SET_MTIM
        ),
        Ok((TimeChange::Now, TimeChange::SetTo(2)))
    );
    assert_eq!(
        filestat_set_times_changes(
            1,
            2,
            __WASI_FILESTAT_SET_ATIM_NOW | __WASI_FILESTAT_SET_MTIM_NOW
        ),
        Ok((TimeChange::Now, TimeChange::Now))
    );
    assert_eq!(
        filestat_set_times_changes(1, 2, __WASI_FILESTAT_SET_ATIM | __WASI_FILESTAT_SET_ATIM_NOW),
        Err(__WASI_EINVAL)
    );
    assert_eq!(
        filestat_set_times_changes(1, 2, __WASI_FILESTAT_SET_MTIM | __WASI_FILESTAT_SET_MTIM_NOW),
        Err(__WASI_EINVAL)
    );
}

#[test]
fn set_times_needs_its_right_and_flags_that_agree() {
    let mut ctx = ctx();
    assert_eq!(
        fd_filestat_set_times(&ctx, 4, 5, 6, __WASI_FILESTAT_SET_ATIM),
        Ok((OsHandle(20), TimeChange::SetTo(5), TimeChange::Omit))
    );
    assert_eq!(
        fd_filestat_set_times(
            &ctx,
            4,
            5,
            6,
            __WASI_FILESTAT_SET_ATIM | __WASI_FILESTAT_SET_ATIM_NOW
        ),
        Err(__WASI_EINVAL)
    );
    assert_eq!(fd_filestat_set_times(&ctx, 9, 5, 6, 0), Err(__WASI_EBADF));
    without(&mut ctx, 4, __WASI_RIGHT_FD_FILESTAT_SET_TIMES);
    assert_eq!(
        fd_filestat_set_times(&ctx, 4, 5, 6, 0),
        Err(__WASI_ENOTCAPABLE)
    );
    let path = b"f".to_vec();
    let (pending, atim, mtim) = path_filestat_set_times(
        &ctx,
        3,
        __WASI_LOOKUP_SYMLINK_FOLLOW,
        &path,
        5,
        6,
        __WASI_FILESTAT_SET_MTIM_NOW,
    )
    .unwrap();
    assert_eq!((atim, mtim), (TimeChange::Omit, TimeChange::Now));
    assert_eq!(pending.dir, OsHandle(10));
    assert_eq!(pending.dirflags, __WASI_LOOKUP_SYMLINK_FOLLOW);
    assert!(!pending.needs_final_component);
    assert_eq!(
        path_filestat_set_times(
            &ctx,
            3,
            0,
            &path,
            5,
            6,
            __WASI_FILESTAT_SET_MTIM | __WASI_FILESTAT_SET_MTIM_NOW
        )
        .err(),
        Some(__WASI_EINVAL)
    );
    without(&mut ctx, 3, __WASI_RIGHT_PATH_FILESTAT_SET_TIMES);
    assert_eq!(
        path_filestat_set_times(&ctx, 3, 0, &path, 5, 6, 0).err(),
        Some(__WASI_ENOTCAPABLE)
    );
}

#[test]
fn each_call_on_a_path_needs_its_right_on_the_directory() {
    let calls: Vec<(
        fn(&WasiCtx, __wasi_fd_t, &Vec<u8>) -> Result<
            wasi_common::hostcalls_impl::fs_helpers::PendingClone,
            __wasi_errno_t,
        >,
        __wasi_rights_t,
    )> = vec![
        (path_create_directory, __WASI_RIGHT_PATH_CREATE_DIRECTORY),
        (path_readlink, __WASI_RIGHT_PATH_READLINK),
        (path_symlink, __WASI_RIGHT_PATH_SYMLINK),
        (path_unlink_file, __WASI_RIGHT_PATH_UNLINK_FILE),
        (path_remove_directory, __WASI_RIGHT_PATH_REMOVE_DIRECTORY),
    ];
    let path = b"some/path".to_vec();
    for (call, right) in calls {
        let mut ctx = ctx();
        let pending = call(&ctx, 3, &path).unwrap();
        assert_eq!(pending.dir, OsHandle(10));
        assert_eq!(pending.path, path);
        assert_eq!(pending.dirflags, 0);
        assert!(!pending.needs_final_component);
        assert_eq!(call(&ctx, 9, &path).err(), Some(__WASI_EBADF));
        assert_eq!(call(&ctx, 4, &path).err(), Some(__WASI_ENOTCAPABLE));
        assert_eq!(call(&ctx, 3, &b"a\0".to_vec()).err(), Some(__WASI_EILSEQ));
        without(&mut ctx, 3, right);
        assert_eq!(call(&ctx, 3, &path).err(), Some(__WASI_ENOTCAPABLE));
    }
}

#[test]
fn link_and_rename_check_both_sides() {
    let old = b"old".to_vec();
    let new = b"new".to_vec();
    let mut c = ctx();
    let (from, to) = path_rename(&c, 3, &old, 3, &new).unwrap();
    assert_eq!((from.path, to.path), (old.clone(), new.clone()));
    let (from, to) = path_link(&c, 3, &old, 3, &new).unwrap();
    assert_eq!((from.dir, to.dir), (OsHandle(10), OsHandle(10)));
    assert_eq!(path_rename(&c, 9, &old, 3, &new).err(), Some(__WASI_EBADF));
    assert_eq!(path_rename(&c, 3, &old, 9, &new).err(), Some(__WASI_EBADF));
    without(&mut c, 3, __WASI_RIGHT_PATH_RENAME_TARGET);
    assert_eq!(
        path_rename(&c, 3, &old, 3, &new).err(),
        Some(__WASI_ENOTCAPABLE)
    );
    assert!(path_link(&c, 3, &old, 3, &new).is_ok());
    without(&mut c, 3, __WASI_RIGHT_PATH_LINK_SOURCE);
    assert_eq!(
        path_link(&c, 3, &old, 3, &new).err(),
        Some(__WASI_ENOTCAPABLE)
    );
}

#[test]
fn the_rights_for_an_open_follow_its_flags() {
    assert_eq!(path_open_rights(0, 0, 0, 0), (__WASI_RIGHT_PATH_OPEN, 0));
    assert_eq!(
        path_open_rights(0, 0, __WASI_O_CREAT, 0),
        (__WASI_RIGHT_PATH_OPEN | __WASI_RIGHT_PATH_CREATE_FILE, 0)
    );
    assert_eq!(
        path_open_rights(0, 0, __WASI_O_TRUNC, 0),
        (
            __WASI_RIGHT_PATH_OPEN | __WASI_RIGHT_PATH_FILESTAT_SET_SIZE,
            0
        )
    );
    assert_eq!(
        path_open_rights(0, 0, __WASI_O_CREAT | __WASI_O_TRUNC | __WASI_O_EXCL, 0),
        (
            __WASI_RIGHT_PATH_OPEN
                | __WASI_RIGHT_PATH_CREATE_FILE
                | __WASI_RIGHT_PATH_FILESTAT_SET_SIZE,
            0
        )
    );
    assert_eq!(
        path_open_rights(0, 0, __WASI_O_DIRECTORY, __WASI_FDFLAG_DSYNC),
        (__WASI_RIGHT_PATH_OPEN, __WASI_RIGHT_FD_DATASYNC)
    );
    assert_eq!(
        path_open_rights(0, 0, 0, __WASI_FDFLAG_RSYNC),
        (__WASI_RIGHT_PATH_OPEN, __WASI_RIGHT_FD_SYNC)
    );
    assert_eq!(
        path_open_rights(0, 0, 0, __WASI_FDFLAG_SYNC),
        (__WASI_RIGHT_PATH_OPEN, __WASI_RIGHT_FD_SYNC)
    );
    assert_eq!(
        path_open_rights(0, 0, 0, __WASI_FDFLAG_APPEND | __WASI_FDFLAG_NONBLOCK),
        (__WASI_RIGHT_PATH_OPEN, 0)
    );
    assert_eq!(
        path_open_rights(
            __WASI_RIGHT_FD_READ,
            __WASI_RIGHT_FD_WRITE,
            0,
            __WASI_FDFLAG_DSYNC | __WASI_FDFLAG_SYNC
        ),
        (
            __WASI_RIGHT_FD_READ | __WASI_RIGHT_PATH_OPEN,
            __WASI_RIGHT_FD_WRITE | __WASI_RIGHT_FD_DATASYNC | __WASI_RIGHT_FD_SYNC
        )
    );
}

#[test]
fn an_open_reads_and_writes_by_the_rights_asked_for() {
    let ctx = ctx();
    let path = b"f".to_vec();
    let open = |rights| {
        let plan = path_open(&ctx, 3, 0, &path, 0, rights, 0, 0).unwrap();
        (plan.read, plan.write)
    };
    assert_eq!(open(0), (false, false));
    assert_eq!(open(__WASI_RIGHT_FD_READ), (true, false));
    assert_eq!(open(__WASI_RIGHT_FD_READDIR), (true, false));
    assert_eq!(open(__WASI_RIGHT_FD_WRITE), (false, true));
    assert_eq!(open(__WASI_RIGHT_FD_DATASYNC), (false, true));
    assert_eq!(open(__WASI_RIGHT_FD_ALLOCATE), (false, true));
    assert_eq!(open(__WASI_RIGHT_FD_FILESTAT_SET_SIZE), (false, true));
    assert_eq!(open(__WASI_RIGHT_FD_SEEK | __WASI_RIGHT_FD_TELL), (false, false));
    assert_eq!(
        open(__WASI_RIGHT_FD_READ | __WASI_RIGHT_FD_WRITE),
        (true, true)
    );
    // the last component is needed where the file may be made
    let plan = path_open(&ctx, 3, 0, &path, __WASI_O_CREAT, 0, 0, __WASI_FDFLAG_APPEND).unwrap();
    assert!(plan.resolve.needs_final_component);
    assert_eq!(plan.oflags, __WASI_O_CREAT);
    assert_eq!(plan.fs_flags, __WASI_FDFLAG_APPEND);
    let plan = path_open(&ctx, 3, 1, &path, __WASI_O_EXCL, 0, 0, 0).unwrap();
    assert!(!plan.resolve.needs_final_component);
    assert_eq!(plan.resolve.dirflags, 1);
    assert_eq!(
        path_open(&ctx, 4, 0, &path, 0, 0, 0, 0).err(),
        Some(__WASI_ENOTCAPABLE)
    );
}

#[test]
fn the_error_of_an_open_is_told_by_what_stands_at_the_path() {
    assert_eq!(path_open_errno(__WASI_ENXIO, Probe::Socket), __WASI_ENOTSUP);
    assert_eq!(path_open_errno(__WASI_ENXIO, Probe::Other), __WASI_ENXIO);
    assert_eq!(path_open_errno(__WASI_ENXIO, Probe::Symlink), __WASI_ENXIO);
    assert_eq!(path_open_errno(__WASI_ENOTDIR, Probe::Symlink), __WASI_ELOOP);
    assert_eq!(path_open_errno(__WASI_ENOTDIR, Probe::Other), __WASI_ENOTDIR);
    assert_eq!(path_open_errno(__WASI_ENOTDIR, Probe::Socket), __WASI_ENOTDIR);
    assert_eq!(path_open_errno(__WASI_EMLINK, Probe::Other), __WASI_ELOOP);
    assert_eq!(path_open_errno(__WASI_EEXIST, Probe::Symlink), __WASI_EEXIST);
    assert_eq!(path_open_errno(__WASI_ENOENT, Probe::Socket), __WASI_ENOENT);
}

#[test]
fn a_failed_finish_hands_the_file_back() {
    let mut ctx = ctx();
    let f = file(30, HostFileKind::RegularFile);
    assert_eq!(
        path_open_finish(&mut ctx, 9, 0, 0, f),
        Err(OpenFailure {
            errno: __WASI_EBADF,
            close: OsHandle(30)
        })
    );
    assert_eq!(
        path_open_finish(&mut ctx, 3, 0, 0, file(31, HostFileKind::Unknown)),
        Err(OpenFailure {
            errno: __WASI_EINVAL,
            close: OsHandle(31)
        })
    );
    assert!(!ctx.contains_fd_entry(5));
    assert_eq!(
        path_open_finish(&mut ctx, 3, __WASI_RIGHT_FD_READ, 0, f),
        Ok(5)
    );
}

#[test]
fn an_unlink_refused_for_a_directory_says_so() {
    assert_eq!(path_unlink_file_errno(__WASI_EPERM, true), __WASI_EISDIR);
    assert_eq!(path_unlink_file_errno(__WASI_EPERM, false), __WASI_EPERM);
    assert_eq!(path_unlink_file_errno(__WASI_EISDIR, true), __WASI_EISDIR);
    assert_eq!(path_unlink_file_errno(__WASI_ENOENT, true), __WASI_ENOENT);
    assert_eq!(
        path_unlink_file_errno(__WASI_ENOTEMPTY, false),
        __WASI_ENOTEMPTY
    );
}

#[test]
fn a_link_is_copied_as_far_as_the_buffer_goes() {
    assert_eq!(path_readlink_copied(5, 10), 5);
    assert_eq!(path_readlink_copied(10, 10), 10);
    assert_eq!(path_readlink_copied(11, 10), 10);
    assert_eq!(path_readlink_copied(3, 0), 0);
    assert_eq!(path_readlink_copied(0, 0), 0);
}

#[test]
fn timestamps_are_nanoseconds_or_overflow() {
    assert_eq!(timestamp_from_host(0, 0), Ok(0));
    assert_eq!(timestamp_from_host(1, 5), Ok(1_000_000_005));
    assert_eq!(
        timestamp_from_host(1_700_000_000, 999_999_999),
        Ok(1_700_000_000_999_999_999)
    );
    // the last second that fits 64 bits
    assert_eq!(
        timestamp_from_host(18_446_744_073, 709_551_615),
        Ok(u64::MAX)
    );
    assert_eq!(
        timestamp_from_host(18_446_744_073, 709_551_616),
        Err(__WASI_EOVERFLOW)
    );
    assert_eq!(timestamp_from_host(18_446_744_074, 0), Err(__WASI_EOVERFLOW));
    assert_eq!(timestamp_from_host(i64::MAX, 0), Err(__WASI_EOVERFLOW));
    assert_eq!(timestamp_from_host(-1, 0), Err(__WASI_EOVERFLOW));
    assert_eq!(timestamp_from_host(0, -1), Err(__WASI_EOVERFLOW));
}

fn host_stat() -> HostStat {
    HostStat {
        dev: 1,
        ino: 2,
        filetype: __WASI_FILETYPE_REGULAR_FILE,
        nlink: 3,
        size: 4,
        atim_sec: 5,
        atim_nsec: 6,
        mtim_sec: 7,
        mtim_nsec: 8,
        ctim_sec: 9,
        ctim_nsec: 10,
    }
}

#[test]
fn a_filestat_is_what_the_host_reports_in_nanoseconds() {
    assert_eq!(
        filestat_from_host(&host_stat()),
        Ok(__wasi_filestat_t {
            st_dev: 1,
            st_ino: 2,
            st_filetype: __WASI_FILETYPE_REGULAR_FILE,
            st_nlink: 3,
            st_size: 4,
            st_atim: 5_000_000_006,
            st_mtim: 7_000_000_008,
            st_ctim: 9_000_000_010,
        })
    );
    let many_links = HostStat {
        nlink: u32::MAX as u64 + 1,
        ..host_stat()
    };
    assert_eq!(filestat_from_host(&many_links), Err(__WASI_EOVERFLOW));
    let far = HostStat {
        ctim_sec: i64::MAX,
        ..host_stat()
    };
    assert_eq!(filestat_from_host(&far), Err(__WASI_EOVERFLOW));
    let before = HostStat {
        mtim_sec: -1,
        ..host_stat()
    };
    assert_eq!(filestat_from_host(&before), Err(__WASI_EOVERFLOW));
}

#[test]
fn a_filestat_is_laid_out_in_56_bytes() {
    let filestat = __wasi_filestat_t {
        st_dev: 0x0101,
        st_ino: 0x0202,
        st_filetype: 4,
        st_nlink: 0x0303,
        st_size: 0x0404,
        st_atim: 0x0505,
        st_mtim: 0x0606,
        st_ctim: 0x0707,
    };
    let bytes = enc_filestat(&filestat);
    assert_eq!(bytes.len(), FILESTAT_SIZE);
    let mut expected = vec![0u8; 56];
    expected[0..2].copy_from_slice(&[1, 1]);
    expected[8..10].copy_from_slice(&[2, 2]);
    expected[16] = 4;
    expected[20..22].copy_from_slice(&[3, 3]);
    expected[24..26].copy_from_slice(&[4, 4]);
    expected[32..34].copy_from_slice(&[5, 5]);
    expected[40..42].copy_from_slice(&[6, 6]);
    expected[48..50].copy_from_slice(&[7, 7]);
    assert_eq!(bytes, expected);
}

#[test]
fn a_preopened_directory_tells_its_name() {
    let mut ctx = ctx();
    let prestat = fd_prestat_get(&ctx, 3).unwrap();
    assert_eq!(prestat.pr_type, __WASI_PREOPENTYPE_DIR);
    assert_eq!(prestat.u.dir.pr_name_len, 8);
    assert_eq!(fd_prestat_dir_name(&ctx, 3, 8), Ok(b"/sandbox".to_vec()));
    assert_eq!(fd_prestat_dir_name(&ctx, 3, 100), Ok(b"/sandbox".to_vec()));
    assert_eq!(fd_prestat_dir_name(&ctx, 3, 7), Err(__WASI_ENAMETOOLONG));
    assert_eq!(fd_prestat_dir_name(&ctx, 3, 0), Err(__WASI_ENAMETOOLONG));
    // what is no preopened root
    let dir = ctx
        .insert_fd_entry(FdEntry::from(file(40, HostFileKind::Directory)).unwrap())
        .unwrap();
    assert_eq!(fd_prestat_get(&ctx, dir), Err(__WASI_ENOTSUP));
    assert_eq!(fd_prestat_dir_name(&ctx, dir, 100), Err(__WASI_ENOTSUP));
    // what lacks the right to open paths
    assert_eq!(fd_prestat_get(&ctx, 4), Err(__WASI_ENOTCAPABLE));
    assert_eq!(fd_prestat_get(&ctx, 9), Err(__WASI_EBADF));
    assert_eq!(fd_prestat_dir_name(&ctx, 9, 100), Err(__WASI_EBADF));
    // a preopened root that is no directory
    let mut device = FdEntry::from(file(41, HostFileKind::CharacterDevice)).unwrap();
    device.preopen_path = Some(b"/dev".to_vec());
    let fd = ctx.insert_fd_entry(device).unwrap();
    assert_eq!(fd_prestat_get(&ctx, fd), Err(__WASI_ENOTDIR));
    assert_eq!(fd_prestat_dir_name(&ctx, fd, 100), Err(__WASI_ENOTDIR));
}

fn dir_entry(name: &str, ino: u64, next: u64) -> DirEntry {
    DirEntry {
        ino,
        next,
        file_type: __WASI_FILETYPE_REGULAR_FILE,
        name: name.as_bytes().to_vec(),
    }
}

#[test]
fn a_dirent_is_laid_out_in_24_bytes() {
    let header = __wasi_dirent_t {
        d_next: 0x0807_0605_0403_0201,
        d_ino: 0x1817_1615_1413_1211,
        d_namlen: 0x2423_2221,
        d_type: 7,
    };
    let bytes = enc_dirent(&header);
    assert_eq!(bytes.len(), DIRENT_SIZE);
    assert_eq!(
        bytes,
        vec![
            1, 2, 3, 4, 5, 6, 7, 8, 0x11, 0x12, 0x13, 0x14, 0x15, 0x16, 0x17, 0x18, 0x21, 0x22,
            0x23, 0x24, 7, 0, 0, 0
        ]
    );
}

#[test]
fn the_buffer_of_readdir_holds_header_and_name() {
    let buf = ReaddirBuffer::new(100);
    assert!(!buf.is_full());
    let buf = buf.push(&dir_entry("ab", 5, 1)).unwrap();
    let bytes = buf.into_bytes();
    let mut expected = enc_dirent(&__wasi_dirent_t {
        d_next: 1,
        d_ino: 5,
        d_namlen: 2,
        d_type: __WASI_FILETYPE_REGULAR_FILE,
    });
    expected.extend_from_slice(b"ab");
    assert_eq!(bytes, expected);
    assert_eq!(bytes.len(), 26);
}

#[test]
fn an_entry_that_does_not_fit_is_cut_where_the_buffer_ends() {
    let first = dir_entry("abc", 1, 1);
    let second = dir_entry("defgh", 2, 2);
    let mut all = ReaddirBuffer::new(1000)
        .push(&first)
        .unwrap()
        .push(&second)
        .unwrap()
        .into_bytes();
    assert_eq!(all.len(), 27 + 29);
    for capacity in [0usize, 1, 10, 24, 26, 27, 28, 40, 51, 55, 56, 57] {
        let buf = ReaddirBuffer::new(capacity).push(&first).unwrap();
        let full_after_first = buf.is_full();
        assert_eq!(full_after_first, capacity <= 27);
        let buf = buf.push(&second).unwrap();
        assert_eq!(buf.is_full(), capacity <= 56);
        let bytes = buf.into_bytes();
        let fits = capacity.min(all.len());
        assert_eq!(bytes, all[..fits].to_vec(), "capacity {}", capacity);
    }
    all.truncate(0);
}

/// Lists a directory as a guest does: with a buffer of `capacity` bytes,
/// again and again with the cookie of the last entry that came whole.
fn list(entries: &[DirEntry], capacity: usize) -> Vec<Vec<u8>> {
    let mut names = Vec::new();
    let mut cookie: u64 = __WASI_DIRCOOKIE_START;
    loop {
        // the cursor of the host goes on behind the entry with the cookie
        let start = if cookie == __WASI_DIRCOOKIE_START {
            0
        } else {
            entries.iter().position(|e| e.next == cookie).unwrap() + 1
        };
        let mut buf = ReaddirBuffer::new(capacity);
        for entry in &entries[start..] {
            if buf.is_full() {
                break;
            }
            buf = buf.push(entry).unwrap();
        }
        let bytes = buf.into_bytes();
        let used = bytes.len();
        let mut at = 0;
        let mut whole = 0;
        while at + 24 <= used {
            let namlen = u32::from_le_bytes([
                bytes[at + 16],
                bytes[at + 17],
                bytes[at + 18],
                bytes[at + 19],
            ]) as usize;
            if at + 24 + namlen > used {
                break;
            }
            cookie = u64::from_le_bytes([
                bytes[at],
                bytes[at + 1],
                bytes[at + 2],
                bytes[at + 3],
                bytes[at + 4],
                bytes[at + 5],
                bytes[at + 6],
                bytes[at + 7],
            ]);
            names.push(bytes[at + 24..at + 24 + namlen].to_vec());
            at += 24 + namlen;
            whole += 1;
        }
        if used < capacity {
            return names;
        }
        assert!(whole > 0, "the buffer is too small for an entry");
    }
}

#[test]
fn readdir_lists_every_entry_with_a_buffer_of_64_bytes() {
    let entries = vec![
        dir_entry(".", 1, 1),
        dir_entry("..", 2, 2),
        dir_entry("a", 3, 3),
        dir_entry("b", 4, 4),
        dir_entry("c", 5, 5),
    ];
    let mut names: Vec<Vec<u8>> = list(&entries, 64)
        .into_iter()
        .filter(|n| n != b"." && n != b"..")
        .collect();
    names.sort();
    assert_eq!(names, vec![b"a".to_vec(), b"b".to_vec(), b"c".to_vec()]);
}

#[test]
fn readdir_lists_the_same_entries_with_any_buffer() {
    let entries = vec![
        dir_entry("first", 1, 10),
        dir_entry("second-with-a-longer-name", 2, 20),
        dir_entry("3", 3, 30),
        dir_entry("fourth", 4, 40),
    ];
    let expected: Vec<Vec<u8>> = entries.iter().map(|e| e.name.clone()).collect();
    for capacity in [49usize, 50, 64, 100, 127, 128, 1000] {
        assert_eq!(list(&entries, capacity), expected, "capacity {}", capacity);
    }
    assert_eq!(list(&[], 64), Vec::<Vec<u8>>::new());
}
