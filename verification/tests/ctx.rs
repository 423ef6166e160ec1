//! The descriptor table and the builder of contexts.

use wasi_common::ctx::{FoundStdio, PendingFdEntry, WasiCtx, WasiCtxBuilder};
use wasi_common::fdentry::{
    determine_type_and_access_rights, determine_type_rights, Descriptor, FdEntry, HostFile,
    HostFileKind, OsHandle,
};
use wasi_common::host::{
    rights_contain,
    RIGHTS_ALL,
    RIGHTS_DIRECTORY_BASE,
    RIGHTS_DIRECTORY_INHERITING,
    RIGHTS_REGULAR_FILE_BASE,
    RIGHTS_REGULAR_FILE_INHERITING,
    RIGHTS_SOCKET_BASE,
    RIGHTS_SOCKET_INHERITING,
    RIGHTS_TTY_BASE,
    __WASI_EACCES,
    __WASI_EBADF,
    __WASI_EINVAL,
    __WASI_EIO,
    __WASI_ENOTCAPABLE,
    __WASI_ENOTSUP,
    __WASI_FILETYPE_BLOCK_DEVICE,
    __WASI_FILETYPE_CHARACTER_DEVICE,
    __WASI_FILETYPE_DIRECTORY,
    __WASI_FILETYPE_REGULAR_FILE,
    __WASI_FILETYPE_SOCKET_DGRAM,
    __WASI_FILETYPE_SOCKET_STREAM,
    __WASI_FILETYPE_UNKNOWN,
    __WASI_RIGHT_FD_ADVISE,
    __WASI_RIGHT_FD_ALLOCATE,
    __WASI_RIGHT_FD_DATASYNC,
    __WASI_RIGHT_FD_FDSTAT_SET_FLAGS,
    __WASI_RIGHT_FD_FILESTAT_GET,
    __WASI_RIGHT_FD_FILESTAT_SET_SIZE,
    __WASI_RIGHT_FD_FILESTAT_SET_TIMES,
    __WASI_RIGHT_FD_READ,
    __WASI_RIGHT_FD_READDIR,
    __WASI_RIGHT_FD_SEEK,
    __WASI_RIGHT_FD_SYNC,
    __WASI_RIGHT_FD_TELL,
    __WASI_RIGHT_FD_WRITE,
    __WASI_RIGHT_PATH_CREATE_DIRECTORY,
    __WASI_RIGHT_PATH_CREATE_FILE,
    __WASI_RIGHT_PATH_FILESTAT_GET,
    __WASI_RIGHT_PATH_FILESTAT_SET_SIZE,
    __WASI_RIGHT_PATH_FILESTAT_SET_TIMES,
    __WASI_RIGHT_PATH_LINK_SOURCE,
    __WASI_RIGHT_PATH_LINK_TARGET,
    __WASI_RIGHT_PATH_OPEN,
    __WASI_RIGHT_PATH_READLINK,
    __WASI_RIGHT_PATH_REMOVE_DIRECTORY,
    __WASI_RIGHT_PATH_RENAME_SOURCE,
    __WASI_RIGHT_PATH_RENAME_TARGET,
    __WASI_RIGHT_PATH_SYMLINK,
    __WASI_RIGHT_PATH_UNLINK_FILE,
    __WASI_RIGHT_POLL_FD_READWRITE,
    __WASI_RIGHT_SOCK_SHUTDOWN,
};

fn file(handle: u64, kind: HostFileKind) -> HostFile {
    HostFile {
        handle: OsHandle(handle),
        kind,
        readable: true,
        writable: true,
    }
}

fn found() -> FoundStdio {
    FoundStdio {
        stdin: Ok(file(100, HostFileKind::Terminal)),
        stdout: Ok(file(101, HostFileKind::Terminal)),
        stderr: Ok(file(102, HostFileKind::Terminal)),
    }
}

fn entry(handle: u64) -> FdEntry {
    FdEntry::from(file(handle, HostFileKind::RegularFile)).unwrap()
}

fn empty_ctx() -> WasiCtx {
    WasiCtx::empty(Vec::new(), Vec::new())
}

#[test]
fn rights_follow_the_kind_of_the_file() {
    assert_eq!(
        determine_type_rights(HostFileKind::RegularFile),
        Ok((
            __WASI_FILETYPE_REGULAR_FILE,
            RIGHTS_REGULAR_FILE_BASE,
            RIGHTS_REGULAR_FILE_INHERITING
        ))
    );
    assert_eq!(
        determine_type_rights(HostFileKind::Directory),
        Ok((
            __WASI_FILETYPE_DIRECTORY,
            RIGHTS_DIRECTORY_BASE,
            RIGHTS_DIRECTORY_INHERITING
        ))
    );
    assert_eq!(
        determine_type_rights(HostFileKind::Terminal),
        Ok((
            __WASI_FILETYPE_CHARACTER_DEVICE,
            RIGHTS_TTY_BASE,
            RIGHTS_TTY_BASE
        ))
    );
    assert_eq!(
        determine_type_rights(HostFileKind::CharacterDevice),
        Ok((__WASI_FILETYPE_CHARACTER_DEVICE, RIGHTS_ALL, RIGHTS_ALL))
    );
    assert_eq!(
        determine_type_rights(HostFileKind::BlockDevice),
        Ok((__WASI_FILETYPE_BLOCK_DEVICE, RIGHTS_ALL, RIGHTS_ALL))
    );
    assert_eq!(
        determine_type_rights(HostFileKind::SocketStream),
        Ok((
            __WASI_FILETYPE_SOCKET_STREAM,
            RIGHTS_SOCKET_BASE,
            RIGHTS_SOCKET_INHERITING
        ))
    );
    assert_eq!(
        determine_type_rights(HostFileKind::SocketDgram),
        Ok((
            __WASI_FILETYPE_SOCKET_DGRAM,
            RIGHTS_SOCKET_BASE,
            RIGHTS_SOCKET_INHERITING
        ))
    );
    assert_eq!(
        determine_type_rights(HostFileKind::Fifo),
        Ok((
            __WASI_FILETYPE_UNKNOWN,
            RIGHTS_REGULAR_FILE_BASE,
            RIGHTS_REGULAR_FILE_INHERITING
        ))
    );
    assert_eq!(
        determine_type_rights(HostFileKind::Unknown),
        Err(__WASI_EINVAL)
    );
}

#[test]
fn the_sets_of_rights_are_the_rights_they_name() {
    assert_eq!(
        RIGHTS_REGULAR_FILE_BASE,
        __WASI_RIGHT_FD_DATASYNC
            | __WASI_RIGHT_FD_READ
            | __WASI_RIGHT_FD_SEEK
            | __WASI_RIGHT_FD_FDSTAT_SET_FLAGS
            | __WASI_RIGHT_FD_SYNC
            | __WASI_RIGHT_FD_TELL
            | __WASI_RIGHT_FD_WRITE
            | __WASI_RIGHT_FD_ADVISE
            | __WASI_RIGHT_FD_ALLOCATE
            | __WASI_RIGHT_FD_FILESTAT_GET
            | __WASI_RIGHT_FD_FILESTAT_SET_SIZE
            | __WASI_RIGHT_FD_FILESTAT_SET_TIMES
            | __WASI_RIGHT_POLL_FD_READWRITE
    );
    assert_eq!(
        RIGHTS_DIRECTORY_BASE,
        __WASI_RIGHT_FD_FDSTAT_SET_FLAGS
            | __WASI_RIGHT_FD_SYNC
            | __WASI_RIGHT_FD_ADVISE
            | __WASI_RIGHT_PATH_CREATE_DIRECTORY
            | __WASI_RIGHT_PATH_CREATE_FILE
            | __WASI_RIGHT_PATH_LINK_SOURCE
            | __WASI_RIGHT_PATH_LINK_TARGET
            | __WASI_RIGHT_PATH_OPEN
            | __WASI_RIGHT_FD_READDIR
            | __WASI_RIGHT_PATH_READLINK
            | __WASI_RIGHT_PATH_RENAME_SOURCE
            | __WASI_RIGHT_PATH_RENAME_TARGET
            | __WASI_RIGHT_PATH_FILESTAT_GET
            | __WASI_RIGHT_PATH_FILESTAT_SET_SIZE
            | __WASI_RIGHT_PATH_FILESTAT_SET_TIMES
            | __WASI_RIGHT_FD_FILESTAT_GET
            | __WASI_RIGHT_FD_FILESTAT_SET_TIMES
            | __WASI_RIGHT_PATH_SYMLINK
            | __WASI_RIGHT_PATH_UNLINK_FILE
            | __WASI_RIGHT_PATH_REMOVE_DIRECTORY
            | __WASI_RIGHT_POLL_FD_READWRITE
    );
    assert_eq!(
        RIGHTS_DIRECTORY_INHERITING,
        RIGHTS_DIRECTORY_BASE | RIGHTS_REGULAR_FILE_BASE
    );
    assert_eq!(
        RIGHTS_TTY_BASE,
        __WASI_RIGHT_FD_READ
            | __WASI_RIGHT_FD_FDSTAT_SET_FLAGS
            | __WASI_RIGHT_FD_WRITE
            | __WASI_RIGHT_FD_FILESTAT_GET
            | __WASI_RIGHT_POLL_FD_READWRITE
    );
    assert_eq!(RIGHTS_SOCKET_BASE, RIGHTS_TTY_BASE | __WASI_RIGHT_SOCK_SHUTDOWN);
    assert_eq!(RIGHTS_ALL, (1u64 << 29) - 1);
    // a directory cannot be read or written itself, but what is opened in it can
    assert_eq!(RIGHTS_DIRECTORY_BASE & (__WASI_RIGHT_FD_READ | __WASI_RIGHT_FD_WRITE), 0);
    assert_eq!(
        RIGHTS_DIRECTORY_INHERITING & (__WASI_RIGHT_FD_READ | __WASI_RIGHT_FD_WRITE),
        __WASI_RIGHT_FD_READ | __WASI_RIGHT_FD_WRITE
    );
    assert!(rights_contain(RIGHTS_ALL, RIGHTS_DIRECTORY_INHERITING));
    assert!(!rights_contain(RIGHTS_TTY_BASE, RIGHTS_SOCKET_BASE));
}

#[test]
fn the_access_mode_cuts_the_rights() {
    let read_only = HostFile {
        handle: OsHandle(1),
        kind: HostFileKind::RegularFile,
        readable: true,
        writable: false,
    };
    assert_eq!(
        determine_type_and_access_rights(&read_only),
        Ok((
            __WASI_FILETYPE_REGULAR_FILE,
            RIGHTS_REGULAR_FILE_BASE & !__WASI_RIGHT_FD_WRITE,
            0
        ))
    );
    let write_only = HostFile {
        readable: false,
        writable: true,
        ..read_only
    };
    let fe = FdEntry::from(write_only).unwrap();
    assert_eq!(fe.rights_base, RIGHTS_REGULAR_FILE_BASE & !__WASI_RIGHT_FD_READ);
    assert_eq!(fe.descriptor, Descriptor::File(OsHandle(1)));
    assert!(fe.needs_close);
    let unknown = HostFile {
        kind: HostFileKind::Unknown,
        ..read_only
    };
    assert_eq!(FdEntry::from(unknown).err(), Some(__WASI_EINVAL));
    assert_eq!(
        determine_type_and_access_rights(&unknown),
        Err(__WASI_EINVAL)
    );
}

#[test]
fn an_entry_grants_what_it_has_and_nothing_more() {
    let fe = entry(1);
    assert_eq!(fe.validate_rights(__WASI_RIGHT_FD_READ, 0), Ok(()));
    assert_eq!(fe.validate_rights(0, 0), Ok(()));
    assert_eq!(
        fe.validate_rights(__WASI_RIGHT_PATH_OPEN, 0),
        Err(__WASI_ENOTCAPABLE)
    );
    assert_eq!(
        fe.validate_rights(__WASI_RIGHT_FD_READ | __WASI_RIGHT_PATH_OPEN, 0),
        Err(__WASI_ENOTCAPABLE)
    );
    // a regular file hands nothing down
    assert_eq!(
        fe.validate_rights(0, __WASI_RIGHT_FD_READ),
        Err(__WASI_ENOTCAPABLE)
    );
    assert_eq!(
        fe.as_descriptor(__WASI_RIGHT_FD_READ, 0),
        Ok(&Descriptor::File(OsHandle(1)))
    );
    assert_eq!(
        fe.as_descriptor(__WASI_RIGHT_PATH_OPEN, 0),
        Err(__WASI_ENOTCAPABLE)
    );
}

#[test]
fn descriptors_tell_what_stands_behind_them() {
    let f = Descriptor::File(OsHandle(7));
    let d = Descriptor::Directory(OsHandle(8));
    assert_eq!(f.as_file(), Ok(OsHandle(7)));
    assert_eq!(d.as_file(), Ok(OsHandle(8)));
    assert_eq!(Descriptor::Stdin.as_file(), Err(__WASI_EBADF));
    assert_eq!(Descriptor::Stdout.as_file(), Err(__WASI_EBADF));
    assert_eq!(Descriptor::Stderr.as_file(), Err(__WASI_EBADF));
    assert!(f.is_file() && d.is_file() && !Descriptor::Stdin.is_file());
    assert!(Descriptor::Stdin.is_stdin() && !f.is_stdin() && !Descriptor::Stdout.is_stdin());
    assert!(Descriptor::Stdout.is_stdout() && !Descriptor::Stderr.is_stdout());
    assert!(Descriptor::Stderr.is_stderr() && !Descriptor::Stdin.is_stderr());
}

#[test]
fn insert_takes_the_lowest_free_number_from_three() {
    let mut ctx = empty_ctx();
    assert_eq!(ctx.insert_fd_entry(entry(1)), Ok(3));
    assert_eq!(ctx.insert_fd_entry(entry(2)), Ok(4));
    assert_eq!(ctx.insert_fd_entry(entry(3)), Ok(5));
    assert!(ctx.remove_fd_entry(4).is_ok());
    assert_eq!(ctx.insert_fd_entry(entry(4)), Ok(4));
    assert_eq!(ctx.insert_fd_entry(entry(5)), Ok(6));
    assert!(!ctx.contains_fd_entry(0));
    assert!(!ctx.contains_fd_entry(2));
    // a number that was put in by hand is skipped
    assert!(ctx.insert_fd_entry_at(7, entry(6)).is_none());
    assert_eq!(ctx.insert_fd_entry(entry(7)), Ok(8));
}

#[test]
fn insert_at_overwrites_and_returns_what_was_there() {
    let mut ctx = empty_ctx();
    assert!(ctx.insert_fd_entry_at(9, entry(1)).is_none());
    let old = ctx.insert_fd_entry_at(9, entry(2)).unwrap();
    assert_eq!(old.descriptor, Descriptor::File(OsHandle(1)));
    assert_eq!(
        ctx.get_fd_entry(9, 0, 0).unwrap().descriptor,
        Descriptor::File(OsHandle(2))
    );
}

#[test]
fn get_fails_for_what_is_unknown_and_for_what_is_not_granted() {
    let mut ctx = empty_ctx();
    let fd = ctx.insert_fd_entry(entry(1)).unwrap();
    assert!(ctx.get_fd_entry(fd, __WASI_RIGHT_FD_READ, 0).is_ok());
    assert_eq!(ctx.get_fd_entry(fd + 1, 0, 0).err(), Some(__WASI_EBADF));
    assert_eq!(
        ctx.get_fd_entry(fd, __WASI_RIGHT_PATH_OPEN, 0).err(),
        Some(__WASI_ENOTCAPABLE)
    );
    assert_eq!(
        ctx.get_fd_entry(fd, 0, __WASI_RIGHT_FD_READ).err(),
        Some(__WASI_ENOTCAPABLE)
    );
    assert_eq!(ctx.get_fd_entry_mut(fd + 1, 0, 0).err(), Some(__WASI_EBADF));
    assert_eq!(
        ctx.get_fd_entry_mut(fd, __WASI_RIGHT_PATH_OPEN, 0).err(),
        Some(__WASI_ENOTCAPABLE)
    );
    // what is changed through the entry is changed in the table
    ctx.get_fd_entry_mut(fd, 0, 0).unwrap().rights_base = __WASI_RIGHT_FD_TELL;
    assert_eq!(
        ctx.get_fd_entry(fd, 0, 0).unwrap().rights_base,
        __WASI_RIGHT_FD_TELL
    );
    assert_eq!(
        ctx.get_fd_entry(fd, __WASI_RIGHT_FD_READ, 0).err(),
        Some(__WASI_ENOTCAPABLE)
    );
}

#[test]
fn remove_takes_the_entry_out() {
    let mut ctx = empty_ctx();
    let fd = ctx.insert_fd_entry(entry(1)).unwrap();
    let fe = ctx.remove_fd_entry(fd).unwrap();
    assert_eq!(fe.descriptor, Descriptor::File(OsHandle(1)));
    assert!(!ctx.contains_fd_entry(fd));
    assert_eq!(ctx.remove_fd_entry(fd).err(), Some(__WASI_EBADF));
}

fn ctx_with_two_preopens() -> WasiCtx {
    WasiCtxBuilder::new()
        .inherit_stdio()
        .preopened_dir(file(10, HostFileKind::Directory), b"/a".to_vec())
        .preopened_dir(file(11, HostFileKind::Directory), b"/b".to_vec())
        .build(found())
        .unwrap()
}

#[test]
fn a_preopened_root_cannot_be_removed() {
    let mut ctx = ctx_with_two_preopens();
    assert_eq!(ctx.remove_fd_entry(3).err(), Some(__WASI_ENOTSUP));
    assert_eq!(ctx.remove_fd_entry(4).err(), Some(__WASI_ENOTSUP));
    assert!(ctx.contains_fd_entry(3) && ctx.contains_fd_entry(4));
    assert_eq!(
        wasi_common::hostcalls_impl::fs::fd_close(&mut ctx, 3),
        Err(__WASI_ENOTSUP)
    );
    assert!(ctx.contains_fd_entry(3));
    // a standard stream can
    assert!(ctx.remove_fd_entry(0).is_ok());
}

#[test]
fn renumber_moves_the_entry() {
    let mut ctx = ctx_with_two_preopens();
    let a = ctx.insert_fd_entry(entry(20)).unwrap();
    let b = ctx.insert_fd_entry(entry(21)).unwrap();
    let retired = ctx.renumber(a, b).unwrap().unwrap();
    assert_eq!(retired.descriptor, Descriptor::File(OsHandle(21)));
    assert_eq!(ctx.get_fd_entry(a, 0, 0).err(), Some(__WASI_EBADF));
    assert_eq!(
        ctx.get_fd_entry(b, 0, 0).unwrap().descriptor,
        Descriptor::File(OsHandle(20))
    );
    // the others stay
    assert!(ctx.contains_fd_entry(0) && ctx.contains_fd_entry(3));
    // the same number twice changes nothing
    assert!(ctx.renumber(b, b).unwrap().is_none());
    assert_eq!(
        ctx.get_fd_entry(b, 0, 0).unwrap().descriptor,
        Descriptor::File(OsHandle(20))
    );
}

#[test]
fn renumber_refuses_unknown_numbers_and_preopened_roots() {
    let mut ctx = ctx_with_two_preopens();
    let a = ctx.insert_fd_entry(entry(20)).unwrap();
    assert_eq!(ctx.renumber(a, 99).err(), Some(__WASI_EBADF));
    assert_eq!(ctx.renumber(99, a).err(), Some(__WASI_EBADF));
    assert_eq!(ctx.renumber(a, 3).err(), Some(__WASI_ENOTSUP));
    assert_eq!(ctx.renumber(3, a).err(), Some(__WASI_ENOTSUP));
    assert_eq!(ctx.renumber(3, 3).err(), Some(__WASI_ENOTSUP));
    assert!(ctx.contains_fd_entry(a) && ctx.contains_fd_entry(3));
    assert_eq!(
        ctx.get_fd_entry(3, 0, 0).unwrap().preopen_path,
        Some(b"/a".to_vec())
    );
}

#[test]
fn the_builder_numbers_the_preopened_directories_from_three() {
    let ctx = ctx_with_two_preopens();
    for fd in 0..5 {
        assert!(ctx.contains_fd_entry(fd));
    }
    assert!(!ctx.contains_fd_entry(5));
    let a = ctx.get_fd_entry(3, 0, 0).unwrap();
    assert_eq!(a.preopen_path, Some(b"/a".to_vec()));
    assert_eq!(a.descriptor, Descriptor::Directory(OsHandle(10)));
    assert_eq!(a.file_type, __WASI_FILETYPE_DIRECTORY);
    assert_eq!(a.rights_base, RIGHTS_DIRECTORY_BASE);
    assert_eq!(a.rights_inheriting, RIGHTS_DIRECTORY_INHERITING);
    let b = ctx.get_fd_entry(4, 0, 0).unwrap();
    assert_eq!(b.preopen_path, Some(b"/b".to_vec()));
    assert_eq!(b.descriptor, Descriptor::Directory(OsHandle(11)));
    // the standard streams are those of the host
    let stdin = ctx.get_fd_entry(0, 0, 0).unwrap();
    assert_eq!(stdin.descriptor, Descriptor::Stdin);
    assert_eq!(stdin.file_type, __WASI_FILETYPE_CHARACTER_DEVICE);
    assert_eq!(stdin.rights_base, RIGHTS_TTY_BASE);
    assert!(stdin.preopen_path.is_none());
    assert_eq!(ctx.get_fd_entry(1, 0, 0).unwrap().descriptor, Descriptor::Stdout);
    assert_eq!(ctx.get_fd_entry(2, 0, 0).unwrap().descriptor, Descriptor::Stderr);
}

#[test]
fn the_builder_starts_with_the_null_device() {
    let builder = WasiCtxBuilder::new();
    assert_eq!(
        builder.pending(),
        (
            PendingFdEntry::Null,
            PendingFdEntry::Null,
            PendingFdEntry::Null
        )
    );
    let null = FoundStdio {
        stdin: Ok(file(50, HostFileKind::CharacterDevice)),
        stdout: Ok(file(51, HostFileKind::CharacterDevice)),
        stderr: Ok(file(52, HostFileKind::CharacterDevice)),
    };
    let ctx = builder.build(null).unwrap();
    assert_eq!(
        ctx.get_fd_entry(0, 0, 0).unwrap().descriptor,
        Descriptor::File(OsHandle(50))
    );
    assert_eq!(
        ctx.get_fd_entry(2, 0, 0).unwrap().descriptor,
        Descriptor::File(OsHandle(52))
    );
    assert!(!ctx.contains_fd_entry(3));
}

#[test]
fn a_file_given_for_a_stream_is_taken_as_it_is() {
    let builder = WasiCtxBuilder::new()
        .inherit_stdio()
        .stdin(file(60, HostFileKind::RegularFile))
        .stdout(file(61, HostFileKind::Fifo))
        .stderr(file(62, HostFileKind::RegularFile));
    assert_eq!(
        builder.pending().0,
        PendingFdEntry::File(file(60, HostFileKind::RegularFile))
    );
    // what the host found does not count for them, not even an error
    let ctx = builder
        .build(FoundStdio {
            stdin: Err(__WASI_EIO),
            stdout: Err(__WASI_EIO),
            stderr: Err(__WASI_EIO),
        })
        .unwrap();
    let stdin = ctx.get_fd_entry(0, 0, 0).unwrap();
    assert_eq!(stdin.descriptor, Descriptor::File(OsHandle(60)));
    assert_eq!(stdin.file_type, __WASI_FILETYPE_REGULAR_FILE);
    assert_eq!(
        ctx.get_fd_entry(1, 0, 0).unwrap().file_type,
        __WASI_FILETYPE_UNKNOWN
    );
}

#[test]
fn the_build_fails_with_the_first_thing_in_its_way() {
    // an error of the host for a stream
    let res = WasiCtxBuilder::new().inherit_stdio().build(FoundStdio {
        stdin: Ok(file(1, HostFileKind::Terminal)),
        stdout: Err(__WASI_EIO),
        stderr: Err(__WASI_EACCES),
    });
    assert_eq!(res.err(), Some(__WASI_EIO));
    // a stream of a kind that cannot be a descriptor
    let res = WasiCtxBuilder::new()
        .stdin(file(1, HostFileKind::Unknown))
        .build(found());
    assert_eq!(res.err(), Some(__WASI_EINVAL));
    // a preopened directory that is none
    let res = WasiCtxBuilder::new()
        .preopened_dir(file(10, HostFileKind::Directory), b"/a".to_vec())
        .preopened_dir(file(11, HostFileKind::RegularFile), b"/b".to_vec())
        .build(found());
    assert_eq!(res.err(), Some(__WASI_EBADF));
    // a NUL comes before them all
    let res = WasiCtxBuilder::new()
        .arg(b"a\0b".to_vec())
        .stdin(file(1, HostFileKind::Unknown))
        .build(found());
    assert_eq!(res.err(), Some(__WASI_ENOTCAPABLE));
}

#[test]
fn arguments_get_their_nul() {
    let ctx = WasiCtxBuilder::new()
        .args(vec![b"dropped".to_vec()])
        .args(vec![b"prog".to_vec(), b"".to_vec()])
        .arg(b"-v".to_vec())
        .build(found())
        .unwrap();
    assert_eq!(
        ctx.get_args(),
        &vec![b"prog\0".to_vec(), b"\0".to_vec(), b"-v\0".to_vec()]
    );
    assert!(ctx.get_env().is_empty());
}

#[test]
fn a_nul_in_an_argument_or_a_variable_is_not_capable() {
    let res = WasiCtxBuilder::new().arg(b"a\0".to_vec()).build(found());
    assert_eq!(res.err(), Some(__WASI_ENOTCAPABLE));
    let res = WasiCtxBuilder::new()
        .env(b"K\0".to_vec(), b"v".to_vec())
        .build(found());
    assert_eq!(res.err(), Some(__WASI_ENOTCAPABLE));
    let res = WasiCtxBuilder::new()
        .env(b"K".to_vec(), b"\0v".to_vec())
        .build(found());
    assert_eq!(res.err(), Some(__WASI_ENOTCAPABLE));
}

#[test]
fn variables_are_key_equals_value_with_unique_keys() {
    let ctx = WasiCtxBuilder::new()
        .env(b"A".to_vec(), b"1".to_vec())
        .env(b"B".to_vec(), b"2".to_vec())
        .env(b"A".to_vec(), b"3".to_vec())
        .build(found())
        .unwrap();
    assert_eq!(ctx.get_env(), &vec![b"A=3\0".to_vec(), b"B=2\0".to_vec()]);

    let ctx = WasiCtxBuilder::new()
        .env(b"GONE".to_vec(), b"1".to_vec())
        .envs(vec![
            (b"B".to_vec(), b"x".to_vec()),
            (b"A".to_vec(), b"".to_vec()),
            (b"B".to_vec(), b"y=z".to_vec()),
        ])
        .build(found())
        .unwrap();
    assert_eq!(ctx.get_env(), &vec![b"B=y=z\0".to_vec(), b"A=\0".to_vec()]);
}

#[test]
fn a_new_context_has_the_streams_of_the_host() {
    let ctx = WasiCtx::new(
        vec![b"prog".to_vec()],
        vec![(b"HOME".to_vec(), b"/".to_vec())],
        found(),
    )
    .unwrap();
    assert_eq!(ctx.get_args(), &vec![b"prog\0".to_vec()]);
    assert_eq!(ctx.get_env(), &vec![b"HOME=/\0".to_vec()]);
    assert_eq!(ctx.get_fd_entry(0, 0, 0).unwrap().descriptor, Descriptor::Stdin);
    assert_eq!(ctx.get_fd_entry(1, 0, 0).unwrap().descriptor, Descriptor::Stdout);
    assert_eq!(ctx.get_fd_entry(2, 0, 0).unwrap().descriptor, Descriptor::Stderr);
    assert!(!ctx.contains_fd_entry(3));
    let res = WasiCtx::new(vec![b"\0".to_vec()], Vec::new(), found());
    assert_eq!(res.err(), Some(__WASI_ENOTCAPABLE));
}
