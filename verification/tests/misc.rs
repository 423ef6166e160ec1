//! Clocks and polling.

use wasi_common::ctx::{FoundStdio, WasiCtx, WasiCtxBuilder};
use wasi_common::fdentry::{Descriptor, FdEntry, HostFile, HostFileKind, OsHandle};
use wasi_common::host::{
    __WASI_CLOCK_MONOTONIC,
    __WASI_CLOCK_PROCESS_CPUTIME_ID,
    __WASI_CLOCK_REALTIME,
    __WASI_CLOCK_THREAD_CPUTIME_ID,
    __WASI_EBADF,
    __WASI_EINTR,
    __WASI_EINVAL,
    __WASI_EIO,
    __WASI_ENOMEM,
    __WASI_ENOTCAPABLE,
    __WASI_EOVERFLOW,
    __WASI_ESUCCESS,
    __WASI_EVENTTYPE_CLOCK,
    __WASI_EVENTTYPE_FD_READ,
    __WASI_EVENTTYPE_FD_WRITE,
    __WASI_EVENT_FD_READWRITE_HANGUP,
    __WASI_RIGHT_FD_WRITE,
    __WASI_SUBSCRIPTION_CLOCK_ABSTIME,
};
use wasi_common::hostcalls_impl::misc::{
    clock_res_get, clock_time_get, host_clock, poll_oneoff, poll_oneoff_failed,
    poll_oneoff_finish, poll_oneoff_handle_fd_event, poll_oneoff_handle_timeout_event,
    wasi_clock_to_relative_ns_delay, ClockEventData, ClockSubscription, Event, FdEventData,
    FdPollResult, HostClock, PollFlags, Subscription, SubscriptionKind, MAX_POLL_TIMEOUT,
};

fn file(handle: u64, kind: HostFileKind) -> HostFile {
    HostFile {
        handle: OsHandle(handle),
        kind,
        readable: true,
        writable: true,
    }
}

fn ctx() -> WasiCtx {
    let mut ctx = WasiCtxBuilder::new()
        .inherit_stdio()
        .build(FoundStdio {
            stdin: Ok(file(100, HostFileKind::Terminal)),
            stdout: Ok(file(101, HostFileKind::Terminal)),
            stderr: Ok(file(102, HostFileKind::Terminal)),
        })
        .unwrap();
    let fd = ctx
        .insert_fd_entry(FdEntry::from(file(20, HostFileKind::RegularFile)).unwrap())
        .unwrap();
    assert_eq!(fd, 3);
    ctx
}

fn clock(timeout: u64, flags: u16) -> ClockSubscription {
    ClockSubscription {
        clock_id: __WASI_CLOCK_MONOTONIC,
        timeout,
        precision: 0,
        flags,
    }
}

fn clock_sub(userdata: u64, timeout: u64) -> Subscription {
    Subscription {
        userdata,
        kind: SubscriptionKind::Clock(clock(timeout, 0)),
    }
}

#[test]
fn the_four_clocks_exist() {
    assert_eq!(host_clock(__WASI_CLOCK_REALTIME), Ok(HostClock::Realtime));
    assert_eq!(host_clock(__WASI_CLOCK_MONOTONIC), Ok(HostClock::Monotonic));
    assert_eq!(
        host_clock(__WASI_CLOCK_PROCESS_CPUTIME_ID),
        Ok(HostClock::ProcessCputime)
    );
    assert_eq!(
        host_clock(__WASI_CLOCK_THREAD_CPUTIME_ID),
        Ok(HostClock::ThreadCputime)
    );
    assert_eq!(host_clock(4), Err(__WASI_EINVAL));
    assert_eq!(host_clock(u32::MAX), Err(__WASI_EINVAL));
}

#[test]
fn a_resolution_is_never_zero() {
    assert_eq!(clock_res_get(0, 1), Ok(1));
    assert_eq!(clock_res_get(1, 0), Ok(1_000_000_000));
    assert_eq!(clock_res_get(0, 0), Err(__WASI_EINVAL));
    assert_eq!(clock_res_get(i64::MAX, 0), Err(__WASI_EOVERFLOW));
    assert_eq!(clock_res_get(-1, 0), Err(__WASI_EOVERFLOW));
}

#[test]
fn a_time_is_in_nanoseconds_and_keeps_its_order() {
    assert_eq!(clock_time_get(0, 0), Ok(0));
    assert_eq!(clock_time_get(2, 3), Ok(2_000_000_003));
    assert_eq!(clock_time_get(i64::MAX, 0), Err(__WASI_EOVERFLOW));
    // later readings of a clock are later times
    let readings = [(0, 0), (0, 999_999_999), (1, 0), (1, 1), (5, 0), (5, 7)];
    for pair in readings.windows(2) {
        let earlier = clock_time_get(pair[0].0, pair[0].1).unwrap();
        let later = clock_time_get(pair[1].0, pair[1].1).unwrap();
        assert!(earlier <= later);
    }
}

#[test]
fn a_delay_is_a_span_or_the_way_to_a_point_in_time() {
    assert_eq!(
        wasi_clock_to_relative_ns_delay(&clock(500, 0), None),
        Ok(500)
    );
    assert_eq!(
        wasi_clock_to_relative_ns_delay(&clock(500, 0), Some(100)),
        Ok(500)
    );
    let abstime = __WASI_SUBSCRIPTION_CLOCK_ABSTIME;
    assert_eq!(
        wasi_clock_to_relative_ns_delay(&clock(500, abstime), Some(100)),
        Ok(400)
    );
    assert_eq!(
        wasi_clock_to_relative_ns_delay(&clock(500, abstime), Some(500)),
        Ok(0)
    );
    // a point in time that has passed is now
    assert_eq!(
        wasi_clock_to_relative_ns_delay(&clock(500, abstime), Some(501)),
        Ok(0)
    );
    assert_eq!(
        wasi_clock_to_relative_ns_delay(&clock(500, abstime), Some(u128::MAX)),
        Ok(0)
    );
    assert_eq!(
        wasi_clock_to_relative_ns_delay(&clock(500, abstime), None),
        Err(__WASI_ENOTCAPABLE)
    );
    assert_eq!(
        wasi_clock_to_relative_ns_delay(&clock(u64::MAX, 0), None),
        Ok(u64::MAX as u128)
    );
}

#[test]
fn a_poll_of_nothing_is_empty() {
    let plan = poll_oneoff(&ctx(), &Vec::new(), None).unwrap();
    assert!(plan.is_empty());
    assert_eq!(plan.timeout, None);
    assert_eq!(plan.poll_timeout, -1);
    assert!(plan.fd_events.is_empty());
}

#[test]
fn the_clock_that_ends_first_is_the_timeout() {
    let subs = vec![
        clock_sub(1, 5_000_000),
        clock_sub(2, 2_999_999),
        clock_sub(3, 2_000_000),
        clock_sub(4, 9_000_000),
    ];
    let plan = poll_oneoff(&ctx(), &subs, None).unwrap();
    // in whole milliseconds; of two that end together the first stays
    assert_eq!(
        plan.timeout,
        Some(ClockEventData {
            delay: 2,
            userdata: 2
        })
    );
    assert_eq!(plan.poll_timeout, 2);
    assert!(!plan.is_empty());
    assert!(plan.fd_events.is_empty());
}

#[test]
fn the_timeout_for_the_host_is_cut_to_what_it_can_count() {
    let limit = MAX_POLL_TIMEOUT as u64;
    let plan = poll_oneoff(&ctx(), &vec![clock_sub(1, limit * 1_000_000)], None).unwrap();
    assert_eq!(plan.poll_timeout, i32::MAX);
    let plan = poll_oneoff(&ctx(), &vec![clock_sub(1, (limit + 1) * 1_000_000)], None).unwrap();
    assert_eq!(plan.poll_timeout, i32::MAX);
    assert_eq!(plan.timeout.unwrap().delay, limit as u128 + 1);
    let plan = poll_oneoff(&ctx(), &vec![clock_sub(1, u64::MAX)], None).unwrap();
    assert_eq!(plan.poll_timeout, i32::MAX);
    let plan = poll_oneoff(&ctx(), &vec![clock_sub(1, 999_999)], None).unwrap();
    assert_eq!(plan.poll_timeout, 0);
}

#[test]
fn a_point_in_time_counts_from_now() {
    let sub = Subscription {
        userdata: 7,
        kind: SubscriptionKind::Clock(clock(10_000_000, __WASI_SUBSCRIPTION_CLOCK_ABSTIME)),
    };
    let plan = poll_oneoff(&ctx(), &vec![sub], Some(4_000_000)).unwrap();
    assert_eq!(plan.poll_timeout, 6);
    let plan = poll_oneoff(&ctx(), &vec![sub], Some(11_000_000)).unwrap();
    assert_eq!(plan.poll_timeout, 0);
    assert_eq!(
        poll_oneoff(&ctx(), &vec![sub], None).err(),
        Some(__WASI_ENOTCAPABLE)
    );
}

#[test]
fn descriptors_are_polled_in_the_order_of_their_subscriptions() {
    let subs = vec![
        Subscription {
            userdata: 1,
            kind: SubscriptionKind::FdWrite(1),
        },
        clock_sub(2, 1_000_000),
        Subscription {
            userdata: 3,
            kind: SubscriptionKind::FdRead(3),
        },
        Subscription {
            userdata: 4,
            kind: SubscriptionKind::FdRead(0),
        },
    ];
    let plan = poll_oneoff(&ctx(), &subs, None).unwrap();
    assert_eq!(
        plan.fd_events,
        vec![
            FdEventData {
                descriptor: Descriptor::Stdout,
                type_: __WASI_EVENTTYPE_FD_WRITE,
                userdata: 1
            },
            FdEventData {
                descriptor: Descriptor::File(OsHandle(20)),
                type_: __WASI_EVENTTYPE_FD_READ,
                userdata: 3
            },
            FdEventData {
                descriptor: Descriptor::Stdin,
                type_: __WASI_EVENTTYPE_FD_READ,
                userdata: 4
            },
        ]
    );
    assert_eq!(plan.poll_timeout, 1);
}

#[test]
fn a_poll_is_refused_by_its_first_bad_subscription() {
    let mut c = ctx();
    c.get_fd_entry_mut(3, 0, 0).unwrap().rights_base &= !__WASI_RIGHT_FD_WRITE;
    let unknown = Subscription {
        userdata: 1,
        kind: SubscriptionKind::FdRead(9),
    };
    let unwritable = Subscription {
        userdata: 2,
        kind: SubscriptionKind::FdWrite(3),
    };
    let readable = Subscription {
        userdata: 3,
        kind: SubscriptionKind::FdRead(3),
    };
    assert_eq!(
        poll_oneoff(&c, &vec![readable, unknown, unwritable], None).err(),
        Some(__WASI_EBADF)
    );
    assert_eq!(
        poll_oneoff(&c, &vec![readable, unwritable, unknown], None).err(),
        Some(__WASI_ENOTCAPABLE)
    );
    assert!(poll_oneoff(&c, &vec![readable], None).is_ok());
}

#[test]
fn an_interrupted_poll_is_done_again() {
    assert_eq!(poll_oneoff_failed(__WASI_EINTR), None);
    assert_eq!(poll_oneoff_failed(__WASI_EINVAL), Some(__WASI_EINVAL));
    assert_eq!(poll_oneoff_failed(__WASI_ENOMEM), Some(__WASI_ENOMEM));
}

#[test]
fn a_timeout_is_one_clock_event() {
    let timeout = ClockEventData {
        delay: 3,
        userdata: 42,
    };
    assert_eq!(
        poll_oneoff_handle_timeout_event(Some(timeout)),
        vec![Event {
            userdata: 42,
            error: __WASI_ESUCCESS,
            type_: __WASI_EVENTTYPE_CLOCK,
            nbytes: 0,
            flags: 0,
        }]
    );
    assert_eq!(poll_oneoff_handle_timeout_event(None), Vec::new());
}

fn flags() -> PollFlags {
    PollFlags {
        nval: false,
        err: false,
        hup: false,
        readable: false,
        writable: false,
    }
}

fn result(userdata: u64, type_: u8, revents: Option<PollFlags>, nbytes: i32) -> FdPollResult {
    FdPollResult {
        fd_event: FdEventData {
            descriptor: Descriptor::File(OsHandle(userdata)),
            type_,
            userdata,
        },
        revents,
        nbytes,
    }
}

#[test]
fn what_the_host_reports_of_a_descriptor_becomes_its_event() {
    let read = __WASI_EVENTTYPE_FD_READ;
    let write = __WASI_EVENTTYPE_FD_WRITE;
    let results = vec![
        result(1, read, None, 5),
        result(
            2,
            read,
            Some(PollFlags {
                nval: true,
                err: true,
                hup: true,
                readable: true,
                ..flags()
            }),
            5,
        ),
        result(
            3,
            write,
            Some(PollFlags {
                err: true,
                hup: true,
                writable: true,
                ..flags()
            }),
            5,
        ),
        result(
            4,
            read,
            Some(PollFlags {
                hup: true,
                readable: true,
                ..flags()
            }),
            5,
        ),
        result(
            5,
            read,
            Some(PollFlags {
                readable: true,
                ..flags()
            }),
            5,
        ),
        result(
            6,
            write,
            Some(PollFlags {
                writable: true,
                ..flags()
            }),
            5,
        ),
        result(7, read, Some(flags()), 5),
    ];
    let hangup = __WASI_EVENT_FD_READWRITE_HANGUP;
    let event = |userdata, error, type_, nbytes, flags| Event {
        userdata,
        error,
        type_,
        nbytes,
        flags,
    };
    assert_eq!(
        poll_oneoff_handle_fd_event(&results, 7),
        Ok(vec![
            event(2, __WASI_EBADF, read, 0, hangup),
            event(3, __WASI_EIO, write, 0, hangup),
            event(4, __WASI_ESUCCESS, read, 0, hangup),
            event(5, __WASI_ESUCCESS, read, 5, 0),
            // the bytes that can be read count for a read only
            event(6, __WASI_ESUCCESS, write, 0, 0),
        ])
    );
    // only as many descriptors as the host counted ready are looked at
    assert_eq!(
        poll_oneoff_handle_fd_event(&results, 3),
        Ok(vec![
            event(2, __WASI_EBADF, read, 0, hangup),
            event(3, __WASI_EIO, write, 0, hangup),
        ])
    );
    assert_eq!(poll_oneoff_handle_fd_event(&results, 1), Ok(Vec::new()));
    assert_eq!(
        poll_oneoff_handle_fd_event(&results, 100).map(|e| e.len()),
        Ok(5)
    );
}

#[test]
fn bytes_counted_below_zero_overflow() {
    let readable = Some(PollFlags {
        readable: true,
        ..flags()
    });
    let results = vec![
        result(1, __WASI_EVENTTYPE_FD_READ, readable, 1),
        result(2, __WASI_EVENTTYPE_FD_READ, readable, -1),
        result(3, __WASI_EVENTTYPE_FD_READ, readable, 3),
    ];
    assert_eq!(
        poll_oneoff_handle_fd_event(&results, 3),
        Err(__WASI_EOVERFLOW)
    );
    assert_eq!(
        poll_oneoff_handle_fd_event(&results, 1).map(|e| e.len()),
        Ok(1)
    );
    // for a write they do not count at all
    let results = vec![result(
        1,
        __WASI_EVENTTYPE_FD_WRITE,
        Some(PollFlags {
            writable: true,
            ..flags()
        }),
        -1,
    )];
    assert_eq!(
        poll_oneoff_handle_fd_event(&results, 1).map(|e| e[0].nbytes),
        Ok(0)
    );
}

#[test]
fn a_poll_ends_with_the_clock_or_with_the_descriptors() {
    let timeout = Some(ClockEventData {
        delay: 1,
        userdata: 9,
    });
    let results = vec![result(
        1,
        __WASI_EVENTTYPE_FD_READ,
        Some(PollFlags {
            readable: true,
            ..flags()
        }),
        4,
    )];
    let events = poll_oneoff_finish(timeout, &results, 0).unwrap();
    assert_eq!(events.len(), 1);
    assert_eq!(events[0].type_, __WASI_EVENTTYPE_CLOCK);
    assert_eq!(events[0].userdata, 9);
    let events = poll_oneoff_finish(timeout, &results, 1).unwrap();
    assert_eq!(events.len(), 1);
    assert_eq!(events[0].type_, __WASI_EVENTTYPE_FD_READ);
    assert_eq!(events[0].nbytes, 4);
    assert_eq!(poll_oneoff_finish(None, &results, 0), Ok(Vec::new()));
}
