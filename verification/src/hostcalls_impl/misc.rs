//! Clocks and polling: what the host is asked for, and what its answers
//! mean to the guest.

use crate::ctx::{lookup, WasiCtx};
use crate::fdentry::{Descriptor, FdEntry};
use crate::host;
use crate::hostcalls_impl::fs::{timestamp_from_host, timestamp_of};
use vstd::prelude::*;

verus! {

/// A clock of the host.
#[derive(Clone, Copy, Debug, PartialEq, Eq, Structural)]
pub enum HostClock {
    Realtime,
    Monotonic,
    ProcessCputime,
    ThreadCputime,
}

/// The clock that a clock id names.
pub open spec fn clock_of(clock_id: host::__wasi_clockid_t) -> Option<HostClock> {
    if clock_id == host::__WASI_CLOCK_REALTIME {
        Some(HostClock::Realtime)
    } else if clock_id == host::__WASI_CLOCK_MONOTONIC {
        Some(HostClock::Monotonic)
    } else if clock_id == host::__WASI_CLOCK_PROCESS_CPUTIME_ID {
        Some(HostClock::ProcessCputime)
    } else if clock_id == host::__WASI_CLOCK_THREAD_CPUTIME_ID {
        Some(HostClock::ThreadCputime)
    } else {
        None
    }
}

/// The clock of the host to ask; a clock id that names none is `EINVAL`.
pub fn host_clock(clock_id: host::__wasi_clockid_t) -> (res: Result<
    HostClock,
    host::__wasi_errno_t,
>)
    ensures
        match clock_of(clock_id) {
            Some(clock) => res == Ok::<_, host::__wasi_errno_t>(clock),
            None => res == Err::<HostClock, _>(host::__WASI_EINVAL),
        },
{
    if clock_id == host::__WASI_CLOCK_REALTIME {
        Ok(HostClock::Realtime)
    } else if clock_id == host::__WASI_CLOCK_MONOTONIC {
        Ok(HostClock::Monotonic)
    } else if clock_id == host::__WASI_CLOCK_PROCESS_CPUTIME_ID {
        Ok(HostClock::ProcessCputime)
    } else if clock_id == host::__WASI_CLOCK_THREAD_CPUTIME_ID {
        Ok(HostClock::ThreadCputime)
    } else {
        Err(host::__WASI_EINVAL)
    }
}

/// The resolution of a clock in nanoseconds, given what the host reports
/// in seconds and nanoseconds: what does not fit 64 bits is `EOVERFLOW`, and
/// a resolution of zero, which no clock has, is `EINVAL`.
pub open spec fn resolution_of(sec: i64, nsec: i64) -> Result<
    host::__wasi_timestamp_t,
    host::__wasi_errno_t,
> {
    match timestamp_of(sec, nsec) {
        None => Err(host::__WASI_EOVERFLOW),
        Some(resolution) => if resolution == 0 {
            Err(host::__WASI_EINVAL)
        } else {
            Ok(resolution)
        },
    }
}

/// The resolution of a clock in nanoseconds, from the answer of the host.
pub fn clock_res_get(sec: i64, nsec: i64) -> (res: Result<
    host::__wasi_timestamp_t,
    host::__wasi_errno_t,
>)
    ensures
        res == resolution_of(sec, nsec),
{
    match timestamp_from_host(sec, nsec) {
        Ok(resolution) => {
            if resolution == 0 {
                Err(host::__WASI_EINVAL)
            } else {
                Ok(resolution)
            }
        },
        Err(e) => Err(e),
    }
}

/// The time of a clock in nanoseconds, from the answer of the host: what
/// does not fit 64 bits is `EOVERFLOW`.
pub fn clock_time_get(sec: i64, nsec: i64) -> (res: Result<
    host::__wasi_timestamp_t,
    host::__wasi_errno_t,
>)
    ensures
        match timestamp_of(sec, nsec) {
            Some(t) => res == Ok::<_, host::__wasi_errno_t>(t),
            None => res == Err::<host::__wasi_timestamp_t, _>(host::__WASI_EOVERFLOW),
        },
{
    timestamp_from_host(sec, nsec)
}


/// A wait for a clock.
#[derive(Clone, Copy, Debug, PartialEq, Eq, Structural)]
pub struct ClockSubscription {
    pub clock_id: host::__wasi_clockid_t,
    /// Nanoseconds: how long to wait, or until when.
    pub timeout: host::__wasi_timestamp_t,
    pub precision: host::__wasi_timestamp_t,
    pub flags: host::__wasi_subclockflags_t,
}

/// What a subscription waits for.
#[derive(Clone, Copy, Debug, PartialEq, Eq, Structural)]
pub enum SubscriptionKind {
    Clock(ClockSubscription),
    FdRead(host::__wasi_fd_t),
    FdWrite(host::__wasi_fd_t),
}

#[derive(Clone, Copy, Debug, PartialEq, Eq, Structural)]
pub struct Subscription {
    pub userdata: host::__wasi_userdata_t,
    pub kind: SubscriptionKind,
}

/// What happened to a subscription.
#[derive(Clone, Copy, Debug, PartialEq, Eq, Structural)]
pub struct Event {
    pub userdata: host::__wasi_userdata_t,
    pub error: host::__wasi_errno_t,
    pub type_: host::__wasi_eventtype_t,
    /// For a descriptor: how many bytes can be read.
    pub nbytes: host::__wasi_filesize_t,
    /// For a descriptor: `__WASI_EVENT_FD_READWRITE_HANGUP`, or nothing.
    pub flags: host::__wasi_eventrwflags_t,
}

/// The clock that the poll waits for.
#[derive(Clone, Copy, Debug, PartialEq, Eq, Structural)]
pub struct ClockEventData {
    /// Milliseconds to wait.
    pub delay: u128,
    pub userdata: host::__wasi_userdata_t,
}

/// A descriptor that the poll waits for.
#[derive(Clone, Copy, Debug, PartialEq, Eq, Structural)]
pub struct FdEventData {
    pub descriptor: Descriptor,
    /// `__WASI_EVENTTYPE_FD_READ` or `__WASI_EVENTTYPE_FD_WRITE`.
    pub type_: host::__wasi_eventtype_t,
    pub userdata: host::__wasi_userdata_t,
}

pub const NANOS_PER_MILLI: u128 = 1_000_000;

/// The most milliseconds that the host can be asked to wait.
pub const MAX_POLL_TIMEOUT: i32 = 0x7fff_ffff;

/// How many nanoseconds from now a clock subscription ends: its timeout
/// is that span, unless it is a point in time, which lies that far from
/// `now`, or not at all if it has passed. `now` is the time in nanoseconds
/// since the epoch, where the host could tell it.
pub open spec fn relative_ns_delay(clock: ClockSubscription, now: Option<u128>) -> Result<
    u128,
    host::__wasi_errno_t,
> {
    if clock.flags != host::__WASI_SUBSCRIPTION_CLOCK_ABSTIME {
        Ok(clock.timeout as u128)
    } else {
        match now {
            None => Err(host::__WASI_ENOTCAPABLE),
            Some(now) => if clock.timeout >= now {
                Ok((clock.timeout - now) as u128)
            } else {
                Ok(0u128)
            },
        }
    }
}

/// How many nanoseconds from now a clock subscription ends. The time is
/// needed for a subscription to a point in time only; where the host cannot
/// tell it the answer is `ENOTCAPABLE`.
pub fn wasi_clock_to_relative_ns_delay(clock: &ClockSubscription, now: Option<u128>) -> (res:
    Result<u128, host::__wasi_errno_t>)
    ensures
        res == relative_ns_delay(*clock, now),
{
    if clock.flags != host::__WASI_SUBSCRIPTION_CLOCK_ABSTIME {
        return Ok(clock.timeout as u128);
    }
    let now = match now {
        Some(now) => now,
        None => {
            return Err(host::__WASI_ENOTCAPABLE);
        },
    };
    let deadline = clock.timeout as u128;
    if deadline >= now {
        Ok(deadline - now)
    } else {
        Ok(0)
    }
}

/// What the poll waits for after some subscriptions.
pub struct PollView {
    pub timeout: Option<ClockEventData>,
    pub fd_events: Seq<FdEventData>,
}

/// The descriptor that a subscription waits for, looked up with the right
/// that its kind needs.
pub open spec fn polled_descriptor(
    fds: Map<host::__wasi_fd_t, FdEntry>,
    fd: host::__wasi_fd_t,
    right: host::__wasi_rights_t,
) -> Result<Descriptor, host::__wasi_errno_t> {
    match lookup(fds, fd, right, 0) {
        Ok(fe) => Ok(fe.descriptor),
        Err(e) => Err(e),
    }
}

/// What the poll waits for after one subscription more: a clock replaces
/// the timeout if it ends sooner, in whole milliseconds; a descriptor that
/// grants the right to read, or to write, joins the descriptors.
pub open spec fn poll_with(
    fds: Map<host::__wasi_fd_t, FdEntry>,
    before: PollView,
    sub: Subscription,
    now: Option<u128>,
) -> Result<PollView, host::__wasi_errno_t> {
    match sub.kind {
        SubscriptionKind::Clock(clock) => match relative_ns_delay(clock, now) {
            Err(e) => Err(e),
            Ok(ns) => {
                let current = ClockEventData {
                    delay: (ns / NANOS_PER_MILLI) as u128,
                    userdata: sub.userdata,
                };
                if before.timeout.is_some() && before.timeout.unwrap().delay <= current.delay {
                    Ok(before)
                } else {
                    Ok(PollView { timeout: Some(current), ..before })
                }
            },
        },
        SubscriptionKind::FdRead(fd) => match polled_descriptor(
            fds,
            fd,
            host::__WASI_RIGHT_FD_READ,
        ) {
            Err(e) => Err(e),
            Ok(descriptor) => Ok(
                PollView {
                    fd_events: before.fd_events.push(
                        FdEventData {
                            descriptor,
                            type_: host::__WASI_EVENTTYPE_FD_READ,
                            userdata: sub.userdata,
                        },
                    ),
                    ..before
                },
            ),
        },
        SubscriptionKind::FdWrite(fd) => match polled_descriptor(
            fds,
            fd,
            host::__WASI_RIGHT_FD_WRITE,
        ) {
            Err(e) => Err(e),
            Ok(descriptor) => Ok(
                PollView {
                    fd_events: before.fd_events.push(
                        FdEventData {
                            descriptor,
                            type_: host::__WASI_EVENTTYPE_FD_WRITE,
                            userdata: sub.userdata,
                        },
                    ),
                    ..before
                },
            ),
        },
    }
}

/// What the poll waits for, given all subscriptions in their order; the
/// first subscription that is refused refuses the poll.
pub open spec fn poll_of(
    fds: Map<host::__wasi_fd_t, FdEntry>,
    subs: Seq<Subscription>,
    now: Option<u128>,
) -> Result<PollView, host::__wasi_errno_t>
    decreases subs.len(),
{
    if subs.len() == 0 {
        Ok(PollView { timeout: None, fd_events: Seq::empty() })
    } else {
        match poll_of(fds, subs.drop_last(), now) {
            Err(e) => Err(e),
            Ok(before) => poll_with(fds, before, subs.last(), now),
        }
    }
}

/// The timeout to hand to the host, in milliseconds: none waits without
/// end, which is -1, and a delay beyond what the host can count is cut down
/// to `MAX_POLL_TIMEOUT`.
pub open spec fn host_timeout(timeout: Option<ClockEventData>) -> i32 {
    match timeout {
        None => -1i32,
        Some(t) => if t.delay > MAX_POLL_TIMEOUT {
            MAX_POLL_TIMEOUT
        } else {
            t.delay as i32
        },
    }
}

/// What the host is to wait for.
pub struct PollPlan {
    /// The clock that ends first, if the poll waits for a clock.
    pub timeout: Option<ClockEventData>,
    /// The descriptors to wait for, in the order of their subscriptions.
    pub fd_events: Vec<FdEventData>,
    /// The timeout for the host, in milliseconds; -1 for none.
    pub poll_timeout: i32,
}

impl PollPlan {
    /// Whether there is nothing to wait for, so that the poll is over with
    /// no event.
    pub fn is_empty(&self) -> (res: bool)
        ensures
            res == (self.timeout.is_none() && self.fd_events@.len() == 0),
    {
        self.fd_events.len() == 0 && self.timeout.is_none()
    }
}

/// Plans a poll: which clock ends first and which descriptors to wait for.
/// A descriptor must grant `FD_READ` to be waited for to read, and
/// `FD_WRITE` to be waited for to write.
pub fn poll_oneoff(wasi_ctx: &WasiCtx, input: &Vec<Subscription>, now: Option<u128>) -> (res:
    Result<PollPlan, host::__wasi_errno_t>)
    ensures
        match poll_of(wasi_ctx.fds(), input@, now) {
            Ok(view) => res matches Ok(plan) && plan.timeout == view.timeout
                && plan.fd_events@ == view.fd_events && plan.poll_timeout == host_timeout(
                view.timeout,
            ),
            Err(e) => res matches Err(x) && x == e,
        },
{
    let mut timeout: Option<ClockEventData> = None;
    let mut fd_events: Vec<FdEventData> = Vec::new();
    let mut i: usize = 0;
    while i < input.len()
        invariant
            i <= input.len(),
            poll_of(wasi_ctx.fds(), input@.take(i as int), now) == Ok::<_, host::__wasi_errno_t>(
                PollView { timeout, fd_events: fd_events@ },
            ),
        decreases input.len() - i,
    {
        let event = input[i];
        proof {
            assert(input@.take(i + 1).drop_last() =~= input@.take(i as int));
            assert(input@.take(i + 1).last() == event);
            lemma_refused_poll_stays_refused(wasi_ctx.fds(), input@, i + 1, now);
        }
        match event.kind {
            SubscriptionKind::Clock(clock) => {
                let ns = match wasi_clock_to_relative_ns_delay(&clock, now) {
                    Ok(ns) => ns,
                    Err(e) => {
                        return Err(e);
                    },
                };
                let current_event = ClockEventData {
                    delay: ns / NANOS_PER_MILLI,
                    userdata: event.userdata,
                };
                match timeout {
                    Some(t) => {
                        if current_event.delay < t.delay {
                            timeout = Some(current_event);
                        }
                    },
                    None => {
                        timeout = Some(current_event);
                    },
                }
            },
            SubscriptionKind::FdRead(wasi_fd) => {
                let descriptor = match wasi_ctx.get_fd_entry(
                    wasi_fd,
                    host::__WASI_RIGHT_FD_READ,
                    0,
                ) {
                    Ok(fe) => fe.descriptor,
                    Err(e) => {
                        return Err(e);
                    },
                };
                fd_events.push(
                    FdEventData {
                        descriptor,
                        type_: host::__WASI_EVENTTYPE_FD_READ,
                        userdata: event.userdata,
                    },
                );
            },
            SubscriptionKind::FdWrite(wasi_fd) => {
                let descriptor = match wasi_ctx.get_fd_entry(
                    wasi_fd,
                    host::__WASI_RIGHT_FD_WRITE,
                    0,
                ) {
                    Ok(fe) => fe.descriptor,
                    Err(e) => {
                        return Err(e);
                    },
                };
                fd_events.push(
                    FdEventData {
                        descriptor,
                        type_: host::__WASI_EVENTTYPE_FD_WRITE,
                        userdata: event.userdata,
                    },
                );
            },
        }
        i += 1;
    }
    proof {
        assert(input@.take(input@.len() as int) =~= input@);
    }
    let poll_timeout: i32 = match timeout {
        Some(t) => {
            if t.delay > MAX_POLL_TIMEOUT as u128 {
                MAX_POLL_TIMEOUT
            } else {
                t.delay as i32
            }
        },
        None => -1,
    };
    Ok(PollPlan { timeout, fd_events, poll_timeout })
}

/// A poll that is refused for its first `n` subscriptions is refused, with
/// the same error, for all of them.
pub proof fn lemma_refused_poll_stays_refused(
    fds: Map<host::__wasi_fd_t, FdEntry>,
    subs: Seq<Subscription>,
    n: int,
    now: Option<u128>,
)
    requires
        0 <= n <= subs.len(),
    ensures
        poll_of(fds, subs.take(n), now).is_err() ==> poll_of(fds, subs, now) == poll_of(
            fds,
            subs.take(n),
            now,
        ),
    decreases subs.len() - n,
{
    if n == subs.len() {
        assert(subs.take(n) =~= subs);
    } else {
        assert(subs.take(n + 1).drop_last() =~= subs.take(n));
        lemma_refused_poll_stays_refused(fds, subs, n + 1, now);
    }
}

/// The clock that ends first ends no later than any clock of the poll, and
/// the host is never asked to wait longer than that clock says.
pub proof fn lemma_host_timeout_is_within(timeout: Option<ClockEventData>)
    ensures
        timeout.is_none() ==> host_timeout(timeout) == -1,
        timeout.is_some() ==> 0 <= host_timeout(timeout) <= timeout.unwrap().delay,
        timeout.is_some() ==> host_timeout(timeout) <= MAX_POLL_TIMEOUT,
{
}

/// What a poll that the host could not do comes to: an interrupted poll is
/// done again, as it was; every other error ends the poll.
pub fn poll_oneoff_failed(errno: host::__wasi_errno_t) -> (res: Option<host::__wasi_errno_t>)
    ensures
        errno == host::__WASI_EINTR ==> res.is_none(),
        errno != host::__WASI_EINTR ==> res == Some(errno),
{
    if errno == host::__WASI_EINTR {
        None
    } else {
        Some(errno)
    }
}

/// The event of a clock that ended.
pub open spec fn timeout_event(userdata: host::__wasi_userdata_t) -> Event {
    Event {
        userdata,
        error: host::__WASI_ESUCCESS,
        type_: host::__WASI_EVENTTYPE_CLOCK,
        nbytes: 0,
        flags: 0,
    }
}

/// The events of a poll that ended with no descriptor ready: the clock that
/// the poll waited for has ended.
pub fn poll_oneoff_handle_timeout_event(timeout: Option<ClockEventData>) -> (events: Vec<Event>)
    ensures
        match timeout {
            Some(t) => events@ == seq![timeout_event(t.userdata)],
            None => events@ == Seq::<Event>::empty(),
        },
{
    let mut events: Vec<Event> = Vec::new();
    match timeout {
        Some(t) => {
            events.push(
                Event {
                    userdata: t.userdata,
                    type_: host::__WASI_EVENTTYPE_CLOCK,
                    error: host::__WASI_ESUCCESS,
                    nbytes: 0,
                    flags: 0,
                },
            );
        },
        None => {},
    }
    events
}


/// What the host reports of a descriptor after a poll.
#[derive(Clone, Copy, Debug, PartialEq, Eq, Structural)]
pub struct PollFlags {
    /// The descriptor is not open.
    pub nval: bool,
    /// An error stands on the descriptor.
    pub err: bool,
    /// The other side hung up.
    pub hup: bool,
    /// There is something to read.
    pub readable: bool,
    /// Writing is possible.
    pub writable: bool,
}

/// A descriptor of a poll with the answer of the host.
#[derive(Clone, Copy, Debug, PartialEq, Eq, Structural)]
pub struct FdPollResult {
    pub fd_event: FdEventData,
    /// What the host reports; `None` where it reports nothing that it
    /// knows how to name.
    pub revents: Option<PollFlags>,
    /// How many bytes the host says can be read.
    pub nbytes: i32,
}

/// The event of a descriptor, with an error and whether the other side
/// hung up; no bytes are counted.
pub open spec fn hangup_event(fd_event: FdEventData, error: host::__wasi_errno_t) -> Event {
    Event {
        userdata: fd_event.userdata,
        error,
        type_: fd_event.type_,
        nbytes: 0,
        flags: host::__WASI_EVENT_FD_READWRITE_HANGUP,
    }
}

/// The bytes that count for an event: those that can be read, for a
/// descriptor that was polled to read, and none else.
pub open spec fn counted_bytes(result: FdPollResult) -> i32 {
    if result.fd_event.type_ == host::__WASI_EVENTTYPE_FD_READ {
        result.nbytes
    } else {
        0
    }
}

/// What one descriptor of a poll comes to: no event where the host reports
/// nothing of it; an event with `EBADF` for a descriptor that is not open,
/// with `EIO` for one in error, and a plain one for one that hung up, each
/// marked as hung up; for one that can be read or written an event with the
/// bytes that can be read, or `EOVERFLOW` if the host counts them below
/// zero; and no event for anything else.
pub open spec fn fd_event_of(result: FdPollResult) -> Option<Result<Event, host::__wasi_errno_t>> {
    match result.revents {
        None => None,
        Some(revents) => if revents.nval {
            Some(Ok(hangup_event(result.fd_event, host::__WASI_EBADF)))
        } else if revents.err {
            Some(Ok(hangup_event(result.fd_event, host::__WASI_EIO)))
        } else if revents.hup {
            Some(Ok(hangup_event(result.fd_event, host::__WASI_ESUCCESS)))
        } else if revents.readable || revents.writable {
            if counted_bytes(result) < 0 {
                Some(Err(host::__WASI_EOVERFLOW))
            } else {
                Some(
                    Ok(
                        Event {
                            userdata: result.fd_event.userdata,
                            error: host::__WASI_ESUCCESS,
                            type_: result.fd_event.type_,
                            nbytes: counted_bytes(result) as u64,
                            flags: 0,
                        },
                    ),
                )
            }
        } else {
            None
        },
    }
}

/// The events of some descriptors of a poll, in their order; the first
/// descriptor whose bytes cannot be counted fails them all.
pub open spec fn fd_events_of(results: Seq<FdPollResult>) -> Result<
    Seq<Event>,
    host::__wasi_errno_t,
>
    decreases results.len(),
{
    if results.len() == 0 {
        Ok(Seq::empty())
    } else {
        match fd_events_of(results.drop_last()) {
            Err(e) => Err(e),
            Ok(events) => match fd_event_of(results.last()) {
                None => Ok(events),
                Some(Ok(event)) => Ok(events.push(event)),
                Some(Err(e)) => Err(e),
            },
        }
    }
}

/// How many of `len` descriptors a poll with `ready` ready descriptors
/// looks at: the first `ready` of them.
pub open spec fn looked_at(ready: usize, len: nat) -> int {
    if ready <= len {
        ready as int
    } else {
        len as int
    }
}

/// The events of the descriptors of a poll: those of the first `ready`
/// descriptors, where the host reported `ready` of them ready.
pub fn poll_oneoff_handle_fd_event(events: &Vec<FdPollResult>, ready: usize) -> (res: Result<
    Vec<Event>,
    host::__wasi_errno_t,
>)
    ensures
        match fd_events_of(events@.take(looked_at(ready, events@.len()))) {
            Ok(out) => res matches Ok(output_events) && output_events@ == out,
            Err(e) => res matches Err(x) && x == e,
        },
{
    let count: usize = if ready <= events.len() {
        ready
    } else {
        events.len()
    };
    let mut output_events: Vec<Event> = Vec::new();
    let mut i: usize = 0;
    while i < count
        invariant
            i <= count <= events.len(),
            count == looked_at(ready, events@.len()),
            fd_events_of(events@.take(i as int)) == Ok::<_, host::__wasi_errno_t>(
                output_events@,
            ),
        decreases count - i,
    {
        let result = events[i];
        let fd_event = result.fd_event;
        proof {
            assert(events@.take(i + 1).drop_last() =~= events@.take(i as int));
            assert(events@.take(i + 1).last() == result);
            lemma_failed_events_stay_failed(events@.take(count as int), i + 1);
            assert(events@.take(count as int).take(i + 1) =~= events@.take(i + 1));
        }
        i += 1;
        let revents = match result.revents {
            Some(revents) => revents,
            None => {
                continue ;
            },
        };
        let nbytes: i32 = if fd_event.type_ == host::__WASI_EVENTTYPE_FD_READ {
            result.nbytes
        } else {
            0
        };
        let output_event = if revents.nval {
            Event {
                userdata: fd_event.userdata,
                type_: fd_event.type_,
                error: host::__WASI_EBADF,
                nbytes: 0,
                flags: host::__WASI_EVENT_FD_READWRITE_HANGUP,
            }
        } else if revents.err {
            Event {
                userdata: fd_event.userdata,
                type_: fd_event.type_,
                error: host::__WASI_EIO,
                nbytes: 0,
                flags: host::__WASI_EVENT_FD_READWRITE_HANGUP,
            }
        } else if revents.hup {
            Event {
                userdata: fd_event.userdata,
                type_: fd_event.type_,
                error: host::__WASI_ESUCCESS,
                nbytes: 0,
                flags: host::__WASI_EVENT_FD_READWRITE_HANGUP,
            }
        } else if revents.readable || revents.writable {
            if nbytes < 0 {
                proof {
                    assert(fd_event_of(result) == Some(
                        Err::<Event, _>(host::__WASI_EOVERFLOW),
                    ));
                    assert(fd_events_of(events@.take(i as int)).is_err());
                }
                return Err(host::__WASI_EOVERFLOW);
            }
            Event {
                userdata: fd_event.userdata,
                type_: fd_event.type_,
                error: host::__WASI_ESUCCESS,
                nbytes: nbytes as u64,
                flags: 0,
            }
        } else {
            continue ;
        };
        output_events.push(output_event);
    }
    Ok(output_events)
}

/// Events that fail for the first `n` descriptors fail, with the same
/// error, for all of them.
pub proof fn lemma_failed_events_stay_failed(results: Seq<FdPollResult>, n: int)
    requires
        0 <= n <= results.len(),
    ensures
        fd_events_of(results.take(n)).is_err() ==> fd_events_of(results) == fd_events_of(
            results.take(n),
        ),
    decreases results.len() - n,
{
    if n == results.len() {
        assert(results.take(n) =~= results);
    } else {
        assert(results.take(n + 1).drop_last() =~= results.take(n));
        lemma_failed_events_stay_failed(results, n + 1);
    }
}

/// The events of a poll that the host has done: with no descriptor ready
/// the clock has ended; else the descriptors speak.
pub fn poll_oneoff_finish(
    timeout: Option<ClockEventData>,
    events: &Vec<FdPollResult>,
    ready: usize,
) -> (res: Result<Vec<Event>, host::__wasi_errno_t>)
    ensures
        ready == 0 ==> (res matches Ok(out) && match timeout {
            Some(t) => out@ == seq![timeout_event(t.userdata)],
            None => out@ == Seq::<Event>::empty(),
        }),
        ready != 0 ==> match fd_events_of(events@.take(looked_at(ready, events@.len()))) {
            Ok(out) => res matches Ok(output_events) && output_events@ == out,
            Err(e) => res matches Err(x) && x == e,
        },
{
    if ready == 0 {
        Ok(poll_oneoff_handle_timeout_event(timeout))
    } else {
        poll_oneoff_handle_fd_event(events, ready)
    }
}

} // verus!
