//! The context of one guest: its descriptor table, arguments and environment.

use crate::fdentry::{
    entry_of, stdio_entry_of, type_rights, Descriptor, FdEntry, FdEntryView, HostFile,
    HostFileKind,
};
use crate::host;
use std::collections::hash_map::Entry;
use std::collections::HashMap;
use vstd::prelude::*;
use vstd::std_specs::hash::*;

verus! {

broadcast use vstd::std_specs::hash::group_hash_axioms;

/// The lowest number that `insert_fd_entry` hands out: the three below it
/// belong to the standard streams.
pub const FIRST_FREE_FD: host::__wasi_fd_t = 3;

/// Every number from `FIRST_FREE_FD` up to, and without, `fd` is taken.
pub open spec fn taken_below(fds: Map<host::__wasi_fd_t, FdEntry>, fd: int) -> bool {
    forall|k: host::__wasi_fd_t| FIRST_FREE_FD <= k < fd ==> fds.contains_key(k)
}

/// The lowest free number from `FIRST_FREE_FD` on is `fd`.
pub open spec fn is_lowest_free(fds: Map<host::__wasi_fd_t, FdEntry>, fd: host::__wasi_fd_t) -> bool {
    &&& fd >= FIRST_FREE_FD
    &&& !fds.contains_key(fd)
    &&& taken_below(fds, fd as int)
}

/// No number from `FIRST_FREE_FD` on is free.
pub open spec fn is_full(fds: Map<host::__wasi_fd_t, FdEntry>) -> bool {
    taken_below(fds, host::__wasi_fd_t::MAX as int + 1)
}

/// Whether `fd` names a preopened directory root.
pub open spec fn is_preopen(fds: Map<host::__wasi_fd_t, FdEntry>, fd: host::__wasi_fd_t) -> bool {
    fds.contains_key(fd) && fds[fd].preopen_path.is_some()
}

/// What a lookup of `fd` with the rights asked for gives.
pub open spec fn lookup(
    fds: Map<host::__wasi_fd_t, FdEntry>,
    fd: host::__wasi_fd_t,
    rights_base: host::__wasi_rights_t,
    rights_inheriting: host::__wasi_rights_t,
) -> Result<FdEntry, host::__wasi_errno_t> {
    if !fds.contains_key(fd) {
        Err(host::__WASI_EBADF)
    } else if !fds[fd]@.grants(rights_base, rights_inheriting) {
        Err(host::__WASI_ENOTCAPABLE)
    } else {
        Ok(fds[fd])
    }
}

/// What `remove_fd_entry` answers for `fd`.
pub open spec fn removal(fds: Map<host::__wasi_fd_t, FdEntry>, fd: host::__wasi_fd_t) -> Result<
    FdEntry,
    host::__wasi_errno_t,
> {
    if !fds.contains_key(fd) {
        Err(host::__WASI_EBADF)
    } else if fds[fd].preopen_path.is_some() {
        Err(host::__WASI_ENOTSUP)
    } else {
        Ok(fds[fd])
    }
}

/// The error with which `renumber` refuses `from` and `to`, if it does.
pub open spec fn renumber_refusal(
    fds: Map<host::__wasi_fd_t, FdEntry>,
    from: host::__wasi_fd_t,
    to: host::__wasi_fd_t,
) -> Option<host::__wasi_errno_t> {
    if !fds.contains_key(from) || !fds.contains_key(to) {
        Some(host::__WASI_EBADF)
    } else if fds[from].preopen_path.is_some() || fds[to].preopen_path.is_some() {
        Some(host::__WASI_ENOTSUP)
    } else {
        None
    }
}

/// The table after `from` was renumbered to `to`.
pub open spec fn renumbered(
    fds: Map<host::__wasi_fd_t, FdEntry>,
    from: host::__wasi_fd_t,
    to: host::__wasi_fd_t,
) -> Map<host::__wasi_fd_t, FdEntry> {
    if from == to {
        fds
    } else {
        fds.insert(to, fds[from]).remove(from)
    }
}

pub struct WasiCtx {
    fds: HashMap<host::__wasi_fd_t, FdEntry>,
    args: Vec<Vec<u8>>,
    env: Vec<Vec<u8>>,
}

impl WasiCtx {
    /// The descriptor table.
    pub closed spec fn fds(&self) -> Map<host::__wasi_fd_t, FdEntry> {
        self.fds@
    }

    /// The arguments, each ending in its NUL byte.
    pub closed spec fn args(&self) -> Vec<Vec<u8>> {
        self.args
    }

    /// The environment, each entry `KEY=VALUE` ending in its NUL byte.
    pub closed spec fn env(&self) -> Vec<Vec<u8>> {
        self.env
    }

    /// A context with an empty descriptor table.
    pub fn empty(args: Vec<Vec<u8>>, env: Vec<Vec<u8>>) -> (ctx: WasiCtx)
        ensures
            ctx.fds() == Map::<host::__wasi_fd_t, FdEntry>::empty(),
            ctx.args() == args,
            ctx.env() == env,
    {
        WasiCtx { fds: HashMap::new(), args, env }
    }

    /// The arguments, each ending in its NUL byte.
    pub fn get_args(&self) -> (args: &Vec<Vec<u8>>)
        ensures
            *args == self.args(),
    {
        &self.args
    }

    /// The environment, each entry `KEY=VALUE` ending in its NUL byte.
    pub fn get_env(&self) -> (env: &Vec<Vec<u8>>)
        ensures
            *env == self.env(),
    {
        &self.env
    }

    /// Whether the table holds `fd`.
    pub fn contains_fd_entry(&self, fd: host::__wasi_fd_t) -> (res: bool)
        ensures
            res == self.fds().contains_key(fd),
    {
        self.fds.contains_key(&fd)
    }

    /// The entry of `fd`, if it grants the rights asked for: `EBADF` where
    /// the table has no such descriptor, `ENOTCAPABLE` where the entry falls
    /// short of `rights_base` or `rights_inheriting`.
    pub fn get_fd_entry(
        &self,
        fd: host::__wasi_fd_t,
        rights_base: host::__wasi_rights_t,
        rights_inheriting: host::__wasi_rights_t,
    ) -> (res: Result<&FdEntry, host::__wasi_errno_t>)
        ensures
            match lookup(self.fds(), fd, rights_base, rights_inheriting) {
                Ok(fe) => res.is_ok() && *res.unwrap() == fe,
                Err(e) => res.is_err() && res.unwrap_err() == e,
            },
    {
        match self.fds.get(&fd) {
            Some(fe) => match fe.validate_rights(rights_base, rights_inheriting) {
                Ok(()) => Ok(fe),
                Err(e) => Err(e),
            },
            None => Err(host::__WASI_EBADF),
        }
    }

    /// As `get_fd_entry`, for an entry that the caller may change. What the
    /// caller leaves in the entry is what the table holds for `fd` afterwards;
    /// the rest of the table stays as it is.
    pub fn get_fd_entry_mut(
        &mut self,
        fd: host::__wasi_fd_t,
        rights_base: host::__wasi_rights_t,
        rights_inheriting: host::__wasi_rights_t,
    ) -> (res: Result<&mut FdEntry, host::__wasi_errno_t>)
        ensures
            final(self).args() == old(self).args(),
            final(self).env() == old(self).env(),
            match lookup(old(self).fds(), fd, rights_base, rights_inheriting) {
                Ok(fe) => res.is_ok() && *res.unwrap() == fe && final(self).fds() == old(self).fds().insert(fd, *final(res.unwrap())),
                Err(e) => res.is_err() && res.unwrap_err() == e && final(self).fds() == old(self).fds(),
            },
    {
        match self.fds.entry(fd) {
            Entry::Occupied(occupied) => {
                let fe = occupied.into_mut();
                match fe.validate_rights(rights_base, rights_inheriting) {
                    Ok(()) => Ok(fe),
                    Err(e) => {
                        assert(old(self).fds().insert(fd, *fe) =~= old(self).fds());
                        Err(e)
                    },
                }
            },
            Entry::Vacant(_) => {
                assert(old(self).fds().remove(fd) =~= old(self).fds());
                Err(host::__WASI_EBADF)
            },
        }
    }

    /// Puts `fe` under the lowest free number from `FIRST_FREE_FD` on and
    /// returns that number. Where none is free, the table stays as it is and
    /// the answer is `EMFILE`.
    pub fn insert_fd_entry(&mut self, fe: FdEntry) -> (res: Result<
        host::__wasi_fd_t,
        host::__wasi_errno_t,
    >)
        ensures
            final(self).args() == old(self).args(),
            final(self).env() == old(self).env(),
            match res {
                Ok(fd) => is_lowest_free(old(self).fds(), fd) && final(self).fds() == old(self).fds().insert(fd, fe),
                Err(e) => e == host::__WASI_EMFILE && is_full(old(self).fds()) && final(self).fds() == old(self).fds(),
            },
    {
        let mut fd: host::__wasi_fd_t = FIRST_FREE_FD;
        while self.fds.contains_key(&fd)
            invariant
                fd >= FIRST_FREE_FD,
                taken_below(self.fds(), fd as int),
                *self == *old(self),
            decreases host::__wasi_fd_t::MAX - fd,
        {
            if fd == host::__wasi_fd_t::MAX {
                return Err(host::__WASI_EMFILE);
            }
            fd = fd + 1;
        }
        self.fds.insert(fd, fe);
        Ok(fd)
    }

    /// Puts `fe` under `fd`, whatever was there, and returns what was there.
    pub fn insert_fd_entry_at(&mut self, fd: host::__wasi_fd_t, fe: FdEntry) -> (res: Option<
        FdEntry,
    >)
        ensures
            final(self).args() == old(self).args(),
            final(self).env() == old(self).env(),
            final(self).fds() == old(self).fds().insert(fd, fe),
            match res {
                Some(previous) => old(self).fds().contains_key(fd) && previous == old(self).fds()[fd],
                None => !old(self).fds().contains_key(fd),
            },
    {
        self.fds.insert(fd, fe)
    }

    /// Takes the entry of `fd` out of the table: `EBADF` where there is none,
    /// `ENOTSUP` for a preopened root, which stays.
    pub fn remove_fd_entry(&mut self, fd: host::__wasi_fd_t) -> (res: Result<
        FdEntry,
        host::__wasi_errno_t,
    >)
        ensures
            final(self).args() == old(self).args(),
            final(self).env() == old(self).env(),
            res == removal(old(self).fds(), fd),
            match res {
                Ok(_) => final(self).fds() == old(self).fds().remove(fd),
                Err(_) => final(self).fds() == old(self).fds(),
            },
    {
        match self.fds.get(&fd) {
            Some(fe) => {
                if fe.preopen_path.is_some() {
                    return Err(host::__WASI_ENOTSUP);
                }
            },
            None => {
                return Err(host::__WASI_EBADF);
            },
        }
        match self.fds.remove(&fd) {
            Some(fe) => Ok(fe),
            None => Err(host::__WASI_EBADF),
        }
    }

    /// Makes `to` name what `from` names, and closes `from`. The entry that
    /// `to` named before leaves the table and is returned, for the host to
    /// release. Both must be in the table (else `EBADF`) and neither a
    /// preopened root (else `ENOTSUP`); where `from` and `to` are the same
    /// number nothing changes.
    pub fn renumber(&mut self, from: host::__wasi_fd_t, to: host::__wasi_fd_t) -> (res: Result<
        Option<FdEntry>,
        host::__wasi_errno_t,
    >)
        ensures
            final(self).args() == old(self).args(),
            final(self).env() == old(self).env(),
            match renumber_refusal(old(self).fds(), from, to) {
                Some(e) => res == Err::<Option<FdEntry>, _>(e) && final(self).fds() == old(self).fds(),
                None => final(self).fds() == renumbered(old(self).fds(), from, to) && res == Ok::<
                    _,
                    host::__wasi_errno_t,
                >(
                    if from == to {
                        None
                    } else {
                        Some(old(self).fds()[to])
                    },
                ),
            },
    {
        match self.fds.get(&from) {
            Some(fe) => {
                if !self.fds.contains_key(&to) {
                    return Err(host::__WASI_EBADF);
                }
                if fe.preopen_path.is_some() {
                    return Err(host::__WASI_ENOTSUP);
                }
            },
            None => {
                return Err(host::__WASI_EBADF);
            },
        }
        match self.fds.get(&to) {
            Some(fe) => {
                if fe.preopen_path.is_some() {
                    return Err(host::__WASI_ENOTSUP);
                }
            },
            None => {
                return Err(host::__WASI_EBADF);
            },
        }
        if from == to {
            return Ok(None);
        }
        match self.fds.remove(&from) {
            Some(fe) => {
                let retired = self.fds.insert(to, fe);
                assert(final(self).fds() =~= renumbered(old(self).fds(), from, to));
                Ok(retired)
            },
            None => Err(host::__WASI_EBADF),
        }
    }
}

/// A preopened root stays in the table: taking it out is refused with
/// `ENOTSUP`, whatever else the table holds.
pub proof fn lemma_preopen_is_not_removed(
    fds: Map<host::__wasi_fd_t, FdEntry>,
    fd: host::__wasi_fd_t,
)
    requires
        is_preopen(fds, fd),
    ensures
        removal(fds, fd) == Err::<FdEntry, _>(host::__WASI_ENOTSUP),
        forall|other: host::__wasi_fd_t| (#[trigger] renumber_refusal(fds, fd, other)).is_some(),
        forall|other: host::__wasi_fd_t| (#[trigger] renumber_refusal(fds, other, fd)).is_some(),
{
}

/// After `from` was renumbered to another number `to`, a lookup of `from`
/// finds nothing, a lookup of `to` finds what a lookup of `from` found
/// before, and every other descriptor is found as before.
pub proof fn lemma_renumber_moves_entry(
    fds: Map<host::__wasi_fd_t, FdEntry>,
    from: host::__wasi_fd_t,
    to: host::__wasi_fd_t,
    rights_base: host::__wasi_rights_t,
    rights_inheriting: host::__wasi_rights_t,
)
    requires
        renumber_refusal(fds, from, to).is_none(),
        from != to,
    ensures
        lookup(renumbered(fds, from, to), from, rights_base, rights_inheriting) == Err::<
            FdEntry,
            _,
        >(host::__WASI_EBADF),
        lookup(renumbered(fds, from, to), to, rights_base, rights_inheriting) == lookup(
            fds,
            from,
            rights_base,
            rights_inheriting,
        ),
        forall|other: host::__wasi_fd_t|
            other != from && other != to ==> #[trigger] lookup(
                renumbered(fds, from, to),
                other,
                rights_base,
                rights_inheriting,
            ) == lookup(fds, other, rights_base, rights_inheriting),
{
}

/// A new descriptor never takes the number of a standard stream, nor one
/// that is in use.
pub proof fn lemma_insert_spares_what_is_there(
    fds: Map<host::__wasi_fd_t, FdEntry>,
    fd: host::__wasi_fd_t,
    fe: FdEntry,
)
    requires
        is_lowest_free(fds, fd),
    ensures
        fd > 2,
        forall|other: host::__wasi_fd_t|
            fds.contains_key(other) ==> #[trigger] fds.insert(fd, fe).contains_key(other)
                && fds.insert(fd, fe)[other] == fds[other],
{
}


pub const NUL: u8 = 0;

pub const EQUALS: u8 = 0x3d;

/// The views of some byte strings.
pub open spec fn strings_view(strings: Seq<Vec<u8>>) -> Seq<Seq<u8>> {
    strings.map_values(|s: Vec<u8>| s@)
}

/// A byte string as the guest gets it: with a NUL behind it. A string that
/// holds a NUL itself cannot be handed to the guest.
pub open spec fn c_string(bytes: Seq<u8>) -> Option<Seq<u8>> {
    if bytes.contains(NUL) {
        None
    } else {
        Some(bytes.push(NUL))
    }
}

/// Some byte strings as the guest gets them, if none of them holds a NUL.
pub open spec fn c_strings(strings: Seq<Seq<u8>>) -> Option<Seq<Seq<u8>>> {
    if forall|i: int| 0 <= i < strings.len() ==> (#[trigger] c_string(strings[i])).is_some() {
        Some(Seq::new(strings.len(), |i: int| c_string(strings[i]).unwrap()))
    } else {
        None
    }
}

/// The variables of an environment as mathematical values: key and value.
pub open spec fn pairs_view(env: Seq<(Vec<u8>, Vec<u8>)>) -> Seq<(Seq<u8>, Seq<u8>)> {
    env.map_values(|pair: (Vec<u8>, Vec<u8>)| (pair.0@, pair.1@))
}

/// A variable of the environment as one string: the key, `=`, the value.
pub open spec fn env_pair(pair: (Seq<u8>, Seq<u8>)) -> Seq<u8> {
    pair.0.push(EQUALS) + pair.1
}

/// The variables of an environment, each as one string.
pub open spec fn env_pairs(env: Seq<(Seq<u8>, Seq<u8>)>) -> Seq<Seq<u8>> {
    env.map_values(|pair: (Seq<u8>, Seq<u8>)| env_pair(pair))
}

/// No key stands twice.
pub open spec fn keys_unique(env: Seq<(Seq<u8>, Seq<u8>)>) -> bool {
    forall|i: int, j: int| 0 <= i < j < env.len() ==> (#[trigger] env[i]).0 != (#[trigger] env[j]).0
}

/// The first index at or after `from` whose key is `key`, or the length.
pub open spec fn key_index(env: Seq<(Seq<u8>, Seq<u8>)>, key: Seq<u8>, from: int) -> int
    decreases env.len() - from,
{
    if from >= env.len() || env[from].0 == key {
        from
    } else {
        key_index(env, key, from + 1)
    }
}

/// The environment with the variable `key` set to `value`: in the place
/// where the key stood, or behind the others where it is new.
pub open spec fn with_variable(
    env: Seq<(Seq<u8>, Seq<u8>)>,
    key: Seq<u8>,
    value: Seq<u8>,
) -> Seq<(Seq<u8>, Seq<u8>)> {
    let at = key_index(env, key, 0);
    if 0 <= at < env.len() {
        env.update(at, (key, value))
    } else {
        env.push((key, value))
    }
}

/// The environment that some pairs of key and value make, set one after the
/// other: of a key that comes twice the last value stays.
pub open spec fn collected(pairs: Seq<(Seq<u8>, Seq<u8>)>) -> Seq<(Seq<u8>, Seq<u8>)>
    decreases pairs.len(),
{
    if pairs.len() == 0 {
        Seq::empty()
    } else {
        with_variable(collected(pairs.drop_last()), pairs.last().0, pairs.last().1)
    }
}

pub proof fn lemma_key_index(env: Seq<(Seq<u8>, Seq<u8>)>, key: Seq<u8>, from: int)
    requires
        0 <= from <= env.len(),
    ensures
        from <= key_index(env, key, from) <= env.len(),
        forall|i: int| from <= i < key_index(env, key, from) ==> (#[trigger] env[i]).0 != key,
        key_index(env, key, from) < env.len() ==> env[key_index(env, key, from)].0 == key,
    decreases env.len() - from,
{
    if from < env.len() && env[from].0 != key {
        lemma_key_index(env, key, from + 1);
    }
}

/// Setting a variable keeps the keys of an environment unique.
pub proof fn lemma_with_variable_keeps_unique(
    env: Seq<(Seq<u8>, Seq<u8>)>,
    key: Seq<u8>,
    value: Seq<u8>,
)
    requires
        keys_unique(env),
    ensures
        keys_unique(with_variable(env, key, value)),
{
    lemma_key_index(env, key, 0);
    let at = key_index(env, key, 0);
    let out = with_variable(env, key, value);
    assert forall|i: int, j: int| 0 <= i < j < out.len() implies (#[trigger] out[i]).0 != (
    #[trigger] out[j]).0 by {
        if at < env.len() {
            if i == at {
                assert(env[i].0 == key);
                assert(out[j] == env[j]);
            } else if j == at {
                assert(env[j].0 == key);
                assert(out[i] == env[i]);
            } else {
                assert(out[i] == env[i]);
                assert(out[j] == env[j]);
            }
        } else {
            if j == env.len() {
                assert(out[i] == env[i]);
            } else {
                assert(out[i] == env[i]);
                assert(out[j] == env[j]);
            }
        }
    }
}

fn has_nul(bytes: &Vec<u8>) -> (res: bool)
    ensures
        res == bytes@.contains(NUL),
{
    let mut i: usize = 0;
    while i < bytes.len()
        invariant
            i <= bytes.len(),
            forall|j: int| 0 <= j < i ==> bytes@[j] != NUL,
        decreases bytes.len() - i,
    {
        if bytes[i] == NUL {
            return true;
        }
        i += 1;
    }
    false
}

fn same_bytes(a: &Vec<u8>, b: &Vec<u8>) -> (res: bool)
    ensures
        res == (a@ == b@),
{
    if a.len() != b.len() {
        return false;
    }
    let mut i: usize = 0;
    while i < a.len()
        invariant
            i <= a.len(),
            a.len() == b.len(),
            forall|j: int| 0 <= j < i ==> a@[j] == b@[j],
        decreases a.len() - i,
    {
        if a[i] != b[i] {
            return false;
        }
        i += 1;
    }
    assert(a@ =~= b@);
    true
}

/// The strings for the guest, each with its NUL; `ENOTCAPABLE` where one of
/// them holds a NUL already.
fn to_c_strings(strings: &Vec<Vec<u8>>) -> (res: Result<Vec<Vec<u8>>, host::__wasi_errno_t>)
    ensures
        match c_strings(strings_view(strings@)) {
            Some(out) => res matches Ok(v) && strings_view(v@) == out,
            None => res matches Err(e) && e == host::__WASI_ENOTCAPABLE,
        },
{
    let mut out: Vec<Vec<u8>> = Vec::new();
    let mut i: usize = 0;
    while i < strings.len()
        invariant
            i <= strings.len(),
            out@.len() == i,
            forall|j: int|
                0 <= j < i ==> (#[trigger] c_string(strings_view(strings@)[j])).is_some()
                    && out@[j]@ == c_string(strings_view(strings@)[j]).unwrap(),
        decreases strings.len() - i,
    {
        if has_nul(&strings[i]) {
            assert(c_string(strings_view(strings@)[i as int]).is_none());
            return Err(host::__WASI_ENOTCAPABLE);
        }
        let mut string = strings[i].clone();
        string.push(NUL);
        out.push(string);
        i += 1;
    }
    proof {
        assert(strings_view(out@) =~= c_strings(strings_view(strings@)).unwrap());
    }
    Ok(out)
}

/// The variables of the environment, each as one string `KEY=VALUE`.
fn to_env_pairs(env: &Vec<(Vec<u8>, Vec<u8>)>) -> (out: Vec<Vec<u8>>)
    ensures
        strings_view(out@) == env_pairs(pairs_view(env@)),
{
    let mut out: Vec<Vec<u8>> = Vec::new();
    let mut i: usize = 0;
    while i < env.len()
        invariant
            i <= env.len(),
            out@.len() == i,
            forall|j: int|
                0 <= j < i ==> (#[trigger] out@[j])@ == env_pair(pairs_view(env@)[j]),
        decreases env.len() - i,
    {
        let mut pair = env[i].0.clone();
        pair.push(EQUALS);
        let mut value = env[i].1.clone();
        pair.append(&mut value);
        out.push(pair);
        i += 1;
    }
    proof {
        assert(strings_view(out@) =~= env_pairs(pairs_view(env@)));
    }
    out
}

/// What a standard stream of the guest is made of, when the context is
/// built.
#[derive(Clone, Copy, Debug, PartialEq, Eq, Structural)]
pub enum PendingFdEntry {
    /// The null device, which the host opens for the build.
    Null,
    /// The standard input of the host.
    Stdin,
    /// The standard output of the host.
    Stdout,
    /// The standard error of the host.
    Stderr,
    /// A file that was given.
    File(HostFile),
}

/// The entry of a standard stream of the guest: that of the file it was
/// given, or, where the host had to open or look at something for it, that
/// of what the host found, or the error of the host.
pub open spec fn pending_entry(
    pending: PendingFdEntry,
    found: Result<HostFile, host::__wasi_errno_t>,
) -> Result<FdEntryView, host::__wasi_errno_t> {
    let file = match pending {
        PendingFdEntry::File(file) => Ok(file),
        _ => found,
    };
    match file {
        Err(e) => Err(e),
        Ok(file) => if type_rights(file.kind).is_none() {
            Err(host::__WASI_EINVAL)
        } else {
            match pending {
                PendingFdEntry::Stdin => Ok(stdio_entry_of(Descriptor::Stdin, file)),
                PendingFdEntry::Stdout => Ok(stdio_entry_of(Descriptor::Stdout, file)),
                PendingFdEntry::Stderr => Ok(stdio_entry_of(Descriptor::Stderr, file)),
                _ => Ok(entry_of(file)),
            }
        },
    }
}

fn make_pending(pending: PendingFdEntry, found: Result<HostFile, host::__wasi_errno_t>) -> (res:
    Result<FdEntry, host::__wasi_errno_t>)
    ensures
        match pending_entry(pending, found) {
            Ok(view) => res matches Ok(fe) && fe@ == view,
            Err(e) => res matches Err(x) && x == e,
        },
{
    match pending {
        PendingFdEntry::File(file) => FdEntry::from(file),
        PendingFdEntry::Null => match found {
            Ok(file) => FdEntry::from(file),
            Err(e) => Err(e),
        },
        PendingFdEntry::Stdin => match found {
            Ok(file) => FdEntry::duplicate_stdin(file),
            Err(e) => Err(e),
        },
        PendingFdEntry::Stdout => match found {
            Ok(file) => FdEntry::duplicate_stdout(file),
            Err(e) => Err(e),
        },
        PendingFdEntry::Stderr => match found {
            Ok(file) => FdEntry::duplicate_stderr(file),
            Err(e) => Err(e),
        },
    }
}

/// The entry of a preopened directory: that of the directory, with the
/// path under which the guest knows it. What is no directory is `EBADF`.
pub open spec fn preopen_entry(dir: HostFile, guest_path: Seq<u8>) -> Result<
    FdEntryView,
    host::__wasi_errno_t,
> {
    if dir.kind != HostFileKind::Directory {
        Err(host::__WASI_EBADF)
    } else {
        Ok(FdEntryView { preopen_path: Some(guest_path), ..entry_of(dir) })
    }
}

/// What the host found for the three standard streams of the guest. Each
/// counts only where the stream is not made of a file that was given.
pub struct FoundStdio {
    pub stdin: Result<HostFile, host::__wasi_errno_t>,
    pub stdout: Result<HostFile, host::__wasi_errno_t>,
    pub stderr: Result<HostFile, host::__wasi_errno_t>,
}

/// A builder allowing customizable construction of `WasiCtx` instances.
pub struct WasiCtxBuilder {
    stdin: PendingFdEntry,
    stdout: PendingFdEntry,
    stderr: PendingFdEntry,
    preopens: Vec<(Vec<u8>, HostFile)>,
    args: Vec<Vec<u8>>,
    env: Vec<(Vec<u8>, Vec<u8>)>,
}

/// The first error that stands in the way of a context, if any: an
/// argument or a variable that holds a NUL (`ENOTCAPABLE`), a standard
/// stream that cannot be made, or a preopened directory for which no number
/// is left (`ENFILE`) or which cannot be made.
pub open spec fn preopen_error(preopens: Seq<(Vec<u8>, HostFile)>, n: int) -> Option<
    host::__wasi_errno_t,
>
    decreases n,
{
    if n <= 0 {
        None
    } else if preopen_error(preopens, n - 1).is_some() {
        preopen_error(preopens, n - 1)
    } else if FIRST_FREE_FD + (n - 1) > host::__wasi_fd_t::MAX {
        Some(host::__WASI_ENFILE)
    } else {
        match preopen_entry(preopens[n - 1].1, preopens[n - 1].0@) {
            Err(e) => Some(e),
            Ok(_) => None,
        }
    }
}

impl WasiCtxBuilder {
    pub closed spec fn stdin_view(&self) -> PendingFdEntry {
        self.stdin
    }

    pub closed spec fn stdout_view(&self) -> PendingFdEntry {
        self.stdout
    }

    pub closed spec fn stderr_view(&self) -> PendingFdEntry {
        self.stderr
    }

    pub closed spec fn preopens_view(&self) -> Seq<(Vec<u8>, HostFile)> {
        self.preopens@
    }

    pub closed spec fn args_view(&self) -> Seq<Seq<u8>> {
        strings_view(self.args@)
    }

    pub closed spec fn env_view(&self) -> Seq<(Seq<u8>, Seq<u8>)> {
        pairs_view(self.env@)
    }

    #[verifier::type_invariant]
    spec fn inv(self) -> bool {
        keys_unique(pairs_view(self.env@))
    }

    /// Builder for a new `WasiCtx`: the three standard streams are the null
    /// device, and there are no arguments, no variables and no preopened
    /// directories.
    pub fn new() -> (builder: WasiCtxBuilder)
        ensures
            builder.stdin_view() == PendingFdEntry::Null,
            builder.stdout_view() == PendingFdEntry::Null,
            builder.stderr_view() == PendingFdEntry::Null,
            builder.preopens_view().len() == 0,
            builder.args_view().len() == 0,
            builder.env_view().len() == 0,
    {
        WasiCtxBuilder {
            stdin: PendingFdEntry::Null,
            stdout: PendingFdEntry::Null,
            stderr: PendingFdEntry::Null,
            preopens: Vec::new(),
            args: Vec::new(),
            env: Vec::new(),
        }
    }

    /// What the three standard streams are made of.
    pub fn pending(&self) -> (res: (PendingFdEntry, PendingFdEntry, PendingFdEntry))
        ensures
            res == (self.stdin_view(), self.stdout_view(), self.stderr_view()),
    {
        (self.stdin, self.stdout, self.stderr)
    }

    /// Add arguments to the command-line arguments list: they replace what
    /// was there.
    ///
    /// Arguments must not contain NUL bytes, or `WasiCtxBuilder::build()` will fail with
    /// `ENOTCAPABLE`.
    pub fn args(self, args: Vec<Vec<u8>>) -> (builder: WasiCtxBuilder)
        ensures
            builder.args_view() == strings_view(args@),
            builder.stdin_view() == self.stdin_view(),
            builder.stdout_view() == self.stdout_view(),
            builder.stderr_view() == self.stderr_view(),
            builder.preopens_view() == self.preopens_view(),
            builder.env_view() == self.env_view(),
    {
        proof {
            use_type_invariant(&self);
        }
        WasiCtxBuilder {
            stdin: self.stdin,
            stdout: self.stdout,
            stderr: self.stderr,
            preopens: self.preopens,
            args,
            env: self.env,
        }
    }

    /// Add an argument to the command-line arguments list.
    ///
    /// Arguments must not contain NUL bytes, or `WasiCtxBuilder::build()` will fail with
    /// `ENOTCAPABLE`.
    pub fn arg(self, arg: Vec<u8>) -> (builder: WasiCtxBuilder)
        ensures
            builder.args_view() == self.args_view().push(arg@),
            builder.stdin_view() == self.stdin_view(),
            builder.stdout_view() == self.stdout_view(),
            builder.stderr_view() == self.stderr_view(),
            builder.preopens_view() == self.preopens_view(),
            builder.env_view() == self.env_view(),
    {
        proof {
            use_type_invariant(&self);
        }
        let mut args = self.args;
        args.push(arg);
        proof {
            assert(strings_view(args@) =~= strings_view(self.args@).push(arg@));
        }
        WasiCtxBuilder {
            stdin: self.stdin,
            stdout: self.stdout,
            stderr: self.stderr,
            preopens: self.preopens,
            args,
            env: self.env,
        }
    }

    /// Inherit the stdin, stdout, and stderr streams from the host process.
    pub fn inherit_stdio(self) -> (builder: WasiCtxBuilder)
        ensures
            builder.stdin_view() == PendingFdEntry::Stdin,
            builder.stdout_view() == PendingFdEntry::Stdout,
            builder.stderr_view() == PendingFdEntry::Stderr,
            builder.args_view() == self.args_view(),
            builder.preopens_view() == self.preopens_view(),
            builder.env_view() == self.env_view(),
    {
        proof {
            use_type_invariant(&self);
        }
        WasiCtxBuilder {
            stdin: PendingFdEntry::Stdin,
            stdout: PendingFdEntry::Stdout,
            stderr: PendingFdEntry::Stderr,
            preopens: self.preopens,
            args: self.args,
            env: self.env,
        }
    }

    /// Provide a File to use as stdin
    pub fn stdin(self, file: HostFile) -> (builder: WasiCtxBuilder)
        ensures
            builder.stdin_view() == PendingFdEntry::File(file),
            builder.stdout_view() == self.stdout_view(),
            builder.stderr_view() == self.stderr_view(),
            builder.args_view() == self.args_view(),
            builder.preopens_view() == self.preopens_view(),
            builder.env_view() == self.env_view(),
    {
        proof {
            use_type_invariant(&self);
        }
        WasiCtxBuilder {
            stdin: PendingFdEntry::File(file),
            stdout: self.stdout,
            stderr: self.stderr,
            preopens: self.preopens,
            args: self.args,
            env: self.env,
        }
    }

    /// Provide a File to use as stdout
    pub fn stdout(self, file: HostFile) -> (builder: WasiCtxBuilder)
        ensures
            builder.stdout_view() == PendingFdEntry::File(file),
            builder.stdin_view() == self.stdin_view(),
            builder.stderr_view() == self.stderr_view(),
            builder.args_view() == self.args_view(),
            builder.preopens_view() == self.preopens_view(),
            builder.env_view() == self.env_view(),
    {
        proof {
            use_type_invariant(&self);
        }
        WasiCtxBuilder {
            stdin: self.stdin,
            stdout: PendingFdEntry::File(file),
            stderr: self.stderr,
            preopens: self.preopens,
            args: self.args,
            env: self.env,
        }
    }

    /// Provide a File to use as stderr
    pub fn stderr(self, file: HostFile) -> (builder: WasiCtxBuilder)
        ensures
            builder.stderr_view() == PendingFdEntry::File(file),
            builder.stdin_view() == self.stdin_view(),
            builder.stdout_view() == self.stdout_view(),
            builder.args_view() == self.args_view(),
            builder.preopens_view() == self.preopens_view(),
            builder.env_view() == self.env_view(),
    {
        proof {
            use_type_invariant(&self);
        }
        WasiCtxBuilder {
            stdin: self.stdin,
            stdout: self.stdout,
            stderr: PendingFdEntry::File(file),
            preopens: self.preopens,
            args: self.args,
            env: self.env,
        }
    }

    /// Add a preopened directory.
    pub fn preopened_dir(self, dir: HostFile, guest_path: Vec<u8>) -> (builder: WasiCtxBuilder)
        ensures
            builder.preopens_view() == self.preopens_view().push((guest_path, dir)),
            builder.stdin_view() == self.stdin_view(),
            builder.stdout_view() == self.stdout_view(),
            builder.stderr_view() == self.stderr_view(),
            builder.args_view() == self.args_view(),
            builder.env_view() == self.env_view(),
    {
        proof {
            use_type_invariant(&self);
        }
        let mut preopens = self.preopens;
        preopens.push((guest_path, dir));
        WasiCtxBuilder {
            stdin: self.stdin,
            stdout: self.stdout,
            stderr: self.stderr,
            preopens,
            args: self.args,
            env: self.env,
        }
    }
}


/// Sets the variable `key` to `value` in an environment.
fn set_variable(env: &mut Vec<(Vec<u8>, Vec<u8>)>, key: Vec<u8>, value: Vec<u8>)
    ensures
        pairs_view(final(env)@) == with_variable(pairs_view(old(env)@), key@, value@),
{
    let ghost before = pairs_view(env@);
    let mut i: usize = 0;
    while i < env.len()
        invariant
            i <= env.len(),
            env@ == old(env)@,
            before == pairs_view(env@),
            key_index(before, key@, i as int) == key_index(before, key@, 0),
        decreases env.len() - i,
    {
        if same_bytes(&env[i].0, &key) {
            env.set(i, (key, value));
            proof {
                assert(key_index(before, key@, 0) == i);
                assert(pairs_view(env@) =~= before.update(i as int, (key@, value@)));
            }
            return ;
        }
        i += 1;
    }
    proof {
        assert(key_index(before, key@, 0) == env@.len());
    }
    env.push((key, value));
    proof {
        assert(pairs_view(env@) =~= before.push((key@, value@)));
    }
}

impl WasiCtxBuilder {
    /// Add an entry to the environment: a key that is there already gets
    /// the new value.
    ///
    /// Environment variable keys and values must not contain NUL bytes, or
    /// `WasiCtxBuilder::build()` will fail with `ENOTCAPABLE`.
    pub fn env(self, k: Vec<u8>, v: Vec<u8>) -> (builder: WasiCtxBuilder)
        ensures
            builder.env_view() == with_variable(self.env_view(), k@, v@),
            keys_unique(builder.env_view()),
            builder.stdin_view() == self.stdin_view(),
            builder.stdout_view() == self.stdout_view(),
            builder.stderr_view() == self.stderr_view(),
            builder.args_view() == self.args_view(),
            builder.preopens_view() == self.preopens_view(),
    {
        proof {
            use_type_invariant(&self);
            lemma_with_variable_keeps_unique(pairs_view(self.env@), k@, v@);
        }
        let mut env = self.env;
        set_variable(&mut env, k, v);
        WasiCtxBuilder {
            stdin: self.stdin,
            stdout: self.stdout,
            stderr: self.stderr,
            preopens: self.preopens,
            args: self.args,
            env,
        }
    }

    /// Add entries to the environment: they replace what was there.
    ///
    /// Environment variable keys and values must not contain NUL bytes, or
    /// `WasiCtxBuilder::build()` will fail with `ENOTCAPABLE`.
    pub fn envs(self, envs: Vec<(Vec<u8>, Vec<u8>)>) -> (builder: WasiCtxBuilder)
        ensures
            builder.env_view() == collected(pairs_view(envs@)),
            keys_unique(builder.env_view()),
            builder.stdin_view() == self.stdin_view(),
            builder.stdout_view() == self.stdout_view(),
            builder.stderr_view() == self.stderr_view(),
            builder.args_view() == self.args_view(),
            builder.preopens_view() == self.preopens_view(),
    {
        proof {
            use_type_invariant(&self);
        }
        let mut env: Vec<(Vec<u8>, Vec<u8>)> = Vec::new();
        let mut i: usize = 0;
        proof {
            assert(pairs_view(envs@).take(0) =~= Seq::<(Seq<u8>, Seq<u8>)>::empty());
            assert(pairs_view(env@) =~= Seq::<(Seq<u8>, Seq<u8>)>::empty());
        }
        while i < envs.len()
            invariant
                i <= envs.len(),
                pairs_view(env@) == collected(pairs_view(envs@).take(i as int)),
                keys_unique(pairs_view(env@)),
            decreases envs.len() - i,
        {
            let k = envs[i].0.clone();
            let v = envs[i].1.clone();
            proof {
                let all = pairs_view(envs@);
                assert(all.take(i + 1).drop_last() =~= all.take(i as int));
                assert(all.take(i + 1).last() == (k@, v@));
                lemma_with_variable_keeps_unique(pairs_view(env@), k@, v@);
            }
            set_variable(&mut env, k, v);
            i += 1;
        }
        proof {
            assert(pairs_view(envs@).take(envs@.len() as int) =~= pairs_view(envs@));
        }
        WasiCtxBuilder {
            stdin: self.stdin,
            stdout: self.stdout,
            stderr: self.stderr,
            preopens: self.preopens,
            args: self.args,
            env,
        }
    }
}


/// The error of a result, if it is one.
pub open spec fn error_of<T>(res: Result<T, host::__wasi_errno_t>) -> Option<host::__wasi_errno_t> {
    match res {
        Ok(_) => None,
        Err(e) => Some(e),
    }
}

/// What a context is built from.
pub struct Blueprint {
    pub args: Seq<Seq<u8>>,
    pub env: Seq<(Seq<u8>, Seq<u8>)>,
    pub stdin: PendingFdEntry,
    pub stdout: PendingFdEntry,
    pub stderr: PendingFdEntry,
    pub preopens: Seq<(Vec<u8>, HostFile)>,
}

impl Blueprint {
    /// The first thing that stands in the way of a context, if anything
    /// does: an argument or a variable that holds a NUL (`ENOTCAPABLE`), a
    /// standard stream that cannot be made, in the order of their numbers,
    /// or a preopened directory that cannot be made, in the order in which
    /// they were added.
    pub open spec fn build_error(self, found: FoundStdio) -> Option<host::__wasi_errno_t> {
        if c_strings(self.args).is_none() {
            Some(host::__WASI_ENOTCAPABLE)
        } else if c_strings(env_pairs(self.env)).is_none() {
            Some(host::__WASI_ENOTCAPABLE)
        } else if pending_entry(self.stdin, found.stdin).is_err() {
            error_of(pending_entry(self.stdin, found.stdin))
        } else if pending_entry(self.stdout, found.stdout).is_err() {
            error_of(pending_entry(self.stdout, found.stdout))
        } else if pending_entry(self.stderr, found.stderr).is_err() {
            error_of(pending_entry(self.stderr, found.stderr))
        } else {
            preopen_error(self.preopens, self.preopens.len() as int)
        }
    }

    /// `ctx` is the context that the blueprint describes: the arguments and
    /// the variables with their NUL; the standard streams under the numbers
    /// 0, 1 and 2; the preopened directories under the numbers from 3 on, in
    /// the order in which they were added; and no other descriptor.
    pub open spec fn describes(self, ctx: WasiCtx, found: FoundStdio) -> bool {
        &&& Some(strings_view(ctx.args()@)) == c_strings(self.args)
        &&& Some(strings_view(ctx.env()@)) == c_strings(env_pairs(self.env))
        &&& forall|fd: host::__wasi_fd_t|
            ctx.fds().contains_key(fd) <==> fd < FIRST_FREE_FD + self.preopens.len()
        &&& Ok::<_, host::__wasi_errno_t>(ctx.fds()[0]@) == pending_entry(self.stdin, found.stdin)
        &&& Ok::<_, host::__wasi_errno_t>(ctx.fds()[1]@) == pending_entry(
            self.stdout,
            found.stdout,
        )
        &&& Ok::<_, host::__wasi_errno_t>(ctx.fds()[2]@) == pending_entry(
            self.stderr,
            found.stderr,
        )
        &&& forall|i: int|
            0 <= i < self.preopens.len() ==> Ok::<_, host::__wasi_errno_t>(
                (#[trigger] ctx.fds()[(FIRST_FREE_FD + i) as host::__wasi_fd_t])@,
            ) == preopen_entry(self.preopens[i].1, self.preopens[i].0@)
    }

    /// What `build` answers for the blueprint.
    pub open spec fn builds(self, res: Result<WasiCtx, host::__wasi_errno_t>, found: FoundStdio) -> bool {
        match self.build_error(found) {
            Some(e) => res matches Err(x) && x == e,
            None => res matches Ok(ctx) && self.describes(ctx, found),
        }
    }
}

impl WasiCtxBuilder {
    /// What the builder holds.
    pub open spec fn blueprint(&self) -> Blueprint {
        Blueprint {
            args: self.args_view(),
            env: self.env_view(),
            stdin: self.stdin_view(),
            stdout: self.stdout_view(),
            stderr: self.stderr_view(),
            preopens: self.preopens_view(),
        }
    }

    /// Build a `WasiCtx`, consuming this `WasiCtxBuilder`. The arguments and
    /// the variables get their NUL; the standard streams take the numbers
    /// 0, 1 and 2; the preopened directories take the numbers from 3 on, in
    /// the order in which they were added. `found` is what the host found
    /// for the standard streams that are not made of a file.
    pub fn build(self, found: FoundStdio) -> (res: Result<WasiCtx, host::__wasi_errno_t>)
        ensures
            self.blueprint().builds(res, found),
    {
        proof {
            use_type_invariant(&self);
        }
        // process arguments and environment variables into NUL-terminated strings, failing
        // quickly if they contain any NUL bytes
        let args = match to_c_strings(&self.args) {
            Ok(args) => args,
            Err(e) => {
                return Err(e);
            },
        };
        let pairs = to_env_pairs(&self.env);
        let env = match to_c_strings(&pairs) {
            Ok(env) => env,
            Err(e) => {
                return Err(e);
            },
        };
        let mut ctx = WasiCtx::empty(args, env);
        // populate the non-preopen fds
        let stdin = match make_pending(self.stdin, found.stdin) {
            Ok(fe) => fe,
            Err(e) => {
                return Err(e);
            },
        };
        let stdout = match make_pending(self.stdout, found.stdout) {
            Ok(fe) => fe,
            Err(e) => {
                return Err(e);
            },
        };
        let stderr = match make_pending(self.stderr, found.stderr) {
            Ok(fe) => fe,
            Err(e) => {
                return Err(e);
            },
        };
        ctx.insert_fd_entry_at(0, stdin);
        ctx.insert_fd_entry_at(1, stdout);
        ctx.insert_fd_entry_at(2, stderr);
        // then add the preopen fds. startup code in the guest starts looking at fd 3 for preopens,
        // so we start from there. this variable is initially 2, though, because the loop
        // immediately does the increment and check for overflow
        let mut preopen_fd: host::__wasi_fd_t = 2;
        let mut i: usize = 0;
        while i < self.preopens.len()
            invariant
                i <= self.preopens.len(),
                preopen_fd == 2 + i,
                preopen_error(self.preopens@, i as int).is_none(),
                ctx.args() == args,
                ctx.env() == env,
                c_strings(strings_view(self.args@)) == Some(strings_view(args@)),
                c_strings(env_pairs(pairs_view(self.env@))) == Some(strings_view(env@)),
                pending_entry(self.stdin, found.stdin) == Ok::<_, host::__wasi_errno_t>(stdin@),
                pending_entry(self.stdout, found.stdout) == Ok::<_, host::__wasi_errno_t>(
                    stdout@,
                ),
                pending_entry(self.stderr, found.stderr) == Ok::<_, host::__wasi_errno_t>(
                    stderr@,
                ),
                forall|fd: host::__wasi_fd_t|
                    ctx.fds().contains_key(fd) <==> fd < FIRST_FREE_FD + i,
                ctx.fds()[0] == stdin,
                ctx.fds()[1] == stdout,
                ctx.fds()[2] == stderr,
                forall|j: int|
                    0 <= j < i ==> Ok::<_, host::__wasi_errno_t>(
                        (#[trigger] ctx.fds()[(FIRST_FREE_FD + j) as host::__wasi_fd_t])@,
                    ) == preopen_entry(self.preopens@[j].1, self.preopens@[j].0@),
            decreases self.preopens.len() - i,
        {
            proof {
                lemma_preopen_error_stays(self.preopens@, i + 1);
            }
            // we do the increment at the beginning so that we don't overflow unnecessarily if we
            // have exactly the maximum number of file descriptors
            preopen_fd = match preopen_fd.checked_add(1) {
                Some(fd) => fd,
                None => {
                    return Err(host::__WASI_ENFILE);
                },
            };
            let dir = self.preopens[i].1;
            match dir.kind {
                HostFileKind::Directory => {},
                _ => {
                    return Err(host::__WASI_EBADF);
                },
            }
            // no descriptor but the standard streams can be set, so the number is free; this
            // keeps the numbers apart if that should change
            while ctx.contains_fd_entry(preopen_fd)
                invariant
                    !ctx.fds().contains_key(preopen_fd),
                    preopen_fd == FIRST_FREE_FD + i,
                decreases 0nat,
            {
                preopen_fd = match preopen_fd.checked_add(1) {
                    Some(fd) => fd,
                    None => {
                        return Err(host::__WASI_ENFILE);
                    },
                };
            }
            let mut fe = match FdEntry::from(dir) {
                Ok(fe) => fe,
                Err(e) => {
                    return Err(e);
                },
            };
            fe.preopen_path = Some(self.preopens[i].0.clone());
            ctx.insert_fd_entry_at(preopen_fd, fe);
            i += 1;
        }
        Ok(ctx)
    }
}

/// Preopened directories that cannot be made, for the first `n` of them,
/// cannot be made for all of them, with the same error.
pub proof fn lemma_preopen_error_stays(preopens: Seq<(Vec<u8>, HostFile)>, n: int)
    requires
        0 <= n <= preopens.len(),
    ensures
        preopen_error(preopens, n).is_some() ==> preopen_error(preopens, preopens.len() as int)
            == preopen_error(preopens, n),
    decreases preopens.len() - n,
{
    if n < preopens.len() {
        lemma_preopen_error_stays(preopens, n + 1);
    }
}


impl WasiCtx {
    /// Make a new `WasiCtx` with some default settings.
    ///
    /// - File descriptors 0, 1, and 2 inherit stdin, stdout, and stderr from the host process.
    ///
    /// - Environment variables are those of `env`, which the host process hands in.
    ///
    /// To override these behaviors, use `WasiCtxBuilder`.
    pub fn new(args: Vec<Vec<u8>>, env: Vec<(Vec<u8>, Vec<u8>)>, found: FoundStdio) -> (res:
        Result<WasiCtx, host::__wasi_errno_t>)
        ensures
            (Blueprint {
                args: strings_view(args@),
                env: collected(pairs_view(env@)),
                stdin: PendingFdEntry::Stdin,
                stdout: PendingFdEntry::Stdout,
                stderr: PendingFdEntry::Stderr,
                preopens: Seq::empty(),
            }).builds(res, found),
    {
        let builder = WasiCtxBuilder::new().args(args).inherit_stdio().envs(env);
        proof {
            assert(builder.preopens_view() =~= Seq::<(Vec<u8>, HostFile)>::empty());
        }
        builder.build(found)
    }
}

} // verus!
