//! Sandboxed path resolution.
//!
//! A guest path is walked below a directory handle, one component at a time.
//! The walk never leaves the directory it started in: `..` cannot climb above
//! the start, an absolute path is refused, and every directory is entered by
//! a single normal component without following a link, so that each link is
//! seen, expanded here and counted.
//!
//! The walk itself touches no file system. It is a state machine: each step
//! ends in a request to the host (`PathStep::OpenDir`, `PathStep::ReadLink`)
//! or in an outcome (`PathStep::Resolved`, `PathStep::Failed`), and the
//! answer to a request produces the next step.

use crate::ctx::{lookup, WasiCtx};
use crate::fdentry::{FdEntry, OsHandle};
use crate::host;
use vstd::multiset::Multiset;
use vstd::prelude::*;
use vstd::seq_lib::{lemma_multiset_commutative, to_multiset_build};

verus! {

pub const SLASH: u8 = 0x2f;

pub const DOT: u8 = 0x2e;

pub const COLON: u8 = 0x3a;

/// How many symbolic links one resolution may expand.
pub const MAX_SYMLINK_EXPANSIONS: usize = 128;

/// The first index at or after `from` that holds a `/`, or the length.
pub open spec fn component_end(path: Seq<u8>, from: int) -> int
    decreases path.len() - from,
{
    if from >= path.len() || path[from] == SLASH {
        from
    } else {
        component_end(path, from + 1)
    }
}

/// The first index at or after `from` that holds no `/`, or the length.
pub open spec fn slashes_end(path: Seq<u8>, from: int) -> int
    decreases path.len() - from,
{
    if from >= path.len() || path[from] != SLASH {
        from
    } else {
        slashes_end(path, from + 1)
    }
}

/// The first component of a path: what stands before its first `/`.
pub open spec fn head_of(path: Seq<u8>) -> Seq<u8> {
    path.subrange(0, component_end(path, 0))
}

/// What follows the first component and the slashes behind it.
pub open spec fn tail_of(path: Seq<u8>) -> Seq<u8> {
    path.subrange(slashes_end(path, component_end(path, 0)), path.len() as int)
}

pub open spec fn ends_with_slash(path: Seq<u8>) -> bool {
    path.len() > 0 && path.last() == SLASH
}

pub open spec fn is_dot(name: Seq<u8>) -> bool {
    name.len() == 1 && name[0] == DOT
}

pub open spec fn is_dot_dot(name: Seq<u8>) -> bool {
    name.len() == 2 && name[0] == DOT && name[1] == DOT
}

pub open spec fn is_ascii_letter(b: u8) -> bool {
    (0x41 <= b && b <= 0x5a) || (0x61 <= b && b <= 0x7a)
}

/// A component that names a drive, as in `c:`.
pub open spec fn is_drive_prefix(name: Seq<u8>) -> bool {
    name.len() >= 2 && is_ascii_letter(name[0]) && name[1] == COLON
}

/// `name` without one trailing `/`, if it has one.
pub open spec fn without_slash(name: Seq<u8>) -> Seq<u8> {
    if ends_with_slash(name) {
        name.drop_last()
    } else {
        name
    }
}

/// A single component that names an entry of the directory it is looked up
/// in: not empty, not `.`, not `..`, without a `/` inside; one `/` may follow.
pub open spec fn is_normal_name(name: Seq<u8>) -> bool {
    let bare = without_slash(name);
    &&& bare.len() > 0
    &&& !is_dot(bare)
    &&& !is_dot_dot(bare)
    &&& forall|i: int| 0 <= i < bare.len() ==> bare[i] != SLASH
}

/// The name `.`.
pub open spec fn dot() -> Seq<u8> {
    seq![DOT]
}

/// `name` with a `/` behind it where `slash` holds.
pub open spec fn with_slash(name: Seq<u8>, slash: bool) -> Seq<u8> {
    if slash {
        name.push(SLASH)
    } else {
        name
    }
}

/// The bytes that a stack of paths still holds, plus one for each path.
pub open spec fn stack_weight(paths: Seq<Seq<u8>>) -> nat
    decreases paths.len(),
{
    if paths.len() == 0 {
        0
    } else {
        stack_weight(paths.drop_last()) + paths.last().len() + 1
    }
}

/// The state of a walk as a mathematical value.
pub struct WalkerView {
    /// The directories entered so far; the first is the start of the walk.
    pub dirs: Seq<OsHandle>,
    /// The name under which each directory but the first was entered from the
    /// one before it.
    pub trail: Seq<Seq<u8>>,
    /// The paths still to be walked; the last is walked first.
    pub paths: Seq<Seq<u8>>,
    /// How many links have been expanded.
    pub expansions: nat,
    /// Whether a link in the last component is followed.
    pub follow: bool,
    /// Whether the caller needs the last component itself, as for a file that
    /// it is about to create.
    pub needs_final_component: bool,
    /// The directories left again, which the host has to close.
    pub released: Seq<OsHandle>,
}

impl WalkerView {
    /// There is a start directory, every directory above it was entered by a
    /// normal name, and the link budget is kept.
    pub open spec fn wf(self) -> bool {
        &&& self.dirs.len() >= 1
        &&& self.trail.len() + 1 == self.dirs.len()
        &&& forall|i: int| 0 <= i < self.trail.len() ==> is_normal_name(#[trigger] self.trail[i])
        &&& self.expansions <= MAX_SYMLINK_EXPANSIONS
    }

    /// Every handle the walk holds.
    pub open spec fn all_handles(self) -> Seq<OsHandle> {
        self.released + self.dirs
    }

    /// The handles to close when the walk ends in its current directory.
    pub open spec fn handles_but_current(self) -> Seq<OsHandle> {
        self.released + self.dirs.drop_last()
    }

    pub open spec fn current(self) -> OsHandle {
        self.dirs.last()
    }

    pub open spec fn with_paths(self, paths: Seq<Seq<u8>>) -> WalkerView {
        WalkerView { paths, ..self }
    }

    /// The walk after leaving its current directory for the one before it.
    pub open spec fn ascended(self) -> WalkerView {
        WalkerView {
            dirs: self.dirs.drop_last(),
            trail: self.trail.drop_last(),
            released: self.released.push(self.dirs.last()),
            ..self
        }
    }

    /// The walk after entering `handle` under `name`.
    pub open spec fn descended(self, name: Seq<u8>, handle: OsHandle) -> WalkerView {
        WalkerView { dirs: self.dirs.push(handle), trail: self.trail.push(name), ..self }
    }

    /// The walk after expanding one more link, whose target is walked next.
    pub open spec fn expanded(self, target: Seq<u8>) -> WalkerView {
        WalkerView { paths: self.paths.push(target), expansions: self.expansions + 1, ..self }
    }
}

/// Where a step of the walk ends.
pub enum StepView {
    /// The host is to open `name` below the current directory of `walker`, as
    /// a directory and without following a link.
    OpenDir { walker: WalkerView, name: Seq<u8> },
    /// The host is to read the link `name` below the current directory of
    /// `walker`. `last` says that `name` is the last component of the path.
    ReadLink { walker: WalkerView, name: Seq<u8>, last: bool },
    /// The path names `path` in the directory `dir`, which lies `below` the
    /// start of the walk; the host is to close `close`.
    Resolved { dir: OsHandle, path: Seq<u8>, below: Seq<Seq<u8>>, close: Seq<OsHandle> },
    /// The walk failed; the host is to close `close`.
    Failed { errno: host::__wasi_errno_t, close: Seq<OsHandle> },
}

/// The paths left when the path on top is replaced by its tail, if it has one.
pub open spec fn paths_after_head(paths: Seq<Seq<u8>>) -> Seq<Seq<u8>>
    recommends
        paths.len() > 0,
{
    let tail = tail_of(paths.last());
    if tail.len() > 0 {
        paths.drop_last().push(tail)
    } else {
        paths.drop_last()
    }
}

/// The walk from `w` up to its next request to the host, or to its end.
pub open spec fn walk(w: WalkerView) -> StepView
    decreases stack_weight(w.paths),
    via walk_decreases
{
    if w.paths.len() == 0 {
        StepView::Resolved {
            dir: w.current(),
            path: dot(),
            below: w.trail,
            close: w.handles_but_current(),
        }
    } else {
        let cur = w.paths.last();
        let head = head_of(cur);
        let rest = paths_after_head(w.paths);
        if cur.len() == 0 {
            StepView::Failed { errno: host::__WASI_ENOENT, close: w.all_handles() }
        } else if cur[0] == SLASH || is_drive_prefix(head) {
            StepView::Failed { errno: host::__WASI_ENOTCAPABLE, close: w.all_handles() }
        } else if is_dot(head) {
            walk(w.with_paths(rest))
        } else if is_dot_dot(head) {
            if w.dirs.len() == 1 {
                StepView::Failed { errno: host::__WASI_ENOTCAPABLE, close: w.all_handles() }
            } else {
                walk(w.with_paths(rest).ascended())
            }
        } else {
            let name = with_slash(head, ends_with_slash(cur));
            if rest.len() > 0 || (ends_with_slash(cur) && !w.needs_final_component) {
                StepView::OpenDir { walker: w.with_paths(rest), name }
            } else if ends_with_slash(cur) || w.follow {
                StepView::ReadLink { walker: w.with_paths(rest), name, last: true }
            } else {
                StepView::Resolved {
                    dir: w.current(),
                    path: name,
                    below: w.trail,
                    close: w.handles_but_current(),
                }
            }
        }
    }
}

#[via_fn]
proof fn walk_decreases(w: WalkerView) {
    if w.paths.len() > 0 {
        let cur = w.paths.last();
        if cur.len() > 0 {
            lemma_after_head_lighter(w.paths);
        }
    }
}

pub proof fn lemma_component_end_bounds(path: Seq<u8>, from: int)
    requires
        0 <= from <= path.len(),
    ensures
        from <= component_end(path, from) <= path.len(),
        forall|i: int| from <= i < component_end(path, from) ==> path[i] != SLASH,
        component_end(path, from) < path.len() ==> path[component_end(path, from)] == SLASH,
    decreases path.len() - from,
{
    if from < path.len() && path[from] != SLASH {
        lemma_component_end_bounds(path, from + 1);
    }
}

pub proof fn lemma_slashes_end_bounds(path: Seq<u8>, from: int)
    requires
        0 <= from <= path.len(),
    ensures
        from <= slashes_end(path, from) <= path.len(),
        forall|i: int| from <= i < slashes_end(path, from) ==> path[i] == SLASH,
        slashes_end(path, from) < path.len() ==> path[slashes_end(path, from)] != SLASH,
    decreases path.len() - from,
{
    if from < path.len() && path[from] == SLASH {
        lemma_slashes_end_bounds(path, from + 1);
    }
}

/// Taking the head off a path that is not empty leaves a lighter stack.
pub proof fn lemma_after_head_lighter(paths: Seq<Seq<u8>>)
    requires
        paths.len() > 0,
        paths.last().len() > 0,
    ensures
        stack_weight(paths_after_head(paths)) < stack_weight(paths),
{
    let cur = paths.last();
    lemma_component_end_bounds(cur, 0);
    lemma_slashes_end_bounds(cur, component_end(cur, 0));
    let tail = tail_of(cur);
    if tail.len() > 0 {
        let pushed = paths.drop_last().push(tail);
        assert(pushed.drop_last() =~= paths.drop_last());
        assert(pushed.last() == tail);
        // The tail is shorter than the path: a head that is empty is followed
        // by at least one slash, since the path is not empty.
        if component_end(cur, 0) == 0 {
            assert(cur[0] == SLASH);
            assert(slashes_end(cur, 0) >= 1);
        }
        assert(tail.len() < cur.len());
    }
}


impl StepView {
    /// A request names a normal component below a well-formed walk; a
    /// resolved path is `.` or a normal component, in a directory that lies
    /// below the start by normal components only.
    pub open spec fn wf(self) -> bool {
        match self {
            StepView::OpenDir { walker, name } => walker.wf() && is_normal_name(name),
            StepView::ReadLink { walker, name, last } => walker.wf() && is_normal_name(name),
            StepView::Resolved { dir, path, below, close } => {
                &&& path == dot() || is_normal_name(path)
                &&& forall|i: int| 0 <= i < below.len() ==> is_normal_name(#[trigger] below[i])
            },
            StepView::Failed { errno, close } => true,
        }
    }
}

/// The answer to a directory that could not be opened: where the error may
/// mean that the name is a link, the link is read; else the walk fails.
pub open spec fn after_open_failed(
    w: WalkerView,
    name: Seq<u8>,
    errno: host::__wasi_errno_t,
) -> StepView {
    if errno == host::__WASI_ELOOP || errno == host::__WASI_EMLINK || errno
        == host::__WASI_ENOTDIR {
        StepView::ReadLink { walker: w, name, last: false }
    } else {
        StepView::Failed { errno, close: w.all_handles() }
    }
}

/// The answer to a link that was read: its target is walked next, with the
/// slash of the name kept, unless the link budget is spent.
pub open spec fn after_link(w: WalkerView, name: Seq<u8>, target: Seq<u8>) -> StepView {
    if w.expansions >= MAX_SYMLINK_EXPANSIONS {
        StepView::Failed { errno: host::__WASI_ELOOP, close: w.all_handles() }
    } else {
        walk(w.expanded(with_slash(target, ends_with_slash(name))))
    }
}

/// The answer to a link that could not be read: a last component that is no
/// link, or does not exist, is the result; every other error fails the walk.
pub open spec fn after_readlink_failed(
    w: WalkerView,
    name: Seq<u8>,
    last: bool,
    errno: host::__wasi_errno_t,
) -> StepView {
    if last && (errno == host::__WASI_EINVAL || errno == host::__WASI_ENOENT) {
        StepView::Resolved {
            dir: w.current(),
            path: name,
            below: w.trail,
            close: w.handles_but_current(),
        }
    } else {
        StepView::Failed { errno, close: w.all_handles() }
    }
}

/// The views of the paths of a stack.
pub open spec fn paths_view(paths: Seq<Vec<u8>>) -> Seq<Seq<u8>> {
    paths.map_values(|p: Vec<u8>| p@)
}

fn find_component_end(path: &Vec<u8>, from: usize) -> (end: usize)
    requires
        from <= path.len(),
    ensures
        end == component_end(path@, from as int),
        from <= end <= path.len(),
{
    let mut i: usize = from;
    while i < path.len() && path[i] != SLASH
        invariant
            from <= i <= path.len(),
            component_end(path@, i as int) == component_end(path@, from as int),
        decreases path.len() - i,
    {
        i += 1;
    }
    i
}

fn find_slashes_end(path: &Vec<u8>, from: usize) -> (end: usize)
    requires
        from <= path.len(),
    ensures
        end == slashes_end(path@, from as int),
        from <= end <= path.len(),
{
    let mut i: usize = from;
    while i < path.len() && path[i] == SLASH
        invariant
            from <= i <= path.len(),
            slashes_end(path@, i as int) == slashes_end(path@, from as int),
        decreases path.len() - i,
    {
        i += 1;
    }
    i
}

fn copy_range(path: &Vec<u8>, from: usize, to: usize) -> (out: Vec<u8>)
    requires
        from <= to <= path.len(),
    ensures
        out@ == path@.subrange(from as int, to as int),
{
    let mut out: Vec<u8> = Vec::new();
    let mut i: usize = from;
    while i < to
        invariant
            from <= i <= to <= path.len(),
            out@ == path@.subrange(from as int, i as int),
        decreases to - i,
    {
        out.push(path[i]);
        i += 1;
    }
    out
}

fn is_letter(b: u8) -> (res: bool)
    ensures
        res == is_ascii_letter(b),
{
    (0x41 <= b && b <= 0x5a) || (0x61 <= b && b <= 0x7a)
}

/// A path that was resolved.
pub struct Resolved {
    /// The directory to work in. The caller owns it now.
    pub dir: OsHandle,
    /// The name to use in `dir`: one component, or `.`.
    pub path: Vec<u8>,
    /// The handles that the host has to close.
    pub close: Vec<OsHandle>,
    /// The names by which `dir` was reached from the start of the walk.
    pub below: Ghost<Seq<Seq<u8>>>,
}

/// A walk that failed.
pub struct PathFailure {
    pub errno: host::__wasi_errno_t,
    /// The handles that the host has to close.
    pub close: Vec<OsHandle>,
}

/// A walk between two requests.
pub struct PathWalker {
    dir_stack: Vec<OsHandle>,
    path_stack: Vec<Vec<u8>>,
    symlink_expansions: usize,
    follow: bool,
    needs_final_component: bool,
    released: Vec<OsHandle>,
    trail: Ghost<Seq<Seq<u8>>>,
}

/// A walk that waits for the host to open a directory.
pub struct PendingOpen {
    walker: PathWalker,
    name: Vec<u8>,
}

/// A walk that waits for the host to read a link.
pub struct PendingReadLink {
    walker: PathWalker,
    name: Vec<u8>,
    last: bool,
}

/// Where a step of the walk ends.
pub enum PathStep {
    OpenDir(PendingOpen),
    ReadLink(PendingReadLink),
    Resolved(Resolved),
    Failed(PathFailure),
}

impl View for PathWalker {
    type V = WalkerView;

    closed spec fn view(&self) -> WalkerView {
        WalkerView {
            dirs: self.dir_stack@,
            trail: self.trail@,
            paths: paths_view(self.path_stack@),
            expansions: self.symlink_expansions as nat,
            follow: self.follow,
            needs_final_component: self.needs_final_component,
            released: self.released@,
        }
    }
}

impl View for PathStep {
    type V = StepView;

    open spec fn view(&self) -> StepView {
        match self {
            PathStep::OpenDir(p) => StepView::OpenDir { walker: p.walker_view(), name: p.name_view() },
            PathStep::ReadLink(p) => StepView::ReadLink {
                walker: p.walker_view(),
                name: p.name_view(),
                last: p.is_last(),
            },
            PathStep::Resolved(r) => StepView::Resolved {
                dir: r.dir,
                path: r.path@,
                below: r.below@,
                close: r.close@,
            },
            PathStep::Failed(f) => StepView::Failed { errno: f.errno, close: f.close@ },
        }
    }
}

impl PathWalker {
    #[verifier::type_invariant]
    spec fn inv(self) -> bool {
        self@.wf()
    }

    /// A walk of `path` that starts in `base`, which the walk owns from now.
    /// `dirflags` says whether a link in the last component is followed.
    pub fn start(
        base: OsHandle,
        dirflags: host::__wasi_lookupflags_t,
        path: Vec<u8>,
        needs_final_component: bool,
    ) -> (step: PathStep)
        ensures
            step@ == walk(initial_walk(base, dirflags, path@, needs_final_component)),
            step@.wf(),
    {
        let mut dir_stack: Vec<OsHandle> = Vec::new();
        dir_stack.push(base);
        let mut path_stack: Vec<Vec<u8>> = Vec::new();
        path_stack.push(path);
        let follow = dirflags & host::__WASI_LOOKUP_SYMLINK_FOLLOW != 0;
        let walker = PathWalker {
            dir_stack,
            path_stack,
            symlink_expansions: 0,
            follow,
            needs_final_component,
            released: Vec::new(),
            trail: Ghost(Seq::empty()),
        };
        proof {
            assert(walker@.paths =~= seq![path@]);
            assert(walker@.dirs =~= seq![base]);
            assert(walker@.released =~= Seq::<OsHandle>::empty());
        }
        walker.walk()
    }

    /// Walks up to the next request to the host, or to the end.
    fn walk(self) -> (step: PathStep)
        ensures
            step@ == walk(self@),
            step@.wf(),
    {
        proof {
            use_type_invariant(&self);
        }
        let ghost start = self@;
        let PathWalker {
            mut dir_stack,
            mut path_stack,
            symlink_expansions,
            follow,
            needs_final_component,
            mut released,
            trail,
        } = self;
        let ghost mut trail = trail@;
        loop
            invariant
                start == self@,
                ({
                    let w = WalkerView {
                        dirs: dir_stack@,
                        trail,
                        paths: paths_view(path_stack@),
                        expansions: symlink_expansions as nat,
                        follow,
                        needs_final_component,
                        released: released@,
                    };
                    w.wf() && walk(w) == walk(start)
                }),
            decreases stack_weight(paths_view(path_stack@)),
        {
            let ghost before = WalkerView {
                dirs: dir_stack@,
                trail,
                paths: paths_view(path_stack@),
                expansions: symlink_expansions as nat,
                follow,
                needs_final_component,
                released: released@,
            };
            let cur = match path_stack.pop() {
                Some(cur) => cur,
                None => {
                    let mut path: Vec<u8> = Vec::new();
                    path.push(DOT);
                    proof {
                        assert(path@ =~= dot());
                        assert(before.paths.len() == 0);
                    }
                    let walker = PathWalker {
                        dir_stack,
                        path_stack,
                        symlink_expansions,
                        follow,
                        needs_final_component,
                        released,
                        trail: Ghost(trail),
                    };
                    return PathStep::Resolved(walker.resolve(path));
                },
            };
            proof {
                assert(paths_view(path_stack@) =~= before.paths.drop_last());
                assert(before.paths.last() == cur@);
            }
            if cur.len() == 0 {
                let walker = PathWalker {
                    dir_stack,
                    path_stack,
                    symlink_expansions,
                    follow,
                    needs_final_component,
                    released,
                    trail: Ghost(trail),
                };
                return PathStep::Failed(walker.fail(host::__WASI_ENOENT));
            }
            let ends: bool = cur[cur.len() - 1] == SLASH;
            let head_end: usize = find_component_end(&cur, 0);
            let drive: bool = head_end >= 2 && is_letter(cur[0]) && cur[1] == COLON;
            proof {
                lemma_component_end_bounds(cur@, 0);
            }
            if cur[0] == SLASH || drive {
                let walker = PathWalker {
                    dir_stack,
                    path_stack,
                    symlink_expansions,
                    follow,
                    needs_final_component,
                    released,
                    trail: Ghost(trail),
                };
                return PathStep::Failed(walker.fail(host::__WASI_ENOTCAPABLE));
            }
            let tail_start: usize = find_slashes_end(&cur, head_end);
            if tail_start < cur.len() {
                let tail = copy_range(&cur, tail_start, cur.len());
                path_stack.push(tail);
                proof {
                    assert(paths_view(path_stack@) =~= before.paths.drop_last().push(
                        tail_of(cur@),
                    ));
                }
            }
            let ghost rest = paths_after_head(before.paths);
            proof {
                assert(paths_view(path_stack@) =~= rest);
                lemma_after_head_lighter(before.paths);
            }
            let mut name = copy_range(&cur, 0, head_end);
            assert(name@ == head_of(cur@));
            if head_end == 1 && cur[0] == DOT {
                assert(before.with_paths(rest) == WalkerView {
                    dirs: dir_stack@,
                    trail,
                    paths: paths_view(path_stack@),
                    expansions: symlink_expansions as nat,
                    follow,
                    needs_final_component,
                    released: released@,
                });
                continue ;
            }
            if head_end == 2 && cur[0] == DOT && cur[1] == DOT {
                if dir_stack.len() == 1 {
                    let walker = PathWalker {
                        dir_stack,
                        path_stack,
                        symlink_expansions,
                        follow,
                        needs_final_component,
                        released,
                        trail: Ghost(trail),
                    };
                    return PathStep::Failed(walker.fail(host::__WASI_ENOTCAPABLE));
                }
                let left = dir_stack.pop().unwrap();
                released.push(left);
                proof {
                    trail = trail.drop_last();
                    assert(before.with_paths(rest).ascended() == WalkerView {
                        dirs: dir_stack@,
                        trail,
                        paths: paths_view(path_stack@),
                        expansions: symlink_expansions as nat,
                        follow,
                        needs_final_component,
                        released: released@,
                    });
                }
                continue ;
            }
            if ends {
                name.push(SLASH);
            }
            proof {
                assert(name@ == with_slash(head_of(cur@), ends_with_slash(cur@)));
                lemma_head_is_normal(cur@);
            }
            let more: bool = path_stack.len() > 0;
            let walker = PathWalker {
                dir_stack,
                path_stack,
                symlink_expansions,
                follow,
                needs_final_component,
                released,
                trail: Ghost(trail),
            };
            assert(walker@ == before.with_paths(rest));
            if more || (ends && !needs_final_component) {
                return PathStep::OpenDir(PendingOpen { walker, name });
            } else if ends || follow {
                return PathStep::ReadLink(PendingReadLink { walker, name, last: true });
            } else {
                return PathStep::Resolved(walker.resolve(name));
            }
        }
    }

    /// Ends the walk in its current directory, with `path` as the name.
    fn resolve(self, path: Vec<u8>) -> (res: Resolved)
        ensures
            res.dir == self@.current(),
            res.path == path,
            res.below@ == self@.trail,
            res.close@ == self@.handles_but_current(),
    {
        proof {
            use_type_invariant(&self);
        }
        let PathWalker {
            mut dir_stack,
            path_stack,
            symlink_expansions,
            follow,
            needs_final_component,
            mut released,
            trail,
        } = self;
        let dir = dir_stack.pop().unwrap();
        released.append(&mut dir_stack);
        Resolved { dir, path, close: released, below: trail }
    }

    /// Ends the walk with an error.
    fn fail(self, errno: host::__wasi_errno_t) -> (res: PathFailure)
        ensures
            res.errno == errno,
            res.close@ == self@.all_handles(),
    {
        let PathWalker {
            mut dir_stack,
            path_stack,
            symlink_expansions,
            follow,
            needs_final_component,
            mut released,
            trail,
        } = self;
        released.append(&mut dir_stack);
        PathFailure { errno, close: released }
    }
}

impl PendingOpen {
    #[verifier::type_invariant]
    spec fn inv(self) -> bool {
        self.walker@.wf() && is_normal_name(self.name@)
    }

    /// The walk that waits.
    pub closed spec fn walker_view(&self) -> WalkerView {
        self.walker@
    }

    /// The name to open.
    pub closed spec fn name_view(&self) -> Seq<u8> {
        self.name@
    }

    /// The directory below which the host is to open `name`.
    pub fn dir(&self) -> (dir: OsHandle)
        ensures
            dir == self.walker_view().current(),
    {
        proof {
            use_type_invariant(self);
        }
        self.walker.dir_stack[self.walker.dir_stack.len() - 1]
    }

    /// The name that the host is to open, as a directory and without
    /// following a link.
    pub fn name(&self) -> (name: &Vec<u8>)
        ensures
            name@ == self.name_view(),
    {
        &self.name
    }

    /// The host opened the directory: the walk goes on below it and owns
    /// `handle` from now.
    pub fn opened(self, handle: OsHandle) -> (step: PathStep)
        ensures
            step@ == walk(self.walker_view().descended(self.name_view(), handle)),
            step@.wf(),
    {
        proof {
            use_type_invariant(&self);
        }
        let PendingOpen { walker, name } = self;
        let PathWalker {
            mut dir_stack,
            path_stack,
            symlink_expansions,
            follow,
            needs_final_component,
            released,
            trail,
        } = walker;
        dir_stack.push(handle);
        let next = PathWalker {
            dir_stack,
            path_stack,
            symlink_expansions,
            follow,
            needs_final_component,
            released,
            trail: Ghost(trail@.push(name@)),
        };
        next.walk()
    }

    /// The host could not open the directory, for the reason `errno`.
    pub fn failed(self, errno: host::__wasi_errno_t) -> (step: PathStep)
        ensures
            step@ == after_open_failed(self.walker_view(), self.name_view(), errno),
            step@.wf(),
    {
        proof {
            use_type_invariant(&self);
        }
        let PendingOpen { walker, name } = self;
        if errno == host::__WASI_ELOOP || errno == host::__WASI_EMLINK || errno
            == host::__WASI_ENOTDIR {
            PathStep::ReadLink(PendingReadLink { walker, name, last: false })
        } else {
            PathStep::Failed(walker.fail(errno))
        }
    }
}

impl PendingReadLink {
    #[verifier::type_invariant]
    spec fn inv(self) -> bool {
        self.walker@.wf() && is_normal_name(self.name@)
    }

    /// The walk that waits.
    pub closed spec fn walker_view(&self) -> WalkerView {
        self.walker@
    }

    /// The name of the link to read.
    pub closed spec fn name_view(&self) -> Seq<u8> {
        self.name@
    }

    /// Whether the name is the last component of the path.
    pub closed spec fn is_last(&self) -> bool {
        self.last
    }

    /// The directory below which the host is to read the link.
    pub fn dir(&self) -> (dir: OsHandle)
        ensures
            dir == self.walker_view().current(),
    {
        proof {
            use_type_invariant(self);
        }
        self.walker.dir_stack[self.walker.dir_stack.len() - 1]
    }

    /// The name of the link that the host is to read.
    pub fn name(&self) -> (name: &Vec<u8>)
        ensures
            name@ == self.name_view(),
    {
        &self.name
    }

    /// The host read the link: its target is walked next.
    pub fn link(self, target: Vec<u8>) -> (step: PathStep)
        ensures
            step@ == after_link(self.walker_view(), self.name_view(), target@),
            step@.wf(),
    {
        proof {
            use_type_invariant(&self);
        }
        let PendingReadLink { walker, name, last } = self;
        if walker.symlink_expansions >= MAX_SYMLINK_EXPANSIONS {
            return PathStep::Failed(walker.fail(host::__WASI_ELOOP));
        }
        let ghost before = walker@;
        let PathWalker {
            dir_stack,
            mut path_stack,
            symlink_expansions,
            follow,
            needs_final_component,
            released,
            trail,
        } = walker;
        let mut target = target;
        if name.len() > 0 && name[name.len() - 1] == SLASH {
            target.push(SLASH);
        }
        path_stack.push(target);
        let next = PathWalker {
            dir_stack,
            path_stack,
            symlink_expansions: symlink_expansions + 1,
            follow,
            needs_final_component,
            released,
            trail,
        };
        proof {
            assert(next@.paths =~= before.paths.push(target@));
        }
        next.walk()
    }

    /// The host could not read the link, for the reason `errno`.
    pub fn failed(self, errno: host::__wasi_errno_t) -> (step: PathStep)
        ensures
            step@ == after_readlink_failed(
                self.walker_view(),
                self.name_view(),
                self.is_last(),
                errno,
            ),
            step@.wf(),
    {
        proof {
            use_type_invariant(&self);
        }
        let PendingReadLink { walker, name, last } = self;
        proof {
            use_type_invariant(&walker);
        }
        if last && (errno == host::__WASI_EINVAL || errno == host::__WASI_ENOENT) {
            PathStep::Resolved(walker.resolve(name))
        } else {
            PathStep::Failed(walker.fail(errno))
        }
    }
}

/// The walk before its first step.
pub open spec fn initial_walk(
    base: OsHandle,
    dirflags: host::__wasi_lookupflags_t,
    path: Seq<u8>,
    needs_final_component: bool,
) -> WalkerView {
    WalkerView {
        dirs: seq![base],
        trail: Seq::empty(),
        paths: seq![path],
        expansions: 0,
        follow: dirflags & host::__WASI_LOOKUP_SYMLINK_FOLLOW != 0,
        needs_final_component,
        released: Seq::empty(),
    }
}

/// The head of a path that starts with neither `/` nor a component `.` or
/// `..` is a normal name, with or without the slash that the path ends in.
pub proof fn lemma_head_is_normal(path: Seq<u8>)
    requires
        path.len() > 0,
        path[0] != SLASH,
        !is_dot(head_of(path)),
        !is_dot_dot(head_of(path)),
    ensures
        is_normal_name(head_of(path)),
        is_normal_name(with_slash(head_of(path), true)),
{
    lemma_component_end_bounds(path, 0);
    let head = head_of(path);
    assert(head.len() > 0);
    assert(!ends_with_slash(head));
    assert(without_slash(head) == head);
    let slashed = with_slash(head, true);
    assert(ends_with_slash(slashed));
    assert(without_slash(slashed) =~= head);
}


pub const NUL: u8 = 0;

/// Whether the path holds a NUL byte.
pub fn contains_nul(path: &Vec<u8>) -> (res: bool)
    ensures
        res == path@.contains(NUL),
{
    let mut i: usize = 0;
    while i < path.len()
        invariant
            i <= path.len(),
            forall|j: int| 0 <= j < i ==> path@[j] != NUL,
        decreases path.len() - i,
    {
        if path[i] == NUL {
            return true;
        }
        i += 1;
    }
    false
}

/// The directory handle that a resolution below `dirfd` starts from, or the
/// error that refuses the resolution before it starts: `EBADF` where `dirfd`
/// is not in the table, `ENOTCAPABLE` where it lacks `PATH_OPEN` or one of
/// the rights asked for, `EBADF` where no host handle stands behind it, and
/// `EILSEQ` where the path holds a NUL byte.
pub open spec fn resolution_start(
    fds: Map<host::__wasi_fd_t, FdEntry>,
    dirfd: host::__wasi_fd_t,
    path: Seq<u8>,
    needed_base: host::__wasi_rights_t,
    needed_inheriting: host::__wasi_rights_t,
) -> Result<OsHandle, host::__wasi_errno_t> {
    match lookup(fds, dirfd, needed_base | host::__WASI_RIGHT_PATH_OPEN, needed_inheriting) {
        Err(e) => Err(e),
        Ok(fe) => match fe.descriptor.handle() {
            None => Err(host::__WASI_EBADF),
            Some(handle) => if path.contains(NUL) {
                Err(host::__WASI_EILSEQ)
            } else {
                Ok(handle)
            },
        },
    }
}

/// A resolution that waits for the host to duplicate the handle of the
/// directory it starts in, so that the walk owns a handle of its own.
pub struct PendingClone {
    pub dir: OsHandle,
    pub dirflags: host::__wasi_lookupflags_t,
    pub path: Vec<u8>,
    pub needs_final_component: bool,
}

impl PendingClone {
    /// The host duplicated the handle: the walk starts in `base`, which it
    /// owns from now.
    pub fn cloned(self, base: OsHandle) -> (step: PathStep)
        ensures
            step@ == walk(
                initial_walk(base, self.dirflags, self.path@, self.needs_final_component),
            ),
            step@.wf(),
    {
        PathWalker::start(base, self.dirflags, self.path, self.needs_final_component)
    }
}

/// `res` is what begins the resolution of `path` below `dirfd`: the request
/// to duplicate the handle of the directory, with the arguments of the walk,
/// or the error of `resolution_start`.
pub open spec fn begins(
    res: Result<PendingClone, host::__wasi_errno_t>,
    fds: Map<host::__wasi_fd_t, FdEntry>,
    dirfd: host::__wasi_fd_t,
    dirflags: host::__wasi_lookupflags_t,
    path: Seq<u8>,
    needed_base: host::__wasi_rights_t,
    needed_inheriting: host::__wasi_rights_t,
    needs_final_component: bool,
) -> bool {
    match resolution_start(fds, dirfd, path, needed_base, needed_inheriting) {
        Ok(handle) => res matches Ok(pending) && pending.dir == handle && pending.dirflags
            == dirflags && pending.path@ == path && pending.needs_final_component
            == needs_final_component,
        Err(e) => res matches Err(x) && x == e,
    }
}

/// Begins the resolution of `path` below the directory `dirfd`, so that the
/// result cannot lie outside that directory. `dirfd` must grant `PATH_OPEN`,
/// `needed_base` and `needed_inheriting`.
pub fn path_get(
    wasi_ctx: &WasiCtx,
    dirfd: host::__wasi_fd_t,
    dirflags: host::__wasi_lookupflags_t,
    path: &Vec<u8>,
    needed_base: host::__wasi_rights_t,
    needed_inheriting: host::__wasi_rights_t,
    needs_final_component: bool,
) -> (res: Result<PendingClone, host::__wasi_errno_t>)
    ensures
        begins(
            res,
            wasi_ctx.fds(),
            dirfd,
            dirflags,
            path@,
            needed_base,
            needed_inheriting,
            needs_final_component,
        ),
{
    let dirfe = match wasi_ctx.get_fd_entry(
        dirfd,
        needed_base | host::__WASI_RIGHT_PATH_OPEN,
        needed_inheriting,
    ) {
        Ok(dirfe) => dirfe,
        Err(e) => {
            return Err(e);
        },
    };
    let dir = match dirfe.descriptor.as_file() {
        Ok(dir) => dir,
        Err(e) => {
            return Err(e);
        },
    };
    if contains_nul(path) {
        return Err(host::__WASI_EILSEQ);
    }
    Ok(PendingClone { dir, dirflags, path: path.clone(), needs_final_component })
}

/// The walk `w` ends with `errno`, whatever it has to close.
pub open spec fn fails_with(step: StepView, errno: host::__wasi_errno_t) -> bool {
    step is Failed && step->Failed_errno == errno
}

/// An absolute path is refused with `ENOTCAPABLE` before the host is asked
/// for anything.
pub proof fn lemma_absolute_path_is_refused(w: WalkerView)
    requires
        w.paths.len() > 0,
        w.paths.last().len() > 0,
        w.paths.last()[0] == SLASH,
    ensures
        fails_with(walk(w), host::__WASI_ENOTCAPABLE),
{
}

/// A `..` in the start directory of the walk is refused with `ENOTCAPABLE`:
/// the walk cannot climb above the directory it started in.
pub proof fn lemma_parent_of_start_is_refused(w: WalkerView)
    requires
        w.dirs.len() == 1,
        w.paths.len() > 0,
        is_dot_dot(head_of(w.paths.last())),
    ensures
        fails_with(walk(w), host::__WASI_ENOTCAPABLE),
{
    let cur = w.paths.last();
    lemma_component_end_bounds(cur, 0);
    assert(head_of(cur)[0] == cur[0]);
    assert(head_of(cur)[1] == cur[1]);
}

/// The walk keeps what it started with: from a well-formed walk, the next
/// request or outcome is well-formed too, the start directory is still the
/// first of the directories, and no link was expanded on the way.
pub proof fn lemma_walk_keeps_start(w: WalkerView)
    requires
        w.wf(),
    ensures
        walk(w).wf(),
        match walk(w) {
            StepView::OpenDir { walker, name } => walker.dirs[0] == w.dirs[0] && walker.expansions
                == w.expansions,
            StepView::ReadLink { walker, name, last } => walker.dirs[0] == w.dirs[0]
                && walker.expansions == w.expansions,
            StepView::Resolved { dir, path, below, close } => below.len() == 0 ==> dir
                == w.dirs[0],
            StepView::Failed { errno, close } => true,
        },
    decreases stack_weight(w.paths),
{
    if w.paths.len() > 0 {
        let cur = w.paths.last();
        let head = head_of(cur);
        let rest = paths_after_head(w.paths);
        if cur.len() > 0 && cur[0] != SLASH && !is_drive_prefix(head) {
            lemma_after_head_lighter(w.paths);
            if is_dot(head) {
                lemma_walk_keeps_start(w.with_paths(rest));
            } else if is_dot_dot(head) {
                if w.dirs.len() > 1 {
                    lemma_walk_keeps_start(w.with_paths(rest).ascended());
                }
            } else {
                lemma_head_is_normal(cur);
            }
        }
    }
}

/// One link more is expanded while fewer than `MAX_SYMLINK_EXPANSIONS` were
/// expanded before; the link after that many fails the walk with `ELOOP`.
pub proof fn lemma_link_budget(w: WalkerView, name: Seq<u8>, target: Seq<u8>)
    requires
        w.wf(),
    ensures
        w.expansions < MAX_SYMLINK_EXPANSIONS ==> after_link(w, name, target) == walk(
            w.expanded(with_slash(target, ends_with_slash(name))),
        ) && w.expanded(with_slash(target, ends_with_slash(name))).wf(),
        w.expansions == MAX_SYMLINK_EXPANSIONS ==> fails_with(
            after_link(w, name, target),
            host::__WASI_ELOOP,
        ),
{
}

/// Where each directory lies on the host, as far as a resolution is
/// concerned: the names that lead to it from the root of the host.
pub type HostPlaces = spec_fn(OsHandle) -> Seq<Seq<u8>>;

/// The names of a trail without the slashes that may follow them.
pub open spec fn bare_names(trail: Seq<Seq<u8>>) -> Seq<Seq<u8>> {
    trail.map_values(|name: Seq<u8>| without_slash(name))
}

impl WalkerView {
    /// Each directory of the walk lies where its trail says: in the
    /// directory before it, under the name it was entered by.
    pub open spec fn grounded(self, places: HostPlaces) -> bool {
        forall|i: int|
            0 <= i < self.trail.len() ==> #[trigger] places(self.dirs[i + 1]) == places(
                self.dirs[i],
            ).push(without_slash(self.trail[i]))
    }
}

impl StepView {
    /// The request or outcome is grounded in the directory that lies at
    /// `start`: a pending walk is grounded and starts there, and a resolved
    /// directory lies at `start` followed by the names in `below`.
    pub open spec fn grounded(self, places: HostPlaces, start: Seq<Seq<u8>>) -> bool {
        match self {
            StepView::OpenDir { walker, name } => walker.grounded(places) && places(walker.dirs[0])
                == start,
            StepView::ReadLink { walker, name, last } => walker.grounded(places) && places(
                walker.dirs[0],
            ) == start,
            StepView::Resolved { dir, path, below, close } => places(dir) == start + bare_names(
                below,
            ),
            StepView::Failed { errno, close } => true,
        }
    }
}

/// In a grounded walk the current directory lies at the start followed by
/// the names of the trail.
pub proof fn lemma_grounded_current(w: WalkerView, places: HostPlaces)
    requires
        w.wf(),
        w.grounded(places),
    ensures
        places(w.current()) == places(w.dirs[0]) + bare_names(w.trail),
    decreases w.trail.len(),
{
    if w.trail.len() == 0 {
        assert(bare_names(w.trail) =~= Seq::<Seq<u8>>::empty());
        assert(places(w.dirs[0]) + bare_names(w.trail) =~= places(w.dirs[0]));
    } else {
        let up = w.ascended();
        assert(up.wf());
        assert(up.grounded(places)) by {
            assert forall|i: int| 0 <= i < up.trail.len() implies #[trigger] places(
                up.dirs[i + 1],
            ) == places(up.dirs[i]).push(without_slash(up.trail[i])) by {
                assert(up.dirs[i + 1] == w.dirs[i + 1]);
                assert(up.dirs[i] == w.dirs[i]);
                assert(up.trail[i] == w.trail[i]);
            }
        }
        lemma_grounded_current(up, places);
        let last = w.trail.len() - 1;
        assert(places(w.dirs[last + 1]) == places(w.dirs[last]).push(
            without_slash(w.trail[last]),
        ));
        assert(bare_names(w.trail) =~= bare_names(up.trail).push(without_slash(w.trail[last])));
        assert(places(w.dirs[0]) + bare_names(w.trail) =~= (places(up.dirs[0]) + bare_names(
            up.trail,
        )).push(without_slash(w.trail[last])));
    }
}

/// The sandbox: a walk that is grounded stays grounded up to its next request,
/// and a path that it resolves lies in a directory below the start of the
/// walk, at the start followed by normal names only.
pub proof fn lemma_walk_stays_below_start(w: WalkerView, places: HostPlaces)
    requires
        w.wf(),
        w.grounded(places),
    ensures
        walk(w).wf(),
        walk(w).grounded(places, places(w.dirs[0])),
    decreases stack_weight(w.paths),
{
    lemma_walk_keeps_start(w);
    lemma_grounded_current(w, places);
    if w.paths.len() > 0 {
        let cur = w.paths.last();
        let head = head_of(cur);
        let rest = paths_after_head(w.paths);
        if cur.len() > 0 && cur[0] != SLASH && !is_drive_prefix(head) {
            lemma_after_head_lighter(w.paths);
            if is_dot(head) {
                lemma_walk_stays_below_start(w.with_paths(rest), places);
            } else if is_dot_dot(head) {
                if w.dirs.len() > 1 {
                    let up = w.with_paths(rest).ascended();
                    assert(up.grounded(places)) by {
                        assert forall|i: int| 0 <= i < up.trail.len() implies #[trigger] places(
                            up.dirs[i + 1],
                        ) == places(up.dirs[i]).push(without_slash(up.trail[i])) by {
                            assert(up.dirs[i + 1] == w.dirs[i + 1]);
                            assert(up.dirs[i] == w.dirs[i]);
                            assert(up.trail[i] == w.trail[i]);
                        }
                    }
                    lemma_walk_stays_below_start(up, places);
                }
            }
        }
    }
}

/// The sandbox, across a request: where the host opened the directory that
/// it was asked for, in the current directory and under the name given, the
/// walk that goes on below it is grounded as before.
pub proof fn lemma_descent_stays_below_start(
    w: WalkerView,
    name: Seq<u8>,
    handle: OsHandle,
    places: HostPlaces,
)
    requires
        w.wf(),
        w.grounded(places),
        is_normal_name(name),
        places(handle) == places(w.current()).push(without_slash(name)),
    ensures
        w.descended(name, handle).wf(),
        w.descended(name, handle).grounded(places),
        walk(w.descended(name, handle)).grounded(places, places(w.dirs[0])),
{
    let down = w.descended(name, handle);
    assert(down.wf());
    assert(down.grounded(places)) by {
        assert forall|i: int| 0 <= i < down.trail.len() implies #[trigger] places(
            down.dirs[i + 1],
        ) == places(down.dirs[i]).push(without_slash(down.trail[i])) by {
            if i < w.trail.len() {
                assert(down.dirs[i + 1] == w.dirs[i + 1]);
                assert(down.dirs[i] == w.dirs[i]);
                assert(down.trail[i] == w.trail[i]);
            }
        }
    }
    lemma_walk_stays_below_start(down, places);
}

/// The sandbox, across a link: the target of a link is walked from the
/// directory that holds the link, so the walk stays grounded whatever the
/// target says.
pub proof fn lemma_link_stays_below_start(
    w: WalkerView,
    name: Seq<u8>,
    target: Seq<u8>,
    places: HostPlaces,
)
    requires
        w.wf(),
        w.grounded(places),
    ensures
        after_link(w, name, target).grounded(places, places(w.dirs[0])),
{
    if w.expansions < MAX_SYMLINK_EXPANSIONS {
        let next = w.expanded(with_slash(target, ends_with_slash(name)));
        assert(next.wf());
        assert(next.grounded(places));
        lemma_walk_stays_below_start(next, places);
    }
}

/// The sandbox, across a failed request: what follows a directory that
/// could not be opened, or a link that could not be read, is grounded as
/// the walk was.
pub proof fn lemma_failure_stays_below_start(
    w: WalkerView,
    name: Seq<u8>,
    last: bool,
    errno: host::__wasi_errno_t,
    places: HostPlaces,
)
    requires
        w.wf(),
        w.grounded(places),
    ensures
        after_open_failed(w, name, errno).grounded(places, places(w.dirs[0])),
        after_readlink_failed(w, name, last, errno).grounded(places, places(w.dirs[0])),
{
    lemma_grounded_current(w, places);
}


/// A host, as far as a walk is concerned: what it answers when it is asked
/// to open a directory, and what when it is asked to read a link.
pub struct HostAnswers {
    pub open_dir: spec_fn(OsHandle, Seq<u8>) -> Result<OsHandle, host::__wasi_errno_t>,
    pub read_link: spec_fn(OsHandle, Seq<u8>) -> Result<Seq<u8>, host::__wasi_errno_t>,
}

impl HostAnswers {
    /// The host opens a directory in the directory and under the name that
    /// it is asked for: it follows no link on the way.
    pub open spec fn opens_in_place(self, places: HostPlaces) -> bool {
        forall|dir: OsHandle, name: Seq<u8>|
            (#[trigger] (self.open_dir)(dir, name)) matches Ok(handle) ==> places(handle)
                == places(dir).push(without_slash(name))
    }
}

/// The step that follows when the host answers the request of `step`; a
/// step that is an outcome stays as it is.
pub open spec fn answered(answers: HostAnswers, step: StepView) -> StepView {
    match step {
        StepView::OpenDir { walker, name } => match (answers.open_dir)(walker.current(), name) {
            Ok(handle) => walk(walker.descended(name, handle)),
            Err(e) => after_open_failed(walker, name, e),
        },
        StepView::ReadLink { walker, name, last } => match (answers.read_link)(
            walker.current(),
            name,
        ) {
            Ok(target) => after_link(walker, name, target),
            Err(e) => after_readlink_failed(walker, name, last, e),
        },
        _ => step,
    }
}

/// Where a walk stands after the host has answered `rounds` requests.
pub open spec fn run(answers: HostAnswers, step: StepView, rounds: nat) -> StepView
    decreases rounds,
{
    if rounds == 0 {
        step
    } else {
        run(answers, answered(answers, step), (rounds - 1) as nat)
    }
}

/// One answer of a host that opens in place keeps a walk below its start.
pub proof fn lemma_answer_stays_below_start(
    answers: HostAnswers,
    places: HostPlaces,
    start: Seq<Seq<u8>>,
    step: StepView,
)
    requires
        answers.opens_in_place(places),
        step.wf(),
        step.grounded(places, start),
    ensures
        answered(answers, step).wf(),
        answered(answers, step).grounded(places, start),
{
    match step {
        StepView::OpenDir { walker, name } => {
            match (answers.open_dir)(walker.current(), name) {
                Ok(handle) => {
                    lemma_descent_stays_below_start(walker, name, handle, places);
                    lemma_walk_keeps_start(walker.descended(name, handle));
                },
                Err(e) => {
                    lemma_failure_stays_below_start(walker, name, false, e, places);
                },
            }
        },
        StepView::ReadLink { walker, name, last } => {
            match (answers.read_link)(walker.current(), name) {
                Ok(target) => {
                    lemma_link_stays_below_start(walker, name, target, places);
                    if walker.expansions < MAX_SYMLINK_EXPANSIONS {
                        lemma_walk_keeps_start(
                            walker.expanded(with_slash(target, ends_with_slash(name))),
                        );
                    }
                },
                Err(e) => {
                    lemma_failure_stays_below_start(walker, name, last, e, places);
                    lemma_grounded_current(walker, places);
                },
            }
        },
        _ => {},
    }
}

/// The sandbox is inviolable: whatever the path says, whatever links the
/// host holds and however often it is asked, a walk on a host that opens
/// directories in place stays below the directory it started in, and a path
/// that it resolves lies in a directory that is reached from the start by
/// normal names only.
pub proof fn lemma_sandbox_is_inviolable(
    answers: HostAnswers,
    places: HostPlaces,
    base: OsHandle,
    dirflags: host::__wasi_lookupflags_t,
    path: Seq<u8>,
    needs_final_component: bool,
    rounds: nat,
)
    requires
        answers.opens_in_place(places),
    ensures
        run(
            answers,
            walk(initial_walk(base, dirflags, path, needs_final_component)),
            rounds,
        ).wf(),
        run(
            answers,
            walk(initial_walk(base, dirflags, path, needs_final_component)),
            rounds,
        ).grounded(places, places(base)),
{
    let start = initial_walk(base, dirflags, path, needs_final_component);
    assert(start.wf());
    assert(start.grounded(places));
    lemma_walk_stays_below_start(start, places);
    lemma_run_stays_below_start(answers, places, places(base), walk(start), rounds);
}

/// A run of a host that opens in place keeps a walk below its start.
pub proof fn lemma_run_stays_below_start(
    answers: HostAnswers,
    places: HostPlaces,
    start: Seq<Seq<u8>>,
    step: StepView,
    rounds: nat,
)
    requires
        answers.opens_in_place(places),
        step.wf(),
        step.grounded(places, start),
    ensures
        run(answers, step, rounds).wf(),
        run(answers, step, rounds).grounded(places, start),
    decreases rounds,
{
    if rounds > 0 {
        lemma_answer_stays_below_start(answers, places, start, step);
        lemma_run_stays_below_start(
            answers,
            places,
            start,
            answered(answers, step),
            (rounds - 1) as nat,
        );
    }
}

impl StepView {
    /// The handles that a step accounts for: those that a pending walk
    /// holds, or those that an outcome hands back, to be used or to be
    /// closed.
    pub open spec fn handles(self) -> Multiset<OsHandle> {
        match self {
            StepView::OpenDir { walker, name } => walker.all_handles().to_multiset(),
            StepView::ReadLink { walker, name, last } => walker.all_handles().to_multiset(),
            StepView::Resolved { dir, path, below, close } => close.to_multiset().insert(dir),
            StepView::Failed { errno, close } => close.to_multiset(),
        }
    }
}

/// No handle is lost and none is handed back twice: up to its next request
/// or to its end a walk accounts for exactly the handles that it held.
pub proof fn lemma_walk_keeps_its_handles(w: WalkerView)
    requires
        w.wf(),
    ensures
        walk(w).handles() == w.all_handles().to_multiset(),
    decreases stack_weight(w.paths),
{
    lemma_current_is_accounted_for(w);
    if w.paths.len() > 0 {
        let cur = w.paths.last();
        let head = head_of(cur);
        let rest = paths_after_head(w.paths);
        if cur.len() > 0 && cur[0] != SLASH && !is_drive_prefix(head) {
            lemma_after_head_lighter(w.paths);
            if is_dot(head) {
                lemma_walk_keeps_its_handles(w.with_paths(rest));
            } else if is_dot_dot(head) {
                if w.dirs.len() > 1 {
                    let up = w.with_paths(rest).ascended();
                    lemma_walk_keeps_its_handles(up);
                    lemma_multiset_commutative(up.released, up.dirs);
                    lemma_multiset_commutative(w.released, w.dirs);
                    to_multiset_build(w.released, w.dirs.last());
                    assert(w.dirs =~= w.dirs.drop_last().push(w.dirs.last()));
                    to_multiset_build(w.dirs.drop_last(), w.dirs.last());
                    assert(up.all_handles().to_multiset() =~= w.all_handles().to_multiset());
                }
            }
        }
    }
}

/// The handles of a walk are those that it gives up when it ends where it
/// stands, and the directory in which it stands.
pub proof fn lemma_current_is_accounted_for(w: WalkerView)
    requires
        w.wf(),
    ensures
        w.handles_but_current().to_multiset().insert(w.current())
            == w.all_handles().to_multiset(),
{
    lemma_multiset_commutative(w.released, w.dirs);
    lemma_multiset_commutative(w.released, w.dirs.drop_last());
    assert(w.dirs =~= w.dirs.drop_last().push(w.dirs.last()));
    to_multiset_build(w.dirs.drop_last(), w.dirs.last());
    assert(w.handles_but_current().to_multiset().insert(w.current())
        =~= w.all_handles().to_multiset());
}

/// An answer of the host adds the handle of a directory that it opened to
/// the handles that a walk accounts for, and changes nothing else.
pub proof fn lemma_answers_keep_the_handles(
    w: WalkerView,
    name: Seq<u8>,
    last: bool,
    handle: OsHandle,
    target: Seq<u8>,
    errno: host::__wasi_errno_t,
)
    requires
        w.wf(),
        is_normal_name(name),
    ensures
        walk(w.descended(name, handle)).handles() == w.all_handles().to_multiset().insert(
            handle,
        ),
        after_open_failed(w, name, errno).handles() == w.all_handles().to_multiset(),
        after_link(w, name, target).handles() == w.all_handles().to_multiset(),
        after_readlink_failed(w, name, last, errno).handles() == w.all_handles().to_multiset(),
{
    let down = w.descended(name, handle);
    assert(down.wf());
    lemma_walk_keeps_its_handles(down);
    assert(down.all_handles() =~= w.all_handles().push(handle));
    to_multiset_build(w.all_handles(), handle);
    if w.expansions < MAX_SYMLINK_EXPANSIONS {
        let next = w.expanded(with_slash(target, ends_with_slash(name)));
        assert(next.wf());
        lemma_walk_keeps_its_handles(next);
    }
    lemma_current_is_accounted_for(w);
}

} // verus!
