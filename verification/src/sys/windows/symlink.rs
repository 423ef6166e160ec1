//! Symbolic links as Windows has them: a link to a file and a link to a
//! directory are different things, and a link to nothing cannot be made, so
//! that such a link exists in this record only.

use crate::host;
use vstd::prelude::*;

verus! {

/// What stands at a path.
#[derive(Debug, Clone, Copy, PartialEq, Eq, Structural)]
pub enum PathKind {
    Missing,
    File,
    Dir,
    /// Something that is neither a file nor a directory.
    Other,
}

#[derive(Debug, Clone, Copy, PartialEq, Eq, Structural)]
pub enum SymlinkKind {
    Loop,
    Dangling,
    File,
    Dir,
}

/// What the host has to do for a link to come into being.
#[derive(Debug, Clone, Copy, PartialEq, Eq, Structural)]
pub enum SymlinkAction {
    /// Make a link to a file.
    LinkFile,
    /// Make a link to a directory.
    LinkDir,
    /// Nothing: the link exists in the record only.
    Nothing,
}

#[derive(Debug)]
pub struct Symlink {
    source: Vec<u8>,
    target: Vec<u8>,
    kind: SymlinkKind,
}

/// The kind of a link from `source` to `target`, given what stands at the
/// target.
pub open spec fn kind_of_link(source: Seq<u8>, target: Seq<u8>, at_target: PathKind) -> SymlinkKind {
    match at_target {
        PathKind::File => SymlinkKind::File,
        PathKind::Dir => SymlinkKind::Dir,
        _ => if source == target {
            SymlinkKind::Loop
        } else {
            SymlinkKind::Dangling
        },
    }
}

/// What the host does to make a link of a kind.
pub open spec fn action_of_kind(kind: SymlinkKind) -> SymlinkAction {
    match kind {
        SymlinkKind::File => SymlinkAction::LinkFile,
        SymlinkKind::Dir => SymlinkAction::LinkDir,
        _ => SymlinkAction::Nothing,
    }
}

fn same_bytes(a: &Vec<u8>, b: &Vec<u8>) -> (res: bool)
    ensures
        res == (a@ == b@),
{
    if a.len() != b.len() {
        return false;
    }
    let mut i: usize = 0;
    while i < a.len()
        invariant
            i <= a.len(),
            a.len() == b.len(),
            forall|j: int| 0 <= j < i ==> a@[j] == b@[j],
        decreases a.len() - i,
    {
        if a[i] != b[i] {
            return false;
        }
        i += 1;
    }
    assert(a@ =~= b@);
    true
}

impl Symlink {
    pub closed spec fn source_view(&self) -> Seq<u8> {
        self.source@
    }

    pub closed spec fn target_view(&self) -> Seq<u8> {
        self.target@
    }

    pub closed spec fn kind(&self) -> SymlinkKind {
        self.kind
    }

    /// A link at `source` to `target`, given what stands at the two paths,
    /// and what the host has to do for it. Where something stands at
    /// `source` already the answer is `EEXIST`.
    pub fn new(source: Vec<u8>, target: Vec<u8>, at_source: PathKind, at_target: PathKind) -> (res:
        Result<(Symlink, SymlinkAction), host::__wasi_errno_t>)
        ensures
            at_source != PathKind::Missing ==> (res matches Err(e) && e == host::__WASI_EEXIST),
            at_source == PathKind::Missing ==> (res matches Ok(made) && made.0.source_view()
                == source@ && made.0.target_view() == target@ && made.0.kind() == kind_of_link(
                source@,
                target@,
                at_target,
            ) && made.1 == action_of_kind(made.0.kind())),
    {
        match at_source {
            PathKind::Missing => {},
            _ => {
                return Err(host::__WASI_EEXIST);
            },
        }
        let (kind, action) = match at_target {
            PathKind::File => (SymlinkKind::File, SymlinkAction::LinkFile),
            PathKind::Dir => (SymlinkKind::Dir, SymlinkAction::LinkDir),
            _ => if same_bytes(&source, &target) {
                (SymlinkKind::Loop, SymlinkAction::Nothing)
            } else {
                (SymlinkKind::Dangling, SymlinkAction::Nothing)
            },
        };
        Ok((Symlink { source, target, kind }, action))
    }

    pub fn target(&self) -> (target: &Vec<u8>)
        ensures
            target@ == self.target_view(),
    {
        &self.target
    }

    pub fn is_dangling(&self) -> (res: bool)
        ensures
            res == (self.kind() == SymlinkKind::Dangling),
    {
        self.kind == SymlinkKind::Dangling
    }

    pub fn is_file(&self) -> (res: bool)
        ensures
            res == (self.kind() == SymlinkKind::File),
    {
        self.kind == SymlinkKind::File
    }

    pub fn is_dir(&self) -> (res: bool)
        ensures
            res == (self.kind() == SymlinkKind::Dir),
    {
        self.kind == SymlinkKind::Dir
    }

    /// The host made the link a link to a file.
    pub fn symlink_file(&mut self)
        ensures
            final(self).kind() == SymlinkKind::File,
            final(self).source_view() == old(self).source_view(),
            final(self).target_view() == old(self).target_view(),
    {
        self.kind = SymlinkKind::File;
    }

    /// The host made the link a link to a directory.
    pub fn symlink_dir(&mut self)
        ensures
            final(self).kind() == SymlinkKind::Dir,
            final(self).source_view() == old(self).source_view(),
            final(self).target_view() == old(self).target_view(),
    {
        self.kind = SymlinkKind::Dir;
    }

    /// The host removed the link from the file system: it dangles now.
    pub fn unlink_file(&mut self)
        ensures
            final(self).kind() == SymlinkKind::Dangling,
            final(self).source_view() == old(self).source_view(),
            final(self).target_view() == old(self).target_view(),
    {
        self.kind = SymlinkKind::Dangling;
    }

    /// The host removed the link from the file system: it dangles now.
    pub fn unlink_dir(&mut self)
        ensures
            final(self).kind() == SymlinkKind::Dangling,
            final(self).source_view() == old(self).source_view(),
            final(self).target_view() == old(self).target_view(),
    {
        self.kind = SymlinkKind::Dangling;
    }

    /// The target of a link that exists in the record only; `None` for a
    /// link that the host has to read.
    pub fn read_link(&self) -> (res: Option<Vec<u8>>)
        ensures
            (self.kind() == SymlinkKind::Loop || self.kind() == SymlinkKind::Dangling)
                ==> (res matches Some(t) && t@ == self.target_view()),
            !(self.kind() == SymlinkKind::Loop || self.kind() == SymlinkKind::Dangling)
                ==> res.is_none(),
    {
        match self.kind {
            SymlinkKind::Loop => Some(self.target.clone()),
            SymlinkKind::Dangling => Some(self.target.clone()),
            _ => None,
        }
    }

    /// What the host has to remove for the link to be gone.
    pub fn unlink(&self) -> (res: SymlinkAction)
        ensures
            res == action_of_kind(self.kind()),
    {
        match self.kind {
            SymlinkKind::File => SymlinkAction::LinkFile,
            SymlinkKind::Dir => SymlinkAction::LinkDir,
            _ => SymlinkAction::Nothing,
        }
    }
}

} // verus!
