use vstd::prelude::*;

use crate::error::WofsError;

verus! {

/// File-type bits of a directory entry's mode.
pub const MODE_DIR: u16 = 0o040000;

/// File-type bits of a regular file's mode.
pub const MODE_REG: u16 = 0o100000;

/// The largest permission field a mode can carry.
pub const PERM_MAX: u16 = 0o7777;

/// Permissions given to the root directory.
pub const ROOT_PERM: u16 = 0o755;

/// Permissions given to every fabricated file.
pub const FILE_PERM: u16 = 0o644;

/// Identifier of the root directory.
pub const ROOT_INO: u64 = 1;

/// The first identifier handed to a fabricated file.
pub const FIRST_FILE_INO: u64 = 2;

/// The kinds of entries the namespace shows.
#[derive(Clone, Copy, Debug, PartialEq, Eq, Structural)]
pub enum NodeKind {
    Directory,
    RegularFile,
}

/// A fabricated namespace entry. Nothing stands behind it.
#[derive(Clone, Copy, Debug, PartialEq, Eq, Structural)]
pub struct Entry {
    pub ino: u64,
    pub kind: NodeKind,
    pub mode: u16,
}

pub open spec fn type_bits(kind: NodeKind) -> u16 {
    match kind {
        NodeKind::Directory => MODE_DIR,
        NodeKind::RegularFile => MODE_REG,
    }
}

/// The mode of an entry of `kind` with permissions `perm`, when it exists.
pub open spec fn mode_spec(kind: NodeKind, perm: u16) -> Result<u16, WofsError> {
    if perm <= PERM_MAX {
        Ok((type_bits(kind) + perm) as u16)
    } else {
        Err(WofsError::InvalidConfiguration)
    }
}

/// Combines a kind with permission bits; permissions outside the
/// permission field cannot be represented.
pub fn entry_mode(kind: NodeKind, perm: u16) -> (r: Result<u16, WofsError>)
    ensures
        r == mode_spec(kind, perm),
{
    if perm > PERM_MAX {
        return Err(WofsError::InvalidConfiguration);
    }
    match kind {
        NodeKind::Directory => Ok(MODE_DIR + perm),
        NodeKind::RegularFile => Ok(MODE_REG + perm),
    }
}

/// The root directory that a mount shows.
pub open spec fn root_entry() -> Entry {
    Entry { ino: ROOT_INO, kind: NodeKind::Directory, mode: (MODE_DIR + ROOT_PERM) as u16 }
}

/// The entry a lookup or a create fabricates with identifier `ino`.
pub open spec fn file_entry(ino: u64) -> Entry {
    Entry { ino, kind: NodeKind::RegularFile, mode: (MODE_REG + FILE_PERM) as u16 }
}

/// The file system type: it only knows how to show a root.
pub struct WofsFileSystem;

impl WofsFileSystem {
    /// Mounting always shows the same fresh root directory.
    pub fn mount(&self) -> (r: Result<Entry, WofsError>)
        ensures
            r == Ok::<Entry, WofsError>(root_entry()),
    {
        let mode = entry_mode(NodeKind::Directory, ROOT_PERM)?;
        Ok(Entry { ino: ROOT_INO, kind: NodeKind::Directory, mode })
    }
}

/// The namespace provider. It remembers no names, only the next identifier
/// to hand out.
pub struct WofsInodeOps {
    next_ino: u64,
}

impl WofsInodeOps {
    pub closed spec fn next_ino(&self) -> u64 {
        self.next_ino
    }

    /// The identifiers handed out so far.
    pub open spec fn issued(&self) -> Set<u64> {
        Set::new(|i: u64| FIRST_FILE_INO <= i < self.next_ino())
    }

    pub open spec fn wf(&self) -> bool {
        self.next_ino() >= FIRST_FILE_INO
    }

    /// Whether another identifier can be handed out.
    pub open spec fn can_issue(&self) -> bool {
        self.next_ino() < u64::MAX
    }

    pub fn new() -> (r: Self)
        ensures
            r.wf(),
            r.next_ino() == FIRST_FILE_INO,
            r.issued() == Set::<u64>::empty(),
    {
        let r = WofsInodeOps { next_ino: FIRST_FILE_INO };
        assert(r.issued() =~= Set::<u64>::empty());
        r
    }

    /// Whether the provider has run out of identifiers.
    pub fn exhausted(&self) -> (r: bool)
        ensures
            r == !self.can_issue(),
    {
        self.next_ino == u64::MAX
    }

    /// Hands out an identifier never handed out before by this provider.
    pub fn get_next_ino(&mut self) -> (r: u64)
        requires
            old(self).wf(),
            old(self).can_issue(),
        ensures
            issue_step(*old(self), *final(self), r),
    {
        let r = self.next_ino;
        self.next_ino = self.next_ino + 1;
        assert(self.issued() =~= old(self).issued().insert(r));
        r
    }

    /// Fabricates a regular file for any name under any directory; nothing
    /// is looked up or kept.
    pub fn lookup(&mut self, _dir: &Entry, _name: &str) -> (r: Result<Entry, WofsError>)
        requires
            old(self).wf(),
            old(self).can_issue(),
        ensures
            fabricate_step(*old(self), *final(self), r),
    {
        self.fabricate()
    }

    /// Behaves as `lookup`: the requested mode and `exclusive` are ignored.
    pub fn create(&mut self, _dir: &Entry, _name: &str, _mode: u16, _exclusive: bool) -> (r: Result<
        Entry,
        WofsError,
    >)
        requires
            old(self).wf(),
            old(self).can_issue(),
        ensures
            fabricate_step(*old(self), *final(self), r),
    {
        self.fabricate()
    }

    /// Accepts and forgets the request: no directory comes into being.
    pub fn mkdir(&self, _dir: &Entry, _name: &str, _mode: u16) -> (r: Result<(), WofsError>)
        ensures
            r == Ok::<(), WofsError>(()),
    {
        Ok(())
    }

    fn fabricate(&mut self) -> (r: Result<Entry, WofsError>)
        requires
            old(self).wf(),
            old(self).can_issue(),
        ensures
            fabricate_step(*old(self), *final(self), r),
    {
        let mode = entry_mode(NodeKind::RegularFile, FILE_PERM)?;
        let ino = self.get_next_ino();
        Ok(Entry { ino, kind: NodeKind::RegularFile, mode })
    }
}

/// Handing out `ino` takes the next unused identifier.
pub open spec fn issue_step(pre: WofsInodeOps, post: WofsInodeOps, ino: u64) -> bool {
    &&& post.wf()
    &&& ino == pre.next_ino()
    &&& !pre.issued().contains(ino)
    &&& post.issued() == pre.issued().insert(ino)
    &&& post.next_ino() == pre.next_ino() + 1
}

/// A lookup or a create: a new regular file with a fresh identifier.
pub open spec fn fabricate_step(
    pre: WofsInodeOps,
    post: WofsInodeOps,
    r: Result<Entry, WofsError>,
) -> bool {
    &&& issue_step(pre, post, pre.next_ino())
    &&& r == Ok::<Entry, WofsError>(file_entry(pre.next_ino()))
}

/// Two lookups in a row, on any names, both succeed with regular files and
/// give entries with different identifiers: nothing is cached.
pub proof fn lemma_lookups_distinct(
    s0: WofsInodeOps,
    s1: WofsInodeOps,
    s2: WofsInodeOps,
    r1: Result<Entry, WofsError>,
    r2: Result<Entry, WofsError>,
)
    requires
        fabricate_step(s0, s1, r1),
        fabricate_step(s1, s2, r2),
    ensures
        r1 is Ok && r2 is Ok,
        r1->Ok_0.kind == NodeKind::RegularFile,
        r2->Ok_0.kind == NodeKind::RegularFile,
        r1->Ok_0.ino != r2->Ok_0.ino,
{
}

/// What a lookup returns is fixed by the provider's state alone, whatever
/// the names and whatever `mkdir` calls came before: `mkdir` borrows the
/// provider immutably, so a lookup after it sees what it would have seen.
pub proof fn lemma_lookup_ignores_mkdir(
    s0: WofsInodeOps,
    s1: WofsInodeOps,
    r: Result<Entry, WofsError>,
)
    requires
        fabricate_step(s0, s1, r),
    ensures
        r == Ok::<Entry, WofsError>(file_entry(s0.next_ino())),
        !s0.issued().contains(r->Ok_0.ino),
{
}

} // verus!
