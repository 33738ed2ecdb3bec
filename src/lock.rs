//! Lock strategies: the advisory lock a manager holds on its file for as long
//! as it is open, and the rules by which such locks exclude one another.
use vstd::prelude::*;
use crate::error::{IoError, IoErrorKind};

verus! {

/// The advisory lock that a lock strategy takes.
#[derive(Clone, Copy, Debug, PartialEq, Eq, Structural)]
pub enum LockKind {
    /// No lock at all.
    Unlocked,
    /// A shared (read) lock.
    Shared,
    /// An exclusive (write) lock.
    Exclusive,
}

/// Describes a mode by which a file can be locked or unlocked.
pub trait FileLock {
    /// The lock that this strategy takes.
    spec fn spec_kind() -> LockKind;

    /// Returns the lock that this strategy takes.
    fn kind() -> (k: LockKind)
        ensures
            k == Self::spec_kind(),
    ;
}

/// A lock strategy that does not lock the file.
#[derive(Clone, Copy, Debug, Default)]
pub struct NoLock;

/// A lock strategy that locks the file for shared access.
#[derive(Clone, Copy, Debug, Default)]
pub struct SharedLock;

/// A lock strategy that locks the file for exclusive access.
#[derive(Clone, Copy, Debug, Default)]
pub struct ExclusiveLock;

impl FileLock for NoLock {
    open spec fn spec_kind() -> LockKind {
        LockKind::Unlocked
    }

    fn kind() -> (k: LockKind) {
        LockKind::Unlocked
    }
}

impl FileLock for SharedLock {
    open spec fn spec_kind() -> LockKind {
        LockKind::Shared
    }

    fn kind() -> (k: LockKind) {
        LockKind::Shared
    }
}

impl FileLock for ExclusiveLock {
    open spec fn spec_kind() -> LockKind {
        LockKind::Exclusive
    }

    fn kind() -> (k: LockKind) {
        LockKind::Exclusive
    }
}

/// The advisory locks that the open handles of one file hold.
#[derive(Clone, Copy, Debug, PartialEq, Eq, Structural)]
pub struct LockTable {
    /// How many shared locks are held.
    pub shared: u32,
    /// Whether an exclusive lock is held.
    pub exclusive: bool,
}

impl LockTable {
    /// An exclusive lock is never held beside a shared one.
    pub open spec fn wf(self) -> bool {
        !(self.exclusive && self.shared > 0)
    }

    /// Whether a non-blocking attempt to take `kind` succeeds now.
    pub open spec fn grants(self, kind: LockKind) -> bool {
        match kind {
            LockKind::Unlocked => true,
            LockKind::Shared => !self.exclusive,
            LockKind::Exclusive => !self.exclusive && self.shared == 0,
        }
    }

    /// The table once `kind` has been taken.
    pub open spec fn taken(self, kind: LockKind) -> LockTable {
        match kind {
            LockKind::Unlocked => self,
            LockKind::Shared => LockTable { shared: (self.shared + 1) as u32, exclusive: self.exclusive },
            LockKind::Exclusive => LockTable { shared: self.shared, exclusive: true },
        }
    }

    /// Whether `kind` is held, so that it can be released.
    pub open spec fn holds(self, kind: LockKind) -> bool {
        match kind {
            LockKind::Unlocked => true,
            LockKind::Shared => self.shared > 0,
            LockKind::Exclusive => self.exclusive,
        }
    }

    /// The table once one hold of `kind` has been released.
    pub open spec fn released(self, kind: LockKind) -> LockTable {
        match kind {
            LockKind::Unlocked => self,
            LockKind::Shared => LockTable { shared: (self.shared - 1) as u32, exclusive: self.exclusive },
            LockKind::Exclusive => LockTable { shared: self.shared, exclusive: false },
        }
    }

    /// A file on which no lock is held.
    pub fn new() -> (r: LockTable)
        ensures
            r.wf(),
            r.shared == 0,
            !r.exclusive,
    {
        LockTable { shared: 0, exclusive: false }
    }

    /// Tries to take `kind` without waiting: fails at once, with a contention
    /// error, where another hold excludes it.
    pub fn try_lock(&mut self, kind: LockKind) -> (r: Result<(), IoError>)
        requires
            old(self).wf(),
            kind == LockKind::Shared ==> old(self).shared < u32::MAX,
        ensures
            final(self).wf(),
            r is Ok <==> old(self).grants(kind),
            r is Ok ==> *final(self) == old(self).taken(kind),
            r is Err ==> *final(self) == *old(self) && r->Err_0.kind == IoErrorKind::LockContended,
    {
        match kind {
            LockKind::Unlocked => Ok(()),
            LockKind::Shared => {
                if self.exclusive {
                    Err(IoError::lock_contended())
                } else {
                    self.shared = self.shared + 1;
                    Ok(())
                }
            },
            LockKind::Exclusive => {
                if self.exclusive || self.shared > 0 {
                    Err(IoError::lock_contended())
                } else {
                    self.exclusive = true;
                    Ok(())
                }
            },
        }
    }

    /// Releases one hold of `kind`; releasing no lock does nothing.
    pub fn unlock(&mut self, kind: LockKind)
        requires
            old(self).wf(),
            old(self).holds(kind),
        ensures
            final(self).wf(),
            *final(self) == old(self).released(kind),
    {
        match kind {
            LockKind::Unlocked => {},
            LockKind::Shared => {
                self.shared = self.shared - 1;
            },
            LockKind::Exclusive => {
                self.exclusive = false;
            },
        }
    }
}

/// While one handle holds an exclusive lock, every other attempt to lock the
/// file fails; once it is released, an exclusive lock can be taken again.
pub proof fn lemma_exclusive_excludes(t: LockTable)
    requires
        t.wf(),
        t.grants(LockKind::Exclusive),
    ensures
        t.taken(LockKind::Exclusive).wf(),
        !t.taken(LockKind::Exclusive).grants(LockKind::Exclusive),
        !t.taken(LockKind::Exclusive).grants(LockKind::Shared),
        t.taken(LockKind::Exclusive).released(LockKind::Exclusive).grants(LockKind::Exclusive),
{
}

/// Shared locks coexist, and keep an exclusive lock out while any is held.
pub proof fn lemma_shared_coexist(t: LockTable)
    requires
        t.wf(),
        t.grants(LockKind::Shared),
        t.shared < u32::MAX,
    ensures
        t.taken(LockKind::Shared).wf(),
        t.taken(LockKind::Shared).grants(LockKind::Shared),
        !t.taken(LockKind::Shared).grants(LockKind::Exclusive),
{
}

} // verus!
