//! The lock of a stream and the leases on it.
//!
//! A stream has at most one reader or writer at a time. Acquiring one takes
//! an exclusive lease on the stream; the lease ends when it is released, and
//! releasing it again does nothing.
use vstd::prelude::*;

verus! {

/// An exclusive lease on a stream: the host's reader or writer `R` while
/// the lease is active, nothing once it has been released.
#[derive(Debug)]
pub struct Lease<R> {
    raw: Option<R>,
}

/// The lock that the host keeps for one stream: whether a lease on the
/// stream is outstanding.
#[derive(Debug)]
pub struct Lock {
    locked: bool,
}

impl<R> Lease<R> {
    /// The host's reader or writer, while the lease is active.
    pub closed spec fn raw(&self) -> Option<R> {
        self.raw
    }

    /// Whether the lease is still active.
    pub open spec fn is_active(&self) -> bool {
        self.raw().is_some()
    }

    /// The active lease that holds `raw`.
    pub fn new(raw: R) -> (lease: Self)
        ensures
            lease.raw() == Some(raw),
    {
        Lease { raw: Some(raw) }
    }

    /// The host's reader or writer, while the lease is active.
    pub fn as_raw(&self) -> (raw: Option<&R>)
        ensures
            match raw {
                Some(held) => self.raw() == Some(*held),
                None => self.raw().is_none(),
            },
    {
        self.raw.as_ref()
    }

    /// Whether the lease has been released.
    pub fn is_released(&self) -> (released: bool)
        ensures
            released == !self.is_active(),
    {
        self.raw.is_none()
    }

    /// Releases the lease. Returns the reader or writer on which the host is
    /// to release its lock: the held one on the first release, none on every
    /// later one, so that the host is told once and never twice.
    pub fn release(&mut self) -> (raw: Option<R>)
        ensures
            raw == old(self).raw(),
            !final(self).is_active(),
    {
        self.raw.take()
    }

    /// Takes the host's answer to an attempt to release its lock. Where the
    /// host has released it, the lease ends; where the host refuses, with
    /// reads still pending, the lease stays active and the host's error is
    /// handed on.
    pub fn try_release<E>(&mut self, attempt: Result<(), E>) -> (released: Result<(), E>)
        ensures
            released == attempt,
            attempt is Ok ==> !final(self).is_active(),
            attempt is Err ==> final(self).raw() == old(self).raw(),
    {
        match attempt {
            Ok(done) => {
                self.raw = None;
                Ok(done)
            },
            Err(error) => Err(error),
        }
    }
}

/// The state of a [`Lock`].
pub ghost struct LockView {
    pub locked: bool,
}

impl LockView {
    /// An acquisition: the lock after it, and whether it was granted. It is
    /// granted exactly when no lease is outstanding, and the stream is
    /// locked after it either way.
    pub open spec fn acquire(self) -> (Self, bool) {
        (LockView { locked: true }, !self.locked)
    }

    /// The release of a lease on the stream that is active or not: the lock
    /// after it, and whether the host is told. An active lease unlocks the
    /// stream and tells the host; a lease released before does neither.
    pub open spec fn release(self, active: bool) -> (Self, bool) {
        (LockView { locked: self.locked && !active }, active)
    }
}

impl View for Lock {
    type V = LockView;

    closed spec fn view(&self) -> LockView {
        LockView { locked: self.locked }
    }
}

impl Lock {
    /// The lock of a stream that nobody has acquired.
    pub fn new() -> (lock: Self)
        ensures
            lock@ == (LockView { locked: false }),
    {
        Lock { locked: false }
    }

    /// Whether a lease on the stream is outstanding.
    pub fn is_locked(&self) -> (locked: bool)
        ensures
            locked == self@.locked,
    {
        self.locked
    }

    /// Acquires the lease for the reader or writer `raw`. Fails, handing
    /// `raw` back and changing nothing, exactly when a lease is outstanding.
    pub fn try_acquire<R>(&mut self, raw: R) -> (acquired: Result<Lease<R>, R>)
        ensures
            final(self)@ == old(self)@.acquire().0,
            acquired is Ok == old(self)@.acquire().1,
            match acquired {
                Ok(lease) => lease.raw() == Some(raw),
                Err(refused) => refused == raw,
            },
    {
        if self.locked {
            Err(raw)
        } else {
            self.locked = true;
            Ok(Lease::new(raw))
        }
    }

    /// Releases `lease`, a lease on this stream. An active lease ends and
    /// unlocks the stream; a lease that was released before changes nothing.
    /// Returns the reader or writer on which the host is to release its
    /// lock, which is none where the lease was released before.
    pub fn release<R>(&mut self, lease: &mut Lease<R>) -> (raw: Option<R>)
        ensures
            raw == old(lease).raw(),
            !final(lease).is_active(),
            final(self)@ == old(self)@.release(old(lease).is_active()).0,
            raw.is_some() == old(self)@.release(old(lease).is_active()).1,
    {
        let raw = lease.release();
        if raw.is_some() {
            self.locked = false;
        }
        raw
    }
}

/// A stream has one lease at a time. Whatever the lock was, after an
/// acquisition the stream is locked, and while the lease is outstanding
/// every further acquisition is refused. Once the lease is released the
/// stream is unlocked, and the next acquisition is granted.
pub proof fn lemma_exclusive(lock: LockView)
    ensures
        lock.acquire().1 == !lock.locked,
        !lock.acquire().0.acquire().1,
        lock.acquire().0.acquire().0 == lock.acquire().0,
        lock.acquire().0.release(true).0.acquire().1,
{
}

/// Release is idempotent. The first release of a lease ends it and tells the
/// host if the lease was active; a release after that tells the host nothing
/// and leaves the lock as it is, also where another lease has locked the
/// stream in between.
pub proof fn lemma_release_idempotent(lock: LockView, active: bool, later: LockView)
    ensures
        lock.release(active).1 == active,
        lock.release(active).0.release(false) == (lock.release(active).0, false),
        later.release(false) == (later, false),
{
}

} // verus!
