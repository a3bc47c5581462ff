//! A container that cannot be leaked once locked.
//!
//! `Lock` is an optionally-empty cell bound to a stack location. `Lock::lock`
//! hands out an `Acceptor`, a one-shot token whose lifetime is unified with
//! the lock's own, and filling through the acceptor yields a `Handle`: the
//! only view onto the stored value. Because the handle carries the same
//! scope-bound lifetime as the lock itself, the value can never outlive the
//! lock, and the lock's destructor is guaranteed to drop the value on every
//! exit path.
//!
//! A known sharp edge: should two handles ever come to view the same cell,
//! a relocation through one of them drains the cell underneath the other,
//! and any later access through that other handle is a fatal misuse. The
//! accessors therefore demand a still-filled cell, and an unverified caller
//! that breaks that demand is stopped loudly rather than handed stale data.
//! Note also that `deref_mut` hands out a bare `&mut T`, through which the
//! stored value could be swapped with one living outside any lock.

use vstd::prelude::*;

verus! {

/// An optionally-empty cell owning at most one `T`, bound to the scope in
/// which it is declared by the `'lock` lifetime parameter.
pub struct Lock<'lock, T> {
    opt_val: Option<T>,
    phantom_lock: core::marker::PhantomData<&'lock mut ()>,
}

impl<'lock, T> Lock<'lock, T> {
    /// The cell's contents: `None` while empty or drained, `Some` once
    /// filled.
    pub closed spec fn cell(self) -> Option<T> {
        self.opt_val
    }

    /// Whether the cell currently holds a value.
    pub open spec fn is_filled(self) -> bool {
        self.cell() is Some
    }

    /// The value currently held (meaningful only when `is_filled()`).
    pub open spec fn value(self) -> T {
        self.cell()->0
    }

    /// Creates an empty lock. It must be stored in a binding
    /// (`let mut lock = Lock::new();`) before it can be locked.
    pub fn new() -> (r: Self)
        ensures
            r.cell() is None,
    {
        Lock { opt_val: None, phantom_lock: core::marker::PhantomData }
    }

    /// Issues the one permission token for this lock. Taking `&'lock mut self`
    /// unifies the borrow's lifetime with the lock's own parameter, so the
    /// token (and everything derived from it) can never escape the scope the
    /// lock lives in, and no second token can ever be issued.
    pub fn lock(&'lock mut self) -> (acc: Acceptor<'lock, T>)
        ensures
            acc.slot() == *old(self),
    {
        Acceptor::new(self)
    }
}

/// A one-shot capability to place a value into the lock it was issued from.
pub struct Acceptor<'lock, T> {
    mut_lock: &'lock mut Lock<'lock, T>,
}

impl<'lock, T> Acceptor<'lock, T> {
    /// The current state of the cell this token points into.
    pub closed spec fn slot(self) -> Lock<'lock, T> {
        *self.mut_lock
    }

    fn new(lock: &'lock mut Lock<'lock, T>) -> (acc: Self)
        ensures
            acc.slot() == *old(lock),
    {
        Acceptor { mut_lock: lock }
    }

    /// Consumes the token, stores `t` in the cell, and returns the handle
    /// through which the stored value is used from now on.
    pub fn fill(self, t: T) -> (h: Handle<'lock, T>)
        ensures
            h.slot().cell() == Some(t),
    {
        self.mut_lock.opt_val = Some(t);
        Handle { mut_lock: self.mut_lock }
    }

    /// Consumes the token and relocates the value out of another lock's
    /// handle into this one's cell. The source cell is drained: it is left
    /// empty for the rest of its life, so its destructor will have nothing to
    /// drop. The source handle must still view a filled cell; relocating out
    /// of an already-drained handle is a fatal misuse, not a recoverable one.
    pub fn fill_from<'other>(self, handle_t: Handle<'other, T>) -> (h: Handle<'lock, T>)
        requires
            handle_t.slot().is_filled(),
        ensures
            h.slot().cell() == Some(handle_t.slot().value()),
    {
        let Handle { mut_lock: src } = handle_t;
        let new = match src.opt_val.take() {
            Some(v) => v,
            None => vstd::pervasive::unreached(),
        };
        self.fill(new)
    }
}

/// The read/write view onto a filled lock: the only way the stored value is
/// reached.
pub struct Handle<'lock, T> {
    mut_lock: &'lock mut Lock<'lock, T>,
}

impl<'lock, T> Handle<'lock, T> {
    /// The current state of the cell this handle views.
    pub closed spec fn slot(self) -> Lock<'lock, T> {
        *self.mut_lock
    }

    /// Yields a shared reference to the stored value. The cell must still be
    /// filled: a handle whose cell was drained by a relocation through some
    /// other handle to the same cell must not be dereferenced.
    pub fn deref(&self) -> (r: &T)
        requires
            self.slot().is_filled(),
        ensures
            *r == self.slot().value(),
    {
        match &self.mut_lock.opt_val {
            Some(v) => v,
            None => vstd::pervasive::unreached(),
        }
    }

    /// Yields an exclusive reference to the stored value, under the same
    /// condition as `deref`; the cell stays filled, afterwards holding
    /// whatever the caller wrote through the returned reference.
    pub fn deref_mut(&mut self) -> (r: &mut T)
        requires
            old(self).slot().is_filled(),
        ensures
            *r == old(self).slot().value(),
            final(self).slot().is_filled(),
            final(self).slot().value() == *final(r),
    {
        match &mut self.mut_lock.opt_val {
            Some(v) => v,
            None => vstd::pervasive::unreached(),
        }
    }
}

/// For every value `v`: a cell that a fill has just set to `v` is filled —
/// so a read through its handle is permitted — and the value read out of it
/// is exactly `v`.
pub proof fn lemma_fill_read_round_trip<'lock, T>(slot: Lock<'lock, T>, v: T)
    requires
        slot.cell() == Some(v),
    ensures
        slot.is_filled(),
        slot.value() == v,
{
}

/// Relocation preserves the value: once a destination cell has been set to
/// exactly what the source handle viewed, a read of the destination is
/// permitted and yields that same value.
pub proof fn lemma_relocation_reads_back<'src, 'dst, T>(src: Lock<'src, T>, dst: Lock<'dst, T>)
    requires
        src.is_filled(),
        dst.cell() == Some(src.value()),
    ensures
        dst.is_filled(),
        dst.value() == src.value(),
{
}

} // verus!
