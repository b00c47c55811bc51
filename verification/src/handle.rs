//! The ownership wrappers: each instance holds one of three relationships to
//! a foreign resource — exclusive ownership, shared reference-counted
//! ownership, or a plain borrow — and each operation's contract states
//! exactly how it moves the foreign reference count.

use crate::foreign::{dec_at, inc_at, ForeignLib, ResModel};
use vstd::prelude::*;

verus! {

/// A shared-ownership wrapper: the resource carries its own foreign
/// reference count, and this instance holds exactly one of those references.
pub struct SharedHandle {
    raw: usize,
}

impl SharedHandle {
    /// The raw foreign identifier this wrapper passes across the boundary.
    pub closed spec fn spec_raw(&self) -> usize {
        self.raw
    }

    /// Live in `lib`: the wrapped resource exists and has not been freed.
    pub open spec fn live_in(&self, lib: ForeignLib) -> bool {
        self.spec_raw() < lib@.len() && lib@[self.spec_raw() as int].live()
    }

    /// Takes over an already-owned foreign reference: the caller transferred
    /// one count to us, so the count is not touched.
    pub fn acquire_full(lib: &ForeignLib, raw: usize) -> (h: SharedHandle)
        requires
            lib.wf(),
            raw < lib@.len(),
            lib@[raw as int].live(),
        ensures
            h.spec_raw() == raw,
            h.live_in(*lib),
    {
        SharedHandle { raw }
    }

    /// Wraps a foreign reference we merely received: a count of our own is
    /// taken, so the foreign count is incremented once.
    pub fn acquire_borrowed_as_owned(lib: &mut ForeignLib, raw: usize) -> (h: SharedHandle)
        requires
            old(lib).wf(),
            raw < old(lib)@.len(),
            old(lib)@[raw as int].live(),
            old(lib)@[raw as int].count < u32::MAX,
        ensures
            final(lib).wf(),
            final(lib)@ =~= inc_at(old(lib)@, raw as int),
            h.spec_raw() == raw,
            h.live_in(*final(lib)),
    {
        lib.ref_inc(raw);
        SharedHandle { raw }
    }

    /// One more owner of the same resource: increments the foreign count and
    /// returns a wrapper aliasing the same handle.
    pub fn clone(&self, lib: &mut ForeignLib) -> (h: SharedHandle)
        requires
            old(lib).wf(),
            self.live_in(*old(lib)),
            old(lib)@[self.spec_raw() as int].count < u32::MAX,
        ensures
            final(lib).wf(),
            final(lib)@ =~= inc_at(old(lib)@, self.spec_raw() as int),
            h.spec_raw() == self.spec_raw(),
            h.live_in(*final(lib)),
            self.live_in(*final(lib)),
    {
        lib.ref_inc(self.raw);
        SharedHandle { raw: self.raw }
    }

    /// Gives up this instance's reference: decrements the foreign count,
    /// which frees the resource exactly when this was the last owner.
    pub fn release(self, lib: &mut ForeignLib)
        requires
            old(lib).wf(),
            self.live_in(*old(lib)),
        ensures
            final(lib).wf(),
            final(lib)@ =~= dec_at(old(lib)@, self.spec_raw() as int),
    {
        lib.unref(self.raw);
    }

    /// The raw handle, for passing into further foreign calls; ownership is
    /// not transferred, and the caller must not retain the result past this
    /// wrapper's release.
    pub fn raw(&self) -> (r: usize)
        ensures
            r == self.spec_raw(),
    {
        self.raw
    }

    /// Identity equality: whether the two wrappers alias one foreign
    /// resource. Nothing the resources hold is compared.
    pub fn same_instance(&self, other: &SharedHandle) -> (r: bool)
        ensures
            r == (self.spec_raw() == other.spec_raw()),
    {
        self.raw == other.raw
    }
}

/// An exclusive-ownership wrapper: this instance is the resource's one
/// owner, and releasing it runs the foreign destructor exactly once.
/// Duplicating the handle itself is impossible; an independent resource is
/// had only through a foreign deep copy.
pub struct FullHandle {
    raw: usize,
}

impl FullHandle {
    /// The raw foreign identifier this wrapper passes across the boundary.
    pub closed spec fn spec_raw(&self) -> usize {
        self.raw
    }

    /// Live in `lib`: the wrapped resource exists and has not been freed.
    pub open spec fn live_in(&self, lib: ForeignLib) -> bool {
        self.spec_raw() < lib@.len() && lib@[self.spec_raw() as int].live()
    }

    /// Sole owner in `lib`: live, and holding the resource's only reference.
    pub open spec fn sole_owner_in(&self, lib: ForeignLib) -> bool {
        self.live_in(lib) && lib@[self.spec_raw() as int].count == 1
    }

    /// Takes over a fully transferred foreign resource: the caller's one
    /// reference becomes ours, and the count is not touched.
    pub fn acquire_full(lib: &ForeignLib, raw: usize) -> (h: FullHandle)
        requires
            lib.wf(),
            raw < lib@.len(),
            lib@[raw as int].live(),
            lib@[raw as int].count == 1,
        ensures
            h.spec_raw() == raw,
            h.sole_owner_in(*lib),
    {
        FullHandle { raw }
    }

    /// Runs the foreign destructor: the one reference is given up, so the
    /// resource is freed, exactly once.
    pub fn release(self, lib: &mut ForeignLib)
        requires
            old(lib).wf(),
            self.sole_owner_in(*old(lib)),
        ensures
            final(lib).wf(),
            final(lib)@ =~= dec_at(old(lib)@, self.spec_raw() as int),
            final(lib)@[self.spec_raw() as int].frees == 1,
    {
        lib.unref(self.raw);
    }

    /// The raw handle, for passing into further foreign calls; ownership is
    /// not transferred.
    pub fn raw(&self) -> (r: usize)
        ensures
            r == self.spec_raw(),
    {
        self.raw
    }
}

/// A borrowed view: no ownership at all. No operation here takes the foreign
/// library mutably, so constructing and dropping one cannot move any
/// reference count; that the real owner outlives the view is an unchecked
/// obligation of the caller.
pub struct BorrowedHandle {
    raw: usize,
}

impl BorrowedHandle {
    /// The raw foreign identifier this view passes across the boundary.
    pub closed spec fn spec_raw(&self) -> usize {
        self.raw
    }

    /// Live in `lib`: the viewed resource exists and has not been freed.
    pub open spec fn live_in(&self, lib: ForeignLib) -> bool {
        self.spec_raw() < lib@.len() && lib@[self.spec_raw() as int].live()
    }

    /// Wraps without any ownership change: the foreign library is only read.
    pub fn borrow(lib: &ForeignLib, raw: usize) -> (h: BorrowedHandle)
        requires
            lib.wf(),
            raw < lib@.len(),
            lib@[raw as int].live(),
        ensures
            h.spec_raw() == raw,
            h.live_in(*lib),
    {
        BorrowedHandle { raw }
    }

    /// Releasing a borrowed view is a no-op: it cannot reach the foreign
    /// library at all, so no unref is ever run for it.
    pub fn release(self) {
    }

    /// The raw handle, for passing into further foreign calls.
    pub fn raw(&self) -> (r: usize)
        ensures
            r == self.spec_raw(),
    {
        self.raw
    }
}

/// The foreign state after `n` reference-count decrements of `h`.
pub open spec fn dec_n(s: Seq<ResModel>, h: int, n: nat) -> Seq<ResModel>
    decreases n,
{
    if n == 0 {
        s
    } else {
        dec_at(dec_n(s, h, (n - 1) as nat), h)
    }
}

/// Law: one increment of a live resource followed by one decrement leaves
/// the foreign state exactly as it was — so after a `clone` and a `release`
/// of the clone, every accessor of the original answers as before the pair
/// of calls.
pub proof fn lemma_clone_then_release(s: Seq<ResModel>, h: int)
    requires
        0 <= h < s.len(),
        s[h].inv(),
        s[h].live(),
    ensures
        dec_at(inc_at(s, h), h) =~= s,
{
    assert(inc_at(s, h)[h].count == s[h].count + 1);
    assert(s[h].count >= 1);
    assert(dec_at(inc_at(s, h), h) =~= s);
}

/// Law: a resource holding `n + 1` references is untouched by fewer than
/// `n + 1` decrements — after `k <= n` of them it is not freed and still
/// holds `n + 1 - k` references, never fewer than one — and the decrement
/// after those frees it, exactly once.
pub proof fn lemma_releases_free_once(s: Seq<ResModel>, h: int, n: nat, k: nat)
    requires
        0 <= h < s.len(),
        s[h].inv(),
        s[h].live(),
        s[h].count == n + 1,
        k <= n + 1,
    ensures
        dec_n(s, h, k).len() == s.len(),
        dec_n(s, h, k)[h].count == n + 1 - k,
        dec_n(s, h, k)[h].frees == if k == n + 1 {
            1nat
        } else {
            0nat
        },
        dec_n(s, h, k)[h].data == s[h].data,
    decreases k,
{
    if k > 0 {
        lemma_releases_free_once(s, h, n, (k - 1) as nat);
    }
}

} // verus!
