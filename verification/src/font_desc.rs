//! A font description held behind an exclusively owned foreign handle.

use crate::foreign::{alloc_at, dec_at, ForeignLib, PayloadModel};
use crate::handle::FullHandle;
use vstd::prelude::*;

verus! {

/// A font description, held behind an exclusively owned foreign handle:
/// this wrapper is the resource's one owner, and releasing it runs the
/// foreign destructor exactly once. Copying is only possible through the
/// foreign deep-copy entry point, never by duplicating the handle.
pub struct FontDescription {
    handle: FullHandle,
}

impl FontDescription {
    /// The raw foreign identifier of the wrapped resource.
    pub closed spec fn spec_raw(&self) -> usize {
        self.handle.spec_raw()
    }

    /// Live in `lib`: the wrapped resource exists and has not been freed.
    pub open spec fn live_in(&self, lib: ForeignLib) -> bool {
        self.spec_raw() < lib@.len() && lib@[self.spec_raw() as int].live()
    }

    /// Well-formed in `lib`: the wrapped resource is a description, and this
    /// wrapper holds its only reference.
    pub open spec fn wf_in(&self, lib: ForeignLib) -> bool {
        self.live_in(lib) && lib@[self.spec_raw() as int].data is Desc && lib@[self.spec_raw()
            as int].count == 1
    }

    /// The family the wrapped description names in `lib`.
    pub open spec fn family_in(&self, lib: ForeignLib) -> Seq<char> {
        lib@[self.spec_raw() as int].data->Desc_family
    }

    /// Calls the foreign constructor and takes exclusive ownership of the
    /// fresh description.
    pub fn new(lib: &mut ForeignLib, family: String) -> (r: FontDescription)
        requires
            old(lib).wf(),
        ensures
            final(lib).wf(),
            final(lib)@ =~= alloc_at(old(lib)@, PayloadModel::Desc { family: family@ }),
            r.spec_raw() == old(lib)@.len(),
            r.wf_in(*final(lib)),
    {
        let h: usize = lib.new_desc(family);
        FontDescription { handle: FullHandle::acquire_full(lib, h) }
    }

    /// Takes over a fully transferred description resource: the caller's one
    /// reference becomes ours, and the count is not touched.
    pub fn acquire_full(lib: &ForeignLib, raw: usize) -> (r: FontDescription)
        requires
            lib.wf(),
            raw < lib@.len(),
            lib@[raw as int].live(),
            lib@[raw as int].data is Desc,
            lib@[raw as int].count == 1,
        ensures
            r.spec_raw() == raw,
            r.wf_in(*lib),
    {
        FontDescription { handle: FullHandle::acquire_full(lib, raw) }
    }

    /// Owns a description we merely received: a full-mode type has no
    /// reference count to increment, so ownership is had through the foreign
    /// deep copy, and the caller's resource is left untouched.
    pub fn acquire_borrowed_as_owned(lib: &mut ForeignLib, raw: usize) -> (r: FontDescription)
        requires
            old(lib).wf(),
            raw < old(lib)@.len(),
            old(lib)@[raw as int].live(),
            old(lib)@[raw as int].data is Desc,
        ensures
            final(lib).wf(),
            final(lib)@ =~= alloc_at(old(lib)@, old(lib)@[raw as int].data),
            r.spec_raw() == old(lib)@.len(),
            r.wf_in(*final(lib)),
    {
        let nh: usize = lib.desc_copy(raw);
        FontDescription { handle: FullHandle::acquire_full(lib, nh) }
    }

    /// The foreign deep copy: a fresh, independent resource naming the same
    /// family, exclusively owned by the returned wrapper.
    pub fn deep_copy(&self, lib: &mut ForeignLib) -> (r: FontDescription)
        requires
            old(lib).wf(),
            self.wf_in(*old(lib)),
        ensures
            final(lib).wf(),
            final(lib)@ =~= alloc_at(old(lib)@, old(lib)@[self.spec_raw() as int].data),
            r.spec_raw() == old(lib)@.len(),
            r.wf_in(*final(lib)),
            self.wf_in(*final(lib)),
    {
        let nh: usize = lib.desc_copy(self.handle.raw());
        FontDescription { handle: FullHandle::acquire_full(lib, nh) }
    }

    /// The family the description names, as a fresh copy of the foreign
    /// string.
    pub fn family(&self, lib: &ForeignLib) -> (r: String)
        requires
            lib.wf(),
            self.wf_in(*lib),
        ensures
            r@ == self.family_in(*lib),
    {
        lib.desc_family(self.handle.raw())
    }

    /// Runs the foreign destructor: the one reference is given up, so the
    /// resource is freed, exactly once.
    pub fn release(self, lib: &mut ForeignLib)
        requires
            old(lib).wf(),
            self.wf_in(*old(lib)),
        ensures
            final(lib).wf(),
            final(lib)@ =~= dec_at(old(lib)@, self.spec_raw() as int),
            final(lib)@[self.spec_raw() as int].frees == 1,
    {
        self.handle.release(lib);
    }

    /// The raw handle, for passing into further foreign calls; ownership is
    /// not transferred.
    pub fn raw(&self) -> (r: usize)
        ensures
            r == self.spec_raw(),
    {
        self.handle.raw()
    }
}

} // verus!
