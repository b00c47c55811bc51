//! A font face held behind a shared-ownership foreign handle.

use crate::font_desc::FontDescription;
use crate::foreign::{alloc_at, dec_at, face_family_of, inc_at, opt_view, ForeignLib, PayloadModel};
use crate::handle::SharedHandle;
use vstd::prelude::*;

verus! {

/// A font face, held behind a shared-ownership foreign handle: the resource
/// carries its own reference count, and this wrapper holds exactly one of
/// those references.
pub struct FontFace {
    handle: SharedHandle,
}

impl FontFace {
    /// The raw foreign identifier of the wrapped resource.
    pub closed spec fn spec_raw(&self) -> usize {
        self.handle.spec_raw()
    }

    /// Live in `lib`: the wrapped resource exists and has not been freed.
    pub open spec fn live_in(&self, lib: ForeignLib) -> bool {
        self.spec_raw() < lib@.len() && lib@[self.spec_raw() as int].live()
    }

    /// Well-formed in `lib`: live, and the wrapped resource is a font face.
    pub open spec fn wf_in(&self, lib: ForeignLib) -> bool {
        self.live_in(lib) && lib@[self.spec_raw() as int].data is Face
    }

    /// Takes over one already-transferred reference to an existing face
    /// resource; the count is not touched.
    pub fn acquire_full(lib: &ForeignLib, raw: usize) -> (r: FontFace)
        requires
            lib.wf(),
            raw < lib@.len(),
            lib@[raw as int].live(),
            lib@[raw as int].data is Face,
        ensures
            r.spec_raw() == raw,
            r.wf_in(*lib),
    {
        FontFace { handle: SharedHandle::acquire_full(lib, raw) }
    }

    /// Wraps a face resource we merely received: a reference of our own is
    /// taken, so the foreign count is incremented once.
    pub fn acquire_borrowed_as_owned(lib: &mut ForeignLib, raw: usize) -> (r: FontFace)
        requires
            old(lib).wf(),
            raw < old(lib)@.len(),
            old(lib)@[raw as int].live(),
            old(lib)@[raw as int].data is Face,
            old(lib)@[raw as int].count < u32::MAX,
        ensures
            final(lib).wf(),
            final(lib)@ =~= inc_at(old(lib)@, raw as int),
            r.spec_raw() == raw,
            r.wf_in(*final(lib)),
    {
        FontFace { handle: SharedHandle::acquire_borrowed_as_owned(lib, raw) }
    }

    /// One more owner of the same resource: increments the foreign count and
    /// returns a wrapper aliasing the same handle.
    pub fn clone(&self, lib: &mut ForeignLib) -> (r: FontFace)
        requires
            old(lib).wf(),
            self.wf_in(*old(lib)),
            old(lib)@[self.spec_raw() as int].count < u32::MAX,
        ensures
            final(lib).wf(),
            final(lib)@ =~= inc_at(old(lib)@, self.spec_raw() as int),
            r.spec_raw() == self.spec_raw(),
            r.wf_in(*final(lib)),
            self.wf_in(*final(lib)),
    {
        FontFace { handle: self.handle.clone(lib) }
    }

    /// Gives up this wrapper's reference: decrements the foreign count,
    /// which frees the resource exactly when this was the last owner.
    pub fn release(self, lib: &mut ForeignLib)
        requires
            old(lib).wf(),
            self.live_in(*old(lib)),
        ensures
            final(lib).wf(),
            final(lib)@ =~= dec_at(old(lib)@, self.spec_raw() as int),
    {
        self.handle.release(lib);
    }

    /// Asks the foreign side to describe the face: a fresh description
    /// resource whose family is the face's name, fully owned by the returned
    /// wrapper; or an absent result when the foreign side produces none.
    pub fn describe(&self, lib: &mut ForeignLib) -> (r: Option<FontDescription>)
        requires
            old(lib).wf(),
            self.wf_in(*old(lib)),
        ensures
            final(lib).wf(),
            old(lib)@[self.spec_raw() as int].data->Face_describe_ok ==> (r matches Some(d)
                && d.spec_raw() == old(lib)@.len() && d.wf_in(*final(lib)) && final(lib)@
                =~= alloc_at(
                old(lib)@,
                PayloadModel::Desc {
                    family: face_family_of(old(lib)@[self.spec_raw() as int].data),
                },
            )),
            !old(lib)@[self.spec_raw() as int].data->Face_describe_ok ==> r is None
                && final(lib)@ =~= old(lib)@,
    {
        match lib.face_describe(self.handle.raw()) {
            Some(nh) => Some(FontDescription::acquire_full(lib, nh)),
            None => None,
        }
    }

    /// The face's name, as a fresh copy of the foreign string; absent when
    /// the face has none.
    pub fn get_face_name(&self, lib: &ForeignLib) -> (r: Option<String>)
        requires
            lib.wf(),
            self.wf_in(*lib),
        ensures
            opt_view(r) == lib@[self.spec_raw() as int].data->Face_name,
    {
        lib.face_name(self.handle.raw())
    }

    /// Whether the face is synthesized.
    pub fn is_synthesized(&self, lib: &ForeignLib) -> (r: bool)
        requires
            lib.wf(),
            self.wf_in(*lib),
        ensures
            r == lib@[self.spec_raw() as int].data->Face_synthesized,
    {
        lib.face_is_synthesized(self.handle.raw())
    }

    /// The raw handle, for passing into further foreign calls; ownership is
    /// not transferred.
    pub fn raw(&self) -> (r: usize)
        ensures
            r == self.spec_raw(),
    {
        self.handle.raw()
    }

    /// Identity equality: whether the two wrappers alias one foreign
    /// resource.
    pub fn same_instance(&self, other: &FontFace) -> (r: bool)
        ensures
            r == (self.spec_raw() == other.spec_raw()),
    {
        self.handle.same_instance(&other.handle)
    }
}

} // verus!
