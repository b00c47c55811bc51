//! A coverage map held behind a shared-ownership foreign handle.

use crate::foreign::{
    alloc_at, dec_at, inc_at, level_at, max_levels, set_levels, with_levels, ForeignLib,
    PayloadModel,
};
use crate::handle::SharedHandle;
use vstd::prelude::*;

verus! {

/// How well a font covers a character.
#[derive(Clone, Copy, PartialEq, Eq, Structural, Debug)]
pub enum CoverageLevel {
    /// The character is not representable with the font.
    NotCovered,
    /// The character is represented by a fallback glyph.
    Fallback,
    /// The character is represented only approximately.
    Approximate,
    /// The character is represented exactly.
    Exact,
}

impl CoverageLevel {
    /// The foreign integer constant this tag stands for.
    pub open spec fn to_raw_spec(self) -> i32 {
        match self {
            CoverageLevel::NotCovered => 0,
            CoverageLevel::Fallback => 1,
            CoverageLevel::Approximate => 2,
            CoverageLevel::Exact => 3,
        }
    }

    /// The tag a foreign integer stands for, if any.
    pub open spec fn from_raw_spec(raw: i32) -> Option<CoverageLevel> {
        if raw == 0 {
            Some(CoverageLevel::NotCovered)
        } else if raw == 1 {
            Some(CoverageLevel::Fallback)
        } else if raw == 2 {
            Some(CoverageLevel::Approximate)
        } else if raw == 3 {
            Some(CoverageLevel::Exact)
        } else {
            None
        }
    }

    pub fn to_raw(self) -> (r: i32)
        ensures
            r == self.to_raw_spec(),
    {
        match self {
            CoverageLevel::NotCovered => 0,
            CoverageLevel::Fallback => 1,
            CoverageLevel::Approximate => 2,
            CoverageLevel::Exact => 3,
        }
    }

    pub fn from_raw(raw: i32) -> (r: Option<CoverageLevel>)
        ensures
            r == Self::from_raw_spec(raw),
    {
        if raw == 0 {
            Some(CoverageLevel::NotCovered)
        } else if raw == 1 {
            Some(CoverageLevel::Fallback)
        } else if raw == 2 {
            Some(CoverageLevel::Approximate)
        } else if raw == 3 {
            Some(CoverageLevel::Exact)
        } else {
            None
        }
    }

    /// Round-trip law: converting a tag to its foreign integer and back
    /// yields the original tag.
    pub proof fn lemma_round_trip(self)
        ensures
            Self::from_raw_spec(self.to_raw_spec()) == Some(self),
    {
    }

    /// Reverse round-trip law: a foreign integer that reads back as a tag is
    /// exactly that tag's foreign integer.
    pub proof fn lemma_raw_round_trip(raw: i32)
        ensures
            Self::from_raw_spec(raw) matches Some(t) ==> t.to_raw_spec() == raw,
    {
    }
}


/// A map from glyph indices to coverage levels, held behind a
/// shared-ownership foreign handle: the resource carries its own reference
/// count, and this wrapper holds exactly one of those references.
pub struct Coverage {
    handle: SharedHandle,
}

impl Coverage {
    /// The raw foreign identifier of the wrapped resource.
    pub closed spec fn spec_raw(&self) -> usize {
        self.handle.spec_raw()
    }

    /// Live in `lib`: the wrapped resource exists and has not been freed.
    pub open spec fn live_in(&self, lib: ForeignLib) -> bool {
        self.spec_raw() < lib@.len() && lib@[self.spec_raw() as int].live()
    }

    /// Well-formed in `lib`: live, and the wrapped resource is a coverage
    /// map.
    pub open spec fn wf_in(&self, lib: ForeignLib) -> bool {
        self.live_in(lib) && lib@[self.spec_raw() as int].data is Coverage
    }

    /// The levels the wrapped resource records in `lib`.
    pub open spec fn levels_in(&self, lib: ForeignLib) -> Seq<CoverageLevel> {
        lib@[self.spec_raw() as int].data->Coverage_levels
    }

    /// Calls the foreign constructor and takes ownership of the fresh
    /// resource, which records no levels and holds exactly one reference.
    /// The foreign call cannot fail in this model, so the result is always
    /// present.
    pub fn new(lib: &mut ForeignLib) -> (r: Option<Coverage>)
        requires
            old(lib).wf(),
        ensures
            final(lib).wf(),
            final(lib)@ =~= alloc_at(
                old(lib)@,
                PayloadModel::Coverage { levels: Seq::empty(), copy_ok: true },
            ),
            r matches Some(c) && c.spec_raw() == old(lib)@.len() && c.wf_in(*final(lib)),
    {
        let h: usize = lib.new_coverage(true);
        Some(Coverage { handle: SharedHandle::acquire_full(lib, h) })
    }

    /// Takes over one already-transferred reference to an existing coverage
    /// resource; the count is not touched.
    pub fn acquire_full(lib: &ForeignLib, raw: usize) -> (r: Coverage)
        requires
            lib.wf(),
            raw < lib@.len(),
            lib@[raw as int].live(),
            lib@[raw as int].data is Coverage,
        ensures
            r.spec_raw() == raw,
            r.wf_in(*lib),
    {
        Coverage { handle: SharedHandle::acquire_full(lib, raw) }
    }

    /// Wraps a coverage resource we merely received: a reference of our own
    /// is taken, so the foreign count is incremented once.
    pub fn acquire_borrowed_as_owned(lib: &mut ForeignLib, raw: usize) -> (r: Coverage)
        requires
            old(lib).wf(),
            raw < old(lib)@.len(),
            old(lib)@[raw as int].live(),
            old(lib)@[raw as int].data is Coverage,
            old(lib)@[raw as int].count < u32::MAX,
        ensures
            final(lib).wf(),
            final(lib)@ =~= inc_at(old(lib)@, raw as int),
            r.spec_raw() == raw,
            r.wf_in(*final(lib)),
    {
        Coverage { handle: SharedHandle::acquire_borrowed_as_owned(lib, raw) }
    }

    /// One more owner of the same resource: increments the foreign count and
    /// returns a wrapper aliasing the same handle.
    pub fn clone(&self, lib: &mut ForeignLib) -> (r: Coverage)
        requires
            old(lib).wf(),
            self.wf_in(*old(lib)),
            old(lib)@[self.spec_raw() as int].count < u32::MAX,
        ensures
            final(lib).wf(),
            final(lib)@ =~= inc_at(old(lib)@, self.spec_raw() as int),
            r.spec_raw() == self.spec_raw(),
            r.wf_in(*final(lib)),
            self.wf_in(*final(lib)),
    {
        Coverage { handle: self.handle.clone(lib) }
    }

    /// Gives up this wrapper's reference: decrements the foreign count,
    /// which frees the resource exactly when this was the last owner.
    pub fn release(self, lib: &mut ForeignLib)
        requires
            old(lib).wf(),
            self.live_in(*old(lib)),
        ensures
            final(lib).wf(),
            final(lib)@ =~= dec_at(old(lib)@, self.spec_raw() as int),
    {
        self.handle.release(lib);
    }

    /// The foreign deep copy: a fresh, independent resource with the same
    /// recorded levels, owned by the returned wrapper; or nothing when the
    /// foreign side reports failure.
    pub fn copy(&self, lib: &mut ForeignLib) -> (r: Option<Coverage>)
        requires
            old(lib).wf(),
            self.wf_in(*old(lib)),
        ensures
            final(lib).wf(),
            old(lib)@[self.spec_raw() as int].data->Coverage_copy_ok ==> (r matches Some(c)
                && c.spec_raw() == old(lib)@.len() && c.wf_in(*final(lib)) && final(lib)@
                =~= alloc_at(old(lib)@, old(lib)@[self.spec_raw() as int].data)),
            !old(lib)@[self.spec_raw() as int].data->Coverage_copy_ok ==> r is None
                && final(lib)@ =~= old(lib)@,
    {
        match lib.coverage_copy(self.handle.raw()) {
            Some(nh) => Some(Coverage { handle: SharedHandle::acquire_full(lib, nh) }),
            None => None,
        }
    }

    /// The level recorded at `index_`: the neutral level for a negative
    /// index or one beyond the recorded range.
    pub fn get(&self, lib: &ForeignLib, index_: i32) -> (r: CoverageLevel)
        requires
            lib.wf(),
            self.wf_in(*lib),
        ensures
            r == level_at(self.levels_in(*lib), index_ as int),
    {
        lib.coverage_get(self.handle.raw(), index_)
    }

    /// Records `level` at `index_`, growing the recorded range as needed; a
    /// negative index records nothing. Only the wrapped resource's levels
    /// change.
    pub fn set(&self, lib: &mut ForeignLib, index_: i32, level: CoverageLevel)
        requires
            old(lib).wf(),
            self.wf_in(*old(lib)),
        ensures
            final(lib).wf(),
            final(lib)@ =~= with_levels(
                old(lib)@,
                self.spec_raw() as int,
                set_levels(self.levels_in(*old(lib)), index_ as int, level),
            ),
    {
        lib.coverage_set(self.handle.raw(), index_, level);
    }

    /// Records in this resource, at every index, the better of its own level
    /// and `other`'s.
    pub fn max(&self, lib: &mut ForeignLib, other: &Coverage)
        requires
            old(lib).wf(),
            self.wf_in(*old(lib)),
            other.wf_in(*old(lib)),
        ensures
            final(lib).wf(),
            final(lib)@ =~= with_levels(
                old(lib)@,
                self.spec_raw() as int,
                max_levels(self.levels_in(*old(lib)), other.levels_in(*old(lib))),
            ),
    {
        lib.coverage_max(self.handle.raw(), other.handle.raw());
    }

    /// The raw handle, for passing into further foreign calls; ownership is
    /// not transferred.
    pub fn raw(&self) -> (r: usize)
        ensures
            r == self.spec_raw(),
    {
        self.handle.raw()
    }

    /// Identity equality: whether the two wrappers alias one foreign
    /// resource. No recorded levels are compared.
    pub fn same_instance(&self, other: &Coverage) -> (r: bool)
        ensures
            r == (self.spec_raw() == other.spec_raw()),
    {
        self.handle.same_instance(&other.handle)
    }
}

} // verus!
