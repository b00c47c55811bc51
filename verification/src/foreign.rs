//! An instrumented model of the foreign library: the one owner of every
//! foreign resource and of its reference count.
//!
//! Each entry point mirrors one foreign call of the real toolkit: allocating
//! a resource, incrementing or decrementing its count, and querying or
//! mutating what it holds. The library counts every free, so a scenario can
//! check that a resource is freed exactly once, never before its last
//! release, and that its count never drops below zero.

use crate::coverage::CoverageLevel;
use vstd::prelude::*;

verus! {

/// What a foreign resource holds, besides its reference count.
pub enum Payload {
    /// A coverage map: the level recorded for each glyph index, and whether
    /// the foreign copy entry point succeeds on it.
    Coverage { levels: Vec<CoverageLevel>, copy_ok: bool },
    /// A font face: its name, whether it is synthesized, and whether the
    /// foreign describe entry point produces a description for it.
    Face { name: Option<String>, synthesized: bool, describe_ok: bool },
    /// A font description: the family it names.
    Desc { family: String },
}

/// The mathematical value of a payload.
pub enum PayloadModel {
    Coverage { levels: Seq<CoverageLevel>, copy_ok: bool },
    Face { name: Option<Seq<char>>, synthesized: bool, describe_ok: bool },
    Desc { family: Seq<char> },
}

/// The mathematical value of an optional string.
pub open spec fn opt_view(s: Option<String>) -> Option<Seq<char>> {
    match s {
        Some(x) => Some(x@),
        None => None,
    }
}

impl Payload {
    pub open spec fn model(self) -> PayloadModel {
        match self {
            Payload::Coverage { levels, copy_ok } => PayloadModel::Coverage {
                levels: levels@,
                copy_ok,
            },
            Payload::Face { name, synthesized, describe_ok } => PayloadModel::Face {
                name: opt_view(name),
                synthesized,
                describe_ok,
            },
            Payload::Desc { family } => PayloadModel::Desc { family: family@ },
        }
    }
}

/// The state of one foreign resource: how many references it currently
/// holds, how many times it has been freed, and what it holds.
pub struct ResModel {
    pub count: nat,
    pub frees: nat,
    pub data: PayloadModel,
}

impl ResModel {
    /// Live: the resource has never been freed.
    pub open spec fn live(self) -> bool {
        self.frees == 0
    }

    /// The counting invariant: a resource is freed exactly when its count has
    /// returned to zero, and is freed at most once.
    pub open spec fn inv(self) -> bool {
        (self.frees == 0 && self.count >= 1) || (self.frees == 1 && self.count == 0)
    }
}

/// The foreign state after allocating a fresh resource holding `data` and
/// exactly one reference.
pub open spec fn alloc_at(s: Seq<ResModel>, data: PayloadModel) -> Seq<ResModel> {
    s.push(ResModel { count: 1, frees: 0, data })
}

/// The foreign state after one reference-count increment on `h`.
pub open spec fn inc_at(s: Seq<ResModel>, h: int) -> Seq<ResModel>
    recommends
        0 <= h < s.len(),
{
    s.update(h, (ResModel { count: s[h].count + 1, frees: s[h].frees, data: s[h].data }))
}

/// The foreign state after one reference-count decrement on `h`: the
/// resource is freed exactly when the last reference is given up.
pub open spec fn dec_at(s: Seq<ResModel>, h: int) -> Seq<ResModel>
    recommends
        0 <= h < s.len(),
        s[h].count >= 1,
{
    if s[h].count == 1 {
        s.update(h, (ResModel { count: 0, frees: s[h].frees + 1, data: s[h].data }))
    } else {
        s.update(
            h,
            (ResModel { count: (s[h].count - 1) as nat, frees: s[h].frees, data: s[h].data }),
        )
    }
}

/// The level a coverage sequence records at `index`: the neutral level for a
/// negative index or one beyond the recorded range.
pub open spec fn level_at(levels: Seq<CoverageLevel>, index: int) -> CoverageLevel {
    if 0 <= index < levels.len() {
        levels[index]
    } else {
        CoverageLevel::NotCovered
    }
}

/// A coverage sequence grown to at least `n` entries, the gap filled with the
/// neutral level.
pub open spec fn pad_levels(levels: Seq<CoverageLevel>, n: int) -> Seq<CoverageLevel> {
    Seq::new(
        if levels.len() >= n {
            levels.len()
        } else {
            n as nat
        },
        |i: int|
            if i < levels.len() {
                levels[i]
            } else {
                CoverageLevel::NotCovered
            },
    )
}

/// A coverage sequence after recording `level` at `index`; a negative index
/// records nothing.
pub open spec fn set_levels(
    levels: Seq<CoverageLevel>,
    index: int,
    level: CoverageLevel,
) -> Seq<CoverageLevel> {
    if index < 0 {
        levels
    } else {
        pad_levels(levels, index + 1).update(index, level)
    }
}

/// The better of two levels: the one whose foreign constant is the larger.
pub open spec fn level_max(a: CoverageLevel, b: CoverageLevel) -> CoverageLevel {
    if b.to_raw_spec() > a.to_raw_spec() {
        b
    } else {
        a
    }
}

/// The pointwise best of two coverage sequences, over the longer of the two.
pub open spec fn max_levels(a: Seq<CoverageLevel>, b: Seq<CoverageLevel>) -> Seq<CoverageLevel> {
    Seq::new(
        if a.len() >= b.len() {
            a.len()
        } else {
            b.len()
        },
        |i: int| level_max(level_at(a, i), level_at(b, i)),
    )
}

/// The foreign state after replacing the levels of coverage resource `h`.
pub open spec fn with_levels(s: Seq<ResModel>, h: int, levels: Seq<CoverageLevel>) -> Seq<
    ResModel,
> {
    s.update(
        h,
        (ResModel {
            count: s[h].count,
            frees: s[h].frees,
            data: PayloadModel::Coverage { levels, copy_ok: s[h].data->Coverage_copy_ok },
        }),
    )
}

/// The family a description made from a face carries: the face's name, or
/// nothing at all when the face has none.
pub open spec fn face_family_of(data: PayloadModel) -> Seq<char> {
    match data->Face_name {
        Some(n) => n,
        None => Seq::empty(),
    }
}

/// The instrumented foreign library.
pub struct ForeignLib {
    counts: Vec<u32>,
    frees: Vec<u32>,
    payloads: Vec<Payload>,
}

impl View for ForeignLib {
    type V = Seq<ResModel>;

    closed spec fn view(&self) -> Seq<ResModel> {
        Seq::new(
            self.counts@.len() as nat,
            |i: int|
                ResModel {
                    count: self.counts@[i] as nat,
                    frees: self.frees@[i] as nat,
                    data: self.payloads@[i].model(),
                },
        )
    }
}

impl ForeignLib {
    /// The bookkeeping rows line up: one count, one free tally and one
    /// payload per resource.
    pub closed spec fn aligned(&self) -> bool {
        self.counts@.len() == self.frees@.len() && self.counts@.len() == self.payloads@.len()
    }

    /// Well-formed: every resource satisfies its counting invariant.
    pub open spec fn wf(&self) -> bool {
        self.aligned() && forall|i: int| 0 <= i < self@.len() ==> #[trigger] self@[i].inv()
    }

    /// A fresh foreign library owning no resources.
    pub fn new() -> (r: ForeignLib)
        ensures
            r.wf(),
            r@ =~= Seq::<ResModel>::empty(),
    {
        ForeignLib { counts: Vec::new(), frees: Vec::new(), payloads: Vec::new() }
    }

    /// How many resources have ever been allocated; freed ones keep their
    /// slot.
    pub fn len(&self) -> (r: usize)
        requires
            self.wf(),
        ensures
            r == self@.len(),
    {
        self.counts.len()
    }

    /// The current foreign reference count of `h`.
    pub fn count_of(&self, h: usize) -> (r: u32)
        requires
            self.wf(),
            h < self@.len(),
        ensures
            r as nat == self@[h as int].count,
    {
        self.counts[h]
    }

    /// How many times `h` has been freed.
    pub fn free_count_of(&self, h: usize) -> (r: u32)
        requires
            self.wf(),
            h < self@.len(),
        ensures
            r as nat == self@[h as int].frees,
    {
        self.frees[h]
    }

    /// Whether `h` has been freed.
    pub fn is_freed(&self, h: usize) -> (r: bool)
        requires
            self.wf(),
            h < self@.len(),
        ensures
            r == !self@[h as int].live(),
    {
        self.frees[h] != 0
    }

    /// The foreign increment entry point: one more reference to `h`.
    pub fn ref_inc(&mut self, h: usize)
        requires
            old(self).wf(),
            h < old(self)@.len(),
            old(self)@[h as int].live(),
            old(self)@[h as int].count < u32::MAX,
        ensures
            final(self).wf(),
            final(self)@ =~= inc_at(old(self)@, h as int),
    {
        let c: u32 = self.counts[h];
        self.counts.set(h, c + 1);
        proof {
            assert(self@ =~= inc_at(old(self)@, h as int));
        }
    }

    /// The foreign decrement entry point: gives up one reference to `h`, and
    /// frees the resource exactly when the last reference is given up.
    pub fn unref(&mut self, h: usize)
        requires
            old(self).wf(),
            h < old(self)@.len(),
            old(self)@[h as int].live(),
        ensures
            final(self).wf(),
            final(self)@ =~= dec_at(old(self)@, h as int),
    {
        proof {
            assert(old(self)@[h as int].inv());
        }
        let c: u32 = self.counts[h];
        self.counts.set(h, c - 1);
        if c == 1 {
            let f: u32 = self.frees[h];
            self.frees.set(h, f + 1);
        }
        proof {
            assert(self@ =~= dec_at(old(self)@, h as int));
        }
    }

    /// The foreign constructor of a coverage resource. The fresh resource
    /// records no levels and holds exactly one reference — the caller's.
    /// `copy_ok` configures whether the foreign copy entry point succeeds on
    /// it.
    pub fn new_coverage(&mut self, copy_ok: bool) -> (h: usize)
        requires
            old(self).wf(),
        ensures
            final(self).wf(),
            h == old(self)@.len(),
            final(self)@ =~= alloc_at(
                old(self)@,
                PayloadModel::Coverage { levels: Seq::empty(), copy_ok },
            ),
    {
        let h: usize = self.counts.len();
        self.counts.push(1);
        self.frees.push(0);
        self.payloads.push(Payload::Coverage { levels: Vec::new(), copy_ok });
        proof {
            assert(self@ =~= alloc_at(
                old(self)@,
                PayloadModel::Coverage { levels: Seq::empty(), copy_ok },
            ));
        }
        h
    }

    /// The foreign constructor of a font face resource, holding exactly one
    /// reference. `describe_ok` configures whether the foreign describe entry
    /// point produces a description for it.
    pub fn new_face(&mut self, name: Option<String>, synthesized: bool, describe_ok: bool) -> (h:
        usize)
        requires
            old(self).wf(),
        ensures
            final(self).wf(),
            h == old(self)@.len(),
            final(self)@ =~= alloc_at(
                old(self)@,
                PayloadModel::Face { name: opt_view(name), synthesized, describe_ok },
            ),
    {
        let h: usize = self.counts.len();
        let ghost nm = opt_view(name);
        self.counts.push(1);
        self.frees.push(0);
        self.payloads.push(Payload::Face { name, synthesized, describe_ok });
        proof {
            assert(self@ =~= alloc_at(
                old(self)@,
                PayloadModel::Face { name: nm, synthesized, describe_ok },
            ));
        }
        h
    }

    /// The foreign constructor of a font description resource, holding
    /// exactly one reference.
    pub fn new_desc(&mut self, family: String) -> (h: usize)
        requires
            old(self).wf(),
        ensures
            final(self).wf(),
            h == old(self)@.len(),
            final(self)@ =~= alloc_at(old(self)@, PayloadModel::Desc { family: family@ }),
    {
        let h: usize = self.counts.len();
        let ghost fam = family@;
        self.counts.push(1);
        self.frees.push(0);
        self.payloads.push(Payload::Desc { family });
        proof {
            assert(self@ =~= alloc_at(old(self)@, PayloadModel::Desc { family: fam }));
        }
        h
    }

    /// The foreign query of a coverage resource: the level recorded at
    /// `index`.
    pub fn coverage_get(&self, h: usize, index: i32) -> (r: CoverageLevel)
        requires
            self.wf(),
            h < self@.len(),
            self@[h as int].live(),
            self@[h as int].data is Coverage,
        ensures
            r == level_at(self@[h as int].data->Coverage_levels, index as int),
    {
        match &self.payloads[h] {
            Payload::Coverage { levels, .. } => {
                if index >= 0 && (index as usize) < levels.len() {
                    levels[index as usize]
                } else {
                    CoverageLevel::NotCovered
                }
            },
            _ => {
                proof {
                    assert(false);
                }
                CoverageLevel::NotCovered
            },
        }
    }

    /// The foreign mutator of a coverage resource: records `level` at
    /// `index`, growing the recorded range as needed; a negative index
    /// records nothing.
    pub fn coverage_set(&mut self, h: usize, index: i32, level: CoverageLevel)
        requires
            old(self).wf(),
            h < old(self)@.len(),
            old(self)@[h as int].live(),
            old(self)@[h as int].data is Coverage,
        ensures
            final(self).wf(),
            final(self)@ =~= with_levels(
                old(self)@,
                h as int,
                set_levels(old(self)@[h as int].data->Coverage_levels, index as int, level),
            ),
    {
        let ghost orig = old(self)@[h as int].data->Coverage_levels;
        if index < 0 {
            proof {
                assert(self@ =~= with_levels(
                    old(self)@,
                    h as int,
                    set_levels(orig, index as int, level),
                ));
            }
            return ;
        }
        let idx: usize = index as usize;
        let extracted: (Vec<CoverageLevel>, bool) = match &self.payloads[h] {
            Payload::Coverage { levels, copy_ok } => (copy_levels(levels), *copy_ok),
            _ => {
                proof {
                    assert(false);
                }
                (Vec::new(), false)
            },
        };
        let (mut levels, copy_ok): (Vec<CoverageLevel>, bool) = extracted;
        proof {
            assert(levels@ =~= pad_levels(orig, levels@.len() as int));
        }
        while levels.len() <= idx
            invariant
                levels@ =~= pad_levels(orig, levels@.len() as int),
                levels@.len() >= orig.len(),
                levels@.len() <= idx + 1 || levels@.len() == orig.len(),
            decreases idx + 1 - levels.len(),
        {
            levels.push(CoverageLevel::NotCovered);
            proof {
                assert(levels@ =~= pad_levels(orig, levels@.len() as int));
            }
        }
        proof {
            assert(pad_levels(orig, levels@.len() as int) =~= pad_levels(orig, idx + 1));
        }
        levels.set(idx, level);
        self.payloads.set(h, Payload::Coverage { levels, copy_ok });
        proof {
            assert(self@ =~= with_levels(
                old(self)@,
                h as int,
                set_levels(orig, index as int, level),
            ));
        }
        proof {
            assert forall|i: int| 0 <= i < self@.len() implies self@[i].inv() by {
                assert(old(self)@[i].inv());
            }
        }
    }

    /// The foreign combine entry point: records in `h`, at every index, the
    /// better of the levels recorded by `h` and by `other`.
    pub fn coverage_max(&mut self, h: usize, other: usize)
        requires
            old(self).wf(),
            h < old(self)@.len(),
            other < old(self)@.len(),
            old(self)@[h as int].live(),
            old(self)@[other as int].live(),
            old(self)@[h as int].data is Coverage,
            old(self)@[other as int].data is Coverage,
        ensures
            final(self).wf(),
            final(self)@ =~= with_levels(
                old(self)@,
                h as int,
                max_levels(
                    old(self)@[h as int].data->Coverage_levels,
                    old(self)@[other as int].data->Coverage_levels,
                ),
            ),
    {
        let extracted: (Vec<CoverageLevel>, bool) = match &self.payloads[h] {
            Payload::Coverage { levels, copy_ok } => (copy_levels(levels), *copy_ok),
            _ => {
                proof {
                    assert(false);
                }
                (Vec::new(), false)
            },
        };
        let (a, copy_ok): (Vec<CoverageLevel>, bool) = extracted;
        let b: Vec<CoverageLevel> = match &self.payloads[other] {
            Payload::Coverage { levels, .. } => copy_levels(levels),
            _ => {
                proof {
                    assert(false);
                }
                Vec::new()
            },
        };
        let n: usize = if a.len() >= b.len() {
            a.len()
        } else {
            b.len()
        };
        let mut out: Vec<CoverageLevel> = Vec::new();
        let mut i: usize = 0;
        while i < n
            invariant
                i <= n,
                n as nat == max_levels(a@, b@).len(),
                out@.len() == i,
                forall|j: int| 0 <= j < i ==> out@[j] == level_max(level_at(a@, j), level_at(b@, j)),
            decreases n - i,
        {
            let la: CoverageLevel = if i < a.len() {
                a[i]
            } else {
                CoverageLevel::NotCovered
            };
            let lb: CoverageLevel = if i < b.len() {
                b[i]
            } else {
                CoverageLevel::NotCovered
            };
            let m: CoverageLevel = if lb.to_raw() > la.to_raw() {
                lb
            } else {
                la
            };
            out.push(m);
            i = i + 1;
        }
        proof {
            assert(out@ =~= max_levels(a@, b@));
        }
        self.payloads.set(h, Payload::Coverage { levels: out, copy_ok });
        proof {
            assert(self@ =~= with_levels(
                old(self)@,
                h as int,
                max_levels(
                    old(self)@[h as int].data->Coverage_levels,
                    old(self)@[other as int].data->Coverage_levels,
                ),
            ));
        }
        proof {
            assert forall|i: int| 0 <= i < self@.len() implies self@[i].inv() by {
                assert(old(self)@[i].inv());
            }
        }
    }

    /// The foreign copy entry point of a coverage resource: a fresh,
    /// independent resource with the same recorded levels, holding one
    /// reference; or nothing when the resource was configured to refuse
    /// copies.
    pub fn coverage_copy(&mut self, h: usize) -> (r: Option<usize>)
        requires
            old(self).wf(),
            h < old(self)@.len(),
            old(self)@[h as int].live(),
            old(self)@[h as int].data is Coverage,
        ensures
            final(self).wf(),
            old(self)@[h as int].data->Coverage_copy_ok ==> (r matches Some(nh) && nh == old(
                self,
            )@.len() && final(self)@ =~= alloc_at(old(self)@, old(self)@[h as int].data)),
            !old(self)@[h as int].data->Coverage_copy_ok ==> r is None && final(self)@ =~= old(
                self,
            )@,
    {
        let extracted: (Vec<CoverageLevel>, bool) = match &self.payloads[h] {
            Payload::Coverage { levels, copy_ok } => (copy_levels(levels), *copy_ok),
            _ => {
                proof {
                    assert(false);
                }
                (Vec::new(), false)
            },
        };
        let (cp, copy_ok): (Vec<CoverageLevel>, bool) = extracted;
        if !copy_ok {
            return None;
        }
        let nh: usize = self.counts.len();
        self.counts.push(1);
        self.frees.push(0);
        self.payloads.push(Payload::Coverage { levels: cp, copy_ok });
        proof {
            assert(self@ =~= alloc_at(old(self)@, old(self)@[h as int].data));
        }
        Some(nh)
    }

    /// The foreign query of a face's name; the result is a fresh copy of the
    /// foreign string, or nothing when the face has no name.
    pub fn face_name(&self, h: usize) -> (r: Option<String>)
        requires
            self.wf(),
            h < self@.len(),
            self@[h as int].live(),
            self@[h as int].data is Face,
        ensures
            opt_view(r) == self@[h as int].data->Face_name,
    {
        match &self.payloads[h] {
            Payload::Face { name, .. } => match name {
                Some(s) => Some(s.clone()),
                None => None,
            },
            _ => {
                proof {
                    assert(false);
                }
                None
            },
        }
    }

    /// The foreign query of whether a face is synthesized.
    pub fn face_is_synthesized(&self, h: usize) -> (r: bool)
        requires
            self.wf(),
            h < self@.len(),
            self@[h as int].live(),
            self@[h as int].data is Face,
        ensures
            r == self@[h as int].data->Face_synthesized,
    {
        match &self.payloads[h] {
            Payload::Face { synthesized, .. } => *synthesized,
            _ => {
                proof {
                    assert(false);
                }
                false
            },
        }
    }

    /// The foreign describe entry point: a fresh description resource whose
    /// family is the face's name, holding one reference; or nothing when the
    /// face was configured to produce no description.
    pub fn face_describe(&mut self, h: usize) -> (r: Option<usize>)
        requires
            old(self).wf(),
            h < old(self)@.len(),
            old(self)@[h as int].live(),
            old(self)@[h as int].data is Face,
        ensures
            final(self).wf(),
            old(self)@[h as int].data->Face_describe_ok ==> (r matches Some(nh) && nh == old(
                self,
            )@.len() && final(self)@ =~= alloc_at(
                old(self)@,
                PayloadModel::Desc { family: face_family_of(old(self)@[h as int].data) },
            )),
            !old(self)@[h as int].data->Face_describe_ok ==> r is None && final(self)@ =~= old(
                self,
            )@,
    {
        let extracted: (String, bool) = match &self.payloads[h] {
            Payload::Face { name, describe_ok, .. } => (
                match name {
                    Some(s) => s.clone(),
                    None => String::new(),
                },
                *describe_ok,
            ),
            _ => {
                proof {
                    assert(false);
                }
                (String::new(), false)
            },
        };
        let (family, describe_ok): (String, bool) = extracted;
        if !describe_ok {
            return None;
        }
        let nh: usize = self.counts.len();
        self.counts.push(1);
        self.frees.push(0);
        self.payloads.push(Payload::Desc { family });
        proof {
            assert(self@ =~= alloc_at(
                old(self)@,
                PayloadModel::Desc { family: face_family_of(old(self)@[h as int].data) },
            ));
        }
        Some(nh)
    }

    /// The foreign query of a description's family; the result is a fresh
    /// copy of the foreign string.
    pub fn desc_family(&self, h: usize) -> (r: String)
        requires
            self.wf(),
            h < self@.len(),
            self@[h as int].live(),
            self@[h as int].data is Desc,
        ensures
            r@ == self@[h as int].data->Desc_family,
    {
        match &self.payloads[h] {
            Payload::Desc { family } => family.clone(),
            _ => {
                proof {
                    assert(false);
                }
                String::new()
            },
        }
    }

    /// The foreign copy entry point of a description: a fresh, independent
    /// resource with the same family, holding one reference.
    pub fn desc_copy(&mut self, h: usize) -> (nh: usize)
        requires
            old(self).wf(),
            h < old(self)@.len(),
            old(self)@[h as int].live(),
            old(self)@[h as int].data is Desc,
        ensures
            final(self).wf(),
            nh == old(self)@.len(),
            final(self)@ =~= alloc_at(old(self)@, old(self)@[h as int].data),
    {
        let family: String = match &self.payloads[h] {
            Payload::Desc { family } => family.clone(),
            _ => {
                proof {
                    assert(false);
                }
                String::new()
            },
        };
        let nh: usize = self.counts.len();
        self.counts.push(1);
        self.frees.push(0);
        self.payloads.push(Payload::Desc { family });
        proof {
            assert(self@ =~= alloc_at(old(self)@, old(self)@[h as int].data));
        }
        nh
    }
}

/// A fresh copy of a level vector.
fn copy_levels(v: &Vec<CoverageLevel>) -> (r: Vec<CoverageLevel>)
    ensures
        r@ =~= v@,
{
    let mut r: Vec<CoverageLevel> = Vec::new();
    let mut i: usize = 0;
    while i < v.len()
        invariant
            i <= v@.len(),
            r@.len() == i,
            forall|j: int| 0 <= j < i ==> r@[j] == v@[j],
        decreases v@.len() - i,
    {
        r.push(v[i]);
        i = i + 1;
    }
    r
}

} // verus!
