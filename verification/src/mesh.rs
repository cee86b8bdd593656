//! Mesh partition requests and the dual-graph output handle.
//!
//! A [`Mesh`] mirrors [`crate::Graph`] for element-node meshes: the offsets
//! array `eptr` and items array `eind` list the nodes composing each
//! element, the node count is derived from the items rather than supplied,
//! and the terminal methods prepare either a dual-graph or a nodal-graph
//! solve.  A [`Dual`] holds the adjacency arrays of the dual graph that the
//! foreign conversion routine computes.

use vstd::prelude::*;

use crate::graph::offsets_sorted;
use crate::option::all_unset;
use crate::option::unset_options;
use crate::option::Numbering;
use crate::option::Opt;
use crate::Idx;
use crate::NewError;
use crate::NewErrorKind;
use crate::NOPTIONS;

verus! {

/// The last element of an offsets sequence, or zero for the empty sequence,
/// matching a scan that starts from a previous value of zero.
pub open spec fn last_or_zero(s: Seq<Idx>) -> Idx {
    if s.len() == 0 {
        0
    } else {
        s.last()
    }
}

/// The largest node index occurring in the items sequence, at least zero,
/// matching a scan that starts from a running maximum of zero.
pub open spec fn max_node(eind: Seq<Idx>) -> int
    decreases eind.len(),
{
    if eind.len() == 0 {
        0
    } else {
        let m = max_node(eind.drop_last());
        if eind.last() > m {
            eind.last() as int
        } else {
            m
        }
    }
}

/// The outcome of structural validation of a mesh, with the checks in the
/// order they run: offsets sortedness, offsets versus items length, items
/// non-negative.  On success the derived node count, the largest node index
/// plus one, is returned.
///
/// Unlike a graph, a mesh has no upper a-priori bound on its node indices,
/// so no adjacency-bounds check runs.
pub open spec fn mesh_check(eptr: Seq<Idx>, eind: Seq<Idx>) -> core::result::Result<int, NewErrorKind> {
    if !offsets_sorted(eptr) {
        Err(NewErrorKind::XadjIsNotSorted)
    } else if last_or_zero(eptr) != eind.len() {
        Err(NewErrorKind::BadAdjncyLength)
    } else if !(forall|i: int| 0 <= i < eind.len() ==> 0 <= #[trigger] eind[i]) {
        Err(NewErrorKind::AdjncyOutOfBounds)
    } else {
        Ok(max_node(eind) + 1)
    }
}

/// Check the given mesh structure for any construct that might make the
/// solver corrupt memory, and derive the number of nodes in the mesh.
///
/// Every node index must leave the derived count representable in an
/// [`Idx`]; that is a machine limit, demanded here as a precondition.
#[verifier::loop_isolation(false)]
pub fn check_mesh_structure(eptr: &Vec<Idx>, eind: &Vec<Idx>) -> (r: core::result::Result<Idx, NewError>)
    requires
        forall|i: int| 0 <= i < eind@.len() ==> #[trigger] eind@[i] < i32::MAX,
    ensures
        match r {
            Ok(nn) => mesh_check(eptr@, eind@) == core::result::Result::<int, NewErrorKind>::Ok(nn as int),
            Err(e) => mesh_check(eptr@, eind@) == core::result::Result::<int, NewErrorKind>::Err(e.kind),
        },
{
    let mut prev: Idx = 0;
    let mut j: usize = 0;
    while j < eptr.len()
        invariant
            j <= eptr@.len(),
            prev == if j == 0 { 0i32 } else { eptr@[j - 1] },
            0 <= prev,
            j > 0 ==> 0 <= eptr@[0],
            forall|i: int| 0 < i < j ==> eptr@[i - 1] <= #[trigger] eptr@[i],
        decreases eptr@.len() - j,
    {
        let x = eptr[j];
        if prev > x {
            proof {
                if j == 0 {
                    assert(eptr@[0] < 0);
                } else {
                    assert(eptr@[j - 1] > eptr@[j as int]);
                }
            }
            return Err(NewError { kind: NewErrorKind::XadjIsNotSorted });
        }
        prev = x;
        j += 1;
    }
    assert(offsets_sorted(eptr@));
    assert(prev == last_or_zero(eptr@));

    if prev as usize != eind.len() {
        return Err(NewError { kind: NewErrorKind::BadAdjncyLength });
    }

    let mut max: Idx = 0;
    let mut k: usize = 0;
    while k < eind.len()
        invariant
            k <= eind@.len(),
            forall|i: int| 0 <= i < k ==> 0 <= #[trigger] eind@[i],
            max == max_node(eind@.take(k as int)),
            0 <= max < i32::MAX,
        decreases eind@.len() - k,
    {
        let a = eind[k];
        if a < 0 {
            return Err(NewError { kind: NewErrorKind::AdjncyOutOfBounds });
        }
        proof {
            assert(eind@.take(k + 1).drop_last() =~= eind@.take(k as int));
            assert(eind@.take(k + 1).last() == eind@[k as int]);
        }
        if a > max {
            max = a;
        }
        k += 1;
    }
    proof {
        assert(eind@.take(eind@.len() as int) =~= eind@);
    }

    Ok(max + 1)
}

/// Builder structure to set up a mesh partition computation.
///
/// This structure holds the required arguments for the solver to compute a
/// partition.  It also offers methods to easily set any optional argument.
/// Usage is fairly similar to [`crate::Graph`]; refer to its documentation
/// for details.
#[derive(Debug, PartialEq)]
pub struct Mesh {
    /// The number of nodes in the mesh.
    pub nn: Idx,

    /// The number of parts to partition the mesh.
    pub nparts: Idx,

    /// The number of nodes two elements must share for an edge to appear in
    /// the dual graph.
    pub ncommon: Idx,

    /// The mesh representation (part 1): the offsets array; element `i` is
    /// composed of the nodes `eind[eptr[i]..eptr[i + 1]]`.
    pub eptr: Vec<Idx>,

    /// The mesh representation (part 2): the items array.
    ///
    /// Required size: `eptr.last()`.
    pub eind: Vec<Idx>,

    /// The computational weights of the elements.
    ///
    /// Required size: `eptr.len() - 1`.
    pub vwgt: Option<Vec<Idx>>,

    /// The communication weights of the elements.
    ///
    /// Required size: `eptr.len() - 1`.
    pub vsize: Option<Vec<Idx>>,

    /// The target partition weight for each part, each held as the bit
    /// pattern of the solver's real type.
    ///
    /// This layer never interprets the values, only their count.  If `None`
    /// then the mesh is equally divided among the partitions.
    ///
    /// Required size: `nparts`.
    pub tpwgts: Option<Vec<u32>>,

    /// Fine-tuning parameters.
    ///
    /// Required size: [`NOPTIONS`].
    pub options: Vec<Idx>,
}

impl Mesh {
    /// The number of elements the request describes: one less than the
    /// length of the offsets array.
    pub open spec fn nelems_spec(self) -> int {
        self.eptr@.len() - 1
    }

    /// The shape facts every request must satisfy before pointer and length
    /// arguments for the solver can be formed.
    pub open spec fn wf(self) -> bool {
        &&& 0 < self.nn
        &&& 0 < self.nparts
        &&& 1 <= self.eptr@.len() <= i32::MAX
        &&& self.eptr@.last() == self.eind@.len()
        &&& self.options@.len() == NOPTIONS
        &&& (self.vwgt matches Some(w) ==> w@.len() == self.nelems_spec())
        &&& (self.vsize matches Some(w) ==> w@.len() == self.nelems_spec())
        &&& (self.tpwgts matches Some(w) ==> w@.len() == self.nparts)
    }

    /// A request exactly as the constructors return it: the given counts and
    /// arrays, the shared-node threshold at its default of one, no optional
    /// attribute arrays, and every option unset.
    pub open spec fn is_fresh(self, nn: Idx, nparts: Idx, eptr: Seq<Idx>, eind: Seq<Idx>) -> bool {
        &&& self.nn == nn
        &&& self.nparts == nparts
        &&& self.ncommon == 1
        &&& self.eptr@ == eptr
        &&& self.eind@ == eind
        &&& self.vwgt is None
        &&& self.vsize is None
        &&& self.tpwgts is None
        &&& all_unset(self.options@)
    }

    /// Relates a request before a terminal method to the request after it:
    /// everything is kept except that the numbering option is forced to the
    /// zero-based convention, since all validated inputs are zero-based.
    pub open spec fn prepared_from(self, from: Mesh) -> bool {
        &&& self.nn == from.nn
        &&& self.nparts == from.nparts
        &&& self.ncommon == from.ncommon
        &&& self.eptr == from.eptr
        &&& self.eind == from.eind
        &&& self.vwgt == from.vwgt
        &&& self.vsize == from.vsize
        &&& self.tpwgts == from.tpwgts
        &&& self.options@ == from.options@.update(<Numbering as Opt>::spec_index(), 0i32)
    }

    /// Creates a new [`Mesh`] object to be partitioned, validating the
    /// element-node structure first and deriving the node count from it.
    ///
    /// `nparts` is the number of parts wanted in the mesh partition.
    /// Construction succeeds exactly when `nparts` is strictly positive and
    /// the structural checks of [`mesh_check`] pass; otherwise the error
    /// names the first check that failed.  No foreign code runs here.
    ///
    /// The offsets array must be non-empty and of a length an [`Idx`] can
    /// count, and every node index must leave the derived node count
    /// representable in an [`Idx`]; those are machine limits, demanded as
    /// preconditions.
    pub fn new(nparts: Idx, eptr: Vec<Idx>, eind: Vec<Idx>) -> (r: core::result::Result<Mesh, NewError>)
        requires
            1 <= eptr@.len() <= i32::MAX,
            forall|i: int| 0 <= i < eind@.len() ==> #[trigger] eind@[i] < i32::MAX,
        ensures
            match r {
                Ok(m) => {
                    &&& 0 < nparts
                    &&& mesh_check(eptr@, eind@) == core::result::Result::<int, NewErrorKind>::Ok(m.nn as int)
                    &&& m.is_fresh(m.nn, nparts, eptr@, eind@)
                    &&& m.wf()
                },
                Err(e) => {
                    if nparts <= 0 {
                        e.kind == NewErrorKind::InvalidNumberOfParts
                    } else {
                        mesh_check(eptr@, eind@) == core::result::Result::<int, NewErrorKind>::Err(e.kind)
                    }
                },
            },
    {
        if nparts <= 0 {
            return Err(NewError { kind: NewErrorKind::InvalidNumberOfParts });
        }
        let nn = match check_mesh_structure(&eptr, &eind) {
            Ok(nn) => nn,
            Err(e) => {
                return Err(e);
            },
        };
        Ok(Mesh::new_unchecked(nn, nparts, eptr, eind))
    }

    /// Creates a new [`Mesh`] object to be partitioned, skipping the full
    /// structural validation.
    ///
    /// - `nn` is the number of nodes in the mesh,
    /// - `nparts` is the number of parts wanted in the mesh partition.
    ///
    /// The caller asserts the invariants of [`mesh_check`]; only the cheap
    /// shape facts needed to form pointer and length arguments are demanded
    /// here, as preconditions.
    pub fn new_unchecked(nn: Idx, nparts: Idx, eptr: Vec<Idx>, eind: Vec<Idx>) -> (m: Mesh)
        requires
            0 < nn,
            0 < nparts,
            1 <= eptr@.len() <= i32::MAX,
            eptr@.last() == eind@.len(),
        ensures
            m.is_fresh(nn, nparts, eptr@, eind@),
            m.wf(),
    {
        Mesh {
            nn,
            nparts,
            ncommon: 1,
            eptr,
            eind,
            vwgt: None,
            vsize: None,
            tpwgts: None,
            options: unset_options(),
        }
    }

    /// Sets the computational weights of the elements.
    ///
    /// By default all elements have the same weight.  The array must hold
    /// one value per element.
    pub fn set_vwgt(self, vwgt: Vec<Idx>) -> (m: Mesh)
        requires
            self.wf(),
            vwgt@.len() == self.nelems_spec(),
        ensures
            m.wf(),
            m.vwgt == Some(vwgt),
            m.nn == self.nn,
            m.nparts == self.nparts,
            m.ncommon == self.ncommon,
            m.eptr == self.eptr,
            m.eind == self.eind,
            m.vsize == self.vsize,
            m.tpwgts == self.tpwgts,
            m.options == self.options,
    {
        let mut m = self;
        m.vwgt = Some(vwgt);
        m
    }

    /// Sets the communication weights of the elements.
    ///
    /// By default all elements have the same communication weight.  The
    /// array must hold one value per element.
    pub fn set_vsize(self, vsize: Vec<Idx>) -> (m: Mesh)
        requires
            self.wf(),
            vsize@.len() == self.nelems_spec(),
        ensures
            m.wf(),
            m.vsize == Some(vsize),
            m.nn == self.nn,
            m.nparts == self.nparts,
            m.ncommon == self.ncommon,
            m.eptr == self.eptr,
            m.eind == self.eind,
            m.vwgt == self.vwgt,
            m.tpwgts == self.tpwgts,
            m.options == self.options,
    {
        let mut m = self;
        m.vsize = Some(vsize);
        m
    }

    /// Sets the target partition weights for each part, as bit patterns of
    /// the solver's real type.
    ///
    /// By default the mesh is divided equally.  The array must hold one
    /// value per part.
    pub fn set_tpwgts(self, tpwgts: Vec<u32>) -> (m: Mesh)
        requires
            self.wf(),
            tpwgts@.len() == self.nparts,
        ensures
            m.wf(),
            m.tpwgts == Some(tpwgts),
            m.nn == self.nn,
            m.nparts == self.nparts,
            m.ncommon == self.ncommon,
            m.eptr == self.eptr,
            m.eind == self.eind,
            m.vwgt == self.vwgt,
            m.vsize == self.vsize,
            m.options == self.options,
    {
        let mut m = self;
        m.tpwgts = Some(tpwgts);
        m
    }

    /// Sets the fine-tuning parameters for this partitioning in one batch,
    /// replacing the whole option vector.
    ///
    /// When few options are to be set, [`Mesh::set_option`] might be a
    /// better fit.  See the [`crate::option`] module for the list of
    /// available parameters.
    pub fn set_options(self, options: &[Idx; NOPTIONS]) -> (m: Mesh)
        requires
            self.wf(),
        ensures
            m.wf(),
            m.options@ == options@,
            m.nn == self.nn,
            m.nparts == self.nparts,
            m.ncommon == self.ncommon,
            m.eptr == self.eptr,
            m.eind == self.eind,
            m.vwgt == self.vwgt,
            m.vsize == self.vsize,
            m.tpwgts == self.tpwgts,
    {
        let mut m = self;
        m.options = crate::option::options_to_vec(options);
        m
    }

    /// Sets a single fine-tuning parameter for this partitioning, leaving
    /// the other slots as they are.
    ///
    /// When options are to be set in batches, [`Mesh::set_options`] might be
    /// a better fit.  See the [`crate::option`] module for the list of
    /// available parameters.
    pub fn set_option<O: Opt>(self, option: O) -> (m: Mesh)
        requires
            self.wf(),
        ensures
            m.wf(),
            m.options@ == self.options@.update(O::spec_index(), option.spec_value()),
            m.nn == self.nn,
            m.nparts == self.nparts,
            m.ncommon == self.ncommon,
            m.eptr == self.eptr,
            m.eind == self.eind,
            m.vwgt == self.vwgt,
            m.vsize == self.vsize,
            m.tpwgts == self.tpwgts,
    {
        let i = O::index();
        let v = option.value();
        let mut m = self;
        m.options.set(i, v);
        m
    }

    /// Partition the mesh using its dual graph.
    ///
    /// This performs every part of the solve that does not cross the foreign
    /// boundary.  The numbering option is forced to the zero-based
    /// convention.  If one part is wanted, the whole partition is known
    /// without the solver: both output arrays are filled with zero and
    /// `Some(0)` is returned as the quality metric, and the solver must not
    /// be invoked.  Otherwise `None` is returned and the caller completes
    /// the solve by handing the prepared request, including the shared-node
    /// threshold, to the foreign dual-graph routine and interpreting its
    /// status with [`crate::wrap_status`].
    ///
    /// `epart` must hold one slot per element and `npart` one slot per node.
    pub fn part_dual(&mut self, epart: &mut Vec<Idx>, npart: &mut Vec<Idx>) -> (r: Option<Idx>)
        requires
            old(self).wf(),
            old(epart)@.len() == old(self).nelems_spec(),
            old(npart)@.len() == old(self).nn,
        ensures
            final(self).wf(),
            final(self).prepared_from(*old(self)),
            final(epart)@.len() == old(epart)@.len(),
            final(npart)@.len() == old(npart)@.len(),
            old(self).nparts == 1 ==> r == Some(0i32)
                && (forall|i: int| 0 <= i < final(epart)@.len() ==> final(epart)@[i] == 0)
                && (forall|i: int| 0 <= i < final(npart)@.len() ==> final(npart)@[i] == 0),
            old(self).nparts != 1 ==> r is None
                && final(epart)@ == old(epart)@
                && final(npart)@ == old(npart)@,
    {
        self.force_zero_numbering();
        if self.nparts == 1 {
            crate::graph::fill_zero(epart);
            crate::graph::fill_zero(npart);
            return Some(0);
        }
        None
    }

    /// Partition the mesh using its nodal graph.
    ///
    /// This performs every part of the solve that does not cross the foreign
    /// boundary, exactly as [`Mesh::part_dual`] does; the caller completes a
    /// `None` outcome with the foreign nodal-graph routine instead, which
    /// does not read the shared-node threshold.
    ///
    /// `epart` must hold one slot per element and `npart` one slot per node.
    pub fn part_nodal(&mut self, epart: &mut Vec<Idx>, npart: &mut Vec<Idx>) -> (r: Option<Idx>)
        requires
            old(self).wf(),
            old(epart)@.len() == old(self).nelems_spec(),
            old(npart)@.len() == old(self).nn,
        ensures
            final(self).wf(),
            final(self).prepared_from(*old(self)),
            final(epart)@.len() == old(epart)@.len(),
            final(npart)@.len() == old(npart)@.len(),
            old(self).nparts == 1 ==> r == Some(0i32)
                && (forall|i: int| 0 <= i < final(epart)@.len() ==> final(epart)@[i] == 0)
                && (forall|i: int| 0 <= i < final(npart)@.len() ==> final(npart)@[i] == 0),
            old(self).nparts != 1 ==> r is None
                && final(epart)@ == old(epart)@
                && final(npart)@ == old(npart)@,
    {
        self.force_zero_numbering();
        if self.nparts == 1 {
            crate::graph::fill_zero(epart);
            crate::graph::fill_zero(npart);
            return Some(0);
        }
        None
    }

    /// Forces the numbering option to the zero-based convention used by this
    /// layer, overriding any caller-set value.
    fn force_zero_numbering(&mut self)
        requires
            old(self).wf(),
        ensures
            final(self).wf(),
            final(self).prepared_from(*old(self)),
    {
        let i = Numbering::index();
        let v = Numbering::C.value();
        self.options.set(i, v);
    }
}

/// The dual of a mesh: for each element, the elements it shares enough
/// nodes with.
///
/// The two arrays are a matched pair in the same packed-adjacency layout a
/// [`crate::Graph`] uses: they are exposed read-only one by one, and
/// mutably only together.  The backing buffers of the foreign conversion
/// routine are adopted into owned arrays by the embedding program, which
/// releases the foreign memory exactly once; see [`Dual::new`] for the shape
/// the adopted arrays must have.
#[derive(Debug, PartialEq, Eq)]
pub struct Dual {
    /// The adjacency index array.
    pub xadj: Vec<Idx>,

    /// The adjacency array.
    pub adjncy: Vec<Idx>,
}

impl Dual {
    /// The matched-pair invariant: a non-empty offsets array whose last
    /// element is the length of the items array.
    pub open spec fn wf(self) -> bool {
        &&& 1 <= self.xadj@.len()
        &&& self.xadj@.last() == self.adjncy@.len()
    }

    /// Adopts the two arrays of a dual graph into a handle.
    ///
    /// The foreign conversion routine writes an offsets array with one slot
    /// per element plus one, and an items array whose length is the last
    /// element of the offsets array; the preconditions demand exactly that
    /// shape.
    pub fn new(xadj: Vec<Idx>, adjncy: Vec<Idx>) -> (d: Dual)
        requires
            1 <= xadj@.len(),
            xadj@.last() == adjncy@.len(),
        ensures
            d.xadj@ == xadj@,
            d.adjncy@ == adjncy@,
            d.wf(),
    {
        Dual { xadj, adjncy }
    }

    /// The adjacency index array.
    pub fn xadj(&self) -> (r: &Vec<Idx>)
        ensures
            r@ == self.xadj@,
    {
        &self.xadj
    }

    /// The adjacency array.
    pub fn adjncy(&self) -> (r: &Vec<Idx>)
        ensures
            r@ == self.adjncy@,
    {
        &self.adjncy
    }

    /// The adjacency index array and the adjacency array, as mutable
    /// references.
    ///
    /// The two are handed out together, not independently, since they must
    /// remain a matched pair for safe re-partitioning.
    pub fn as_mut(&mut self) -> (r: (&mut Vec<Idx>, &mut Vec<Idx>))
        ensures
            r.0@ == old(self).xadj@,
            r.1@ == old(self).adjncy@,
            final(self).xadj == *final(r.0),
            final(self).adjncy == *final(r.1),
    {
        (&mut self.xadj, &mut self.adjncy)
    }
}

/// Converting a mesh to its dual keeps the element count: the adopted
/// offsets array has one slot per element of the source mesh plus one, so
/// the entity count re-derived from the handle equals the element count of
/// the source mesh.
pub proof fn lemma_dual_preserves_element_count(m: Mesh, d: Dual)
    requires
        m.wf(),
        d.xadj@.len() == m.eptr@.len(),
    ensures
        d.xadj@.len() - 1 == m.nelems_spec(),
{
}

} // verus!
