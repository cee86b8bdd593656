//! Graph partition requests.
//!
//! A [`Graph`] gathers everything one solve needs: the packed-adjacency
//! arrays, the optional attribute arrays, the counts, and the tuning options.
//! Validated construction proves the structural invariants the solver
//! requires; the terminal methods then perform every part of a solve that
//! does not cross the foreign boundary.

use vstd::prelude::*;

use crate::option::all_unset;
use crate::option::unset_options;
use crate::option::Numbering;
use crate::option::Opt;
use crate::Idx;
use crate::NewError;
use crate::NewErrorKind;
use crate::NOPTIONS;

verus! {

/// Holds when the offsets sequence passes the sortedness scan: it starts at
/// or above zero and is non-decreasing.
///
/// The scan runs with a previous value of zero, so a negative first element
/// fails it even though the sequence may be non-decreasing.
pub open spec fn offsets_sorted(s: Seq<Idx>) -> bool {
    &&& s.len() > 0 ==> 0 <= s[0]
    &&& forall|i: int| 0 < i < s.len() ==> s[i - 1] <= #[trigger] s[i]
}

/// Holds when every item is a valid entity index: at least zero and below
/// the entity count `n`.
pub open spec fn items_in_bounds(items: Seq<Idx>, n: int) -> bool {
    forall|i: int| 0 <= i < items.len() ==> 0 <= #[trigger] items[i] < n
}

/// The outcome of structural validation of a graph, with the checks in the
/// order they run: constraint count, part count, offsets non-empty, offsets
/// versus items length, offsets sortedness, index-width fit, items bounds.
pub open spec fn graph_check(ncon: Idx, nparts: Idx, xadj: Seq<Idx>, adjncy: Seq<Idx>) -> core::result::Result<(), NewErrorKind> {
    if ncon <= 0 {
        Err(NewErrorKind::InvalidNumberOfConstraints)
    } else if nparts <= 0 {
        Err(NewErrorKind::InvalidNumberOfParts)
    } else if xadj.len() == 0 {
        Err(NewErrorKind::XadjIsEmpty)
    } else if xadj.last() < 0 {
        Err(NewErrorKind::InvalidLastXadj)
    } else if xadj.last() != adjncy.len() {
        Err(NewErrorKind::BadAdjncyLength)
    } else if !offsets_sorted(xadj) {
        Err(NewErrorKind::XadjIsNotSorted)
    } else if xadj.len() > i32::MAX {
        Err(NewErrorKind::XadjIsTooLarge)
    } else if !items_in_bounds(adjncy, xadj.len() - 1) {
        Err(NewErrorKind::AdjncyOutOfBounds)
    } else {
        Ok(())
    }
}

/// Builder structure to set up a graph partition computation.
///
/// This structure holds the required arguments for the solver to compute a
/// partition.  It also offers methods to easily set any optional argument.
///
/// The adjacency structure of the graph is its CSR encoding: the vertices
/// adjacent to vertex `i` are `adjncy[xadj[i]..xadj[i + 1]]`.  The solver
/// additionally expects the relation to be symmetric, which is not checked
/// here beyond the index bounds.
#[derive(Debug, PartialEq)]
pub struct Graph {
    /// The number of balancing constraints.
    pub ncon: Idx,

    /// The number of parts to partition the graph.
    pub nparts: Idx,

    /// The adjacency structure of the graph (part 1): the offsets array.
    pub xadj: Vec<Idx>,

    /// The adjacency structure of the graph (part 2): the items array.
    ///
    /// Required size: `xadj.last()`.
    pub adjncy: Vec<Idx>,

    /// The computational weights of the vertices.
    ///
    /// Required size: `ncon * (xadj.len() - 1)`.
    pub vwgt: Option<Vec<Idx>>,

    /// The communication weights of the vertices.
    ///
    /// Required size: `xadj.len() - 1`.
    pub vsize: Option<Vec<Idx>>,

    /// The weights of the edges.
    ///
    /// Required size: `xadj.last()`.
    pub adjwgt: Option<Vec<Idx>>,

    /// The target partition weight for each part and constraint, each held
    /// as the bit pattern of the solver's real type.
    ///
    /// This layer never interprets the values, only their count.  If `None`
    /// then the graph is equally divided among the partitions.
    ///
    /// Required size: `ncon * nparts`.
    pub tpwgts: Option<Vec<u32>>,

    /// The imbalance tolerance for each constraint, each held as the bit
    /// pattern of the solver's real type.
    ///
    /// Required size: `ncon`.
    pub ubvec: Option<Vec<u32>>,

    /// Fine-tuning parameters.
    ///
    /// Required size: [`NOPTIONS`].
    pub options: Vec<Idx>,
}

impl Graph {
    /// The number of vertices the request describes: one less than the
    /// length of the offsets array.
    pub open spec fn nvtxs_spec(self) -> int {
        self.xadj@.len() - 1
    }

    /// The shape facts every request must satisfy before pointer and length
    /// arguments for the solver can be formed: positive counts, a non-empty
    /// offsets array whose length an [`Idx`] can count, an items array as
    /// long as the last offset says, a full option vector, and every
    /// attribute array present at exactly its required length.
    pub open spec fn wf(self) -> bool {
        &&& 0 < self.ncon
        &&& 0 < self.nparts
        &&& 1 <= self.xadj@.len() <= i32::MAX
        &&& self.xadj@.last() == self.adjncy@.len()
        &&& self.options@.len() == NOPTIONS
        &&& (self.vwgt matches Some(w) ==> w@.len() == self.ncon * self.nvtxs_spec())
        &&& (self.vsize matches Some(w) ==> w@.len() == self.nvtxs_spec())
        &&& (self.adjwgt matches Some(w) ==> w@.len() == self.adjncy@.len())
        &&& (self.tpwgts matches Some(w) ==> w@.len() == self.ncon * self.nparts)
        &&& (self.ubvec matches Some(w) ==> w@.len() == self.ncon)
    }

    /// A request exactly as the constructors return it: the given counts and
    /// arrays, no optional attribute arrays, and every option unset.
    pub open spec fn is_fresh(self, ncon: Idx, nparts: Idx, xadj: Seq<Idx>, adjncy: Seq<Idx>) -> bool {
        &&& self.ncon == ncon
        &&& self.nparts == nparts
        &&& self.xadj@ == xadj
        &&& self.adjncy@ == adjncy
        &&& self.vwgt is None
        &&& self.vsize is None
        &&& self.adjwgt is None
        &&& self.tpwgts is None
        &&& self.ubvec is None
        &&& all_unset(self.options@)
    }

    /// Relates a request before a terminal method to the request after it:
    /// everything is kept except that the numbering option is forced to the
    /// zero-based convention, since all validated inputs are zero-based.
    pub open spec fn prepared_from(self, from: Graph) -> bool {
        &&& self.ncon == from.ncon
        &&& self.nparts == from.nparts
        &&& self.xadj == from.xadj
        &&& self.adjncy == from.adjncy
        &&& self.vwgt == from.vwgt
        &&& self.vsize == from.vsize
        &&& self.adjwgt == from.adjwgt
        &&& self.tpwgts == from.tpwgts
        &&& self.ubvec == from.ubvec
        &&& self.options@ == from.options@.update(<Numbering as Opt>::spec_index(), 0i32)
    }

    /// Creates a new [`Graph`] object to be partitioned, validating the
    /// adjacency structure first.
    ///
    /// - `ncon` is the number of constraints on each vertex (at least 1),
    /// - `nparts` is the number of parts wanted in the graph partition.
    ///
    /// Construction succeeds exactly when the structural checks of
    /// [`graph_check`] pass; otherwise the error names the first check that
    /// failed.  No foreign code runs here.
    #[verifier::loop_isolation(false)]
    pub fn new(ncon: Idx, nparts: Idx, xadj: Vec<Idx>, adjncy: Vec<Idx>) -> (r: core::result::Result<Graph, NewError>)
        ensures
            match r {
                Ok(g) => {
                    &&& graph_check(ncon, nparts, xadj@, adjncy@) is Ok
                    &&& g.is_fresh(ncon, nparts, xadj@, adjncy@)
                    &&& g.wf()
                },
                Err(e) => graph_check(ncon, nparts, xadj@, adjncy@) == core::result::Result::<(), NewErrorKind>::Err(e.kind),
            },
    {
        if ncon <= 0 {
            return Err(NewError { kind: NewErrorKind::InvalidNumberOfConstraints });
        }
        if nparts <= 0 {
            return Err(NewError { kind: NewErrorKind::InvalidNumberOfParts });
        }
        if xadj.len() == 0 {
            return Err(NewError { kind: NewErrorKind::XadjIsEmpty });
        }
        let last: Idx = xadj[xadj.len() - 1];
        if last < 0 {
            return Err(NewError { kind: NewErrorKind::InvalidLastXadj });
        }
        if last as usize != adjncy.len() {
            return Err(NewError { kind: NewErrorKind::BadAdjncyLength });
        }

        let mut prev: Idx = 0;
        let mut j: usize = 0;
        while j < xadj.len()
            invariant
                j <= xadj@.len(),
                prev == if j == 0 { 0i32 } else { xadj@[j - 1] },
                0 <= prev,
                j > 0 ==> 0 <= xadj@[0],
                forall|i: int| 0 < i < j ==> xadj@[i - 1] <= #[trigger] xadj@[i],
            decreases xadj@.len() - j,
        {
            let x = xadj[j];
            if prev > x {
                proof {
                    if j == 0 {
                        assert(xadj@[0] < 0);
                    } else {
                        assert(xadj@[j - 1] > xadj@[j as int]);
                    }
                }
                return Err(NewError { kind: NewErrorKind::XadjIsNotSorted });
            }
            prev = x;
            j += 1;
        }
        assert(offsets_sorted(xadj@));

        if xadj.len() > i32::MAX as usize {
            return Err(NewError { kind: NewErrorKind::XadjIsTooLarge });
        }
        let nvtxs: Idx = xadj.len() as Idx - 1;

        let mut k: usize = 0;
        while k < adjncy.len()
            invariant
                k <= adjncy@.len(),
                forall|i: int| 0 <= i < k ==> 0 <= #[trigger] adjncy@[i] < nvtxs,
                nvtxs == xadj@.len() - 1,
            decreases adjncy@.len() - k,
        {
            let a = adjncy[k];
            if a < 0 || a >= nvtxs {
                proof {
                    assert(!(0 <= adjncy@[k as int] < xadj@.len() - 1));
                }
                return Err(NewError { kind: NewErrorKind::AdjncyOutOfBounds });
            }
            k += 1;
        }
        assert(items_in_bounds(adjncy@, xadj@.len() - 1));

        Ok(Graph::new_unchecked(ncon, nparts, xadj, adjncy))
    }

    /// Creates a new [`Graph`] object to be partitioned, skipping the full
    /// structural validation.
    ///
    /// The caller asserts the invariants of [`graph_check`]; only the cheap
    /// shape facts needed to form pointer and length arguments are demanded
    /// here, as preconditions.  On the same inputs on which [`Graph::new`]
    /// succeeds, this returns a request equal in observable state to the one
    /// [`Graph::new`] returns.
    pub fn new_unchecked(ncon: Idx, nparts: Idx, xadj: Vec<Idx>, adjncy: Vec<Idx>) -> (g: Graph)
        requires
            0 < ncon,
            0 < nparts,
            1 <= xadj@.len() <= i32::MAX,
            xadj@.last() == adjncy@.len(),
        ensures
            g.is_fresh(ncon, nparts, xadj@, adjncy@),
            g.wf(),
    {
        Graph {
            ncon,
            nparts,
            xadj,
            adjncy,
            vwgt: None,
            vsize: None,
            adjwgt: None,
            tpwgts: None,
            ubvec: None,
            options: unset_options(),
        }
    }

    /// Sets the computational weights of the vertices.
    ///
    /// By default all vertices have the same weight.  The array must hold
    /// `ncon` values per vertex.
    pub fn set_vwgt(self, vwgt: Vec<Idx>) -> (g: Graph)
        requires
            self.wf(),
            vwgt@.len() == self.ncon * self.nvtxs_spec(),
        ensures
            g.wf(),
            g.vwgt == Some(vwgt),
            g.ncon == self.ncon,
            g.nparts == self.nparts,
            g.xadj == self.xadj,
            g.adjncy == self.adjncy,
            g.vsize == self.vsize,
            g.adjwgt == self.adjwgt,
            g.tpwgts == self.tpwgts,
            g.ubvec == self.ubvec,
            g.options == self.options,
    {
        let mut g = self;
        g.vwgt = Some(vwgt);
        g
    }

    /// Sets the communication weights of the vertices.
    ///
    /// By default all vertices have the same communication weight.  The
    /// array must hold one value per vertex.
    pub fn set_vsize(self, vsize: Vec<Idx>) -> (g: Graph)
        requires
            self.wf(),
            vsize@.len() == self.nvtxs_spec(),
        ensures
            g.wf(),
            g.vsize == Some(vsize),
            g.ncon == self.ncon,
            g.nparts == self.nparts,
            g.xadj == self.xadj,
            g.adjncy == self.adjncy,
            g.vwgt == self.vwgt,
            g.adjwgt == self.adjwgt,
            g.tpwgts == self.tpwgts,
            g.ubvec == self.ubvec,
            g.options == self.options,
    {
        let mut g = self;
        g.vsize = Some(vsize);
        g
    }

    /// Sets the weights of the edges.
    ///
    /// By default all edges have the same weight.  The array must be as long
    /// as the items array.
    pub fn set_adjwgt(self, adjwgt: Vec<Idx>) -> (g: Graph)
        requires
            self.wf(),
            adjwgt@.len() == self.adjncy@.len(),
        ensures
            g.wf(),
            g.adjwgt == Some(adjwgt),
            g.ncon == self.ncon,
            g.nparts == self.nparts,
            g.xadj == self.xadj,
            g.adjncy == self.adjncy,
            g.vwgt == self.vwgt,
            g.vsize == self.vsize,
            g.tpwgts == self.tpwgts,
            g.ubvec == self.ubvec,
            g.options == self.options,
    {
        let mut g = self;
        g.adjwgt = Some(adjwgt);
        g
    }

    /// Sets the target partition weights for each part and constraint, as
    /// bit patterns of the solver's real type.
    ///
    /// By default the graph is divided equally.  The array must hold `ncon`
    /// values per part.
    pub fn set_tpwgts(self, tpwgts: Vec<u32>) -> (g: Graph)
        requires
            self.wf(),
            tpwgts@.len() == self.ncon * self.nparts,
        ensures
            g.wf(),
            g.tpwgts == Some(tpwgts),
            g.ncon == self.ncon,
            g.nparts == self.nparts,
            g.xadj == self.xadj,
            g.adjncy == self.adjncy,
            g.vwgt == self.vwgt,
            g.vsize == self.vsize,
            g.adjwgt == self.adjwgt,
            g.ubvec == self.ubvec,
            g.options == self.options,
    {
        let mut g = self;
        g.tpwgts = Some(tpwgts);
        g
    }

    /// Sets the load imbalance tolerance for each constraint, as bit
    /// patterns of the solver's real type.
    ///
    /// By default it equals 1.001 if `ncon` equals 1 and 1.01 otherwise.
    /// The array must hold one value per constraint.
    pub fn set_ubvec(self, ubvec: Vec<u32>) -> (g: Graph)
        requires
            self.wf(),
            ubvec@.len() == self.ncon,
        ensures
            g.wf(),
            g.ubvec == Some(ubvec),
            g.ncon == self.ncon,
            g.nparts == self.nparts,
            g.xadj == self.xadj,
            g.adjncy == self.adjncy,
            g.vwgt == self.vwgt,
            g.vsize == self.vsize,
            g.adjwgt == self.adjwgt,
            g.tpwgts == self.tpwgts,
            g.options == self.options,
    {
        let mut g = self;
        g.ubvec = Some(ubvec);
        g
    }

    /// Sets the fine-tuning parameters for this partitioning in one batch,
    /// replacing the whole option vector.
    ///
    /// When few options are to be set, [`Graph::set_option`] might be a
    /// better fit.  See the [`crate::option`] module for the list of
    /// available parameters.
    pub fn set_options(self, options: &[Idx; NOPTIONS]) -> (g: Graph)
        requires
            self.wf(),
        ensures
            g.wf(),
            g.options@ == options@,
            g.ncon == self.ncon,
            g.nparts == self.nparts,
            g.xadj == self.xadj,
            g.adjncy == self.adjncy,
            g.vwgt == self.vwgt,
            g.vsize == self.vsize,
            g.adjwgt == self.adjwgt,
            g.tpwgts == self.tpwgts,
            g.ubvec == self.ubvec,
    {
        let mut g = self;
        g.options = crate::option::options_to_vec(options);
        g
    }

    /// Sets a single fine-tuning parameter for this partitioning, leaving
    /// the other slots as they are.
    ///
    /// When options are to be set in batches, [`Graph::set_options`] might
    /// be a better fit.  See the [`crate::option`] module for the list of
    /// available parameters.
    pub fn set_option<O: Opt>(self, option: O) -> (g: Graph)
        requires
            self.wf(),
        ensures
            g.wf(),
            g.options@ == self.options@.update(O::spec_index(), option.spec_value()),
            g.ncon == self.ncon,
            g.nparts == self.nparts,
            g.xadj == self.xadj,
            g.adjncy == self.adjncy,
            g.vwgt == self.vwgt,
            g.vsize == self.vsize,
            g.adjwgt == self.adjwgt,
            g.tpwgts == self.tpwgts,
            g.ubvec == self.ubvec,
    {
        let i = O::index();
        let v = option.value();
        let mut g = self;
        g.options.set(i, v);
        g
    }

    /// Partition the graph using multilevel recursive bisection.
    ///
    /// This performs every part of the solve that does not cross the foreign
    /// boundary.  The numbering option is forced to the zero-based
    /// convention.  If one part is wanted, the whole partition is known
    /// without the solver: `part` is filled with zero and `Some(0)` is
    /// returned as the quality metric, and the solver must not be invoked.
    /// Otherwise `None` is returned and the caller completes the solve by
    /// handing the prepared request to the foreign recursive-bisection
    /// routine and interpreting its status with [`crate::wrap_status`].
    ///
    /// `part` must hold one slot per vertex.
    pub fn part_recursive(&mut self, part: &mut Vec<Idx>) -> (r: Option<Idx>)
        requires
            old(self).wf(),
            old(part)@.len() == old(self).nvtxs_spec(),
        ensures
            final(self).wf(),
            final(self).prepared_from(*old(self)),
            final(part)@.len() == old(part)@.len(),
            old(self).nparts == 1 ==> r == Some(0i32)
                && (forall|i: int| 0 <= i < final(part)@.len() ==> final(part)@[i] == 0),
            old(self).nparts != 1 ==> r is None && final(part)@ == old(part)@,
    {
        self.force_zero_numbering();
        if self.nparts == 1 {
            fill_zero(part);
            return Some(0);
        }
        None
    }

    /// Partition the graph using multilevel k-way partitioning.
    ///
    /// This performs every part of the solve that does not cross the foreign
    /// boundary, exactly as [`Graph::part_recursive`] does; the caller
    /// completes a `None` outcome with the foreign k-way routine instead.
    ///
    /// `part` must hold one slot per vertex.
    pub fn part_kway(&mut self, part: &mut Vec<Idx>) -> (r: Option<Idx>)
        requires
            old(self).wf(),
            old(part)@.len() == old(self).nvtxs_spec(),
        ensures
            final(self).wf(),
            final(self).prepared_from(*old(self)),
            final(part)@.len() == old(part)@.len(),
            old(self).nparts == 1 ==> r == Some(0i32)
                && (forall|i: int| 0 <= i < final(part)@.len() ==> final(part)@[i] == 0),
            old(self).nparts != 1 ==> r is None && final(part)@ == old(part)@,
    {
        self.force_zero_numbering();
        if self.nparts == 1 {
            fill_zero(part);
            return Some(0);
        }
        None
    }

    /// Forces the numbering option to the zero-based convention used by this
    /// layer, overriding any caller-set value.
    fn force_zero_numbering(&mut self)
        requires
            old(self).wf(),
        ensures
            final(self).wf(),
            final(self).prepared_from(*old(self)),
    {
        let i = Numbering::index();
        let v = Numbering::C.value();
        self.options.set(i, v);
    }
}

/// Overwrites every element with zero.
pub(crate) fn fill_zero(v: &mut Vec<Idx>)
    ensures
        final(v)@.len() == old(v)@.len(),
        forall|i: int| 0 <= i < final(v)@.len() ==> final(v)@[i] == 0,
{
    let n = v.len();
    let mut i: usize = 0;
    while i < n
        invariant
            i <= n,
            v@.len() == n,
            forall|k: int| 0 <= k < i ==> v@[k] == 0,
        decreases n - i,
    {
        v.set(i, 0);
        i += 1;
    }
}

/// For all graphs passing validated construction, the unchecked constructor
/// on the same inputs produces a request equal in observable state: both
/// constructors return exactly the fresh request for their inputs.
pub proof fn lemma_unchecked_matches_checked(g1: Graph, g2: Graph, ncon: Idx, nparts: Idx, xadj: Seq<Idx>, adjncy: Seq<Idx>)
    requires
        g1.is_fresh(ncon, nparts, xadj, adjncy),
        g2.is_fresh(ncon, nparts, xadj, adjncy),
    ensures
        g1.ncon == g2.ncon,
        g1.nparts == g2.nparts,
        g1.xadj@ == g2.xadj@,
        g1.adjncy@ == g2.adjncy@,
        g1.vwgt is None && g2.vwgt is None,
        g1.vsize is None && g2.vsize is None,
        g1.adjwgt is None && g2.adjwgt is None,
        g1.tpwgts is None && g2.tpwgts is None,
        g1.ubvec is None && g2.ubvec is None,
        g1.options@ == g2.options@,
{
    assert(g1.options@ =~= g2.options@);
}

/// For all offsets sequences that are not non-decreasing, validated
/// construction fails with the not-sorted structural kind, provided the
/// checks that run earlier pass; and no foreign call is involved, since
/// validation is pure.
pub proof fn lemma_unsorted_offsets_rejected(ncon: Idx, nparts: Idx, xadj: Seq<Idx>, adjncy: Seq<Idx>)
    requires
        0 < ncon,
        0 < nparts,
        xadj.len() > 0,
        xadj.last() >= 0,
        xadj.last() == adjncy.len(),
        !(forall|i: int| 0 < i < xadj.len() ==> xadj[i - 1] <= #[trigger] xadj[i]),
    ensures
        graph_check(ncon, nparts, xadj, adjncy) == core::result::Result::<(), NewErrorKind>::Err(NewErrorKind::XadjIsNotSorted),
{
    assert(!offsets_sorted(xadj));
}

/// For all items values outside the vertex range, validated construction
/// fails with the out-of-bounds structural kind, provided the checks that
/// run earlier pass.
pub proof fn lemma_out_of_bounds_items_rejected(ncon: Idx, nparts: Idx, xadj: Seq<Idx>, adjncy: Seq<Idx>)
    requires
        0 < ncon,
        0 < nparts,
        xadj.len() > 0,
        xadj.last() >= 0,
        xadj.last() == adjncy.len(),
        offsets_sorted(xadj),
        xadj.len() <= i32::MAX,
        exists|i: int| 0 <= i < adjncy.len() && !(0 <= #[trigger] adjncy[i] < xadj.len() - 1),
    ensures
        graph_check(ncon, nparts, xadj, adjncy) == core::result::Result::<(), NewErrorKind>::Err(NewErrorKind::AdjncyOutOfBounds),
{
    assert(!items_in_bounds(adjncy, xadj.len() - 1));
}

} // verus!
