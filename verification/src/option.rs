//! Fine-tuning parameter types.
//!
//! The solver takes a fixed-length array of signed tuning values, one slot
//! per recognized parameter, with `-1` in a slot meaning "use the solver's
//! default".  Each type here stands for one recognized parameter: it knows
//! its fixed slot in the array and how its value is encoded as an [`Idx`].
//! No cross-parameter consistency is checked here; the solver is the
//! authority on which combinations are meaningful.
//!
//! For options that take an integer value, should this value be negative, the
//! default will be used, if any.

use vstd::prelude::*;

use crate::Idx;
use crate::NOPTIONS;

verus! {

/// Holds when the option vector has its default contents: one slot per
/// recognized parameter, each holding the unset sentinel `-1`.
pub open spec fn all_unset(s: Seq<Idx>) -> bool {
    &&& s.len() == NOPTIONS
    &&& forall|i: int| 0 <= i < s.len() ==> s[i] == -1i32
}

/// Builds a fresh option vector with every slot unset, so that the solver
/// picks its own default for every parameter.
pub fn unset_options() -> (v: Vec<Idx>)
    ensures
        all_unset(v@),
{
    let mut v: Vec<Idx> = Vec::new();
    let mut i: usize = 0;
    while i < NOPTIONS
        invariant
            i <= NOPTIONS,
            v@.len() == i,
            forall|k: int| 0 <= k < i ==> v@[k] == -1i32,
        decreases NOPTIONS - i,
    {
        v.push(-1);
        i += 1;
    }
    v
}

/// Copies a caller-supplied option array into the vector form a request
/// holds.
pub fn options_to_vec(options: &[Idx; NOPTIONS]) -> (v: Vec<Idx>)
    ensures
        v@ == options@,
{
    let mut v: Vec<Idx> = Vec::new();
    let mut i: usize = 0;
    while i < NOPTIONS
        invariant
            i <= NOPTIONS,
            v@.len() == i,
            forall|k: int| 0 <= k < i ==> v@[k] == options@[k],
        decreases NOPTIONS - i,
    {
        v.push(options[i]);
        i += 1;
    }
    proof {
        assert(v@ =~= options@);
    }
    v
}

/// Marker trait that closes the set of option types.
///
/// The slot indices are fixed by the solver's interface, so the set of
/// parameters is not extensible.
pub trait Sealed {

}

/// Trait implemented by the solver's options.
///
/// See [`crate::Graph::set_option`] for an example.  It is also used in
/// [`crate::Mesh::set_option`].
pub trait Opt: Sealed {
    /// The fixed slot of this parameter in the option array.
    spec fn spec_index() -> int;

    /// The encoding of this value as a signed integer.
    spec fn spec_value(self) -> Idx;

    /// Index of the option in the array from [`crate::Graph::set_options`]
    /// and [`crate::Mesh::set_options`].
    fn index() -> (i: usize)
        ensures
            i as int == Self::spec_index(),
            0 <= Self::spec_index() < NOPTIONS as int,
    ;

    /// Convert the value into the solver's format, for use with
    /// [`crate::Graph::set_options`] and [`crate::Mesh::set_options`].
    fn value(self) -> (v: Idx)
        ensures
            v == self.spec_value(),
    ;
}

/// Specifies the partitioning method.
pub enum PType {
    /// Multilevel recursive bisectioning.
    Rb,

    /// Multilevel k-way partitioning.
    Kway,
}

impl Sealed for PType {

}

impl Opt for PType {
    open spec fn spec_index() -> int {
        0
    }

    open spec fn spec_value(self) -> Idx {
        match self {
            PType::Rb => 0,
            PType::Kway => 1,
        }
    }

    fn index() -> usize {
        0
    }

    fn value(self) -> Idx {
        match self {
            PType::Rb => 0,
            PType::Kway => 1,
        }
    }
}

/// Specifies the type of objective.
pub enum ObjType {
    /// Edge-cut minimization.
    Cut,

    /// Total communication volume minimization.
    Vol,
}

impl Sealed for ObjType {

}

impl Opt for ObjType {
    open spec fn spec_index() -> int {
        1
    }

    open spec fn spec_value(self) -> Idx {
        match self {
            ObjType::Cut => 0,
            ObjType::Vol => 1,
        }
    }

    fn index() -> usize {
        1
    }

    fn value(self) -> Idx {
        match self {
            ObjType::Cut => 0,
            ObjType::Vol => 1,
        }
    }
}

/// Specifies the matching scheme to be used during coarsening.
pub enum CType {
    /// Random matching.
    Rm,

    /// Sorted heavy-edge matching.
    Shem,
}

impl Sealed for CType {

}

impl Opt for CType {
    open spec fn spec_index() -> int {
        2
    }

    open spec fn spec_value(self) -> Idx {
        match self {
            CType::Rm => 0,
            CType::Shem => 1,
        }
    }

    fn index() -> usize {
        2
    }

    fn value(self) -> Idx {
        match self {
            CType::Rm => 0,
            CType::Shem => 1,
        }
    }
}

/// Determines the algorithm used during initial partitioning.
pub enum IpType {
    /// Grows a bisection using a greedy strategy.
    Grow,

    /// Compute a bisection at random followed by a refinement.
    Random,

    /// Derives a separator from an edge cut.
    Edge,

    /// Grow a bisection using a greedy node-based strategy.
    Node,
}

impl Sealed for IpType {

}

impl Opt for IpType {
    open spec fn spec_index() -> int {
        3
    }

    open spec fn spec_value(self) -> Idx {
        match self {
            IpType::Grow => 0,
            IpType::Random => 1,
            IpType::Edge => 2,
            IpType::Node => 3,
        }
    }

    fn index() -> usize {
        3
    }

    fn value(self) -> Idx {
        match self {
            IpType::Grow => 0,
            IpType::Random => 1,
            IpType::Edge => 2,
            IpType::Node => 3,
        }
    }
}

/// Determines the algorithm used for refinement.
pub enum RType {
    /// FM-based cut refinement.
    Fm,

    /// Greedy-based cut and volume refinement.
    Greedy,

    /// Two-sided FM refinement.
    Sep2Sided,

    /// One-sided FM refinement.
    Sep1Sided,
}

impl Sealed for RType {

}

impl Opt for RType {
    open spec fn spec_index() -> int {
        4
    }

    open spec fn spec_value(self) -> Idx {
        match self {
            RType::Fm => 0,
            RType::Greedy => 1,
            RType::Sep2Sided => 2,
            RType::Sep1Sided => 3,
        }
    }

    fn index() -> usize {
        4
    }

    fn value(self) -> Idx {
        match self {
            RType::Fm => 0,
            RType::Greedy => 1,
            RType::Sep2Sided => 2,
            RType::Sep1Sided => 3,
        }
    }
}

/// Specifies the number of different partitionings that it will compute.  The
/// final partitioning is the one that achieves the best edgecut or
/// communication volume.  Default is 1.
pub struct NCuts(pub Idx);

impl Sealed for NCuts {

}

impl Opt for NCuts {
    open spec fn spec_index() -> int {
        7
    }

    open spec fn spec_value(self) -> Idx {
        self.0
    }

    fn index() -> usize {
        7
    }

    fn value(self) -> Idx {
        self.0
    }
}

/// Specifies the number of different separators that it will compute at each
/// level of nested dissection.
///
/// The final separator that is used is the smallest one.  Default is 1.
pub struct NSeps(pub Idx);

impl Sealed for NSeps {

}

impl Opt for NSeps {
    open spec fn spec_index() -> int {
        15
    }

    open spec fn spec_value(self) -> Idx {
        self.0
    }

    fn index() -> usize {
        15
    }

    fn value(self) -> Idx {
        self.0
    }
}

/// Used to indicate which numbering scheme is used for the adjacency
/// structure of a graph or the element-node structure of a mesh.
pub enum Numbering {
    /// C-style numbering which is assumed to start from 0.
    C,

    /// Fortran-style numbering which is assumed to start from 1.
    Fortran,
}

impl Sealed for Numbering {

}

impl Opt for Numbering {
    open spec fn spec_index() -> int {
        17
    }

    open spec fn spec_value(self) -> Idx {
        match self {
            Numbering::C => 0,
            Numbering::Fortran => 1,
        }
    }

    fn index() -> usize {
        17
    }

    fn value(self) -> Idx {
        match self {
            Numbering::C => 0,
            Numbering::Fortran => 1,
        }
    }
}

/// Specifies the number of iterations for the refinement algorithms at each
/// stage of the uncoarsening process.
///
/// Default is 10.
pub struct NIter(pub Idx);

impl Sealed for NIter {

}

impl Opt for NIter {
    open spec fn spec_index() -> int {
        6
    }

    open spec fn spec_value(self) -> Idx {
        self.0
    }

    fn index() -> usize {
        6
    }

    fn value(self) -> Idx {
        self.0
    }
}

/// Specifies the seed for the random number generator.
pub struct Seed(pub Idx);

impl Sealed for Seed {

}

impl Opt for Seed {
    open spec fn spec_index() -> int {
        8
    }

    open spec fn spec_value(self) -> Idx {
        self.0
    }

    fn index() -> usize {
        8
    }

    fn value(self) -> Idx {
        self.0
    }
}

/// Specifies that the partitioning routines should try to minimize the
/// maximum degree of the subdomain graph.
///
/// I.e., the graph in which each partition is a node, and edges connect
/// subdomains with a shared interface.
pub struct MinConn(pub bool);

impl Sealed for MinConn {

}

impl Opt for MinConn {
    open spec fn spec_index() -> int {
        10
    }

    open spec fn spec_value(self) -> Idx {
        if self.0 {
            1
        } else {
            0
        }
    }

    fn index() -> usize {
        10
    }

    fn value(self) -> Idx {
        if self.0 {
            1
        } else {
            0
        }
    }
}

/// Specifies that the coarsening will not perform any 2-hop matchings when
/// the standard matching approach fails to sufficiently coarsen the graph.
///
/// The 2-hop matching is very effective for graphs with power-law degree
/// distributions.
pub struct No2Hop(pub bool);

impl Sealed for No2Hop {

}

impl Opt for No2Hop {
    open spec fn spec_index() -> int {
        9
    }

    open spec fn spec_value(self) -> Idx {
        if self.0 {
            1
        } else {
            0
        }
    }

    fn index() -> usize {
        9
    }

    fn value(self) -> Idx {
        if self.0 {
            1
        } else {
            0
        }
    }
}

/// Specifies that the partitioning routines should try to produce partitions
/// that are contiguous.
///
/// Note that if the input graph is not connected this option is ignored.
pub struct Contig(pub bool);

impl Sealed for Contig {

}

impl Opt for Contig {
    open spec fn spec_index() -> int {
        11
    }

    open spec fn spec_value(self) -> Idx {
        if self.0 {
            1
        } else {
            0
        }
    }

    fn index() -> usize {
        11
    }

    fn value(self) -> Idx {
        if self.0 {
            1
        } else {
            0
        }
    }
}

/// Specifies that the graph should be compressed by combining together
/// vertices that have identical adjacency lists.
pub struct Compress(pub bool);

impl Sealed for Compress {

}

impl Opt for Compress {
    open spec fn spec_index() -> int {
        12
    }

    open spec fn spec_value(self) -> Idx {
        if self.0 {
            1
        } else {
            0
        }
    }

    fn index() -> usize {
        12
    }

    fn value(self) -> Idx {
        if self.0 {
            1
        } else {
            0
        }
    }
}

/// Specifies if the connected components of the graph should first be
/// identified and ordered separately.
pub struct CCOrder(pub bool);

impl Sealed for CCOrder {

}

impl Opt for CCOrder {
    open spec fn spec_index() -> int {
        13
    }

    open spec fn spec_value(self) -> Idx {
        if self.0 {
            1
        } else {
            0
        }
    }

    fn index() -> usize {
        13
    }

    fn value(self) -> Idx {
        if self.0 {
            1
        } else {
            0
        }
    }
}

/// Specifies the minimum degree of the vertices that will be ordered last.
///
/// If the specified value is `x > 0`, then any vertices with a degree greater
/// than `0.1*x*(average degree)` are removed from the graph, an ordering of
/// the rest of the vertices is computed, and an overall ordering is computed
/// by ordering the removed vertices at the end of the overall ordering.
/// Good values are often in the range of 60 to 200.  Default value is 0,
/// indicating that no vertices are removed.
pub struct PFactor(pub Idx);

impl Sealed for PFactor {

}

impl Opt for PFactor {
    open spec fn spec_index() -> int {
        14
    }

    open spec fn spec_value(self) -> Idx {
        self.0
    }

    fn index() -> usize {
        14
    }

    fn value(self) -> Idx {
        self.0
    }
}

/// Specifies the maximum allowed load imbalance among the partitions.
///
/// A value of `x` indicates that the allowed load imbalance is `(1 + x)/1000`.
/// For recursive bisectioning, the default value is 1 (i.e., load imbalance
/// of 1.001) and for k-way partitioning, the default value is 30 (i.e., load
/// imbalance of 1.03).
pub struct UFactor(pub Idx);

impl Sealed for UFactor {

}

impl Opt for UFactor {
    open spec fn spec_index() -> int {
        16
    }

    open spec fn spec_value(self) -> Idx {
        self.0
    }

    fn index() -> usize {
        16
    }

    fn value(self) -> Idx {
        self.0
    }
}

/// Specifies the amount of progress/debugging information that will be
/// printed during the execution of the algorithms.
///
/// The solver reads this option as a bitmask assembled from nine independent
/// flags; the bit of each flag is fixed by the solver's interface.  The
/// default value is false for every field (no debugging/progress
/// information).
pub struct DbgLvl {
    /// Prints various diagnostic messages.
    pub info: bool,

    /// Performs timing analysis.
    pub time: bool,

    /// Displays various statistics during coarsening.
    pub coarsen: bool,

    /// Displays various statistics during refinement.
    pub refine: bool,

    /// Displays various statistics during initial partitioning.
    pub ipart: bool,

    /// Display detailed information about vertex moves during refinement.
    pub move_info: bool,

    /// Display detailed information about vertex separators.
    pub sep_info: bool,

    /// Display information related to the minimization of subdomain
    /// connectivity.
    pub conn_info: bool,

    /// Display information related to the elimination of connected
    /// components.
    pub contig_info: bool,
}

impl Sealed for DbgLvl {

}

impl Opt for DbgLvl {
    open spec fn spec_index() -> int {
        5
    }

    open spec fn spec_value(self) -> Idx {
        (if self.info {
            1i32
        } else {
            0i32
        }) | (if self.time {
            2i32
        } else {
            0i32
        }) | (if self.coarsen {
            4i32
        } else {
            0i32
        }) | (if self.refine {
            8i32
        } else {
            0i32
        }) | (if self.ipart {
            16i32
        } else {
            0i32
        }) | (if self.move_info {
            32i32
        } else {
            0i32
        }) | (if self.sep_info {
            64i32
        } else {
            0i32
        }) | (if self.conn_info {
            128i32
        } else {
            0i32
        }) | (if self.contig_info {
            256i32
        } else {
            0i32
        })
    }

    fn index() -> usize {
        5
    }

    fn value(self) -> Idx {
        (if self.info {
            1i32
        } else {
            0i32
        }) | (if self.time {
            2i32
        } else {
            0i32
        }) | (if self.coarsen {
            4i32
        } else {
            0i32
        }) | (if self.refine {
            8i32
        } else {
            0i32
        }) | (if self.ipart {
            16i32
        } else {
            0i32
        }) | (if self.move_info {
            32i32
        } else {
            0i32
        }) | (if self.sep_info {
            64i32
        } else {
            0i32
        }) | (if self.conn_info {
            128i32
        } else {
            0i32
        }) | (if self.contig_info {
            256i32
        } else {
            0i32
        })
    }
}

} // verus!
