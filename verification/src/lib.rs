//! A safety layer between application code and a foreign graph- and
//! mesh-partitioning solver.
//!
//! The foreign solver accepts flat integer arrays in a packed-adjacency
//! (CSR-like) format and has no memory-safety guarantees of its own: malformed
//! input corrupts memory or crashes the process.  This crate proves, before
//! any foreign call is made, that a set of flat arrays describes a
//! structurally valid graph or mesh, assembles the request object that tracks
//! the optional attribute arrays and the fixed-size tuning-option vector, and
//! interprets the solver's return status.
//!
//! The foreign call itself cannot be verified and is left to the embedding
//! program: the terminal methods of [`Graph`] and [`Mesh`] perform every part
//! of a solve that does not cross the foreign boundary, and
//! [`wrap_status`] turns the status code the solver hands back into a typed
//! result.

use vstd::prelude::*;

pub mod graph;
pub mod mesh;
pub mod option;

pub use graph::Graph;
pub use mesh::check_mesh_structure;
pub use mesh::Dual;
pub use mesh::Mesh;

verus! {

/// Integer type used by the solver for indices, counts and option values.
pub type Idx = i32;

/// The length of the fine-tuning option array.
///
/// See [`Graph::set_options`] and [`Mesh::set_options`].
pub const NOPTIONS: usize = 40;

/// Status code with which the solver reports success.
pub const STATUS_OK: Idx = 1;

/// Status code with which the solver reports invalid input.
pub const STATUS_ERROR_INPUT: Idx = -2;

/// Status code with which the solver reports that it ran out of memory.
pub const STATUS_ERROR_MEMORY: Idx = -3;

/// Status code with which the solver reports an unspecified failure.
pub const STATUS_ERROR: Idx = -4;

/// Error type derived from the status code of a terminal solve operation.
#[derive(Debug, Clone, Copy, PartialEq, Eq, Structural)]
pub enum Error {
    /// Input is invalid.
    ///
    /// This layer checks for most input errors before the solver runs, if not
    /// all.
    Input,

    /// The solver hit an out-of-memory error.
    Memory,

    /// The solver returned an error but its meaning is unknown.
    Other,
}

/// The result of a partitioning.
pub type Result<T> = core::result::Result<T, Error>;

/// The structural violations that validated construction can report.
///
/// Each variant names the first check, in validation order, that the input
/// arrays fail.
#[derive(Debug, Clone, Copy, PartialEq, Eq, Structural)]
pub enum NewErrorKind {
    /// The constraint count is not strictly positive.
    InvalidNumberOfConstraints,

    /// The part count is not strictly positive.
    InvalidNumberOfParts,

    /// The offsets array is empty.
    XadjIsEmpty,

    /// The offsets array is longer than an [`Idx`] can count.
    XadjIsTooLarge,

    /// The offsets array is not non-decreasing, or starts below zero.
    XadjIsNotSorted,

    /// The last element of the offsets array is negative.
    InvalidLastXadj,

    /// The last element of the offsets array is not the length of the items
    /// array.
    BadAdjncyLength,

    /// An element of the items array is out of bounds.
    AdjncyOutOfBounds,
}

/// Error type returned by [`Graph::new`] and [`Mesh::new`].
///
/// This error means the input arrays are malformed and cannot be safely
/// passed to the solver.
#[derive(Debug, Clone, Copy, PartialEq, Eq, Structural)]
pub struct NewError {
    /// The first structural check that the input fails.
    pub kind: NewErrorKind,
}

impl From<NewError> for Error {
    /// Collapses a structural violation to the coarse taxonomy: every
    /// malformed input is an input error.
    fn from(e: NewError) -> (r: Self) {
        Error::Input
    }
}

impl vstd::std_specs::convert::FromSpecImpl<NewError> for Error {
    open spec fn obeys_from_spec() -> bool {
        true
    }

    open spec fn from_spec(e: NewError) -> Self {
        Error::Input
    }
}

/// Holds exactly when `status` is one of the four codes the solver is
/// documented to return.
///
/// Any other value is a contract violation by the foreign side; the caller
/// must treat it as fatal rather than coerce it to an error value.
pub open spec fn known_status(status: Idx) -> bool {
    ||| status == STATUS_OK
    ||| status == STATUS_ERROR_INPUT
    ||| status == STATUS_ERROR_MEMORY
    ||| status == STATUS_ERROR
}

/// Interprets the status code of a foreign call, together with the quality
/// metric the call produced, as a typed result.
pub fn wrap_status(status: Idx, metric: Idx) -> (r: Result<Idx>)
    requires
        known_status(status),
    ensures
        status == STATUS_OK ==> r == Result::<Idx>::Ok(metric),
        status == STATUS_ERROR_INPUT ==> r == Result::<Idx>::Err(Error::Input),
        status == STATUS_ERROR_MEMORY ==> r == Result::<Idx>::Err(Error::Memory),
        status == STATUS_ERROR ==> r == Result::<Idx>::Err(Error::Other),
{
    if status == STATUS_OK {
        Ok(metric)
    } else if status == STATUS_ERROR_INPUT {
        Err(Error::Input)
    } else if status == STATUS_ERROR_MEMORY {
        Err(Error::Memory)
    } else {
        Err(Error::Other)
    }
}

} // verus!
