//! Structural validation of graphs and meshes.

use metis::check_mesh_structure;
use metis::Graph;
use metis::Mesh;
use metis::NewErrorKind;

/// Two vertices joined by one mutual edge.
fn tiny_graph() -> (Vec<i32>, Vec<i32>) {
    (vec![0, 1, 2], vec![1, 0])
}

/// A connected 5-by-3 planar grid, 15 vertices in row-major order.
fn grid_graph() -> (Vec<i32>, Vec<i32>) {
    let xadj = vec![0, 2, 5, 8, 11, 13, 16, 20, 24, 28, 31, 33, 36, 39, 42, 44];
    let adjncy = vec![
        1, 5, 0, 2, 6, 1, 3, 7, 2, 4, 8, 3, 9, 0, 6, 10, 1, 5, 7, 11, 2, 6, 8, 12, 3, 7, 9, 13, 4,
        8, 14, 5, 11, 6, 10, 12, 7, 11, 13, 8, 12, 14, 9, 13,
    ];
    (xadj, adjncy)
}

#[test]
fn tiny_graph_is_accepted() {
    let (xadj, adjncy) = tiny_graph();
    let g = Graph::new(1, 2, xadj, adjncy).unwrap();
    assert_eq!(g.ncon, 1);
    assert_eq!(g.nparts, 2);
    assert_eq!(g.xadj, vec![0, 1, 2]);
    assert_eq!(g.adjncy, vec![1, 0]);
    assert!(g.vwgt.is_none());
    assert!(g.vsize.is_none());
    assert!(g.adjwgt.is_none());
    assert!(g.tpwgts.is_none());
    assert!(g.ubvec.is_none());
    assert_eq!(g.options, vec![-1; metis::NOPTIONS]);
}

#[test]
fn grid_graph_is_accepted() {
    let (xadj, adjncy) = grid_graph();
    let g = Graph::new(1, 2, xadj, adjncy).unwrap();
    assert_eq!(g.xadj.len(), 16);
    assert_eq!(g.adjncy.len(), 44);
}

#[test]
fn checked_and_unchecked_agree() {
    let (xadj, adjncy) = tiny_graph();
    let g1 = Graph::new(1, 2, xadj, adjncy).unwrap();
    let (xadj, adjncy) = tiny_graph();
    let g2 = Graph::new_unchecked(1, 2, xadj, adjncy);
    assert_eq!(g1, g2);

    let (xadj, adjncy) = grid_graph();
    let g1 = Graph::new(1, 2, xadj, adjncy).unwrap();
    let (xadj, adjncy) = grid_graph();
    let g2 = Graph::new_unchecked(1, 2, xadj, adjncy);
    assert_eq!(g1, g2);
}

#[test]
fn zero_constraints_are_rejected() {
    let (xadj, adjncy) = tiny_graph();
    let e = Graph::new(0, 2, xadj, adjncy).unwrap_err();
    assert_eq!(e.kind, NewErrorKind::InvalidNumberOfConstraints);
}

#[test]
fn negative_constraints_are_rejected() {
    let (xadj, adjncy) = tiny_graph();
    let e = Graph::new(-3, 2, xadj, adjncy).unwrap_err();
    assert_eq!(e.kind, NewErrorKind::InvalidNumberOfConstraints);
}

#[test]
fn zero_parts_are_rejected() {
    let (xadj, adjncy) = tiny_graph();
    let e = Graph::new(1, 0, xadj, adjncy).unwrap_err();
    assert_eq!(e.kind, NewErrorKind::InvalidNumberOfParts);
}

#[test]
fn empty_offsets_are_rejected() {
    let e = Graph::new(1, 2, Vec::new(), Vec::new()).unwrap_err();
    assert_eq!(e.kind, NewErrorKind::XadjIsEmpty);
}

#[test]
fn negative_last_offset_is_rejected() {
    let e = Graph::new(1, 2, vec![0, -1], Vec::new()).unwrap_err();
    assert_eq!(e.kind, NewErrorKind::InvalidLastXadj);
}

#[test]
fn mismatched_items_length_is_rejected() {
    let e = Graph::new(1, 2, vec![0, 1], Vec::new()).unwrap_err();
    assert_eq!(e.kind, NewErrorKind::BadAdjncyLength);
}

#[test]
fn unsorted_offsets_are_rejected() {
    let e = Graph::new(1, 2, vec![0, 2, 1], vec![0]).unwrap_err();
    assert_eq!(e.kind, NewErrorKind::XadjIsNotSorted);
}

#[test]
fn negative_first_offset_is_rejected_as_unsorted() {
    // The sortedness scan starts from zero, so offsets that begin below zero
    // fail it even though they are non-decreasing.
    let e = Graph::new(1, 2, vec![-2, -1, 1], vec![0]).unwrap_err();
    assert_eq!(e.kind, NewErrorKind::XadjIsNotSorted);
}

#[test]
fn out_of_range_item_is_rejected() {
    // Vertex index 2 does not exist in a graph of two vertices.
    let e = Graph::new(1, 2, vec![0, 1, 2], vec![2, 0]).unwrap_err();
    assert_eq!(e.kind, NewErrorKind::AdjncyOutOfBounds);
}

#[test]
fn negative_item_is_rejected() {
    let e = Graph::new(1, 2, vec![0, 1, 2], vec![-1, 0]).unwrap_err();
    assert_eq!(e.kind, NewErrorKind::AdjncyOutOfBounds);
}

#[test]
fn length_checks_run_before_sortedness() {
    // The offsets are unsorted and their last element is negative; the
    // last-offset check runs first.
    let e = Graph::new(1, 2, vec![3, 5, -1], vec![0]).unwrap_err();
    assert_eq!(e.kind, NewErrorKind::InvalidLastXadj);
}

#[test]
fn mesh_node_count_is_derived() {
    let nn = check_mesh_structure(&vec![0, 1, 2], &vec![5, 3]).unwrap();
    assert_eq!(nn, 6);
}

#[test]
fn mesh_without_items_has_one_node() {
    // The running maximum starts at zero, so even an empty mesh derives a
    // node count of one.
    let nn = check_mesh_structure(&vec![0, 0], &Vec::new()).unwrap();
    assert_eq!(nn, 1);
}

#[test]
fn mesh_unsorted_offsets_are_rejected() {
    let e = check_mesh_structure(&vec![1, 0], &Vec::new()).unwrap_err();
    assert_eq!(e.kind, NewErrorKind::XadjIsNotSorted);
}

#[test]
fn mesh_mismatched_items_length_is_rejected() {
    let e = check_mesh_structure(&vec![0, 2], &vec![0]).unwrap_err();
    assert_eq!(e.kind, NewErrorKind::BadAdjncyLength);
}

#[test]
fn mesh_negative_item_is_rejected() {
    let e = check_mesh_structure(&vec![0, 1], &vec![-4]).unwrap_err();
    assert_eq!(e.kind, NewErrorKind::AdjncyOutOfBounds);
}

#[test]
fn mesh_zero_parts_are_rejected() {
    let e = Mesh::new(0, vec![0, 1], vec![0]).unwrap_err();
    assert_eq!(e.kind, NewErrorKind::InvalidNumberOfParts);
}

#[test]
fn mesh_construction_derives_node_count() {
    // Two triangles sharing an edge: nodes {0, 1, 2} and {1, 2, 3}.
    let m = Mesh::new(2, vec![0, 3, 6], vec![0, 1, 2, 1, 2, 3]).unwrap();
    assert_eq!(m.nn, 4);
    assert_eq!(m.nparts, 2);
    assert_eq!(m.ncommon, 1);
    assert_eq!(m.eptr, vec![0, 3, 6]);
    assert_eq!(m.eind, vec![0, 1, 2, 1, 2, 3]);
    assert!(m.vwgt.is_none());
    assert!(m.vsize.is_none());
    assert!(m.tpwgts.is_none());
    assert_eq!(m.options, vec![-1; metis::NOPTIONS]);
}

#[test]
fn mesh_checked_and_unchecked_agree() {
    let m1 = Mesh::new(2, vec![0, 3, 6], vec![0, 1, 2, 1, 2, 3]).unwrap();
    let m2 = Mesh::new_unchecked(4, 2, vec![0, 3, 6], vec![0, 1, 2, 1, 2, 3]);
    assert_eq!(m1, m2);
}

#[test]
fn zero_vertex_graph_is_accepted() {
    // A single zero offset describes a graph with no vertices at all.
    let mut g = Graph::new(1, 1, vec![0], Vec::new()).unwrap();
    let mut part: Vec<i32> = Vec::new();
    let r = g.part_recursive(&mut part);
    assert_eq!(r, Some(0));
    assert!(part.is_empty());
}

#[test]
fn attribute_lengths_follow_the_constraint_count() {
    // With two constraints and two parts: vertex weights hold two values per
    // vertex, target weights two values per part, tolerances one per
    // constraint.
    let g = Graph::new(2, 2, vec![0, 1, 2], vec![1, 0])
        .unwrap()
        .set_vwgt(vec![1, 2, 3, 4])
        .set_tpwgts(vec![
            0.5f32.to_bits(),
            0.5f32.to_bits(),
            0.5f32.to_bits(),
            0.5f32.to_bits(),
        ])
        .set_ubvec(vec![1.01f32.to_bits(), 1.01f32.to_bits()]);
    assert_eq!(g.vwgt, Some(vec![1, 2, 3, 4]));
    assert_eq!(g.tpwgts.as_ref().unwrap().len(), 4);
    assert_eq!(g.ubvec.as_ref().unwrap().len(), 2);
}
