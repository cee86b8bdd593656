//! The fine-tuning option registry.

use metis::option::CCOrder;
use metis::option::CType;
use metis::option::Compress;
use metis::option::Contig;
use metis::option::DbgLvl;
use metis::option::IpType;
use metis::option::MinConn;
use metis::option::NCuts;
use metis::option::NIter;
use metis::option::No2Hop;
use metis::option::NSeps;
use metis::option::Numbering;
use metis::option::ObjType;
use metis::option::Opt;
use metis::option::PFactor;
use metis::option::PType;
use metis::option::RType;
use metis::option::Seed;
use metis::option::UFactor;
use metis::Graph;
use metis::Mesh;
use metis::NOPTIONS;

#[test]
fn each_parameter_has_its_fixed_slot() {
    assert_eq!(PType::index(), 0);
    assert_eq!(ObjType::index(), 1);
    assert_eq!(CType::index(), 2);
    assert_eq!(IpType::index(), 3);
    assert_eq!(RType::index(), 4);
    assert_eq!(DbgLvl::index(), 5);
    assert_eq!(NIter::index(), 6);
    assert_eq!(NCuts::index(), 7);
    assert_eq!(Seed::index(), 8);
    assert_eq!(No2Hop::index(), 9);
    assert_eq!(MinConn::index(), 10);
    assert_eq!(Contig::index(), 11);
    assert_eq!(Compress::index(), 12);
    assert_eq!(CCOrder::index(), 13);
    assert_eq!(PFactor::index(), 14);
    assert_eq!(NSeps::index(), 15);
    assert_eq!(UFactor::index(), 16);
    assert_eq!(Numbering::index(), 17);
}

#[test]
fn enumerated_parameters_encode_their_variants() {
    assert_eq!(PType::Rb.value(), 0);
    assert_eq!(PType::Kway.value(), 1);
    assert_eq!(ObjType::Cut.value(), 0);
    assert_eq!(ObjType::Vol.value(), 1);
    assert_eq!(CType::Rm.value(), 0);
    assert_eq!(CType::Shem.value(), 1);
    assert_eq!(IpType::Grow.value(), 0);
    assert_eq!(IpType::Random.value(), 1);
    assert_eq!(IpType::Edge.value(), 2);
    assert_eq!(IpType::Node.value(), 3);
    assert_eq!(RType::Fm.value(), 0);
    assert_eq!(RType::Greedy.value(), 1);
    assert_eq!(RType::Sep2Sided.value(), 2);
    assert_eq!(RType::Sep1Sided.value(), 3);
    assert_eq!(Numbering::C.value(), 0);
    assert_eq!(Numbering::Fortran.value(), 1);
}

#[test]
fn integer_and_flag_parameters_pass_their_value_through() {
    assert_eq!(NCuts(3).value(), 3);
    assert_eq!(NSeps(2).value(), 2);
    assert_eq!(NIter(10).value(), 10);
    assert_eq!(Seed(-1).value(), -1);
    assert_eq!(PFactor(60).value(), 60);
    assert_eq!(UFactor(30).value(), 30);
    assert_eq!(MinConn(true).value(), 1);
    assert_eq!(MinConn(false).value(), 0);
    assert_eq!(No2Hop(true).value(), 1);
    assert_eq!(Contig(true).value(), 1);
    assert_eq!(Compress(false).value(), 0);
    assert_eq!(CCOrder(true).value(), 1);
}

fn quiet_dbg() -> DbgLvl {
    DbgLvl {
        info: false,
        time: false,
        coarsen: false,
        refine: false,
        ipart: false,
        move_info: false,
        sep_info: false,
        conn_info: false,
        contig_info: false,
    }
}

#[test]
fn debug_level_is_a_bitmask_at_fixed_positions() {
    assert_eq!(quiet_dbg().value(), 0);

    let mut d = quiet_dbg();
    d.info = true;
    assert_eq!(d.value(), 1);

    let mut d = quiet_dbg();
    d.time = true;
    assert_eq!(d.value(), 2);

    let mut d = quiet_dbg();
    d.coarsen = true;
    assert_eq!(d.value(), 4);

    let mut d = quiet_dbg();
    d.refine = true;
    assert_eq!(d.value(), 8);

    let mut d = quiet_dbg();
    d.ipart = true;
    assert_eq!(d.value(), 16);

    let mut d = quiet_dbg();
    d.move_info = true;
    assert_eq!(d.value(), 32);

    let mut d = quiet_dbg();
    d.sep_info = true;
    assert_eq!(d.value(), 64);

    let mut d = quiet_dbg();
    d.conn_info = true;
    assert_eq!(d.value(), 128);

    let mut d = quiet_dbg();
    d.contig_info = true;
    assert_eq!(d.value(), 256);

    let mut d = quiet_dbg();
    d.info = true;
    d.coarsen = true;
    d.contig_info = true;
    assert_eq!(d.value(), 261);
}

#[test]
fn set_option_writes_one_slot() {
    let g = Graph::new(1, 2, vec![0, 1, 2], vec![1, 0]).unwrap();
    let g = g.set_option(NIter(4));
    assert_eq!(g.options[NIter::index()], 4);
    // Every other slot keeps its unset sentinel.
    for (i, &v) in g.options.iter().enumerate() {
        if i != NIter::index() {
            assert_eq!(v, -1);
        }
    }

    let g = g.set_option(PType::Kway).set_option(Seed(1234));
    assert_eq!(g.options[PType::index()], 1);
    assert_eq!(g.options[Seed::index()], 1234);
    assert_eq!(g.options[NIter::index()], 4);
}

#[test]
fn set_options_replaces_the_whole_vector() {
    let mut options = [-1; NOPTIONS];
    options[NIter::index()] = 4;
    options[UFactor::index()] = 100;
    let g = Graph::new(1, 2, vec![0, 1, 2], vec![1, 0])
        .unwrap()
        .set_options(&options);
    assert_eq!(g.options, options.to_vec());
}

#[test]
fn mesh_options_behave_like_graph_options() {
    let m = Mesh::new(2, vec![0, 3, 6], vec![0, 1, 2, 1, 2, 3]).unwrap();
    let m = m.set_option(Seed(42));
    assert_eq!(m.options[Seed::index()], 42);

    let mut options = [-1; NOPTIONS];
    options[CType::index()] = CType::Shem.value();
    let m = m.set_options(&options);
    assert_eq!(m.options, options.to_vec());
}
