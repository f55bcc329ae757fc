use rsv::setup::Extent;

#[test]
fn it_works() {
    assert_eq!(2 + 2, 4);
}

#[test]
fn crate_is_linked() {
    let e = Extent { width: 1, height: 2 };
    assert_eq!(e.width + e.height, 3);
}
