#[test]
fn it_works() {
    let result = vortekia::add(2, 2);
    assert_eq!(result, 4);
}
