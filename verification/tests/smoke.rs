use threescalers::version::VERSION;

#[test]
fn it_works() {
    assert!(!VERSION.is_empty());
}
