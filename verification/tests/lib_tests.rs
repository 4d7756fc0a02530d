use geovan::NAME;
use geovan::VERSION;

#[test]
fn test_version() {
    assert!(!VERSION.is_empty());
    assert!(!NAME.is_empty());
}
