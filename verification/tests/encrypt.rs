#[test]
fn test() {}
