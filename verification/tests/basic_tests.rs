// Basic tests for variable binding behaviour.

#[test]
fn test_immutability() {
    let x = 5;
    // Rebinding x without `mut` would be a compile-time error
    assert_eq!(x, 5);
}

#[test]
fn test_mutability() {
    let mut count = 0;
    count += 1;
    assert_eq!(count, 1);
}
