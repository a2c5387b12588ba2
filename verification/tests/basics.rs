#[test]
fn lib_it_works() {
    let result = stack_vm::add(2, 2);
    assert_eq!(result, 4);
}

#[test]
fn mod_it_works() {
    let result = stack_vm::types::add(2, 2);
    assert_eq!(result, 4);
}
