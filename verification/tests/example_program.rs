use scope_example::module_a;
use scope_example::module_b;
use scope_example::program;

#[test]
fn public_function_line() {
    assert_eq!(module_a::public_function(), "This is a public function in module A");
}

#[test]
fn call_private_function_line() {
    assert_eq!(module_a::call_private_function(), "This is a private function in module A");
}

#[test]
fn some_function_line() {
    assert_eq!(module_b::some_function(), "This is a public function in module A");
}

#[test]
fn program_output_is_exactly_three_lines_in_order() {
    let lines = program::program_output();
    assert_eq!(
        lines,
        vec![
            "This is a public function in module A".to_string(),
            "This is a private function in module A".to_string(),
            "This is a public function in module A".to_string(),
        ]
    );
}

#[test]
fn rerunning_the_program_is_idempotent() {
    let first = program::program_output();
    let second = program::program_output();
    let third = program::program_output();
    assert_eq!(first, second);
    assert_eq!(second, third);
}

#[test]
fn run_program_accepts_every_call_and_yields_the_lines() {
    let result = program::run_program();
    assert_eq!(result, Some(program::program_output()));
}

#[test]
fn example_tree_holds_the_three_scopes() {
    let t = program::example_tree();
    assert_eq!(t.num_scopes(), 3);
}
