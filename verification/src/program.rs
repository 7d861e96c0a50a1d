//! The example program: a root scope holding module A and module B, the call
//! expressions it makes, the resolver's pass over them, and the three lines
//! it writes. The output is a fixed value: no input, no configuration, no
//! hidden state.

use vstd::prelude::*;
use crate::module_a;
use crate::module_b;
use crate::visibility::Accessibility;
use crate::visibility::Call;
use crate::visibility::Item;
use crate::visibility::ScopeTree;
use crate::visibility::call_accepted;
use crate::visibility::call_in_tree;
use crate::visibility::check_calls;

verus! {

/// Index of the root scope in the example's tree.
pub const ROOT_SCOPE: usize = 0;

/// Index of module A, a child of the root.
pub const MODULE_A: usize = 1;

/// Index of module B, a child of the root.
pub const MODULE_B: usize = 2;

/// The three lines of the program's output, in program order: the public
/// function's line, the private function's line, and the public function's
/// line once more.
pub open spec fn program_lines() -> Seq<Seq<char>> {
    seq![module_a::public_message(), module_a::private_message(), module_a::public_message()]
}

/// Builds the scope tree of the example: a root with module A and module B
/// as its children.
pub fn example_tree() -> (t: ScopeTree)
    ensures
        t.wf(),
        t@.len() == 3,
        t@[ROOT_SCOPE as int].parent is None,
        t@[MODULE_A as int].parent == Some(ROOT_SCOPE),
        t@[MODULE_B as int].parent == Some(ROOT_SCOPE),
        t@[ROOT_SCOPE as int].name@ == "crate"@,
        t@[MODULE_A as int].name@ == "module_a"@,
        t@[MODULE_B as int].name@ == "module_b"@,
{
    let mut t = ScopeTree::new(String::from_str("crate"));
    let _a: usize = t.add_scope(String::from_str("module_a"), ROOT_SCOPE);
    let _b: usize = t.add_scope(String::from_str("module_b"), ROOT_SCOPE);
    t
}

/// The call expressions of the example program, in program order: the root
/// calls A's public function, A's caller of the private function, and B's
/// function; inside A the private function is called from its own scope; and
/// inside B the sibling's public function is called by an explicit path.
/// Every one of them is accepted by the visibility rule.
pub fn example_calls() -> (r: Vec<Call>)
    ensures
        r@.len() == 5,
        forall|i: int| 0 <= i < r@.len() ==> call_in_tree(#[trigger] r@[i], 3),
        forall|i: int| 0 <= i < r@.len() ==> call_accepted(#[trigger] r@[i]),
        r@[0].caller == ROOT_SCOPE && r@[0].item.owner == MODULE_A
            && r@[0].item.accessibility is Public && r@[0].item.name@ == "public_function"@,
        r@[1].caller == ROOT_SCOPE && r@[1].item.owner == MODULE_A
            && r@[1].item.accessibility is Public
            && r@[1].item.name@ == "call_private_function"@,
        r@[2].caller == ROOT_SCOPE && r@[2].item.owner == MODULE_B
            && r@[2].item.accessibility is Public && r@[2].item.name@ == "some_function"@,
        r@[3].caller == MODULE_A && r@[3].item.owner == MODULE_A
            && r@[3].item.accessibility is Private
            && r@[3].item.name@ == "private_function"@,
        r@[4].caller == MODULE_B && r@[4].item.owner == MODULE_A
            && r@[4].item.accessibility is Public && r@[4].item.name@ == "public_function"@,
{
    let mut r: Vec<Call> = Vec::new();
    r.push(Call {
        caller: ROOT_SCOPE,
        item: Item {
            name: String::from_str("public_function"),
            owner: MODULE_A,
            accessibility: Accessibility::Public,
        },
    });
    r.push(Call {
        caller: ROOT_SCOPE,
        item: Item {
            name: String::from_str("call_private_function"),
            owner: MODULE_A,
            accessibility: Accessibility::Public,
        },
    });
    r.push(Call {
        caller: ROOT_SCOPE,
        item: Item {
            name: String::from_str("some_function"),
            owner: MODULE_B,
            accessibility: Accessibility::Public,
        },
    });
    r.push(Call {
        caller: MODULE_A,
        item: Item {
            name: String::from_str("private_function"),
            owner: MODULE_A,
            accessibility: Accessibility::Private,
        },
    });
    r.push(Call {
        caller: MODULE_B,
        item: Item {
            name: String::from_str("public_function"),
            owner: MODULE_A,
            accessibility: Accessibility::Public,
        },
    });
    r
}

/// Produces the program's output: the three lines of `program_lines`, in
/// that order and nothing else.
pub fn program_output() -> (r: Vec<String>)
    ensures
        r@.len() == 3,
        r@.map_values(|s: String| s@) == program_lines(),
{
    let mut out: Vec<String> = Vec::new();
    out.push(module_a::public_function());
    out.push(module_a::call_private_function());
    out.push(module_b::some_function());
    proof {
        assert(out@.map_values(|s: String| s@) =~= program_lines());
    }
    out
}

/// The whole example, build and run: the resolver's pass walks every call
/// expression first; were any denied, the program would never run and there
/// would be no output. Every call of this program is accepted, so the result
/// is always the three lines.
pub fn run_program() -> (r: Option<Vec<String>>)
    ensures
        r matches Some(lines) && lines@.map_values(|s: String| s@) == program_lines(),
{
    let tree = example_tree();
    let calls = example_calls();
    if check_calls(&tree, &calls) {
        Some(program_output())
    } else {
        None
    }
}

/// Law: the program is idempotent. Any two runs satisfy the same exact
/// description of the output, so they produce identical lines.
pub proof fn lemma_output_identical(a: Seq<Seq<char>>, b: Seq<Seq<char>>)
    requires
        a == program_lines(),
        b == program_lines(),
    ensures
        a == b,
{
}

} // verus!
