use scope_example::visibility::Accessibility;
use scope_example::visibility::Call;
use scope_example::visibility::Item;
use scope_example::visibility::Resolution;
use scope_example::visibility::ScopeTree;
use scope_example::visibility::check_calls;

fn two_sibling_scopes() -> ScopeTree {
    let mut t = ScopeTree::new("crate".to_string());
    t.add_scope("module_a".to_string(), 0);
    t.add_scope("module_b".to_string(), 0);
    t
}

#[test]
fn public_item_callable_from_every_scope() {
    let t = two_sibling_scopes();
    let item = Item {
        name: "public_function".to_string(),
        owner: 1,
        accessibility: Accessibility::Public,
    };
    assert_eq!(t.resolve(0, &item), Resolution::Callable);
    assert_eq!(t.resolve(1, &item), Resolution::Callable);
    assert_eq!(t.resolve(2, &item), Resolution::Callable);
}

#[test]
fn private_item_callable_only_from_declaring_scope() {
    let t = two_sibling_scopes();
    let item = Item {
        name: "private_function".to_string(),
        owner: 1,
        accessibility: Accessibility::Private,
    };
    assert_eq!(t.resolve(1, &item), Resolution::Callable);
    assert_eq!(t.resolve(0, &item), Resolution::Denied);
    assert_eq!(t.resolve(2, &item), Resolution::Denied);
}

#[test]
fn sibling_private_function_rejected() {
    // A second private function, declared in module B; module A tries to
    // call it, and the program is rejected before it runs.
    let t = two_sibling_scopes();
    let second = Item {
        name: "another_private_function".to_string(),
        owner: 2,
        accessibility: Accessibility::Private,
    };
    assert_eq!(t.resolve(1, &second), Resolution::Denied);
    let calls = vec![Call { caller: 1, item: second }];
    assert!(!check_calls(&t, &calls));
}

#[test]
fn check_calls_accepts_lawful_programs() {
    let t = two_sibling_scopes();
    let calls = vec![
        Call {
            caller: 2,
            item: Item {
                name: "public_function".to_string(),
                owner: 1,
                accessibility: Accessibility::Public,
            },
        },
        Call {
            caller: 1,
            item: Item {
                name: "private_function".to_string(),
                owner: 1,
                accessibility: Accessibility::Private,
            },
        },
    ];
    assert!(check_calls(&t, &calls));
    assert!(check_calls(&t, &vec![]));
}

#[test]
fn scope_tree_grows_one_scope_at_a_time() {
    let mut t = ScopeTree::new("crate".to_string());
    assert_eq!(t.num_scopes(), 1);
    let a = t.add_scope("module_a".to_string(), 0);
    assert_eq!(a, 1);
    let b = t.add_scope("module_b".to_string(), 0);
    assert_eq!(b, 2);
    assert_eq!(t.num_scopes(), 3);
}
