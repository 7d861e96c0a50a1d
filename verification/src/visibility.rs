//! The visibility resolver: scopes form a static tree, every item is declared
//! in exactly one scope with a fixed accessibility, and a call is accepted or
//! denied by comparing the calling scope against the declaring one.

use vstd::prelude::*;

verus! {

/// Accessibility of an item, fixed at declaration and never mutated.
#[derive(Clone, Copy, PartialEq, Eq, Structural, Debug)]
pub enum Accessibility {
    Public,
    Private,
}

/// A named function declared in exactly one scope of the tree; `owner` is the
/// index of that scope.
pub struct Item {
    pub name: String,
    pub owner: usize,
    pub accessibility: Accessibility,
}

/// One scope record of the arena: its name and the index of its parent
/// (`None` for the root), held as an index rather than a live reference.
pub struct Scope {
    pub name: String,
    pub parent: Option<usize>,
}

/// The static scope tree: a flat arena of scope records. Index 0 is the root;
/// every other scope points to a parent that stands strictly earlier in the
/// arena, so the tree is acyclic.
pub struct ScopeTree {
    scopes: Vec<Scope>,
}

impl View for ScopeTree {
    type V = Seq<Scope>;

    closed spec fn view(&self) -> Seq<Scope> {
        self.scopes@
    }
}

impl ScopeTree {
    /// Well-formedness: one root without a parent at index 0, and every later
    /// scope with a parent of smaller index.
    pub open spec fn wf(&self) -> bool {
        &&& self@.len() >= 1
        &&& self@[0].parent is None
        &&& forall|i: int|
            1 <= i < self@.len() ==> ((#[trigger] self@[i].parent) matches Some(p) && p < i)
    }

    /// A tree holding only the root scope.
    pub fn new(root_name: String) -> (t: ScopeTree)
        ensures
            t.wf(),
            t@.len() == 1,
            t@[0].name == root_name,
            t@[0].parent is None,
    {
        let mut scopes: Vec<Scope> = Vec::new();
        scopes.push(Scope { name: root_name, parent: None });
        ScopeTree { scopes }
    }

    /// Appends a scope as a child of an existing one and returns its index.
    /// The scopes already in the tree are untouched: the tree only grows.
    pub fn add_scope(&mut self, name: String, parent: usize) -> (idx: usize)
        requires
            old(self).wf(),
            parent < old(self)@.len(),
        ensures
            final(self).wf(),
            idx == old(self)@.len(),
            final(self)@.len() == old(self)@.len() + 1,
            final(self)@[idx as int].name == name,
            final(self)@[idx as int].parent == Some(parent),
            forall|i: int| 0 <= i < idx ==> final(self)@[i] == old(self)@[i],
    {
        let idx = self.scopes.len();
        self.scopes.push(Scope { name, parent: Some(parent) });
        idx
    }

    /// How many scopes the tree holds.
    pub fn num_scopes(&self) -> (n: usize)
        ensures
            n == self@.len(),
    {
        self.scopes.len()
    }

    /// Decides one call site: from the scope at index `caller` to `item`.
    ///
    /// A Public item is callable from every scope: in a static tree every
    /// scope can spell an explicit path to the declaring scope, so name
    /// resolution imposes no further condition. A Private item is callable
    /// only when the call stands lexically in its declaring scope. The
    /// decision is static: a denial is a build-time rejection, not a runtime
    /// failure.
    pub fn resolve(&self, caller: usize, item: &Item) -> (r: Resolution)
        requires
            caller < self@.len(),
            item.owner < self@.len(),
        ensures
            r == (if callable(caller as int, *item) {
                Resolution::Callable
            } else {
                Resolution::Denied
            }),
    {
        match item.accessibility {
            Accessibility::Public => Resolution::Callable,
            Accessibility::Private => {
                if caller == item.owner {
                    Resolution::Callable
                } else {
                    Resolution::Denied
                }
            },
        }
    }
}

/// The resolver's verdict on one call site. `Denied` is the one error class,
/// a visibility violation, detected before the program ever runs.
#[derive(Clone, Copy, PartialEq, Eq, Structural, Debug)]
pub enum Resolution {
    Callable,
    Denied,
}

/// The visibility rule itself: an item is callable from `caller` exactly when
/// it is Public, or when `caller` is the scope that declared it.
pub open spec fn callable(caller: int, item: Item) -> bool {
    item.accessibility is Public || caller == item.owner
}

/// One call expression of a program: the scope the call stands in, and the
/// item it names.
pub struct Call {
    pub caller: usize,
    pub item: Item,
}

/// Both ends of the call lie in a tree of `n` scopes.
pub open spec fn call_in_tree(c: Call, n: int) -> bool {
    c.caller < n && c.item.owner < n
}

/// The visibility rule, read on a call expression.
pub open spec fn call_accepted(c: Call) -> bool {
    callable(c.caller as int, c.item)
}

/// The build-time pass of the resolver: walks every call expression of a
/// program and accepts the program exactly when each call is accepted. A
/// program with a denied call is rejected before it runs.
pub fn check_calls(tree: &ScopeTree, calls: &Vec<Call>) -> (r: bool)
    requires
        forall|i: int| 0 <= i < calls@.len() ==> call_in_tree(#[trigger] calls@[i], tree@.len() as int),
    ensures
        r <==> (forall|i: int| 0 <= i < calls@.len() ==> call_accepted(#[trigger] calls@[i])),
{
    let mut k: usize = 0;
    while k < calls.len()
        invariant
            k <= calls@.len(),
            forall|i: int|
                0 <= i < calls@.len() ==> call_in_tree(#[trigger] calls@[i], tree@.len() as int),
            forall|i: int| 0 <= i < k ==> call_accepted(#[trigger] calls@[i]),
        decreases calls@.len() - k,
    {
        let c = &calls[k];
        match tree.resolve(c.caller, &c.item) {
            Resolution::Callable => {},
            Resolution::Denied => {
                return false;
            },
        }
        k += 1;
    }
    true
}

/// Law: an item with Public accessibility is callable from every scope.
/// Any caller that can resolve a path to the declaring scope succeeds, and in
/// a static scope tree every scope can, through an explicit path.
pub proof fn lemma_public_item_callable(caller: int, item: Item)
    requires
        item.accessibility is Public,
    ensures
        callable(caller, item),
{
}

/// Law: an item with Private accessibility is callable from the scope that
/// declared it, and from no other scope — not a parent, not a sibling.
pub proof fn lemma_private_item_callable_iff_declaring_scope(caller: int, item: Item)
    requires
        item.accessibility is Private,
    ensures
        callable(caller, item) <==> caller == item.owner,
{
}

} // verus!
