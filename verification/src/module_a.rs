//! Module A of the example: a public function, a private function, and a
//! public function that reaches the private one lawfully, from within the
//! scope that declared it. Each returns its line of output; printing is left
//! to the program around the library.

use vstd::prelude::*;

verus! {

/// The line the public function of module A produces.
pub open spec fn public_message() -> Seq<char> {
    "This is a public function in module A"@
}

/// The line the private function of module A produces.
pub open spec fn private_message() -> Seq<char> {
    "This is a private function in module A"@
}

/// Public: callable from any scope of the program.
pub fn public_function() -> (r: String)
    ensures
        r@ == public_message(),
{
    String::from_str("This is a public function in module A")
}

/// Private: only this module can call it; a reference from any other scope
/// is rejected when the program is built.
fn private_function() -> (r: String)
    ensures
        r@ == private_message(),
{
    String::from_str("This is a private function in module A")
}

/// Public, and declared in the same scope as the private function, so the
/// call inside it is accepted.
pub fn call_private_function() -> (r: String)
    ensures
        r@ == private_message(),
{
    private_function()
}

} // verus!
