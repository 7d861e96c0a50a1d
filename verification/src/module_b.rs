//! Module B of the example: a sibling of module A that reaches A's public
//! function through an explicit path. A's private function is not visible
//! here: a call to it from this scope would be denied at build time.

use vstd::prelude::*;

verus! {

/// Calls the public function of the sibling module and hands its line on.
pub fn some_function() -> (r: String)
    ensures
        r@ == crate::module_a::public_message(),
{
    crate::module_a::public_function()
}

} // verus!
