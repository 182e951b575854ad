//! API instance bootstrap decisions.
//!
//! Creating the API instance is raw foreign work, but one decision made
//! during it belongs to the engine: whether the validation layer is
//! available, which in turn decides whether the debug-utils extension and
//! the debug messenger are hooked up.

use vstd::prelude::*;
use vstd::string::StringExecFns;

verus! {

/// The name of the one validation layer the engine asks for.
pub open spec fn required_validation_layer() -> Seq<char> {
    "VK_LAYER_KHRONOS_validation"@
}

/// Whether `names` holds a string equal to `needle`.
pub fn name_list_contains(names: &Vec<String>, needle: &String) -> (found: bool)
    ensures
        found <==> exists|i: int| 0 <= i < names@.len() && names@[i]@ == needle@,
{
    let n = names.len();
    let mut i: usize = 0;
    while i < n
        invariant
            n == names@.len(),
            i <= n,
            forall|j: int| 0 <= j < i ==> names@[j]@ != needle@,
        decreases n - i,
    {
        if names[i].eq(needle) {
            return true;
        }
        i = i + 1;
    }
    false
}

/// Whether every validation layer the engine requires — the single Khronos
/// validation layer — is among the instance's enumerated layer names.
pub fn check_validation_layers(validation_layers: Vec<String>) -> (supported: bool)
    ensures
        supported <==> exists|i: int|
            0 <= i < validation_layers@.len() && validation_layers@[i]@
                == required_validation_layer(),
{
    let required: String = String::from_str("VK_LAYER_KHRONOS_validation");
    name_list_contains(&validation_layers, &required)
}

} // verus!
