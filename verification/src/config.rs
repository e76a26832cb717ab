//! The rule's configuration: the required leading case and the allowlist of
//! exempt names.

use vstd::prelude::*;

verus! {

/// The resolved configuration of the rule. `use_uppercase` selects the
/// required leading case (lowercase by default); `allow` lists names exempt
/// from reporting, matched exactly.
#[derive(Clone)]
pub struct FunctionNameCasingLintConfig {
    pub use_uppercase: bool,
    pub allow: Vec<String>,
}

impl Default for FunctionNameCasingLintConfig {
    /// The default configuration: lowercase required, no exemptions.
    fn default() -> (c: Self)
        ensures
            !c.use_uppercase,
            c.allow@.len() == 0,
    {
        FunctionNameCasingLintConfig { use_uppercase: false, allow: Vec::new() }
    }
}

/// Whether a name's exact text matches some allowlist entry.
pub open spec fn in_allowlist(allow: Seq<String>, name: Seq<char>) -> bool {
    exists|i: int| 0 <= i < allow.len() && allow[i]@ == name
}

/// Whether `name` matches some entry of `allow` exactly.
pub fn is_allowed(allow: &Vec<String>, name: &String) -> (r: bool)
    ensures
        r == in_allowlist(allow@, name@),
{
    let mut i: usize = 0;
    while i < allow.len()
        invariant
            i <= allow@.len(),
            forall|j: int| 0 <= j < i ==> #[trigger] allow@[j]@ != name@,
        decreases allow@.len() - i,
    {
        if allow[i].eq(name) {
            return true;
        }
        i = i + 1;
    }
    false
}

} // verus!
