//! Starting a login.

use vstd::prelude::*;
use vstd::string::*;

verus! {

/// The scope that every login asks for, so that the tokens carry roles.
pub open spec fn roles_scope() -> Seq<char> {
    seq!['r', 'o', 'l', 'e', 's']
}

/// The scopes a login asks for: `roles`, then the configured extra scopes.
pub fn login_scopes(additional_scopes: &[String]) -> (r: Vec<String>)
    ensures
        r@.len() == additional_scopes@.len() + 1,
        r@[0]@ == roles_scope(),
        forall|i: int| 0 <= i < additional_scopes@.len() ==> r@[i + 1] == #[trigger] additional_scopes@[i],
{
    let mut out: Vec<String> = Vec::new();
    let roles = String::from_str("roles");
    proof {
        reveal_strlit("roles");
    }
    out.push(roles);
    let mut i: usize = 0;
    while i < additional_scopes.len()
        invariant
            i <= additional_scopes@.len(),
            out@.len() == i + 1,
            out@[0]@ == roles_scope(),
            forall|j: int| 0 <= j < i ==> out@[j + 1] == #[trigger] additional_scopes@[j],
        decreases additional_scopes@.len() - i,
    {
        out.push(additional_scopes[i].clone());
        i = i + 1;
    }
    out
}

} // verus!
