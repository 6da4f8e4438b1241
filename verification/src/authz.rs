use vstd::prelude::*;

verus! {

/// The ownership authorizer's verdict on one mutation attempt.
#[derive(Debug, Clone, PartialEq, Eq)]
pub enum AccessDecision {
    /// The caller is the resource's creator and may mutate it.
    Allow,
    /// The caller is authenticated but is not the creator.
    Forbidden,
}

/// Decide whether `caller` may mutate a resource whose immutable creator
/// field reads `owner`: a pure equality check between the two identities,
/// exact and case-sensitive. Used only for mutating operations; reads stay
/// unauthenticated.
pub fn authorize(owner: &String, caller: &String) -> (r: AccessDecision)
    ensures
        r == AccessDecision::Allow <==> owner@ == caller@,
        r == AccessDecision::Forbidden <==> owner@ != caller@,
{
    if *owner == *caller {
        AccessDecision::Allow
    } else {
        AccessDecision::Forbidden
    }
}

} // verus!
