use vstd::prelude::*;

verus! {

/// Model of the session's single opaque error form: the fixed prefix
/// `error code: ` followed by the collaborator's own description.
pub open spec fn spec_stringify(e: Seq<char>) -> Seq<char> {
    "error code: "@ + e
}

/// Projects a collaborator error description into the session's single opaque
/// error string, `error code: {description}`. Callers cannot classify errors
/// beyond this; only success, failure and cancellation are distinguishable.
pub fn stringify(e: &str) -> (r: String)
    ensures
        r@ == spec_stringify(e@),
{
    let s = String::from_str("error code: ");
    s.concat(e)
}

} // verus!
