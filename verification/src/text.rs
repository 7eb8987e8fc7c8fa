use vstd::prelude::*;

verus! {

/// Relies on std's string formatting: `format!` concatenates its two
/// arguments into a fresh `String`.
#[verifier::external_body]
pub(crate) fn append_str(a: &str, b: &str) -> (r: String)
    ensures
        r@ == a@ + b@,
{
    format!("{}{}", a, b)
}

} // verus!
