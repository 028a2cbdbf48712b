use vstd::prelude::*;
use vstd::string::*;

verus! {

/// Concatenates two string slices into a new `String`.
pub fn concat(a: &str, b: &str) -> (res: String)
    ensures
        res@ == a@ + b@,
{
    let s = String::from_str(a);
    s.concat(b)
}


} // verus!
