use vstd::prelude::*;

verus! {

/// The body of a successful registration.
pub struct PostResponse<'a> {
    pub message: &'a str,
}

} // verus!
