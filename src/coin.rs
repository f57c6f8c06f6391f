use vstd::prelude::*;

verus! {

/// Relies on rand::random::<bool>: a fair coin flip from the thread-local
/// generator. Nothing is promised about which side comes up.
#[verifier::external_body]
pub(crate) fn coin_flip() -> (r: bool) {
    rand::random::<bool>()
}

} // verus!
