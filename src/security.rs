use vstd::prelude::*;

verus! {

/// Sets up the security services of this layer. None need preparing on the
/// platforms this crate targets, so the call has no effect.
pub fn init() {
}

/// Proof verification entry point. This layer performs no proof checking of
/// its own and accepts every proof handed to it.
pub fn zk_verify(_proof: &[u8]) -> (r: bool)
    ensures
        r,
{
    true
}

} // verus!
