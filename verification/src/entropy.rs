//! The source of random bytes.

use vstd::prelude::*;

verus! {

/// A random byte from the generator of the current thread.
///
/// Calls `rand::random`. Nothing is claimed of the byte that comes back.
#[verifier::external_body]
pub(crate) fn random_byte() -> u8 {
    rand::random::<u8>()
}

} // verus!
