pub mod bytes;
pub mod crypto;
pub mod directory;
pub mod policy;
pub mod tally;
pub mod types;

use vstd::prelude::*;

verus! {

/// A stateless stand-in database handle for harnesses that need a storage
/// value but no persistence. It holds no state and never fails.
pub struct MockDatabase;

} // verus!
