use vstd::prelude::*;

verus! {

/// Minimum time-to-live (in ledgers) below which a stored invoice has its
/// lifetime extended; about 30 days at 5-second ledgers.
pub const TTL_THRESHOLD: u32 = 518400;

/// Time-to-live (in ledgers) to which a stored invoice is extended; about 60
/// days at 5-second ledgers.
pub const TTL_EXTEND_TO: u32 = 1036800;

} // verus!
