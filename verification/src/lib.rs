pub mod count;
pub mod dispatch;
pub mod errors;
pub mod generate;
pub mod outcome;

pub use count::ParseIssue;
pub use count::parse_uuid_count;
pub use dispatch::Dispatch;
pub use dispatch::plan_partition;
pub use dispatch::run;
pub use errors::UuidError;
pub use generate::generate_sequential;
pub use generate::is_canonical_uuid_v4;
pub use outcome::WorkerOutcome;
pub use outcome::combine_outcomes;

use vstd::prelude::*;

verus! {

/// Count of identifiers above which generation is fanned out across
/// worker threads instead of running on a single thread.
pub const MULTITHREAD_MODE_ACTIVATES_ON: u32 = 1000;

/// Whether a given generation count is handled by the parallel strategy.
pub open spec fn uses_parallel_strategy(count: u32) -> bool {
    count > MULTITHREAD_MODE_ACTIVATES_ON
}

} // verus!
