//! The rule of a leaderboard for timed loops.
//!
//! Each loop has at most one contest. A contest names its champion, the
//! champion's time and the moment at which the reign can no longer be
//! challenged. The rule that opens, replaces or keeps a contest is a total
//! function of what is stored for the loop, the submission and the ledger's
//! time; what it leaves in the storage of a caller who carries out its
//! verdicts is proved over a map from loops to records.

pub mod host;
pub mod laws;
pub mod ledger;
pub mod record;
pub mod rules;
