//! Custodial escrow for teams: deposits into a program-derived vault,
//! payouts by the team authority, and a task lifecycle
//! (open, assigned, completed, paid) that gates paying a task's reward.
pub mod address;
pub mod escrow;
pub mod laws;
pub mod seeds;
pub mod state;
pub mod tasks;
