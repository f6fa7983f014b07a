//! Decision-and-execution engine of a two-asset momentum trader (SOL and
//! USDC): the position and its accounting, the trade signal, trend
//! analysis, the swap pipeline's decisions and the retry policy used for
//! every network call.

pub mod fixed;
pub mod trading;
pub mod balance;
pub mod records;
pub mod quote;
pub mod retry;
pub mod swap;
pub mod config;
pub mod trend;
pub mod performance;
pub mod cycle;
pub mod notify;
