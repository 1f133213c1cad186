pub mod error;
pub mod governance;
pub mod incentives;
pub mod ledger;
pub mod lending;
pub mod rewards;
pub mod risk;
