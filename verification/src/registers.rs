//! Classical and quantum registers.
pub mod classical;
pub mod quantum;
