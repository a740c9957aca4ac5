//! What holds of the adapter as a whole, proved from the definitions.

pub mod negotiation;
pub mod publishing;
pub mod session;
