//! Rental agreements between a landlord and a tenant, as a verified state machine.
//!
//! `contract::RentalContract` is the agreement store together with the five lifecycle
//! operations (create, execute, pay rent, terminate, refund deposit). Each operation checks
//! authorization and its preconditions before any change, and returns the transfer of value
//! that the host must carry out in the same atomic unit. `laws` states and proves the
//! properties that hold across operations.

pub mod account;
pub mod agreement;
pub mod contract;
pub mod laws;
