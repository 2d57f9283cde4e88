//! Verified core of the matrix referral program: vault share accounting,
//! pool pricing, mint limiting, the referral matrix and the registration
//! state machine. Account access and cross-program invocations live with
//! the caller; everything that decides lives here.

pub mod address;
pub mod error;
pub mod verify;
pub mod token;
pub mod meteora;
pub mod bytes;
pub mod state;
pub mod pricing;
pub mod instructions;
pub mod registration;
pub mod decimal;
