//! Accounts: their state, their credentials, the decisions of sign-in and recovery, and what
//! administrators may do to them.

pub mod administration;
pub mod dto;
pub mod error;
pub mod events;
pub mod lifecycle;
pub mod mail;
pub mod model;
pub mod password;
