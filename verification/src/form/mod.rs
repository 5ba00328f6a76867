//! Forms: their definitions, the answers they accept, and what is done with those answers.

pub mod download;
pub mod dto;
pub mod error;
pub mod export;
pub mod model;
pub mod rules;
pub mod sample;
pub mod validation;
