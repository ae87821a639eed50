//! Case-analysis workbench core: settings catalog and validators, input
//! normalization, role/policy permission decisions, session state and the
//! audit helpers that the desktop shell wires to its database.

pub mod error;
pub mod text;
pub mod models;
pub mod services;
pub mod security;
pub mod audit;
pub mod repositories;
pub mod domain;
pub mod storage;
