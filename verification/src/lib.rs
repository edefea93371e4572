//! Request decoding, result decoding and bookkeeping for a REST server over
//! the CoolProp thermophysical-property library, with their contracts.

pub mod calls;
pub mod config;
pub mod coverage;
pub mod dto;
pub mod error;
pub mod routes;
pub mod state;
pub mod text;
