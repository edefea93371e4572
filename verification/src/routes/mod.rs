//! Request and response types of the API areas, and the decisions each
//! endpoint makes about its request before and after calling CoolProp.

pub mod abstract_state;
pub mod config;
pub mod info;
pub mod props;
