//! The command logic of a VPN front end and the life of its IPsec tunnel, as
//! state machines that take the outcome of each piece of outside work and say
//! what to do next.

pub mod command;
pub mod controller;
pub mod laws;
pub mod model;
pub mod tunnel;
