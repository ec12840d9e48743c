//! The Discord gateway: it lets the owner of an agent talk to it from a channel.

pub mod approvals;
pub mod command_laws;
pub mod command_work;
pub mod commands;
pub mod delivery;
pub mod gateway;
pub mod gateway_laws;
pub mod input;
pub mod message;
pub mod presentation;
pub mod receiver;
pub mod receiver_laws;
pub mod rest;
pub mod rest_laws;
pub mod run_wait;
pub mod wait_laws;
pub mod work_laws;
