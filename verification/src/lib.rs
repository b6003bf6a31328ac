use vstd::prelude::*;

pub mod address;
pub mod agent;
pub mod api;
pub mod cli;
pub mod codec;
pub mod error;
pub mod frame;
pub mod guest;
pub mod machine;
pub mod provision;
pub mod route;
pub mod rpc;
pub mod serve;
pub mod snapshot;
pub mod startup;
pub mod table;
pub mod text;
pub mod usb;
pub mod vm;
pub mod wire;
