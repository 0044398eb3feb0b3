//! Constructors of [`crate::flags::ProtocolFlags`], one module per supported
//! combination of channel and payload width, each offering the two flows.

pub mod len_u64;
pub mod len_i64;
pub mod len_u128;
pub mod len_i128;
pub mod str_u64;
pub mod str_i64;
pub mod str_u128;
pub mod str_i128;
pub mod u8s_u64;
pub mod u8s_i64;
pub mod u8s_u128;
pub mod u8s_i128;
