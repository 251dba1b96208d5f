//! Verified protocol logic for the Hotline control network: the framed
//! digital-output messages exchanged between controllers over RS485, their
//! CRC-8 check, and the bit packing of the sixteen output states.

pub mod hotline_protocol;
pub mod modbus;
pub mod hex;
pub mod text;
pub mod writer;
pub mod receiver;
pub mod outputs;
pub mod inputs;
pub mod dc;
pub mod esp;
