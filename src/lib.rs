pub mod crc;
pub mod types;
pub mod time;
pub mod frame;
pub mod reader;
pub mod layer;
pub mod command;
