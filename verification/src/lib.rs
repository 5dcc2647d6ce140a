//! Verified core of a LAN file-transfer engine: wire codec, quick-hash,
//! resume decisions, adaptive chunk sizing, path safety and the protocol
//! state machines of the sender, the receiver, the scanner and the speed test.

pub mod hash;
pub mod protocol;
pub mod stats;
pub mod text;
pub mod tokens;
pub mod extract;
pub mod transport;
pub mod resume;
pub mod paths;
pub mod compression;
pub mod receiver;
pub mod sender;
pub mod speedtest;
pub mod utils;
pub mod address;
pub mod history;
pub mod sync;
pub mod bridge;
pub mod events;
pub mod scanner;
pub mod transfer;
