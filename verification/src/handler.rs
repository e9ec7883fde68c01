//! What an administrator can ask of the gateway, and what the gateway
//! decides about it: logins by password and by QR code, the list of bots,
//! and the plugins on disk.

pub mod bot;
pub mod password;
pub mod plugins;
pub mod qrcode;
