//! Verified core of the QSONaut HostBridge: radio reservations, the session
//! protocol, media framing, the ALSA catalog and the station configuration.

pub mod text;
pub mod media;
pub mod protocol;
pub mod radio;
pub mod audio;
pub mod alsa;
pub mod bridge;
pub mod session;
pub mod config;
pub mod service;
pub mod safety;
pub mod conduct;
