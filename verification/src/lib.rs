//! A SIP endpoint for voice agents: signalling state, call control, and RTP audio with G.711.
//!
//! The library decides; whoever runs it does the input and output. Each step takes what the network,
//! the clock or a device reported, and returns what is to be sent and told.

pub mod audio;
pub mod call;
pub mod calling;
pub mod codec;
pub mod control;
pub mod endpoint;
pub mod error;
pub mod event;
pub mod map;
pub mod media;
pub mod message;
pub mod packet;
pub mod recv_loop;
pub mod registration;
pub mod send_loop;
pub mod session;
pub mod text;
pub mod transport;
pub mod uri;
