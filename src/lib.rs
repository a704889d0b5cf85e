//! A peer-to-peer chat session core: the decisions of one chat session (which
//! peer local input is addressed to, what to send in reaction to each network or
//! input event) and the checks on its startup settings, apart from the network
//! engine that carries them out.

pub mod message;
pub mod session;
pub mod dispatch;
pub mod laws;
pub mod config;
