//! Value synchronisation between external commands, file watches and the
//! controls that display their results.

pub mod binding;
pub mod bridge;
pub mod choices;
pub mod container;
pub mod observer;
pub mod watch;
