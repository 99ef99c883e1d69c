//! Synchronization primitives over TCP for message passing between services.
//!
//! The verified core of the library: the varied-length frame codec, the
//! pool of framed connections, the connection queues shared by split
//! listeners, and the decision logic of the accepting and sending futures.
#![allow(unused_imports)]

pub mod barrier;
pub mod broadcast;
pub mod channel;
pub mod codec;
pub mod mpsc;
pub mod multi_channel;
pub mod spsc;
pub mod util;
