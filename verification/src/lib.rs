//! Core of a real-time chat gateway client.
//!
//! The library models the persistent duplex "gateway" connection of a desktop
//! chat client: the frame codec for the JSON wire envelope, the session state
//! machine that drives identify/heartbeat/dispatch logic, the router that
//! classifies dispatched events, the coordinator that correlates the two
//! asynchronous voice updates into one connection descriptor, and the decision
//! logic of the media driver.  Socket, device and HTTP edges live in the
//! application shell around the library; the library exchanges plain values
//! with them.

pub mod codec;
pub mod digits;
pub mod encode;
pub mod json;
pub mod laws;
pub mod markdown;
pub mod media;
pub mod models;
pub mod session;
pub mod typing;
pub mod updater;
pub mod voice;
