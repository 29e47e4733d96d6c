//! Device communication core: the wire protocol codec, the appliance's
//! configuration store and request dispatcher, the render scheduler, the
//! lighting patterns' frames, and the client side of sessions and
//! discovery.

pub mod config;
pub mod discovery;
pub mod dispatcher;
pub mod patterns;
pub mod pixel;
pub mod protocol;
pub mod scheduler;
pub mod session;
pub mod store;
