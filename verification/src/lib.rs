//! The decisions of a local bridge between a desktop application and
//! streaming platforms: how webhook notifications of two protocols become
//! alerts of one shape, what each route of the bridge's HTTP server answers
//! and publishes, how an exchange with an OAuth token endpoint ends, and
//! what a forwarder does with what it receives from a topic.
//!
//! Nothing in this crate reads, sends or waits. Each function takes the
//! parts of a request or of a reply as plain values and returns what is to
//! be answered and published; its contract says exactly what that is, and
//! the laws that hold between the functions are proved beside them.

pub mod alerts;
pub mod bus;
pub mod json;
pub mod oauth;
pub mod router;
pub mod text;
