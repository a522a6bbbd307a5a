//! A single-route webhook handler core: one inbound request is adapted,
//! decoded, deserialized, dispatched and answered with exactly one classified
//! response, together with the log record that describes it.

pub mod logging;
pub mod pipeline;
pub mod request;
pub mod response;
