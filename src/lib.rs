//! Message model, wire framing and request-dispatch logic of a privilege-separated
//! encryption daemon and its client.

pub mod client;
pub mod codec;
pub mod dispatch;
pub mod errors;
pub mod numeric;
pub mod protocol;
pub mod reap;
pub mod text;
pub mod version;
