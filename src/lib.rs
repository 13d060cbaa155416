//! Two stateless HTTP forwarding gateways: a completion proxy that relays
//! chat-completion requests to a language-model endpoint and streams the reply
//! back, and a tool-call proxy that turns plain calls into JSON-RPC requests.
//! The library decides; the host performs the I/O.
pub mod completion;
pub mod http;
pub mod json;
pub mod relay;
pub mod tool_call;
