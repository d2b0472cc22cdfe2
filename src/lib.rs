//! A gateway core that turns a rich prompt into a chat-completion call.
//!
//! The library renders the system message from two templates, spreads calls
//! over a pool of upstream clients, fixes the shape of the completion request,
//! reads the upstream answer and maps every outcome to an HTTP reply.
//! Transport, configuration and the upstream client itself live outside.
pub mod error;
pub mod template;
pub mod pool;
pub mod completion;
pub mod handler;
