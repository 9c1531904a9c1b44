//! Chatbot API client library: a token-budgeted conversation context,
//! request-message assembly, and an incremental decoder for streamed
//! completion responses.

pub mod client;
pub mod context;
pub mod decode;
pub mod error;
pub mod json;
pub mod message;
pub mod stream;
pub mod text;

pub use client::ApiOptions;
pub use client::Auth;
pub use client::ChatClientConfig;
pub use client::Completion;
pub use client::ModelConfig;
pub use client::ReasoningSettings;
pub use client::TokenUsage;
pub use context::Context;
pub use error::Error;
pub use stream::Delta;
pub use stream::StreamMachine;
pub use message::Content;
pub use message::ContentPart;
pub use message::FilePart;
pub use message::Message;
pub use message::ImagePart;
pub use message::Role;
