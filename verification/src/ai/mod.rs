//! The AI assistant: which provider answers, the prompts it is given, and how
//! its replies are read. Talking to the provider is the caller's work.
pub mod provider;
pub mod requests;
