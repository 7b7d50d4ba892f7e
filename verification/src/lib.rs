//! The core of an OpenAI-compatible chat-completion server in front of a local
//! inference backend.
//!
//! The core renders the prompt of a conversation ([`prompt`], [`qwen`]) and
//! prunes the conversation until the prompt fits the context window
//! ([`builder`]); reconciles the metadata of a graph with a request
//! ([`metadata`]); cleans what the model generated ([`post`]) and finds the
//! tool calls in it ([`tools`]); and shapes the answer, all at once
//! ([`chat`]) or as a stream of chunks ([`stream`]).
//!
//! The core never calls the backend. Whoever owns the backend computes and
//! reads, and hands the core what came back: the core decides what it means
//! and what to do next.

pub mod builder;
pub mod chat;
pub mod error;
pub mod graph;
pub mod image;
pub mod json;
pub mod metadata;
pub mod post;
pub mod prompt;
pub mod qwen;
pub mod request;
pub mod response;
pub mod stream;
pub mod template;
pub mod text;
pub mod tools;
pub mod utf8;
pub mod utils;
