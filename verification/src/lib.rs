//! The core of a Model Context Protocol host, without its input and output.
//!
//! A host lets a client discover and call tools, render prompts, and read
//! and subscribe to resources, over JSON-RPC 2.0. This crate holds what
//! such a host decides and keeps: the messages and their wire form, the
//! tables of tools, prompts and resources, the dispatcher, the requests in
//! flight and the subscriptions. Every function states what it returns, and
//! the statement is proved; the few facts that are taken on trust from
//! outside the crate, in [`protocol`] and [`text`], say so.
//!
//! What needs the outside world is left to the program around the crate:
//! it reads and writes the transports, runs the handlers and the sources,
//! and starts and stops the watchers. The crate tells it what to do, and
//! takes the outcome back:
//!
//! - a document that arrived goes to [`McpImpl::receive`];
//! - a request that is to be handled goes to [`handle_request`], and what
//!   the handler or the source returned goes to the matching `finish_`
//!   function of [`dispatch`];
//! - the result goes to [`McpImpl::complete`], which gives the reply, and
//!   the reply goes to [`encode::encode_response`];
//! - a change that a watcher has seen goes to
//!   [`Subscriptions::resource_updated`].

pub mod assoc;
pub mod basic_service;
pub mod codec;
pub mod config;
pub mod decode;
pub mod dispatch;
pub mod encode;
pub mod error;
pub mod in_flight;
pub mod json;
pub mod message;
pub mod protocol;
pub mod registry;
pub mod request_id;
pub mod rpc;
pub mod subscription;
pub mod text;
pub mod transport;
pub mod uri_template;

pub use basic_service::BasicService;
pub use dispatch::{handle_request, Dispatch};
pub use error::Error;
pub use in_flight::McpImpl;
pub use json::Json;
pub use registry::prompt::{Prompt, PromptRegistry};
pub use registry::resource::{Resource, ResourceRegistry};
pub use registry::tool::{Tool, ToolRegistry};
pub use request_id::RequestId;
pub use subscription::Subscriptions;
