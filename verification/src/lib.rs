//! A catalog client and tool dispatcher for a remote feed-aggregation service.
//!
//! The crate holds the decisions of the client (what is cached and for how
//! long, when a request is tried again, how a reply is judged, how a feed
//! is read), the search over the route catalog, and the validation and
//! answering of tool calls. Sending requests, waiting, and writing whole
//! catalog values out as JSON are left to the caller, which follows the
//! steps that the functions here give.
//!
//! - [`model`]: the catalog as the service describes it.
//! - [`cache`], [`retry`], [`client`], [`error`]: the client of the service.
//! - [`feed`], [`nesting`]: feed documents, and how deep their markup nests.
//! - [`text`], [`rank`], [`search`]: search and ranking over the catalog.
//! - [`tools`], [`json`], [`dispatch`], [`service`]: the tools and their calls.
//! - [`config`]: the settings of the server program.

pub mod cache;
pub mod client;
pub mod config;
pub mod dispatch;
pub mod error;
pub mod feed;
pub mod json;
pub mod model;
pub mod nesting;
pub mod rank;
pub mod retry;
pub mod search;
pub mod service;
pub mod text;
pub mod tools;
