//! Cluster registry and request-dispatch core of an administration shell for
//! a distributed database: which clusters a command targets, which requests
//! it sends to them, and how a bucket's settings are read, edited and written
//! back over the self-hosted and the cloud management interfaces.
//!
//! The core sends nothing itself. Where a command talks to clusters, it is a
//! state machine that says what to send and takes what came back; the shell
//! around it does the sending.
//!
//! - [`registry`] and [`resolver`]: the known clusters, and the ones that a
//!   command addresses.
//! - [`dispatch`]: requests, deadlines, and what a response means.
//! - [`settings`], [`wire`], [`form`] and [`collection`]: a bucket's settings,
//!   the forms in which they travel, and edits to them.
//! - [`reconcile`] and [`laws`]: reading and updating buckets on one cluster
//!   after another, and what holds of every such run.
//! - [`search`], [`stats`] and [`queries`]: the same for vector searches,
//!   statistics, and the query and analytics listings.
//! - [`commands`], [`signature`] and [`buckets`]: the commands as the shell
//!   presents them.
//! - [`table`], [`text`] and [`json`]: what the others stand on.

pub mod buckets;
pub mod collection;
pub mod commands;
pub mod dispatch;
pub mod error;
pub mod form;
pub mod json;
pub mod laws;
pub mod queries;
pub mod reconcile;
pub mod registry;
pub mod resolver;
pub mod search;
pub mod settings;
pub mod signature;
pub mod stats;
pub mod table;
pub mod text;
pub mod wire;
