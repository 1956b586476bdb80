//! A read-only virtual filesystem over a remote source-control repository.
//!
//! Directory listings, name lookups and file reads are served from an
//! in-memory inode graph that is materialized once, breadth-first, from a
//! remote tree/object service.  This crate holds the verified engine: the
//! inode store and its allocation rules, the tree materializer, the request
//! paths spoken to the remote service, and the operation dispatcher with its
//! error-code contracts.  Network transport, argument handling and the kernel
//! driver glue live outside the library and hand it plain values.

pub mod cli;
pub mod config;
pub mod dispatch;
pub mod inode;
pub mod num;
pub mod paths;
pub mod request;
pub mod store;
