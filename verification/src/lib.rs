//! Per-tenant execution management for a host that runs many small
//! Kubernetes operators as sandboxed guests inside one process.
//!
//! The host brokers every call that a guest makes, owns the connections to
//! the cluster, and moves guests that have been idle to disk and back. This
//! library holds the decisions of that host, each as a function from what is
//! known to what is to be done; the program around it runs the guests, talks
//! to the cluster and reads and writes files.
//!
//! - [`registry`]: which guests are loaded or swapped out, and whose turn it
//!   is to use one.
//! - [`scheduler`]: the order in which tenants are brought up.
//! - [`supervisor`]: what is done with each item of a watch.
//! - [`bridge`]: the handles of a guest's requests to the cluster.
//! - [`wire`]: the requests and responses themselves.
//! - [`discovery`]: the kinds of resource that the cluster serves.
//! - [`config`], [`cli`]: the configuration file and the command line.
//! - [`instance`]: messages and verdicts around loading and running a guest.
//! - [`clock`]: the host's times and delays.
//! - [`testresource`], [`ring_guest`], [`ring`]: the decisions of the guests
//!   and of the controller that the host is measured against.
//! - [`text`]: operations on text that the others share.

pub mod bridge;
pub mod cli;
pub mod clock;
pub mod config;
pub mod discovery;
pub mod instance;
pub mod registry;
pub mod ring;
pub mod ring_guest;
pub mod scheduler;
pub mod supervisor;
pub mod testresource;
pub mod text;
pub mod wire;
