//! Retrieval of a pull-request diff from a Git hosting API.
//!
//! The crate holds the decisions of one authenticated fetch: which header the
//! token becomes, which requests are made and in which order, which responses
//! count as failures, and what is printed at the end. It performs no I/O: a
//! driver carries out each [`fetch::Action`] and reports what happened as a
//! [`fetch::Event`].

pub mod body;
pub mod credentials;
pub mod error;
pub mod fetch;
pub mod header;
pub mod report;
pub mod status;
