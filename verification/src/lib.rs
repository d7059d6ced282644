//! Verified core of a PSN session-credential service: the solving-service
//! protocol decisions, the credential-acquisition pipeline, the job registry,
//! the session pool with its refresh scheduler, and the request/response
//! interception logic, each with a contract.

pub mod acquire;
pub mod auth;
pub mod error;
pub mod handler;
pub mod intercept;
pub mod message;
pub mod model;
pub mod pool;
pub mod solver;
pub mod startup;
pub mod strutil;
