//! A relay core that bridges on-chain callback requests to an off-chain
//! computation backend: it resolves each request to a known guest program,
//! drives the local or remote proving backend, and assembles the outbound
//! callback payload.
//!
//! The chain client and the proving backends themselves are capabilities
//! that live outside this crate; the logic here decides, for every state
//! and event of the pipeline, what happens next, and states that decision
//! in its contracts.

pub mod dispatch;
pub mod errors;
pub mod exec;
pub mod payload;
pub mod registry;
pub mod relay;
pub mod remote;
pub mod text;
