//! Verified authorization core of a tool-execution kernel: capability sets,
//! actions, policies, the policy pipeline that turns an action into a grant
//! or a denial, and the bookkeeping around tools and scoped grants.

pub mod capability;
pub mod text;
pub mod contract;
pub mod error;
pub mod path;
pub mod action;
pub mod policy;
pub mod pipeline;
pub mod grant;
pub mod network;
pub mod runtime;
pub mod tool;
pub mod scoped;
pub mod audit;
