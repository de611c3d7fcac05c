//! The journey stages.

pub mod gaps;
pub mod git;
pub mod identity;
pub mod lifecycle;
pub mod monthly;
pub mod pr;
pub mod quota_usage;
pub mod registry;
pub mod security;
pub mod sweep;
pub mod teams;
pub mod trees;
pub mod weekly;
pub mod ws;

use vstd::prelude::*;

verus! {

/// The steps of the journey, as they are reported.
pub const IDENTITY: &'static str = "1 · Identity";

pub const GIT: &'static str = "2 · Git";

pub const PULL_REQUEST: &'static str = "3 · Pull request";

pub const REGISTRY: &'static str = "4 · Registry";

pub const WORKSPACE: &'static str = "5 · Workspace";

pub const ENVIRONMENT: &'static str = "6 · Environment";

pub const LIFECYCLE: &'static str = "7 · Lifecycle";

pub const ADMIN: &'static str = "8 · Admin";

pub const SECURITY: &'static str = "9 · Security";

pub const EDGE: &'static str = "10 · Edge";

/// The two that only their own suites have, after the whole of the journey.
pub const WEEKLY: &'static str = "12 · Weekly";

pub const MONTHLY: &'static str = "13 · Monthly";

} // verus!
