//! Reconciliation and focus logic for a terminal dashboard over a git working tree.

pub mod text;
pub mod edit;
pub mod keys;
pub mod input;
pub mod branch_input;
pub mod viewport;
pub mod git;
pub mod regions;
pub mod branches;
pub mod commits;
pub mod format;
pub mod status;
pub mod notification;
pub mod controller;
pub mod dispatch;
pub mod details;
pub mod popup;
pub mod gitops;
