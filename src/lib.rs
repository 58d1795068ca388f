//! Replaces the email addresses in changelog lines with the usernames of their owners.
pub mod emails;
pub mod laws;
pub mod pattern;
pub mod pull_request;
pub mod report;
pub mod resolver;
pub mod text;
pub mod user;
