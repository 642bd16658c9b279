//! Collects Renovate dependency dashboards from Forgejo, GitLab or Bitbucket
//! and renders them into one HTML report.
pub mod client;
pub mod config;
pub mod fetch;
pub mod markdown;
pub mod order;
pub mod parser;
pub mod report;
pub mod summary;
pub mod text;
pub mod walk;
