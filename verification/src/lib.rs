//! Verified core of a recipe and meal-planning web application: the data
//! model, input validation, quota rules, calendar and shopping-list logic,
//! session and CSRF decisions, and rate-limit keys.

pub mod text;
pub mod model;
pub mod auth;
pub mod csrf;
pub mod rate_limit;
pub mod manager;
pub mod network;
pub mod storage;
pub mod calendar_storage;
pub mod calendar_manager;
