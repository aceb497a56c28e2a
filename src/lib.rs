//! Study-planning engine: weekly plan generation, the task and reminder
//! lifecycles, overdue detection and daily regeneration, and the tools and
//! profiles kept beside them.
pub mod ai;
pub mod calendar;
pub mod clock;
pub mod model;
pub mod plan_service;
pub mod reminder_service;
pub mod store;
pub mod text;
pub mod tools;
pub mod users;
