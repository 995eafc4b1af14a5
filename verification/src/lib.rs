//! Tome: the request-building, project-editing and list-navigation logic of a
//! terminal HTTP client, with proved contracts.

pub mod text;
pub mod variables;
pub mod template;
pub mod template_laws;
pub mod projects;
pub mod list_window;
pub mod requests;
pub mod ui;
pub mod body_mode;
pub mod messages;
pub mod dashboard;
pub mod dashboard_events;
pub mod dashboard_flows;
pub mod dashboard_receive;
pub mod windows;
pub mod selectors;
pub mod response_view;
pub mod multipart;
