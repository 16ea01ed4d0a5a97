//! A terminal dashboard for the dependency alerts of a user's repositories:
//! the alerts and their counts, the list of repositories with its highlight,
//! the scrollbar of the alert details, and the session that keys and the
//! refresh worker drive from screen to screen.

pub mod app;
pub mod current_screen;
pub mod decimal;
pub mod dependabot;
pub mod provider;
pub mod refresh;
pub mod repository;
pub mod repository_list;
pub mod scrollbar;
pub mod widget_state;
