//! Reflections: a terminal work journal. This crate holds the verified core:
//! text rules (tags, query strings, trimming), the calendar arithmetic of the
//! meeting form, the key-driven state machines of the terminal views, the
//! meeting synchronisation plan and the formatting of timeline entries.
pub mod app_state;
pub mod calendar;
pub mod cli;
pub mod dates;
pub mod filters;
pub mod google;
pub mod ids;
pub mod input_box;
pub mod input_modal;
pub mod json;
pub mod keys;
pub mod meeting_modal;
pub mod model;
pub mod oauth;
pub mod rows;
pub mod scroll;
pub mod selection;
pub mod services;
pub mod status_modal;
pub mod sync;
pub mod table;
pub mod tag_sql;
pub mod tags;
pub mod text;
pub mod time;
pub mod timeline;
pub mod todo_view;
pub mod views;
