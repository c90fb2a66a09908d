//! Request templates, environments and the terminal interface of an HTTP client.

pub mod calendar;
pub mod cli;
pub mod diff;
pub mod editor_laws;
pub mod env;
pub mod env_laws;
pub mod exports;
pub mod formats;
pub mod grid;
pub mod grid_file;
pub mod grid_keys;
pub mod grid_laws;
pub mod history;
pub mod http;
pub mod key_laws;
pub mod keys;
pub mod list_laws;
pub mod model_laws;
pub mod paths;
pub mod popups;
pub mod preview;
pub mod request;
pub mod request_laws;
pub mod response;
pub mod rows;
pub mod runner;
pub mod screen;
pub mod screen_laws;
pub mod styled;
pub mod task;
pub mod telescope;
pub mod templates;
pub mod text;
pub mod text_laws;
pub mod tui;
pub mod tui_keys;
pub mod tui_laws;
pub mod undo;
pub mod undo_graph;
