//! Core of an interactive terminal navigator: list navigation over a directory
//! listing or a ranked visit history, a preview pipeline that never shows
//! content for an item the user has left, and the visit-history store.

pub mod app;
pub mod app_state;
pub mod config;
pub mod data_provider;
pub mod handlers;
pub mod history;
pub mod image_preview;
pub mod input;
pub mod layout;
pub mod listing;
pub mod models;
pub mod modes;
pub mod paths;
pub mod persistence;
pub mod positions;
pub mod preview;
pub mod preview_content;
pub mod preview_state;
pub mod ranking;
pub mod renderers;
pub mod services;
pub mod shell;
pub mod sorting;
pub mod store;
pub mod text;
