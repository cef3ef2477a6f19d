//! Core logic of a spatial file browser: selection, sorting, filtering,
//! navigation history, application state transitions and text helpers.

pub mod selection;
pub mod strings;
pub mod entries;
pub mod sort;
pub mod search;
pub mod paths;
pub mod navigation;
pub mod theme;
pub mod ui;
pub mod actions;
pub mod state;
pub mod ops;
