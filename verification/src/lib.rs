//! The pure, renderer-free core of the Jeliya UI: file-flow decisions, the
//! localization catalogs and display seams, the preference schema, the view
//! folds, the room timeline logic, and the shell state machines.

pub mod api;
pub mod client;
pub mod files;
pub mod ordmap;
pub mod platform;
pub mod prefs;
pub mod text;
pub mod l10n;
pub mod view;
pub mod shell;
pub mod services;
pub mod room;
pub mod components;
pub mod status;
pub mod state;
pub mod pipes;
