//! The headless UI layer: localized messages, view models and their
//! state transitions, and the application shell.
pub mod i18n;
pub mod state;
pub mod shell;
pub mod wizard;
pub mod pages;
