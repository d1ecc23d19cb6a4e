//! A verified settings store for a desktop application shell.
//!
//! The store persists one record, `Settings`, as a small JSON file inside
//! an application data directory. `settings` defines the record, its exact
//! on-disk text format, and a proof that the format round-trips; `commands`
//! holds the pure cores of the three UI-facing commands, with contracts
//! for the first-run default, corruption handling and the save echo. The
//! file reads and writes themselves stay outside the verified crate, which
//! hands text to its caller and takes text back.

pub mod commands;
pub mod settings;

pub use commands::GetSettingsPlan;
pub use commands::plan_get_settings;
pub use commands::plan_save_settings;
pub use commands::settings_path;
pub use settings::ParseError;
pub use settings::Settings;
pub use settings::Theme;
