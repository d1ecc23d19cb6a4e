//! The pure cores of the UI-facing commands.
//!
//! Each command resolves the settings file inside the application data
//! directory, moves text between that file and a `Settings` value, and
//! reports errors to the UI. The file reads and writes themselves happen
//! outside this crate; what stands here is everything the commands decide
//! and compute, with contracts that pin the decisions down: which path is
//! used, what text a save writes, what a load replies for any file content,
//! and what happens on a first run when no file exists yet.

use vstd::prelude::*;
use vstd::string::StringExecFns;

use crate::settings::ParseError;
use crate::settings::Settings;
use crate::settings::default_settings;
use crate::settings::json_of;
use crate::settings::lemma_json_round_trip;
use crate::settings::parse_spec;

verus! {

/// Resolves the settings file: the fixed name `settings.json` inside the
/// application data directory the host supplies.
pub fn settings_path(data_dir: &str) -> (p: String)
    ensures
        p@ == data_dir@ + "/settings.json"@,
{
    let mut p = data_dir.to_owned();
    p.append("/settings.json");
    p
}

/// What the `get_settings` command must do, decided from the file's state.
pub enum GetSettingsPlan {
    /// No file exists yet: write `file_text` to the settings path, then
    /// reply with `settings`; a failed write is reported, not swallowed.
    CreateDefault { settings: Settings, file_text: String },
    /// The file exists and held some text: reply with this outcome.
    Use { loaded: Result<Settings, ParseError> },
}

/// The core of the `get_settings` command. `contents` is `None` when no
/// file exists at the settings path, and the file's text otherwise. On a
/// first run the plan creates the file with the default settings' text; an
/// existing file is parsed, and a corrupt one yields an error, never a
/// default or partial value.
pub fn plan_get_settings(contents: Option<&str>) -> (r: GetSettingsPlan)
    ensures
        contents is None ==> (r matches GetSettingsPlan::CreateDefault { settings, file_text }
            && settings == default_settings()
            && file_text@ == json_of(default_settings())),
        contents matches Some(text) ==> (r matches GetSettingsPlan::Use { loaded }
            && (loaded is Ok <==> parse_spec(text@) is Some)
            && (loaded matches Ok(s) ==> parse_spec(text@) == Some(s))),
{
    match contents {
        None => {
            let settings = Settings::new();
            let file_text = settings.to_json();
            GetSettingsPlan::CreateDefault { settings, file_text }
        },
        Some(text) => GetSettingsPlan::Use { loaded: Settings::from_json(text) },
    }
}

/// The core of the `save_settings` command: the text to write to the
/// settings path, and the reply echoed to the UI on success. The text is a
/// function of the settings value alone, and the reply is the input itself.
pub fn plan_save_settings(settings: &Settings) -> (r: (String, Settings))
    ensures
        r.0@ == json_of(*settings),
        r.1 == *settings,
{
    (settings.to_json(), *settings)
}

/// First run: the text `get_settings` writes when no file exists parses
/// back to the default settings, so the call that created the file and
/// every later load of it reply with a value equal to `Settings::new()`.
pub proof fn lemma_first_run_round_trip()
    ensures
        parse_spec(json_of(default_settings())) == Some(default_settings()),
{
    lemma_json_round_trip(default_settings());
}

/// Idempotent save: the text a save writes depends on the settings value
/// alone, so two saves of the same value leave identical file content, and
/// each reply equals the input.
pub proof fn lemma_save_idempotent(s: Settings, first: Seq<char>, second: Seq<char>)
    requires
        first == json_of(s),
        second == json_of(s),
    ensures
        first == second,
{
}

} // verus!
