use settings_store::GetSettingsPlan;
use settings_store::Settings;
use settings_store::Theme;
use settings_store::plan_get_settings;
use settings_store::plan_save_settings;
use settings_store::settings_path;

#[test]
fn settings_path_joins_fixed_name() {
    assert_eq!(
        settings_path("/home/user/.local/share/app"),
        "/home/user/.local/share/app/settings.json"
    );
}

#[test]
fn first_run_creates_file_with_default_contents() {
    // Fresh app-data directory: no file present.
    let plan = plan_get_settings(None);
    match plan {
        GetSettingsPlan::CreateDefault {
            settings,
            file_text,
        } => {
            assert_eq!(settings, Settings::new());
            assert_eq!(settings.color_theme, Theme::System);
            assert_eq!(file_text, "{\n  \"color_theme\": \"System\"\n}");
        }
        GetSettingsPlan::Use { .. } => panic!("expected a first-run plan"),
    }
}

#[test]
fn get_after_first_run_returns_same_value() {
    let (settings, file_text) = match plan_get_settings(None) {
        GetSettingsPlan::CreateDefault {
            settings,
            file_text,
        } => (settings, file_text),
        GetSettingsPlan::Use { .. } => panic!("expected a first-run plan"),
    };
    // The file now holds the text the first call wrote.
    match plan_get_settings(Some(&file_text)) {
        GetSettingsPlan::Use { loaded } => assert_eq!(loaded, Ok(settings)),
        GetSettingsPlan::CreateDefault { .. } => panic!("file exists; no first run"),
    }
}

#[test]
fn save_dark_then_get_returns_dark() {
    let input = Settings {
        color_theme: Theme::Dark,
    };
    let (file_text, reply) = plan_save_settings(&input);
    assert_eq!(reply, input);
    assert_eq!(file_text, "{\n  \"color_theme\": \"Dark\"\n}");
    match plan_get_settings(Some(&file_text)) {
        GetSettingsPlan::Use { loaded } => assert_eq!(loaded, Ok(input)),
        GetSettingsPlan::CreateDefault { .. } => panic!("file exists; no first run"),
    }
}

#[test]
fn saving_twice_leaves_identical_content() {
    let input = Settings {
        color_theme: Theme::Light,
    };
    let (first_text, first_reply) = plan_save_settings(&input);
    let (second_text, second_reply) = plan_save_settings(&input);
    assert_eq!(first_text, second_text);
    assert_eq!(first_reply, input);
    assert_eq!(second_reply, input);
}

#[test]
fn corrupt_file_yields_error_not_default() {
    let corrupt = ["{\"color_theme\": \"Blue\"}", "not json at all", "{"];
    for text in corrupt {
        match plan_get_settings(Some(text)) {
            GetSettingsPlan::Use { loaded } => {
                assert!(loaded.is_err(), "input: {text:?}");
            }
            GetSettingsPlan::CreateDefault { .. } => panic!("file exists; no first run"),
        }
    }
}
