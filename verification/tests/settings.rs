use agentx::chat_input::{ContextItem, ContextListDelegate};
use agentx::config::{default_upload_dir, Settings, SettingsError};

fn args(list: &[&str]) -> Vec<String> {
    list.iter().map(|a| a.to_string()).collect()
}

#[test]
fn settings_default_path() {
    assert_eq!(Settings::parse(args(&[])), Ok(Settings { config_path: "config.json".to_string() }));
}

#[test]
fn settings_config_flag() {
    assert_eq!(
        Settings::parse(args(&["--config", "other.json"])),
        Ok(Settings { config_path: "other.json".to_string() })
    );
}

#[test]
fn settings_last_config_flag_wins() {
    assert_eq!(
        Settings::parse(args(&["--config", "a.json", "--config", "b.json"])),
        Ok(Settings { config_path: "b.json".to_string() })
    );
}

#[test]
fn settings_config_value_may_look_like_a_flag() {
    assert_eq!(
        Settings::parse(args(&["--config", "--config"])),
        Ok(Settings { config_path: "--config".to_string() })
    );
}

#[test]
fn settings_missing_value() {
    assert_eq!(Settings::parse(args(&["--config"])), Err(SettingsError::MissingValue));
    assert_eq!(
        Settings::parse(args(&["--config", "a", "--config"])),
        Err(SettingsError::MissingValue)
    );
    assert_eq!(SettingsError::MissingValue.message(), "--config requires a value");
}

#[test]
fn settings_unknown_flag() {
    let outcome = Settings::parse(args(&["--verbose", "--config", "x"]));
    assert_eq!(outcome, Err(SettingsError::UnknownFlag("--verbose".to_string())));
    assert_eq!(outcome.unwrap_err().message(), "unknown flag: --verbose");
    assert_eq!(
        Settings::parse(args(&["--config", "x", "extra"])),
        Err(SettingsError::UnknownFlag("extra".to_string()))
    );
}

#[test]
fn upload_dir_defaults_to_current_directory() {
    assert_eq!(default_upload_dir(), ".");
}

#[test]
fn context_list_has_the_seven_sources() {
    let list = ContextListDelegate::new();
    assert_eq!(list.items_count(), 7);
    assert_eq!(
        list.items,
        vec![
            ContextItem { name: "Files", icon: "file" },
            ContextItem { name: "Folders", icon: "folder" },
            ContextItem { name: "Code", icon: "code" },
            ContextItem { name: "Git Changes", icon: "git-branch" },
            ContextItem { name: "Terminal", icon: "terminal" },
            ContextItem { name: "Problems", icon: "alert-circle" },
            ContextItem { name: "URLs", icon: "link" },
        ]
    );
}

#[test]
fn context_list_rows() {
    let list = ContextListDelegate::new();
    assert_eq!(list.render_item(0), Some("Files"));
    assert_eq!(list.render_item(3), Some("Git Changes"));
    assert_eq!(list.render_item(6), Some("URLs"));
    assert_eq!(list.render_item(7), None);
    assert_eq!(list.render_item(usize::MAX), None);
}
