use grit::config::{Config, ConfigFault, SCAFFOLD};

/// Reads a configuration file's text the way the program does: each key that is
/// present sets its field, the others keep their defaults.
fn parse(src: &str) -> Config {
    let table: toml::Table = src.parse().expect("valid toml");
    let mut config = Config::default();
    for (key, value) in table.iter() {
        match key.as_str() {
            "diff_tool" => config.diff_tool = value.as_str().expect("string").to_string(),
            "theme" => config.theme = value.as_str().expect("string").to_string(),
            "auto_refresh" => config.auto_refresh = value.as_integer().expect("integer") as u64,
            "preview_split" => config.preview_split = value.as_integer().expect("integer") as u8,
            other => panic!("unknown field {other}"),
        }
    }
    config
}

#[test]
fn scaffold_matches_defaults() {
    let config = parse(SCAFFOLD);
    let defaults = Config::default();
    assert_eq!(config.diff_tool, defaults.diff_tool);
    assert_eq!(config.theme, defaults.theme);
    assert_eq!(config.auto_refresh, defaults.auto_refresh);
    assert_eq!(config.preview_split, defaults.preview_split);
}

#[test]
fn loads_auto_refresh_and_preview_split() {
    let config = parse("auto_refresh = 30\npreview_split = 40\n");
    assert_eq!(config.auto_refresh, 30);
    assert_eq!(config.preview_split, 40);
}

#[test]
fn rejects_auto_refresh_zero() {
    let config = parse("diff_tool = \"diff\"\nauto_refresh = 0\n");
    assert!(config.validate().is_err());
}

#[test]
fn rejects_preview_split_zero() {
    let config = parse("diff_tool = \"diff\"\npreview_split = 0\n");
    assert!(config.validate().is_err());
}

#[test]
fn rejects_preview_split_one_hundred() {
    let config = parse("diff_tool = \"diff\"\npreview_split = 100\n");
    assert!(config.validate().is_err());
}

fn config(diff_tool: &str, auto_refresh: u64, preview_split: u8) -> Config {
    Config { diff_tool: diff_tool.into(), theme: "autumn".into(), auto_refresh, preview_split }
}

#[test]
fn defaults() {
    let c = Config::default();
    assert_eq!(c.diff_tool, "difft --color always");
    assert_eq!(c.theme, "autumn");
    assert_eq!(c.auto_refresh, 10);
    assert_eq!(c.preview_split, 50);
}

#[test]
fn validate_with_checks_rules_in_order() {
    assert!(config("diff", 10, 50).validate_with(true).is_ok());
    assert_eq!(config("diff", 10, 50).validate_with(false).unwrap_err().kind, ConfigFault::DiffToolNotFound);
    assert_eq!(config("  ", 10, 50).validate_with(true).unwrap_err().kind, ConfigFault::DiffToolNotFound);
    assert_eq!(config("diff", 0, 0).validate_with(true).unwrap_err().kind, ConfigFault::AutoRefreshTooSmall);
    assert_eq!(config("diff", 1, 0).validate_with(true).unwrap_err().kind, ConfigFault::PreviewSplitOutOfRange);
    assert_eq!(config("diff", 1, 100).validate_with(true).unwrap_err().kind, ConfigFault::PreviewSplitOutOfRange);
    assert!(config("diff", 1, 1).validate_with(true).is_ok());
    assert!(config("diff", 1, 99).validate_with(true).is_ok());
}

#[test]
fn empty_diff_tool_is_not_found() {
    let e = config("", 10, 50).validate().unwrap_err();
    assert_eq!(e.kind, ConfigFault::DiffToolNotFound);
    assert_eq!(
        e.message(),
        "diff tool '' not found on PATH \u{2014} install it or set a different tool in ~/.config/grit/config.toml"
    );
}

#[test]
fn diff_program_is_first_word() {
    assert_eq!(config("difft --color always", 1, 50).diff_program(), "difft");
    assert_eq!(config(" \t ", 1, 50).diff_program(), "");
}

#[test]
fn error_messages() {
    assert_eq!(config("diff", 0, 50).validate_with(true).unwrap_err().message(), "auto_refresh must be at least 1 second");
    assert_eq!(config("diff", 5, 0).validate_with(true).unwrap_err().message(), "preview_split must be between 1 and 99");
}
