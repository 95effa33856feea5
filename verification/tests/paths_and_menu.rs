//! Path resolution, the error taxonomy, and the menu-event rule.

use gg_deploy_config::config::Config;
use gg_deploy_config::errors::ConfigError;
use gg_deploy_config::menu::menu_event_for;
use gg_deploy_config::path::{config_path_from_home, resolve_config_path};

#[test]
fn path_under_home() {
    let p = config_path_from_home(&Some(String::from("/home/user")));
    assert_eq!(p, "/home/user/.gg-deploy/config.json");
}

#[test]
fn path_without_home_falls_back_to_current_dir() {
    let p = config_path_from_home(&None);
    assert_eq!(p, "./.gg-deploy/config.json");
}

#[test]
fn resolved_path_ends_with_fixed_suffix() {
    let p = resolve_config_path();
    assert!(p.ends_with(".gg-deploy/config.json"));
}

#[test]
fn error_messages_embed_the_cause() {
    assert_eq!(
        ConfigError::read_error("denied").message(),
        "Failed to read config: denied"
    );
    assert_eq!(
        ConfigError::parse_error("bad token").message(),
        "Failed to parse config: bad token"
    );
    assert_eq!(
        ConfigError::dir_create_error("full").message(),
        "Failed to create config dir: full"
    );
    assert_eq!(
        ConfigError::serialize_error("odd").message(),
        "Failed to serialize config: odd"
    );
    assert_eq!(
        ConfigError::write_error("no space").message(),
        "Failed to write config: no space"
    );
}

#[test]
fn error_variants_carry_their_message() {
    assert!(matches!(ConfigError::read_error("x"), ConfigError::Read(_)));
    assert!(matches!(ConfigError::parse_error("x"), ConfigError::Parse(_)));
    assert!(matches!(ConfigError::dir_create_error("x"), ConfigError::DirCreate(_)));
    assert!(matches!(ConfigError::serialize_error("x"), ConfigError::Serialize(_)));
    assert!(matches!(ConfigError::write_error("x"), ConfigError::Write(_)));
}

#[test]
fn check_updates_item_emits_exactly_one_event() {
    assert_eq!(menu_event_for("check_updates"), Some("check-for-updates"));
    assert_eq!(menu_event_for("quit"), None);
    assert_eq!(menu_event_for(""), None);
    assert_eq!(menu_event_for("check-for-updates"), None);
}

#[test]
fn config_equality_is_field_for_field() {
    let a = Config::default();
    let b = Config::default();
    assert_eq!(a, b);
    let c = Config {
        dns_provider: Some(String::from("godaddy")),
        ..Config::default()
    };
    assert_ne!(a, c);
}
