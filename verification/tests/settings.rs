use cs2_buttplug::config::{Config, Saved, Setting, DEFAULT_GAME_DIR};
use cs2_buttplug::decimal::{numeral_text, parse_port, signed_numeral_text};

#[test]
fn numerals() {
    for n in [0, 1, 9, 10, 99, 100, 42069, 65535, u64::MAX - 1, u64::MAX] {
        assert_eq!(numeral_text(n), n.to_string());
    }
    for n in [0, -1, 7, -10, i64::MAX, i64::MIN] {
        assert_eq!(signed_numeral_text(n), n.to_string());
    }
}

#[test]
fn port_numbers_are_read_as_the_standard_library_reads_them() {
    for text in [
        "", "+", "-", "0", "+0", "-0", "00042", "+42069", "42069", "65535", "65536", "655350", "99999999999999999999",
        "12a", "a12", "1 ", " 1", "1_0", "++1", "1+", "\u{0661}", "4\u{0662}", "0x10", "1.0", "-1",
    ] {
        assert_eq!(parse_port(text), text.parse::<u16>().ok(), "{}", text);
    }
}

#[test]
fn every_port_reads_back() {
    for port in 0..=u16::MAX {
        assert_eq!(parse_port(&numeral_text(port as u64)), Some(port));
    }
}

#[test]
fn default_settings() {
    let config = Config::default();
    assert_eq!(config.buttplug_server_url, "ws://127.0.0.1:12345");
    assert_eq!(config.cs_integration_port, 42069);
    assert_eq!(config.cs_script_dir, None);
    assert_eq!(Config::restore(None, None, None), config);
    assert_eq!(config.clone(), config);
}

#[test]
fn stored_settings_are_restored() {
    let config = Config::restore(
        Some("/games/cfg".to_string()),
        Some("1234".to_string()),
        Some("wss://example.org".to_string()),
    );
    assert_eq!(config.cs_script_dir, Some("/games/cfg".to_string()));
    assert_eq!(config.cs_integration_port, 1234);
    assert_eq!(config.buttplug_server_url, "wss://example.org");
}

#[test]
fn stored_text_that_is_no_port_is_passed_over() {
    let config = Config::restore(None, Some("70000".to_string()), Some(String::new()));
    assert_eq!(config.cs_integration_port, 42069);
    assert_eq!(config.buttplug_server_url, "");
}

#[test]
fn changes_survive_a_restart() {
    let mut config = Config::default();
    let dir = config.pick_script_dir("/a b/cfg".to_string());
    let port = config.edit_port("+0077").unwrap();
    let url = config.edit_server_url("wss://host".to_string()).unwrap();
    assert_eq!(dir, Saved { setting: Setting::ScriptDir, text: "/a b/cfg".to_string() });
    assert_eq!(port, Saved { setting: Setting::IntegrationPort, text: "77".to_string() });
    assert_eq!(url, Saved { setting: Setting::ServerUrl, text: "wss://host".to_string() });
    assert_eq!(config.cs_integration_port, 77);
    assert_eq!(Config::restore(Some(dir.text), Some(port.text), Some(url.text)), config);
}

#[test]
fn an_empty_address_is_taken_and_not_stored() {
    let mut config = Config::default();
    assert_eq!(config.edit_server_url(String::new()), None);
    assert_eq!(config.buttplug_server_url, "");
}

#[test]
fn what_is_no_port_changes_nothing() {
    let mut config = Config::default();
    assert_eq!(config.edit_port("80 "), None);
    assert_eq!(config, Config::default());
}

#[test]
fn setting_names() {
    assert_eq!(Setting::ScriptDir.name(), "CS2_BP_DIR_PATH");
    assert_eq!(Setting::IntegrationPort.name(), "CS2_BP_PORT");
    assert_eq!(Setting::ServerUrl.name(), "CS2_BP_INTIFACE_ADDR");
}

#[test]
fn script_directories() {
    let mut config = Config::default();
    assert_eq!(config.script_dir(), DEFAULT_GAME_DIR);
    assert!(config.script_dir().starts_with("C:\\Program Files (x86)\\Steam\\"));
    assert!(config.script_dir().ends_with("\\game\\csgo\\cfg"));
    assert_eq!(config.script_dir_label(), "[None]");
    let _ = config.pick_script_dir("D:\\cs".to_string());
    assert_eq!(config.script_dir(), "D:\\cs");
    assert_eq!(config.script_dir_label(), "D:\\cs");
}

#[test]
fn port_is_shown() {
    assert_eq!(Config::default().port_label(), "Advanced: GSI integration port (default 42069): 42069");
}
