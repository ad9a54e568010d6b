use wm_core::config::{Bar, KeyboardConfig, MenuEntry, RawKeyboardConfig};

#[test]
fn bar_new_has_no_command() {
    assert_eq!(Bar::new().command(), "");
    assert_eq!(Bar::with_command(String::from("waybar")).command(), "waybar");
}

#[test]
fn keyboard_config_from_raw_keeps_strings() {
    let raw = RawKeyboardConfig {
        layout: String::from("de"),
        variant: String::from("nodeadkeys"),
        model: String::from("pc105"),
    };
    let keyboard = KeyboardConfig::from_raw(&raw);
    assert_eq!(keyboard.layout, "de");
    assert_eq!(keyboard.variant, "nodeadkeys");
    assert_eq!(keyboard.model, "pc105");
    assert_eq!(KeyboardConfig::new().layout, "");
}

#[test]
fn menu_entry_keeps_fields() {
    let entry = MenuEntry::new(String::from("Terminal"), String::from("weston-terminal"));
    assert_eq!(entry.title(), "Terminal");
    assert_eq!(entry.command(), "weston-terminal");
}

use wm_core::config::{RawConfiguration, RawKeyBinding};

const CONFIGURATION: &str = r#"{
    "keyboard": { "layout": "us", "variant": "", "model": "pc105" },
    "key_bindings": [
        { "description": "Close", "keys": "q", "modifiers": "Logo", "command": "kill-focused" },
        { "description": "Terminal", "keys": "Return t", "modifiers": "Logo Shift", "command": "alacritty", "extra": 1 }
    ],
    "menu": [ { "title": "ignored", "command": "ignored" } ],
    "bar": { "command": "waybar" }
}"#;

#[test]
fn from_json_reads_a_configuration() {
    let raw = RawConfiguration::from_json(CONFIGURATION).expect("a configuration");
    assert_eq!(raw.keyboard.layout, "us");
    assert_eq!(raw.keyboard.variant, "");
    assert_eq!(raw.keyboard.model, "pc105");
    assert_eq!(raw.bar.command(), "waybar");
    assert!(raw.menu.is_empty());
    assert_eq!(
        raw.key_bindings,
        vec![
            RawKeyBinding {
                description: String::from("Close"),
                key: String::from("q"),
                mod_key: String::from("Logo"),
                command: String::from("kill-focused"),
            },
            RawKeyBinding {
                description: String::from("Terminal"),
                key: String::from("Return t"),
                mod_key: String::from("Logo Shift"),
                command: String::from("alacritty"),
            },
        ]
    );
}

#[test]
fn from_json_reads_escapes_and_no_bindings() {
    let text = r#"{"keyboard":{"layout":"dé","variant":"a\"b","model":"\n"},"key_bindings":[],"bar":{"command":""}}"#;
    let raw = RawConfiguration::from_json(text).expect("a configuration");
    assert_eq!(raw.keyboard.layout, "d\u{e9}");
    assert_eq!(raw.keyboard.variant, "a\"b");
    assert_eq!(raw.keyboard.model, "\n");
    assert_eq!(raw.bar.command(), "");
    assert!(raw.key_bindings.is_empty());
}

#[test]
fn from_json_refuses_what_is_no_configuration() {
    assert_eq!(RawConfiguration::from_json(""), None);
    assert_eq!(RawConfiguration::from_json("not json"), None);
    assert_eq!(RawConfiguration::from_json("[]"), None);
    assert_eq!(RawConfiguration::from_json("{}"), None);
    assert_eq!(RawConfiguration::from_json(&CONFIGURATION.replace("\"us\"", "7")), None);
    assert_eq!(RawConfiguration::from_json(&CONFIGURATION.replace("\"model\"", "\"modell\"")), None);
    assert_eq!(RawConfiguration::from_json(&CONFIGURATION.replace("\"bar\"", "\"baz\"")), None);
    assert_eq!(RawConfiguration::from_json(&CONFIGURATION.replace("\"waybar\"", "null")), None);
    assert_eq!(RawConfiguration::from_json(&CONFIGURATION.replace("\"key_bindings\"", "\"bindings\"")), None);
    assert_eq!(RawConfiguration::from_json(&CONFIGURATION.replace("\"alacritty\"", "[\"alacritty\"]")), None);
    assert_eq!(RawConfiguration::from_json(&CONFIGURATION.replace("\"keys\": \"q\"", "\"key\": \"q\"")), None);
    assert_eq!(RawConfiguration::from_json(&CONFIGURATION.replace("\"Logo\",", "true,")), None);
    assert_eq!(RawConfiguration::from_json(&CONFIGURATION[..CONFIGURATION.len() - 1]), None);
    let no_array = r#"{"keyboard":{"layout":"","variant":"","model":""},"key_bindings":{},"bar":{"command":""}}"#;
    assert_eq!(RawConfiguration::from_json(no_array), None);
}

#[test]
fn raw_parts_need_all_their_strings() {
    let s = |text: &str| Some(String::from(text));
    assert_eq!(
        RawKeyBinding::from_parts(s("d"), s("k"), s("m"), s("c")),
        Some(RawKeyBinding {
            description: String::from("d"),
            key: String::from("k"),
            mod_key: String::from("m"),
            command: String::from("c"),
        })
    );
    assert_eq!(RawKeyBinding::from_parts(None, s("k"), s("m"), s("c")), None);
    assert_eq!(RawKeyBinding::from_parts(s("d"), None, s("m"), s("c")), None);
    assert_eq!(RawKeyBinding::from_parts(s("d"), s("k"), None, s("c")), None);
    assert_eq!(RawKeyBinding::from_parts(s("d"), s("k"), s("m"), None), None);
    assert_eq!(
        RawKeyboardConfig::from_parts(s("l"), s("v"), s("m")),
        Some(RawKeyboardConfig { layout: String::from("l"), variant: String::from("v"), model: String::from("m") })
    );
    assert_eq!(RawKeyboardConfig::from_parts(None, s("v"), s("m")), None);
    assert_eq!(RawKeyboardConfig::from_parts(s("l"), None, s("m")), None);
    assert_eq!(RawKeyboardConfig::from_parts(s("l"), s("v"), None), None);
}
