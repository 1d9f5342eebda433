use cry::config::{config_delete, config_set, Config};
use cry::mapping::Mapping;
use std::collections::HashMap;

fn to_json(config: &Config) -> String {
    let mut document: HashMap<String, HashMap<String, String>> = HashMap::new();
    document.insert("extensions".to_string(), config.extensions.entries().into_iter().collect());
    document.insert("commands".to_string(), config.commands.entries().into_iter().collect());
    serde_json::to_string_pretty(&document).unwrap()
}

fn from_json(text: &str) -> Config {
    let mut document: HashMap<String, HashMap<String, String>> =
        serde_json::from_str(text).unwrap();
    let extensions = document.remove("extensions").unwrap();
    let commands = document.remove("commands").unwrap();
    Config {
        extensions: Mapping::from_entries(extensions.into_iter().collect()),
        commands: Mapping::from_entries(commands.into_iter().collect()),
    }
}

#[test]
fn a_key_that_was_set_is_there_after_a_fresh_load() {
    let mut config = Config::new();
    config_set(&mut config, "py".to_string(), "python3 -u".to_string(), true, false).unwrap();
    config_set(&mut config, "build".to_string(), "make all".to_string(), false, true).unwrap();
    let loaded = from_json(&to_json(&config));
    assert_eq!(loaded.extensions.get("py"), Some(&"python3 -u".to_string()));
    assert_eq!(loaded.commands.get("build"), Some(&"make all".to_string()));
    assert_eq!(loaded.extensions.entries().len(), 1);
    assert_eq!(loaded.commands.entries().len(), 1);
}

#[test]
fn a_key_that_was_deleted_is_gone_after_a_fresh_load() {
    let mut config = Config::new();
    config_set(&mut config, "py".to_string(), "python3".to_string(), true, false).unwrap();
    config_set(&mut config, "rs".to_string(), "cargo run".to_string(), true, false).unwrap();
    config_delete(&mut config, "py".to_string(), true, false).unwrap();
    let loaded = from_json(&to_json(&config));
    assert_eq!(loaded.extensions.get("py"), None);
    assert_eq!(loaded.extensions.get("rs"), Some(&"cargo run".to_string()));
}

#[test]
fn values_with_quotes_and_newlines_come_back_as_they_went() {
    let mut config = Config::new();
    let odd = "sh -c \"echo \\ 'x'\"\n\t\u{00E9}".to_string();
    config_set(&mut config, "odd key".to_string(), odd.clone(), false, true).unwrap();
    let loaded = from_json(&to_json(&config));
    assert_eq!(loaded.commands.get("odd key"), Some(&odd));
}
