use serverwave::processor::{apply_ini_variables, apply_properties_variables, apply_yaml_variables};
use serverwave::vars::VarMap;

#[test]
fn test_properties_replacement() {
    let content = "# Comment\nmax-players=20\ndifficulty=normal\n";
    let mut mappings = VarMap::new();
    mappings.insert("max-players".to_string(), "{{MAX_PLAYERS}}".to_string());

    let mut variables = VarMap::new();
    variables.insert("MAX_PLAYERS".to_string(), "50".to_string());

    let result = apply_properties_variables(content, &mappings, &variables).unwrap();
    assert!(result.contains("max-players=50"));
}

#[test]
fn test_ini_replacement() {
    let content = "[Server]\nMaxPlayers=20\nViewDistance=12\n";
    let mut mappings = VarMap::new();
    mappings.insert("Server/MaxPlayers".to_string(), "{{HT_MAXPLAYERS}}".to_string());

    let mut variables = VarMap::new();
    variables.insert("HT_MAXPLAYERS".to_string(), "100".to_string());

    let result = apply_ini_variables(content, &mappings, &variables).unwrap();
    assert!(result.contains("MaxPlayers=100"));
}

#[test]
fn properties_output_is_exact() {
    let content = "# max-players=1\n  max-players = 20 \r\ndifficulty=normal\n";
    let mut mappings = VarMap::new();
    mappings.insert("max-players".to_string(), "{{MAX_PLAYERS}}".to_string());
    mappings.insert("motd".to_string(), "{{MOTD}}".to_string());
    let mut variables = VarMap::new();
    variables.insert("MAX_PLAYERS".to_string(), "50".to_string());
    let result = apply_properties_variables(content, &mappings, &variables).unwrap();
    assert_eq!(result, "# max-players=1\nmax-players=50\ndifficulty=normal");
}

#[test]
fn properties_without_variable_value_are_unchanged() {
    let content = "a=1\nb=2";
    let mut mappings = VarMap::new();
    mappings.insert("a".to_string(), "{{MISSING}}".to_string());
    let variables = VarMap::new();
    let result = apply_properties_variables(content, &mappings, &variables).unwrap();
    assert_eq!(result, "a=1\nb=2");
}

#[test]
fn ini_respects_sections() {
    let content = "[Other]\nMaxPlayers=1\n[Server]\n; comment\nMaxPlayers=20\n";
    let mut mappings = VarMap::new();
    mappings.insert("Server/MaxPlayers".to_string(), "{{N}}".to_string());
    let mut variables = VarMap::new();
    variables.insert("N".to_string(), "64".to_string());
    let result = apply_ini_variables(content, &mappings, &variables).unwrap();
    assert_eq!(result, "[Other]\nMaxPlayers=1\n[Server]\n; comment\nMaxPlayers=64");
}

#[test]
fn ini_key_without_section_matches_first() {
    let content = "[A]\nPort=1\n[B]\nPort=2";
    let mut mappings = VarMap::new();
    mappings.insert("Port".to_string(), "{{{{P}}}}".to_string());
    let mut variables = VarMap::new();
    variables.insert("P".to_string(), "9".to_string());
    let result = apply_ini_variables(content, &mappings, &variables).unwrap();
    assert_eq!(result, "[A]\nPort=9\n[B]\nPort=2");
}

#[test]
fn yaml_keeps_indentation() {
    let content = "server:\n  # max: 3\n  max-players: 10\nname: x";
    let mut mappings = VarMap::new();
    mappings.insert("max-players".to_string(), "{{MAX}}".to_string());
    let mut variables = VarMap::new();
    variables.insert("MAX".to_string(), "32".to_string());
    let result = apply_yaml_variables(content, &mappings, &variables).unwrap();
    assert_eq!(result, "server:\n  # max: 3\n  max-players: 32\nname: x");
}
