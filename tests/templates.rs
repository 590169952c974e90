use serverwave::games::{
    build_env_vars, format_ram, resolve_startup, FieldType, GameConfig, GameType, SystemMapping,
    Variable,
};
use serverwave::manager::GamesManager;
use serverwave::vars::VarMap;

fn variable(env: &str, default: &str, mapping: Option<SystemMapping>) -> Variable {
    Variable {
        env: env.to_string(),
        name: env.to_string(),
        description: String::new(),
        default: default.to_string(),
        system_mapping: mapping,
        user_editable: true,
        options: None,
        field_type: FieldType::Text,
    }
}

fn custom_game(id: &str, name: &str, image: &str) -> GameConfig {
    let mut g = GameConfig::default();
    g.game_type = GameType::new(id);
    g.name = name.to_string();
    g.docker_image = image.to_string();
    g
}

#[test]
fn format_ram_follows_default_unit() {
    assert_eq!(format_ram(4096, "2G"), "4G");
    assert_eq!(format_ram(4096, "2g"), "4G");
    assert_eq!(format_ram(3000, "1G"), "2G");
    assert_eq!(format_ram(4096, "512M"), "4096M");
    assert_eq!(format_ram(4096, "1024"), "4096");
    assert_eq!(format_ram(0, ""), "0");
}

#[test]
fn env_vars_take_memory_port_overrides_and_defaults() {
    let mut game = GameConfig::default();
    game.variables = vec![
        variable("SERVER_MEMORY", "2048", Some(SystemMapping::Ram)),
        variable("SERVER_PORT", "1", Some(SystemMapping::Port)),
        variable("MOTD", "hello", None),
        variable("LEVEL", "world", Some(SystemMapping::Unmapped)),
    ];
    let mut overrides = VarMap::new();
    overrides.insert("LEVEL".to_string(), "nether".to_string());
    let env = build_env_vars(&game, 4096, 25565, &overrides);
    assert_eq!(env.get(&"SERVER_MEMORY".to_string()), Some("4096".to_string()));
    assert_eq!(env.get(&"SERVER_PORT".to_string()), Some("25565".to_string()));
    assert_eq!(env.get(&"MOTD".to_string()), Some("hello".to_string()));
    assert_eq!(env.get(&"LEVEL".to_string()), Some("nether".to_string()));
    assert_eq!(env.len(), 4);
}

#[test]
fn startup_placeholders_are_resolved() {
    let mut vars = VarMap::new();
    vars.insert("SERVER_MEMORY".to_string(), "4096".to_string());
    vars.insert("SERVER_JARFILE".to_string(), "server.jar".to_string());
    let r = resolve_startup("java -Xmx{{SERVER_MEMORY}}M -jar {{SERVER_JARFILE}} {{OTHER}}", &vars);
    assert_eq!(r, "java -Xmx4096M -jar server.jar {{OTHER}}");
}

#[test]
fn var_map_insert_replaces_in_place() {
    let mut m = VarMap::new();
    m.insert("a".to_string(), "1".to_string());
    m.insert("b".to_string(), "2".to_string());
    m.insert("a".to_string(), "3".to_string());
    assert_eq!(m.len(), 2);
    assert_eq!(m.entries[0], ("a".to_string(), "3".to_string()));
    assert!(m.contains_key(&"b".to_string()));
    assert_eq!(m.get(&"c".to_string()), None);
}

#[test]
fn builtin_catalog_is_loaded() {
    let manager = GamesManager::new();
    let game = manager.get_game(&GameType::new("minecraft-java")).unwrap();
    assert_eq!(game.recommended_ram_mb, 4096);
    assert!(!game.is_custom);
    assert_eq!(manager.get_all_games().len(), 10);
    assert!(manager.get_game(&GameType::new("nope")).is_none());
}

#[test]
fn custom_templates_override_and_sort_after_builtins() {
    let mut manager = GamesManager::new();
    assert_eq!(manager.add_game(custom_game("zeta", "Zeta", "img")), Ok(()));
    assert_eq!(manager.add_game(custom_game("alpha", "Alpha", "img")), Ok(()));
    let mut over = manager.get_game(&GameType::new("terraria")).unwrap();
    over.name = "Aaa Terraria".to_string();
    assert_eq!(manager.update_game(over), Ok(()));
    let all = manager.get_all_games();
    assert_eq!(all.len(), 12);
    assert!(all[..9].iter().all(|g| !g.is_custom));
    let names: Vec<String> = all[9..].iter().map(|g| g.name.clone()).collect();
    assert_eq!(names, vec!["Aaa Terraria".to_string(), "Alpha".to_string(), "Zeta".to_string()]);
    assert!(manager.get_game(&GameType::new("terraria")).unwrap().is_custom);
}

#[test]
fn template_validation_errors() {
    let mut manager = GamesManager::new();
    assert_eq!(manager.add_game(custom_game("", "X", "img")), Err("Game ID cannot be empty".to_string()));
    assert_eq!(manager.add_game(custom_game("x", "X", "")), Err("Docker image cannot be empty".to_string()));
    assert_eq!(manager.update_game(custom_game("unknown", "X", "img")), Err("Game not found".to_string()));
    assert_eq!(
        manager.delete_game(&GameType::new("rust")),
        Err("Cannot delete built-in games. Edit it to create an override, or reset to defaults.".to_string())
    );
    assert_eq!(manager.delete_game(&GameType::new("unknown")), Err("Game not found".to_string()));
    assert_eq!(manager.add_game(custom_game("mine", "Mine", "img")), Ok(()));
    assert_eq!(manager.delete_game(&GameType::new("mine")), Ok(()));
    assert!(manager.get_game(&GameType::new("mine")).is_none());
}

#[test]
fn imports_keep_only_valid_templates() {
    let mut manager = GamesManager::new();
    let mut g = custom_game("imp", "Imported", "img");
    g.is_custom = false;
    let stored = manager.import_game(g).unwrap();
    assert!(stored.is_custom);
    let kept = manager.import_games(vec![custom_game("a", "A", "img"), custom_game("", "B", "img")]);
    assert_eq!(kept.len(), 1);
    assert_eq!(manager.custom_games().len(), 2);
    assert_eq!(manager.reset_to_defaults(), Ok(()));
    assert_eq!(manager.custom_games().len(), 0);
}

#[test]
fn deleting_an_override_restores_the_builtin() {
    let mut manager = GamesManager::new();
    let mut over = manager.get_game(&GameType::new("rust")).unwrap();
    over.name = "My Rust".to_string();
    assert_eq!(manager.update_game(over), Ok(()));
    assert!(manager.get_game(&GameType::new("rust")).unwrap().is_custom);
    assert_eq!(manager.delete_game(&GameType::new("rust")), Ok(()));
    let back = manager.get_game(&GameType::new("rust")).unwrap();
    assert!(!back.is_custom);
    assert_eq!(back.name, "Rust");
    let all = manager.get_all_games();
    let mut ids: Vec<String> = all.iter().map(|g| g.game_type.0.clone()).collect();
    ids.sort();
    ids.dedup();
    assert_eq!(ids.len(), all.len());
}

#[test]
fn builtin_templates_are_complete() {
    let games = serverwave::catalog::get_builtin_games();
    assert_eq!(games.len(), 10);
    assert_eq!(games[0].game_type.0, "minecraft-java");
    assert_eq!(games[0].recommended_ram_mb, 4096);
    for g in &games {
        assert!(!g.ports.is_empty());
        assert!(g.min_ram_mb <= g.recommended_ram_mb);
        assert!(g.install_script.as_ref().map(|s| !s.is_empty()).unwrap_or(false));
    }
}
