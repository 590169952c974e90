use serverwave::games::{GameConfig, GameType, PortConfig, PortProtocol};
use serverwave::manager::GamesManager;
use serverwave::server::{
    after_start, check_needs_install, clear_install_container, created_server, delete_actions,
    finish_install, finish_stop, get_server_config_path, install_outcome, install_plan,
    launch_target, log_source, mark_installed, plan_create, refresh_listed, reinstall_actions,
    reset_for_reinstall, server_data_path, server_status, sort_newest_first, start_step,
    stop_plan, update_actions, Action, CreateServerRequest, InstallPlan, LogSource, Server,
    StartStep, StopPlan, Timestamp, begin_install, record_install_container,
};
use serverwave::status::{reconcile, status_from_inspection, ContainerState, Inspection, ServerStatus};
use serverwave::vars::VarMap;

fn server(id: &str, container: Option<&str>, secs: i64) -> Server {
    Server {
        id: id.to_string(),
        name: "My server".to_string(),
        game_type: GameType::new("minecraft-java"),
        status: ServerStatus::Stopped,
        container_id: container.map(|c| c.to_string()),
        port: 25565,
        memory_mb: 4096,
        data_path: "/srv/minecraft-java/abc".to_string(),
        created_at: Timestamp { secs, nanos: 0 },
        config: VarMap::new(),
        installed: false,
        install_container_id: None,
    }
}

fn template_without_install() -> GameConfig {
    let mut g = GameConfig::default();
    g.game_type = GameType::new("plain");
    g.docker_image = "img".to_string();
    g.stop_command = "quit".to_string();
    g
}

#[test]
fn reconciler_maps_every_state() {
    assert_eq!(reconcile(Some(ContainerState::Running)), ServerStatus::Running);
    assert_eq!(reconcile(Some(ContainerState::Created)), ServerStatus::Stopped);
    assert_eq!(reconcile(Some(ContainerState::Restarting)), ServerStatus::Starting);
    assert_eq!(reconcile(Some(ContainerState::Paused)), ServerStatus::Stopped);
    assert_eq!(reconcile(Some(ContainerState::Removing)), ServerStatus::Stopping);
    assert_eq!(reconcile(Some(ContainerState::Exited)), ServerStatus::Stopped);
    assert_eq!(reconcile(Some(ContainerState::Dead)), ServerStatus::Error);
    assert_eq!(reconcile(Some(ContainerState::Empty)), ServerStatus::Stopped);
    assert_eq!(reconcile(None), ServerStatus::Stopped);
    assert_eq!(status_from_inspection(Inspection::Failed), ServerStatus::Stopped);
}

#[test]
fn installing_status_is_sticky() {
    let mut s = server("a", None, 0);
    s.status = ServerStatus::Installing;
    assert_eq!(server_status(&s, ServerStatus::Stopped), ServerStatus::Installing);
    s.container_id = Some("c".to_string());
    assert_eq!(server_status(&s, ServerStatus::Stopped), ServerStatus::Installing);
    let listed = refresh_listed(s, Err("down".to_string()));
    assert_eq!(listed.status, ServerStatus::Installing);
    let plain = server("b", Some("c"), 0);
    assert_eq!(server_status(&plain, ServerStatus::Running), ServerStatus::Running);
    assert_eq!(refresh_listed(plain, Err("down".to_string())).status, ServerStatus::Error);
    assert_eq!(server_status(&server("d", None, 0), ServerStatus::Running), ServerStatus::Stopped);
}

#[test]
fn create_without_memory_takes_recommended_default() {
    let manager = GamesManager::new();
    let game = manager.get_game(&GameType::new("minecraft-java")).unwrap();
    let request = CreateServerRequest {
        name: "World".to_string(),
        game_type: GameType::new("minecraft-java"),
        port: Some(25565),
        config: None,
        memory_mb: None,
    };
    let plan = plan_create(&request, &game);
    assert_eq!(plan.memory_mb, game.recommended_ram_mb);
    assert_eq!(plan.port, 25565);
    assert_eq!(plan.env.get(&"SERVER_MEMORY".to_string()), Some("4096".to_string()));
    let startup = plan.startup_command.clone().unwrap();
    assert!(startup.contains("-Xmx4096M"));
    assert!(startup.contains("-jar server.jar"));
    let data = server_data_path("/home/u/ServerWaveAnywhere/servers", &request.game_type, "abcd1234");
    assert_eq!(data, "/home/u/ServerWaveAnywhere/servers/minecraft-java/abcd1234");
    let s = created_server("abcd1234".to_string(), request, plan, data, "cid".to_string(), Timestamp { secs: 5, nanos: 1 });
    assert_eq!(s.status, ServerStatus::Stopped);
    assert_eq!(s.memory_mb, 4096);
    assert!(!s.installed);
    assert_eq!(s.container_id, Some("cid".to_string()));
}

#[test]
fn create_defaults_port_to_first_template_port() {
    let mut game = template_without_install();
    game.recommended_ram_mb = 1500;
    game.ports = vec![
        PortConfig { container_port: 7777, protocol: PortProtocol::Both, description: None, env_var: None },
        PortConfig { container_port: 27015, protocol: PortProtocol::Udp, description: None, env_var: None },
    ];
    let request = CreateServerRequest {
        name: "T".to_string(),
        game_type: GameType::new("plain"),
        port: None,
        config: None,
        memory_mb: Some(3000),
    };
    let plan = plan_create(&request, &game);
    assert_eq!(plan.port, 7777);
    assert_eq!(plan.memory_mb, 3000);
    assert_eq!(plan.extra_ports.len(), 1);
    assert_eq!(plan.extra_ports[0].container_port, 27015);
    assert!(plan.startup_command.is_none());
    game.ports.clear();
    assert_eq!(plan_create(&request, &game).port, 25565);
}

#[test]
fn start_without_install_script_marks_installed_and_launches() {
    let game = template_without_install();
    let s = server("a", Some("main"), 0);
    assert!(!check_needs_install(&s, Some(&game)));
    assert_eq!(start_step(&s, Some(&game)), StartStep::MarkInstalled);
    assert!(matches!(install_plan(&game), InstallPlan::Skip));
    let s = mark_installed(s);
    assert!(s.installed);
    assert_eq!(start_step(&s, Some(&game)), StartStep::Launch);
    assert_eq!(launch_target(&s), Ok("main".to_string()));
    let started = after_start(s, ServerStatus::Running).unwrap();
    assert_eq!(started.status, ServerStatus::Running);
}

#[test]
fn start_with_install_script_installs_first() {
    let mut game = template_without_install();
    game.install_script = Some("echo hi".to_string());
    let s = server("a", Some("main"), 0);
    assert!(check_needs_install(&s, Some(&game)));
    assert_eq!(start_step(&s, Some(&game)), StartStep::Install);
    match install_plan(&game) {
        InstallPlan::Run { script, image, volume_path } => {
            assert_eq!(script, "echo hi");
            assert_eq!(image, "img");
            assert_eq!(volume_path, "/data");
        }
        InstallPlan::Skip => panic!("expected an install"),
    }
}

#[test]
fn failed_start_is_reported() {
    let s = server("a", Some("main"), 0);
    assert_eq!(after_start(s, ServerStatus::Stopped).err(), Some("Container failed to start".to_string()));
    let s = server("a", Some("main"), 0);
    assert!(after_start(s, ServerStatus::Error).is_err());
    assert_eq!(launch_target(&server("a", None, 0)), Err("No container ID".to_string()));
}

#[test]
fn failed_install_keeps_install_container() {
    let s = begin_install(server("a", Some("main"), 0));
    assert_eq!(s.status, ServerStatus::Installing);
    let s = record_install_container(s, "inst".to_string());
    let s = finish_install(s, 2);
    assert_eq!(s.status, ServerStatus::Error);
    assert!(!s.installed);
    assert_eq!(s.install_container_id, Some("inst".to_string()));
    assert_eq!(log_source(&s), LogSource::Main("main".to_string()));
    let s = clear_install_container(s);
    assert_eq!(s.install_container_id, None);
    assert_eq!(
        install_outcome(s, -1).err(),
        Some("Install script failed with exit code: -1".to_string())
    );
}

#[test]
fn successful_install_is_clean() {
    let s = record_install_container(begin_install(server("a", Some("main"), 0)), "inst".to_string());
    assert_eq!(log_source(&s), LogSource::Install("inst".to_string()));
    let s = finish_install(s, 0);
    assert_eq!(s.status, ServerStatus::Stopped);
    assert!(s.installed);
    assert_eq!(s.install_container_id, None);
    assert!(install_outcome(s, 0).is_ok());
}

#[test]
fn stop_without_container_is_a_noop() {
    let game = template_without_install();
    let s = server("a", None, 7);
    assert!(matches!(stop_plan(&s, Some(&game)), StopPlan::Nothing));
    let r = finish_stop(s, None).unwrap();
    assert_eq!(r.status, ServerStatus::Stopped);
    assert_eq!(r.container_id, None);
    assert_eq!(r.created_at, Timestamp { secs: 7, nanos: 0 });
}

#[test]
fn stop_sends_console_command_first() {
    let game = template_without_install();
    let mut s = server("a", Some("main"), 0);
    s.status = ServerStatus::Running;
    match stop_plan(&s, Some(&game)) {
        StopPlan::Stop { container_id, stop_command } => {
            assert_eq!(container_id, "main");
            assert_eq!(stop_command, Some("quit".to_string()));
        }
        StopPlan::Nothing => panic!("expected a stop"),
    }
    assert!(matches!(stop_plan(&s, None), StopPlan::Stop { stop_command: None, .. }));
    assert_eq!(finish_stop(s, Some(Ok(()))).unwrap().status, ServerStatus::Stopped);
    let s = server("a", Some("main"), 0);
    assert_eq!(finish_stop(s, Some(Err("boom".to_string()))).err(), Some("boom".to_string()));
}

#[test]
fn reinstall_clears_data_before_installing() {
    let mut s = server("a", Some("main"), 0);
    s.installed = true;
    s.status = ServerStatus::Running;
    let acts = reinstall_actions(&s);
    assert_eq!(
        acts,
        vec![
            Action::CancelStream,
            Action::StopContainer("main".to_string()),
            Action::ClearData,
            Action::SaveReset,
            Action::RunInstall,
        ]
    );
    let r = reset_for_reinstall(s);
    assert!(!r.installed);
    assert_eq!(r.status, ServerStatus::Stopped);
    let acts = reinstall_actions(&server("b", None, 0));
    assert_eq!(acts, vec![Action::CancelStream, Action::ClearData, Action::SaveReset, Action::RunInstall]);
    assert_eq!(
        update_actions(&server("b", Some("m"), 0)),
        vec![Action::CancelStream, Action::StopContainer("m".to_string()), Action::RunInstall]
    );
}

#[test]
fn delete_removes_containers_and_optionally_data() {
    let mut s = server("a", Some("main"), 0);
    s.install_container_id = Some("inst".to_string());
    assert_eq!(
        delete_actions(&s, None),
        vec![
            Action::CancelStream,
            Action::StopContainer("main".to_string()),
            Action::RemoveContainer("main".to_string()),
            Action::RemoveInstallContainer("inst".to_string()),
            Action::RemoveRecord,
            Action::RemoveDataDir,
        ]
    );
    assert_eq!(
        delete_actions(&server("b", None, 0), Some(false)),
        vec![Action::CancelStream, Action::RemoveRecord]
    );
}

#[test]
fn listing_is_newest_first() {
    let servers = vec![server("old", None, 1), server("new", None, 9), server("mid", None, 5)];
    let sorted = sort_newest_first(servers);
    let ids: Vec<String> = sorted.iter().map(|s| s.id.clone()).collect();
    assert_eq!(ids, vec!["new".to_string(), "mid".to_string(), "old".to_string()]);
}

#[test]
fn registry_path_of_server() {
    assert_eq!(get_server_config_path("/home/u/config", "abcd1234"), "/home/u/config/abcd1234.json");
}

#[test]
fn failed_install_container_is_kept_for_its_logs() {
    assert_eq!(serverwave::server::install_container_to_remove(0, "inst".to_string()), Some("inst".to_string()));
    assert_eq!(serverwave::server::install_container_to_remove(1, "inst".to_string()), None);
}
