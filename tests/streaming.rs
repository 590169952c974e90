use serverwave::install::{auth_links_in, exit_code_of, install_over, watch_step, Liveness, OpenedLinks, WatchAction, WatchEvent};
use serverwave::runtime::{
    create_container_spec, install_command, install_container_spec, machine_id_text,
    new_machine_id, new_server_id,
};
use serverwave::games::{PortConfig, PortProtocol};
use serverwave::status::ServerStatus;
use serverwave::streams::{log_events, log_lines, visible_log_lines, FollowAction, FollowEvent, LogFollower, StreamTable, MAX_RECONNECTS};
use serverwave::vars::VarMap;

#[test]
fn second_start_supersedes_first_stream() {
    let mut table: StreamTable<u32> = StreamTable::new();
    assert_eq!(table.replace("srv".to_string(), 1), None);
    assert_eq!(table.replace("srv".to_string(), 2), Some(1));
    assert_eq!(table.len(), 1);
    assert!(table.contains(&"srv".to_string()));
    assert_eq!(table.replace("other".to_string(), 3), None);
    assert_eq!(table.len(), 2);
    assert_eq!(table.remove(&"srv".to_string()), Some(2));
    assert_eq!(table.remove(&"srv".to_string()), None);
    assert!(!table.contains(&"srv".to_string()));
    assert_eq!(table.len(), 1);
}

#[test]
fn follower_backs_off_and_gives_up() {
    let mut f = LogFollower::new();
    assert_eq!(f.on_event(FollowEvent::StatusKnown(ServerStatus::Running)), FollowAction::OpenStream);
    assert_eq!(f.on_event(FollowEvent::StatusKnown(ServerStatus::Installing)), FollowAction::OpenStream);
    assert_eq!(f.on_event(FollowEvent::StatusUnknown), FollowAction::OpenStream);
    assert_eq!(f.on_event(FollowEvent::Chunk), FollowAction::Forward);
    for _ in 0..MAX_RECONNECTS {
        assert_eq!(f.on_event(FollowEvent::StreamClosed), FollowAction::RetryAfterSecs(1));
    }
    assert_eq!(f.on_event(FollowEvent::ConnectFailed), FollowAction::Stop);
    let mut g = LogFollower::new();
    assert_eq!(g.on_event(FollowEvent::ConnectFailed), FollowAction::RetryAfterSecs(2));
    assert_eq!(g.on_event(FollowEvent::Chunk), FollowAction::Forward);
    assert_eq!(g.reconnect_attempts, 0);
    assert_eq!(g.on_event(FollowEvent::StatusKnown(ServerStatus::Stopped)), FollowAction::Stop);
    assert_eq!(g.on_event(FollowEvent::Cancelled), FollowAction::Stop);
}

#[test]
fn log_chunks_split_into_lines() {
    assert_eq!(log_lines("a\r\n\nb\n"), vec!["a".to_string(), "b".to_string()]);
    assert_eq!(visible_log_lines("x\n   \ny"), vec!["x".to_string(), "y".to_string()]);
    let events = log_events(&"srv".to_string(), "one\ntwo");
    assert_eq!(events.len(), 2);
    assert_eq!(events[1].server_id, "srv");
    assert_eq!(events[1].line, "two");
}

#[test]
fn auth_links_are_opened_once_per_run() {
    let line = "Visit https://oauth.example.com/device?code=1\" or \"https://login.example.com\" or https://example.com/docs";
    assert_eq!(auth_links_in(line), vec!["https://oauth.example.com/device?code=1".to_string()]);
    let mut opened = OpenedLinks::new();
    assert_eq!(opened.links_to_open(line), vec!["https://oauth.example.com/device?code=1".to_string()]);
    assert!(opened.links_to_open(line).is_empty());
    assert!(opened.first_sighting("https://login.example.com".to_string()));
    assert!(!opened.first_sighting("https://login.example.com".to_string()));
    assert!(auth_links_in("no links here").is_empty());
}

#[test]
fn install_runner_decisions() {
    assert_eq!(watch_step(WatchEvent::Output), WatchAction::Forward);
    assert_eq!(watch_step(WatchEvent::StreamEnded), WatchAction::Finish);
    assert_eq!(watch_step(WatchEvent::StreamFailed), WatchAction::Finish);
    assert_eq!(watch_step(WatchEvent::Timeout), WatchAction::Inspect);
    assert!(install_over(Liveness::Gone));
    assert!(!install_over(Liveness::NoState));
    assert!(!install_over(Liveness::Running(Some(true))));
    assert!(install_over(Liveness::Running(Some(false))));
    assert!(install_over(Liveness::Running(None)));
    assert_eq!(exit_code_of(Some(Some(3))), 3);
    assert_eq!(exit_code_of(Some(None)), -1);
    assert_eq!(exit_code_of(None), -1);
}

#[test]
fn install_command_encodes_script() {
    assert_eq!(
        install_command("echo hi"),
        "echo 'ZWNobyBoaQ==' | base64 -d > /tmp/install.sh && chmod +x /tmp/install.sh && exec /tmp/install.sh"
    );
    let spec = install_container_spec("alpine", "C:\\data\\srv", "/data", "echo hi", "abcd1234");
    assert_eq!(spec.name, "serverwave-install-abcd1234");
    assert_eq!(spec.binds, vec!["C:/data/srv:/data".to_string(), "C:/data/srv/.machine-id:/etc/machine-id:ro".to_string()]);
    let cmd = spec.cmd.unwrap();
    assert_eq!(cmd[0], "/bin/sh");
    assert_eq!(cmd[2], install_command("echo hi"));
    assert_eq!(spec.working_dir, Some("/data".to_string()));
}

#[test]
fn main_container_spec() {
    let mut env = VarMap::new();
    env.insert("A".to_string(), "1".to_string());
    let extra = vec![
        PortConfig { container_port: 27015, protocol: PortProtocol::Both, description: None, env_var: None },
        PortConfig { container_port: 8080, protocol: PortProtocol::Tcp, description: None, env_var: None },
    ];
    let spec = create_container_spec("abc", "img:1", 25565, "/srv/x", &env, &extra, None, Some(2048), Some("java -jar s.jar"));
    assert_eq!(spec.name, "serverwave-abc");
    assert_eq!(spec.env, vec!["A=1".to_string()]);
    let keys: Vec<String> = spec.port_bindings.iter().map(|b| b.container_key.clone()).collect();
    assert_eq!(keys, vec!["25565/tcp", "25565/udp", "27015/tcp", "27015/udp", "8080/tcp"]);
    assert_eq!(spec.port_bindings[2].host_port, "27015");
    assert_eq!(spec.port_bindings[0].host_ip, "0.0.0.0");
    assert_eq!(spec.binds[0], "/srv/x:/data");
    assert_eq!(spec.memory_bytes, Some(2048 * 1024 * 1024));
    assert_eq!(spec.cmd, Some(vec!["/bin/bash".to_string(), "-c".to_string(), "cd /data && exec java -jar s.jar".to_string()]));
    let bare = create_container_spec("abc", "img:1", 1, "/srv/x", &env, &Vec::new(), Some("/home/container"), None, Some(""));
    assert!(bare.cmd.is_none());
    assert!(bare.memory_bytes.is_none());
    assert_eq!(bare.binds[0], "/srv/x:/home/container");
}

#[test]
fn fresh_identifiers() {
    let id = new_server_id();
    assert_eq!(id.chars().count(), 8);
    assert_ne!(new_server_id(), new_server_id());
    assert_eq!(machine_id_text("12-34-ab"), "1234ab\n");
    let m = new_machine_id();
    assert_eq!(m.len(), 33);
    assert!(m.ends_with('\n'));
    assert!(!m.contains('-'));
}
