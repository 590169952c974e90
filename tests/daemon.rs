use serverwave::daemon::{docker_info, docker_status};
use serverwave::files::{editable_size, is_hidden, sort_entries, valid_new_name, FileEntry, MAX_EDIT_BYTES};

#[test]
fn daemon_status_messages() {
    let s = docker_status(Err("no socket".to_string()), None);
    assert!(!s.available && !s.running);
    assert_eq!(s.error, Some("Docker not available: no socket".to_string()));
    let s = docker_status(Ok(()), Some(Err("timeout".to_string())));
    assert!(s.available && !s.running);
    assert_eq!(s.error, Some("Docker not responding: timeout".to_string()));
    let s = docker_status(Ok(()), Some(Ok(())));
    assert!(s.available && s.running && s.error.is_none());
}

#[test]
fn daemon_info_defaults() {
    let i = docker_info(Some("27.0".to_string()), None, Some("linux".to_string()), None, Some(2), None, Some(-1));
    assert_eq!(i.version, "27.0");
    assert_eq!(i.api_version, "");
    assert_eq!(i.containers_running, 2);
    assert_eq!(i.containers_total, 0);
    assert_eq!(i.images, 0);
}

#[test]
fn hidden_files() {
    assert!(is_hidden(".machine-id"));
    assert!(!is_hidden("server.properties"));
    assert!(!is_hidden(""));
}

fn entry(name: &str, is_dir: bool) -> FileEntry {
    FileEntry { name: name.to_string(), path: format!("/d/{}", name), is_dir, size: 0, modified: None, extension: None }
}

#[test]
fn listing_puts_directories_first_then_names() {
    let sorted = sort_entries(vec![entry("b.txt", false), entry("Zeta", true), entry("A.txt", false), entry("alpha", true)]);
    let names: Vec<String> = sorted.iter().map(|e| e.name.clone()).collect();
    assert_eq!(names, vec!["alpha", "Zeta", "A.txt", "b.txt"]);
}

#[test]
fn file_name_and_size_rules() {
    assert!(valid_new_name("world.dat"));
    assert!(!valid_new_name("a/b"));
    assert!(!valid_new_name("a\\b"));
    assert!(editable_size(MAX_EDIT_BYTES));
    assert!(!editable_size(5 * 1024 * 1024 + 1));
}
