use bender::{ipc_path, BENDER_TO_PLUGIN, PLUGIN_TO_BENDER, SOCKET_MODE};

#[test]
fn the_two_addresses() {
    assert_eq!(BENDER_TO_PLUGIN, "ipc:///tmp/bender2plugin.ipc");
    assert_eq!(PLUGIN_TO_BENDER, "ipc:///tmp/plugin2bender.ipc");
    assert_ne!(BENDER_TO_PLUGIN, PLUGIN_TO_BENDER);
}

#[test]
fn the_files_behind_the_addresses() {
    assert_eq!(ipc_path(BENDER_TO_PLUGIN), Some("/tmp/bender2plugin.ipc".to_string()));
    assert_eq!(ipc_path(PLUGIN_TO_BENDER), Some("/tmp/plugin2bender.ipc".to_string()));
}

#[test]
fn the_mode_opens_the_file_to_everyone() {
    assert_eq!(SOCKET_MODE, 511);
}

#[test]
fn ipc_path_of_other_addresses() {
    assert_eq!(ipc_path("ipc://"), Some(String::new()));
    assert_eq!(ipc_path("ipc://x"), Some("x".to_string()));
    assert_eq!(ipc_path("ipc://é/ü"), Some("é/ü".to_string()));
    assert_eq!(ipc_path("ipc:/"), None);
    assert_eq!(ipc_path(""), None);
    assert_eq!(ipc_path("tcp://127.0.0.1:5555"), None);
    assert_eq!(ipc_path("IPC:///tmp/x"), None);
    assert_eq!(ipc_path(" ipc:///tmp/x"), None);
    assert_eq!(ipc_path("ééééééé"), None);
}
