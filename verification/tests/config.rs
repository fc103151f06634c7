use clipboard_syncer::config::configure::Configure;
use clipboard_syncer::handler::model::MessageTypeEnum;
use clipboard_syncer::listener::model::EventListenTypeEnum;
use clipboard_syncer::listener::shortcut::{ShortcutKeymapEnum, ShortcutListener};

#[test]
fn test_default_configuration() {
    let cfg = Configure::default();
    assert_eq!(cfg.store_limit, Some(100));
    assert_eq!(cfg.sync_port, Some(12022));
    assert_eq!(cfg.graphql_port, Some(12020));
    assert_eq!(
        cfg.toggle_window_hotkey.as_deref(),
        Some("CommandOrControl+Shift+k")
    );
    assert!(cfg.sync_server_addr_list.is_none());
}

#[test]
fn test_merge_present_fields_win() {
    let mut cfg = Configure::default();
    cfg.merge(Configure {
        store_limit: Some(101),
        sync_port: None,
        graphql_port: None,
        toggle_window_hotkey: None,
        sync_server_addr_list: Some(vec!["10.0.0.1:7000".to_string()]),
    });
    assert_eq!(cfg.store_limit, Some(101));
    assert_eq!(cfg.sync_port, Some(12022));
    assert_eq!(cfg.graphql_port, Some(12020));
    assert_eq!(
        cfg.sync_server_addr_list,
        Some(vec!["10.0.0.1:7000".to_string()])
    );
}

#[test]
fn test_remove_configured_peer() {
    let mut cfg = Configure::default();
    cfg.sync_server_addr_list = Some(vec![
        "10.0.0.1:7000".to_string(),
        "10.0.0.2:7000".to_string(),
    ]);

    assert!(cfg.remove_sync_server_addr("10.0.0.1:7000"));
    assert_eq!(
        cfg.sync_server_addr_list,
        Some(vec!["10.0.0.2:7000".to_string()])
    );

    assert!(!cfg.remove_sync_server_addr("10.0.0.9:7000"));

    let mut bare = Configure::default();
    assert!(!bare.remove_sync_server_addr("10.0.0.1:7000"));
}

#[test]
fn test_shortcut_lookup_follows_configuration() {
    let cfg = Configure::default();
    assert_eq!(
        ShortcutListener::get_shortcut_hotkey_config(&cfg, ShortcutKeymapEnum::ToggleWindow)
            .unwrap(),
        "CommandOrControl+Shift+k"
    );

    let mut blank = Configure::default();
    blank.toggle_window_hotkey = None;
    assert!(
        ShortcutListener::get_shortcut_hotkey_config(&blank, ShortcutKeymapEnum::ToggleWindow)
            .is_err()
    );
}

#[test]
fn test_event_topics() {
    assert_eq!(
        MessageTypeEnum::ChangeClipboardBackend.topic(),
        "cbs://change-clipboard-backend"
    );
    assert_eq!(
        MessageTypeEnum::UpdateClipboardRecordBackend.topic(),
        "cbs://update-clipboard-record-backend"
    );
    assert_eq!(
        MessageTypeEnum::DeleteClipboardRecordBackend.topic(),
        "cbs://delete-clipboard-record-backend"
    );
    assert_eq!(
        EventListenTypeEnum::TapChangeClipboardFrontend.event_name(),
        "cbs://tap-change-clipboard-frontend"
    );
    assert_eq!(
        EventListenTypeEnum::DeleteClipboardRecordFrontend.event_name(),
        "cbs://delete-clipboard-record-frontend"
    );
}
