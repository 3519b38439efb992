use copymaster::autostart::{
    app_menu_entry_content, autostart_entry_content, xfce_entry_content, AutoStartManager,
    AutostartMethod, DesktopEnvironment,
};
use copymaster::config::{AppConfig, ConfigManager, ConflictAction, DevicePreference};
use copymaster::drag_drop::{DropAction, Priority, TransferOptions, TransferResult};
use copymaster::extensions::{CopyExtension, CopyHandler, ExtensionRegistry};
use copymaster::queue_manager::{self, QueuedTransfer, TransferQueue};

fn pref(id: &str, action: DropAction) -> DevicePreference {
    DevicePreference {
        device_id: String::from(id),
        default_action: action,
        remember_choice: true,
    }
}

#[test]
fn defaults_match_the_design() {
    let c = AppConfig::default();
    assert!(!c.autostart_enabled);
    assert!(c.minimize_to_tray);
    assert_eq!(c.conflict_resolution.default_action, ConflictAction::Ask);
    assert!(c.conflict_resolution.ask_for_confirmation);
    assert_eq!(c.conflict_resolution.rename_pattern, "{name} ({counter})");
    assert_eq!(c.window_state.width, 1000);
    assert_eq!(c.window_state.height, 700);

    let o = TransferOptions::default();
    assert_eq!(o.priority, Priority::Normal);
    assert!(o.verify_after_copy);

    let r = TransferResult::new(9);
    assert_eq!(r.transfer_id, 9);
    assert_eq!(r.files_copied, 0);
}

#[test]
fn conflict_policy_updates_in_place() {
    let mut m = ConfigManager::new(AppConfig::default());
    m.update_conflict_resolution(ConflictAction::Overwrite, false);
    assert_eq!(m.get_config().conflict_resolution.default_action, ConflictAction::Overwrite);
    assert!(!m.get_config().conflict_resolution.ask_for_confirmation);
    m.update_autostart(true, true);
    assert!(m.get_config().autostart_enabled);
    assert!(m.get_config().start_minimized);
}

#[test]
fn device_preferences_replace_on_equal_key() {
    let mut m = ConfigManager::new(AppConfig::default());
    assert!(m.get_device_preference("usb-1").is_none());
    m.set_device_preference(pref("usb-1", DropAction::NewTransfer));
    m.set_device_preference(pref("usb-2", DropAction::Cancel));
    m.set_device_preference(pref("usb-1", DropAction::MergeDirectories));
    assert_eq!(m.get_config().remembered_devices.len(), 2);
    let p = m.get_device_preference("usb-1").expect("usb-1 should be on file");
    assert_eq!(p.default_action, DropAction::MergeDirectories);
    let p2 = m.get_device_preference("usb-2").expect("usb-2 should be on file");
    assert_eq!(p2.default_action, DropAction::Cancel);
}

fn extension(name: &str, features: Vec<&str>, handler: CopyHandler) -> CopyExtension {
    CopyExtension {
        name: String::from(name),
        description: String::from("a test extension"),
        author: String::from("tests"),
        version: String::from("1.0"),
        features: features.into_iter().map(String::from).collect(),
        handler,
    }
}

#[test]
fn registry_registers_replaces_and_lists() {
    let mut reg = ExtensionRegistry::new();
    assert!(reg.get("fast").is_none());
    reg.register(String::from("fast"), extension("fast", vec!["sparse"], CopyHandler::Standard));
    reg.register(
        String::from("safe"),
        extension("safe", vec!["verify", "sparse"], CopyHandler::Verified),
    );
    reg.register(
        String::from("fast"),
        extension("fast", vec!["sparse", "direct"], CopyHandler::ParallelChunks),
    );
    assert_eq!(reg.list(), vec![String::from("fast"), String::from("safe")]);
    let fast = reg.get("fast").expect("fast should be registered");
    assert_eq!(fast.create_handler(), CopyHandler::ParallelChunks);
    assert!(fast.supports_feature("direct"));
    assert!(!fast.supports_feature("verify"));
    let safe = reg.get("safe").expect("safe should be registered");
    assert!(safe.supports_feature("verify"));
}

#[test]
fn desktop_environment_detection_prefers_xdg_and_ignores_case() {
    assert_eq!(
        DesktopEnvironment::detect_from(Some("GNOME"), None),
        DesktopEnvironment::GNOME
    );
    assert_eq!(
        DesktopEnvironment::detect_from(Some("ubuntu:GNOME"), Some("plasma")),
        DesktopEnvironment::GNOME
    );
    assert_eq!(
        DesktopEnvironment::detect_from(Some("Plasma"), None),
        DesktopEnvironment::KDE
    );
    assert_eq!(
        DesktopEnvironment::detect_from(Some("weird"), Some("xfce")),
        DesktopEnvironment::Unknown
    );
    assert_eq!(
        DesktopEnvironment::detect_from(None, Some("ubuntu")),
        DesktopEnvironment::GNOME
    );
    assert_eq!(
        DesktopEnvironment::detect_from(None, Some("mate")),
        DesktopEnvironment::MATE
    );
    assert_eq!(DesktopEnvironment::detect_from(None, None), DesktopEnvironment::Unknown);
    assert_eq!(
        DesktopEnvironment::detect_from(Some("cinnamon"), None),
        DesktopEnvironment::Cinnamon
    );
}

#[test]
fn autostart_entries_carry_the_right_exec_line() {
    let minimized = autostart_entry_content(true);
    assert!(minimized.contains("Exec=copymaster --minimized\n"));
    let plain = autostart_entry_content(false);
    assert!(plain.contains("Exec=copymaster\n"));
    assert!(plain.starts_with("[Desktop Entry]\n"));
    assert!(xfce_entry_content().contains("Exec=copymaster --minimized"));
    assert!(app_menu_entry_content().contains("Categories=Utility;FileTools;"));
}

#[test]
fn xfce_takes_its_own_session_file() {
    let m = AutoStartManager::new(DesktopEnvironment::XFCE, String::from("/home/u/.config"));
    assert_eq!(m.setup_method(), AutostartMethod::XfceSessionFile);
    let m2 = AutoStartManager::new(DesktopEnvironment::GNOME, String::from("/home/u/.config"));
    assert_eq!(m2.setup_method(), AutostartMethod::XdgDesktopFile);
    let m3 = AutoStartManager::new(DesktopEnvironment::Unknown, String::from("/home/u/.config"));
    assert_eq!(m3.setup_method(), AutostartMethod::XdgDesktopFile);
}

fn request(id: u64, priority: queue_manager::Priority, size: u64) -> QueuedTransfer {
    QueuedTransfer {
        id,
        priority,
        estimated_size: size,
        queued_at_ms: id,
        source: format!("/src/{}", id),
        destination: String::from("/dst"),
    }
}

#[test]
fn cross_device_queue_serves_priority_then_size() {
    let mut q = TransferQueue::new(4);
    q.schedule_smart(vec![
        request(1, queue_manager::Priority::Normal, 10),
        request(2, queue_manager::Priority::High, 5),
        request(3, queue_manager::Priority::Normal, 100),
    ]);
    assert_eq!(q.pending.len(), 3);
    let first = q.next_optimized().expect("three requests are pending");
    assert_eq!(first.id, 2);
    let second = q.next_optimized().expect("two requests are pending");
    assert_eq!(second.id, 3);
    let third = q.next_optimized().expect("one request is pending");
    assert_eq!(third.id, 1);
    assert!(q.next_optimized().is_none());
}
