use betterdisplay_kvm::cache::DeviceHandle;
use betterdisplay_kvm::config::AppConfig;
use betterdisplay_kvm::device_manager::{DeviceManager, Phase};
use betterdisplay_kvm::identity::DeviceIdentity;
use betterdisplay_kvm::presence::{AttachedDevice, Hook, HotplugEvent, Reaction};
use betterdisplay_kvm::serial::{magic_sequence, SerialAction, SerialEvent, SerialWatcher};

fn subscribed_manager(target: &str) -> DeviceManager {
    let mut partial = AppConfig::empty();
    partial.usb_device_id = Some(target.to_string());
    let mut manager = DeviceManager::new(partial.with_defaults());
    assert_eq!(manager.subscribe(Ok(())), Ok(()));
    manager
}

fn watching_manager(target: &str) -> DeviceManager {
    let mut manager = subscribed_manager(target);
    assert_eq!(manager.enumerate_devices(Ok(vec![])), Ok(vec![]));
    assert_eq!(manager.phase(), Phase::Watching);
    manager
}

fn attached(raw: u64, vendor_id: u16, product_id: u16) -> AttachedDevice {
    AttachedDevice {
        handle: DeviceHandle::new(raw),
        identity: DeviceIdentity::new(vendor_id, product_id),
    }
}

#[test]
fn target_in_the_listing_fires_present_once() {
    let mut manager = subscribed_manager("046d:c547");
    let reactions = manager
        .enumerate_devices(Ok(vec![attached(1, 0x046d, 0xc547)]))
        .unwrap();
    assert_eq!(reactions, vec![Reaction::TargetPresent]);
    let hooks: Vec<Hook> = reactions.iter().filter_map(|r| r.hook_to_fire()).collect();
    assert_eq!(hooks, vec![Hook::TargetPresent]);
    assert_eq!(manager.devices().len(), 1);
    assert_eq!(
        manager.devices().lookup(DeviceHandle::new(1)),
        Some(DeviceIdentity::new(0x046d, 0xc547))
    );
}

#[test]
fn disconnect_of_the_listed_target_fires_absent_once() {
    let mut manager = subscribed_manager("046d:c547");
    manager
        .enumerate_devices(Ok(vec![attached(1, 0x046d, 0xc547)]))
        .unwrap();
    let reaction = manager.handle_event(HotplugEvent::Disconnected(DeviceHandle::new(1)));
    assert_eq!(reaction, Reaction::TargetAbsent);
    assert_eq!(reaction.hook_to_fire(), Some(Hook::TargetAbsent));
    assert!(manager.devices().is_empty());
    assert_eq!(manager.devices().len(), 0);
}

#[test]
fn connect_of_another_device_fires_nothing() {
    let mut manager = watching_manager("046d:c547");
    let reaction = manager.handle_event(HotplugEvent::Connected(attached(2, 0x05ac, 0x12a8)));
    assert_eq!(reaction, Reaction::Recorded);
    assert_eq!(reaction.hook_to_fire(), None);
    assert_eq!(manager.devices().len(), 1);
    assert_eq!(
        manager.devices().lookup(DeviceHandle::new(2)),
        Some(DeviceIdentity::new(0x05ac, 0x12a8))
    );
}

#[test]
fn disconnect_of_an_unknown_handle_changes_nothing() {
    let mut manager = watching_manager("046d:c547");
    manager.handle_event(HotplugEvent::Connected(attached(2, 0x05ac, 0x12a8)));
    let reaction = manager.handle_event(HotplugEvent::Disconnected(DeviceHandle::new(3)));
    assert_eq!(reaction, Reaction::UnknownHandle);
    assert_eq!(reaction.hook_to_fire(), None);
    assert_eq!(manager.devices().len(), 1);
    assert_eq!(
        manager.devices().lookup(DeviceHandle::new(2)),
        Some(DeviceIdentity::new(0x05ac, 0x12a8))
    );
    assert_eq!(manager.devices().lookup(DeviceHandle::new(3)), None);
    assert_eq!(manager.phase(), Phase::Watching);
}

#[test]
fn disconnect_of_an_unknown_handle_on_an_empty_cache() {
    let mut manager = watching_manager("046d:c547");
    let reaction = manager.handle_event(HotplugEvent::Disconnected(DeviceHandle::new(3)));
    assert_eq!(reaction, Reaction::UnknownHandle);
    assert!(manager.devices().is_empty());
}

#[test]
fn timeout_then_pattern_triggers_once_and_clears() {
    let mut watcher = SerialWatcher::new(magic_sequence());
    assert_eq!(watcher.step(SerialEvent::Opened), SerialAction::Listen);
    assert_eq!(watcher.step(SerialEvent::TimedOut), SerialAction::Listen);
    assert_eq!(watcher.pending_len(), 0);
    assert_eq!(
        watcher.step(SerialEvent::Data(vec![0xDE, 0xAD, 0xBE, 0xEF])),
        SerialAction::Trigger
    );
    assert_eq!(watcher.pending_len(), 0);
    assert_eq!(watcher.step(SerialEvent::TimedOut), SerialAction::Listen);
    assert_eq!(watcher.pending_len(), 0);
}
