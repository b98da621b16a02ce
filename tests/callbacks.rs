use steam_input::callbacks::{
    ConfigurationLoaded, DeviceConnected, DeviceDisconnected, RawConfigurationLoaded,
    RawDeviceConnected, RawDeviceDisconnected, CALLBACK_BASE_ID,
};

#[test]
fn callback_ids_follow_the_base() {
    assert_eq!(CALLBACK_BASE_ID, 2800);
    assert_eq!(DeviceConnected::ID, 2801);
    assert_eq!(DeviceDisconnected::ID, 2802);
    assert_eq!(ConfigurationLoaded::ID, 2803);
}

#[test]
fn device_connected_keeps_handle() {
    for h in [0u64, 1, 0x0123_4567_89ab_cdef, u64::MAX] {
        let raw = RawDeviceConnected { connected_device_handle: h };
        assert_eq!(DeviceConnected::from_raw(&raw).handle, h);
    }
}

#[test]
fn device_disconnected_keeps_handle() {
    for h in [0u64, 42, u64::MAX] {
        let raw = RawDeviceDisconnected { disconnected_device_handle: h };
        assert_eq!(DeviceDisconnected::from_raw(&raw).handle, h);
    }
}

#[test]
fn configuration_loaded_drops_creator() {
    let raw = RawConfigurationLoaded {
        app_id: 480,
        device_handle: 0xfeed_beef,
        mapping_creator: 76561197960287930,
        major_revision: 3,
        minor_revision: 17,
        uses_steam_input_api: true,
        uses_gamepad_api: false,
    };
    let decoded = ConfigurationLoaded::from_raw(&raw);
    assert_eq!(
        decoded,
        ConfigurationLoaded {
            app_id: 480,
            handle: 0xfeed_beef,
            major_revision: 3,
            minor_revision: 17,
            uses_steam_input_api: true,
            uses_gamepad_api: false,
        }
    );
    let other_creator = RawConfigurationLoaded { mapping_creator: 1, ..raw };
    assert_eq!(ConfigurationLoaded::from_raw(&other_creator), decoded);
}

#[test]
fn configuration_loaded_keeps_flags() {
    let raw = RawConfigurationLoaded {
        app_id: u32::MAX,
        device_handle: u64::MAX,
        mapping_creator: 0,
        major_revision: u32::MAX,
        minor_revision: 0,
        uses_steam_input_api: false,
        uses_gamepad_api: true,
    };
    let decoded = ConfigurationLoaded::from_raw(&raw);
    assert_eq!(decoded.app_id, u32::MAX);
    assert_eq!(decoded.handle, u64::MAX);
    assert_eq!(decoded.major_revision, u32::MAX);
    assert_eq!(decoded.minor_revision, 0);
    assert!(!decoded.uses_steam_input_api);
    assert!(decoded.uses_gamepad_api);
}
