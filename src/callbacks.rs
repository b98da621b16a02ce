use vstd::prelude::*;

verus! {

/// The first identifier of the block that the native runtime reserves for
/// Steam Input callbacks; each record below takes a small offset from it.
pub const CALLBACK_BASE_ID: i32 = 2800;

/// The native `SteamInputDeviceConnected_t` record, as plain values.
#[derive(Copy, Clone, Debug, PartialEq, Eq, Structural)]
pub struct RawDeviceConnected {
    pub connected_device_handle: u64,
}

/// The native `SteamInputDeviceDisconnected_t` record, as plain values.
#[derive(Copy, Clone, Debug, PartialEq, Eq, Structural)]
pub struct RawDeviceDisconnected {
    pub disconnected_device_handle: u64,
}

/// The native `SteamInputConfigurationLoaded_t` record, as plain values; the
/// mapping creator is the 64-bit form of the creator's Steam ID.
#[derive(Copy, Clone, Debug, PartialEq, Eq, Structural)]
pub struct RawConfigurationLoaded {
    pub app_id: u32,
    pub device_handle: u64,
    pub mapping_creator: u64,
    pub major_revision: u32,
    pub minor_revision: u32,
    pub uses_steam_input_api: bool,
    pub uses_gamepad_api: bool,
}

/// A controller was connected; `handle` identifies it until it disconnects.
#[derive(Copy, Clone, Debug, PartialEq, Eq, Structural)]
pub struct DeviceConnected {
    pub handle: u64,
}

/// A controller was disconnected; its `handle` is no longer valid.
#[derive(Copy, Clone, Debug, PartialEq, Eq, Structural)]
pub struct DeviceDisconnected {
    pub handle: u64,
}

/// A binding configuration was loaded for a controller.
#[derive(Copy, Clone, Debug, PartialEq, Eq, Structural)]
pub struct ConfigurationLoaded {
    pub app_id: u32,
    pub handle: u64,
    pub major_revision: u32,
    pub minor_revision: u32,
    pub uses_steam_input_api: bool,
    pub uses_gamepad_api: bool,
}

/// What a configuration-loaded record decodes to: every field but the
/// mapping creator, unchanged.
pub open spec fn configuration_of(raw: RawConfigurationLoaded) -> ConfigurationLoaded {
    ConfigurationLoaded {
        app_id: raw.app_id,
        handle: raw.device_handle,
        major_revision: raw.major_revision,
        minor_revision: raw.minor_revision,
        uses_steam_input_api: raw.uses_steam_input_api,
        uses_gamepad_api: raw.uses_gamepad_api,
    }
}

impl DeviceConnected {
    /// The identifier under which the runtime delivers this record.
    pub const ID: i32 = CALLBACK_BASE_ID + 1;

    /// Decodes the native record: the handle is copied as it is.
    pub fn from_raw(raw: &RawDeviceConnected) -> (r: DeviceConnected)
        ensures
            r.handle == raw.connected_device_handle,
    {
        DeviceConnected { handle: raw.connected_device_handle }
    }
}

impl DeviceDisconnected {
    /// The identifier under which the runtime delivers this record.
    pub const ID: i32 = CALLBACK_BASE_ID + 2;

    /// Decodes the native record: the handle is copied as it is.
    pub fn from_raw(raw: &RawDeviceDisconnected) -> (r: DeviceDisconnected)
        ensures
            r.handle == raw.disconnected_device_handle,
    {
        DeviceDisconnected { handle: raw.disconnected_device_handle }
    }
}

impl ConfigurationLoaded {
    /// The identifier under which the runtime delivers this record.
    pub const ID: i32 = CALLBACK_BASE_ID + 3;

    /// Decodes the native record, leaving out the mapping creator.
    pub fn from_raw(raw: &RawConfigurationLoaded) -> (r: ConfigurationLoaded)
        ensures
            r == configuration_of(*raw),
            r.app_id == raw.app_id,
            r.handle == raw.device_handle,
            r.major_revision == raw.major_revision,
            r.minor_revision == raw.minor_revision,
            r.uses_steam_input_api == raw.uses_steam_input_api,
            r.uses_gamepad_api == raw.uses_gamepad_api,
    {
        ConfigurationLoaded {
            app_id: raw.app_id,
            handle: raw.device_handle,
            major_revision: raw.major_revision,
            minor_revision: raw.minor_revision,
            uses_steam_input_api: raw.uses_steam_input_api,
            uses_gamepad_api: raw.uses_gamepad_api,
        }
    }
}

/// The three records have distinct identifiers inside the reserved block, so
/// routing by identifier never confuses them.
pub proof fn lemma_callback_ids_distinct()
    ensures
        DeviceConnected::ID != DeviceDisconnected::ID,
        DeviceConnected::ID != ConfigurationLoaded::ID,
        DeviceDisconnected::ID != ConfigurationLoaded::ID,
        CALLBACK_BASE_ID < DeviceConnected::ID,
        ConfigurationLoaded::ID < CALLBACK_BASE_ID + 100,
{
}

/// The mapping creator never reaches the decoded record: two native records
/// that differ at most in it decode alike, and each other field is kept.
pub proof fn lemma_creator_is_dropped(a: RawConfigurationLoaded, b: RawConfigurationLoaded)
    requires
        a.app_id == b.app_id,
        a.device_handle == b.device_handle,
        a.major_revision == b.major_revision,
        a.minor_revision == b.minor_revision,
        a.uses_steam_input_api == b.uses_steam_input_api,
        a.uses_gamepad_api == b.uses_gamepad_api,
    ensures
        configuration_of(a) == configuration_of(b),
        configuration_of(a).app_id == a.app_id,
        configuration_of(a).handle == a.device_handle,
        configuration_of(a).major_revision == a.major_revision,
        configuration_of(a).minor_revision == a.minor_revision,
        configuration_of(a).uses_steam_input_api == a.uses_steam_input_api,
        configuration_of(a).uses_gamepad_api == a.uses_gamepad_api,
{
}

} // verus!
