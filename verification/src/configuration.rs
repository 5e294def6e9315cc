//! The device configuration, as read from the files of its directory.
use vstd::prelude::*;

verus! {

#[derive(Debug, Clone)]
pub struct Configuration {
    pub device_info: DeviceInfo,
    pub stcli: StCli,
    pub meta: MetaFile,
    pub onboarding: OnboardingConfig,
}

/// The content of `device_info.json`.
#[derive(Debug, Clone)]
pub struct DeviceInfoFile {
    pub device_info: DeviceInfo,
    pub stcli: StCli,
}

#[derive(Debug, Clone)]
pub struct DeviceInfo {
    pub firmware_version: String,
    pub private_key: String,
    pub public_key: String,
    pub serial_number: String,
}

#[derive(Debug, Clone)]
pub struct StCli {
    pub device_id: String,
}

/// The content of `meta.json`.
#[derive(Debug, Clone)]
pub struct MetaFile {
    pub location_id: String,
}

/// The content of `onboarding_config.json`.
#[derive(Debug, Clone)]
pub struct OnboardingConfigFile {
    pub onboarding_config: OnboardingConfig,
}

#[derive(Debug, Clone)]
pub struct OnboardingConfig {
    pub device_onboarding_id: String,
    pub mn_id: String,
    pub setup_id: String,
    pub vid: String,
    pub device_type_id: String,
    pub identity_type: String,
    pub device_integration_profile_key: DipKey,
}

#[derive(Debug, Clone)]
pub struct DipKey {
    pub id: String,
    pub major_version: u8,
    pub minor_version: u8,
}

/// The names of the files a configuration directory holds, in the order
/// device information, meta data, onboarding configuration.
pub const DEVICE_INFO_FILE: &'static str = "device_info.json";
pub const META_FILE: &'static str = "meta.json";
pub const ONBOARDING_CONFIG_FILE: &'static str = "onboarding_config.json";

impl Configuration {
    /// Assembles the configuration from the content of the three files of
    /// its directory.
    pub fn from_files(
        device_info: DeviceInfoFile,
        meta: MetaFile,
        onboarding: OnboardingConfigFile,
    ) -> (r: Configuration)
        ensures
            r.device_info == device_info.device_info,
            r.stcli == device_info.stcli,
            r.meta == meta,
            r.onboarding == onboarding.onboarding_config,
    {
        Configuration {
            device_info: device_info.device_info,
            stcli: device_info.stcli,
            meta,
            onboarding: onboarding.onboarding_config,
        }
    }
}

} // verus!
