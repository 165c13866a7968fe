//! Requests of the account service, as the client sends them.

use vstd::prelude::*;

verus! {

/// The opening of a game session.
#[derive(Debug, Clone)]
pub struct GameC2SSessionReq {
    pub timestamp: String,
    pub device_os_version: String,
    pub device_model: String,
    pub app_version: String,
    pub device_ids: Vec<DeviceId>,
    pub request_id: String,
    pub limit_ad_tracking: bool,
}

/// One identifier of the client device.
#[derive(Debug, Clone)]
pub struct DeviceId {
    pub device_id_type: String,
    pub value: String,
}

/// A query for the patch that belongs to a client version.
#[derive(Debug, Clone)]
pub struct GamePatchVersionReq {
    pub version: String,
}

/// What the client says of its device.
#[derive(Debug, Clone)]
pub struct DeviceInfo {
    pub network_name: String,
    pub device_id: String,
    pub cnadid: String,
    pub oa_id: String,
    pub android_id: String,
    pub imsi: String,
    pub imei: String,
    pub uuid: String,
    pub device_name: String,
    pub device_manufacturer: String,
    pub os_type: i64,
    pub os_version: String,
    pub api_level: String,
    pub language: String,
    pub display_width: String,
    pub display_height: String,
    pub hardware: String,
    pub build_name: String,
    pub distinct_id: String,
    pub anonymous_id: String,
}

/// What the client says of its build.
#[derive(Debug, Clone)]
pub struct AppPackageInfo {
    pub app_package_name: String,
    pub app_version: i64,
    pub app_version_name: String,
    pub game_id: i64,
    pub game_code: String,
    pub game_name: String,
    pub channel_id: String,
    pub sub_channel_id: String,
    pub app_install_time: String,
    pub app_update_time: String,
    pub app_signature: String,
    pub sdk_version: String,
    pub channel_version: String,
    pub ad_fid: String,
    pub gclid: String,
    pub data_app_id: String,
}

/// A login by mail address and password.
#[derive(Debug, Clone)]
pub struct AccountLoginMailReq {
    pub device_info: DeviceInfo,
    pub app_package_info: AppPackageInfo,
    pub reactivate: bool,
    pub account: String,
    pub pwd: String,
}

/// A query for the sign-in methods bound to an account.
#[derive(Debug, Clone)]
pub struct AccountBindListReq {
    pub device_info: DeviceInfo,
    pub app_package_info: AppPackageInfo,
    pub reactivate: bool,
    pub token: String,
    pub user_id: u64,
}

/// A login by a token from an earlier login.
#[derive(Debug, Clone)]
pub struct AccountAutoLoginReq {
    pub device_info: DeviceInfo,
    pub app_package_info: AppPackageInfo,
    pub reactivate: bool,
    pub token: String,
    pub user_id: u64,
    pub account_type: i32,
}

/// The query of the session login page. `account_id` has the form `200_1337`.
#[derive(Debug, Clone)]
pub struct JspLoginQuery {
    pub sl_session_id: String,
    pub client_version: String,
    pub sys_type: i32,
    pub account_id: String,
    pub channel_id: String,
    pub sub_channel_id: String,
}

/// The query for a zone; `session_id` is the token.
#[derive(Debug, Clone)]
pub struct LoadZoneQuery {
    pub session_id: String,
    pub zone_id: i32,
}

/// A query for the summon history of a player.
#[derive(Debug, Clone)]
pub struct SummonQueryReq {
    pub user_id: i64,
    pub token: String,
}

} // verus!
