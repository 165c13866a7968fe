//! Records of the storage layer and messages of the account service.

pub mod bgm;
pub mod request;
