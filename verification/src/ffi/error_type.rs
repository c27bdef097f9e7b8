//! The error-type strings the host classifies on. Success is the empty
//! string.
use vstd::prelude::*;

verus! {

pub const MTP_DETECT_FAILED: &'static str = "ErrorMtpDetectFailed";
pub const MTP_LOCK_EXISTS: &'static str = "ErrorMtpLockExists";
pub const DEVICE_CHANGED: &'static str = "ErrorDeviceChanged";
pub const DEVICE_SETUP: &'static str = "ErrorDeviceSetup";
pub const MULTIPLE_DEVICE: &'static str = "ErrorMultipleDevice";
pub const ALLOW_STORAGE_ACCESS: &'static str = "ErrorAllowStorageAccess";
pub const DEVICE_LOCKED: &'static str = "ErrorDeviceLocked";
pub const DEVICE_INFO: &'static str = "ErrorDeviceInfo";
pub const STORAGE_INFO: &'static str = "ErrorStorageInfo";
pub const NO_STORAGE: &'static str = "ErrorNoStorage";
pub const STORAGE_FULL: &'static str = "ErrorStorageFull";
pub const LIST_DIRECTORY: &'static str = "ErrorListDirectory";
pub const FILE_NOT_FOUND: &'static str = "ErrorFileNotFound";
pub const FILE_PERMISSION: &'static str = "ErrorFilePermission";
pub const LOCAL_FILE_READ: &'static str = "ErrorLocalFileRead";
pub const INVALID_PATH: &'static str = "ErrorInvalidPath";
pub const FILE_TRANSFER: &'static str = "ErrorFileTransfer";
pub const FILE_OBJECT_READ: &'static str = "ErrorFileObjectRead";
pub const SEND_OBJECT: &'static str = "ErrorSendObject";
pub const TRANSFER_CANCELLED: &'static str = "ErrorTransferCancelled";
pub const GENERAL: &'static str = "ErrorGeneral";

} // verus!
