use vstd::prelude::*;
use vstd::string::StringExecFns;
use crate::decimal::push_hex_upper_pad;
use super::{name_view, display16};

verus! {

/// operation code (`OC_*`).
#[derive(Clone, Copy, PartialEq, Eq, Hash, PartialOrd, Ord, Debug)]
pub struct OpCode(pub u16);

/// The spec name of each `OpCode` value that has one.
pub open spec fn op_code_name(c: u16) -> Option<Seq<char>> {
    match c {
        0x1000u16 => Some("Undefined"@),
        0x1001u16 => Some("GetDeviceInfo"@),
        0x1002u16 => Some("OpenSession"@),
        0x1003u16 => Some("CloseSession"@),
        0x1004u16 => Some("GetStorageIDs"@),
        0x1005u16 => Some("GetStorageInfo"@),
        0x1006u16 => Some("GetNumObjects"@),
        0x1007u16 => Some("GetObjectHandles"@),
        0x1008u16 => Some("GetObjectInfo"@),
        0x1009u16 => Some("GetObject"@),
        0x100Au16 => Some("GetThumb"@),
        0x100Bu16 => Some("DeleteObject"@),
        0x100Cu16 => Some("SendObjectInfo"@),
        0x100Du16 => Some("SendObject"@),
        0x100Eu16 => Some("InitiateCapture"@),
        0x100Fu16 => Some("FormatStore"@),
        0x1010u16 => Some("ResetDevice"@),
        0x1011u16 => Some("SelfTest"@),
        0x1012u16 => Some("SetObjectProtection"@),
        0x1013u16 => Some("PowerDown"@),
        0x1014u16 => Some("GetDevicePropDesc"@),
        0x1015u16 => Some("GetDevicePropValue"@),
        0x1016u16 => Some("SetDevicePropValue"@),
        0x1017u16 => Some("ResetDevicePropValue"@),
        0x1018u16 => Some("TerminateOpenCapture"@),
        0x1019u16 => Some("MoveObject"@),
        0x101Au16 => Some("CopyObject"@),
        0x101Bu16 => Some("GetPartialObject"@),
        0x101Cu16 => Some("InitiateOpenCapture"@),
        0x101Du16 => Some("StartEnumHandles"@),
        0x101Eu16 => Some("EnumHandles"@),
        0x101Fu16 => Some("StopEnumHandles"@),
        0x1020u16 => Some("GetVendorExtensionMaps"@),
        0x1021u16 => Some("GetVendorDeviceInfo"@),
        0x1022u16 => Some("GetResizedImageObject"@),
        0x1023u16 => Some("GetFilesystemManifest"@),
        0x1024u16 => Some("GetStreamInfo"@),
        0x1025u16 => Some("GetStream"@),
        0x9000u16 => Some("EXTENSION"@),
        0x9007u16 => Some("CASIO_FOCUS"@),
        0x902Eu16 => Some("CASIO_CZ_PRESS"@),
        0x902Fu16 => Some("CASIO_CZ_RELEASE"@),
        0x9041u16 => Some("CASIO_MOVIE_START"@),
        0x9042u16 => Some("CASIO_MOVIE_STOP"@),
        0x9043u16 => Some("CASIO_MOVIE_PRESS"@),
        0x9044u16 => Some("CASIO_MOVIE_RELEASE"@),
        0x9045u16 => Some("CASIO_GET_MOVIE_HANDLES"@),
        0x9046u16 => Some("CASIO_MOVIE_RESET"@),
        0x9170u16 => Some("MTP_AAVT_OpenMediaSession"@),
        0x9171u16 => Some("MTP_AAVT_CloseMediaSession"@),
        0x9172u16 => Some("MTP_AAVT_GetNextDataBlock"@),
        0x9173u16 => Some("MTP_AAVT_SetCurrentTimePosition"@),
        0x9180u16 => Some("MTP_WMDRMND_SendRegistrationRequest"@),
        0x9181u16 => Some("MTP_WMDRMND_GetRegistrationResponse"@),
        0x9182u16 => Some("MTP_WMDRMND_GetProximityChallenge"@),
        0x9183u16 => Some("MTP_WMDRMND_SendProximityResponse"@),
        0x9184u16 => Some("MTP_WMDRMND_SendWMDRMNDLicenseRequest"@),
        0x9185u16 => Some("MTP_WMDRMND_GetWMDRMNDLicenseResponse"@),
        0x9201u16 => Some("MTP_WMPPD_ReportAddedDeletedItems"@),
        0x9202u16 => Some("MTP_WMPPD_ReportAcquiredItems"@),
        0x9203u16 => Some("MTP_WMPPD_PlaylistObjectPref"@),
        0x9204u16 => Some("MTP_ZUNE_GETUNDEFINED001"@),
        0x9212u16 => Some("MTP_WMDRMPD_SendWMDRMPDAppRequest"@),
        0x9213u16 => Some("MTP_WMDRMPD_GetWMDRMPDAppResponse"@),
        0x9214u16 => Some("MTP_WMDRMPD_EnableTrustedFilesOperations"@),
        0x9215u16 => Some("MTP_WMDRMPD_DisableTrustedFilesOperations"@),
        0x9216u16 => Some("MTP_WMDRMPD_EndTrustedAppSession"@),
        0x9301u16 => Some("OLYMPUS_GetDeviceInfo"@),
        0x9302u16 => Some("OLYMPUS_Init1"@),
        0x9402u16 => Some("OLYMPUS_SetDateTime"@),
        0x9482u16 => Some("OLYMPUS_GetDateTime"@),
        0x9501u16 => Some("OLYMPUS_SetCameraID"@),
        0x9581u16 => Some("OLYMPUS_GetCameraID"@),
        0x9801u16 => Some("MTP_GetObjectPropsSupported"@),
        0x9802u16 => Some("MTP_GetObjectPropDesc"@),
        0x9803u16 => Some("MTP_GetObjectPropValue"@),
        0x9804u16 => Some("MTP_SetObjectPropValue"@),
        0x9805u16 => Some("MTP_GetObjPropList"@),
        0x9806u16 => Some("MTP_SetObjPropList"@),
        0x9807u16 => Some("MTP_GetInterdependendPropdesc"@),
        0x9808u16 => Some("MTP_SendObjectPropList"@),
        0x9810u16 => Some("MTP_GetObjectReferences"@),
        0x9811u16 => Some("MTP_SetObjectReferences"@),
        0x9812u16 => Some("MTP_UpdateDeviceFirmware"@),
        0x9820u16 => Some("MTP_Skip"@),
        0x9999u16 => Some("CHDK"@),
        0xF000u16 => Some("EXTENSION_MASK"@),
        0x95C1u16 => Some("ANDROID_GET_PARTIAL_OBJECT64"@),
        0x95C2u16 => Some("ANDROID_SEND_PARTIAL_OBJECT"@),
        0x95C3u16 => Some("ANDROID_TRUNCATE_OBJECT"@),
        0x95C4u16 => Some("ANDROID_BEGIN_EDIT_OBJECT"@),
        0x95C5u16 => Some("ANDROID_END_EDIT_OBJECT"@),
        _ => None,
    }
}

impl OpCode {
    pub const UNDEFINED: u16 = 0x1000;
    pub const GET_DEVICE_INFO: u16 = 0x1001;
    pub const OPEN_SESSION: u16 = 0x1002;
    pub const CLOSE_SESSION: u16 = 0x1003;
    pub const GET_STORAGE_IDS: u16 = 0x1004;
    pub const GET_STORAGE_INFO: u16 = 0x1005;
    pub const GET_NUM_OBJECTS: u16 = 0x1006;
    pub const GET_OBJECT_HANDLES: u16 = 0x1007;
    pub const GET_OBJECT_INFO: u16 = 0x1008;
    pub const GET_OBJECT: u16 = 0x1009;
    pub const GET_THUMB: u16 = 0x100A;
    pub const DELETE_OBJECT: u16 = 0x100B;
    pub const SEND_OBJECT_INFO: u16 = 0x100C;
    pub const SEND_OBJECT: u16 = 0x100D;
    pub const INITIATE_CAPTURE: u16 = 0x100E;
    pub const FORMAT_STORE: u16 = 0x100F;
    pub const RESET_DEVICE: u16 = 0x1010;
    pub const SELF_TEST: u16 = 0x1011;
    pub const SET_OBJECT_PROTECTION: u16 = 0x1012;
    pub const POWER_DOWN: u16 = 0x1013;
    pub const GET_DEVICE_PROP_DESC: u16 = 0x1014;
    pub const GET_DEVICE_PROP_VALUE: u16 = 0x1015;
    pub const SET_DEVICE_PROP_VALUE: u16 = 0x1016;
    pub const RESET_DEVICE_PROP_VALUE: u16 = 0x1017;
    pub const TERMINATE_OPEN_CAPTURE: u16 = 0x1018;
    pub const MOVE_OBJECT: u16 = 0x1019;
    pub const COPY_OBJECT: u16 = 0x101A;
    pub const GET_PARTIAL_OBJECT: u16 = 0x101B;
    pub const INITIATE_OPEN_CAPTURE: u16 = 0x101C;
    pub const START_ENUM_HANDLES: u16 = 0x101D;
    pub const ENUM_HANDLES: u16 = 0x101E;
    pub const STOP_ENUM_HANDLES: u16 = 0x101F;
    pub const GET_VENDOR_EXTENSION_MAPS: u16 = 0x1020;
    pub const GET_VENDOR_DEVICE_INFO: u16 = 0x1021;
    pub const GET_RESIZED_IMAGE_OBJECT: u16 = 0x1022;
    pub const GET_FILESYSTEM_MANIFEST: u16 = 0x1023;
    pub const GET_STREAM_INFO: u16 = 0x1024;
    pub const GET_STREAM: u16 = 0x1025;
    pub const EXTENSION: u16 = 0x9000;
    pub const CANON_GET_PARTIAL_OBJECT_INFO: u16 = 0x9001;
    pub const CASIO_STILL_START: u16 = 0x9001;
    pub const CANON_SET_OBJECT_ARCHIVE: u16 = 0x9002;
    pub const CASIO_STILL_STOP: u16 = 0x9002;
    pub const CANON_KEEP_DEVICE_ON: u16 = 0x9003;
    pub const EK_GET_SERIAL: u16 = 0x9003;
    pub const CANON_LOCK_DEVICE_UI: u16 = 0x9004;
    pub const EK_SET_SERIAL: u16 = 0x9004;
    pub const CANON_UNLOCK_DEVICE_UI: u16 = 0x9005;
    pub const EK_SEND_FILE_OBJECT_INFO: u16 = 0x9005;
    pub const CANON_GET_OBJECT_HANDLE_BY_NAME: u16 = 0x9006;
    pub const EK_SEND_FILE_OBJECT: u16 = 0x9006;
    pub const NIKON_GET_PROFILE_ALL_DATA: u16 = 0x9006;
    pub const CASIO_FOCUS: u16 = 0x9007;
    pub const NIKON_SEND_PROFILE_DATA: u16 = 0x9007;
    pub const CANON_INITIATE_RELEASE_CONTROL: u16 = 0x9008;
    pub const EK_SET_TEXT: u16 = 0x9008;
    pub const NIKON_DELETE_PROFILE: u16 = 0x9008;
    pub const CANON_TERMINATE_RELEASE_CONTROL: u16 = 0x9009;
    pub const CASIO_CF_PRESS: u16 = 0x9009;
    pub const NIKON_SET_PROFILE_DATA: u16 = 0x9009;
    pub const CANON_TERMINATE_PLAYBACK_MODE: u16 = 0x900A;
    pub const CASIO_CF_RELEASE: u16 = 0x900A;
    pub const CANON_VIEWFINDER_ON: u16 = 0x900B;
    pub const CANON_VIEWFINDER_OFF: u16 = 0x900C;
    pub const CASIO_GET_OBJECT_INFO: u16 = 0x900C;
    pub const CANON_DO_AE_AF_AWB: u16 = 0x900D;
    pub const CANON_GET_CUSTOMIZE_SPEC: u16 = 0x900E;
    pub const CANON_GET_CUSTOMIZE_ITEM_INFO: u16 = 0x900F;
    pub const CANON_GET_CUSTOMIZE_DATA: u16 = 0x9010;
    pub const NIKON_ADVANCED_TRANSFER: u16 = 0x9010;
    pub const CANON_SET_CUSTOMIZE_DATA: u16 = 0x9011;
    pub const NIKON_GET_FILE_INFO_IN_BLOCK: u16 = 0x9011;
    pub const CANON_GET_CAPTURE_STATUS: u16 = 0x9012;
    pub const CANON_CHECK_EVENT: u16 = 0x9013;
    pub const CANON_FOCUS_LOCK: u16 = 0x9014;
    pub const CANON_FOCUS_UNLOCK: u16 = 0x9015;
    pub const CANON_GET_LOCAL_RELEASE_PARAM: u16 = 0x9016;
    pub const CANON_SET_LOCAL_RELEASE_PARAM: u16 = 0x9017;
    pub const CANON_ASK_ABOUT_PC_EVF: u16 = 0x9018;
    pub const CANON_SEND_PARTIAL_OBJECT: u16 = 0x9019;
    pub const CANON_INITIATE_CAPTURE_IN_MEMORY: u16 = 0x901A;
    pub const CANON_GET_PARTIAL_OBJECT_EX: u16 = 0x901B;
    pub const CANON_SET_OBJECT_TIME: u16 = 0x901C;
    pub const CANON_GET_VIEWFINDER_IMAGE: u16 = 0x901D;
    pub const CANON_GET_OBJECT_ATTRIBUTES: u16 = 0x901E;
    pub const CANON_CHANGE_USB_PROTOCOL: u16 = 0x901F;
    pub const CANON_GET_CHANGES: u16 = 0x9020;
    pub const CANON_GET_OBJECT_INFO_EX: u16 = 0x9021;
    pub const CANON_INITIATE_DIRECT_TRANSFER: u16 = 0x9022;
    pub const CANON_TERMINATE_DIRECT_TRANSFER: u16 = 0x9023;
    pub const CANON_SEND_OBJECT_INFO_BY_PATH: u16 = 0x9024;
    pub const CASIO_SHUTTER: u16 = 0x9024;
    pub const CANON_SEND_OBJECT_BY_PATH: u16 = 0x9025;
    pub const CASIO_GET_OBJECT: u16 = 0x9025;
    pub const CANON_INITIATE_DIRECT_TANSFER_EX: u16 = 0x9026;
    pub const CASIO_GET_THUMBNAIL: u16 = 0x9026;
    pub const CANON_GET_ANCILLARY_OBJECT_HANDLES: u16 = 0x9027;
    pub const CASIO_GET_STILL_HANDLES: u16 = 0x9027;
    pub const CANON_GET_TREE_INFO: u16 = 0x9028;
    pub const CASIO_STILL_RESET: u16 = 0x9028;
    pub const CANON_GET_TREE_SIZE: u16 = 0x9029;
    pub const CASIO_HALF_PRESS: u16 = 0x9029;
    pub const CANON_NOTIFY_PROGRESS: u16 = 0x902A;
    pub const CASIO_HALF_RELEASE: u16 = 0x902A;
    pub const CANON_NOTIFY_CANCEL_ACCEPTED: u16 = 0x902B;
    pub const CASIO_CS_PRESS: u16 = 0x902B;
    pub const CANON_902C: u16 = 0x902C;
    pub const CASIO_CS_RELEASE: u16 = 0x902C;
    pub const CANON_GET_DIRECTORY: u16 = 0x902D;
    pub const CASIO_ZOOM: u16 = 0x902D;
    pub const CASIO_CZ_PRESS: u16 = 0x902E;
    pub const CASIO_CZ_RELEASE: u16 = 0x902F;
    pub const CANON_SET_PAIRING_INFO: u16 = 0x9030;
    pub const CANON_GET_PAIRING_INFO: u16 = 0x9031;
    pub const CANON_DELETE_PAIRING_INFO: u16 = 0x9032;
    pub const CANON_GET_MAC_ADDRESS: u16 = 0x9033;
    pub const CANON_SET_DISPLAY_MONITOR: u16 = 0x9034;
    pub const CANON_PAIRING_COMPLETE: u16 = 0x9035;
    pub const CANON_GET_WIRELESS_MAX_CHANNEL: u16 = 0x9036;
    pub const CASIO_MOVIE_START: u16 = 0x9041;
    pub const CASIO_MOVIE_STOP: u16 = 0x9042;
    pub const CASIO_MOVIE_PRESS: u16 = 0x9043;
    pub const CASIO_MOVIE_RELEASE: u16 = 0x9044;
    pub const CASIO_GET_MOVIE_HANDLES: u16 = 0x9045;
    pub const CASIO_MOVIE_RESET: u16 = 0x9046;
    pub const NIKON_GET_LARGE_THUMB: u16 = 0x90C4;
    pub const NIKON_GET_PICT_CTRL_DATA: u16 = 0x90CC;
    pub const NIKON_SET_PICT_CTRL_DATA: u16 = 0x90CD;
    pub const NIKON_DEL_CST_PIC_CTRL: u16 = 0x90CE;
    pub const NIKON_GET_PIC_CTRL_CAPABILITY: u16 = 0x90CF;
    pub const NIKON_GET_DEVICE_PTPIP_INFO: u16 = 0x90E0;
    pub const CANON_EOS_GET_STORAGE_IDS: u16 = 0x9101;
    pub const MTP_WMDRMPD_GET_SECURE_TIME_CHALLENGE: u16 = 0x9101;
    pub const OLYMPUS_CAPTURE: u16 = 0x9101;
    pub const CANON_EOS_GET_STORAGE_INFO: u16 = 0x9102;
    pub const MTP_WMDRMPD_GET_SECURE_TIME_RESPONSE: u16 = 0x9102;
    pub const CANON_EOS_GET_OBJECT_INFO: u16 = 0x9103;
    pub const MTP_WMDRMPD_SET_LICENSE_RESPONSE: u16 = 0x9103;
    pub const OLYMPUS_SELF_CLEANING: u16 = 0x9103;
    pub const CANON_EOS_GET_OBJECT: u16 = 0x9104;
    pub const MTP_WMDRMPD_GET_SYNC_LIST: u16 = 0x9104;
    pub const CANON_EOS_DELETE_OBJECT: u16 = 0x9105;
    pub const MTP_WMDRMPD_SEND_METER_CHALLENGE_QUERY: u16 = 0x9105;
    pub const CANON_EOS_FORMAT_STORE: u16 = 0x9106;
    pub const MTP_WMDRMPD_GET_METER_CHALLENGE: u16 = 0x9106;
    pub const OLYMPUS_SET_RGB_GAIN: u16 = 0x9106;
    pub const CANON_EOS_GET_PARTIAL_OBJECT: u16 = 0x9107;
    pub const MTP_WMDRMPD_SET_METER_RESPONSE: u16 = 0x9107;
    pub const OLYMPUS_SET_PRESET_MODE: u16 = 0x9107;
    pub const CANON_EOS_GET_DEVICE_INFO_EX: u16 = 0x9108;
    pub const MTP_WMDRMPD_CLEAN_DATA_STORE: u16 = 0x9108;
    pub const OLYMPUS_SET_WB_BIAS_ALL: u16 = 0x9108;
    pub const CANON_EOS_GET_OBJECT_INFO_EX: u16 = 0x9109;
    pub const MTP_WMDRMPD_GET_LICENSE_STATE: u16 = 0x9109;
    pub const CANON_EOS_GET_THUMB_EX: u16 = 0x910A;
    pub const MTP_WMDRMPD_SEND_WMDRMPD_COMMAND: u16 = 0x910A;
    pub const CANON_EOS_SEND_PARTIAL_OBJECT: u16 = 0x910B;
    pub const MTP_WMDRMPD_SEND_WMDRMPD_REQUEST: u16 = 0x910B;
    pub const CANON_EOS_SET_OBJECT_ATTRIBUTES: u16 = 0x910C;
    pub const CANON_EOS_GET_OBJECT_TIME: u16 = 0x910D;
    pub const CANON_EOS_SET_OBJECT_TIME: u16 = 0x910E;
    pub const CANON_EOS_REMOTE_RELEASE: u16 = 0x910F;
    pub const OLYMPUS_GET_CAMERA_CONTROL_MODE: u16 = 0x910A;
    pub const OLYMPUS_SET_CAMERA_CONTROL_MODE: u16 = 0x910B;
    pub const OLYMPUS_SET_WBRGB_GAIN: u16 = 0x910C;
    pub const CANON_EOS_SET_DEVICE_PROP_VALUE_EX: u16 = 0x9110;
    pub const CANON_EOS_GET_REMOTE_MODE: u16 = 0x9113;
    pub const CANON_EOS_SET_REMOTE_MODE: u16 = 0x9114;
    pub const CANON_EOS_SET_EVENT_MODE: u16 = 0x9115;
    pub const CANON_EOS_GET_EVENT: u16 = 0x9116;
    pub const CANON_EOS_TRANSFER_COMPLETE: u16 = 0x9117;
    pub const CANON_EOS_CANCEL_TRANSFER: u16 = 0x9118;
    pub const CANON_EOS_RESET_TRANSFER: u16 = 0x9119;
    pub const CANON_EOS_PCHDD_CAPACITY: u16 = 0x911A;
    pub const CANON_EOS_SET_UI_LOCK: u16 = 0x911B;
    pub const CANON_EOS_RESET_UI_LOCK: u16 = 0x911C;
    pub const CANON_EOS_KEEP_DEVICE_ON: u16 = 0x911D;
    pub const CANON_EOS_SET_NULL_PACKET_MODE: u16 = 0x911E;
    pub const CANON_EOS_UPDATE_FIRMWARE: u16 = 0x911F;
    pub const CANON_EOS_TRANSFER_COMPLETE_DT: u16 = 0x9120;
    pub const CANON_EOS_CANCEL_TRANSFER_DT: u16 = 0x9121;
    pub const CANON_EOS_GET_WFT_PROFILE: u16 = 0x9122;
    pub const CANON_EOS_SET_WFT_PROFILE: u16 = 0x9122;
    pub const MTP_WPDWCN_PROCESS_WFC_OBJECT: u16 = 0x9122;
    pub const CANON_EOS_SET_PROFILE_TO_WFT: u16 = 0x9124;
    pub const CANON_EOS_BULB_START: u16 = 0x9125;
    pub const CANON_EOS_BULB_END: u16 = 0x9126;
    pub const CANON_EOS_REQUEST_DEVICE_PROP_VALUE: u16 = 0x9127;
    pub const CANON_EOS_REMOTE_RELEASE_ON: u16 = 0x9128;
    pub const CANON_EOS_REMOTE_RELEASE_OFF: u16 = 0x9129;
    pub const CANON_EOS_INITIATE_VIEWFINDER: u16 = 0x9151;
    pub const CANON_EOS_TERMINATE_VIEWFINDER: u16 = 0x9152;
    pub const CANON_EOS_GET_VIEW_FINDER_DATA: u16 = 0x9153;
    pub const CANON_EOS_DO_AF: u16 = 0x9154;
    pub const CANON_EOS_DRIVE_LENS: u16 = 0x9155;
    pub const CANON_EOS_DEPTH_OF_FIELD_PREVIEW: u16 = 0x9156;
    pub const CANON_EOS_CLICK_WB: u16 = 0x9157;
    pub const CANON_EOS_ZOOM: u16 = 0x9158;
    pub const CANON_EOS_ZOOM_POSITION: u16 = 0x9159;
    pub const CANON_EOS_SET_LIVE_AF_FRAME: u16 = 0x915A;
    pub const CANON_EOS_AF_CANCEL: u16 = 0x9160;
    pub const MTP_AAVT_OPEN_MEDIA_SESSION: u16 = 0x9170;
    pub const MTP_AAVT_CLOSE_MEDIA_SESSION: u16 = 0x9171;
    pub const MTP_AAVT_GET_NEXT_DATA_BLOCK: u16 = 0x9172;
    pub const MTP_AAVT_SET_CURRENT_TIME_POSITION: u16 = 0x9173;
    pub const MTP_WMDRMND_SEND_REGISTRATION_REQUEST: u16 = 0x9180;
    pub const MTP_WMDRMND_GET_REGISTRATION_RESPONSE: u16 = 0x9181;
    pub const MTP_WMDRMND_GET_PROXIMITY_CHALLENGE: u16 = 0x9182;
    pub const MTP_WMDRMND_SEND_PROXIMITY_RESPONSE: u16 = 0x9183;
    pub const MTP_WMDRMND_SEND_WMDRMND_LICENSE_REQUEST: u16 = 0x9184;
    pub const MTP_WMDRMND_GET_WMDRMND_LICENSE_RESPONSE: u16 = 0x9185;
    pub const CANON_EOS_FAPI_MESSAGE_TX: u16 = 0x91FE;
    pub const CANON_EOS_FAPI_MESSAGE_RX: u16 = 0x91FF;
    pub const NIKON_GET_PREVIEW_IMG: u16 = 0x9200;
    pub const MTP_WMPPD_REPORT_ADDED_DELETED_ITEMS: u16 = 0x9201;
    pub const NIKON_START_LIVE_VIEW: u16 = 0x9201;
    pub const MTP_WMPPD_REPORT_ACQUIRED_ITEMS: u16 = 0x9202;
    pub const NIKON_END_LIVE_VIEW: u16 = 0x9202;
    pub const MTP_WMPPD_PLAYLIST_OBJECT_PREF: u16 = 0x9203;
    pub const NIKON_GET_LIVE_VIEW_IMG: u16 = 0x9203;
    pub const MTP_ZUNE_GETUNDEFINED001: u16 = 0x9204;
    pub const NIKON_MF_DRIVE: u16 = 0x9204;
    pub const NIKON_CHANGE_AF_AREA: u16 = 0x9205;
    pub const NIKON_AF_DRIVE_CANCEL: u16 = 0x9206;
    pub const MTP_WMDRMPD_SEND_WMDRMPD_APP_REQUEST: u16 = 0x9212;
    pub const MTP_WMDRMPD_GET_WMDRMPD_APP_RESPONSE: u16 = 0x9213;
    pub const MTP_WMDRMPD_ENABLE_TRUSTED_FILES_OPERATIONS: u16 = 0x9214;
    pub const MTP_WMDRMPD_DISABLE_TRUSTED_FILES_OPERATIONS: u16 = 0x9215;
    pub const MTP_WMDRMPD_END_TRUSTED_APP_SESSION: u16 = 0x9216;
    pub const OLYMPUS_GET_DEVICE_INFO: u16 = 0x9301;
    pub const OLYMPUS_INIT1: u16 = 0x9302;
    pub const OLYMPUS_SET_DATE_TIME: u16 = 0x9402;
    pub const OLYMPUS_GET_DATE_TIME: u16 = 0x9482;
    pub const OLYMPUS_SET_CAMERA_ID: u16 = 0x9501;
    pub const OLYMPUS_GET_CAMERA_ID: u16 = 0x9581;
    pub const MTP_GET_OBJECT_PROPS_SUPPORTED: u16 = 0x9801;
    pub const MTP_GET_OBJECT_PROP_DESC: u16 = 0x9802;
    pub const MTP_GET_OBJECT_PROP_VALUE: u16 = 0x9803;
    pub const MTP_SET_OBJECT_PROP_VALUE: u16 = 0x9804;
    pub const MTP_GET_OBJ_PROP_LIST: u16 = 0x9805;
    pub const MTP_SET_OBJ_PROP_LIST: u16 = 0x9806;
    pub const MTP_GET_INTERDEPENDEND_PROPDESC: u16 = 0x9807;
    pub const MTP_SEND_OBJECT_PROP_LIST: u16 = 0x9808;
    pub const MTP_GET_OBJECT_REFERENCES: u16 = 0x9810;
    pub const MTP_SET_OBJECT_REFERENCES: u16 = 0x9811;
    pub const MTP_UPDATE_DEVICE_FIRMWARE: u16 = 0x9812;
    pub const MTP_SKIP: u16 = 0x9820;
    pub const CHDK: u16 = 0x9999;
    pub const EXTENSION_MASK: u16 = 0xF000;
    pub const ANDROID_GET_PARTIAL_OBJECT64: u16 = 0x95C1;
    pub const ANDROID_SEND_PARTIAL_OBJECT: u16 = 0x95C2;
    pub const ANDROID_TRUNCATE_OBJECT: u16 = 0x95C3;
    pub const ANDROID_BEGIN_EDIT_OBJECT: u16 = 0x95C4;
    pub const ANDROID_END_EDIT_OBJECT: u16 = 0x95C5;

    /// The spec name of this value, or `None` where the table has none.
    pub fn name(self) -> (r: Option<&'static str>)
        ensures
            name_view(r) == op_code_name(self.0),
    {
        match self.0 {
            0x1000 => Some("Undefined"),
            0x1001 => Some("GetDeviceInfo"),
            0x1002 => Some("OpenSession"),
            0x1003 => Some("CloseSession"),
            0x1004 => Some("GetStorageIDs"),
            0x1005 => Some("GetStorageInfo"),
            0x1006 => Some("GetNumObjects"),
            0x1007 => Some("GetObjectHandles"),
            0x1008 => Some("GetObjectInfo"),
            0x1009 => Some("GetObject"),
            0x100A => Some("GetThumb"),
            0x100B => Some("DeleteObject"),
            0x100C => Some("SendObjectInfo"),
            0x100D => Some("SendObject"),
            0x100E => Some("InitiateCapture"),
            0x100F => Some("FormatStore"),
            0x1010 => Some("ResetDevice"),
            0x1011 => Some("SelfTest"),
            0x1012 => Some("SetObjectProtection"),
            0x1013 => Some("PowerDown"),
            0x1014 => Some("GetDevicePropDesc"),
            0x1015 => Some("GetDevicePropValue"),
            0x1016 => Some("SetDevicePropValue"),
            0x1017 => Some("ResetDevicePropValue"),
            0x1018 => Some("TerminateOpenCapture"),
            0x1019 => Some("MoveObject"),
            0x101A => Some("CopyObject"),
            0x101B => Some("GetPartialObject"),
            0x101C => Some("InitiateOpenCapture"),
            0x101D => Some("StartEnumHandles"),
            0x101E => Some("EnumHandles"),
            0x101F => Some("StopEnumHandles"),
            0x1020 => Some("GetVendorExtensionMaps"),
            0x1021 => Some("GetVendorDeviceInfo"),
            0x1022 => Some("GetResizedImageObject"),
            0x1023 => Some("GetFilesystemManifest"),
            0x1024 => Some("GetStreamInfo"),
            0x1025 => Some("GetStream"),
            0x9000 => Some("EXTENSION"),
            0x9007 => Some("CASIO_FOCUS"),
            0x902E => Some("CASIO_CZ_PRESS"),
            0x902F => Some("CASIO_CZ_RELEASE"),
            0x9041 => Some("CASIO_MOVIE_START"),
            0x9042 => Some("CASIO_MOVIE_STOP"),
            0x9043 => Some("CASIO_MOVIE_PRESS"),
            0x9044 => Some("CASIO_MOVIE_RELEASE"),
            0x9045 => Some("CASIO_GET_MOVIE_HANDLES"),
            0x9046 => Some("CASIO_MOVIE_RESET"),
            0x9170 => Some("MTP_AAVT_OpenMediaSession"),
            0x9171 => Some("MTP_AAVT_CloseMediaSession"),
            0x9172 => Some("MTP_AAVT_GetNextDataBlock"),
            0x9173 => Some("MTP_AAVT_SetCurrentTimePosition"),
            0x9180 => Some("MTP_WMDRMND_SendRegistrationRequest"),
            0x9181 => Some("MTP_WMDRMND_GetRegistrationResponse"),
            0x9182 => Some("MTP_WMDRMND_GetProximityChallenge"),
            0x9183 => Some("MTP_WMDRMND_SendProximityResponse"),
            0x9184 => Some("MTP_WMDRMND_SendWMDRMNDLicenseRequest"),
            0x9185 => Some("MTP_WMDRMND_GetWMDRMNDLicenseResponse"),
            0x9201 => Some("MTP_WMPPD_ReportAddedDeletedItems"),
            0x9202 => Some("MTP_WMPPD_ReportAcquiredItems"),
            0x9203 => Some("MTP_WMPPD_PlaylistObjectPref"),
            0x9204 => Some("MTP_ZUNE_GETUNDEFINED001"),
            0x9212 => Some("MTP_WMDRMPD_SendWMDRMPDAppRequest"),
            0x9213 => Some("MTP_WMDRMPD_GetWMDRMPDAppResponse"),
            0x9214 => Some("MTP_WMDRMPD_EnableTrustedFilesOperations"),
            0x9215 => Some("MTP_WMDRMPD_DisableTrustedFilesOperations"),
            0x9216 => Some("MTP_WMDRMPD_EndTrustedAppSession"),
            0x9301 => Some("OLYMPUS_GetDeviceInfo"),
            0x9302 => Some("OLYMPUS_Init1"),
            0x9402 => Some("OLYMPUS_SetDateTime"),
            0x9482 => Some("OLYMPUS_GetDateTime"),
            0x9501 => Some("OLYMPUS_SetCameraID"),
            0x9581 => Some("OLYMPUS_GetCameraID"),
            0x9801 => Some("MTP_GetObjectPropsSupported"),
            0x9802 => Some("MTP_GetObjectPropDesc"),
            0x9803 => Some("MTP_GetObjectPropValue"),
            0x9804 => Some("MTP_SetObjectPropValue"),
            0x9805 => Some("MTP_GetObjPropList"),
            0x9806 => Some("MTP_SetObjPropList"),
            0x9807 => Some("MTP_GetInterdependendPropdesc"),
            0x9808 => Some("MTP_SendObjectPropList"),
            0x9810 => Some("MTP_GetObjectReferences"),
            0x9811 => Some("MTP_SetObjectReferences"),
            0x9812 => Some("MTP_UpdateDeviceFirmware"),
            0x9820 => Some("MTP_Skip"),
            0x9999 => Some("CHDK"),
            0xF000 => Some("EXTENSION_MASK"),
            0x95C1 => Some("ANDROID_GET_PARTIAL_OBJECT64"),
            0x95C2 => Some("ANDROID_SEND_PARTIAL_OBJECT"),
            0x95C3 => Some("ANDROID_TRUNCATE_OBJECT"),
            0x95C4 => Some("ANDROID_BEGIN_EDIT_OBJECT"),
            0x95C5 => Some("ANDROID_END_EDIT_OBJECT"),
            _ => None,
        }
    }

    /// The spec name, else the value as `0x` and 4 uppercase hex digits.
    pub fn to_string(&self) -> (s: String)
        ensures
            s@ == display16(op_code_name(self.0), self.0),
    {
        match self.name() {
            Some(n) => n.to_owned(),
            None => {
                let mut s = String::new();
                s.append("0x");
                push_hex_upper_pad(&mut s, self.0 as u64, 4);
                s
            },
        }
    }
}

} // verus!
