use vstd::prelude::*;
use vstd::string::StringExecFns;
use crate::decimal::push_hex_upper_pad;
use super::{name_view, display16};

verus! {

/// device property code (`DPC_*`).
#[derive(Clone, Copy, PartialEq, Eq, Hash, PartialOrd, Ord, Debug)]
pub struct DevicePropCode(pub u16);

/// The spec name of each `DevicePropCode` value that has one.
pub open spec fn device_prop_code_name(c: u16) -> Option<Seq<char>> {
    match c {
        0x5000u16 => Some("Undefined"@),
        0x5001u16 => Some("BatteryLevel"@),
        0x5002u16 => Some("FunctionalMode"@),
        0x5003u16 => Some("ImageSize"@),
        0x5004u16 => Some("CompressionSetting"@),
        0x5005u16 => Some("WhiteBalance"@),
        0x5006u16 => Some("RGBGain"@),
        0x5007u16 => Some("FNumber"@),
        0x5008u16 => Some("FocalLength"@),
        0x5009u16 => Some("FocusDistance"@),
        0x500Au16 => Some("FocusMode"@),
        0x500Bu16 => Some("ExposureMeteringMode"@),
        0x500Cu16 => Some("FlashMode"@),
        0x500Du16 => Some("ExposureTime"@),
        0x500Eu16 => Some("ExposureProgramMode"@),
        0x500Fu16 => Some("ExposureIndex"@),
        0x5010u16 => Some("ExposureBiasCompensation"@),
        0x5011u16 => Some("DateTime"@),
        0x5012u16 => Some("CaptureDelay"@),
        0x5013u16 => Some("StillCaptureMode"@),
        0x5014u16 => Some("Contrast"@),
        0x5015u16 => Some("Sharpness"@),
        0x5016u16 => Some("DigitalZoom"@),
        0x5017u16 => Some("EffectMode"@),
        0x5018u16 => Some("BurstNumber"@),
        0x5019u16 => Some("BurstInterval"@),
        0x501Au16 => Some("TimelapseNumber"@),
        0x501Bu16 => Some("TimelapseInterval"@),
        0x501Cu16 => Some("FocusMeteringMode"@),
        0x501Du16 => Some("UploadURL"@),
        0x501Eu16 => Some("Artist"@),
        0x501Fu16 => Some("CopyrightInfo"@),
        0x5020u16 => Some("SupportedStreams"@),
        0x5021u16 => Some("EnabledStreams"@),
        0x5022u16 => Some("VideoFormat"@),
        0x5023u16 => Some("VideoResolution"@),
        0x5024u16 => Some("VideoQuality"@),
        0x5025u16 => Some("VideoFrameRate"@),
        0x5026u16 => Some("VideoContrast"@),
        0x5027u16 => Some("VideoBrightness"@),
        0x5028u16 => Some("AudioFormat"@),
        0x5029u16 => Some("AudioBitrate"@),
        0x502Au16 => Some("AudioSamplingRate"@),
        0x502Bu16 => Some("AudioBitPerSample"@),
        0x502Cu16 => Some("AudioVolume"@),
        0xD000u16 => Some("EXTENSION"@),
        0xD080u16 => Some("CASIO_UNKNOWN_18"@),
        0xD118u16 => Some("OLYMPUS_FLBracketingFrame"@),
        0xD127u16 => Some("OLYMPUS_NoiseReductionRandom"@),
        0xD129u16 => Some("OLYMPUS_ShadingMode"@),
        0xD12Au16 => Some("OLYMPUS_ISOBoostMode"@),
        0xD12Bu16 => Some("OLYMPUS_ExposureIndexBiasStep"@),
        0xD12Cu16 => Some("OLYMPUS_FilterEffect"@),
        0xD12Du16 => Some("OLYMPUS_ColorTune"@),
        0xD12Eu16 => Some("OLYMPUS_Language"@),
        0xD12Fu16 => Some("OLYMPUS_LanguageCode"@),
        0xD135u16 => Some("OLYMPUS_AELAFLMode"@),
        0xD136u16 => Some("OLYMPUS_AELButtonStatus"@),
        0xD137u16 => Some("OLYMPUS_CompressionSettingEx"@),
        0xD139u16 => Some("OLYMPUS_ToneMode"@),
        0xD13Au16 => Some("OLYMPUS_GradationMode"@),
        0xD13Bu16 => Some("OLYMPUS_DevelopMode"@),
        0xD13Cu16 => Some("OLYMPUS_ExtendInnerFlashMode"@),
        0xD13Du16 => Some("OLYMPUS_OutputDeviceMode"@),
        0xD13Eu16 => Some("OLYMPUS_LiveViewMode"@),
        0xD147u16 => Some("OLYMPUS_FlashRCPhotoChromicMode"@),
        0xD14Au16 => Some("OLYMPUS_FlashRCQuantityLightLevel"@),
        0xD14Bu16 => Some("OLYMPUS_FocusMeteringValue"@),
        0xD14Cu16 => Some("OLYMPUS_ISOBracketingFrame"@),
        0xD14Du16 => Some("OLYMPUS_ISOBracketingStep"@),
        0xD157u16 => Some("OLYMPUS_AFTargetSize"@),
        0xD158u16 => Some("OLYMPUS_LightSensorMode"@),
        0xD159u16 => Some("OLYMPUS_AEBracket"@),
        0xD15Au16 => Some("OLYMPUS_WBRBBracket"@),
        0xD15Bu16 => Some("OLYMPUS_WBGMBracket"@),
        0xD15Cu16 => Some("OLYMPUS_FlashBracket"@),
        0xD15Du16 => Some("OLYMPUS_ISOBracket"@),
        0xD15Eu16 => Some("OLYMPUS_MyModeStatus"@),
        0xD215u16 => Some("MTP_ZUNE_UNKNOWN3"@),
        0xD216u16 => Some("MTP_ZUNE_UNKNOWN4"@),
        0xD401u16 => Some("MTP_SynchronizationPartner"@),
        0xD402u16 => Some("MTP_DeviceFriendlyName"@),
        0xD403u16 => Some("MTP_VolumeLevel"@),
        0xD405u16 => Some("MTP_DeviceIcon"@),
        0xD406u16 => Some("MTP_SessionInitiatorInfo"@),
        0xD407u16 => Some("MTP_PerceivedDeviceType"@),
        0xD410u16 => Some("MTP_PlaybackRate"@),
        0xD411u16 => Some("MTP_PlaybackObject"@),
        0xD412u16 => Some("MTP_PlaybackContainerIndex"@),
        0xD413u16 => Some("MTP_PlaybackPosition"@),
        0xF000u16 => Some("EXTENSION_MASK"@),
        _ => None,
    }
}

impl DevicePropCode {
    pub const UNDEFINED: u16 = 0x5000;
    pub const BATTERY_LEVEL: u16 = 0x5001;
    pub const FUNCTIONAL_MODE: u16 = 0x5002;
    pub const IMAGE_SIZE: u16 = 0x5003;
    pub const COMPRESSION_SETTING: u16 = 0x5004;
    pub const WHITE_BALANCE: u16 = 0x5005;
    pub const RGB_GAIN: u16 = 0x5006;
    pub const F_NUMBER: u16 = 0x5007;
    pub const FOCAL_LENGTH: u16 = 0x5008;
    pub const FOCUS_DISTANCE: u16 = 0x5009;
    pub const FOCUS_MODE: u16 = 0x500A;
    pub const EXPOSURE_METERING_MODE: u16 = 0x500B;
    pub const FLASH_MODE: u16 = 0x500C;
    pub const EXPOSURE_TIME: u16 = 0x500D;
    pub const EXPOSURE_PROGRAM_MODE: u16 = 0x500E;
    pub const EXPOSURE_INDEX: u16 = 0x500F;
    pub const EXPOSURE_BIAS_COMPENSATION: u16 = 0x5010;
    pub const DATE_TIME: u16 = 0x5011;
    pub const CAPTURE_DELAY: u16 = 0x5012;
    pub const STILL_CAPTURE_MODE: u16 = 0x5013;
    pub const CONTRAST: u16 = 0x5014;
    pub const SHARPNESS: u16 = 0x5015;
    pub const DIGITAL_ZOOM: u16 = 0x5016;
    pub const EFFECT_MODE: u16 = 0x5017;
    pub const BURST_NUMBER: u16 = 0x5018;
    pub const BURST_INTERVAL: u16 = 0x5019;
    pub const TIMELAPSE_NUMBER: u16 = 0x501A;
    pub const TIMELAPSE_INTERVAL: u16 = 0x501B;
    pub const FOCUS_METERING_MODE: u16 = 0x501C;
    pub const UPLOAD_URL: u16 = 0x501D;
    pub const ARTIST: u16 = 0x501E;
    pub const COPYRIGHT_INFO: u16 = 0x501F;
    pub const SUPPORTED_STREAMS: u16 = 0x5020;
    pub const ENABLED_STREAMS: u16 = 0x5021;
    pub const VIDEO_FORMAT: u16 = 0x5022;
    pub const VIDEO_RESOLUTION: u16 = 0x5023;
    pub const VIDEO_QUALITY: u16 = 0x5024;
    pub const VIDEO_FRAME_RATE: u16 = 0x5025;
    pub const VIDEO_CONTRAST: u16 = 0x5026;
    pub const VIDEO_BRIGHTNESS: u16 = 0x5027;
    pub const AUDIO_FORMAT: u16 = 0x5028;
    pub const AUDIO_BITRATE: u16 = 0x5029;
    pub const AUDIO_SAMPLING_RATE: u16 = 0x502A;
    pub const AUDIO_BIT_PER_SAMPLE: u16 = 0x502B;
    pub const AUDIO_VOLUME: u16 = 0x502C;
    pub const EXTENSION: u16 = 0xD000;
    pub const CANON_BEEP_MODE: u16 = 0xD001;
    pub const EK_COLOR_TEMPERATURE: u16 = 0xD001;
    pub const CANON_BATTERY_KIND: u16 = 0xD002;
    pub const EK_DATE_TIME_STAMP_FORMAT: u16 = 0xD002;
    pub const CANON_BATTERY_STATUS: u16 = 0xD003;
    pub const EK_BEEP_MODE: u16 = 0xD003;
    pub const CANON_UI_LOCK_TYPE: u16 = 0xD004;
    pub const CASIO_UNKNOWN_1: u16 = 0xD004;
    pub const EK_VIDEO_OUT: u16 = 0xD004;
    pub const CANON_CAMERA_MODE: u16 = 0xD005;
    pub const CASIO_UNKNOWN_2: u16 = 0xD005;
    pub const EK_POWER_SAVING: u16 = 0xD005;
    pub const CANON_IMAGE_QUALITY: u16 = 0xD006;
    pub const EK_UI_LANGUAGE: u16 = 0xD006;
    pub const CANON_FULL_VIEW_FILE_FORMAT: u16 = 0xD007;
    pub const CASIO_UNKNOWN_3: u16 = 0xD007;
    pub const CANON_IMAGE_SIZE: u16 = 0xD008;
    pub const CASIO_RECORD_LIGHT: u16 = 0xD008;
    pub const CANON_SELF_TIME: u16 = 0xD009;
    pub const CASIO_UNKNOWN_4: u16 = 0xD009;
    pub const CANON_FLASH_MODE: u16 = 0xD00A;
    pub const CASIO_UNKNOWN_5: u16 = 0xD00A;
    pub const CANON_BEEP: u16 = 0xD00B;
    pub const CASIO_MOVIE_MODE: u16 = 0xD00B;
    pub const CANON_SHOOTING_MODE: u16 = 0xD00C;
    pub const CASIO_HD_SETTING: u16 = 0xD00C;
    pub const CANON_IMAGE_MODE: u16 = 0xD00D;
    pub const CASIO_HS_SETTING: u16 = 0xD00D;
    pub const CANON_DRIVE_MODE: u16 = 0xD00E;
    pub const CANON_E_ZOOM: u16 = 0xD00F;
    pub const CASIO_CS_HIGH_SPEED: u16 = 0xD00F;
    pub const CANON_METERING_MODE: u16 = 0xD010;
    pub const CASIO_CS_UPPER_LIMIT: u16 = 0xD010;
    pub const NIKON_SHOOTING_BANK: u16 = 0xD010;
    pub const CANON_AF_DISTANCE: u16 = 0xD011;
    pub const CASIO_CS_SHOT: u16 = 0xD011;
    pub const NIKON_SHOOTING_BANK_NAME_A: u16 = 0xD011;
    pub const CANON_FOCUSING_POINT: u16 = 0xD012;
    pub const CASIO_UNKNOWN_6: u16 = 0xD012;
    pub const NIKON_SHOOTING_BANK_NAME_B: u16 = 0xD012;
    pub const CANON_WHITE_BALANCE: u16 = 0xD013;
    pub const CASIO_UNKNOWN_7: u16 = 0xD013;
    pub const NIKON_SHOOTING_BANK_NAME_C: u16 = 0xD013;
    pub const CANON_SLOW_SHUTTER_SETTING: u16 = 0xD014;
    pub const NIKON_SHOOTING_BANK_NAME_D: u16 = 0xD014;
    pub const CANON_AF_MODE: u16 = 0xD015;
    pub const CASIO_UNKNOWN_8: u16 = 0xD015;
    pub const NIKON_RESET_BANK0: u16 = 0xD015;
    pub const CANON_IMAGE_STABILIZATION: u16 = 0xD016;
    pub const NIKON_RAW_COMPRESSION: u16 = 0xD016;
    pub const CANON_CONTRAST: u16 = 0xD017;
    pub const CASIO_UNKNOWN_9: u16 = 0xD017;
    pub const FUJI_COLOR_TEMPERATURE: u16 = 0xD017;
    pub const NIKON_WHITE_BALANCE_AUTO_BIAS: u16 = 0xD017;
    pub const CANON_COLOR_GAIN: u16 = 0xD018;
    pub const CASIO_UNKNOWN_10: u16 = 0xD018;
    pub const FUJI_QUALITY: u16 = 0xD018;
    pub const NIKON_WHITE_BALANCE_TUNGSTEN_BIAS: u16 = 0xD018;
    pub const CANON_SHARPNESS: u16 = 0xD019;
    pub const CASIO_UNKNOWN_11: u16 = 0xD019;
    pub const NIKON_WHITE_BALANCE_FLUORESCENT_BIAS: u16 = 0xD019;
    pub const CANON_SENSITIVITY: u16 = 0xD01A;
    pub const CASIO_UNKNOWN_12: u16 = 0xD01A;
    pub const NIKON_WHITE_BALANCE_DAYLIGHT_BIAS: u16 = 0xD01A;
    pub const CANON_PARAMETER_SET: u16 = 0xD01B;
    pub const CASIO_UNKNOWN_13: u16 = 0xD01B;
    pub const NIKON_WHITE_BALANCE_FLASH_BIAS: u16 = 0xD01B;
    pub const CANON_ISO_SPEED: u16 = 0xD01C;
    pub const CASIO_UNKNOWN_14: u16 = 0xD01C;
    pub const NIKON_WHITE_BALANCE_CLOUDY_BIAS: u16 = 0xD01C;
    pub const CANON_APERTURE: u16 = 0xD01D;
    pub const CASIO_UNKNOWN_15: u16 = 0xD01D;
    pub const NIKON_WHITE_BALANCE_SHADE_BIAS: u16 = 0xD01D;
    pub const CANON_SHUTTER_SPEED: u16 = 0xD01E;
    pub const NIKON_WHITE_BALANCE_COLOR_TEMPERATURE: u16 = 0xD01E;
    pub const CANON_EXP_COMPENSATION: u16 = 0xD01F;
    pub const NIKON_WHITE_BALANCE_PRESET_NO: u16 = 0xD01F;
    pub const CANON_FLASH_COMPENSATION: u16 = 0xD020;
    pub const CASIO_UNKNOWN_16: u16 = 0xD020;
    pub const NIKON_WHITE_BALANCE_PRESET_NAME0: u16 = 0xD020;
    pub const CANON_AEB_EXPOSURE_COMPENSATION: u16 = 0xD021;
    pub const NIKON_WHITE_BALANCE_PRESET_NAME1: u16 = 0xD021;
    pub const NIKON_WHITE_BALANCE_PRESET_NAME2: u16 = 0xD022;
    pub const CANON_AV_OPEN: u16 = 0xD023;
    pub const NIKON_WHITE_BALANCE_PRESET_NAME3: u16 = 0xD023;
    pub const CANON_AV_MAX: u16 = 0xD024;
    pub const NIKON_WHITE_BALANCE_PRESET_NAME4: u16 = 0xD024;
    pub const CANON_FOCAL_LENGTH: u16 = 0xD025;
    pub const NIKON_WHITE_BALANCE_PRESET_VAL0: u16 = 0xD025;
    pub const CANON_FOCAL_LENGTH_TELE: u16 = 0xD026;
    pub const NIKON_WHITE_BALANCE_PRESET_VAL1: u16 = 0xD026;
    pub const CANON_FOCAL_LENGTH_WIDE: u16 = 0xD027;
    pub const NIKON_WHITE_BALANCE_PRESET_VAL2: u16 = 0xD027;
    pub const CANON_FOCAL_LENGTH_DENOMINATOR: u16 = 0xD028;
    pub const NIKON_WHITE_BALANCE_PRESET_VAL3: u16 = 0xD028;
    pub const CANON_CAPTURE_TRANSFER_MODE: u16 = 0xD029;
    pub const NIKON_WHITE_BALANCE_PRESET_VAL4: u16 = 0xD029;
    pub const CANON_ZOOM: u16 = 0xD02A;
    pub const NIKON_IMAGE_SHARPENING: u16 = 0xD02A;
    pub const CANON_NAME_PREFIX: u16 = 0xD02B;
    pub const NIKON_TONE_COMPENSATION: u16 = 0xD02B;
    pub const CANON_SIZE_QUALITY_MODE: u16 = 0xD02C;
    pub const NIKON_COLOR_MODEL: u16 = 0xD02C;
    pub const CANON_SUPPORTED_THUMB_SIZE: u16 = 0xD02D;
    pub const NIKON_HUE_ADJUSTMENT: u16 = 0xD02D;
    pub const CANON_SIZE_OF_OUTPUT_DATA_FROM_CAMERA: u16 = 0xD02E;
    pub const CANON_SIZE_OF_INPUT_DATA_TO_CAMERA: u16 = 0xD02F;
    pub const CANON_REMOTE_API_VERSION: u16 = 0xD030;
    pub const CASIO_UNKNOWN_17: u16 = 0xD030;
    pub const NIKON_SHOOTING_MODE: u16 = 0xD030;
    pub const CANON_FIRMWARE_VERSION: u16 = 0xD031;
    pub const NIKON_JPEG_COMPRESSION_POLICY: u16 = 0xD031;
    pub const CANON_CAMERA_MODEL: u16 = 0xD032;
    pub const NIKON_COLOR_SPACE: u16 = 0xD032;
    pub const CANON_CAMERA_OWNER: u16 = 0xD033;
    pub const NIKON_AUTO_DX_CROP: u16 = 0xD033;
    pub const CANON_UNIX_TIME: u16 = 0xD034;
    pub const CANON_CAMERA_BODY_ID: u16 = 0xD035;
    pub const CANON_CAMERA_OUTPUT: u16 = 0xD036;
    pub const NIKON_VIDEO_MODE: u16 = 0xD036;
    pub const CANON_DISP_AV: u16 = 0xD037;
    pub const NIKON_EFFECT_MODE: u16 = 0xD037;
    pub const CANON_AV_OPEN_APEX: u16 = 0xD038;
    pub const CANON_D_ZOOM_MAGNIFICATION: u16 = 0xD039;
    pub const CANON_ML_SPOT_POS: u16 = 0xD03A;
    pub const CANON_DISP_AV_MAX: u16 = 0xD03B;
    pub const CANON_AV_MAX_APEX: u16 = 0xD03C;
    pub const CANON_E_ZOOM_START_POSITION: u16 = 0xD03D;
    pub const CANON_FOCAL_LENGTH_OF_TELE: u16 = 0xD03E;
    pub const CANON_E_ZOOM_SIZE_OF_TELE: u16 = 0xD03F;
    pub const CANON_PHOTO_EFFECT: u16 = 0xD040;
    pub const NIKON_CSM_MENU_BANK_SELECT: u16 = 0xD040;
    pub const CANON_ASSIST_LIGHT: u16 = 0xD041;
    pub const NIKON_MENU_BANK_NAME_A: u16 = 0xD041;
    pub const CANON_FLASH_QUANTITY_COUNT: u16 = 0xD042;
    pub const NIKON_MENU_BANK_NAME_B: u16 = 0xD042;
    pub const CANON_ROTATION_ANGLE: u16 = 0xD043;
    pub const NIKON_MENU_BANK_NAME_C: u16 = 0xD043;
    pub const CANON_ROTATION_SCENE: u16 = 0xD044;
    pub const NIKON_MENU_BANK_NAME_D: u16 = 0xD044;
    pub const CANON_EVENT_EMULATE_MODE: u16 = 0xD045;
    pub const NIKON_RESET_BANK: u16 = 0xD045;
    pub const CANON_DPOF_VERSION: u16 = 0xD046;
    pub const CANON_TYPE_OF_SUPPORTED_SLIDE_SHOW: u16 = 0xD047;
    pub const CANON_AVERAGE_FILESIZES: u16 = 0xD048;
    pub const NIKON_A1AFC_MODE_PRIORITY: u16 = 0xD048;
    pub const CANON_MODEL_ID: u16 = 0xD049;
    pub const NIKON_A2AFS_MODE_PRIORITY: u16 = 0xD049;
    pub const NIKON_A3GROUP_DYNAMIC_AF: u16 = 0xD04A;
    pub const NIKON_A4AF_ACTIVATION: u16 = 0xD04B;
    pub const NIKON_FOCUS_AREA_ILLUM_MANUAL_FOCUS: u16 = 0xD04C;
    pub const NIKON_FOCUS_AREA_ILLUM_CONTINUOUS: u16 = 0xD04D;
    pub const NIKON_FOCUS_AREA_ILLUM_WHEN_SELECTED: u16 = 0xD04E;
    pub const NIKON_VERTICAL_AFON: u16 = 0xD050;
    pub const NIKON_AF_LOCK_ON: u16 = 0xD051;
    pub const NIKON_FOCUS_AREA_ZONE: u16 = 0xD052;
    pub const NIKON_ENABLE_COPYRIGHT: u16 = 0xD053;
    pub const NIKON_ISO_AUTO: u16 = 0xD054;
    pub const NIKON_EVISO_STEP: u16 = 0xD055;
    pub const NIKON_EV_STEP_EXPOSURE_COMP: u16 = 0xD057;
    pub const NIKON_EXPOSURE_COMPENSATION: u16 = 0xD058;
    pub const NIKON_CENTER_WEIGHT_AREA: u16 = 0xD059;
    pub const NIKON_EXPOSURE_BASE_MATRIX: u16 = 0xD05A;
    pub const NIKON_EXPOSURE_BASE_CENTER: u16 = 0xD05B;
    pub const NIKON_EXPOSURE_BASE_SPOT: u16 = 0xD05C;
    pub const NIKON_LIVE_VIEW_AF_AREA: u16 = 0xD05D;
    pub const NIKON_AE_LOCK_MODE: u16 = 0xD05E;
    pub const NIKON_AELAFL_MODE: u16 = 0xD05F;
    pub const NIKON_LIVE_VIEW_AF_FOCUS: u16 = 0xD061;
    pub const NIKON_METER_OFF: u16 = 0xD062;
    pub const NIKON_SELF_TIMER: u16 = 0xD063;
    pub const NIKON_MONITOR_OFF: u16 = 0xD064;
    pub const NIKON_IMG_CONF_TIME: u16 = 0xD065;
    pub const NIKON_AUTO_OFF_TIMERS: u16 = 0xD066;
    pub const NIKON_ANGLE_LEVEL: u16 = 0xD067;
    pub const NIKON_D2MAXIMUM_SHOTS: u16 = 0xD069;
    pub const NIKON_EXPOSURE_DELAY_MODE: u16 = 0xD06A;
    pub const NIKON_LONG_EXPOSURE_NOISE_REDUCTION: u16 = 0xD06B;
    pub const NIKON_FILE_NUMBER_SEQUENCE: u16 = 0xD06C;
    pub const NIKON_CONTROL_PANEL_FINDER_REAR_CONTROL: u16 = 0xD06D;
    pub const NIKON_CONTROL_PANEL_FINDER_VIEWFINDER: u16 = 0xD06E;
    pub const NIKON_D7ILLUMINATION: u16 = 0xD06F;
    pub const NIKON_NR_HIGH_ISO: u16 = 0xD070;
    pub const NIKON_SHSET_CH_GUID_DISP: u16 = 0xD071;
    pub const NIKON_ARTIST_NAME: u16 = 0xD072;
    pub const NIKON_COPYRIGHT_INFO: u16 = 0xD073;
    pub const NIKON_FLASH_SYNC_SPEED: u16 = 0xD074;
    pub const NIKON_E3AA_FLASH_MODE: u16 = 0xD076;
    pub const NIKON_E4MODELING_FLASH: u16 = 0xD077;
    pub const NIKON_BRACKET_ORDER: u16 = 0xD07A;
    pub const NIKON_BRACKETING_SET: u16 = 0xD07C;
    pub const CASIO_UNKNOWN_18: u16 = 0xD080;
    pub const NIKON_F1CENTER_BUTTON_SHOOTING_MODE: u16 = 0xD080;
    pub const NIKON_CENTER_BUTTON_PLAYBACK_MODE: u16 = 0xD081;
    pub const NIKON_F2MULTISELECTOR: u16 = 0xD082;
    pub const NIKON_CENTER_BUTTON_ZOOM_RATIO: u16 = 0xD08B;
    pub const NIKON_FUNCTION_BUTTON2: u16 = 0xD08C;
    pub const NIKON_AF_AREA_POINT: u16 = 0xD08D;
    pub const NIKON_NORMAL_AF_ON: u16 = 0xD08E;
    pub const NIKON_CLEAN_IMAGE_SENSOR: u16 = 0xD08F;
    pub const NIKON_IMAGE_COMMENT_STRING: u16 = 0xD090;
    pub const NIKON_IMAGE_COMMENT_ENABLE: u16 = 0xD091;
    pub const NIKON_IMAGE_ROTATION: u16 = 0xD092;
    pub const NIKON_MANUAL_SET_LENS_NO: u16 = 0xD093;
    pub const NIKON_MOV_SCREEN_SIZE: u16 = 0xD0A0;
    pub const NIKON_MOV_VOICE: u16 = 0xD0A1;
    pub const NIKON_MOV_MICROPHONE: u16 = 0xD0A2;
    pub const NIKON_BRACKETING: u16 = 0xD0C0;
    pub const NIKON_AUTO_EXPOSURE_BRACKET_STEP: u16 = 0xD0C1;
    pub const NIKON_AUTO_EXPOSURE_BRACKET_PROGRAM: u16 = 0xD0C2;
    pub const NIKON_AUTO_EXPOSURE_BRACKET_COUNT: u16 = 0xD0C3;
    pub const NIKON_WHITE_BALANCE_BRACKET_STEP: u16 = 0xD0C4;
    pub const NIKON_WHITE_BALANCE_BRACKET_PROGRAM: u16 = 0xD0C5;
    pub const NIKON_LENS_ID: u16 = 0xD0E0;
    pub const NIKON_LENS_SORT: u16 = 0xD0E1;
    pub const NIKON_LENS_TYPE: u16 = 0xD0E2;
    pub const NIKON_FOCAL_LENGTH_MIN: u16 = 0xD0E3;
    pub const NIKON_FOCAL_LENGTH_MAX: u16 = 0xD0E4;
    pub const NIKON_MAX_AP_AT_MIN_FOCAL_LENGTH: u16 = 0xD0E5;
    pub const NIKON_MAX_AP_AT_MAX_FOCAL_LENGTH: u16 = 0xD0E6;
    pub const NIKON_FINDER_ISO_DISP: u16 = 0xD0F0;
    pub const NIKON_AUTO_OFF_PHOTO: u16 = 0xD0F2;
    pub const NIKON_AUTO_OFF_MENU: u16 = 0xD0F3;
    pub const NIKON_AUTO_OFF_INFO: u16 = 0xD0F4;
    pub const NIKON_SELF_TIMER_SHOOT_NUM: u16 = 0xD0F5;
    pub const NIKON_VIGNETTE_CTRL: u16 = 0xD0F7;
    pub const NIKON_AUTO_DISTORTION_CONTROL: u16 = 0xD0F8;
    pub const NIKON_SCENE_MODE: u16 = 0xD0F9;
    pub const CANON_EOS_APERTURE: u16 = 0xD101;
    pub const MTP_SECURE_TIME: u16 = 0xD101;
    pub const NIKON_AC_POWER: u16 = 0xD101;
    pub const CANON_EOS_SHUTTER_SPEED: u16 = 0xD102;
    pub const MTP_DEVICE_CERTIFICATE: u16 = 0xD102;
    pub const NIKON_WARNING_STATUS: u16 = 0xD102;
    pub const OLYMPUS_RESOLUTION_MODE: u16 = 0xD102;
    pub const CANON_EOS_ISO_SPEED: u16 = 0xD103;
    pub const MTP_REVOCATION_INFO: u16 = 0xD103;
    pub const OLYMPUS_FOCUS_PRIORITY: u16 = 0xD103;
    pub const CANON_EOS_EXP_COMPENSATION: u16 = 0xD104;
    pub const NIKON_AF_LOCK_STATUS: u16 = 0xD104;
    pub const OLYMPUS_DRIVE_MODE: u16 = 0xD104;
    pub const CANON_EOS_AUTO_EXPOSURE_MODE: u16 = 0xD105;
    pub const NIKON_AE_LOCK_STATUS: u16 = 0xD105;
    pub const OLYMPUS_DATE_TIME_FORMAT: u16 = 0xD105;
    pub const CANON_EOS_DRIVE_MODE: u16 = 0xD106;
    pub const NIKON_FV_LOCK_STATUS: u16 = 0xD106;
    pub const OLYMPUS_EXPOSURE_BIAS_STEP: u16 = 0xD106;
    pub const NIKON_AUTOFOCUS_LCD_TOP_MODE2: u16 = 0xD107;
    pub const OLYMPUS_WB_MODE: u16 = 0xD107;
    pub const CANON_EOS_FOCUS_MODE: u16 = 0xD108;
    pub const NIKON_AUTOFOCUS_AREA: u16 = 0xD108;
    pub const OLYMPUS_ONE_TOUCH_WB: u16 = 0xD108;
    pub const CANON_EOS_WHITE_BALANCE: u16 = 0xD109;
    pub const NIKON_FLEXIBLE_PROGRAM: u16 = 0xD109;
    pub const OLYMPUS_MANUAL_WB: u16 = 0xD109;
    pub const CANON_EOS_COLOR_TEMPERATURE: u16 = 0xD10A;
    pub const OLYMPUS_MANUAL_WBRB_BIAS: u16 = 0xD10A;
    pub const CANON_EOS_WHITE_BALANCE_ADJUST_A: u16 = 0xD10B;
    pub const OLYMPUS_CUSTOM_WB: u16 = 0xD10B;
    pub const CANON_EOS_WHITE_BALANCE_ADJUST_B: u16 = 0xD10C;
    pub const NIKON_USB_SPEED: u16 = 0xD10C;
    pub const OLYMPUS_CUSTOM_WB_VALUE: u16 = 0xD10C;
    pub const CANON_EOS_WHITE_BALANCE_XA: u16 = 0xD10D;
    pub const NIKON_CCD_NUMBER: u16 = 0xD10D;
    pub const OLYMPUS_EXPOSURE_TIME_EX: u16 = 0xD10D;
    pub const CANON_EOS_WHITE_BALANCE_XB: u16 = 0xD10E;
    pub const NIKON_CAMERA_ORIENTATION: u16 = 0xD10E;
    pub const OLYMPUS_BULB_MODE: u16 = 0xD10E;
    pub const CANON_EOS_COLOR_SPACE: u16 = 0xD10F;
    pub const NIKON_GROUP_PTN_TYPE: u16 = 0xD10F;
    pub const OLYMPUS_ANTI_MIRROR_MODE: u16 = 0xD10F;
    pub const CANON_EOS_PICTURE_STYLE: u16 = 0xD110;
    pub const NIKON_F_NUMBER_LOCK: u16 = 0xD110;
    pub const OLYMPUS_AE_BRACKETING_FRAME: u16 = 0xD110;
    pub const CANON_EOS_BATTERY_POWER: u16 = 0xD111;
    pub const OLYMPUS_AE_BRACKETING_STEP: u16 = 0xD111;
    pub const CANON_EOS_BATTERY_SELECT: u16 = 0xD112;
    pub const NIKON_TV_LOCK_SETTING: u16 = 0xD112;
    pub const OLYMPUS_WB_BRACKETING_FRAME: u16 = 0xD112;
    pub const CANON_EOS_CAMERA_TIME: u16 = 0xD113;
    pub const NIKON_AV_LOCK_SETTING: u16 = 0xD113;
    pub const OLYMPUS_WB_BRACKETING_RB_RANGE: u16 = 0xD113;
    pub const NIKON_ILLUM_SETTING: u16 = 0xD114;
    pub const OLYMPUS_WB_BRACKETING_GM_FRAME: u16 = 0xD114;
    pub const CANON_EOS_OWNER: u16 = 0xD115;
    pub const NIKON_FOCUS_POINT_BRIGHT: u16 = 0xD115;
    pub const OLYMPUS_WB_BRACKETING_GM_RANGE: u16 = 0xD115;
    pub const CANON_EOS_MODEL_ID: u16 = 0xD116;
    pub const OLYMPUS_FL_BRACKETING_FRAME: u16 = 0xD118;
    pub const CANON_EOS_PTP_EXTENSION_VERSION: u16 = 0xD119;
    pub const OLYMPUS_FL_BRACKETING_STEP: u16 = 0xD119;
    pub const CANON_EOS_DPOF_VERSION: u16 = 0xD11A;
    pub const OLYMPUS_FLASH_BIAS_COMPENSATION: u16 = 0xD11A;
    pub const CANON_EOS_AVAILABLE_SHOTS: u16 = 0xD11B;
    pub const OLYMPUS_MANUAL_FOCUS_MODE: u16 = 0xD11B;
    pub const CANON_EOS_CAPTURE_DESTINATION: u16 = 0xD11C;
    pub const CANON_EOS_BRACKET_MODE: u16 = 0xD11D;
    pub const OLYMPUS_RAW_SAVE_MODE: u16 = 0xD11D;
    pub const CANON_EOS_CURRENT_STORAGE: u16 = 0xD11E;
    pub const OLYMPUS_AUX_LIGHT_MODE: u16 = 0xD11E;
    pub const CANON_EOS_CURRENT_FOLDER: u16 = 0xD11F;
    pub const OLYMPUS_LENS_SINK_MODE: u16 = 0xD11F;
    pub const NIKON_EXTERNAL_FLASH_ATTACHED: u16 = 0xD120;
    pub const OLYMPUS_BEEP_STATUS: u16 = 0xD120;
    pub const NIKON_EXTERNAL_FLASH_STATUS: u16 = 0xD121;
    pub const NIKON_EXTERNAL_FLASH_SORT: u16 = 0xD122;
    pub const OLYMPUS_COLOR_SPACE: u16 = 0xD122;
    pub const NIKON_EXTERNAL_FLASH_MODE: u16 = 0xD123;
    pub const OLYMPUS_COLOR_MATCHING: u16 = 0xD123;
    pub const NIKON_EXTERNAL_FLASH_COMPENSATION: u16 = 0xD124;
    pub const OLYMPUS_SATURATION: u16 = 0xD124;
    pub const NIKON_NEW_EXTERNAL_FLASH_MODE: u16 = 0xD125;
    pub const NIKON_FLASH_EXPOSURE_COMPENSATION: u16 = 0xD126;
    pub const OLYMPUS_NOISE_REDUCTION_PATTERN: u16 = 0xD126;
    pub const OLYMPUS_NOISE_REDUCTION_RANDOM: u16 = 0xD127;
    pub const OLYMPUS_SHADING_MODE: u16 = 0xD129;
    pub const OLYMPUS_ISO_BOOST_MODE: u16 = 0xD12A;
    pub const OLYMPUS_EXPOSURE_INDEX_BIAS_STEP: u16 = 0xD12B;
    pub const OLYMPUS_FILTER_EFFECT: u16 = 0xD12C;
    pub const OLYMPUS_COLOR_TUNE: u16 = 0xD12D;
    pub const OLYMPUS_LANGUAGE: u16 = 0xD12E;
    pub const OLYMPUS_LANGUAGE_CODE: u16 = 0xD12F;
    pub const CANON_EOS_COMPRESSION_S: u16 = 0xD130;
    pub const NIKON_HDR_MODE: u16 = 0xD130;
    pub const OLYMPUS_RECVIEW_MODE: u16 = 0xD130;
    pub const CANON_EOS_COMPRESSION_M1: u16 = 0xD131;
    pub const MTP_PLAYS_FOR_SURE_ID: u16 = 0xD131;
    pub const NIKON_HDR_HIGH_DYNAMIC: u16 = 0xD131;
    pub const OLYMPUS_SLEEP_TIME: u16 = 0xD131;
    pub const CANON_EOS_COMPRESSION_M2: u16 = 0xD132;
    pub const MTP_ZUNE_UNKNOWN2: u16 = 0xD132;
    pub const NIKON_HDR_SMOOTHING: u16 = 0xD132;
    pub const OLYMPUS_MANUAL_WBGM_BIAS: u16 = 0xD132;
    pub const CANON_EOS_COMPRESSION_L: u16 = 0xD133;
    pub const OLYMPUS_AELAFL_MODE: u16 = 0xD135;
    pub const OLYMPUS_AEL_BUTTON_STATUS: u16 = 0xD136;
    pub const OLYMPUS_COMPRESSION_SETTING_EX: u16 = 0xD137;
    pub const OLYMPUS_TONE_MODE: u16 = 0xD139;
    pub const OLYMPUS_GRADATION_MODE: u16 = 0xD13A;
    pub const OLYMPUS_DEVELOP_MODE: u16 = 0xD13B;
    pub const OLYMPUS_EXTEND_INNER_FLASH_MODE: u16 = 0xD13C;
    pub const OLYMPUS_OUTPUT_DEVICE_MODE: u16 = 0xD13D;
    pub const OLYMPUS_LIVE_VIEW_MODE: u16 = 0xD13E;
    pub const CANON_EOS_PC_WHITE_BALANCE1: u16 = 0xD140;
    pub const NIKON_OPTIMIZE_IMAGE: u16 = 0xD140;
    pub const OLYMPUS_LCD_BACKLIGHT: u16 = 0xD140;
    pub const CANON_EOS_PC_WHITE_BALANCE2: u16 = 0xD141;
    pub const OLYMPUS_CUSTOM_DEVELOP: u16 = 0xD141;
    pub const CANON_EOS_PC_WHITE_BALANCE3: u16 = 0xD142;
    pub const NIKON_SATURATION: u16 = 0xD142;
    pub const OLYMPUS_GRADATION_AUTO_BIAS: u16 = 0xD142;
    pub const CANON_EOS_PC_WHITE_BALANCE4: u16 = 0xD143;
    pub const NIKON_BW_FILLER_EFFECT: u16 = 0xD143;
    pub const OLYMPUS_FLASH_RC_MODE: u16 = 0xD143;
    pub const CANON_EOS_PC_WHITE_BALANCE5: u16 = 0xD144;
    pub const NIKON_BW_SHARPNESS: u16 = 0xD144;
    pub const OLYMPUS_FLASH_RC_GROUP_VALUE: u16 = 0xD144;
    pub const CANON_EOS_M_WHITE_BALANCE: u16 = 0xD145;
    pub const NIKON_BW_CONTRAST: u16 = 0xD145;
    pub const OLYMPUS_FLASH_RC_CHANNEL_VALUE: u16 = 0xD145;
    pub const NIKON_BW_SETTING_TYPE: u16 = 0xD146;
    pub const OLYMPUS_FLASH_RCFP_MODE: u16 = 0xD146;
    pub const OLYMPUS_FLASH_RC_PHOTO_CHROMIC_MODE: u16 = 0xD147;
    pub const NIKON_SLOT2SAVE_MODE: u16 = 0xD148;
    pub const OLYMPUS_FLASH_RC_PHOTO_CHROMIC_BIAS: u16 = 0xD148;
    pub const NIKON_RAW_BIT_MODE: u16 = 0xD149;
    pub const OLYMPUS_FLASH_RC_PHOTO_CHROMIC_MANUAL_BIAS: u16 = 0xD149;
    pub const OLYMPUS_FLASH_RC_QUANTITY_LIGHT_LEVEL: u16 = 0xD14A;
    pub const OLYMPUS_FOCUS_METERING_VALUE: u16 = 0xD14B;
    pub const OLYMPUS_ISO_BRACKETING_FRAME: u16 = 0xD14C;
    pub const OLYMPUS_ISO_BRACKETING_STEP: u16 = 0xD14D;
    pub const NIKON_ISO_AUTO_TIME: u16 = 0xD14E;
    pub const OLYMPUS_BULB_MF_MODE: u16 = 0xD14E;
    pub const NIKON_FLOURESCENT_TYPE: u16 = 0xD14F;
    pub const OLYMPUS_BURST_FPS_VALUE: u16 = 0xD14F;
    pub const CANON_EOS_PICTURE_STYLE_STANDARD: u16 = 0xD150;
    pub const NIKON_TUNE_COLOUR_TEMPERATURE: u16 = 0xD150;
    pub const OLYMPUS_ISO_AUTO_BASE_VALUE: u16 = 0xD150;
    pub const CANON_EOS_PICTURE_STYLE_PORTRAIT: u16 = 0xD151;
    pub const NIKON_TUNE_PRESET0: u16 = 0xD151;
    pub const OLYMPUS_ISO_AUTO_MAX_VALUE: u16 = 0xD151;
    pub const CANON_EOS_PICTURE_STYLE_LANDSCAPE: u16 = 0xD152;
    pub const NIKON_TUNE_PRESET1: u16 = 0xD152;
    pub const OLYMPUS_BULB_LIMITER_VALUE: u16 = 0xD152;
    pub const CANON_EOS_PICTURE_STYLE_NEUTRAL: u16 = 0xD153;
    pub const NIKON_TUNE_PRESET2: u16 = 0xD153;
    pub const OLYMPUS_DPI_MODE: u16 = 0xD153;
    pub const CANON_EOS_PICTURE_STYLE_FAITHFUL: u16 = 0xD154;
    pub const NIKON_TUNE_PRESET3: u16 = 0xD154;
    pub const OLYMPUS_DPI_CUSTOM_VALUE: u16 = 0xD154;
    pub const CANON_EOS_PICTURE_STYLE_BLACK_WHITE: u16 = 0xD155;
    pub const NIKON_TUNE_PRESET4: u16 = 0xD155;
    pub const OLYMPUS_RESOLUTION_VALUE_SETTING: u16 = 0xD155;
    pub const OLYMPUS_AF_TARGET_SIZE: u16 = 0xD157;
    pub const OLYMPUS_LIGHT_SENSOR_MODE: u16 = 0xD158;
    pub const OLYMPUS_AE_BRACKET: u16 = 0xD159;
    pub const OLYMPUS_WBRB_BRACKET: u16 = 0xD15A;
    pub const OLYMPUS_WBGM_BRACKET: u16 = 0xD15B;
    pub const OLYMPUS_FLASH_BRACKET: u16 = 0xD15C;
    pub const OLYMPUS_ISO_BRACKET: u16 = 0xD15D;
    pub const OLYMPUS_MY_MODE_STATUS: u16 = 0xD15E;
    pub const CANON_EOS_PICTURE_STYLE_USER_SET1: u16 = 0xD160;
    pub const NIKON_BEEP_OFF: u16 = 0xD160;
    pub const CANON_EOS_PICTURE_STYLE_USER_SET2: u16 = 0xD161;
    pub const NIKON_AUTOFOCUS_MODE: u16 = 0xD161;
    pub const CANON_EOS_PICTURE_STYLE_USER_SET3: u16 = 0xD162;
    pub const NIKON_AF_ASSIST: u16 = 0xD163;
    pub const NIKON_IMAGE_REVIEW: u16 = 0xD165;
    pub const NIKON_AF_AREA_ILLUMINATION: u16 = 0xD166;
    pub const NIKON_FLASH_MODE: u16 = 0xD167;
    pub const NIKON_FLASH_COMMANDER_MODE: u16 = 0xD168;
    pub const NIKON_FLASH_SIGN: u16 = 0xD169;
    pub const NIKON_ISO_AUTO_ALT: u16 = 0xD16A;
    pub const NIKON_REMOTE_TIMEOUT: u16 = 0xD16B;
    pub const NIKON_GRID_DISPLAY: u16 = 0xD16C;
    pub const NIKON_FLASH_MODE_MANUAL_POWER: u16 = 0xD16D;
    pub const NIKON_FLASH_MODE_COMMANDER_POWER: u16 = 0xD16E;
    pub const NIKON_AUTO_FP: u16 = 0xD16F;
    pub const CANON_EOS_PICTURE_STYLE_PARAM1: u16 = 0xD170;
    pub const CANON_EOS_PICTURE_STYLE_PARAM2: u16 = 0xD171;
    pub const CANON_EOS_PICTURE_STYLE_PARAM3: u16 = 0xD172;
    pub const CANON_EOS_FLAVOR_LUT_PARAMS: u16 = 0xD17F;
    pub const CANON_EOS_CUSTOM_FUNC1: u16 = 0xD180;
    pub const NIKON_CSM_MENU: u16 = 0xD180;
    pub const CANON_EOS_CUSTOM_FUNC2: u16 = 0xD181;
    pub const MTP_ZUNE_UNKNOWN1: u16 = 0xD181;
    pub const MTP_ZUNE_UNKNOWN_VERSION: u16 = 0xD181;
    pub const NIKON_WARNING_DISPLAY: u16 = 0xD181;
    pub const CANON_EOS_CUSTOM_FUNC3: u16 = 0xD182;
    pub const NIKON_BATTERY_CELL_KIND: u16 = 0xD182;
    pub const CANON_EOS_CUSTOM_FUNC4: u16 = 0xD183;
    pub const NIKON_ISO_AUTO_HI_LIMIT: u16 = 0xD183;
    pub const CANON_EOS_CUSTOM_FUNC5: u16 = 0xD184;
    pub const NIKON_DYNAMIC_AF_AREA: u16 = 0xD184;
    pub const CANON_EOS_CUSTOM_FUNC6: u16 = 0xD185;
    pub const CANON_EOS_CUSTOM_FUNC7: u16 = 0xD186;
    pub const NIKON_CONTINUOUS_SPEED_HIGH: u16 = 0xD186;
    pub const CANON_EOS_CUSTOM_FUNC8: u16 = 0xD187;
    pub const NIKON_INFO_DISP_SETTING: u16 = 0xD187;
    pub const CANON_EOS_CUSTOM_FUNC9: u16 = 0xD188;
    pub const CANON_EOS_CUSTOM_FUNC10: u16 = 0xD189;
    pub const NIKON_PREVIEW_BUTTON: u16 = 0xD189;
    pub const NIKON_PREVIEW_BUTTON2: u16 = 0xD18A;
    pub const NIKON_AEAF_LOCK_BUTTON2: u16 = 0xD18B;
    pub const NIKON_INDICATOR_DISP: u16 = 0xD18D;
    pub const NIKON_CELL_KIND_PRIORITY: u16 = 0xD18E;
    pub const CANON_EOS_CUSTOM_FUNC11: u16 = 0xD18A;
    pub const CANON_EOS_CUSTOM_FUNC12: u16 = 0xD18B;
    pub const CANON_EOS_CUSTOM_FUNC13: u16 = 0xD18C;
    pub const CANON_EOS_CUSTOM_FUNC14: u16 = 0xD18D;
    pub const CANON_EOS_CUSTOM_FUNC15: u16 = 0xD18E;
    pub const CANON_EOS_CUSTOM_FUNC16: u16 = 0xD18F;
    pub const CANON_EOS_CUSTOM_FUNC17: u16 = 0xD190;
    pub const NIKON_BRACKETING_FRAMES_AND_STEPS: u16 = 0xD190;
    pub const CANON_EOS_CUSTOM_FUNC18: u16 = 0xD191;
    pub const CANON_EOS_CUSTOM_FUNC19: u16 = 0xD192;
    pub const NIKON_LIVE_VIEW_MODE: u16 = 0xD1A0;
    pub const NIKON_LIVE_VIEW_DRIVE_MODE: u16 = 0xD1A1;
    pub const NIKON_LIVE_VIEW_STATUS: u16 = 0xD1A2;
    pub const NIKON_LIVE_VIEW_IMAGE_ZOOM_RATIO: u16 = 0xD1A3;
    pub const NIKON_LIVE_VIEW_PROHIBIT_CONDITION: u16 = 0xD1A4;
    pub const NIKON_EXPOSURE_DISPLAY_STATUS: u16 = 0xD1B0;
    pub const NIKON_EXPOSURE_INDICATE_STATUS: u16 = 0xD1B1;
    pub const NIKON_INFO_DISP_ERR_STATUS: u16 = 0xD1B2;
    pub const NIKON_EXPOSURE_INDICATE_LIGHTUP: u16 = 0xD1B3;
    pub const NIKON_FLASH_OPEN: u16 = 0xD1C0;
    pub const NIKON_FLASH_CHARGED: u16 = 0xD1C1;
    pub const NIKON_FLASH_M_REPEAT_VALUE: u16 = 0xD1D0;
    pub const NIKON_FLASH_M_REPEAT_COUNT: u16 = 0xD1D1;
    pub const NIKON_FLASH_M_REPEAT_INTERVAL: u16 = 0xD1D2;
    pub const NIKON_FLASH_COMMAND_CHANNEL: u16 = 0xD1D3;
    pub const NIKON_FLASH_COMMAND_SELF_MODE: u16 = 0xD1D4;
    pub const NIKON_FLASH_COMMAND_SELF_COMPENSATION: u16 = 0xD1D5;
    pub const NIKON_FLASH_COMMAND_SELF_VALUE: u16 = 0xD1D6;
    pub const NIKON_FLASH_COMMAND_A_MODE: u16 = 0xD1D7;
    pub const NIKON_FLASH_COMMAND_A_COMPENSATION: u16 = 0xD1D8;
    pub const NIKON_FLASH_COMMAND_A_VALUE: u16 = 0xD1D9;
    pub const NIKON_FLASH_COMMAND_B_MODE: u16 = 0xD1DA;
    pub const NIKON_FLASH_COMMAND_B_COMPENSATION: u16 = 0xD1DB;
    pub const NIKON_FLASH_COMMAND_B_VALUE: u16 = 0xD1DC;
    pub const CANON_EOS_CUSTOM_FUNC_EX: u16 = 0xD1A0;
    pub const CANON_EOS_MY_MENU: u16 = 0xD1A1;
    pub const CANON_EOS_MY_MENU_LIST: u16 = 0xD1A2;
    pub const CANON_EOS_WFT_STATUS: u16 = 0xD1A3;
    pub const CANON_EOS_WFT_INPUT_TRANSMISSION: u16 = 0xD1A4;
    pub const CANON_EOS_HD_DIRECTORY_STRUCTURE: u16 = 0xD1A5;
    pub const CANON_EOS_BATTERY_INFO: u16 = 0xD1A6;
    pub const CANON_EOS_ADAPTER_INFO: u16 = 0xD1A7;
    pub const CANON_EOS_LENS_STATUS: u16 = 0xD1A8;
    pub const CANON_EOS_QUICK_REVIEW_TIME: u16 = 0xD1A9;
    pub const CANON_EOS_CARD_EXTENSION: u16 = 0xD1AA;
    pub const CANON_EOS_TEMP_STATUS: u16 = 0xD1AB;
    pub const CANON_EOS_SHUTTER_COUNTER: u16 = 0xD1AC;
    pub const CANON_EOS_SPECIAL_OPTION: u16 = 0xD1AD;
    pub const CANON_EOS_PHOTO_STUDIO_MODE: u16 = 0xD1AE;
    pub const CANON_EOS_SERIAL_NUMBER: u16 = 0xD1AF;
    pub const CANON_EOS_EVF_OUTPUT_DEVICE: u16 = 0xD1B0;
    pub const CANON_EOS_EVF_MODE: u16 = 0xD1B1;
    pub const CANON_EOS_DEPTH_OF_FIELD_PREVIEW: u16 = 0xD1B2;
    pub const CANON_EOS_EVF_SHARPNESS: u16 = 0xD1B3;
    pub const CANON_EOS_EVFWB_MODE: u16 = 0xD1B4;
    pub const CANON_EOS_EVF_CLICK_WB_COEFFS: u16 = 0xD1B5;
    pub const CANON_EOS_EVF_COLOR_TEMP: u16 = 0xD1B6;
    pub const CANON_EOS_EXPOSURE_SIM_MODE: u16 = 0xD1B7;
    pub const CANON_EOS_EVF_RECORD_STATUS: u16 = 0xD1B8;
    pub const CANON_EOS_LV_AF_SYSTEM: u16 = 0xD1BA;
    pub const CANON_EOS_MOV_SIZE: u16 = 0xD1BB;
    pub const CANON_EOS_LV_VIEW_TYPE_SELECT: u16 = 0xD1BC;
    pub const CANON_EOS_ARTIST: u16 = 0xD1D0;
    pub const CANON_EOS_COPYRIGHT: u16 = 0xD1D1;
    pub const CANON_EOS_BRACKET_VALUE: u16 = 0xD1D2;
    pub const CANON_EOS_FOCUS_INFO_EX: u16 = 0xD1D3;
    pub const CANON_EOS_DEPTH_OF_FIELD: u16 = 0xD1D4;
    pub const CANON_EOS_BRIGHTNESS: u16 = 0xD1D5;
    pub const CANON_EOS_LENS_ADJUST_PARAMS: u16 = 0xD1D6;
    pub const CANON_EOS_EF_COMP: u16 = 0xD1D7;
    pub const CANON_EOS_LENS_NAME: u16 = 0xD1D8;
    pub const CANON_EOS_AEB: u16 = 0xD1D9;
    pub const CANON_EOS_STROBO_SETTING: u16 = 0xD1DA;
    pub const CANON_EOS_STROBO_WIRELESS_SETTING: u16 = 0xD1DB;
    pub const CANON_EOS_STROBO_FIRING: u16 = 0xD1DC;
    pub const CANON_EOS_LENS_ID: u16 = 0xD1DD;
    pub const NIKON_ACTIVE_PIC_CTRL_ITEM: u16 = 0xD200;
    pub const FUJI_RELEASE_MODE: u16 = 0xD201;
    pub const NIKON_CHANGE_PIC_CTRL_ITEM: u16 = 0xD201;
    pub const FUJI_FOCUS_AREAS: u16 = 0xD206;
    pub const FUJI_AE_LOCK: u16 = 0xD213;
    pub const MTP_ZUNE_UNKNOWN3: u16 = 0xD215;
    pub const MTP_ZUNE_UNKNOWN4: u16 = 0xD216;
    pub const FUJI_APERTURE: u16 = 0xD218;
    pub const FUJI_SHUTTER_SPEED: u16 = 0xD219;
    pub const MTP_SYNCHRONIZATION_PARTNER: u16 = 0xD401;
    pub const MTP_DEVICE_FRIENDLY_NAME: u16 = 0xD402;
    pub const MTP_VOLUME_LEVEL: u16 = 0xD403;
    pub const MTP_DEVICE_ICON: u16 = 0xD405;
    pub const MTP_SESSION_INITIATOR_INFO: u16 = 0xD406;
    pub const MTP_PERCEIVED_DEVICE_TYPE: u16 = 0xD407;
    pub const MTP_PLAYBACK_RATE: u16 = 0xD410;
    pub const MTP_PLAYBACK_OBJECT: u16 = 0xD411;
    pub const MTP_PLAYBACK_CONTAINER_INDEX: u16 = 0xD412;
    pub const MTP_PLAYBACK_POSITION: u16 = 0xD413;
    pub const EXTENSION_MASK: u16 = 0xF000;

    /// The spec name of this value, or `None` where the table has none.
    pub fn name(self) -> (r: Option<&'static str>)
        ensures
            name_view(r) == device_prop_code_name(self.0),
    {
        match self.0 {
            0x5000 => Some("Undefined"),
            0x5001 => Some("BatteryLevel"),
            0x5002 => Some("FunctionalMode"),
            0x5003 => Some("ImageSize"),
            0x5004 => Some("CompressionSetting"),
            0x5005 => Some("WhiteBalance"),
            0x5006 => Some("RGBGain"),
            0x5007 => Some("FNumber"),
            0x5008 => Some("FocalLength"),
            0x5009 => Some("FocusDistance"),
            0x500A => Some("FocusMode"),
            0x500B => Some("ExposureMeteringMode"),
            0x500C => Some("FlashMode"),
            0x500D => Some("ExposureTime"),
            0x500E => Some("ExposureProgramMode"),
            0x500F => Some("ExposureIndex"),
            0x5010 => Some("ExposureBiasCompensation"),
            0x5011 => Some("DateTime"),
            0x5012 => Some("CaptureDelay"),
            0x5013 => Some("StillCaptureMode"),
            0x5014 => Some("Contrast"),
            0x5015 => Some("Sharpness"),
            0x5016 => Some("DigitalZoom"),
            0x5017 => Some("EffectMode"),
            0x5018 => Some("BurstNumber"),
            0x5019 => Some("BurstInterval"),
            0x501A => Some("TimelapseNumber"),
            0x501B => Some("TimelapseInterval"),
            0x501C => Some("FocusMeteringMode"),
            0x501D => Some("UploadURL"),
            0x501E => Some("Artist"),
            0x501F => Some("CopyrightInfo"),
            0x5020 => Some("SupportedStreams"),
            0x5021 => Some("EnabledStreams"),
            0x5022 => Some("VideoFormat"),
            0x5023 => Some("VideoResolution"),
            0x5024 => Some("VideoQuality"),
            0x5025 => Some("VideoFrameRate"),
            0x5026 => Some("VideoContrast"),
            0x5027 => Some("VideoBrightness"),
            0x5028 => Some("AudioFormat"),
            0x5029 => Some("AudioBitrate"),
            0x502A => Some("AudioSamplingRate"),
            0x502B => Some("AudioBitPerSample"),
            0x502C => Some("AudioVolume"),
            0xD000 => Some("EXTENSION"),
            0xD080 => Some("CASIO_UNKNOWN_18"),
            0xD118 => Some("OLYMPUS_FLBracketingFrame"),
            0xD127 => Some("OLYMPUS_NoiseReductionRandom"),
            0xD129 => Some("OLYMPUS_ShadingMode"),
            0xD12A => Some("OLYMPUS_ISOBoostMode"),
            0xD12B => Some("OLYMPUS_ExposureIndexBiasStep"),
            0xD12C => Some("OLYMPUS_FilterEffect"),
            0xD12D => Some("OLYMPUS_ColorTune"),
            0xD12E => Some("OLYMPUS_Language"),
            0xD12F => Some("OLYMPUS_LanguageCode"),
            0xD135 => Some("OLYMPUS_AELAFLMode"),
            0xD136 => Some("OLYMPUS_AELButtonStatus"),
            0xD137 => Some("OLYMPUS_CompressionSettingEx"),
            0xD139 => Some("OLYMPUS_ToneMode"),
            0xD13A => Some("OLYMPUS_GradationMode"),
            0xD13B => Some("OLYMPUS_DevelopMode"),
            0xD13C => Some("OLYMPUS_ExtendInnerFlashMode"),
            0xD13D => Some("OLYMPUS_OutputDeviceMode"),
            0xD13E => Some("OLYMPUS_LiveViewMode"),
            0xD147 => Some("OLYMPUS_FlashRCPhotoChromicMode"),
            0xD14A => Some("OLYMPUS_FlashRCQuantityLightLevel"),
            0xD14B => Some("OLYMPUS_FocusMeteringValue"),
            0xD14C => Some("OLYMPUS_ISOBracketingFrame"),
            0xD14D => Some("OLYMPUS_ISOBracketingStep"),
            0xD157 => Some("OLYMPUS_AFTargetSize"),
            0xD158 => Some("OLYMPUS_LightSensorMode"),
            0xD159 => Some("OLYMPUS_AEBracket"),
            0xD15A => Some("OLYMPUS_WBRBBracket"),
            0xD15B => Some("OLYMPUS_WBGMBracket"),
            0xD15C => Some("OLYMPUS_FlashBracket"),
            0xD15D => Some("OLYMPUS_ISOBracket"),
            0xD15E => Some("OLYMPUS_MyModeStatus"),
            0xD215 => Some("MTP_ZUNE_UNKNOWN3"),
            0xD216 => Some("MTP_ZUNE_UNKNOWN4"),
            0xD401 => Some("MTP_SynchronizationPartner"),
            0xD402 => Some("MTP_DeviceFriendlyName"),
            0xD403 => Some("MTP_VolumeLevel"),
            0xD405 => Some("MTP_DeviceIcon"),
            0xD406 => Some("MTP_SessionInitiatorInfo"),
            0xD407 => Some("MTP_PerceivedDeviceType"),
            0xD410 => Some("MTP_PlaybackRate"),
            0xD411 => Some("MTP_PlaybackObject"),
            0xD412 => Some("MTP_PlaybackContainerIndex"),
            0xD413 => Some("MTP_PlaybackPosition"),
            0xF000 => Some("EXTENSION_MASK"),
            _ => None,
        }
    }

    /// The spec name, else the value as `0x` and 4 uppercase hex digits.
    pub fn to_string(&self) -> (s: String)
        ensures
            s@ == display16(device_prop_code_name(self.0), self.0),
    {
        match self.name() {
            Some(n) => n.to_owned(),
            None => {
                let mut s = String::new();
                s.append("0x");
                push_hex_upper_pad(&mut s, self.0 as u64, 4);
                s
            },
        }
    }
}

} // verus!
