use vstd::prelude::*;
use vstd::string::StringExecFns;
use crate::decimal::push_hex_upper_pad;
use super::{name_view, display16};

verus! {

/// object format code (`OFC_*`).
#[derive(Clone, Copy, PartialEq, Eq, Hash, PartialOrd, Ord, Debug)]
pub struct ObjectFormat(pub u16);

/// The spec name of each `ObjectFormat` value that has one.
pub open spec fn object_format_name(c: u16) -> Option<Seq<char>> {
    match c {
        0x3000u16 => Some("Undefined"@),
        0x3001u16 => Some("Association"@),
        0x3002u16 => Some("Script"@),
        0x3003u16 => Some("Executable"@),
        0x3004u16 => Some("Text"@),
        0x3005u16 => Some("HTML"@),
        0x3006u16 => Some("DPOF"@),
        0x3007u16 => Some("AIFF"@),
        0x3008u16 => Some("WAV"@),
        0x3009u16 => Some("MP3"@),
        0x300Au16 => Some("AVI"@),
        0x300Bu16 => Some("MPEG"@),
        0x300Cu16 => Some("ASF"@),
        0x3800u16 => Some("Defined"@),
        0x3801u16 => Some("EXIF_JPEG"@),
        0x3802u16 => Some("TIFF_EP"@),
        0x3803u16 => Some("FlashPix"@),
        0x3804u16 => Some("BMP"@),
        0x3805u16 => Some("CIFF"@),
        0x3806u16 => Some("Undefined_0x3806"@),
        0x3807u16 => Some("GIF"@),
        0x3808u16 => Some("JFIF"@),
        0x3809u16 => Some("PCD"@),
        0x380Au16 => Some("PICT"@),
        0x380Bu16 => Some("PNG"@),
        0x380Cu16 => Some("Undefined_0x380C"@),
        0x380Du16 => Some("TIFF"@),
        0x380Eu16 => Some("TIFF_IT"@),
        0x380Fu16 => Some("JP2"@),
        0x3810u16 => Some("JPX"@),
        0x3811u16 => Some("DNG"@),
        0xB211u16 => Some("MTP_MediaCard"@),
        0xB212u16 => Some("MTP_MediaCardGroup"@),
        0xB213u16 => Some("MTP_Encounter"@),
        0xB214u16 => Some("MTP_EncounterBox"@),
        0xB215u16 => Some("MTP_M4A"@),
        0xB802u16 => Some("MTP_Firmware"@),
        0xB881u16 => Some("MTP_WindowsImageFormat"@),
        0xB900u16 => Some("MTP_UndefinedAudio"@),
        0xB901u16 => Some("MTP_WMA"@),
        0xB902u16 => Some("MTP_OGG"@),
        0xB903u16 => Some("MTP_AAC"@),
        0xB904u16 => Some("MTP_AudibleCodec"@),
        0xB906u16 => Some("MTP_FLAC"@),
        0xB909u16 => Some("MTP_SamsungPlaylist"@),
        0xB980u16 => Some("MTP_UndefinedVideo"@),
        0xB981u16 => Some("MTP_WMV"@),
        0xB982u16 => Some("MTP_MP4"@),
        0xB983u16 => Some("MTP_MP2"@),
        0xB984u16 => Some("MTP_3GP"@),
        0xBA00u16 => Some("MTP_UndefinedCollection"@),
        0xBA01u16 => Some("MTP_AbstractMultimediaAlbum"@),
        0xBA02u16 => Some("MTP_AbstractImageAlbum"@),
        0xBA03u16 => Some("MTP_AbstractAudioAlbum"@),
        0xBA04u16 => Some("MTP_AbstractVideoAlbum"@),
        0xBA05u16 => Some("MTP_AbstractAudioVideoPlaylist"@),
        0xBA06u16 => Some("MTP_AbstractContactGroup"@),
        0xBA07u16 => Some("MTP_AbstractMessageFolder"@),
        0xBA08u16 => Some("MTP_AbstractChapteredProduction"@),
        0xBA09u16 => Some("MTP_AbstractAudioPlaylist"@),
        0xBA0Au16 => Some("MTP_AbstractVideoPlaylist"@),
        0xBA0Bu16 => Some("MTP_AbstractMediacast"@),
        0xBA10u16 => Some("MTP_WPLPlaylist"@),
        0xBA11u16 => Some("MTP_M3UPlaylist"@),
        0xBA12u16 => Some("MTP_MPLPlaylist"@),
        0xBA13u16 => Some("MTP_ASXPlaylist"@),
        0xBA14u16 => Some("MTP_PLSPlaylist"@),
        0xBA80u16 => Some("MTP_UndefinedDocument"@),
        0xBA81u16 => Some("MTP_AbstractDocument"@),
        0xBA82u16 => Some("MTP_XMLDocument"@),
        0xBA83u16 => Some("MTP_MSWordDocument"@),
        0xBA84u16 => Some("MTP_MHTCompiledHTMLDocument"@),
        0xBA85u16 => Some("MTP_MSExcelSpreadsheetXLS"@),
        0xBA86u16 => Some("MTP_MSPowerpointPresentationPPT"@),
        0xBB00u16 => Some("MTP_UndefinedMessage"@),
        0xBB01u16 => Some("MTP_AbstractMessage"@),
        0xBB80u16 => Some("MTP_UndefinedContact"@),
        0xBB81u16 => Some("MTP_AbstractContact"@),
        0xBB82u16 => Some("MTP_vCard2"@),
        0xBB83u16 => Some("MTP_vCard3"@),
        0xBE00u16 => Some("MTP_UndefinedCalendarItem"@),
        0xBE01u16 => Some("MTP_AbstractCalendarItem"@),
        0xBE02u16 => Some("MTP_vCalendar1"@),
        0xBE03u16 => Some("MTP_vCalendar2"@),
        0xBE80u16 => Some("MTP_UndefinedWindowsExecutable"@),
        0xBE81u16 => Some("MTP_MediaCast"@),
        0xBE82u16 => Some("MTP_Section"@),
        _ => None,
    }
}

impl ObjectFormat {
    pub const UNDEFINED: u16 = 0x3000;
    pub const ASSOCIATION: u16 = 0x3001;
    pub const SCRIPT: u16 = 0x3002;
    pub const EXECUTABLE: u16 = 0x3003;
    pub const TEXT: u16 = 0x3004;
    pub const HTML: u16 = 0x3005;
    pub const DPOF: u16 = 0x3006;
    pub const AIFF: u16 = 0x3007;
    pub const WAV: u16 = 0x3008;
    pub const MP3: u16 = 0x3009;
    pub const AVI: u16 = 0x300A;
    pub const MPEG: u16 = 0x300B;
    pub const ASF: u16 = 0x300C;
    pub const DEFINED: u16 = 0x3800;
    pub const EXIF_JPEG: u16 = 0x3801;
    pub const TIFF_EP: u16 = 0x3802;
    pub const FLASH_PIX: u16 = 0x3803;
    pub const BMP: u16 = 0x3804;
    pub const CIFF: u16 = 0x3805;
    pub const UNDEFINED_0X3806: u16 = 0x3806;
    pub const GIF: u16 = 0x3807;
    pub const JFIF: u16 = 0x3808;
    pub const PCD: u16 = 0x3809;
    pub const PICT: u16 = 0x380A;
    pub const PNG: u16 = 0x380B;
    pub const UNDEFINED_0X380C: u16 = 0x380C;
    pub const TIFF: u16 = 0x380D;
    pub const TIFF_IT: u16 = 0x380E;
    pub const JP2: u16 = 0x380F;
    pub const JPX: u16 = 0x3810;
    pub const DNG: u16 = 0x3811;
    pub const EK_M3U: u16 = 0xB002;
    pub const CANON_CRW: u16 = 0xB101;
    pub const CANON_CRW3: u16 = 0xB103;
    pub const CANON_MOV: u16 = 0xB104;
    pub const CANON_CHDK_CRW: u16 = 0xB1FF;
    pub const MTP_MEDIA_CARD: u16 = 0xB211;
    pub const MTP_MEDIA_CARD_GROUP: u16 = 0xB212;
    pub const MTP_ENCOUNTER: u16 = 0xB213;
    pub const MTP_ENCOUNTER_BOX: u16 = 0xB214;
    pub const MTP_M4A: u16 = 0xB215;
    pub const MTP_FIRMWARE: u16 = 0xB802;
    pub const MTP_WINDOWS_IMAGE_FORMAT: u16 = 0xB881;
    pub const MTP_UNDEFINED_AUDIO: u16 = 0xB900;
    pub const MTP_WMA: u16 = 0xB901;
    pub const MTP_OGG: u16 = 0xB902;
    pub const MTP_AAC: u16 = 0xB903;
    pub const MTP_AUDIBLE_CODEC: u16 = 0xB904;
    pub const MTP_FLAC: u16 = 0xB906;
    pub const MTP_SAMSUNG_PLAYLIST: u16 = 0xB909;
    pub const MTP_UNDEFINED_VIDEO: u16 = 0xB980;
    pub const MTP_WMV: u16 = 0xB981;
    pub const MTP_MP4: u16 = 0xB982;
    pub const MTP_MP2: u16 = 0xB983;
    pub const MTP_3GP: u16 = 0xB984;
    pub const MTP_UNDEFINED_COLLECTION: u16 = 0xBA00;
    pub const MTP_ABSTRACT_MULTIMEDIA_ALBUM: u16 = 0xBA01;
    pub const MTP_ABSTRACT_IMAGE_ALBUM: u16 = 0xBA02;
    pub const MTP_ABSTRACT_AUDIO_ALBUM: u16 = 0xBA03;
    pub const MTP_ABSTRACT_VIDEO_ALBUM: u16 = 0xBA04;
    pub const MTP_ABSTRACT_AUDIO_VIDEO_PLAYLIST: u16 = 0xBA05;
    pub const MTP_ABSTRACT_CONTACT_GROUP: u16 = 0xBA06;
    pub const MTP_ABSTRACT_MESSAGE_FOLDER: u16 = 0xBA07;
    pub const MTP_ABSTRACT_CHAPTERED_PRODUCTION: u16 = 0xBA08;
    pub const MTP_ABSTRACT_AUDIO_PLAYLIST: u16 = 0xBA09;
    pub const MTP_ABSTRACT_VIDEO_PLAYLIST: u16 = 0xBA0A;
    pub const MTP_ABSTRACT_MEDIACAST: u16 = 0xBA0B;
    pub const MTP_WPL_PLAYLIST: u16 = 0xBA10;
    pub const MTP_M3U_PLAYLIST: u16 = 0xBA11;
    pub const MTP_MPL_PLAYLIST: u16 = 0xBA12;
    pub const MTP_ASX_PLAYLIST: u16 = 0xBA13;
    pub const MTP_PLS_PLAYLIST: u16 = 0xBA14;
    pub const MTP_UNDEFINED_DOCUMENT: u16 = 0xBA80;
    pub const MTP_ABSTRACT_DOCUMENT: u16 = 0xBA81;
    pub const MTP_XML_DOCUMENT: u16 = 0xBA82;
    pub const MTP_MS_WORD_DOCUMENT: u16 = 0xBA83;
    pub const MTP_MHT_COMPILED_HTML_DOCUMENT: u16 = 0xBA84;
    pub const MTP_MS_EXCEL_SPREADSHEET_XLS: u16 = 0xBA85;
    pub const MTP_MS_POWERPOINT_PRESENTATION_PPT: u16 = 0xBA86;
    pub const MTP_UNDEFINED_MESSAGE: u16 = 0xBB00;
    pub const MTP_ABSTRACT_MESSAGE: u16 = 0xBB01;
    pub const MTP_UNDEFINED_CONTACT: u16 = 0xBB80;
    pub const MTP_ABSTRACT_CONTACT: u16 = 0xBB81;
    pub const MTP_V_CARD2: u16 = 0xBB82;
    pub const MTP_V_CARD3: u16 = 0xBB83;
    pub const MTP_UNDEFINED_CALENDAR_ITEM: u16 = 0xBE00;
    pub const MTP_ABSTRACT_CALENDAR_ITEM: u16 = 0xBE01;
    pub const MTP_V_CALENDAR1: u16 = 0xBE02;
    pub const MTP_V_CALENDAR2: u16 = 0xBE03;
    pub const MTP_UNDEFINED_WINDOWS_EXECUTABLE: u16 = 0xBE80;
    pub const MTP_MEDIA_CAST: u16 = 0xBE81;
    pub const MTP_SECTION: u16 = 0xBE82;

    /// The spec name of this value, or `None` where the table has none.
    pub fn name(self) -> (r: Option<&'static str>)
        ensures
            name_view(r) == object_format_name(self.0),
    {
        match self.0 {
            0x3000 => Some("Undefined"),
            0x3001 => Some("Association"),
            0x3002 => Some("Script"),
            0x3003 => Some("Executable"),
            0x3004 => Some("Text"),
            0x3005 => Some("HTML"),
            0x3006 => Some("DPOF"),
            0x3007 => Some("AIFF"),
            0x3008 => Some("WAV"),
            0x3009 => Some("MP3"),
            0x300A => Some("AVI"),
            0x300B => Some("MPEG"),
            0x300C => Some("ASF"),
            0x3800 => Some("Defined"),
            0x3801 => Some("EXIF_JPEG"),
            0x3802 => Some("TIFF_EP"),
            0x3803 => Some("FlashPix"),
            0x3804 => Some("BMP"),
            0x3805 => Some("CIFF"),
            0x3806 => Some("Undefined_0x3806"),
            0x3807 => Some("GIF"),
            0x3808 => Some("JFIF"),
            0x3809 => Some("PCD"),
            0x380A => Some("PICT"),
            0x380B => Some("PNG"),
            0x380C => Some("Undefined_0x380C"),
            0x380D => Some("TIFF"),
            0x380E => Some("TIFF_IT"),
            0x380F => Some("JP2"),
            0x3810 => Some("JPX"),
            0x3811 => Some("DNG"),
            0xB211 => Some("MTP_MediaCard"),
            0xB212 => Some("MTP_MediaCardGroup"),
            0xB213 => Some("MTP_Encounter"),
            0xB214 => Some("MTP_EncounterBox"),
            0xB215 => Some("MTP_M4A"),
            0xB802 => Some("MTP_Firmware"),
            0xB881 => Some("MTP_WindowsImageFormat"),
            0xB900 => Some("MTP_UndefinedAudio"),
            0xB901 => Some("MTP_WMA"),
            0xB902 => Some("MTP_OGG"),
            0xB903 => Some("MTP_AAC"),
            0xB904 => Some("MTP_AudibleCodec"),
            0xB906 => Some("MTP_FLAC"),
            0xB909 => Some("MTP_SamsungPlaylist"),
            0xB980 => Some("MTP_UndefinedVideo"),
            0xB981 => Some("MTP_WMV"),
            0xB982 => Some("MTP_MP4"),
            0xB983 => Some("MTP_MP2"),
            0xB984 => Some("MTP_3GP"),
            0xBA00 => Some("MTP_UndefinedCollection"),
            0xBA01 => Some("MTP_AbstractMultimediaAlbum"),
            0xBA02 => Some("MTP_AbstractImageAlbum"),
            0xBA03 => Some("MTP_AbstractAudioAlbum"),
            0xBA04 => Some("MTP_AbstractVideoAlbum"),
            0xBA05 => Some("MTP_AbstractAudioVideoPlaylist"),
            0xBA06 => Some("MTP_AbstractContactGroup"),
            0xBA07 => Some("MTP_AbstractMessageFolder"),
            0xBA08 => Some("MTP_AbstractChapteredProduction"),
            0xBA09 => Some("MTP_AbstractAudioPlaylist"),
            0xBA0A => Some("MTP_AbstractVideoPlaylist"),
            0xBA0B => Some("MTP_AbstractMediacast"),
            0xBA10 => Some("MTP_WPLPlaylist"),
            0xBA11 => Some("MTP_M3UPlaylist"),
            0xBA12 => Some("MTP_MPLPlaylist"),
            0xBA13 => Some("MTP_ASXPlaylist"),
            0xBA14 => Some("MTP_PLSPlaylist"),
            0xBA80 => Some("MTP_UndefinedDocument"),
            0xBA81 => Some("MTP_AbstractDocument"),
            0xBA82 => Some("MTP_XMLDocument"),
            0xBA83 => Some("MTP_MSWordDocument"),
            0xBA84 => Some("MTP_MHTCompiledHTMLDocument"),
            0xBA85 => Some("MTP_MSExcelSpreadsheetXLS"),
            0xBA86 => Some("MTP_MSPowerpointPresentationPPT"),
            0xBB00 => Some("MTP_UndefinedMessage"),
            0xBB01 => Some("MTP_AbstractMessage"),
            0xBB80 => Some("MTP_UndefinedContact"),
            0xBB81 => Some("MTP_AbstractContact"),
            0xBB82 => Some("MTP_vCard2"),
            0xBB83 => Some("MTP_vCard3"),
            0xBE00 => Some("MTP_UndefinedCalendarItem"),
            0xBE01 => Some("MTP_AbstractCalendarItem"),
            0xBE02 => Some("MTP_vCalendar1"),
            0xBE03 => Some("MTP_vCalendar2"),
            0xBE80 => Some("MTP_UndefinedWindowsExecutable"),
            0xBE81 => Some("MTP_MediaCast"),
            0xBE82 => Some("MTP_Section"),
            _ => None,
        }
    }

    /// The spec name, else the value as `0x` and 4 uppercase hex digits.
    pub fn to_string(&self) -> (s: String)
        ensures
            s@ == display16(object_format_name(self.0), self.0),
    {
        match self.name() {
            Some(n) => n.to_owned(),
            None => {
                let mut s = String::new();
                s.append("0x");
                push_hex_upper_pad(&mut s, self.0 as u64, 4);
                s
            },
        }
    }
}

} // verus!
