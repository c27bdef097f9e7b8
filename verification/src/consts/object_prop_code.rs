use vstd::prelude::*;
use vstd::string::StringExecFns;
use crate::decimal::push_hex_upper_pad;
use super::{name_view, display16};

verus! {

/// object property code (`OPC_*`).
#[derive(Clone, Copy, PartialEq, Eq, Hash, PartialOrd, Ord, Debug)]
pub struct ObjectPropCode(pub u16);

/// The spec name of each `ObjectPropCode` value that has one.
pub open spec fn object_prop_code_name(c: u16) -> Option<Seq<char>> {
    match c {
        0xB104u16 => Some("WirelessConfigurationFile"@),
        0xD901u16 => Some("BuyFlag"@),
        0xDC01u16 => Some("StorageID"@),
        0xDC02u16 => Some("ObjectFormat"@),
        0xDC03u16 => Some("ProtectionStatus"@),
        0xDC04u16 => Some("ObjectSize"@),
        0xDC05u16 => Some("AssociationType"@),
        0xDC06u16 => Some("AssociationDesc"@),
        0xDC07u16 => Some("ObjectFileName"@),
        0xDC08u16 => Some("DateCreated"@),
        0xDC09u16 => Some("DateModified"@),
        0xDC0Au16 => Some("Keywords"@),
        0xDC0Bu16 => Some("ParentObject"@),
        0xDC0Cu16 => Some("AllowedFolderContents"@),
        0xDC0Du16 => Some("Hidden"@),
        0xDC0Eu16 => Some("SystemObject"@),
        0xDC41u16 => Some("PersistantUniqueObjectIdentifier"@),
        0xDC42u16 => Some("SyncID"@),
        0xDC43u16 => Some("PropertyBag"@),
        0xDC44u16 => Some("Name"@),
        0xDC45u16 => Some("CreatedBy"@),
        0xDC46u16 => Some("Artist"@),
        0xDC47u16 => Some("DateAuthored"@),
        0xDC48u16 => Some("Description"@),
        0xDC49u16 => Some("URLReference"@),
        0xDC4Au16 => Some("LanguageLocale"@),
        0xDC4Bu16 => Some("CopyrightInformation"@),
        0xDC4Cu16 => Some("Source"@),
        0xDC4Du16 => Some("OriginLocation"@),
        0xDC4Eu16 => Some("DateAdded"@),
        0xDC4Fu16 => Some("NonConsumable"@),
        0xDC50u16 => Some("CorruptOrUnplayable"@),
        0xDC51u16 => Some("ProducerSerialNumber"@),
        0xDC81u16 => Some("RepresentativeSampleFormat"@),
        0xDC82u16 => Some("RepresentativeSampleSize"@),
        0xDC83u16 => Some("RepresentativeSampleHeight"@),
        0xDC84u16 => Some("RepresentativeSampleWidth"@),
        0xDC85u16 => Some("RepresentativeSampleDuration"@),
        0xDC86u16 => Some("RepresentativeSampleData"@),
        0xDC87u16 => Some("Width"@),
        0xDC88u16 => Some("Height"@),
        0xDC89u16 => Some("Duration"@),
        0xDC8Au16 => Some("Rating"@),
        0xDC8Bu16 => Some("Track"@),
        0xDC8Cu16 => Some("Genre"@),
        0xDC8Du16 => Some("Credits"@),
        0xDC8Eu16 => Some("Lyrics"@),
        0xDC8Fu16 => Some("SubscriptionContentID"@),
        0xDC90u16 => Some("ProducedBy"@),
        0xDC91u16 => Some("UseCount"@),
        0xDC92u16 => Some("SkipCount"@),
        0xDC93u16 => Some("LastAccessed"@),
        0xDC94u16 => Some("ParentalRating"@),
        0xDC95u16 => Some("MetaGenre"@),
        0xDC96u16 => Some("Composer"@),
        0xDC97u16 => Some("EffectiveRating"@),
        0xDC98u16 => Some("Subtitle"@),
        0xDC99u16 => Some("OriginalReleaseDate"@),
        0xDC9Au16 => Some("AlbumName"@),
        0xDC9Bu16 => Some("AlbumArtist"@),
        0xDC9Cu16 => Some("Mood"@),
        0xDC9Du16 => Some("DRMStatus"@),
        0xDC9Eu16 => Some("SubDescription"@),
        0xDCD1u16 => Some("IsCropped"@),
        0xDCD2u16 => Some("IsColorCorrected"@),
        0xDCD3u16 => Some("ImageBitDepth"@),
        0xDCD4u16 => Some("Fnumber"@),
        0xDCD5u16 => Some("ExposureTime"@),
        0xDCD6u16 => Some("ExposureIndex"@),
        0xDCE0u16 => Some("DisplayName"@),
        0xDCE1u16 => Some("BodyText"@),
        0xDCE2u16 => Some("Subject"@),
        0xDCE3u16 => Some("Priority"@),
        0xDD00u16 => Some("GivenName"@),
        0xDD01u16 => Some("MiddleNames"@),
        0xDD02u16 => Some("FamilyName"@),
        0xDD03u16 => Some("Prefix"@),
        0xDD04u16 => Some("Suffix"@),
        0xDD05u16 => Some("PhoneticGivenName"@),
        0xDD06u16 => Some("PhoneticFamilyName"@),
        0xDD07u16 => Some("EmailPrimary"@),
        0xDD08u16 => Some("EmailPersonal1"@),
        0xDD09u16 => Some("EmailPersonal2"@),
        0xDD0Au16 => Some("EmailBusiness1"@),
        0xDD0Bu16 => Some("EmailBusiness2"@),
        0xDD0Cu16 => Some("EmailOthers"@),
        0xDD0Du16 => Some("PhoneNumberPrimary"@),
        0xDD0Eu16 => Some("PhoneNumberPersonal"@),
        0xDD0Fu16 => Some("PhoneNumberPersonal2"@),
        0xDD10u16 => Some("PhoneNumberBusiness"@),
        0xDD11u16 => Some("PhoneNumberBusiness2"@),
        0xDD12u16 => Some("PhoneNumberMobile"@),
        0xDD13u16 => Some("PhoneNumberMobile2"@),
        0xDD14u16 => Some("FaxNumberPrimary"@),
        0xDD15u16 => Some("FaxNumberPersonal"@),
        0xDD16u16 => Some("FaxNumberBusiness"@),
        0xDD17u16 => Some("PagerNumber"@),
        0xDD18u16 => Some("PhoneNumberOthers"@),
        0xDD19u16 => Some("PrimaryWebAddress"@),
        0xDD1Au16 => Some("PersonalWebAddress"@),
        0xDD1Bu16 => Some("BusinessWebAddress"@),
        0xDD1Cu16 => Some("InstantMessengerAddress"@),
        0xDD1Du16 => Some("InstantMessengerAddress2"@),
        0xDD1Eu16 => Some("InstantMessengerAddress3"@),
        0xDD1Fu16 => Some("PostalAddressPersonalFull"@),
        0xDD20u16 => Some("PostalAddressPersonalFullLine1"@),
        0xDD21u16 => Some("PostalAddressPersonalFullLine2"@),
        0xDD22u16 => Some("PostalAddressPersonalFullCity"@),
        0xDD23u16 => Some("PostalAddressPersonalFullRegion"@),
        0xDD24u16 => Some("PostalAddressPersonalFullPostalCode"@),
        0xDD25u16 => Some("PostalAddressPersonalFullCountry"@),
        0xDD26u16 => Some("PostalAddressBusinessFull"@),
        0xDD27u16 => Some("PostalAddressBusinessLine1"@),
        0xDD28u16 => Some("PostalAddressBusinessLine2"@),
        0xDD29u16 => Some("PostalAddressBusinessCity"@),
        0xDD2Au16 => Some("PostalAddressBusinessRegion"@),
        0xDD2Bu16 => Some("PostalAddressBusinessPostalCode"@),
        0xDD2Cu16 => Some("PostalAddressBusinessCountry"@),
        0xDD2Du16 => Some("PostalAddressOtherFull"@),
        0xDD2Eu16 => Some("PostalAddressOtherLine1"@),
        0xDD2Fu16 => Some("PostalAddressOtherLine2"@),
        0xDD30u16 => Some("PostalAddressOtherCity"@),
        0xDD31u16 => Some("PostalAddressOtherRegion"@),
        0xDD32u16 => Some("PostalAddressOtherPostalCode"@),
        0xDD33u16 => Some("PostalAddressOtherCountry"@),
        0xDD34u16 => Some("OrganizationName"@),
        0xDD35u16 => Some("PhoneticOrganizationName"@),
        0xDD36u16 => Some("Role"@),
        0xDD37u16 => Some("Birthdate"@),
        0xDD40u16 => Some("MessageTo"@),
        0xDD41u16 => Some("MessageCC"@),
        0xDD42u16 => Some("MessageBCC"@),
        0xDD43u16 => Some("MessageRead"@),
        0xDD44u16 => Some("MessageReceivedTime"@),
        0xDD45u16 => Some("MessageSender"@),
        0xDD50u16 => Some("ActivityBeginTime"@),
        0xDD51u16 => Some("ActivityEndTime"@),
        0xDD52u16 => Some("ActivityLocation"@),
        0xDD54u16 => Some("ActivityRequiredAttendees"@),
        0xDD55u16 => Some("ActivityOptionalAttendees"@),
        0xDD56u16 => Some("ActivityResources"@),
        0xDD57u16 => Some("ActivityAccepted"@),
        0xDD5Du16 => Some("Owner"@),
        0xDD5Eu16 => Some("Editor"@),
        0xDD5Fu16 => Some("Webmaster"@),
        0xDD60u16 => Some("URLSource"@),
        0xDD61u16 => Some("URLDestination"@),
        0xDD62u16 => Some("TimeBookmark"@),
        0xDD63u16 => Some("ObjectBookmark"@),
        0xDD64u16 => Some("ByteBookmark"@),
        0xDD70u16 => Some("LastBuildDate"@),
        0xDD71u16 => Some("TimetoLive"@),
        0xDD72u16 => Some("MediaGUID"@),
        0xDE91u16 => Some("TotalBitRate"@),
        0xDE92u16 => Some("BitRateType"@),
        0xDE93u16 => Some("SampleRate"@),
        0xDE94u16 => Some("NumberOfChannels"@),
        0xDE95u16 => Some("AudioBitDepth"@),
        0xDE97u16 => Some("ScanDepth"@),
        0xDE99u16 => Some("AudioWAVECodec"@),
        0xDE9Au16 => Some("AudioBitRate"@),
        0xDE9Bu16 => Some("VideoFourCCCodec"@),
        0xDE9Cu16 => Some("VideoBitRate"@),
        0xDE9Du16 => Some("FramesPerThousandSeconds"@),
        0xDE9Eu16 => Some("KeyFrameDistance"@),
        0xDE9Fu16 => Some("BufferSize"@),
        0xDEA0u16 => Some("EncodingQuality"@),
        0xDEA1u16 => Some("EncodingProfile"@),
        _ => None,
    }
}

impl ObjectPropCode {
    pub const WIRELESS_CONFIGURATION_FILE: u16 = 0xB104;
    pub const BUY_FLAG: u16 = 0xD901;
    pub const STORAGE_ID: u16 = 0xDC01;
    pub const OBJECT_FORMAT: u16 = 0xDC02;
    pub const PROTECTION_STATUS: u16 = 0xDC03;
    pub const OBJECT_SIZE: u16 = 0xDC04;
    pub const ASSOCIATION_TYPE: u16 = 0xDC05;
    pub const ASSOCIATION_DESC: u16 = 0xDC06;
    pub const OBJECT_FILE_NAME: u16 = 0xDC07;
    pub const DATE_CREATED: u16 = 0xDC08;
    pub const DATE_MODIFIED: u16 = 0xDC09;
    pub const KEYWORDS: u16 = 0xDC0A;
    pub const PARENT_OBJECT: u16 = 0xDC0B;
    pub const ALLOWED_FOLDER_CONTENTS: u16 = 0xDC0C;
    pub const HIDDEN: u16 = 0xDC0D;
    pub const SYSTEM_OBJECT: u16 = 0xDC0E;
    pub const PERSISTANT_UNIQUE_OBJECT_IDENTIFIER: u16 = 0xDC41;
    pub const SYNC_ID: u16 = 0xDC42;
    pub const PROPERTY_BAG: u16 = 0xDC43;
    pub const NAME: u16 = 0xDC44;
    pub const CREATED_BY: u16 = 0xDC45;
    pub const ARTIST: u16 = 0xDC46;
    pub const DATE_AUTHORED: u16 = 0xDC47;
    pub const DESCRIPTION: u16 = 0xDC48;
    pub const URL_REFERENCE: u16 = 0xDC49;
    pub const LANGUAGE_LOCALE: u16 = 0xDC4A;
    pub const COPYRIGHT_INFORMATION: u16 = 0xDC4B;
    pub const SOURCE: u16 = 0xDC4C;
    pub const ORIGIN_LOCATION: u16 = 0xDC4D;
    pub const DATE_ADDED: u16 = 0xDC4E;
    pub const NON_CONSUMABLE: u16 = 0xDC4F;
    pub const CORRUPT_OR_UNPLAYABLE: u16 = 0xDC50;
    pub const PRODUCER_SERIAL_NUMBER: u16 = 0xDC51;
    pub const REPRESENTATIVE_SAMPLE_FORMAT: u16 = 0xDC81;
    pub const REPRESENTATIVE_SAMPLE_SIZE: u16 = 0xDC82;
    pub const REPRESENTATIVE_SAMPLE_HEIGHT: u16 = 0xDC83;
    pub const REPRESENTATIVE_SAMPLE_WIDTH: u16 = 0xDC84;
    pub const REPRESENTATIVE_SAMPLE_DURATION: u16 = 0xDC85;
    pub const REPRESENTATIVE_SAMPLE_DATA: u16 = 0xDC86;
    pub const WIDTH: u16 = 0xDC87;
    pub const HEIGHT: u16 = 0xDC88;
    pub const DURATION: u16 = 0xDC89;
    pub const RATING: u16 = 0xDC8A;
    pub const TRACK: u16 = 0xDC8B;
    pub const GENRE: u16 = 0xDC8C;
    pub const CREDITS: u16 = 0xDC8D;
    pub const LYRICS: u16 = 0xDC8E;
    pub const SUBSCRIPTION_CONTENT_ID: u16 = 0xDC8F;
    pub const PRODUCED_BY: u16 = 0xDC90;
    pub const USE_COUNT: u16 = 0xDC91;
    pub const SKIP_COUNT: u16 = 0xDC92;
    pub const LAST_ACCESSED: u16 = 0xDC93;
    pub const PARENTAL_RATING: u16 = 0xDC94;
    pub const META_GENRE: u16 = 0xDC95;
    pub const COMPOSER: u16 = 0xDC96;
    pub const EFFECTIVE_RATING: u16 = 0xDC97;
    pub const SUBTITLE: u16 = 0xDC98;
    pub const ORIGINAL_RELEASE_DATE: u16 = 0xDC99;
    pub const ALBUM_NAME: u16 = 0xDC9A;
    pub const ALBUM_ARTIST: u16 = 0xDC9B;
    pub const MOOD: u16 = 0xDC9C;
    pub const DRM_STATUS: u16 = 0xDC9D;
    pub const SUB_DESCRIPTION: u16 = 0xDC9E;
    pub const IS_CROPPED: u16 = 0xDCD1;
    pub const IS_COLOR_CORRECTED: u16 = 0xDCD2;
    pub const IMAGE_BIT_DEPTH: u16 = 0xDCD3;
    pub const FNUMBER: u16 = 0xDCD4;
    pub const EXPOSURE_TIME: u16 = 0xDCD5;
    pub const EXPOSURE_INDEX: u16 = 0xDCD6;
    pub const DISPLAY_NAME: u16 = 0xDCE0;
    pub const BODY_TEXT: u16 = 0xDCE1;
    pub const SUBJECT: u16 = 0xDCE2;
    pub const PRIORITY: u16 = 0xDCE3;
    pub const GIVEN_NAME: u16 = 0xDD00;
    pub const MIDDLE_NAMES: u16 = 0xDD01;
    pub const FAMILY_NAME: u16 = 0xDD02;
    pub const PREFIX: u16 = 0xDD03;
    pub const SUFFIX: u16 = 0xDD04;
    pub const PHONETIC_GIVEN_NAME: u16 = 0xDD05;
    pub const PHONETIC_FAMILY_NAME: u16 = 0xDD06;
    pub const EMAIL_PRIMARY: u16 = 0xDD07;
    pub const EMAIL_PERSONAL1: u16 = 0xDD08;
    pub const EMAIL_PERSONAL2: u16 = 0xDD09;
    pub const EMAIL_BUSINESS1: u16 = 0xDD0A;
    pub const EMAIL_BUSINESS2: u16 = 0xDD0B;
    pub const EMAIL_OTHERS: u16 = 0xDD0C;
    pub const PHONE_NUMBER_PRIMARY: u16 = 0xDD0D;
    pub const PHONE_NUMBER_PERSONAL: u16 = 0xDD0E;
    pub const PHONE_NUMBER_PERSONAL2: u16 = 0xDD0F;
    pub const PHONE_NUMBER_BUSINESS: u16 = 0xDD10;
    pub const PHONE_NUMBER_BUSINESS2: u16 = 0xDD11;
    pub const PHONE_NUMBER_MOBILE: u16 = 0xDD12;
    pub const PHONE_NUMBER_MOBILE2: u16 = 0xDD13;
    pub const FAX_NUMBER_PRIMARY: u16 = 0xDD14;
    pub const FAX_NUMBER_PERSONAL: u16 = 0xDD15;
    pub const FAX_NUMBER_BUSINESS: u16 = 0xDD16;
    pub const PAGER_NUMBER: u16 = 0xDD17;
    pub const PHONE_NUMBER_OTHERS: u16 = 0xDD18;
    pub const PRIMARY_WEB_ADDRESS: u16 = 0xDD19;
    pub const PERSONAL_WEB_ADDRESS: u16 = 0xDD1A;
    pub const BUSINESS_WEB_ADDRESS: u16 = 0xDD1B;
    pub const INSTANT_MESSENGER_ADDRESS: u16 = 0xDD1C;
    pub const INSTANT_MESSENGER_ADDRESS2: u16 = 0xDD1D;
    pub const INSTANT_MESSENGER_ADDRESS3: u16 = 0xDD1E;
    pub const POSTAL_ADDRESS_PERSONAL_FULL: u16 = 0xDD1F;
    pub const POSTAL_ADDRESS_PERSONAL_FULL_LINE1: u16 = 0xDD20;
    pub const POSTAL_ADDRESS_PERSONAL_FULL_LINE2: u16 = 0xDD21;
    pub const POSTAL_ADDRESS_PERSONAL_FULL_CITY: u16 = 0xDD22;
    pub const POSTAL_ADDRESS_PERSONAL_FULL_REGION: u16 = 0xDD23;
    pub const POSTAL_ADDRESS_PERSONAL_FULL_POSTAL_CODE: u16 = 0xDD24;
    pub const POSTAL_ADDRESS_PERSONAL_FULL_COUNTRY: u16 = 0xDD25;
    pub const POSTAL_ADDRESS_BUSINESS_FULL: u16 = 0xDD26;
    pub const POSTAL_ADDRESS_BUSINESS_LINE1: u16 = 0xDD27;
    pub const POSTAL_ADDRESS_BUSINESS_LINE2: u16 = 0xDD28;
    pub const POSTAL_ADDRESS_BUSINESS_CITY: u16 = 0xDD29;
    pub const POSTAL_ADDRESS_BUSINESS_REGION: u16 = 0xDD2A;
    pub const POSTAL_ADDRESS_BUSINESS_POSTAL_CODE: u16 = 0xDD2B;
    pub const POSTAL_ADDRESS_BUSINESS_COUNTRY: u16 = 0xDD2C;
    pub const POSTAL_ADDRESS_OTHER_FULL: u16 = 0xDD2D;
    pub const POSTAL_ADDRESS_OTHER_LINE1: u16 = 0xDD2E;
    pub const POSTAL_ADDRESS_OTHER_LINE2: u16 = 0xDD2F;
    pub const POSTAL_ADDRESS_OTHER_CITY: u16 = 0xDD30;
    pub const POSTAL_ADDRESS_OTHER_REGION: u16 = 0xDD31;
    pub const POSTAL_ADDRESS_OTHER_POSTAL_CODE: u16 = 0xDD32;
    pub const POSTAL_ADDRESS_OTHER_COUNTRY: u16 = 0xDD33;
    pub const ORGANIZATION_NAME: u16 = 0xDD34;
    pub const PHONETIC_ORGANIZATION_NAME: u16 = 0xDD35;
    pub const ROLE: u16 = 0xDD36;
    pub const BIRTHDATE: u16 = 0xDD37;
    pub const MESSAGE_TO: u16 = 0xDD40;
    pub const MESSAGE_CC: u16 = 0xDD41;
    pub const MESSAGE_BCC: u16 = 0xDD42;
    pub const MESSAGE_READ: u16 = 0xDD43;
    pub const MESSAGE_RECEIVED_TIME: u16 = 0xDD44;
    pub const MESSAGE_SENDER: u16 = 0xDD45;
    pub const ACTIVITY_BEGIN_TIME: u16 = 0xDD50;
    pub const ACTIVITY_END_TIME: u16 = 0xDD51;
    pub const ACTIVITY_LOCATION: u16 = 0xDD52;
    pub const ACTIVITY_REQUIRED_ATTENDEES: u16 = 0xDD54;
    pub const ACTIVITY_OPTIONAL_ATTENDEES: u16 = 0xDD55;
    pub const ACTIVITY_RESOURCES: u16 = 0xDD56;
    pub const ACTIVITY_ACCEPTED: u16 = 0xDD57;
    pub const OWNER: u16 = 0xDD5D;
    pub const EDITOR: u16 = 0xDD5E;
    pub const WEBMASTER: u16 = 0xDD5F;
    pub const URL_SOURCE: u16 = 0xDD60;
    pub const URL_DESTINATION: u16 = 0xDD61;
    pub const TIME_BOOKMARK: u16 = 0xDD62;
    pub const OBJECT_BOOKMARK: u16 = 0xDD63;
    pub const BYTE_BOOKMARK: u16 = 0xDD64;
    pub const LAST_BUILD_DATE: u16 = 0xDD70;
    pub const TIMETO_LIVE: u16 = 0xDD71;
    pub const MEDIA_GUID: u16 = 0xDD72;
    pub const TOTAL_BIT_RATE: u16 = 0xDE91;
    pub const BIT_RATE_TYPE: u16 = 0xDE92;
    pub const SAMPLE_RATE: u16 = 0xDE93;
    pub const NUMBER_OF_CHANNELS: u16 = 0xDE94;
    pub const AUDIO_BIT_DEPTH: u16 = 0xDE95;
    pub const SCAN_DEPTH: u16 = 0xDE97;
    pub const AUDIO_WAVE_CODEC: u16 = 0xDE99;
    pub const AUDIO_BIT_RATE: u16 = 0xDE9A;
    pub const VIDEO_FOUR_CC_CODEC: u16 = 0xDE9B;
    pub const VIDEO_BIT_RATE: u16 = 0xDE9C;
    pub const FRAMES_PER_THOUSAND_SECONDS: u16 = 0xDE9D;
    pub const KEY_FRAME_DISTANCE: u16 = 0xDE9E;
    pub const BUFFER_SIZE: u16 = 0xDE9F;
    pub const ENCODING_QUALITY: u16 = 0xDEA0;
    pub const ENCODING_PROFILE: u16 = 0xDEA1;

    /// The spec name of this value, or `None` where the table has none.
    pub fn name(self) -> (r: Option<&'static str>)
        ensures
            name_view(r) == object_prop_code_name(self.0),
    {
        match self.0 {
            0xB104 => Some("WirelessConfigurationFile"),
            0xD901 => Some("BuyFlag"),
            0xDC01 => Some("StorageID"),
            0xDC02 => Some("ObjectFormat"),
            0xDC03 => Some("ProtectionStatus"),
            0xDC04 => Some("ObjectSize"),
            0xDC05 => Some("AssociationType"),
            0xDC06 => Some("AssociationDesc"),
            0xDC07 => Some("ObjectFileName"),
            0xDC08 => Some("DateCreated"),
            0xDC09 => Some("DateModified"),
            0xDC0A => Some("Keywords"),
            0xDC0B => Some("ParentObject"),
            0xDC0C => Some("AllowedFolderContents"),
            0xDC0D => Some("Hidden"),
            0xDC0E => Some("SystemObject"),
            0xDC41 => Some("PersistantUniqueObjectIdentifier"),
            0xDC42 => Some("SyncID"),
            0xDC43 => Some("PropertyBag"),
            0xDC44 => Some("Name"),
            0xDC45 => Some("CreatedBy"),
            0xDC46 => Some("Artist"),
            0xDC47 => Some("DateAuthored"),
            0xDC48 => Some("Description"),
            0xDC49 => Some("URLReference"),
            0xDC4A => Some("LanguageLocale"),
            0xDC4B => Some("CopyrightInformation"),
            0xDC4C => Some("Source"),
            0xDC4D => Some("OriginLocation"),
            0xDC4E => Some("DateAdded"),
            0xDC4F => Some("NonConsumable"),
            0xDC50 => Some("CorruptOrUnplayable"),
            0xDC51 => Some("ProducerSerialNumber"),
            0xDC81 => Some("RepresentativeSampleFormat"),
            0xDC82 => Some("RepresentativeSampleSize"),
            0xDC83 => Some("RepresentativeSampleHeight"),
            0xDC84 => Some("RepresentativeSampleWidth"),
            0xDC85 => Some("RepresentativeSampleDuration"),
            0xDC86 => Some("RepresentativeSampleData"),
            0xDC87 => Some("Width"),
            0xDC88 => Some("Height"),
            0xDC89 => Some("Duration"),
            0xDC8A => Some("Rating"),
            0xDC8B => Some("Track"),
            0xDC8C => Some("Genre"),
            0xDC8D => Some("Credits"),
            0xDC8E => Some("Lyrics"),
            0xDC8F => Some("SubscriptionContentID"),
            0xDC90 => Some("ProducedBy"),
            0xDC91 => Some("UseCount"),
            0xDC92 => Some("SkipCount"),
            0xDC93 => Some("LastAccessed"),
            0xDC94 => Some("ParentalRating"),
            0xDC95 => Some("MetaGenre"),
            0xDC96 => Some("Composer"),
            0xDC97 => Some("EffectiveRating"),
            0xDC98 => Some("Subtitle"),
            0xDC99 => Some("OriginalReleaseDate"),
            0xDC9A => Some("AlbumName"),
            0xDC9B => Some("AlbumArtist"),
            0xDC9C => Some("Mood"),
            0xDC9D => Some("DRMStatus"),
            0xDC9E => Some("SubDescription"),
            0xDCD1 => Some("IsCropped"),
            0xDCD2 => Some("IsColorCorrected"),
            0xDCD3 => Some("ImageBitDepth"),
            0xDCD4 => Some("Fnumber"),
            0xDCD5 => Some("ExposureTime"),
            0xDCD6 => Some("ExposureIndex"),
            0xDCE0 => Some("DisplayName"),
            0xDCE1 => Some("BodyText"),
            0xDCE2 => Some("Subject"),
            0xDCE3 => Some("Priority"),
            0xDD00 => Some("GivenName"),
            0xDD01 => Some("MiddleNames"),
            0xDD02 => Some("FamilyName"),
            0xDD03 => Some("Prefix"),
            0xDD04 => Some("Suffix"),
            0xDD05 => Some("PhoneticGivenName"),
            0xDD06 => Some("PhoneticFamilyName"),
            0xDD07 => Some("EmailPrimary"),
            0xDD08 => Some("EmailPersonal1"),
            0xDD09 => Some("EmailPersonal2"),
            0xDD0A => Some("EmailBusiness1"),
            0xDD0B => Some("EmailBusiness2"),
            0xDD0C => Some("EmailOthers"),
            0xDD0D => Some("PhoneNumberPrimary"),
            0xDD0E => Some("PhoneNumberPersonal"),
            0xDD0F => Some("PhoneNumberPersonal2"),
            0xDD10 => Some("PhoneNumberBusiness"),
            0xDD11 => Some("PhoneNumberBusiness2"),
            0xDD12 => Some("PhoneNumberMobile"),
            0xDD13 => Some("PhoneNumberMobile2"),
            0xDD14 => Some("FaxNumberPrimary"),
            0xDD15 => Some("FaxNumberPersonal"),
            0xDD16 => Some("FaxNumberBusiness"),
            0xDD17 => Some("PagerNumber"),
            0xDD18 => Some("PhoneNumberOthers"),
            0xDD19 => Some("PrimaryWebAddress"),
            0xDD1A => Some("PersonalWebAddress"),
            0xDD1B => Some("BusinessWebAddress"),
            0xDD1C => Some("InstantMessengerAddress"),
            0xDD1D => Some("InstantMessengerAddress2"),
            0xDD1E => Some("InstantMessengerAddress3"),
            0xDD1F => Some("PostalAddressPersonalFull"),
            0xDD20 => Some("PostalAddressPersonalFullLine1"),
            0xDD21 => Some("PostalAddressPersonalFullLine2"),
            0xDD22 => Some("PostalAddressPersonalFullCity"),
            0xDD23 => Some("PostalAddressPersonalFullRegion"),
            0xDD24 => Some("PostalAddressPersonalFullPostalCode"),
            0xDD25 => Some("PostalAddressPersonalFullCountry"),
            0xDD26 => Some("PostalAddressBusinessFull"),
            0xDD27 => Some("PostalAddressBusinessLine1"),
            0xDD28 => Some("PostalAddressBusinessLine2"),
            0xDD29 => Some("PostalAddressBusinessCity"),
            0xDD2A => Some("PostalAddressBusinessRegion"),
            0xDD2B => Some("PostalAddressBusinessPostalCode"),
            0xDD2C => Some("PostalAddressBusinessCountry"),
            0xDD2D => Some("PostalAddressOtherFull"),
            0xDD2E => Some("PostalAddressOtherLine1"),
            0xDD2F => Some("PostalAddressOtherLine2"),
            0xDD30 => Some("PostalAddressOtherCity"),
            0xDD31 => Some("PostalAddressOtherRegion"),
            0xDD32 => Some("PostalAddressOtherPostalCode"),
            0xDD33 => Some("PostalAddressOtherCountry"),
            0xDD34 => Some("OrganizationName"),
            0xDD35 => Some("PhoneticOrganizationName"),
            0xDD36 => Some("Role"),
            0xDD37 => Some("Birthdate"),
            0xDD40 => Some("MessageTo"),
            0xDD41 => Some("MessageCC"),
            0xDD42 => Some("MessageBCC"),
            0xDD43 => Some("MessageRead"),
            0xDD44 => Some("MessageReceivedTime"),
            0xDD45 => Some("MessageSender"),
            0xDD50 => Some("ActivityBeginTime"),
            0xDD51 => Some("ActivityEndTime"),
            0xDD52 => Some("ActivityLocation"),
            0xDD54 => Some("ActivityRequiredAttendees"),
            0xDD55 => Some("ActivityOptionalAttendees"),
            0xDD56 => Some("ActivityResources"),
            0xDD57 => Some("ActivityAccepted"),
            0xDD5D => Some("Owner"),
            0xDD5E => Some("Editor"),
            0xDD5F => Some("Webmaster"),
            0xDD60 => Some("URLSource"),
            0xDD61 => Some("URLDestination"),
            0xDD62 => Some("TimeBookmark"),
            0xDD63 => Some("ObjectBookmark"),
            0xDD64 => Some("ByteBookmark"),
            0xDD70 => Some("LastBuildDate"),
            0xDD71 => Some("TimetoLive"),
            0xDD72 => Some("MediaGUID"),
            0xDE91 => Some("TotalBitRate"),
            0xDE92 => Some("BitRateType"),
            0xDE93 => Some("SampleRate"),
            0xDE94 => Some("NumberOfChannels"),
            0xDE95 => Some("AudioBitDepth"),
            0xDE97 => Some("ScanDepth"),
            0xDE99 => Some("AudioWAVECodec"),
            0xDE9A => Some("AudioBitRate"),
            0xDE9B => Some("VideoFourCCCodec"),
            0xDE9C => Some("VideoBitRate"),
            0xDE9D => Some("FramesPerThousandSeconds"),
            0xDE9E => Some("KeyFrameDistance"),
            0xDE9F => Some("BufferSize"),
            0xDEA0 => Some("EncodingQuality"),
            0xDEA1 => Some("EncodingProfile"),
            _ => None,
        }
    }

    /// The spec name, else the value as `0x` and 4 uppercase hex digits.
    pub fn to_string(&self) -> (s: String)
        ensures
            s@ == display16(object_prop_code_name(self.0), self.0),
    {
        match self.name() {
            Some(n) => n.to_owned(),
            None => {
                let mut s = String::new();
                s.append("0x");
                push_hex_upper_pad(&mut s, self.0 as u64, 4);
                s
            },
        }
    }
}

} // verus!
