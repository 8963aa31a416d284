//! Groups of the output with `-g2`, in an earlier and smaller cut.

use crate::parse_fn::binary::BinaryDataField;
use crate::parse_fn::datetime::ZonedDateTime;
use chrono::NaiveDateTime;
use vstd::prelude::*;

verus! {

/// The group `ExifTool`.
#[derive(Debug)]
pub struct ExifToolData {
    pub exif_tool_version: Option<String>,
}

/// The group `Location`.
#[derive(Debug)]
pub struct LocationData {
    /// The tag `GPSAltitudeRef`.
    pub gps_altitude_ref: Option<String>,
}

/// The group `Other`.
#[derive(Debug)]
pub struct OtherData {
    pub directory: Option<String>,
    pub file_name: Option<String>,
    pub file_permissions: Option<String>,
    /// The size as the process writes it, with its unit.
    pub file_size: Option<String>,
    pub file_type: Option<String>,
    pub file_type_extension: Option<String>,
    /// The tag `MIMEType`.
    pub mime_type: Option<String>,
    pub zone_identifier: Option<String>,
    pub album: Option<String>,
    pub artist: Option<String>,
    pub comment: Option<String>,
}

/// The group `Preview`.
#[derive(Debug)]
pub struct PreviewData {
    pub thumbnail_image: Option<BinaryDataField>,
    pub picture: Option<BinaryDataField>,
    pub cover_art: Option<BinaryDataField>,
}

/// The group `Author`.
#[derive(Debug)]
pub struct AuthorData {
    pub artist: Option<String>,
    pub creator: Option<String>,
    pub album_artist: Option<String>,
}

/// The group `Document`.
#[derive(Debug)]
pub struct DocumentData {
    /// The tag `XMPToolkit`.
    pub xmp_toolkit: Option<String>,
}

/// The group `Time`.
#[derive(Debug)]
pub struct TimeData {
    pub create_date: Option<NaiveDateTime>,
    pub date_time_original: Option<NaiveDateTime>,
    pub file_access_date: Option<ZonedDateTime>,
    pub file_create_date: Option<ZonedDateTime>,
    pub modify_date: Option<NaiveDateTime>,
    pub profile_date_time: Option<NaiveDateTime>,
    pub sub_sec_create_date: Option<NaiveDateTime>,
    pub sub_sec_date_time_original: Option<NaiveDateTime>,
    pub sub_sec_modify_date: Option<NaiveDateTime>,
    pub sub_sec_time: Option<u32>,
    pub sub_sec_time_digitized: Option<u32>,
    pub sub_sec_time_original: Option<u32>,
    pub track_create_date: Option<NaiveDateTime>,
    pub track_modify_date: Option<NaiveDateTime>,
    pub media_create_date: Option<NaiveDateTime>,
    pub media_modify_date: Option<NaiveDateTime>,
    pub metadata_date: Option<ZonedDateTime>,
    pub content_create_date: Option<i32>,
}

} // verus!
