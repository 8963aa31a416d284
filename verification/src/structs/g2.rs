//! Groups of the output with `-g2`, which sorts the tags by subject.

use crate::parse_fn::datetime::MaybeDateTime;
use chrono::NaiveTime;
use vstd::prelude::*;

verus! {

/// The group `Author`.
#[derive(Debug, Clone)]
pub struct AuthorMetadata {
    pub author: Option<String>,
    pub copyright: Option<String>,
}

/// The group `Document`.
#[derive(Debug, Clone)]
pub struct DocumentMetadata {
    /// The tag `XMPToolkit`.
    pub xmp_toolkit: Option<String>,
}

/// The group `Preview`. Each field holds the placeholder that the process
/// writes for an embedded image, not the image.
#[derive(Debug, Clone)]
pub struct PreviewMetadata {
    pub confidence_map_image: Option<String>,
    pub depth_map_image: Option<String>,
    pub gain_map_image: Option<String>,
    /// The tag `MPImage2`.
    pub mp_image2: Option<String>,
    pub original_image: Option<String>,
    pub thumbnail_image: Option<String>,
}

/// The group `Unknown`.
#[derive(Debug, Clone)]
pub struct UnknownMetadata {
    pub camera_id: Option<u32>,
    pub camera_mode: Option<String>,
    pub capture_mode: Option<String>,
    pub is_hdr_active: Option<bool>,
    pub is_night_mode_active: Option<bool>,
    pub lens_facing: Option<String>,
    pub model: Option<String>,
    pub scene: Option<String>,
    pub scene_detect_result_confidences: Option<String>,
    pub scene_detect_result_ids: Option<String>,
    pub software: Option<String>,
    pub stable_option: Option<u32>,
}

/// The group `Time`. A date or a time is held as far as it could be read as
/// one.
#[derive(Debug)]
pub struct TimeMetadata {
    pub create_date: Option<MaybeDateTime>,
    pub date_created: Option<MaybeDateTime>,
    pub date_time_created: Option<MaybeDateTime>,
    pub date_time_original: Option<MaybeDateTime>,
    pub file_access_date: Option<MaybeDateTime>,
    pub file_create_date: Option<MaybeDateTime>,
    pub file_modify_date: Option<MaybeDateTime>,
    pub first_photo_date: Option<MaybeDateTime>,
    pub gps_date_stamp: Option<MaybeDateTime>,
    pub gps_date_time: Option<MaybeDateTime>,
    pub gps_time_stamp: Option<NaiveTime>,
    pub last_photo_date: Option<MaybeDateTime>,
    pub media_create_date: Option<MaybeDateTime>,
    pub media_modify_date: Option<MaybeDateTime>,
    pub modify_date: Option<MaybeDateTime>,
    pub offset_time: Option<String>,
    pub offset_time_digitized: Option<String>,
    pub offset_time_original: Option<String>,
    pub profile_date_time: Option<MaybeDateTime>,
    pub sub_sec_create_date: Option<MaybeDateTime>,
    pub sub_sec_date_time_original: Option<MaybeDateTime>,
    pub sub_sec_modify_date: Option<MaybeDateTime>,
    pub sub_sec_time: Option<String>,
    pub sub_sec_time_digitized: Option<String>,
    pub sub_sec_time_original: Option<String>,
    pub time_created: Option<String>,
    pub track_create_date: Option<MaybeDateTime>,
    pub track_modify_date: Option<MaybeDateTime>,
}

} // verus!
