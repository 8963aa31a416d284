//! Dates and times, which the process writes in several layouts.
//!
//! The layouts are given in the format language of `chrono`, and `chrono`
//! does the reading. What is decided here is which layouts are tried, and in
//! which order.

use vstd::prelude::*;
use vstd::string::*;

verus! {

/// A calendar date of `chrono`.
#[verifier::external_type_specification]
#[verifier::external_body]
pub struct ExNaiveDate(chrono::NaiveDate);

/// A date and time of day of `chrono`, without a time zone.
#[verifier::external_type_specification]
#[verifier::external_body]
pub struct ExNaiveDateTime(chrono::NaiveDateTime);

/// A time of day of `chrono`.
#[verifier::external_type_specification]
#[verifier::external_body]
pub struct ExNaiveTime(chrono::NaiveTime);

/// A date and time of day together with the offset from UTC at which it was
/// written down.
#[derive(Debug)]
pub struct ZonedDateTime {
    /// The date and time of day as written, in local time.
    pub local: chrono::NaiveDateTime,
    /// The offset of local time from UTC in seconds, east of Greenwich
    /// counted as positive.
    pub offset_seconds: i32,
}

/// What a text turned out to be.
#[derive(Debug)]
pub enum MaybeDateTime {
    /// A date and time of day without an offset.
    Naive(chrono::NaiveDateTime),
    /// A date and time of day with an offset from UTC.
    Zoned(ZonedDateTime),
    /// A date alone.
    Date(chrono::NaiveDate),
    /// None of these: the text as it was.
    NotParsed(String),
}

/// What `chrono` reads `text` as under `format`, as a date: `None` where the
/// text does not fit the format or names no date.
pub uninterp spec fn date_reading(text: Seq<char>, format: Seq<char>) -> Option<chrono::NaiveDate>;

/// As `date_reading`, for a date and time of day.
pub uninterp spec fn moment_reading(text: Seq<char>, format: Seq<char>) -> Option<
    chrono::NaiveDateTime,
>;

/// As `date_reading`, for a time of day.
pub uninterp spec fn time_reading(text: Seq<char>, format: Seq<char>) -> Option<chrono::NaiveTime>;

/// As `date_reading`, for a date and time of day with an offset from UTC.
pub uninterp spec fn zoned_reading(text: Seq<char>, format: Seq<char>) -> Option<ZonedDateTime>;

/// Reads a date with `chrono::NaiveDate::parse_from_str`. The result depends
/// on the two texts alone.
#[verifier::external_body]
pub(crate) fn read_date(text: &str, format: &str) -> (read: Option<chrono::NaiveDate>)
    ensures
        read == date_reading(text@, format@),
{
    chrono::NaiveDate::parse_from_str(text, format).ok()
}

/// Reads a date and time of day with `chrono::NaiveDateTime::parse_from_str`.
/// The result depends on the two texts alone.
#[verifier::external_body]
pub(crate) fn read_moment(text: &str, format: &str) -> (read: Option<chrono::NaiveDateTime>)
    ensures
        read == moment_reading(text@, format@),
{
    chrono::NaiveDateTime::parse_from_str(text, format).ok()
}

/// Reads a time of day with `chrono::NaiveTime::parse_from_str`. The result
/// depends on the two texts alone.
#[verifier::external_body]
pub(crate) fn read_time(text: &str, format: &str) -> (read: Option<chrono::NaiveTime>)
    ensures
        read == time_reading(text@, format@),
{
    chrono::NaiveTime::parse_from_str(text, format).ok()
}

/// Reads a date and time of day with its offset with
/// `chrono::DateTime::parse_from_str`, and takes the result apart with
/// `naive_local` and `local_minus_utc`. The result depends on the two texts
/// alone.
#[verifier::external_body]
pub(crate) fn read_zoned(text: &str, format: &str) -> (read: Option<ZonedDateTime>)
    ensures
        read == zoned_reading(text@, format@),
{
    chrono::DateTime::parse_from_str(text, format).ok().map(
        |moment| ZonedDateTime {
            local: moment.naive_local(),
            offset_seconds: moment.offset().local_minus_utc(),
        },
    )
}

/// The first reading with an offset that succeeds, over the four layouts
/// with an offset: with a fraction of a second and a colon in the offset,
/// without the fraction, and the same two with any form of offset.
pub open spec fn first_zoned(text: Seq<char>) -> Option<ZonedDateTime> {
    if zoned_reading(text, "%Y:%m:%d %H:%M:%S%.f%:z"@) is Some {
        zoned_reading(text, "%Y:%m:%d %H:%M:%S%.f%:z"@)
    } else if zoned_reading(text, "%Y:%m:%d %H:%M:%S%:z"@) is Some {
        zoned_reading(text, "%Y:%m:%d %H:%M:%S%:z"@)
    } else if zoned_reading(text, "%Y:%m:%d %H:%M:%S%.f%#z"@) is Some {
        zoned_reading(text, "%Y:%m:%d %H:%M:%S%.f%#z"@)
    } else {
        zoned_reading(text, "%Y:%m:%d %H:%M:%S%#z"@)
    }
}

/// The first reading without an offset that succeeds: with a fraction of a
/// second, then without.
pub open spec fn first_moment(text: Seq<char>) -> Option<chrono::NaiveDateTime> {
    if moment_reading(text, "%Y:%m:%d %H:%M:%S%.f"@) is Some {
        moment_reading(text, "%Y:%m:%d %H:%M:%S%.f"@)
    } else {
        moment_reading(text, "%Y:%m:%d %H:%M:%S"@)
    }
}

/// What a text is taken for: the first of a reading with an offset, a
/// reading without, and a date alone that succeeds, or the text itself.
pub open spec fn guessed(text: Seq<char>) -> MaybeDateTimeView {
    if first_zoned(text) is Some {
        MaybeDateTimeView::Zoned(first_zoned(text)->Some_0)
    } else if first_moment(text) is Some {
        MaybeDateTimeView::Naive(first_moment(text)->Some_0)
    } else if date_reading(text, "%Y:%m:%d"@) is Some {
        MaybeDateTimeView::Date(date_reading(text, "%Y:%m:%d"@)->Some_0)
    } else {
        MaybeDateTimeView::NotParsed(text)
    }
}

/// A `MaybeDateTime` as contracts speak of it.
pub enum MaybeDateTimeView {
    Naive(chrono::NaiveDateTime),
    Zoned(ZonedDateTime),
    Date(chrono::NaiveDate),
    NotParsed(Seq<char>),
}

impl View for MaybeDateTime {
    type V = MaybeDateTimeView;

    open spec fn view(&self) -> MaybeDateTimeView {
        match self {
            MaybeDateTime::Naive(moment) => MaybeDateTimeView::Naive(*moment),
            MaybeDateTime::Zoned(moment) => MaybeDateTimeView::Zoned(*moment),
            MaybeDateTime::Date(date) => MaybeDateTimeView::Date(*date),
            MaybeDateTime::NotParsed(text) => MaybeDateTimeView::NotParsed(text@),
        }
    }
}

/// Takes a text for a date and time as far as it can be read as one.
pub fn guess_datetime(text: &str) -> (guess: MaybeDateTime)
    ensures
        guess@ == guessed(text@),
{
    if let Some(zoned) = read_zoned(text, "%Y:%m:%d %H:%M:%S%.f%:z") {
        return MaybeDateTime::Zoned(zoned);
    }
    if let Some(zoned) = read_zoned(text, "%Y:%m:%d %H:%M:%S%:z") {
        return MaybeDateTime::Zoned(zoned);
    }
    if let Some(zoned) = read_zoned(text, "%Y:%m:%d %H:%M:%S%.f%#z") {
        return MaybeDateTime::Zoned(zoned);
    }
    if let Some(zoned) = read_zoned(text, "%Y:%m:%d %H:%M:%S%#z") {
        return MaybeDateTime::Zoned(zoned);
    }
    if let Some(naive) = read_moment(text, "%Y:%m:%d %H:%M:%S%.f") {
        return MaybeDateTime::Naive(naive);
    }
    if let Some(naive) = read_moment(text, "%Y:%m:%d %H:%M:%S") {
        return MaybeDateTime::Naive(naive);
    }
    if let Some(date) = read_date(text, "%Y:%m:%d") {
        return MaybeDateTime::Date(date);
    }
    MaybeDateTime::NotParsed(String::from_str(text))
}

/// The text holds no date and time of the layout asked for.
#[derive(Debug, PartialEq, Eq)]
pub struct NotRead;

/// Reads a text, where there is one, as a date and time of day with any form
/// of offset from UTC. A text that is none is an error.
pub fn parse_fixed_datetime(text: Option<&str>) -> (read: Result<Option<ZonedDateTime>, NotRead>)
    ensures
        text is None ==> read is Ok && read->Ok_0 is None,
        text is Some && zoned_reading(text->Some_0@, "%Y:%m:%d %H:%M:%S%#z"@) is Some ==> read
            is Ok && read->Ok_0 == zoned_reading(text->Some_0@, "%Y:%m:%d %H:%M:%S%#z"@),
        text is Some && zoned_reading(text->Some_0@, "%Y:%m:%d %H:%M:%S%#z"@) is None ==> read
            is Err,
{
    match text {
        None => Ok(None),
        Some(text) => match read_zoned(text, "%Y:%m:%d %H:%M:%S%#z") {
            Some(moment) => Ok(Some(moment)),
            None => Err(NotRead),
        },
    }
}

/// Reads a text, where there is one, as a date and time of day to the
/// second. A text that is none is an error.
pub fn parse_naive_datetime(text: Option<&str>) -> (read: Result<
    Option<chrono::NaiveDateTime>,
    NotRead,
>)
    ensures
        text is None ==> read is Ok && read->Ok_0 is None,
        text is Some && moment_reading(text->Some_0@, "%Y:%m:%d %H:%M:%S"@) is Some ==> read is Ok
            && read->Ok_0 == moment_reading(text->Some_0@, "%Y:%m:%d %H:%M:%S"@),
        text is Some && moment_reading(text->Some_0@, "%Y:%m:%d %H:%M:%S"@) is None ==> read
            is Err,
{
    match text {
        None => Ok(None),
        Some(text) => match read_moment(text, "%Y:%m:%d %H:%M:%S") {
            Some(moment) => Ok(Some(moment)),
            None => Err(NotRead),
        },
    }
}

/// Reads a text, where there is one, as a date and time of day with a
/// fraction of a second. A text that is none is an error.
pub fn parse_naive_datetime_with_subsec(text: Option<&str>) -> (read: Result<
    Option<chrono::NaiveDateTime>,
    NotRead,
>)
    ensures
        text is None ==> read is Ok && read->Ok_0 is None,
        text is Some && moment_reading(text->Some_0@, "%Y:%m:%d %H:%M:%S%.f"@) is Some ==> read
            is Ok && read->Ok_0 == moment_reading(text->Some_0@, "%Y:%m:%d %H:%M:%S%.f"@),
        text is Some && moment_reading(text->Some_0@, "%Y:%m:%d %H:%M:%S%.f"@) is None ==> read
            is Err,
{
    match text {
        None => Ok(None),
        Some(text) => match read_moment(text, "%Y:%m:%d %H:%M:%S%.f") {
            Some(moment) => Ok(Some(moment)),
            None => Err(NotRead),
        },
    }
}

} // verus!
