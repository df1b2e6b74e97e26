//! The display version and release date of an app version, read from the
//! `Info.plist` of its archive.
use vstd::prelude::*;
use crate::error::{ErrorView, IpaToolError, missing_data, res_view, unexpected};
use crate::text::{chars_of, concat, i128_to_string, signed_decimal, trim, trim_str};
use crate::zipdir::{RemoteZipEntry, ZipDateTime};

verus! {

/// A property-list value as far as the version logic reads it. A real number
/// is held by its decimal text and by its whole part, which is there only
/// when the number is finite.
#[derive(Debug, Clone)]
pub enum PlistScalar {
    String(String),
    Integer(i128),
    Real { text: String, whole: Option<i64> },
    Boolean(bool),
    Date(String),
    Other,
}

/// One key of a property-list dictionary and its value.
#[derive(Debug, Clone)]
pub struct PlistEntry {
    pub key: String,
    pub value: PlistScalar,
}

/// What a version of an app reports about itself.
#[derive(Debug, Clone)]
pub struct VersionMetadata {
    pub display_version: String,
    pub release_date: String,
}

/// The position of the first entry of `d` with key `k`, if there is one.
pub open spec fn find_key(d: Seq<PlistEntry>, k: Seq<char>) -> Option<int>
    decreases d.len(),
{
    if d.len() == 0 {
        None
    } else {
        match find_key(d.drop_last(), k) {
            Some(i) => Some(i),
            None => if d.last().key@ == k {
                Some(d.len() - 1)
            } else {
                None
            },
        }
    }
}

/// A position `find_key` gives is inside the dictionary and holds the key.
pub proof fn lemma_find_key_bounds(d: Seq<PlistEntry>, k: Seq<char>)
    ensures
        find_key(d, k) matches Some(i) ==> 0 <= i < d.len() && d[i].key@ == k,
        find_key(d, k) matches Some(i) ==> forall|j: int| 0 <= j < i ==> d[j].key@ != k,
        find_key(d, k) is None ==> forall|j: int| 0 <= j < d.len() ==> d[j].key@ != k,
    decreases d.len(),
{
    if d.len() > 0 {
        let p = d.drop_last();
        lemma_find_key_bounds(p, k);
        assert forall|j: int| 0 <= j < p.len() implies p[j] == d[j] by {}
    }
}

/// The position of the first entry whose key is `key`.
pub fn lookup(d: &Vec<PlistEntry>, key: &str) -> (r: Option<usize>)
    ensures
        match r {
            Some(i) => find_key(d@, key@) == Some(i as int),
            None => find_key(d@, key@) is None,
        },
{
    let mut i: usize = 0;
    while i < d.len()
        invariant
            i <= d@.len(),
            find_key(d@.subrange(0, i as int), key@) is None,
        decreases d@.len() - i,
    {
        let ghost pre = d@.subrange(0, i as int + 1);
        assert(pre.drop_last() =~= d@.subrange(0, i as int));
        if crate::text::str_eq(d[i].key.as_str(), key) {
            proof {
                assert(find_key(pre, key@) == Some(i as int));
                lemma_find_key_prefix(d@, i as int + 1, key@);
            }
            return Some(i);
        }
        i = i + 1;
    }
    assert(d@.subrange(0, d@.len() as int) =~= d@);
    None
}

proof fn lemma_find_key_prefix(d: Seq<PlistEntry>, n: int, k: Seq<char>)
    requires
        0 <= n <= d.len(),
        find_key(d.subrange(0, n), k) is Some,
    ensures
        find_key(d, k) == find_key(d.subrange(0, n), k),
    decreases d.len() - n,
{
    if n < d.len() {
        let t = d.subrange(0, n + 1);
        assert(t.drop_last() =~= d.subrange(0, n));
        lemma_find_key_prefix(d, n + 1, k);
    } else {
        assert(d.subrange(0, n) =~= d);
    }
}

/// The text that a value gives when it is shown as a version.
pub open spec fn scalar_text(v: PlistScalar) -> Seq<char> {
    match v {
        PlistScalar::String(s) => s@,
        PlistScalar::Integer(i) => signed_decimal(i as int),
        PlistScalar::Real { text, whole: _ } => text@,
        PlistScalar::Boolean(b) => if b {
            "true"@
        } else {
            "false"@
        },
        _ => Seq::empty(),
    }
}

fn scalar_to_string(v: &PlistScalar) -> (s: String)
    ensures
        s@ == scalar_text(*v),
{
    match v {
        PlistScalar::String(s) => s.clone(),
        PlistScalar::Integer(i) => i128_to_string(*i),
        PlistScalar::Real { text, whole: _ } => text.clone(),
        PlistScalar::Boolean(b) => if *b {
            String::from_str("true")
        } else {
            String::from_str("false")
        },
        _ => String::new(),
    }
}

/// The display version: the first of `CFBundleShortVersionString` and
/// `bundleShortVersionString` that is present, shown as text and trimmed;
/// present but blank is an error naming the key.
pub open spec fn display_version_spec(d: Seq<PlistEntry>) -> Result<Seq<char>, ErrorView> {
    let k1 = "CFBundleShortVersionString"@;
    let k2 = "bundleShortVersionString"@;
    match find_key(d, k1) {
        Some(i) => {
            let t = trim(scalar_text(d[i].value));
            if t.len() == 0 {
                Err(ErrorView::MissingData { thing: k1 })
            } else {
                Ok(t)
            }
        },
        None => match find_key(d, k2) {
            Some(i) => {
                let t = trim(scalar_text(d[i].value));
                if t.len() == 0 {
                    Err(ErrorView::MissingData { thing: k2 })
                } else {
                    Ok(t)
                }
            },
            None => Err(ErrorView::MissingData { thing: "Info.plist display version"@ }),
        },
    }
}

/// The version string that an app's `Info.plist` shows to users.
pub fn display_version(metadata: &Vec<PlistEntry>) -> (r: Result<String, IpaToolError>)
    ensures
        match r {
            Ok(s) => display_version_spec(metadata@) == Ok::<Seq<char>, ErrorView>(s@),
            Err(e) => display_version_spec(metadata@) == Err::<Seq<char>, ErrorView>(e@),
        },
{
    let keys = ["CFBundleShortVersionString", "bundleShortVersionString"];
    let mut k: usize = 0;
    while k < 2
        invariant
            keys@ == seq!["CFBundleShortVersionString", "bundleShortVersionString"],
            k <= 2,
            k >= 1 ==> find_key(metadata@, "CFBundleShortVersionString"@) is None,
            k >= 2 ==> find_key(metadata@, "bundleShortVersionString"@) is None,
        decreases 2 - k,
    {
        let key = keys[k];
        match lookup(metadata, key) {
            None => {},
            Some(i) => {
                proof {
                    lemma_find_key_bounds(metadata@, key@);
                }
                let value = scalar_to_string(&metadata[i].value);
                let value = trim_str(value.as_str());
                let c = chars_of(value.as_str());
                if c.len() == 0 {
                    return Err(missing_data(key));
                }
                return Ok(value);
            },
        }
        k = k + 1;
    }
    Err(missing_data("Info.plist display version"))
}

// ---------------------------------------------------------------------------
// Dates, through the `time` crate. An instant is held as nanoseconds since
// the Unix epoch.
// ---------------------------------------------------------------------------

/// The instant that `OffsetDateTime::parse` reads from RFC 3339 text.
pub uninterp spec fn rfc3339_instant(s: Seq<char>) -> Option<i128>;

/// Midnight UTC of the date that `Date::parse` reads from `s` with the
/// format that `description` describes.
pub uninterp spec fn calendar_date_midnight(s: Seq<char>, description: Seq<char>) -> Option<i128>;

/// The first and the last second that the `time` crate holds: the start of
/// the year -9999 and the end of the year 9999, in UTC.
pub open spec fn min_unix_timestamp() -> int {
    -377_705_116_800
}

pub open spec fn max_unix_timestamp() -> int {
    253_402_300_799
}

/// The instant that `OffsetDateTime::from_unix_timestamp` makes of a count
/// of seconds: that many whole seconds, for a count within the dates the
/// crate holds.
pub open spec fn unix_timestamp_instant(ts: i64) -> Option<i128> {
    if min_unix_timestamp() <= ts && ts <= max_unix_timestamp() {
        Some((ts * 1_000_000_000) as i128)
    } else {
        None
    }
}

/// The leap years of the proleptic Gregorian calendar.
pub open spec fn gregorian_leap_year(year: int) -> bool {
    year % 4 == 0 && (year % 100 != 0 || year % 400 == 0)
}

/// The days of a month of the proleptic Gregorian calendar.
pub open spec fn gregorian_days_in_month(year: int, month: int) -> int {
    if month == 2 {
        if gregorian_leap_year(year) {
            29
        } else {
            28
        }
    } else if month == 4 || month == 6 || month == 9 || month == 11 {
        30
    } else {
        31
    }
}

/// Whether `Date::from_calendar_date` accepts a year, month and day: the
/// year within -9999 to 9999, and the day within its month.
pub open spec fn calendar_date_exists(year: int, month: int, day: int) -> bool {
    -9999 <= year <= 9999 && 1 <= day <= gregorian_days_in_month(year, month)
}

/// The days from 1970-01-01 to a date of the proleptic Gregorian calendar,
/// counted in whole cycles of 400 years from 1 March of the year 0.
pub open spec fn days_from_civil(year: int, month: int, day: int) -> int {
    let y = if month <= 2 {
        year - 1
    } else {
        year
    };
    let era = y / 400;
    let year_of_era = y - era * 400;
    let shifted_month = if month > 2 {
        month - 3
    } else {
        month + 9
    };
    let day_of_year = (153 * shifted_month + 2) / 5 + day - 1;
    let day_of_era = year_of_era * 365 + year_of_era / 4 - year_of_era / 100 + day_of_year;
    era * 146097 + day_of_era - 719468
}

/// The instant, in nanoseconds since the Unix epoch, of a calendar date and
/// time of day in UTC.
pub open spec fn civil_utc_instant(
    year: int,
    month: int,
    day: int,
    hour: int,
    minute: int,
    second: int,
) -> i128 {
    ((days_from_civil(year, month, day) * 86400 + hour * 3600 + minute * 60 + second)
        * 1_000_000_000) as i128
}

/// A time of day whose hour, minute and second are in range.
pub open spec fn time_of_day_ok(hour: int, minute: int, second: int) -> bool {
    0 <= hour < 24 && 0 <= minute < 60 && 0 <= second < 60
}

/// The RFC 3339 text of an instant, in UTC.
pub uninterp spec fn rfc3339_text(nanos: i128) -> Option<Seq<char>>;

/// `OffsetDateTime::parse(s, &Rfc3339)`, taken as an instant.
#[verifier::external_body]
fn parse_rfc3339(s: &str) -> (r: Option<i128>)
    ensures
        r == rfc3339_instant(s@),
{
    time::OffsetDateTime::parse(s, &time::format_description::well_known::Rfc3339).ok().map(
        |d| d.unix_timestamp_nanos(),
    )
}

/// `Date::parse` with the format that `description` describes, taken as
/// midnight UTC of that date; a description that does not parse gives no
/// date.
#[verifier::external_body]
fn parse_calendar_date(s: &str, description: &str) -> (r: Option<i128>)
    ensures
        r == calendar_date_midnight(s@, description@),
{
    let format = time::format_description::parse(description).ok()?;
    time::Date::parse(s, &format).ok().map(
        |d| time::PrimitiveDateTime::new(d, time::Time::MIDNIGHT).assume_utc().unix_timestamp_nanos(),
    )
}

/// The long English form of a date, such as `Monday, May 6, 2024`.
pub const LONG_DATE_FORMAT: &'static str =
    "[weekday repr:long], [month repr:long] [day padding:none], [year]";

/// The numeric form of a date, such as `2024-05-06`.
pub const SHORT_DATE_FORMAT: &'static str = "[year]-[month]-[day]";

/// `OffsetDateTime::from_unix_timestamp`, taken as an instant: when it
/// accepts the count of seconds, the instant is that many whole seconds.
#[verifier::external_body]
fn instant_from_unix_timestamp(ts: i64) -> (r: Option<i128>)
    ensures
        r == unix_timestamp_instant(ts),
{
    time::OffsetDateTime::from_unix_timestamp(ts).ok().map(|d| d.unix_timestamp_nanos())
}

/// Which step of building a date from its parts refused them.
#[derive(Debug, Clone)]
pub enum CivilInstant {
    Instant(i128),
    BadMonth,
    BadDate,
    BadTime,
}

/// `Month::try_from`, `Date::from_calendar_date` and `Time::from_hms`, then
/// `PrimitiveDateTime::new(..).assume_utc()`; the step that refuses its
/// input is told apart. As the `time` documentation says, a month is refused
/// outside 1 to 12, and a time of day when the hour is over 23 or the minute
/// or second over 59; a date exists as `calendar_date_exists` says, and the
/// instant is `civil_utc_instant`, as in the crate's source.
#[verifier::external_body]
fn instant_from_parts(year: i32, month: u8, day: u8, hour: u8, minute: u8, second: u8)
    -> (r: CivilInstant)
    ensures
        r is BadMonth <==> !(1 <= month <= 12),
        r is BadDate ==> !calendar_date_exists(year as int, month as int, day as int),
        (r is BadTime || r is Instant) ==> calendar_date_exists(
            year as int,
            month as int,
            day as int,
        ),
        r is BadTime ==> !time_of_day_ok(hour as int, minute as int, second as int),
        r is Instant ==> time_of_day_ok(hour as int, minute as int, second as int),
        r matches CivilInstant::Instant(n) ==> n == civil_utc_instant(
            year as int,
            month as int,
            day as int,
            hour as int,
            minute as int,
            second as int,
        ),
{
    let Ok(m) = time::Month::try_from(month) else { return CivilInstant::BadMonth };
    let Ok(date) = time::Date::from_calendar_date(year, m, day) else {
        return CivilInstant::BadDate;
    };
    let Ok(t) = time::Time::from_hms(hour, minute, second) else { return CivilInstant::BadTime };
    CivilInstant::Instant(time::PrimitiveDateTime::new(date, t).assume_utc().unix_timestamp_nanos())
}

/// `OffsetDateTime::from_unix_timestamp_nanos(..).format(&Rfc3339)`; the
/// text is named, the error message is not stated.
#[verifier::external_body]
fn format_rfc3339(nanos: i128) -> (r: Result<String, String>)
    ensures
        r matches Ok(s) ==> rfc3339_text(nanos) == Some(s@),
        r is Err ==> rfc3339_text(nanos) is None,
{
    match time::OffsetDateTime::from_unix_timestamp_nanos(nanos) {
        Ok(d) => d.format(&time::format_description::well_known::Rfc3339).map_err(|e| e.to_string()),
        Err(e) => Err(e.to_string()),
    }
}

/// The first of the readings of the trimmed text `t` that succeeded: as
/// RFC 3339, as a long English date, as `year-month-day`.
pub open spec fn first_reading(
    t: Seq<char>,
    rfc3339: Option<i128>,
    long_date: Option<i128>,
    short_date: Option<i128>,
) -> Result<i128, ErrorView> {
    match rfc3339 {
        Some(n) => Ok(n),
        None => match long_date {
            Some(n) => Ok(n),
            None => match short_date {
                Some(n) => Ok(n),
                None => Err(ErrorView::Unexpected("invalid release date: "@ + t)),
            },
        },
    }
}

/// A release date written as RFC 3339, as a long English date or as
/// `year-month-day`; the last two mean midnight UTC.
pub open spec fn release_date_string_spec(s: Seq<char>) -> Result<i128, ErrorView> {
    let t = trim(s);
    first_reading(
        t,
        rfc3339_instant(t),
        calendar_date_midnight(t, LONG_DATE_FORMAT@),
        calendar_date_midnight(t, SHORT_DATE_FORMAT@),
    )
}

/// Picks the release date from the readings of the trimmed text `t`.
pub fn pick_release_date(
    t: &str,
    rfc3339: Option<i128>,
    long_date: Option<i128>,
    short_date: Option<i128>,
) -> (r: Result<i128, IpaToolError>)
    ensures
        res_view(r) == first_reading(t@, rfc3339, long_date, short_date),
{
    if let Some(n) = rfc3339 {
        return Ok(n);
    }
    if let Some(n) = long_date {
        return Ok(n);
    }
    if let Some(n) = short_date {
        return Ok(n);
    }
    Err(IpaToolError::Unexpected(concat("invalid release date: ", t)))
}

/// The instant a release date string stands for.
pub fn parse_release_date_string(value: &str) -> (r: Result<i128, IpaToolError>)
    ensures
        res_view(r) == release_date_string_spec(value@),
{
    let t = trim_str(value);
    let rfc3339 = parse_rfc3339(t.as_str());
    let long_date = parse_calendar_date(t.as_str(), LONG_DATE_FORMAT);
    let short_date = parse_calendar_date(t.as_str(), SHORT_DATE_FORMAT);
    pick_release_date(t.as_str(), rfc3339, long_date, short_date)
}

pub open spec fn bad_timestamp() -> ErrorView {
    ErrorView::Unexpected("invalid release date timestamp"@)
}

/// The instant a release-date value stands for: a date or a string is
/// parsed, an integer or a finite real is a Unix timestamp in seconds.
pub open spec fn release_date_value_spec(v: PlistScalar) -> Result<i128, ErrorView> {
    match v {
        PlistScalar::Date(s) => release_date_string_spec(s@),
        PlistScalar::String(s) => release_date_string_spec(s@),
        PlistScalar::Integer(i) => if i64::MIN <= i <= i64::MAX {
            match unix_timestamp_instant(i as i64) {
                Some(n) => Ok(n),
                None => Err(bad_timestamp()),
            }
        } else {
            Err(bad_timestamp())
        },
        PlistScalar::Real { text: _, whole: Some(w) } => match unix_timestamp_instant(w) {
            Some(n) => Ok(n),
            None => Err(bad_timestamp()),
        },
        _ => Err(ErrorView::Unexpected("unsupported release date value"@)),
    }
}

/// The release date that a property-list value gives.
pub fn release_date_from_value(value: &PlistScalar) -> (r: Result<i128, IpaToolError>)
    ensures
        res_view(r) == release_date_value_spec(*value),
{
    match value {
        PlistScalar::Date(s) => parse_release_date_string(s.as_str()),
        PlistScalar::String(s) => parse_release_date_string(s.as_str()),
        PlistScalar::Integer(i) => {
            if *i < i64::MIN as i128 || *i > i64::MAX as i128 {
                return Err(unexpected("invalid release date timestamp"));
            }
            match instant_from_unix_timestamp(*i as i64) {
                Some(n) => Ok(n),
                None => Err(unexpected("invalid release date timestamp")),
            }
        },
        PlistScalar::Real { text: _, whole: Some(w) } => match instant_from_unix_timestamp(*w) {
            Some(n) => Ok(n),
            None => Err(unexpected("invalid release date timestamp")),
        },
        _ => Err(unexpected("unsupported release date value")),
    }
}

/// The instant of a ZIP modification time, read as UTC, or the first of
/// month, date and time of day that is out of range.
pub open spec fn zip_modified_spec(t: ZipDateTime) -> Result<i128, ErrorView> {
    if !(1 <= t.month <= 12) {
        Err(ErrorView::Unexpected("invalid ZIP modification month"@))
    } else if !calendar_date_exists(t.year as int, t.month as int, t.day as int) {
        Err(ErrorView::Unexpected("invalid ZIP modification date"@))
    } else if !time_of_day_ok(t.hour as int, t.minute as int, t.second as int) {
        Err(ErrorView::Unexpected("invalid ZIP modification time"@))
    } else {
        Ok(
            civil_utc_instant(
                t.year as int,
                t.month as int,
                t.day as int,
                t.hour as int,
                t.minute as int,
                t.second as int,
            ),
        )
    }
}

/// What the steps of building a date from the ZIP fields come to.
pub fn settle_civil(c: CivilInstant) -> (r: Result<i128, IpaToolError>)
    ensures
        match c {
            CivilInstant::Instant(n) => r == Ok::<i128, IpaToolError>(n),
            CivilInstant::BadMonth => res_view(r) == Err::<i128, ErrorView>(
                ErrorView::Unexpected("invalid ZIP modification month"@),
            ),
            CivilInstant::BadDate => res_view(r) == Err::<i128, ErrorView>(
                ErrorView::Unexpected("invalid ZIP modification date"@),
            ),
            CivilInstant::BadTime => res_view(r) == Err::<i128, ErrorView>(
                ErrorView::Unexpected("invalid ZIP modification time"@),
            ),
        },
{
    match c {
        CivilInstant::Instant(n) => Ok(n),
        CivilInstant::BadMonth => Err(unexpected("invalid ZIP modification month")),
        CivilInstant::BadDate => Err(unexpected("invalid ZIP modification date")),
        CivilInstant::BadTime => Err(unexpected("invalid ZIP modification time")),
    }
}

/// The instant of the modification time recorded in the ZIP directory.
pub fn zip_modified_date(value: ZipDateTime) -> (r: Result<i128, IpaToolError>)
    ensures
        res_view(r) == zip_modified_spec(value),
{
    let c = instant_from_parts(
        value.year as i32,
        value.month,
        value.day,
        value.hour,
        value.minute,
        value.second,
    );
    settle_civil(c)
}

/// The RFC 3339 text of an instant, in UTC.
pub fn format_release_date(nanos: i128) -> (r: Result<String, IpaToolError>)
    ensures
        r matches Ok(s) ==> rfc3339_text(nanos) == Some(s@),
        r is Err ==> rfc3339_text(nanos) is None && r->Err_0 is Unexpected,
{
    match format_rfc3339(nanos) {
        Ok(s) => Ok(s),
        Err(m) => Err(IpaToolError::Unexpected(m)),
    }
}

/// Where the release date comes from: `releaseDate`, then `ReleaseDate` in
/// the `Info.plist`; failing both, the extended timestamp of the archive
/// entry; failing that, its MS-DOS modification time.
pub open spec fn release_instant_spec(d: Seq<PlistEntry>, entry: RemoteZipEntry) -> Result<
    i128,
    ErrorView,
> {
    match find_key(d, "releaseDate"@) {
        Some(i) => release_date_value_spec(d[i].value),
        None => match find_key(d, "ReleaseDate"@) {
            Some(i) => release_date_value_spec(d[i].value),
            None => match entry.unix_modified {
                Some(ts) => match unix_timestamp_instant(ts) {
                    Some(n) => Ok(n),
                    None => Err(ErrorView::Unexpected("invalid ZIP modification timestamp"@)),
                },
                None => zip_modified_spec(entry.modified),
            },
        },
    }
}

fn release_instant(d: &Vec<PlistEntry>, entry: &RemoteZipEntry) -> (r: Result<i128, IpaToolError>)
    ensures
        res_view(r) == release_instant_spec(d@, *entry),
{
    if let Some(i) = lookup(d, "releaseDate") {
        proof {
            lemma_find_key_bounds(d@, "releaseDate"@);
        }
        return release_date_from_value(&d[i].value);
    }
    if let Some(i) = lookup(d, "ReleaseDate") {
        proof {
            lemma_find_key_bounds(d@, "ReleaseDate"@);
        }
        return release_date_from_value(&d[i].value);
    }
    match entry.unix_modified {
        Some(ts) => match instant_from_unix_timestamp(ts) {
            Some(n) => Ok(n),
            None => Err(unexpected("invalid ZIP modification timestamp")),
        },
        None => zip_modified_date(entry.modified),
    }
}

/// The display version and the release date of an app version, from its
/// `Info.plist` and the directory entry of that file.
pub fn version_metadata_from_info(info: &Vec<PlistEntry>, entry: &RemoteZipEntry) -> (r: Result<
    VersionMetadata,
    IpaToolError,
>)
    ensures
        match r {
            Ok(m) => display_version_spec(info@) == Ok::<Seq<char>, ErrorView>(
                m.display_version@,
            ) && (exists|n: i128|
                release_instant_spec(info@, *entry) == Ok::<i128, ErrorView>(n) && rfc3339_text(n)
                    == Some(m.release_date@)),
            Err(e) => match display_version_spec(info@) {
                Err(de) => e@ == de,
                Ok(_) => match release_instant_spec(info@, *entry) {
                    Err(re) => e@ == re,
                    Ok(n) => rfc3339_text(n) is None && e is Unexpected,
                },
            },
        },
{
    let display_version = match display_version(info) {
        Ok(v) => v,
        Err(e) => return Err(e),
    };
    let instant = match release_instant(info, entry) {
        Ok(n) => n,
        Err(e) => return Err(e),
    };
    let release_date = match format_release_date(instant) {
        Ok(s) => s,
        Err(e) => return Err(e),
    };
    Ok(VersionMetadata { display_version, release_date })
}

} // verus!
