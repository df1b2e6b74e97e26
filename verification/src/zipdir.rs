//! Byte-level reading of a ZIP archive's end record, central directory and one
//! local entry: enough to pull the main `Info.plist` out of a remote archive
//! with a handful of ranged requests.
use vstd::prelude::*;
use vstd::slice::slice_subrange;
use crate::error::{ErrorView, IpaToolError, missing_data, res_view, unexpected};
use crate::paths::{is_main_app_info_plist, main_info_plist_name};
use crate::text::{from_utf8_lossy, utf8_lossy};

verus! {

pub const ZIP_EOCD_SIZE: u64 = 22;
pub const ZIP_MAX_COMMENT_SIZE: u64 = 65535;
pub const ZIP_CENTRAL_HEADER_SIZE: usize = 46;
pub const ZIP_LOCAL_HEADER_SIZE: usize = 30;

// ---------------------------------------------------------------------------
// Little-endian fields
// ---------------------------------------------------------------------------

pub open spec fn le16(d: Seq<u8>, o: int) -> nat {
    d[o] as nat + 256 * (d[o + 1] as nat)
}

pub open spec fn le32(d: Seq<u8>, o: int) -> nat {
    le16(d, o) + 65536 * le16(d, o + 2)
}

pub open spec fn le64(d: Seq<u8>, o: int) -> nat {
    le32(d, o) + 0x1_0000_0000 * le32(d, o + 4)
}

pub open spec fn truncated_data() -> ErrorView {
    ErrorView::Unexpected("truncated ZIP data"@)
}

pub open spec fn read_u16_spec(d: Seq<u8>, o: int) -> Result<u16, ErrorView> {
    if 0 <= o && o + 2 <= d.len() {
        Ok(le16(d, o) as u16)
    } else {
        Err(truncated_data())
    }
}

pub open spec fn read_u32_spec(d: Seq<u8>, o: int) -> Result<u32, ErrorView> {
    if 0 <= o && o + 4 <= d.len() {
        Ok(le32(d, o) as u32)
    } else {
        Err(truncated_data())
    }
}

pub open spec fn read_u64_spec(d: Seq<u8>, o: int) -> Result<u64, ErrorView> {
    if 0 <= o && o + 8 <= d.len() {
        Ok(le64(d, o) as u64)
    } else {
        Err(truncated_data())
    }
}

fn get_u16(d: &[u8], o: usize) -> (v: u16)
    requires
        o + 2 <= d@.len() <= usize::MAX,
    ensures
        v as nat == le16(d@, o as int),
{
    d[o] as u16 + (d[o + 1] as u16) * 256
}

fn get_u32(d: &[u8], o: usize) -> (v: u32)
    requires
        o + 4 <= d@.len() <= usize::MAX,
    ensures
        v as nat == le32(d@, o as int),
{
    let lo = get_u16(d, o);
    let hi = get_u16(d, o + 2);
    lo as u32 + (hi as u32) * 65536
}

fn get_u64(d: &[u8], o: usize) -> (v: u64)
    requires
        o + 8 <= d@.len() <= usize::MAX,
    ensures
        v as nat == le64(d@, o as int),
{
    let lo = get_u32(d, o);
    let hi = get_u32(d, o + 4);
    lo as u64 + (hi as u64) * 0x1_0000_0000
}

/// The little-endian `u16` at `offset`.
pub fn read_u16(data: &[u8], offset: usize) -> (r: Result<u16, IpaToolError>)
    requires
        offset <= usize::MAX - 2,
    ensures
        res_view(r) == read_u16_spec(data@, offset as int),
{
    if offset + 2 > data.len() {
        return Err(unexpected("truncated ZIP data"));
    }
    Ok(get_u16(data, offset))
}

/// The little-endian `u32` at `offset`.
pub fn read_u32(data: &[u8], offset: usize) -> (r: Result<u32, IpaToolError>)
    requires
        offset <= usize::MAX - 4,
    ensures
        res_view(r) == read_u32_spec(data@, offset as int),
{
    if offset + 4 > data.len() {
        return Err(unexpected("truncated ZIP data"));
    }
    Ok(get_u32(data, offset))
}

/// The little-endian `u64` at `offset`.
pub fn read_u64(data: &[u8], offset: usize) -> (r: Result<u64, IpaToolError>)
    requires
        offset <= usize::MAX - 8,
    ensures
        res_view(r) == read_u64_spec(data@, offset as int),
{
    if offset + 8 > data.len() {
        return Err(unexpected("truncated ZIP data"));
    }
    Ok(get_u64(data, offset))
}

// ---------------------------------------------------------------------------
// End of central directory record
// ---------------------------------------------------------------------------

/// An end-of-central-directory record starts at `o`: its signature is there,
/// and its comment runs exactly to the end of `d`.
pub open spec fn is_eocd(d: Seq<u8>, o: int) -> bool {
    &&& 0 <= o
    &&& o + 22 <= d.len()
    &&& d[o] == 0x50 && d[o + 1] == 0x4b && d[o + 2] == 0x05 && d[o + 3] == 0x06
    &&& o + 22 + le16(d, o + 20) == d.len()
}

/// The offset of the last end-of-central-directory record in `data`; a
/// signature inside the comment of the true record is not taken for one,
/// since its own comment would not end where `data` ends.
pub fn find_eocd(data: &[u8]) -> (r: Result<usize, IpaToolError>)
    ensures
        match r {
            Ok(o) => is_eocd(data@, o as int) && forall|k: int| o < k ==> !is_eocd(data@, k),
            Err(e) => e@ == ErrorView::Unexpected("ZIP end record not found"@) && forall|k: int|
                !is_eocd(data@, k),
        },
{
    let n = data.len();
    let mut i = n;
    while i > 0
        invariant
            n == data@.len(),
            i <= n,
            forall|k: int| i <= k ==> !is_eocd(data@, k),
        decreases i,
    {
        i = i - 1;
        if n >= 22 && i <= n - 22 && data[i] == 0x50 && data[i + 1] == 0x4b && data[i + 2] == 0x05
            && data[i + 3] == 0x06 {
            let comment = get_u16(data, i + 20) as usize;
            if comment == n - 22 - i {
                return Ok(i);
            }
        }
    }
    Err(unexpected("ZIP end record not found"))
}

// ---------------------------------------------------------------------------
// Extra fields
// ---------------------------------------------------------------------------

/// The 64-bit value at `field` within the ZIP64 extended information field
/// (tag 0x0001) of `extra`, scanning the tagged fields from `off`.
pub open spec fn zip64_value_spec(extra: Seq<u8>, off: int, field: int) -> Result<
    u64,
    ErrorView,
>
    decreases extra.len() - off,
{
    if off < 0 || off + 4 > extra.len() {
        Err(ErrorView::Unexpected("missing ZIP64 extended information"@))
    } else {
        let len = le16(extra, off + 2);
        if off + 4 + len > extra.len() {
            Err(ErrorView::Unexpected("truncated ZIP extra field"@))
        } else if le16(extra, off) == 1 {
            read_u64_spec(extra.subrange(off + 4, off + 4 + len), field)
        } else {
            zip64_value_spec(extra, off + 4 + len, field)
        }
    }
}

/// The 64-bit value at `field_offset` in the ZIP64 extended information field.
pub fn zip64_value(extra: &[u8], field_offset: usize) -> (r: Result<u64, IpaToolError>)
    requires
        field_offset <= usize::MAX - 8,
    ensures
        res_view(r) == zip64_value_spec(extra@, 0, field_offset as int),
{
    let n = extra.len();
    let mut offset: usize = 0;
    while offset <= n && n - offset >= 4
        invariant
            n == extra@.len(),
            offset <= n,
            field_offset <= usize::MAX - 8,
            zip64_value_spec(extra@, 0, field_offset as int) == zip64_value_spec(
                extra@,
                offset as int,
                field_offset as int,
            ),
        decreases n - offset,
    {
        let kind = get_u16(extra, offset);
        let len = get_u16(extra, offset + 2) as usize;
        if len > n - offset - 4 {
            return Err(unexpected("truncated ZIP extra field"));
        }
        if kind == 1 {
            let body = slice_subrange(extra, offset + 4, offset + 4 + len);
            return read_u64(body, field_offset);
        }
        offset = offset + 4 + len;
    }
    Err(unexpected("missing ZIP64 extended information"))
}

/// The modification time in an extended-timestamp field (tag 0x5455) whose
/// flags say that the field holds one, scanning the tagged fields from `off`.
pub open spec fn extended_timestamp_spec(extra: Seq<u8>, off: int) -> Option<i64>
    decreases extra.len() - off,
{
    if off < 0 || off + 4 > extra.len() {
        None
    } else {
        let len = le16(extra, off + 2);
        if off + 4 + len > extra.len() {
            None
        } else if le16(extra, off) == 0x5455 && len >= 5 && extra[off + 4] & 1 != 0 {
            Some(le32(extra, off + 5) as i64)
        } else {
            extended_timestamp_spec(extra, off + 4 + len)
        }
    }
}

/// The Unix modification time recorded in an extended-timestamp extra field.
pub fn extended_timestamp(extra: &[u8]) -> (r: Option<i64>)
    ensures
        r == extended_timestamp_spec(extra@, 0),
{
    let n = extra.len();
    let mut offset: usize = 0;
    while offset <= n && n - offset >= 4
        invariant
            n == extra@.len(),
            offset <= n,
            extended_timestamp_spec(extra@, 0) == extended_timestamp_spec(extra@, offset as int),
        decreases n - offset,
    {
        let kind = get_u16(extra, offset);
        let len = get_u16(extra, offset + 2) as usize;
        if len > n - offset - 4 {
            return None;
        }
        if kind == 0x5455 && len >= 5 && extra[offset + 4] & 1 != 0 {
            let t = get_u32(extra, offset + 5);
            return Some(t as i64);
        }
        offset = offset + 4 + len;
    }
    None
}

// ---------------------------------------------------------------------------
// Central directory
// ---------------------------------------------------------------------------

/// A date and time as `zip::DateTime` reports it.
#[derive(Clone, Copy, PartialEq, Eq, Debug)]
pub struct ZipDateTime {
    pub year: u16,
    pub month: u8,
    pub day: u8,
    pub hour: u8,
    pub minute: u8,
    pub second: u8,
}

/// The leap-year rule of the `zip` crate.
pub open spec fn zip_is_leap_year(year: int) -> bool {
    year % 4 == 0 && (year % 25 != 0 || year % 16 == 0)
}

pub open spec fn zip_days_in_month(year: int, month: int) -> int {
    if month == 2 {
        if zip_is_leap_year(year) {
            29
        } else {
            28
        }
    } else if month == 4 || month == 6 || month == 9 || month == 11 {
        30
    } else {
        31
    }
}

/// What `zip::DateTime::try_from_msdos` accepts, and the fields of the value
/// it builds: an MS-DOS date holds day, month and years since 1980 in 5, 4
/// and 7 bits; an MS-DOS time holds seconds halved, minutes and hours in 5, 6
/// and 5 bits. A second of 60 is stored as 58.
pub open spec fn msdos_spec(datepart: u16, timepart: u16) -> Option<ZipDateTime> {
    let second: int = (timepart % 32) * 2;
    let minute: int = ((timepart / 32) % 64) as int;
    let hour: int = (timepart / 2048) as int;
    let day: int = (datepart % 32) as int;
    let month: int = ((datepart / 32) % 16) as int;
    let year: int = datepart / 512 + 1980;
    if 1 <= month <= 12 && 1 <= day <= zip_days_in_month(year, month) && hour <= 23 && minute
        <= 59 && second <= 60 {
        Some(
            ZipDateTime {
                year: year as u16,
                month: month as u8,
                day: day as u8,
                hour: hour as u8,
                minute: minute as u8,
                second: (if second > 58 {
                    58
                } else {
                    second
                }) as u8,
            },
        )
    } else {
        None
    }
}

/// `zip::DateTime::try_from_msdos`, its fields read back with the accessors
/// `year`, `month`, `day`, `hour`, `minute` and `second`. The contract is the
/// whole of what that function computes in the crate's source.
#[verifier::external_body]
fn msdos_date_time(datepart: u16, timepart: u16) -> (r: Option<ZipDateTime>)
    ensures
        r == msdos_spec(datepart, timepart),
{
    match zip::DateTime::try_from_msdos(datepart, timepart) {
        Ok(dt) => Some(
            ZipDateTime {
                year: dt.year(),
                month: dt.month(),
                day: dt.day(),
                hour: dt.hour(),
                minute: dt.minute(),
                second: dt.second(),
            },
        ),
        Err(_) => None,
    }
}

/// Where the main `Info.plist` lives in the archive and how it is stored.
#[derive(Clone, Copy, PartialEq, Eq, Debug)]
pub struct RemoteZipEntry {
    pub local_header_offset: u64,
    pub compressed_size: u64,
    pub uncompressed_size: u64,
    pub crc32: u32,
    pub modified: ZipDateTime,
    pub unix_modified: Option<i64>,
}

pub open spec fn field_or_zip64(value: nat, extra: Seq<u8>, field: int) -> Result<
    u64,
    ErrorView,
> {
    if value == 0xffff_ffff {
        zip64_value_spec(extra, 0, field)
    } else {
        Ok(value as u64)
    }
}

/// The entry described by the central directory record at `o`, whose extra
/// field is `extra`: sizes and offset saturated at 0xffffffff come, in that
/// order, from the ZIP64 extended information.
pub open spec fn entry_spec(d: Seq<u8>, o: int, extra: Seq<u8>) -> Result<
    RemoteZipEntry,
    ErrorView,
> {
    let c32 = le32(d, o + 20);
    let u32v = le32(d, o + 24);
    let l32 = le32(d, o + 42);
    let f1: int = if u32v == 0xffff_ffff {
        8
    } else {
        0
    };
    let f2: int = if c32 == 0xffff_ffff {
        f1 + 8
    } else {
        f1
    };
    match field_or_zip64(u32v, extra, 0) {
        Err(e) => Err(e),
        Ok(uncompressed) => match field_or_zip64(c32, extra, f1) {
            Err(e) => Err(e),
            Ok(compressed) => match field_or_zip64(l32, extra, f2) {
                Err(e) => Err(e),
                Ok(local) => match msdos_spec(le16(d, o + 14) as u16, le16(d, o + 12) as u16) {
                    None => Err(ErrorView::Unexpected("invalid ZIP modification date"@)),
                    Some(modified) => Ok(
                        RemoteZipEntry {
                            local_header_offset: local,
                            compressed_size: compressed,
                            uncompressed_size: uncompressed,
                            crc32: le32(d, o + 16) as u32,
                            modified,
                            unix_modified: extended_timestamp_spec(extra, 0),
                        },
                    ),
                },
            },
        },
    }
}

pub open spec fn record_len(d: Seq<u8>, o: int) -> int {
    (46 + le16(d, o + 28) + le16(d, o + 30) + le16(d, o + 32)) as int
}

/// The main `Info.plist` entry among the `count` central directory records
/// that start at `o`.
pub open spec fn info_entry_spec(d: Seq<u8>, o: int, count: nat) -> Result<
    RemoteZipEntry,
    ErrorView,
>
    decreases count,
{
    if count == 0 {
        Err(ErrorView::MissingData { thing: "main app Info.plist"@ })
    } else if o < 0 || o + 46 > d.len() {
        Err(ErrorView::Unexpected("truncated ZIP central directory"@))
    } else if le32(d, o) != 0x0201_4b50 {
        Err(ErrorView::Unexpected("invalid ZIP central directory header"@))
    } else if o + record_len(d, o) > d.len() {
        Err(ErrorView::Unexpected("truncated ZIP central entry"@))
    } else {
        let n = le16(d, o + 28);
        let e = le16(d, o + 30);
        let name = utf8_lossy(d.subrange(o + 46, o + 46 + n));
        let extra = d.subrange(o + 46 + n, o + 46 + n + e);
        if main_info_plist_name(name) {
            entry_spec(d, o, extra)
        } else {
            info_entry_spec(d, o + record_len(d, o), (count - 1) as nat)
        }
    }
}

fn field_or_zip64_exec(value: u32, extra: &[u8], field: usize) -> (r: Result<u64, IpaToolError>)
    requires
        field <= 16,
    ensures
        res_view(r) == field_or_zip64(value as nat, extra@, field as int),
{
    if value == 0xffff_ffff {
        zip64_value(extra, field)
    } else {
        Ok(value as u64)
    }
}

/// The entry of the central directory record at `o` in `d`.
fn entry_from_record(d: &[u8], o: usize, extra: &[u8]) -> (r: Result<RemoteZipEntry, IpaToolError>)
    requires
        o + 46 <= d@.len() <= usize::MAX,
    ensures
        res_view(r) == entry_spec(d@, o as int, extra@),
{
    let compressed32 = get_u32(d, o + 20);
    let uncompressed32 = get_u32(d, o + 24);
    let local_offset32 = get_u32(d, o + 42);
    let mut zip64_offset: usize = 0;
    let uncompressed_size = match field_or_zip64_exec(uncompressed32, extra, zip64_offset) {
        Ok(v) => v,
        Err(e) => return Err(e),
    };
    if uncompressed32 == 0xffff_ffff {
        zip64_offset = zip64_offset + 8;
    }
    let compressed_size = match field_or_zip64_exec(compressed32, extra, zip64_offset) {
        Ok(v) => v,
        Err(e) => return Err(e),
    };
    if compressed32 == 0xffff_ffff {
        zip64_offset = zip64_offset + 8;
    }
    let local_header_offset = match field_or_zip64_exec(local_offset32, extra, zip64_offset) {
        Ok(v) => v,
        Err(e) => return Err(e),
    };
    let date = get_u16(d, o + 14);
    let time = get_u16(d, o + 12);
    let modified = match msdos_date_time(date, time) {
        Some(m) => m,
        None => return Err(unexpected("invalid ZIP modification date")),
    };
    Ok(
        RemoteZipEntry {
            local_header_offset,
            compressed_size,
            uncompressed_size,
            crc32: get_u32(d, o + 16),
            modified,
            unix_modified: extended_timestamp(extra),
        },
    )
}

/// The main `Info.plist` among the first `entry_count` records of a central
/// directory.
pub fn find_info_entry(directory: &[u8], entry_count: u64) -> (r: Result<
    RemoteZipEntry,
    IpaToolError,
>)
    ensures
        res_view(r) == info_entry_spec(directory@, 0, entry_count as nat),
{
    let n = directory.len();
    let mut offset: usize = 0;
    let mut k: u64 = 0;
    while k < entry_count
        invariant
            n == directory@.len(),
            offset <= n,
            k <= entry_count,
            info_entry_spec(directory@, 0, entry_count as nat) == info_entry_spec(
                directory@,
                offset as int,
                (entry_count - k) as nat,
            ),
        decreases entry_count - k,
    {
        if n - offset < 46 {
            return Err(unexpected("truncated ZIP central directory"));
        }
        if get_u32(directory, offset) != 0x0201_4b50 {
            return Err(unexpected("invalid ZIP central directory header"));
        }
        let name_len = get_u16(directory, offset + 28) as usize;
        let extra_len = get_u16(directory, offset + 30) as usize;
        let comment_len = get_u16(directory, offset + 32) as usize;
        let rec_len = 46 + name_len + extra_len + comment_len;
        if n - offset < rec_len {
            return Err(unexpected("truncated ZIP central entry"));
        }
        let name_bytes = slice_subrange(directory, offset + 46, offset + 46 + name_len);
        let name = from_utf8_lossy(name_bytes);
        let extra = slice_subrange(
            directory,
            offset + 46 + name_len,
            offset + 46 + name_len + extra_len,
        );
        if is_main_app_info_plist(name.as_str()) {
            return entry_from_record(directory, offset, extra);
        }
        offset = offset + rec_len;
        k = k + 1;
    }
    Err(missing_data("main app Info.plist"))
}

} // verus!
