//! Planning the ranged requests that read one entry out of a remote ZIP
//! archive, and checking what comes back. The requests themselves are made
//! by the caller.
use vstd::prelude::*;
use crate::error::{ErrorView, IpaToolError, missing_data, res_view, unexpected};
use crate::text::{
    chars_of, concat, decimal, parse_u64, parse_u64_spec, seq_equals, string_of_range,
    u64_to_string,
};
use crate::zipdir::{
    RemoteZipEntry, find_eocd, is_eocd, le16, le32, le64, read_u16, read_u32, read_u64,
    read_u64_spec, truncated_data,
};

verus! {

// ---------------------------------------------------------------------------
// Content-Range
// ---------------------------------------------------------------------------

/// The position of the last `c` in `s`, or -1.
pub open spec fn last_index_of(s: Seq<char>, c: char) -> int
    decreases s.len(),
{
    if s.len() == 0 {
        -1
    } else if s.last() == c {
        s.len() - 1
    } else {
        last_index_of(s.drop_last(), c)
    }
}

proof fn lemma_last_index_bounds(s: Seq<char>, c: char)
    ensures
        -1 <= last_index_of(s, c) < s.len(),
        last_index_of(s, c) >= 0 ==> s[last_index_of(s, c)] == c,
    decreases s.len(),
{
    if s.len() > 0 && s.last() != c {
        lemma_last_index_bounds(s.drop_last(), c);
    }
}

/// The total size in a `Content-Range` header such as `bytes 0-0/1234`.
pub open spec fn content_range_size_spec(h: Seq<char>) -> Result<u64, ErrorView> {
    let i = last_index_of(h, '/');
    let size = h.subrange(i + 1, h.len() as int);
    if i < 0 || size.len() == 0 || size == "*"@ {
        Err(ErrorView::Unexpected("invalid Content-Range: "@ + h))
    } else {
        match parse_u64_spec(size) {
            Some(v) => Ok(v),
            None => Err(ErrorView::Unexpected("invalid Content-Range size: "@ + size)),
        }
    }
}

/// The size of the whole file from a `Content-Range` response header.
pub fn parse_content_range_size(header: &str) -> (r: Result<u64, IpaToolError>)
    ensures
        res_view(r) == content_range_size_spec(header@),
{
    let v = chars_of(header);
    let mut j = v.len();
    proof {
        assert(v@.subrange(0, j as int) =~= v@);
    }
    while j > 0 && v[j - 1] != '/'
        invariant
            j <= v@.len(),
            last_index_of(v@, '/') == last_index_of(v@.subrange(0, j as int), '/'),
        decreases j,
    {
        proof {
            assert(v@.subrange(0, j as int).drop_last() =~= v@.subrange(0, j - 1));
        }
        j = j - 1;
    }
    proof {
        if j > 0 {
            assert(v@.subrange(0, j as int).last() == '/');
        }
        assert(last_index_of(v@, '/') == j as int - 1);
    }
    let star = chars_of("*");
    if j == 0 {
        return Err(IpaToolError::Unexpected(concat("invalid Content-Range: ", header)));
    }
    let size = string_of_range(&v, j, v.len());
    let size_chars = chars_of(size.as_str());
    if size_chars.len() == 0 || seq_equals(&size_chars, &star) {
        return Err(IpaToolError::Unexpected(concat("invalid Content-Range: ", header)));
    }
    match parse_u64(size.as_str()) {
        Some(n) => Ok(n),
        None => Err(IpaToolError::Unexpected(concat("invalid Content-Range size: ", size.as_str()))),
    }
}

// ---------------------------------------------------------------------------
// Opening the remote archive
// ---------------------------------------------------------------------------

/// An archive can be read from its address only when there is one.
pub fn require_download_url(url: &str) -> (r: Result<(), IpaToolError>)
    ensures
        r is Ok <==> url@.len() > 0,
        r matches Err(e) ==> e@ == (ErrorView::MissingData { thing: "download URL"@ }),
{
    if chars_of(url).len() == 0 {
        return Err(missing_data("download URL"));
    }
    Ok(())
}

/// A byte-range request is answered with HTTP 206; `status_text` is the
/// status as it is displayed, such as `200 OK`.
pub fn require_partial_content(status: u16, status_text: &str) -> (r: Result<(), IpaToolError>)
    ensures
        r is Ok <==> status == 206,
        r matches Err(e) ==> e@ == ErrorView::Unexpected(
            "expected partial content response, got HTTP "@ + status_text@,
        ),
{
    if status != 206 {
        return Err(IpaToolError::Unexpected(
            concat("expected partial content response, got HTTP ", status_text),
        ));
    }
    Ok(())
}

/// The size of the archive from the answer to the first byte-range request:
/// its status must be 206, and its `Content-Range` header, when it is there
/// and readable as text, gives the size.
pub open spec fn remote_size_spec(status: u16, status_text: Seq<char>, content_range: Option<
    Seq<char>,
>) -> Result<u64, ErrorView> {
    if status != 206 {
        Err(ErrorView::Unexpected("expected partial content response, got HTTP "@ + status_text))
    } else {
        match content_range {
            None => Err(ErrorView::MissingData { thing: "Content-Range header"@ }),
            Some(h) => content_range_size_spec(h),
        }
    }
}

/// The size of the archive from the answer to the first byte-range request.
pub fn remote_size(status: u16, status_text: &str, content_range: Option<&str>) -> (r: Result<
    u64,
    IpaToolError,
>)
    ensures
        res_view(r) == remote_size_spec(
            status,
            status_text@,
            match content_range {
                Some(h) => Some(h@),
                None => None,
            },
        ),
{
    match require_partial_content(status, status_text) {
        Ok(()) => {},
        Err(e) => return Err(e),
    }
    match content_range {
        None => Err(missing_data("Content-Range header")),
        Some(h) => parse_content_range_size(h),
    }
}

// ---------------------------------------------------------------------------
// Byte ranges
// ---------------------------------------------------------------------------

/// The message of a byte range that a file of `size` bytes cannot serve.
pub open spec fn bad_range_message(start: u64, end: u64, size: u64) -> Seq<char> {
    "invalid IPA byte range "@ + decimal(start as nat) + "-"@ + decimal(end as nat) + " for "@
        + decimal(size as nat) + " byte file"@
}

/// A request for bytes `start..=end` of a file of `size` bytes is refused
/// before it is sent when it is empty or runs past the end.
pub fn check_byte_range(start: u64, end: u64, size: u64) -> (r: Result<(), IpaToolError>)
    ensures
        r is Ok <==> (start <= end && end < size),
        r matches Err(e) ==> e@ == ErrorView::Unexpected(bad_range_message(start, end, size)),
{
    if start > end || end >= size {
        let mut m = concat("invalid IPA byte range ", u64_to_string(start).as_str());
        m = concat(m.as_str(), "-");
        m = concat(m.as_str(), u64_to_string(end).as_str());
        m = concat(m.as_str(), " for ");
        m = concat(m.as_str(), u64_to_string(size).as_str());
        m = concat(m.as_str(), " byte file");
        return Err(IpaToolError::Unexpected(m));
    }
    Ok(())
}

/// A response to a request for bytes `start..=end` must hold exactly that
/// many bytes.
pub fn check_range_length(start: u64, end: u64, got: usize) -> (r: Result<(), IpaToolError>)
    requires
        start <= end < u64::MAX,
    ensures
        r is Ok <==> got == end - start + 1,
        r matches Err(e) ==> e@ == if end - start + 1 > usize::MAX {
            ErrorView::Unexpected("IPA byte range is too large"@)
        } else {
            ErrorView::Unexpected(
                "short IPA byte range: expected "@ + decimal((end - start + 1) as nat)
                    + " bytes, got "@ + decimal(got as nat),
            )
        },
{
    let wanted = end - start + 1;
    if wanted > usize::MAX as u64 {
        return Err(unexpected("IPA byte range is too large"));
    }
    let expected = wanted as usize;
    if got != expected {
        let mut m = concat("short IPA byte range: expected ", u64_to_string(wanted).as_str());
        m = concat(m.as_str(), " bytes, got ");
        m = concat(m.as_str(), u64_to_string(got as u64).as_str());
        return Err(IpaToolError::Unexpected(m));
    }
    Ok(())
}

// ---------------------------------------------------------------------------
// Finding the central directory
// ---------------------------------------------------------------------------

/// The last bytes of a file of `size` bytes that can hold its end record:
/// the record itself and a comment of the largest possible length.
pub fn tail_range(size: u64) -> (r: (u64, u64))
    requires
        size > 0,
    ensures
        r.1 == size - 1,
        r.0 == size - (if size < 22 + 65535 {
            size as int
        } else {
            65557int
        }),
{
    let max_tail: u64 = 22 + 65535;
    let tail_len = if size < max_tail {
        size
    } else {
        max_tail
    };
    (size - tail_len, size - 1)
}

/// Where the central directory is, as far as the end record tells.
#[derive(Clone, Copy, PartialEq, Eq, Debug)]
pub enum DirectoryLocation {
    /// The count of entries, the size and the offset of the directory.
    Known { entries: u64, size: u64, offset: u64 },
    /// The ZIP64 end record, which holds them, starts at this offset.
    Zip64At(u64),
}

/// What the end record at the end of `tail` says about the directory.
pub open spec fn locate_spec(tail: Seq<u8>, eocd: int) -> Result<DirectoryLocation, ErrorView> {
    let entries = le16(tail, eocd + 10);
    let size = le32(tail, eocd + 12);
    let offset = le32(tail, eocd + 16);
    if entries == 0xffff || size == 0xffff_ffff || offset == 0xffff_ffff {
        if eocd < 20 {
            Err(ErrorView::Unexpected("missing ZIP64 end record locator"@))
        } else if le32(tail, eocd - 20) != 0x0706_4b50 {
            Err(ErrorView::Unexpected("invalid ZIP64 end record locator"@))
        } else {
            Ok(DirectoryLocation::Zip64At(le64(tail, eocd - 12) as u64))
        }
    } else {
        Ok(
            DirectoryLocation::Known {
                entries: entries as u64,
                size: size as u64,
                offset: offset as u64,
            },
        )
    }
}

/// Reads the end record in the tail of the archive.
pub fn locate_central_directory(tail: &[u8]) -> (r: Result<DirectoryLocation, IpaToolError>)
    ensures
        match r {
            Ok(loc) => exists|o: int|
                is_eocd(tail@, o) && (forall|k: int| o < k ==> !is_eocd(tail@, k)) && locate_spec(
                    tail@,
                    o,
                ) == Ok::<DirectoryLocation, ErrorView>(loc),
            Err(e) => (forall|k: int| !is_eocd(tail@, k)) && e@ == ErrorView::Unexpected(
                "ZIP end record not found"@,
            ) || exists|o: int|
                is_eocd(tail@, o) && (forall|k: int| o < k ==> !is_eocd(tail@, k)) && locate_spec(
                    tail@,
                    o,
                ) == Err::<DirectoryLocation, ErrorView>(e@),
        },
        r matches Ok(DirectoryLocation::Known { entries, size, offset }) ==> exists|o: int|
            is_eocd(tail@, o) && entries == le16(tail@, o + 10) && size == le32(tail@, o + 12)
                && offset == le32(tail@, o + 16),
{
    let eocd = match find_eocd(tail) {
        Ok(o) => o,
        Err(e) => return Err(e),
    };
    let n = tail.len();
    assert(eocd + 22 <= n);
    let entries32 = match read_u16(tail, eocd + 10) {
        Ok(v) => v,
        Err(e) => return Err(e),
    };
    let directory_size32 = match read_u32(tail, eocd + 12) {
        Ok(v) => v,
        Err(e) => return Err(e),
    };
    let directory_offset32 = match read_u32(tail, eocd + 16) {
        Ok(v) => v,
        Err(e) => return Err(e),
    };
    if entries32 == 0xffff || directory_size32 == 0xffff_ffff || directory_offset32
        == 0xffff_ffff {
        if eocd < 20 {
            return Err(unexpected("missing ZIP64 end record locator"));
        }
        let locator = eocd - 20;
        match read_u32(tail, locator) {
            Ok(sig) => {
                if sig != 0x0706_4b50 {
                    return Err(unexpected("invalid ZIP64 end record locator"));
                }
            },
            Err(e) => return Err(e),
        }
        match read_u64(tail, locator + 8) {
            Ok(at) => Ok(DirectoryLocation::Zip64At(at)),
            Err(e) => Err(e),
        }
    } else {
        assert(is_eocd(tail@, eocd as int) && entries32 == le16(tail@, eocd + 10)
            && directory_size32 == le32(tail@, eocd + 12) && directory_offset32 == le32(
            tail@,
            eocd + 16,
        ));
        Ok(
            DirectoryLocation::Known {
                entries: entries32 as u64,
                size: directory_size32 as u64,
                offset: directory_offset32 as u64,
            },
        )
    }
}

/// An end record without ZIP64 markers gives the directory as it is written
/// in it: the count of entries in the two bytes at 10, the size of the
/// directory in the four bytes at 12 and its offset in the four bytes at 16,
/// all little-endian.
pub proof fn end_record_gives_directory(tail: Seq<u8>, o: int)
    requires
        is_eocd(tail, o),
        tail[o + 10] != 0xff || tail[o + 11] != 0xff,
        le32(tail, o + 12) != 0xffff_ffff,
        le32(tail, o + 16) != 0xffff_ffff,
    ensures
        locate_spec(tail, o) matches Ok(DirectoryLocation::Known { entries, size, offset })
            && entries == tail[o + 10] + 256 * tail[o + 11] && size == tail[o + 12] + 256 * tail[o
            + 13] + 65536 * tail[o + 14] + 16777216 * tail[o + 15] && offset == tail[o + 16] + 256
            * tail[o + 17] + 65536 * tail[o + 18] + 16777216 * tail[o + 19],
{
}

/// The bytes to fetch for a ZIP64 end record at `offset`.
pub fn zip64_record_range(offset: u64) -> (r: (u64, u64))
    requires
        offset <= u64::MAX - 55,
    ensures
        r == (offset, (offset + 55) as u64),
{
    (offset, offset + 55)
}

/// The count of entries, the size and the offset of the directory that a
/// ZIP64 end record gives.
pub open spec fn zip64_record_spec(rec: Seq<u8>) -> Result<(u64, u64, u64), ErrorView> {
    if rec.len() < 4 {
        Err(truncated_data())
    } else if le32(rec, 0) != 0x0606_4b50 {
        Err(ErrorView::Unexpected("invalid ZIP64 end record"@))
    } else if rec.len() < 56 {
        Err(truncated_data())
    } else {
        Ok((le64(rec, 32) as u64, le64(rec, 40) as u64, le64(rec, 48) as u64))
    }
}

/// Reads the count, size and offset of the directory from a ZIP64 end record.
pub fn parse_zip64_end_record(rec: &[u8]) -> (r: Result<(u64, u64, u64), IpaToolError>)
    ensures
        res_view(r) == zip64_record_spec(rec@),
{
    match read_u32(rec, 0) {
        Ok(sig) => {
            if sig != 0x0606_4b50 {
                return Err(unexpected("invalid ZIP64 end record"));
            }
        },
        Err(e) => return Err(e),
    }
    let entries = match read_u64(rec, 32) {
        Ok(v) => v,
        Err(e) => return Err(e),
    };
    let size = match read_u64(rec, 40) {
        Ok(v) => v,
        Err(e) => return Err(e),
    };
    let offset = match read_u64(rec, 48) {
        Ok(v) => v,
        Err(e) => return Err(e),
    };
    proof {
        assert(read_u64_spec(rec@, 48) is Ok);
    }
    Ok((entries, size, offset))
}

/// The bytes to fetch for a directory of `size` bytes at `offset`.
pub fn directory_range(size: u64, offset: u64) -> (r: Result<(u64, u64), IpaToolError>)
    ensures
        match r {
            Ok(range) => size > 0 && offset + size - 1 <= u64::MAX && range == (
                offset,
                (offset + size - 1) as u64,
            ),
            Err(e) => if size == 0 {
                e@ == ErrorView::Unexpected("ZIP central directory is empty"@)
            } else {
                offset + size - 1 > u64::MAX && e@ == ErrorView::Unexpected(
                    "invalid ZIP central directory size"@,
                )
            },
        },
{
    if size == 0 {
        return Err(unexpected("ZIP central directory is empty"));
    }
    match offset.checked_add(size - 1) {
        Some(end) => Ok((offset, end)),
        None => Err(unexpected("invalid ZIP central directory size")),
    }
}

// ---------------------------------------------------------------------------
// The local entry
// ---------------------------------------------------------------------------

/// The longest local header there can be: the fixed part, and a name and an
/// extra field of the largest lengths.
pub open spec fn max_local_header() -> nat {
    30 + 2 * 65535
}

/// The bytes to fetch for the local entry: its header with the longest name
/// and extra field there can be, and its data, as far as the file reaches.
pub fn local_entry_range(entry: &RemoteZipEntry, size: u64) -> (r: Result<(u64, u64), IpaToolError>)
    requires
        size > 0,
    ensures
        match r {
            Ok(range) => {
                let want = entry.local_header_offset + max_local_header() + entry.compressed_size
                    - 1;
                let capped = if want > u64::MAX {
                    u64::MAX as int
                } else {
                    want
                };
                &&& max_local_header() + entry.compressed_size <= u64::MAX
                &&& range.0 == entry.local_header_offset
                &&& range.1 == if capped < size - 1 {
                    capped
                } else {
                    size - 1
                }
            },
            Err(e) => max_local_header() + entry.compressed_size > u64::MAX && e@
                == ErrorView::Unexpected("ZIP entry is too large"@),
        },
{
    let maximum_header_size: u64 = 30 + 2 * 65535;
    let requested = match maximum_header_size.checked_add(entry.compressed_size) {
        Some(v) => v,
        None => return Err(unexpected("ZIP entry is too large")),
    };
    let end = entry.local_header_offset.saturating_add(requested - 1);
    let end = if end < size - 1 {
        end
    } else {
        size - 1
    };
    Ok((entry.local_header_offset, end))
}

/// The two little-endian bytes of `v`.
pub open spec fn le_bytes16(v: nat) -> Seq<u8> {
    seq![(v % 256) as u8, ((v / 256) % 256) as u8]
}

/// The four little-endian bytes of `v`.
pub open spec fn le_bytes32(v: nat) -> Seq<u8> {
    le_bytes16(v % 65536) + le_bytes16(v / 65536)
}

/// A local header with the data-descriptor flag cleared and the checksum and
/// sizes written in from the central directory.
pub open spec fn patched_header(b: Seq<u8>, crc: u32, compressed: nat, uncompressed: nat) -> Seq<u8> {
    b.subrange(0, 6) + le_bytes16(((le16(b, 6) as u16) & 0xfff7u16) as nat) + b.subrange(8, 14)
        + le_bytes32(crc as nat) + le_bytes32(compressed) + le_bytes32(uncompressed) + b.subrange(
        26,
        b.len() as int,
    )
}

/// The local entry, cut to its own length and made to stand on its own.
pub open spec fn isolate_spec(b: Seq<u8>, entry: RemoteZipEntry) -> Result<Seq<u8>, ErrorView> {
    if b.len() < 4 {
        Err(truncated_data())
    } else if le32(b, 0) != 0x0403_4b50 {
        Err(ErrorView::Unexpected("invalid ZIP local file header"@))
    } else if b.len() < 30 {
        Err(truncated_data())
    } else {
        let len = 30 + le16(b, 26) + le16(b, 28) + entry.compressed_size;
        if len > usize::MAX {
            Err(ErrorView::Unexpected("ZIP entry is too large"@))
        } else if b.len() < len {
            Err(ErrorView::Unexpected("truncated ZIP entry"@))
        } else if entry.compressed_size > u32::MAX || entry.uncompressed_size > u32::MAX {
            Err(ErrorView::Unexpected("Info.plist ZIP entry is too large"@))
        } else {
            Ok(
                patched_header(
                    b.subrange(0, len as int),
                    entry.crc32,
                    entry.compressed_size as nat,
                    entry.uncompressed_size as nat,
                ),
            )
        }
    }
}

proof fn lemma_le16_of_bytes(v: nat)
    requires
        v < 65536,
    ensures
        le16(le_bytes16(v), 0) == v,
{
    let b = le_bytes16(v);
    assert(b[0] as nat == v % 256);
    assert(b[1] as nat == (v / 256) % 256);
}

proof fn lemma_le32_of_bytes(v: nat)
    requires
        v < 0x1_0000_0000,
    ensures
        le32(le_bytes32(v), 0) == v,
{
    let b = le_bytes32(v);
    lemma_le16_of_bytes(v % 65536);
    lemma_le16_of_bytes(v / 65536);
    assert(b.subrange(0, 2) =~= le_bytes16(v % 65536));
    assert(b.subrange(2, 4) =~= le_bytes16(v / 65536));
    assert(le16(b, 0) == le16(le_bytes16(v % 65536), 0));
    assert(le16(b, 2) == le16(le_bytes16(v / 65536), 0));
}

/// The entry made to stand on its own carries, in its local header, the
/// checksum and the sizes of the central directory, no longer says that they
/// follow the data, and ends where its compressed data ends.
pub proof fn isolated_header_matches_directory(b: Seq<u8>, entry: RemoteZipEntry)
    requires
        isolate_spec(b, entry) is Ok,
    ensures
        ({
            let v = isolate_spec(b, entry)->Ok_0;
            &&& v.len() == 30 + le16(b, 26) + le16(b, 28) + entry.compressed_size
            &&& le32(v, 14) == entry.crc32
            &&& le32(v, 18) == entry.compressed_size
            &&& le32(v, 22) == entry.uncompressed_size
            &&& (le16(v, 6) as u16) & 8u16 == 0
            &&& v.subrange(26, v.len() as int) == b.subrange(26, v.len() as int)
        }),
{
    let v = isolate_spec(b, entry)->Ok_0;
    let len = 30 + le16(b, 26) + le16(b, 28) + entry.compressed_size;
    let c = b.subrange(0, len as int);
    let flags = ((le16(c, 6) as u16) & 0xfff7u16) as nat;
    let crc = le_bytes32(entry.crc32 as nat);
    let comp = le_bytes32(entry.compressed_size as nat);
    let unc = le_bytes32(entry.uncompressed_size as nat);
    assert(v == c.subrange(0, 6) + le_bytes16(flags) + c.subrange(8, 14) + crc + comp + unc
        + c.subrange(26, c.len() as int));
    lemma_le16_of_bytes(flags);
    lemma_le32_of_bytes(entry.crc32 as nat);
    lemma_le32_of_bytes(entry.compressed_size as nat);
    lemma_le32_of_bytes(entry.uncompressed_size as nat);
    assert(v.subrange(6, 8) =~= le_bytes16(flags));
    assert(v.subrange(14, 18) =~= crc);
    assert(v.subrange(18, 22) =~= comp);
    assert(v.subrange(22, 26) =~= unc);
    assert(le16(v, 6) == le16(le_bytes16(flags), 0));
    assert(le32(v, 14) == le32(crc, 0));
    assert(le32(v, 18) == le32(comp, 0));
    assert(le32(v, 22) == le32(unc, 0));
    let flag_bits = le16(c, 6) as u16;
    assert((flag_bits & 0xfff7u16) & 8u16 == 0) by (bit_vector);
    assert(v.subrange(26, v.len() as int) =~= b.subrange(26, v.len() as int));
}

fn put_u16(bytes: &mut Vec<u8>, at: usize, v: u16)
    requires
        at + 2 <= old(bytes)@.len() <= usize::MAX,
    ensures
        final(bytes)@ == old(bytes)@.subrange(0, at as int) + le_bytes16(v as nat) + old(
            bytes,
        )@.subrange(at + 2, old(bytes)@.len() as int),
{
    bytes.set(at, (v % 256) as u8);
    bytes.set(at + 1, (v / 256) as u8);
    proof {
        assert(((v / 256) % 256) == v / 256);
    }
    assert(final(bytes)@ =~= old(bytes)@.subrange(0, at as int) + le_bytes16(v as nat) + old(
        bytes,
    )@.subrange(at + 2, old(bytes)@.len() as int));
}

fn put_u32(bytes: &mut Vec<u8>, at: usize, v: u32)
    requires
        at + 4 <= old(bytes)@.len() <= usize::MAX,
    ensures
        final(bytes)@ == old(bytes)@.subrange(0, at as int) + le_bytes32(v as nat) + old(
            bytes,
        )@.subrange(at + 4, old(bytes)@.len() as int),
{
    let ghost b0 = bytes@;
    put_u16(bytes, at, (v % 65536) as u16);
    put_u16(bytes, at + 2, (v / 65536) as u16);
    assert(bytes@ =~= b0.subrange(0, at as int) + le_bytes32(v as nat) + b0.subrange(
        at + 4,
        b0.len() as int,
    ));
}

/// Cuts the fetched bytes to the local entry and writes the checksum and
/// sizes from the central directory into its header, clearing the flag that
/// says they follow the data, so that the entry can be read on its own.
pub fn isolate_local_entry(bytes: Vec<u8>, entry: &RemoteZipEntry) -> (r: Result<
    Vec<u8>,
    IpaToolError,
>)
    ensures
        match r {
            Ok(v) => isolate_spec(bytes@, *entry) == Ok::<Seq<u8>, ErrorView>(v@),
            Err(e) => isolate_spec(bytes@, *entry) == Err::<Seq<u8>, ErrorView>(e@),
        },
{
    let mut bytes = bytes;
    let ghost b0 = bytes@;
    match read_u32(&bytes, 0) {
        Ok(sig) => {
            if sig != 0x0403_4b50 {
                return Err(unexpected("invalid ZIP local file header"));
            }
        },
        Err(e) => return Err(e),
    }
    let name_len = match read_u16(&bytes, 26) {
        Ok(v) => v as usize,
        Err(e) => return Err(e),
    };
    let extra_len = match read_u16(&bytes, 28) {
        Ok(v) => v as usize,
        Err(e) => return Err(e),
    };
    let header_len = 30 + name_len + extra_len;
    if entry.compressed_size > (usize::MAX - header_len) as u64 {
        return Err(unexpected("ZIP entry is too large"));
    }
    let entry_len = header_len + entry.compressed_size as usize;
    if bytes.len() < entry_len {
        return Err(unexpected("truncated ZIP entry"));
    }
    bytes.truncate(entry_len);
    let ghost b1 = bytes@;
    assert(b1 == b0.subrange(0, entry_len as int));
    if entry.compressed_size > 0xffff_ffff || entry.uncompressed_size > 0xffff_ffff {
        return Err(unexpected("Info.plist ZIP entry is too large"));
    }
    let flags = match read_u16(&bytes, 6) {
        Ok(v) => v & 0xfff7u16,
        Err(e) => return Err(e),
    };
    put_u16(&mut bytes, 6, flags);
    put_u32(&mut bytes, 14, entry.crc32);
    put_u32(&mut bytes, 18, entry.compressed_size as u32);
    put_u32(&mut bytes, 22, entry.uncompressed_size as u32);
    assert(bytes@ =~= patched_header(
        b1,
        entry.crc32,
        entry.compressed_size as nat,
        entry.uncompressed_size as nat,
    ));
    Ok(bytes)
}

/// What reading the first entry of a ZIP stream gives.
#[derive(Debug, Clone)]
pub enum StreamEntry {
    /// The entry's uncompressed contents.
    Contents(Vec<u8>),
    /// The stream starts with the central directory, not with an entry.
    NoEntry,
    /// The `zip` crate refused the entry.
    ZipFailed(String),
    /// Reading the entry's data failed.
    ReadFailed(String),
}

/// The contents of the first entry of the ZIP stream `bytes`, when it can be
/// read: `zip::read::read_zipfile_from_stream` and then reading the entry to
/// its end.
pub uninterp spec fn zip_stream_contents(bytes: Seq<u8>) -> Option<Seq<u8>>;

/// `zip::read::read_zipfile_from_stream` on `bytes`, then `read_to_end` on
/// the entry it yields. The contents are named as a whole; the contract says
/// only that they are what the stream holds, and nothing of the failures.
#[verifier::external_body]
fn read_stream_entry(bytes: Vec<u8>) -> (r: StreamEntry)
    ensures
        r matches StreamEntry::Contents(v) ==> zip_stream_contents(bytes@) == Some(v@),
        !(r is Contents) ==> zip_stream_contents(bytes@) is None,
{
    let mut cursor = std::io::Cursor::new(bytes);
    let mut file = match zip::read::read_zipfile_from_stream(&mut cursor) {
        Ok(Some(f)) => f,
        Ok(None) => return StreamEntry::NoEntry,
        Err(e) => return StreamEntry::ZipFailed(e.to_string()),
    };
    let mut data = Vec::new();
    match std::io::Read::read_to_end(&mut file, &mut data) {
        Ok(_) => StreamEntry::Contents(data),
        Err(e) => StreamEntry::ReadFailed(e.to_string()),
    }
}

/// The uncompressed contents of the local entry in `bytes`, which start at
/// its local header.
pub fn read_local_entry(bytes: Vec<u8>, entry: &RemoteZipEntry) -> (r: Result<
    Vec<u8>,
    IpaToolError,
>)
    ensures
        match r {
            Ok(v) => exists|iso: Seq<u8>|
                isolate_spec(bytes@, *entry) == Ok::<Seq<u8>, ErrorView>(iso)
                    && zip_stream_contents(iso) == Some(v@),
            Err(e) => match isolate_spec(bytes@, *entry) {
                Err(ie) => e@ == ie,
                Ok(iso) => zip_stream_contents(iso) is None,
            },
        },
{
    let isolated = match isolate_local_entry(bytes, entry) {
        Ok(v) => v,
        Err(e) => return Err(e),
    };
    settle_stream_entry(read_stream_entry(isolated))
}

/// What reading the entry comes to: its contents, or the error of the step
/// that failed.
pub fn settle_stream_entry(s: StreamEntry) -> (r: Result<Vec<u8>, IpaToolError>)
    ensures
        match s {
            StreamEntry::Contents(v) => r == Ok::<Vec<u8>, IpaToolError>(v),
            StreamEntry::NoEntry => r matches Err(e) && e@ == ErrorView::Unexpected(
                "invalid Info.plist ZIP entry"@,
            ),
            StreamEntry::ZipFailed(m) => r matches Err(e) && e@ == ErrorView::Zip(m@),
            StreamEntry::ReadFailed(m) => r matches Err(e) && e@ == ErrorView::Io(m@),
        },
{
    match s {
        StreamEntry::Contents(data) => Ok(data),
        StreamEntry::NoEntry => Err(unexpected("invalid Info.plist ZIP entry")),
        StreamEntry::ZipFailed(m) => Err(IpaToolError::Zip(m)),
        StreamEntry::ReadFailed(m) => Err(IpaToolError::Io(m)),
    }
}

} // verus!
