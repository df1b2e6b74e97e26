use std::io::Write;

use ipatool::constants::{
    CUSTOMER_MESSAGE_BAD_LOGIN, DEFAULT_USER_AGENT, FAILURE_TYPE_INVALID_CREDENTIALS,
    FAILURE_TYPE_LICENSE_NOT_FOUND, FAILURE_TYPE_PASSWORD_TOKEN_EXPIRED,
    FAILURE_TYPE_TEMPORARILY_UNAVAILABLE, MAX_LOGIN_ATTEMPTS, PRICING_PARAMETER_APPLE_ARCADE,
    PRICING_PARAMETER_APPSTORE,
};
use ipatool::download::{
    account_metadata, file_name, find_main_info_plist, is_replaced, item_version, manifest_path,
    resolve_sinf_targets, select_download_item, select_version_item, sign_in_again, sinf_writes,
    Attempt, PackageInfo, PackageManifest,
};
use ipatool::error::IpaToolError;
use ipatool::login::{
    account_from_reply, login_form, login_on_auth_code, login_on_reply, start_login, LoginNext,
    LoginReply, LoginState,
};
use ipatool::metadata::{
    display_version, format_release_date, parse_release_date_string, pick_release_date,
    release_date_from_value, settle_civil, version_metadata_from_info, zip_modified_date,
    CivilInstant, PlistEntry, PlistScalar,
};
use ipatool::paths::{extract_bundle_name, is_main_app_info_plist};
use ipatool::purchase::{
    continue_purchase, purchase_reply_outcome, start_purchase, validate_purchase_response,
    PurchaseReply, PurchaseStage, PurchaseStep,
};
use ipatool::remote::{
    check_byte_range, check_range_length, directory_range, isolate_local_entry,
    local_entry_range, locate_central_directory, parse_content_range_size,
    parse_zip64_end_record, read_local_entry, remote_size, require_download_url,
    require_partial_content, settle_stream_entry, tail_range,
    zip64_record_range, DirectoryLocation, StreamEntry,
};
use ipatool::session::{
    app_by_id, app_source, apps_from_entries, auth_endpoint_from_bag, bag_url, first_app,
    follow_redirect, join_path, list_versions_result, require_account, search_result,
    settle_delete, settle_read, AppSource, Config, KeyringOutcome, KeyringStore, SearchEntry,
};
use ipatool::store::{
    download_payload, download_url, list_versions_payload, list_versions_url, purchase_payload,
    purchase_url, version_payload,
};
use ipatool::types::{
    Account, AppRef, BagResult, DownloadItem, DownloadResult, LoginAccountResult,
    LoginAddressResult, LoginResult, PurchaseResult, Sinf, UrlBag,
};
use ipatool::util::{
    accept_guid, body_from, error_line, guid_from_mac, guid_from_mac_text,
    normalize_plist_body, success_line, unwrap_document, unwrap_plist, with_error_style,
    with_success_style,
};
use ipatool::zipdir::{
    extended_timestamp, find_eocd, find_info_entry, read_u16, read_u32, read_u64, zip64_value,
    RemoteZipEntry, ZipDateTime,
};

// ---------------------------------------------------------------------------
// Helpers
// ---------------------------------------------------------------------------

fn account() -> Account {
    Account {
        name: "Jane Doe".into(),
        email: "jane@example.com".into(),
        password_token: "token".into(),
        directory_services_id: "123".into(),
        store_front: "143441-1,29".into(),
        password: "secret".into(),
        pod: Some("25".into()),
    }
}

fn plist_dict(bytes: &[u8]) -> plist::Dictionary {
    plist::Value::from_reader_xml(std::io::Cursor::new(bytes.to_vec()))
        .unwrap()
        .into_dictionary()
        .unwrap()
}

fn item_with(sinfs: Option<Vec<Option<Vec<u8>>>>, url: Option<&str>) -> DownloadItem {
    DownloadItem {
        md5: None,
        url: url.map(str::to_owned),
        metadata: None,
        sinfs: sinfs.map(|v| {
            v.into_iter()
                .map(|data| Sinf { id: None, data })
                .collect()
        }),
    }
}

fn login_result(
    failure_type: Option<&str>,
    customer_message: Option<&str>,
    complete: bool,
) -> LoginResult {
    LoginResult {
        failure_type: failure_type.map(str::to_owned),
        customer_message: customer_message.map(str::to_owned),
        account: if complete {
            Some(LoginAccountResult {
                email: Some("jane@example.com".into()),
                address: Some(LoginAddressResult {
                    first_name: Some("Jane".into()),
                    last_name: Some("Doe".into()),
                }),
            })
        } else {
            None
        },
        directory_services_id: if complete { Some("123".into()) } else { None },
        password_token: if complete { Some("token".into()) } else { None },
    }
}

fn reply(status: u16, location: Option<&str>, result: LoginResult) -> LoginReply {
    LoginReply {
        status,
        location: location.map(str::to_owned),
        store_front: Some("143441-1,29".into()),
        pod: Some("25".into()),
        result,
    }
}

fn dos_time() -> ZipDateTime {
    ZipDateTime {
        year: 2024,
        month: 5,
        day: 6,
        hour: 12,
        minute: 30,
        second: 0,
    }
}

fn entry_for(compressed: u64, uncompressed: u64, crc32: u32) -> RemoteZipEntry {
    RemoteZipEntry {
        local_header_offset: 0,
        compressed_size: compressed,
        uncompressed_size: uncompressed,
        crc32,
        modified: dos_time(),
        unix_modified: None,
    }
}

fn one_file_zip(name: &str, data: &[u8], method: zip::CompressionMethod) -> Vec<u8> {
    let mut w = zip::ZipWriter::new(std::io::Cursor::new(Vec::new()));
    let opts = zip::write::SimpleFileOptions::default().compression_method(method);
    w.start_file(name, opts).unwrap();
    w.write_all(data).unwrap();
    w.finish().unwrap().into_inner()
}

// ---------------------------------------------------------------------------
// Paths
// ---------------------------------------------------------------------------

#[test]
fn bundle_name_is_read_back_from_its_info_plist_path() {
    let path = "Payload/My App.app/Info.plist";
    assert_eq!(extract_bundle_name(path).as_deref(), Some("My App"));
    assert!(is_main_app_info_plist(path));
}

#[test]
fn an_empty_bundle_name_is_refused_but_the_path_is_still_a_main_info_plist() {
    assert!(extract_bundle_name("Payload/.app/Info.plist").is_none());
    assert!(is_main_app_info_plist("Payload/.app/Info.plist"));
}

#[test]
fn paths_outside_the_payload_are_not_info_plists() {
    assert!(!is_main_app_info_plist("Other/Test.app/Info.plist"));
    assert!(!is_main_app_info_plist("Payload/Test/Info.plist"));
    assert!(extract_bundle_name("Payload/Test.app/Info.plis").is_none());
    assert!(extract_bundle_name("").is_none());
}

// ---------------------------------------------------------------------------
// ZIP structures
// ---------------------------------------------------------------------------

#[test]
fn reads_little_endian_integers() {
    let data = [0x01, 0x02, 0x03, 0x04, 0x05, 0x06, 0x07, 0x08, 0x09];
    assert_eq!(read_u16(&data, 0).unwrap(), 0x0201);
    assert_eq!(read_u32(&data, 1).unwrap(), 0x0504_0302);
    assert_eq!(read_u64(&data, 1).unwrap(), 0x0908_0706_0504_0302);
    assert!(matches!(read_u16(&data, 8), Err(IpaToolError::Unexpected(_))));
    assert!(read_u64(&data, 2).is_err());
}

#[test]
fn finds_the_last_end_record_whose_comment_fits() {
    let mut data = vec![0u8; 52];
    data[0..4].copy_from_slice(&0x0605_4b50_u32.to_le_bytes());
    data[20..22].copy_from_slice(&30_u16.to_le_bytes());
    data[30..34].copy_from_slice(&0x0605_4b50_u32.to_le_bytes());
    assert_eq!(find_eocd(&data).unwrap(), 30);
    assert!(find_eocd(&[0u8; 10]).is_err());
}

#[test]
fn reads_zip64_extra_fields() {
    let mut extra = vec![0x01, 0x00, 16, 0];
    extra.extend_from_slice(&7_u64.to_le_bytes());
    extra.extend_from_slice(&9_u64.to_le_bytes());
    assert_eq!(zip64_value(&extra, 0).unwrap(), 7);
    assert_eq!(zip64_value(&extra, 8).unwrap(), 9);
    assert!(zip64_value(&extra, 16).is_err());
    assert!(zip64_value(&[0x55, 0x54, 0, 0], 0).is_err());
}

#[test]
fn extended_timestamp_needs_the_modification_flag() {
    let mut extra = vec![0x55, 0x54, 5, 0, 0];
    extra.extend_from_slice(&10_u32.to_le_bytes());
    assert_eq!(extended_timestamp(&extra), None);
    assert_eq!(extended_timestamp(&[]), None);
}

#[test]
fn reads_the_modification_time_of_the_info_plist_entry() {
    let name = b"Payload/Test.app/Info.plist";
    let mut directory = vec![0; 46 + name.len()];
    directory[0..4].copy_from_slice(&0x0201_4b50_u32.to_le_bytes());
    // 12:30:00 on 2024-05-06
    directory[12..14].copy_from_slice(&((12u16 << 11) | (30 << 5)).to_le_bytes());
    directory[14..16].copy_from_slice(&(((2024u16 - 1980) << 9) | (5 << 5) | 6).to_le_bytes());
    directory[28..30].copy_from_slice(&(name.len() as u16).to_le_bytes());
    directory[46..].copy_from_slice(name);
    let entry = find_info_entry(&directory, 1).unwrap();
    assert_eq!(entry.modified, dos_time());
    assert_eq!(entry.unix_modified, None);
}

#[test]
fn a_directory_without_the_info_plist_is_an_error() {
    let name = b"Payload/Test.app/Watch/W.app/Info.plist";
    let mut directory = vec![0; 46 + name.len()];
    directory[0..4].copy_from_slice(&0x0201_4b50_u32.to_le_bytes());
    directory[14..16].copy_from_slice(&0x0021_u16.to_le_bytes());
    directory[28..30].copy_from_slice(&(name.len() as u16).to_le_bytes());
    directory[46..].copy_from_slice(name);
    assert!(find_info_entry(&directory, 1).is_err());
    assert!(find_info_entry(&[1, 2, 3], 1).is_err());
}

// ---------------------------------------------------------------------------
// Remote reading
// ---------------------------------------------------------------------------

#[test]
fn content_range_sizes() {
    assert_eq!(parse_content_range_size("bytes 0-0/1").unwrap(), 1);
    assert!(parse_content_range_size("bytes 0-0/").is_err());
    assert!(parse_content_range_size("197440775").is_err());
}

#[test]
fn opening_a_remote_archive() {
    assert!(require_download_url("https://cdn/a.ipa").is_ok());
    assert!(matches!(
        require_download_url(""),
        Err(IpaToolError::MissingData { thing }) if thing == "download URL"
    ));
    assert_eq!(remote_size(206, "206 Partial Content", Some("bytes 0-0/1234")).unwrap(), 1234);
    assert!(matches!(
        remote_size(200, "200 OK", Some("bytes 0-0/1234")),
        Err(IpaToolError::Unexpected(m)) if m == "expected partial content response, got HTTP 200 OK"
    ));
    assert!(matches!(
        remote_size(206, "206 Partial Content", None),
        Err(IpaToolError::MissingData { thing }) if thing == "Content-Range header"
    ));
    assert!(matches!(
        remote_size(206, "206 Partial Content", Some("bytes 0-0/*")),
        Err(IpaToolError::Unexpected(m)) if m == "invalid Content-Range: bytes 0-0/*"
    ));
    assert!(require_partial_content(206, "206 Partial Content").is_ok());
}

#[test]
fn the_default_settings_live_in_a_home_directory() {
    match Config::default_from_home() {
        Ok(c) => {
            assert!(c.config_dir.ends_with(".ipatool"));
            assert_eq!(c.cookies_path, format!("{}/cookies", c.config_dir));
        }
        Err(e) => assert!(matches!(e, IpaToolError::NoHomeDir)),
    }
}

#[test]
fn byte_ranges_are_checked_before_and_after_fetching() {
    assert!(check_byte_range(0, 9, 10).is_ok());
    match check_byte_range(5, 10, 10) {
        Err(IpaToolError::Unexpected(m)) => {
            assert_eq!(m, "invalid IPA byte range 5-10 for 10 byte file")
        }
        other => panic!("unexpected {:?}", other),
    }
    assert!(check_byte_range(6, 5, 10).is_err());
    assert!(check_range_length(0, 9, 10).is_ok());
    match check_range_length(0, 9, 4) {
        Err(IpaToolError::Unexpected(m)) => {
            assert_eq!(m, "short IPA byte range: expected 10 bytes, got 4")
        }
        other => panic!("unexpected {:?}", other),
    }
}

#[test]
fn the_tail_holds_the_largest_end_record() {
    assert_eq!(tail_range(100), (0, 99));
    assert_eq!(tail_range(1_000_000), (1_000_000 - 65557, 999_999));
    assert_eq!(zip64_record_range(10), (10, 65));
    assert_eq!(directory_range(5, 100).unwrap(), (100, 104));
    assert!(directory_range(0, 100).is_err());
    assert!(directory_range(2, u64::MAX).is_err());
}

#[test]
fn locates_the_central_directory_of_a_real_archive() {
    let bytes = one_file_zip("Payload/Test.app/Info.plist", b"hello", zip::CompressionMethod::Stored);
    match locate_central_directory(&bytes).unwrap() {
        DirectoryLocation::Known { entries, size, offset } => {
            assert_eq!(entries, 1);
            assert!(size > 0);
            assert!(offset > 0 && offset + size <= bytes.len() as u64);
        }
        other => panic!("unexpected {:?}", other),
    }
}

#[test]
fn follows_the_zip64_locator() {
    let mut tail = vec![0u8; 20 + 22];
    tail[0..4].copy_from_slice(&0x0706_4b50_u32.to_le_bytes());
    tail[8..16].copy_from_slice(&1234_u64.to_le_bytes());
    tail[20..24].copy_from_slice(&0x0605_4b50_u32.to_le_bytes());
    tail[30..32].copy_from_slice(&0xffff_u16.to_le_bytes());
    assert_eq!(locate_central_directory(&tail).unwrap(), DirectoryLocation::Zip64At(1234));

    let mut rec = vec![0u8; 56];
    rec[0..4].copy_from_slice(&0x0606_4b50_u32.to_le_bytes());
    rec[32..40].copy_from_slice(&3_u64.to_le_bytes());
    rec[40..48].copy_from_slice(&400_u64.to_le_bytes());
    rec[48..56].copy_from_slice(&500_u64.to_le_bytes());
    assert_eq!(parse_zip64_end_record(&rec).unwrap(), (3, 400, 500));
    assert!(parse_zip64_end_record(&[0u8; 56]).is_err());
}

#[test]
fn the_local_entry_range_is_capped_by_the_file() {
    let entry = entry_for(100, 100, 0);
    assert_eq!(local_entry_range(&entry, 1000).unwrap(), (0, 999));
    assert_eq!(
        local_entry_range(&entry, 1_000_000).unwrap(),
        (0, 30 + 2 * 65535 + 100 - 1)
    );
}

#[test]
fn reads_a_local_entry_written_by_the_zip_crate() {
    let data = b"<plist><dict></dict></plist>".repeat(20);
    let bytes = one_file_zip("Payload/Test.app/Info.plist", &data, zip::CompressionMethod::Deflated);
    let archive = zip::ZipArchive::new(std::io::Cursor::new(bytes.clone())).unwrap();
    let mut archive = archive;
    let f = archive.by_index(0).unwrap();
    let entry = entry_for(f.compressed_size(), f.size(), f.crc32());
    drop(f);
    let mut padded = bytes.clone();
    padded.extend_from_slice(&[0u8; 16]);
    assert_eq!(read_local_entry(padded, &entry).unwrap(), data);
    let isolated = isolate_local_entry(bytes.clone(), &entry).unwrap();
    assert!(isolated.len() < bytes.len());
    let word = |at: usize| u32::from_le_bytes(isolated[at..at + 4].try_into().unwrap());
    assert_eq!(word(14), entry.crc32);
    assert_eq!(word(18) as u64, entry.compressed_size);
    assert_eq!(word(22) as u64, entry.uncompressed_size);
    assert_eq!(isolated[6] & 8, 0);
    assert!(matches!(
        isolate_local_entry(vec![1, 2, 3, 4, 5], &entry),
        Err(IpaToolError::Unexpected(_))
    ));
}

#[test]
fn stream_outcomes_become_errors() {
    assert_eq!(settle_stream_entry(StreamEntry::Contents(vec![1])).unwrap(), vec![1]);
    assert!(matches!(
        settle_stream_entry(StreamEntry::ZipFailed("z".into())),
        Err(IpaToolError::Zip(m)) if m == "z"
    ));
    assert!(matches!(
        settle_stream_entry(StreamEntry::ReadFailed("r".into())),
        Err(IpaToolError::Io(m)) if m == "r"
    ));
    assert!(matches!(
        settle_stream_entry(StreamEntry::NoEntry),
        Err(IpaToolError::Unexpected(m)) if m == "invalid Info.plist ZIP entry"
    ));
}

// ---------------------------------------------------------------------------
// Version metadata
// ---------------------------------------------------------------------------

#[test]
fn display_version_falls_back_to_the_store_key() {
    let metadata = vec![PlistEntry {
        key: "bundleShortVersionString".into(),
        value: PlistScalar::Integer(42),
    }];
    assert_eq!(display_version(&metadata).unwrap(), "42");
    let blank = vec![PlistEntry {
        key: "CFBundleShortVersionString".into(),
        value: PlistScalar::String("  ".into()),
    }];
    assert!(matches!(
        display_version(&blank),
        Err(IpaToolError::MissingData { thing }) if thing == "CFBundleShortVersionString"
    ));
    assert!(matches!(
        display_version(&vec![]),
        Err(IpaToolError::MissingData { thing }) if thing == "Info.plist display version"
    ));
}

#[test]
fn release_dates_in_every_supported_form() {
    let want = "2024-05-06T00:00:00Z";
    let long = parse_release_date_string(" Monday, May 6, 2024 ").unwrap();
    assert_eq!(format_release_date(long).unwrap(), want);
    let rfc = parse_release_date_string("2024-05-06T00:00:00Z").unwrap();
    assert_eq!(format_release_date(rfc).unwrap(), want);
    let from_int = release_date_from_value(&PlistScalar::Integer(1_714_953_600)).unwrap();
    assert_eq!(format_release_date(from_int).unwrap(), want);
    assert!(matches!(
        parse_release_date_string("soon"),
        Err(IpaToolError::Unexpected(m)) if m == "invalid release date: soon"
    ));
    assert!(release_date_from_value(&PlistScalar::Boolean(true)).is_err());
    assert!(release_date_from_value(&PlistScalar::Integer(i128::MAX)).is_err());
}

#[test]
fn picks_the_first_reading_that_worked() {
    assert_eq!(pick_release_date("x", Some(1), Some(2), Some(3)).unwrap(), 1);
    assert_eq!(pick_release_date("x", None, Some(2), Some(3)).unwrap(), 2);
    assert_eq!(pick_release_date("x", None, None, Some(3)).unwrap(), 3);
    assert!(matches!(
        pick_release_date("x", None, None, None),
        Err(IpaToolError::Unexpected(m)) if m == "invalid release date: x"
    ));
}

#[test]
fn zip_modification_times() {
    let n = zip_modified_date(dos_time()).unwrap();
    assert_eq!(format_release_date(n).unwrap(), "2024-05-06T12:30:00Z");
    let bad_month = ZipDateTime { month: 13, ..dos_time() };
    assert!(matches!(
        zip_modified_date(bad_month),
        Err(IpaToolError::Unexpected(m)) if m == "invalid ZIP modification month"
    ));
    let bad_day = ZipDateTime { day: 31, month: 2, ..dos_time() };
    assert!(matches!(
        zip_modified_date(bad_day),
        Err(IpaToolError::Unexpected(m)) if m == "invalid ZIP modification date"
    ));
    let bad_time = ZipDateTime { hour: 25, ..dos_time() };
    assert!(matches!(
        zip_modified_date(bad_time),
        Err(IpaToolError::Unexpected(m)) if m == "invalid ZIP modification time"
    ));
    assert!(matches!(
        settle_civil(CivilInstant::BadTime),
        Err(IpaToolError::Unexpected(m)) if m == "invalid ZIP modification time"
    ));
    assert_eq!(settle_civil(CivilInstant::Instant(5)).unwrap(), 5);
}

#[test]
fn civil_instants_and_timestamp_bounds() {
    assert_eq!(zip_modified_date(dos_time()).unwrap(), 1_714_998_600_000_000_000);
    let leap = ZipDateTime { year: 2024, month: 2, day: 29, hour: 0, minute: 0, second: 0 };
    assert_eq!(zip_modified_date(leap).unwrap(), 1_709_164_800_000_000_000);
    let not_leap = ZipDateTime { year: 2023, ..leap };
    assert!(matches!(
        zip_modified_date(not_leap),
        Err(IpaToolError::Unexpected(m)) if m == "invalid ZIP modification date"
    ));
    let century = ZipDateTime { year: 2100, ..leap };
    assert!(zip_modified_date(century).is_err());
    let too_late = ZipDateTime { year: 10000, month: 1, day: 1, ..leap };
    assert!(zip_modified_date(too_late).is_err());
    assert!(release_date_from_value(&PlistScalar::Integer(253_402_300_799)).is_ok());
    assert!(release_date_from_value(&PlistScalar::Integer(253_402_300_800)).is_err());
    assert_eq!(
        release_date_from_value(&PlistScalar::Integer(-377_705_116_800)).unwrap(),
        -377_705_116_800_000_000_000
    );
    assert!(release_date_from_value(&PlistScalar::Integer(-377_705_116_801)).is_err());
}

#[test]
fn version_metadata_uses_the_entry_time_without_a_release_date() {
    let info = vec![PlistEntry {
        key: "CFBundleShortVersionString".into(),
        value: PlistScalar::String("1.2".into()),
    }];
    let mut entry = entry_for(1, 1, 0);
    entry.unix_modified = Some(1_714_953_600);
    let m = version_metadata_from_info(&info, &entry).unwrap();
    assert_eq!(m.display_version, "1.2");
    assert_eq!(m.release_date, "2024-05-06T00:00:00Z");

    let mut info2 = info.clone();
    info2.push(PlistEntry {
        key: "releaseDate".into(),
        value: PlistScalar::String("2020-01-02".into()),
    });
    let m2 = version_metadata_from_info(&info2, &entry).unwrap();
    assert_eq!(m2.release_date, "2020-01-02T00:00:00Z");
}

// ---------------------------------------------------------------------------
// Store endpoints and bodies
// ---------------------------------------------------------------------------

#[test]
fn store_endpoints() {
    let pod = "https://p25-buy.itunes.apple.com/WebObjects/MZFinance.woa/wa/";
    assert_eq!(purchase_url(Some("25")), format!("{pod}buyProduct"));
    assert_eq!(
        purchase_url(None),
        "https://buy.itunes.apple.com/WebObjects/MZFinance.woa/wa/buyProduct"
    );
    assert_eq!(purchase_url(Some("")), purchase_url(None));
    assert_eq!(
        download_url(Some("25"), "ABC"),
        format!("{pod}volumeStoreDownloadProduct?guid=ABC")
    );
    assert_eq!(
        list_versions_url(Some(""), "ABC"),
        "https://p-buy.itunes.apple.com/WebObjects/MZFinance.woa/wa/volumeStoreDownloadProduct?guid=ABC"
    );
    assert_eq!(bag_url("ABC"), "https://init.itunes.apple.com/bag.xml?guid=ABC");
}

#[test]
fn purchase_body_fields() {
    let d = plist_dict(&purchase_payload("GUID", 42, PRICING_PARAMETER_APPSTORE).unwrap());
    assert_eq!(d.len(), 12);
    assert_eq!(d.get("origPage").and_then(|v| v.as_string()), Some("Software-42"));
    assert_eq!(d.get("salableAdamId").and_then(|v| v.as_signed_integer()), Some(42));
    assert_eq!(d.get("pricingParameters").and_then(|v| v.as_string()), Some("STDQ"));
    assert_eq!(d.get("guid").and_then(|v| v.as_string()), Some("GUID"));
}

#[test]
fn download_body_fields() {
    let d = plist_dict(&download_payload("GUID", 7, Some("99")).unwrap());
    assert_eq!(d.get("externalVersionId").and_then(|v| v.as_string()), Some("99"));
    assert_eq!(d.get("creditDisplay").and_then(|v| v.as_string()), Some(""));
    let d = plist_dict(&download_payload("GUID", 7, Some("")).unwrap());
    assert!(d.get("externalVersionId").is_none());
    let d = plist_dict(&version_payload("GUID", 7, "55").unwrap());
    assert_eq!(d.get("externalVersionId").and_then(|v| v.as_string()), Some("55"));
    let d = plist_dict(&list_versions_payload("GUID", 7).unwrap());
    assert_eq!(d.len(), 3);
}

// ---------------------------------------------------------------------------
// Purchase
// ---------------------------------------------------------------------------

#[test]
fn a_purchase_needs_the_store_to_confirm_it() {
    let not_confirmed = PurchaseResult {
        failure_type: None,
        customer_message: None,
        jingle_doc_type: Some("purchaseSuccess".into()),
        status: Some(1),
    };
    assert!(matches!(
        validate_purchase_response(200, not_confirmed),
        Err(IpaToolError::Unexpected(m)) if m == "failed to purchase app"
    ));
}

#[test]
fn purchase_failures_carry_the_store_message() {
    let r = PurchaseResult {
        failure_type: Some("1".into()),
        customer_message: None,
        jingle_doc_type: None,
        status: None,
    };
    assert!(matches!(
        validate_purchase_response(200, r),
        Err(IpaToolError::Unexpected(m)) if m == "purchase failed with failure type 1"
    ));
    let r = PurchaseResult {
        failure_type: Some(FAILURE_TYPE_TEMPORARILY_UNAVAILABLE.into()),
        customer_message: None,
        jingle_doc_type: None,
        status: None,
    };
    assert!(matches!(
        validate_purchase_response(200, r),
        Err(IpaToolError::TemporarilyUnavailable)
    ));
    let r = PurchaseResult {
        failure_type: None,
        customer_message: Some("Subscription Required".into()),
        jingle_doc_type: None,
        status: None,
    };
    assert!(matches!(validate_purchase_response(200, r), Err(IpaToolError::SubscriptionRequired)));
}

#[test]
fn a_purchase_falls_back_to_arcade_pricing_once() {
    assert!(matches!(
        start_purchase(true),
        PurchaseStep::Done(Err(IpaToolError::PaidAppsNotSupported))
    ));
    match start_purchase(false) {
        PurchaseStep::Request { pricing_parameters, stage } => {
            assert_eq!(pricing_parameters, PRICING_PARAMETER_APPSTORE);
            assert_eq!(stage, PurchaseStage::AppStore);
        }
        other => panic!("unexpected {:?}", other),
    }
    let unavailable = || PurchaseReply::Answer {
        status: 200,
        body: Ok(PurchaseResult {
            failure_type: Some(FAILURE_TYPE_TEMPORARILY_UNAVAILABLE.into()),
            customer_message: None,
            jingle_doc_type: None,
            status: None,
        }),
    };
    match continue_purchase(PurchaseStage::AppStore, unavailable()) {
        PurchaseStep::Request { pricing_parameters, stage } => {
            assert_eq!(pricing_parameters, PRICING_PARAMETER_APPLE_ARCADE);
            assert_eq!(stage, PurchaseStage::Arcade);
        }
        other => panic!("unexpected {:?}", other),
    }
    assert!(matches!(
        continue_purchase(PurchaseStage::Arcade, unavailable()),
        PurchaseStep::Done(Err(IpaToolError::TemporarilyUnavailable))
    ));
}

#[test]
fn a_server_error_means_the_licence_exists() {
    let reply = PurchaseReply::Answer {
        status: 500,
        body: Err(IpaToolError::Plist("not a plist".into())),
    };
    assert!(matches!(purchase_reply_outcome(reply), Err(IpaToolError::LicenseAlreadyExists)));
    let reply = PurchaseReply::Answer {
        status: 200,
        body: Err(IpaToolError::Plist("not a plist".into())),
    };
    assert!(matches!(purchase_reply_outcome(reply), Err(IpaToolError::Plist(_))));
    let reply = PurchaseReply::Failed(IpaToolError::Http("down".into()));
    assert!(matches!(purchase_reply_outcome(reply), Err(IpaToolError::Http(_))));
}

// ---------------------------------------------------------------------------
// Download
// ---------------------------------------------------------------------------

#[test]
fn download_answers() {
    let answer = |failure: Option<&str>, message: Option<&str>, items: Option<Vec<DownloadItem>>| {
        DownloadResult {
            failure_type: failure.map(str::to_owned),
            customer_message: message.map(str::to_owned),
            items,
        }
    };
    assert!(matches!(
        select_download_item(answer(Some(FAILURE_TYPE_PASSWORD_TOKEN_EXPIRED), None, None)),
        Err(IpaToolError::PasswordTokenExpired)
    ));
    assert!(matches!(
        select_download_item(answer(Some(FAILURE_TYPE_LICENSE_NOT_FOUND), None, None)),
        Err(IpaToolError::LicenseRequired)
    ));
    assert!(matches!(
        select_download_item(answer(Some("x"), Some("nope"), None)),
        Err(IpaToolError::Unexpected(m)) if m == "nope"
    ));
    assert!(matches!(
        select_download_item(answer(Some("x"), None, None)),
        Err(IpaToolError::Unexpected(m)) if m == "x"
    ));
    assert!(matches!(
        select_download_item(answer(None, None, Some(vec![]))),
        Err(IpaToolError::Unexpected(m)) if m == "invalid response"
    ));
    assert!(matches!(
        select_download_item(answer(None, None, Some(vec![item_with(None, None)]))),
        Err(IpaToolError::Unexpected(m)) if m == "missing download URL"
    ));
    let item = select_download_item(answer(
        None,
        None,
        Some(vec![item_with(None, Some("https://a")), item_with(None, Some("https://b"))]),
    ))
    .unwrap();
    assert_eq!(item.url.as_deref(), Some("https://a"));
    let v = select_version_item(answer(None, None, Some(vec![item_with(None, None)]))).unwrap();
    assert!(v.url.is_none());
}

#[test]
fn file_names() {
    let app = AppRef {
        id: 42,
        bundle_id: Some("com.example.app".into()),
        name: None,
    };
    assert_eq!(file_name(&app, "1.0"), "com.example.app_42_1.0.ipa");
    assert_eq!(file_name(&app, ""), "com.example.app_42.ipa");
    assert_eq!(file_name(&app_by_id(0), ""), ".ipa");
    assert_eq!(file_name(&app_by_id(7), "2"), "7_2.ipa");
}

#[test]
fn item_versions() {
    let mut item = item_with(None, None);
    assert_eq!(item_version(&item), "unknown");
    item.metadata = Some(vec![PlistEntry {
        key: "bundleShortVersionString".into(),
        value: PlistScalar::String("3.1".into()),
    }]);
    assert_eq!(item_version(&item), "3.1");
    item.metadata = Some(vec![PlistEntry {
        key: "bundleShortVersionString".into(),
        value: PlistScalar::Integer(5),
    }]);
    assert_eq!(item_version(&item), "5");
    item.metadata = Some(vec![PlistEntry {
        key: "bundleShortVersionString".into(),
        value: PlistScalar::String("".into()),
    }]);
    assert_eq!(item_version(&item), "unknown");
}

#[test]
fn every_signature_gets_a_target_inside_the_bundle() {
    let item = item_with(Some(vec![Some(vec![1]), Some(vec![2])]), None);
    let info = PackageInfo { bundle_executable: Some("Telegram".into()) };
    let manifest = PackageManifest {
        sinf_paths: Some(vec!["SC_Info/One.sinf".into(), "SC_Info/Two.sinf".into()]),
    };
    let targets = resolve_sinf_targets(&item, "Telegram", &info, Some(&manifest)).unwrap();
    assert_eq!(
        targets,
        vec![
            "Payload/Telegram.app/SC_Info/One.sinf".to_string(),
            "Payload/Telegram.app/SC_Info/Two.sinf".to_string()
        ]
    );
    let writes = sinf_writes(&item, &targets).unwrap();
    assert_eq!(writes.len(), 2);
    assert_eq!(writes[1], ("Payload/Telegram.app/SC_Info/Two.sinf".to_string(), vec![2]));
}

#[test]
fn without_a_manifest_the_signature_sits_beside_the_executable() {
    let item = item_with(Some(vec![Some(vec![1])]), None);
    let info = PackageInfo { bundle_executable: Some("Telegram".into()) };
    assert_eq!(
        resolve_sinf_targets(&item, "Telegram", &info, None).unwrap(),
        vec!["Payload/Telegram.app/SC_Info/Telegram.sinf".to_string()]
    );
    let no_exe = PackageInfo { bundle_executable: Some("".into()) };
    assert!(matches!(
        resolve_sinf_targets(&item, "Telegram", &no_exe, None),
        Err(IpaToolError::MissingData { thing }) if thing == "CFBundleExecutable"
    ));
    let two = item_with(Some(vec![Some(vec![1]), Some(vec![2])]), None);
    assert!(matches!(
        resolve_sinf_targets(&two, "Telegram", &info, None),
        Err(IpaToolError::SinfCountMismatch { sinfs: 2, targets: 1 })
    ));
    let missing = item_with(Some(vec![None]), None);
    assert!(matches!(
        resolve_sinf_targets(&missing, "Telegram", &info, None),
        Err(IpaToolError::MissingData { thing }) if thing == "SINF data"
    ));
    assert!(matches!(
        sinf_writes(&missing, &vec!["a".into()]),
        Err(IpaToolError::MissingData { .. })
    ));
}

#[test]
fn patch_plan() {
    let names = vec![
        "Payload/T.app/PlugIns/S.appex/Info.plist".to_string(),
        "Payload/T.app/Info.plist".to_string(),
    ];
    let (path, bundle) = find_main_info_plist(&names).unwrap();
    assert_eq!(path, "Payload/T.app/Info.plist");
    assert_eq!(bundle, "T");
    assert!(matches!(
        find_main_info_plist(&vec![]),
        Err(IpaToolError::MissingData { thing }) if thing == "main app Info.plist"
    ));
    assert_eq!(manifest_path("T"), "Payload/T.app/SC_Info/Manifest.plist");
    let targets = vec!["Payload/T.app/SC_Info/T.sinf".to_string()];
    assert!(is_replaced("iTunesMetadata.plist", &targets));
    assert!(is_replaced("Payload/T.app/SC_Info/T.sinf", &targets));
    assert!(!is_replaced("Payload/T.app/T", &targets));
    let source = vec![
        "Payload/T.app/T".to_string(),
        "iTunesMetadata.plist".to_string(),
        "Payload/T.app/SC_Info/T.sinf".to_string(),
    ];
    let mut written: Vec<String> =
        source.iter().filter(|n| !is_replaced(n, &targets)).cloned().collect();
    written.push("iTunesMetadata.plist".into());
    written.extend(targets.iter().cloned());
    assert_eq!(written.iter().filter(|n| *n == "iTunesMetadata.plist").count(), 1);
    assert_eq!(written.iter().filter(|n| **n == targets[0]).count(), 1);
    let meta = account_metadata(&account());
    assert_eq!(meta[0], ("apple-id".to_string(), "jane@example.com".to_string()));
    assert_eq!(meta[1], ("userName".to_string(), "jane@example.com".to_string()));
}

#[test]
fn sign_in_again_only_once_and_only_for_an_expired_token() {
    let expired: Result<(), IpaToolError> = Err(IpaToolError::PasswordTokenExpired);
    let other: Result<(), IpaToolError> = Err(IpaToolError::LicenseRequired);
    assert!(sign_in_again(Attempt::First, &expired));
    assert!(!sign_in_again(Attempt::AfterSignIn, &expired));
    assert!(!sign_in_again(Attempt::First, &other));
    assert!(!sign_in_again(Attempt::First, &Ok(())));
}

// ---------------------------------------------------------------------------
// Sign-in
// ---------------------------------------------------------------------------

fn sent(n: LoginNext) -> LoginState {
    match n {
        LoginNext::Send(s) => s,
        other => panic!("expected a request, got {:?}", other),
    }
}

#[test]
fn the_sign_in_form() {
    let s = start_login("https://auth".into(), Some("123 456".into()), false);
    let form = login_form(&s, "jane@example.com", "GUID", "secret");
    let want: Vec<(String, String)> = vec![
        ("appleId".into(), "jane@example.com".into()),
        ("attempt".into(), "1".into()),
        ("guid".into(), "GUID".into()),
        ("password".into(), "secret123456".into()),
        ("rmp".into(), "0".into()),
        ("why".into(), "signIn".into()),
    ];
    assert_eq!(form, want);
}

#[test]
fn invalid_credentials_are_tried_once_more() {
    let s = start_login("https://auth".into(), None, false);
    let bad = reply(200, None, login_result(Some(FAILURE_TYPE_INVALID_CREDENTIALS), None, false));
    let s2 = sent(login_on_reply(s, bad));
    assert_eq!(s2.attempt, 2);
    assert_eq!(s2.endpoint, "https://auth");
    let bad = reply(200, None, login_result(Some(FAILURE_TYPE_INVALID_CREDENTIALS), None, false));
    assert!(matches!(
        login_on_reply(s2, bad),
        LoginNext::Done(Err(IpaToolError::Unexpected(m))) if m == "something went wrong"
    ));
}

#[test]
fn redirects_move_the_endpoint_and_the_requests_are_bounded() {
    let mut s = start_login("https://auth".into(), None, false);
    for k in 1..MAX_LOGIN_ATTEMPTS {
        let r = reply(302, Some("https://elsewhere"), login_result(None, None, false));
        s = sent(login_on_reply(s, r));
        assert_eq!(s.attempt, k + 1);
        assert_eq!(s.endpoint, "https://elsewhere");
    }
    let r = reply(302, Some("https://again"), login_result(None, None, false));
    match login_on_reply(s, r) {
        LoginNext::Done(Ok(last)) => assert_eq!(last.status, 302),
        other => panic!("unexpected {:?}", other),
    }
    let s = start_login("https://auth".into(), None, false);
    assert!(matches!(
        login_on_reply(s, reply(302, None, login_result(None, None, false))),
        LoginNext::Done(Err(IpaToolError::Unexpected(m))) if m == "redirect without location header"
    ));
}

#[test]
fn a_two_factor_code_is_asked_for_and_sent() {
    let s = start_login("https://auth".into(), None, true);
    let r = reply(200, None, login_result(None, Some(CUSTOMER_MESSAGE_BAD_LOGIN), false));
    let waiting = match login_on_reply(s, r) {
        LoginNext::AskAuthCode(t) => t,
        other => panic!("unexpected {:?}", other),
    };
    let next = sent(login_on_auth_code(waiting.clone(), Some("12 34".into())));
    assert_eq!(next.attempt, 2);
    assert_eq!(login_form(&next, "e", "g", "pw")[3].1, "pw1234");
    assert!(matches!(
        login_on_auth_code(waiting, None),
        LoginNext::Done(Err(IpaToolError::AuthCodeRequired))
    ));
    let s = start_login("https://auth".into(), None, false);
    let r = reply(200, None, login_result(None, Some(CUSTOMER_MESSAGE_BAD_LOGIN), false));
    assert!(matches!(login_on_reply(s, r), LoginNext::Done(Err(IpaToolError::AuthCodeRequired))));
}

#[test]
fn an_accepted_sign_in_becomes_the_account() {
    let s = start_login("https://auth".into(), None, false);
    let r = reply(200, None, login_result(None, None, true));
    let done = match login_on_reply(s, r) {
        LoginNext::Done(Ok(r)) => r,
        other => panic!("unexpected {:?}", other),
    };
    let acc = account_from_reply(done, "typed@example.com", "secret").unwrap();
    assert_eq!(acc.name, "Jane Doe");
    assert_eq!(acc.email, "jane@example.com");
    assert_eq!(acc.password_token, "token");
    assert_eq!(acc.directory_services_id, "123");
    assert_eq!(acc.store_front, "143441-1,29");
    assert_eq!(acc.password, "secret");
    assert_eq!(acc.pod.as_deref(), Some("25"));

    let mut r = reply(200, None, login_result(None, None, true));
    r.store_front = None;
    assert!(matches!(
        account_from_reply(r, "e", "p"),
        Err(IpaToolError::Unexpected(m)) if m == "missing storefront header"
    ));
}

#[test]
fn a_disabled_account_stops_the_sign_in() {
    let s = start_login("https://auth".into(), None, false);
    let r = reply(200, None, login_result(None, Some("Your account is disabled."), false));
    assert!(matches!(
        login_on_reply(s, r),
        LoginNext::Done(Err(IpaToolError::Unexpected(m))) if m == "account is disabled"
    ));
}

// ---------------------------------------------------------------------------
// Session
// ---------------------------------------------------------------------------

#[test]
fn settings_live_under_the_home_directory() {
    let c = Config::from_home(Some("/home/jane".into())).unwrap();
    assert_eq!(c.config_dir, "/home/jane/.ipatool");
    assert_eq!(c.cookies_path, "/home/jane/.ipatool/cookies");
    assert_eq!(c.keyring_service, "ipatool-auth.service");
    assert_eq!(c.keyring_account_key, "account");
    assert_eq!(c.user_agent, DEFAULT_USER_AGENT);
    assert!(matches!(Config::from_home(None), Err(IpaToolError::NoHomeDir)));
    assert_eq!(join_path("/", "x"), "/x");
    assert_eq!(join_path("", "x"), "x");
    let p = std::path::Path::new("/home/jane").join(".ipatool");
    assert_eq!(p.to_string_lossy(), c.config_dir);
}

#[test]
fn keyring_outcomes() {
    assert!(settle_delete(KeyringOutcome::Done(())).is_ok());
    assert!(settle_delete(KeyringOutcome::NoEntry).is_ok());
    assert!(matches!(
        settle_delete(KeyringOutcome::Failed("locked".into())),
        Err(IpaToolError::Keyring(m)) if m == "locked"
    ));
    assert_eq!(settle_read(KeyringOutcome::Done("{}".into())).unwrap(), Some("{}".to_string()));
    assert_eq!(settle_read(KeyringOutcome::NoEntry).unwrap(), None);
    assert!(settle_read(KeyringOutcome::Failed("x".into())).is_err());
    let store = KeyringStore::new("ipatool-test.service".into(), "nobody".into());
    match store.get_json() {
        Ok(_) | Err(IpaToolError::Keyring(_)) => {}
        Err(other) => panic!("unexpected {:?}", other),
    }
}

#[test]
fn the_saved_account_is_required() {
    assert_eq!(require_account(Some(account())).unwrap().email, "jane@example.com");
    assert!(matches!(require_account(None), Err(IpaToolError::NoSavedAccount)));
}

#[test]
fn the_bag_names_the_sign_in_endpoint() {
    let bag = |u: &str| BagResult { url_bag: UrlBag { auth_endpoint: u.into() } };
    assert_eq!(auth_endpoint_from_bag(bag("https://auth")).unwrap(), "https://auth");
    assert!(matches!(auth_endpoint_from_bag(bag("")), Err(IpaToolError::AuthBagError)));
}

#[test]
fn redirects_from_the_sign_in_address_are_not_followed() {
    assert!(!follow_redirect(Some(
        "https://buy.itunes.apple.com/WebObjects/MZFinance.woa/wa/authenticate"
    )));
    assert!(follow_redirect(Some("https://example.com")));
    assert!(follow_redirect(None));
}

#[test]
fn which_app_a_request_is_about() {
    assert!(matches!(app_source(Some(1), Some("b".into())), Ok(AppSource::Lookup(b)) if b == "b"));
    assert!(matches!(app_source(Some(1), None), Ok(AppSource::ById(1))));
    assert!(matches!(app_source(None, None), Err(IpaToolError::MissingAppIdOrBundleId)));
    let r = list_versions_result(None, Some("b".into()));
    assert_eq!(r.app_id, 0);
    assert_eq!(r.bundle_id.as_deref(), Some("b"));
    assert!(r.external_version_ids.is_empty());
    assert_eq!(r.note.as_deref(), Some("not implemented"));
}

#[test]
fn search_keeps_entries_with_a_store_identifier() {
    let entries = || {
        vec![
            SearchEntry { track_id: None, bundle_id: Some("x".into()), track_name: None },
            SearchEntry { track_id: Some(5), bundle_id: Some("a".into()), track_name: Some("A".into()) },
            SearchEntry { track_id: Some(6), bundle_id: None, track_name: None },
        ]
    };
    let found = apps_from_entries(entries());
    assert_eq!(found.len(), 2);
    assert_eq!(found[0].0, 1);
    assert_eq!(found[0].1.id, 5);
    assert_eq!(found[1].0, 2);
    let (pos, app) = first_app(entries()).unwrap();
    assert_eq!(pos, 1);
    assert_eq!(app.bundle_id.as_deref(), Some("a"));
    assert!(matches!(first_app(vec![]), Err(IpaToolError::NoApp)));
    let r = search_result(entries());
    assert_eq!(r.results.len(), 2);
    assert_eq!(r.results[1].id, 6);
}

// ---------------------------------------------------------------------------
// Utilities
// ---------------------------------------------------------------------------

#[test]
fn store_answers_become_bare_dictionaries() {
    assert!(normalize_plist_body(b"   ").is_empty());
    let html = b"<html><Document foo=1> <plist version=\"1.0\"><dict><key>a</key><string>b</string></dict></plist> </Document></html>";
    assert_eq!(
        normalize_plist_body(html),
        b"<dict><key>a</key><string>b</string></dict>".to_vec()
    );
    assert_eq!(
        normalize_plist_body(b"<key>a</key><string>b</string>"),
        b"<dict><key>a</key><string>b</string></dict>".to_vec()
    );
    assert_eq!(normalize_plist_body(b" hello "), b"hello".to_vec());
    assert_eq!(normalize_plist_body(&[0xff, b'a']), "\u{FFFD}a".as_bytes().to_vec());
}

#[test]
fn normalizing_steps() {
    assert_eq!(unwrap_document("s".into(), Some("  in ".into())), "in");
    assert_eq!(unwrap_document("s".into(), Some("   ".into())), "s");
    assert_eq!(unwrap_document("s".into(), None), "s");
    assert_eq!(unwrap_plist("s".into(), Some(" <plist/> ".into())), "<plist/>");
    assert_eq!(body_from("x", Some(" <dict/> ".into())), b"<dict/>".to_vec());
    assert_eq!(body_from("<key>k</key>", None), b"<dict><key>k</key></dict>".to_vec());
    assert_eq!(body_from("plain", None), b"plain".to_vec());
}

#[test]
fn device_identifiers() {
    assert_eq!(guid_from_mac_text("aa:bb:cc:dd:ee:0f").unwrap(), "AABBCCDDEE0F");
    assert!(matches!(guid_from_mac_text(":::"), Err(IpaToolError::EmptyMacAddress)));
    assert!(matches!(accept_guid(String::new()), Err(IpaToolError::EmptyMacAddress)));
    match guid_from_mac() {
        Ok(g) => {
            assert_eq!(g.len(), 12);
            assert!(g.chars().all(|c| c.is_ascii_digit() || ('A'..='F').contains(&c)));
        }
        Err(IpaToolError::EmptyMacAddress) | Err(IpaToolError::MacAddress(_)) => {}
        Err(other) => panic!("unexpected {:?}", other),
    }
}

#[test]
fn styled_messages() {
    let ok = with_success_style("done".into());
    assert!(ok.starts_with("[SUCCESS]: "));
    assert!(ok.contains("done"));
    assert_eq!(ok, "[SUCCESS]: \u{1b}[30;42mdone\u{1b}[0m");
    let err = with_error_style("failed".into());
    assert!(err.starts_with("[ERROR]: "));
    assert!(err.contains("failed"));
    assert_eq!(err, "[ERROR]: \u{1b}[37;41mfailed\u{1b}[0m");
    assert_eq!(success_line("x"), "[SUCCESS]: x");
    assert_eq!(error_line("y"), "[ERROR]: y");
}
