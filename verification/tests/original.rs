use ipatool::constants::{
    CUSTOMER_MESSAGE_PASSWORD_CHANGED, FAILURE_TYPE_DEVICE_VERIFICATION_FAILED,
    FAILURE_TYPE_LICENSE_ALREADY_EXISTS, FAILURE_TYPE_PASSWORD_TOKEN_EXPIRED,
    FAILURE_TYPE_SIGN_IN_REQUIRED,
};
use ipatool::download::{resolve_sinf_targets, PackageInfo, PackageManifest};
use ipatool::error::IpaToolError;
use ipatool::metadata::{
    display_version, format_release_date, parse_release_date_string, PlistEntry, PlistScalar,
};
use ipatool::paths::{extract_bundle_name, is_main_app_info_plist};
use ipatool::purchase::validate_purchase_response;
use ipatool::remote::parse_content_range_size;
use ipatool::types::{DownloadItem, PurchaseResult, Sinf};
use ipatool::zipdir::{
    extended_timestamp, find_eocd, find_info_entry, ZIP_CENTRAL_HEADER_SIZE, ZIP_EOCD_SIZE,
};

fn download_item(sinfs: Vec<Vec<u8>>) -> DownloadItem {
    DownloadItem {
        md5: None,
        url: None,
        metadata: Some(Vec::new()),
        sinfs: Some(
            sinfs
                .into_iter()
                .map(|data| Sinf {
                    id: None,
                    data: Some(data),
                })
                .collect(),
        ),
    }
}

fn response(failure_type: Option<&str>, customer_message: Option<&str>) -> PurchaseResult {
    PurchaseResult {
        failure_type: failure_type.map(str::to_owned),
        customer_message: customer_message.map(str::to_owned),
        jingle_doc_type: None,
        status: None,
    }
}

#[test]
fn only_recognizes_the_main_app_info_plist() {
    assert_eq!(
        extract_bundle_name("Payload/Telegram.app/Info.plist").as_deref(),
        Some("Telegram")
    );
    assert!(extract_bundle_name("Payload/Telegram.app/Watch/Watch.app/Info.plist").is_none());
    assert!(extract_bundle_name("Payload/Telegram.app/PlugIns/Share.appex/Info.plist").is_none());
}

#[test]
fn rejects_mismatched_manifest_and_sinf_counts() {
    let item = download_item(vec![vec![1]]);
    let info = PackageInfo {
        bundle_executable: Some("Telegram".into()),
    };
    let manifest = PackageManifest {
        sinf_paths: Some(vec!["SC_Info/One.sinf".into(), "SC_Info/Two.sinf".into()]),
    };

    let result = resolve_sinf_targets(&item, "Telegram", &info, Some(&manifest));

    assert!(matches!(
        result,
        Err(IpaToolError::SinfCountMismatch {
            sinfs: 1,
            targets: 2
        })
    ));
}

#[test]
fn recognizes_an_existing_license() {
    let result = validate_purchase_response(
        200,
        response(
            Some(FAILURE_TYPE_LICENSE_ALREADY_EXISTS),
            Some("An unknown error has occurred"),
        ),
    );

    assert!(matches!(result, Err(IpaToolError::LicenseAlreadyExists)));
}

#[test]
fn recognizes_legacy_existing_license_response() {
    let result = validate_purchase_response(500, response(None, None));

    assert!(matches!(result, Err(IpaToolError::LicenseAlreadyExists)));
}

#[test]
fn recognizes_authentication_failures() {
    for failure_type in [
        FAILURE_TYPE_PASSWORD_TOKEN_EXPIRED,
        FAILURE_TYPE_SIGN_IN_REQUIRED,
        FAILURE_TYPE_DEVICE_VERIFICATION_FAILED,
    ] {
        let result = validate_purchase_response(200, response(Some(failure_type), None));
        assert!(matches!(result, Err(IpaToolError::PasswordTokenExpired)));
    }

    let result = validate_purchase_response(200, response(None, Some(CUSTOMER_MESSAGE_PASSWORD_CHANGED)));
    assert!(matches!(result, Err(IpaToolError::PasswordTokenExpired)));
}

#[test]
fn accepts_a_successful_purchase() {
    let result = validate_purchase_response(
        200,
        PurchaseResult {
            failure_type: None,
            customer_message: None,
            jingle_doc_type: Some("purchaseSuccess".into()),
            status: Some(0),
        },
    );

    assert!(result.is_ok());
}

#[test]
fn parses_content_range_size() {
    assert_eq!(
        parse_content_range_size("bytes 0-0/197440775").unwrap(),
        197440775
    );
    assert!(parse_content_range_size("bytes 0-0/*").is_err());
}

#[test]
fn finds_eocd_without_mistaking_comment_contents_for_a_record() {
    let mut eocd = vec![0; ZIP_EOCD_SIZE as usize + 8];
    eocd[0..4].copy_from_slice(&0x0605_4b50_u32.to_le_bytes());
    eocd[20..22].copy_from_slice(&8_u16.to_le_bytes());
    eocd[24..28].copy_from_slice(&0x0605_4b50_u32.to_le_bytes());
    assert_eq!(find_eocd(&eocd).unwrap(), 0);
}

#[test]
fn finds_info_plist_from_central_directory() {
    let name = b"Payload/Test.app/Info.plist";
    let mut directory = vec![0; ZIP_CENTRAL_HEADER_SIZE + name.len()];
    directory[0..4].copy_from_slice(&0x0201_4b50_u32.to_le_bytes());
    directory[12..14].copy_from_slice(&0_u16.to_le_bytes());
    directory[14..16].copy_from_slice(&0x0021_u16.to_le_bytes());
    directory[16..20].copy_from_slice(&123_u32.to_le_bytes());
    directory[20..24].copy_from_slice(&456_u32.to_le_bytes());
    directory[24..28].copy_from_slice(&789_u32.to_le_bytes());
    directory[28..30].copy_from_slice(&(name.len() as u16).to_le_bytes());
    directory[42..46].copy_from_slice(&42_u32.to_le_bytes());
    directory[ZIP_CENTRAL_HEADER_SIZE..].copy_from_slice(name);

    let entry = find_info_entry(&directory, 1).unwrap();
    assert_eq!(entry.local_header_offset, 42);
    assert_eq!(entry.compressed_size, 456);
    assert_eq!(entry.uncompressed_size, 789);
    assert_eq!(entry.crc32, 123);
}

#[test]
fn reads_extended_zip_timestamp() {
    let timestamp = 1_342_633_342_u32;
    let mut extra = vec![0x55, 0x54, 5, 0, 1];
    extra.extend_from_slice(&timestamp.to_le_bytes());
    assert_eq!(extended_timestamp(&extra), Some(timestamp as i64));
}

#[test]
fn identifies_only_main_app_info_plist() {
    assert!(is_main_app_info_plist("Payload/Test.app/Info.plist"));
    assert!(!is_main_app_info_plist(
        "Payload/Test.app/PlugIns/Share.appex/Info.plist"
    ));
    assert!(!is_main_app_info_plist(
        "Payload/Test.app/Watch/Watch.app/Info.plist"
    ));
}

#[test]
fn reads_display_version_variants() {
    let metadata = vec![PlistEntry {
        key: "CFBundleShortVersionString".into(),
        value: PlistScalar::String(" 2.4.1 ".into()),
    }];
    assert_eq!(display_version(&metadata).unwrap(), "2.4.1");
}

#[test]
fn parses_supported_release_dates() {
    assert_eq!(
        format_release_date(parse_release_date_string("2024-05-06").unwrap()).unwrap(),
        "2024-05-06T00:00:00Z"
    );
    assert!(parse_release_date_string("not a date").is_err());
}
