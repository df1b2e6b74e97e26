//! The records exchanged with the App Store, as plain values.
use vstd::prelude::*;
use crate::metadata::PlistEntry;

verus! {

/// A signed-in Apple account.
#[derive(Debug, Clone)]
pub struct Account {
    pub name: String,
    pub email: String,
    pub password_token: String,
    pub directory_services_id: String,
    pub store_front: String,
    pub password: String,
    pub pod: Option<String>,
}

/// The bag of store URLs.
#[derive(Debug, Clone)]
pub struct BagResult {
    pub url_bag: UrlBag,
}

/// The part of the bag that names the sign-in endpoint.
#[derive(Debug, Clone)]
pub struct UrlBag {
    pub auth_endpoint: String,
}

/// The answer to a sign-in request.
#[derive(Debug, Clone)]
pub struct LoginResult {
    pub failure_type: Option<String>,
    pub customer_message: Option<String>,
    pub account: Option<LoginAccountResult>,
    pub directory_services_id: Option<String>,
    pub password_token: Option<String>,
}

/// The account details of a sign-in answer.
#[derive(Debug, Clone)]
pub struct LoginAccountResult {
    pub email: Option<String>,
    pub address: Option<LoginAddressResult>,
}

/// The name on an account.
#[derive(Debug, Clone)]
pub struct LoginAddressResult {
    pub first_name: Option<String>,
    pub last_name: Option<String>,
}

/// The answer to a purchase request.
#[derive(Debug, Clone)]
pub struct PurchaseResult {
    pub failure_type: Option<String>,
    pub customer_message: Option<String>,
    pub jingle_doc_type: Option<String>,
    pub status: Option<i64>,
}

/// The answer to a download request.
#[derive(Debug, Clone)]
pub struct DownloadResult {
    pub failure_type: Option<String>,
    pub customer_message: Option<String>,
    pub items: Option<Vec<DownloadItem>>,
}

/// A DRM signature for one binary of the app.
#[derive(Debug, Clone)]
pub struct Sinf {
    pub id: Option<i64>,
    pub data: Option<Vec<u8>>,
}

/// One downloadable archive and what goes with it.
#[derive(Debug, Clone)]
pub struct DownloadItem {
    pub md5: Option<String>,
    pub url: Option<String>,
    pub metadata: Option<Vec<PlistEntry>>,
    pub sinfs: Option<Vec<Sinf>>,
}

/// The versions of an app.
#[derive(Debug, Clone)]
pub struct ListVersionsResult {
    pub app_id: u64,
    pub bundle_id: Option<String>,
    pub external_version_ids: Vec<String>,
    pub note: Option<String>,
}

/// What to download and where to put it.
#[derive(Debug, Clone)]
pub struct DownloadArgs {
    pub bundle_id: String,
    pub output_path: Option<String>,
    pub external_version_id: Option<String>,
    pub acquire_license: bool,
}

/// The app as the store's search knows it, without its price.
#[derive(Debug, Clone)]
pub struct AppRef {
    pub id: u64,
    pub bundle_id: Option<String>,
    pub name: Option<String>,
}

} // verus!
