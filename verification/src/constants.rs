//! The store's failure codes and messages, endpoints, header names and
//! pricing parameters.
use vstd::prelude::*;

verus! {

/// The failure type of a sign-in with wrong credentials.
pub const FAILURE_TYPE_INVALID_CREDENTIALS: &'static str = "-5000";
/// The failure type that says the password token has expired.
pub const FAILURE_TYPE_PASSWORD_TOKEN_EXPIRED: &'static str = "2034";
/// The failure type that says the account holds no licence for the app.
pub const FAILURE_TYPE_LICENSE_NOT_FOUND: &'static str = "9610";
/// The failure type of an item that cannot be had for now.
pub const FAILURE_TYPE_TEMPORARILY_UNAVAILABLE: &'static str = "2059";
/// The failure type that asks to sign in again.
pub const FAILURE_TYPE_SIGN_IN_REQUIRED: &'static str = "1008";
/// The failure type of a device that could not be verified.
pub const FAILURE_TYPE_DEVICE_VERIFICATION_FAILED: &'static str = "2002";
/// The failure type of a licence that the account already holds.
pub const FAILURE_TYPE_LICENSE_ALREADY_EXISTS: &'static str = "5002";

/// The message that asks for a two-factor code.
pub const CUSTOMER_MESSAGE_BAD_LOGIN: &'static str = "MZFinance.BadLogin.Configurator_message";
/// The message of a disabled account.
pub const CUSTOMER_MESSAGE_ACCOUNT_DISABLED: &'static str = "Your account is disabled.";
/// The message of an app that needs a subscription.
pub const CUSTOMER_MESSAGE_SUBSCRIPTION_REQUIRED: &'static str = "Subscription Required";
/// The message that says the password has changed.
pub const CUSTOMER_MESSAGE_PASSWORD_CHANGED: &'static str = "Your password has changed.";

/// The iTunes search API.
pub const ITUNES_API_SEARCH: &'static str = "https://itunes.apple.com/search";
/// The iTunes lookup API.
pub const ITUNES_API_LOOKUP: &'static str = "https://itunes.apple.com/lookup";

/// The bag of store URLs.
pub const PRIVATE_INIT_URL: &'static str = "https://init.itunes.apple.com/bag.xml";

/// The host of the store's private API.
pub const PRIVATE_APPSTORE_DOMAIN: &'static str = "buy.itunes.apple.com";
/// The path that acquires a licence.
pub const PRIVATE_PURCHASE_PATH: &'static str = "/WebObjects/MZFinance.woa/wa/buyProduct";
/// The path that hands out downloads.
pub const PRIVATE_DOWNLOAD_PATH: &'static str =
    "/WebObjects/MZFinance.woa/wa/volumeStoreDownloadProduct";

/// The header that carries the account's storefront.
pub const HEADER_STOREFRONT: &'static str = "X-Set-Apple-Store-Front";
/// The header that carries the account's pod.
pub const HEADER_POD: &'static str = "pod";

/// The pricing parameters of the App Store.
pub const PRICING_PARAMETER_APPSTORE: &'static str = "STDQ";
/// The pricing parameters of Apple Arcade.
pub const PRICING_PARAMETER_APPLE_ARCADE: &'static str = "GAME";

/// The user agent of the requests.
pub const DEFAULT_USER_AGENT: &'static str =
    "Configurator/2.17 (Macintosh; OS X 15.2; 24C5089c) AppleWebKit/0620.1.16.11.6";

/// The sign-in address, whose redirects are not followed.
pub const APPSTORE_AUTH_URL: &'static str =
    "https://buy.itunes.apple.com/WebObjects/MZFinance.woa/wa/authenticate";

/// The most requests a sign-in sends.
pub const MAX_LOGIN_ATTEMPTS: u32 = 4;

} // verus!
