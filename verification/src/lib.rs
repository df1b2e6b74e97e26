//! A verified core for talking to the App Store: URL and payload construction,
//! response classification, the sign-in conversation, archive patch planning and
//! the byte-level ZIP reading that fetches an app's `Info.plist` remotely.

pub mod constants;
pub mod error;
pub mod text;
pub mod paths;
pub mod zipdir;
pub mod remote;
pub mod metadata;
pub mod types;
pub mod store;
pub mod purchase;
pub mod download;
pub mod login;
pub mod util;
pub mod session;
