use vstd::prelude::*;

verus! {

/// Everything that can go wrong. Failures reported by other libraries carry
/// their message as text.
#[derive(Debug, Clone)]
pub enum IpaToolError {
    Io(String),
    InitError,
    ErrorAccount,
    AuthCodeRequired,
    PasswordTokenExpired,
    LicenseRequired,
    LicenseAlreadyExists,
    SubscriptionRequired,
    TemporarilyUnavailable,
    PaidAppsNotSupported,
    NoSavedAccount,
    NoHomeDir,
    Http(String),
    Plist(String),
    Zip(String),
    Keyring(String),
    Serde(String),
    Unexpected(String),
    MissingAppIdOrBundleId,
    MacAddress(String),
    EmptyMacAddress,
    AuthBagError,
    HttpStatus { status: u16 },
    RateLimited { status: u16, message: String },
    UnexpectedResponse { status: u16, message: String },
    MissingData { thing: String },
    NoSinfTarget,
    SinfCountMismatch { sinfs: usize, targets: usize },
    TaskJoin(String),
    EmptyResponse,
    NoApp,
}

/// An error as a mathematical value: its variant and its text.
pub enum ErrorView {
    Io(Seq<char>),
    InitError,
    ErrorAccount,
    AuthCodeRequired,
    PasswordTokenExpired,
    LicenseRequired,
    LicenseAlreadyExists,
    SubscriptionRequired,
    TemporarilyUnavailable,
    PaidAppsNotSupported,
    NoSavedAccount,
    NoHomeDir,
    Http(Seq<char>),
    Plist(Seq<char>),
    Zip(Seq<char>),
    Keyring(Seq<char>),
    Serde(Seq<char>),
    Unexpected(Seq<char>),
    MissingAppIdOrBundleId,
    MacAddress(Seq<char>),
    EmptyMacAddress,
    AuthBagError,
    HttpStatus { status: u16 },
    RateLimited { status: u16, message: Seq<char> },
    UnexpectedResponse { status: u16, message: Seq<char> },
    MissingData { thing: Seq<char> },
    NoSinfTarget,
    SinfCountMismatch { sinfs: usize, targets: usize },
    TaskJoin(Seq<char>),
    EmptyResponse,
    NoApp,
}

impl View for IpaToolError {
    type V = ErrorView;

    open spec fn view(&self) -> ErrorView {
        match self {
            IpaToolError::Io(m) => ErrorView::Io(m@),
            IpaToolError::InitError => ErrorView::InitError,
            IpaToolError::ErrorAccount => ErrorView::ErrorAccount,
            IpaToolError::AuthCodeRequired => ErrorView::AuthCodeRequired,
            IpaToolError::PasswordTokenExpired => ErrorView::PasswordTokenExpired,
            IpaToolError::LicenseRequired => ErrorView::LicenseRequired,
            IpaToolError::LicenseAlreadyExists => ErrorView::LicenseAlreadyExists,
            IpaToolError::SubscriptionRequired => ErrorView::SubscriptionRequired,
            IpaToolError::TemporarilyUnavailable => ErrorView::TemporarilyUnavailable,
            IpaToolError::PaidAppsNotSupported => ErrorView::PaidAppsNotSupported,
            IpaToolError::NoSavedAccount => ErrorView::NoSavedAccount,
            IpaToolError::NoHomeDir => ErrorView::NoHomeDir,
            IpaToolError::Http(m) => ErrorView::Http(m@),
            IpaToolError::Plist(m) => ErrorView::Plist(m@),
            IpaToolError::Zip(m) => ErrorView::Zip(m@),
            IpaToolError::Keyring(m) => ErrorView::Keyring(m@),
            IpaToolError::Serde(m) => ErrorView::Serde(m@),
            IpaToolError::Unexpected(m) => ErrorView::Unexpected(m@),
            IpaToolError::MissingAppIdOrBundleId => ErrorView::MissingAppIdOrBundleId,
            IpaToolError::MacAddress(m) => ErrorView::MacAddress(m@),
            IpaToolError::EmptyMacAddress => ErrorView::EmptyMacAddress,
            IpaToolError::AuthBagError => ErrorView::AuthBagError,
            IpaToolError::HttpStatus { status } => ErrorView::HttpStatus { status: *status },
            IpaToolError::RateLimited { status, message } => ErrorView::RateLimited {
                status: *status,
                message: message@,
            },
            IpaToolError::UnexpectedResponse { status, message } => ErrorView::UnexpectedResponse {
                status: *status,
                message: message@,
            },
            IpaToolError::MissingData { thing } => ErrorView::MissingData { thing: thing@ },
            IpaToolError::NoSinfTarget => ErrorView::NoSinfTarget,
            IpaToolError::SinfCountMismatch { sinfs, targets } => ErrorView::SinfCountMismatch {
                sinfs: *sinfs,
                targets: *targets,
            },
            IpaToolError::TaskJoin(m) => ErrorView::TaskJoin(m@),
            IpaToolError::EmptyResponse => ErrorView::EmptyResponse,
            IpaToolError::NoApp => ErrorView::NoApp,
        }
    }
}

/// A result with its error taken by its view.
pub open spec fn res_view<T>(r: Result<T, IpaToolError>) -> Result<T, ErrorView> {
    match r {
        Ok(v) => Ok(v),
        Err(e) => Err(e@),
    }
}

/// An `Unexpected` error with the given text.
pub fn unexpected(msg: &str) -> (e: IpaToolError)
    ensures
        e@ == ErrorView::Unexpected(msg@),
{
    IpaToolError::Unexpected(String::from_str(msg))
}

/// A `MissingData` error naming what is missing.
pub fn missing_data(thing: &str) -> (e: IpaToolError)
    ensures
        e@ == (ErrorView::MissingData { thing: thing@ }),
{
    IpaToolError::MissingData { thing: String::from_str(thing) }
}

} // verus!
