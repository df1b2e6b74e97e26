//! Acquiring a licence for a free app: what the store's answer means, and
//! the order in which the two pricing parameters are tried.
use vstd::prelude::*;
use crate::constants::{
    CUSTOMER_MESSAGE_PASSWORD_CHANGED, CUSTOMER_MESSAGE_SUBSCRIPTION_REQUIRED,
    FAILURE_TYPE_DEVICE_VERIFICATION_FAILED, FAILURE_TYPE_LICENSE_ALREADY_EXISTS,
    FAILURE_TYPE_PASSWORD_TOKEN_EXPIRED, FAILURE_TYPE_SIGN_IN_REQUIRED,
    FAILURE_TYPE_TEMPORARILY_UNAVAILABLE, PRICING_PARAMETER_APPLE_ARCADE,
    PRICING_PARAMETER_APPSTORE,
};
use crate::error::{ErrorView, IpaToolError, res_view, unexpected};
use crate::text::{concat, opt_is};
use crate::types::PurchaseResult;

verus! {

/// The optional text holds exactly `lit`.
pub open spec fn is_text(o: Option<String>, lit: Seq<char>) -> bool {
    o is Some && o->0@ == lit
}

/// What a purchase answer means, in the order the checks are made.
pub open spec fn purchase_response_spec(status: u16, p: PurchaseResult) -> Result<(), ErrorView> {
    if is_text(p.failure_type, FAILURE_TYPE_TEMPORARILY_UNAVAILABLE@) {
        Err(ErrorView::TemporarilyUnavailable)
    } else if is_text(p.customer_message, CUSTOMER_MESSAGE_SUBSCRIPTION_REQUIRED@) {
        Err(ErrorView::SubscriptionRequired)
    } else if is_text(p.failure_type, FAILURE_TYPE_PASSWORD_TOKEN_EXPIRED@) || is_text(
        p.failure_type,
        FAILURE_TYPE_SIGN_IN_REQUIRED@,
    ) || is_text(p.failure_type, FAILURE_TYPE_DEVICE_VERIFICATION_FAILED@) || is_text(
        p.customer_message,
        CUSTOMER_MESSAGE_PASSWORD_CHANGED@,
    ) {
        Err(ErrorView::PasswordTokenExpired)
    } else if is_text(p.failure_type, FAILURE_TYPE_LICENSE_ALREADY_EXISTS@) || status == 500 {
        Err(ErrorView::LicenseAlreadyExists)
    } else if p.failure_type is Some {
        Err(
            ErrorView::Unexpected(
                match p.customer_message {
                    Some(m) => m@,
                    None => "purchase failed with failure type "@ + p.failure_type->0@,
                },
            ),
        )
    } else if !is_text(p.jingle_doc_type, "purchaseSuccess"@) || p.status != Some(0i64) {
        Err(ErrorView::Unexpected("failed to purchase app"@))
    } else {
        Ok(())
    }
}

/// Reads the store's answer to a purchase request with HTTP `status`.
pub fn validate_purchase_response(status: u16, parsed: PurchaseResult) -> (r: Result<
    (),
    IpaToolError,
>)
    ensures
        res_view(r) == purchase_response_spec(status, parsed),
{
    if opt_is(&parsed.failure_type, FAILURE_TYPE_TEMPORARILY_UNAVAILABLE) {
        return Err(IpaToolError::TemporarilyUnavailable);
    }
    if opt_is(&parsed.customer_message, CUSTOMER_MESSAGE_SUBSCRIPTION_REQUIRED) {
        return Err(IpaToolError::SubscriptionRequired);
    }
    if opt_is(&parsed.failure_type, FAILURE_TYPE_PASSWORD_TOKEN_EXPIRED) || opt_is(
        &parsed.failure_type,
        FAILURE_TYPE_SIGN_IN_REQUIRED,
    ) || opt_is(&parsed.failure_type, FAILURE_TYPE_DEVICE_VERIFICATION_FAILED) || opt_is(
        &parsed.customer_message,
        CUSTOMER_MESSAGE_PASSWORD_CHANGED,
    ) {
        return Err(IpaToolError::PasswordTokenExpired);
    }
    if opt_is(&parsed.failure_type, FAILURE_TYPE_LICENSE_ALREADY_EXISTS) || status == 500 {
        return Err(IpaToolError::LicenseAlreadyExists);
    }
    if let Some(failure_type) = parsed.failure_type {
        return Err(
            IpaToolError::Unexpected(
                match parsed.customer_message {
                    Some(m) => m,
                    None => concat("purchase failed with failure type ", failure_type.as_str()),
                },
            ),
        );
    }
    let success_status = match parsed.status {
        Some(s) => s == 0,
        None => false,
    };
    if !opt_is(&parsed.jingle_doc_type, "purchaseSuccess") || !success_status {
        return Err(unexpected("failed to purchase app"));
    }
    Ok(())
}

/// What one purchase request ended with: an answer with its HTTP status, of
/// which the body could or could not be read, or no answer at all.
#[derive(Debug)]
pub enum PurchaseReply {
    Answer { status: u16, body: Result<PurchaseResult, IpaToolError> },
    Failed(IpaToolError),
}

/// The outcome of one purchase request. An HTTP 500 means that the licence
/// exists, whatever the body says.
pub open spec fn purchase_reply_spec(reply: PurchaseReply) -> Result<(), ErrorView> {
    match reply {
        PurchaseReply::Failed(e) => Err(e@),
        PurchaseReply::Answer { status, body } => if status == 500 {
            Err(ErrorView::LicenseAlreadyExists)
        } else {
            match body {
                Err(e) => Err(e@),
                Ok(p) => purchase_response_spec(status, p),
            }
        },
    }
}

/// What one purchase request ended with.
pub fn purchase_reply_outcome(reply: PurchaseReply) -> (r: Result<(), IpaToolError>)
    ensures
        res_view(r) == purchase_reply_spec(reply),
{
    match reply {
        PurchaseReply::Failed(e) => Err(e),
        PurchaseReply::Answer { status, body } => {
            if status == 500 {
                return Err(IpaToolError::LicenseAlreadyExists);
            }
            match body {
                Err(e) => Err(e),
                Ok(p) => validate_purchase_response(status, p),
            }
        },
    }
}

/// Where a purchase stands.
#[derive(Clone, Copy, PartialEq, Eq, Structural, Debug)]
pub enum PurchaseStage {
    /// The App Store pricing has been asked for.
    AppStore,
    /// The Apple Arcade pricing has been asked for.
    Arcade,
}

/// What to do next in a purchase.
#[derive(Debug)]
pub enum PurchaseStep {
    /// Send a purchase request with these pricing parameters.
    Request { pricing_parameters: String, stage: PurchaseStage },
    /// The purchase is over.
    Done(Result<(), IpaToolError>),
}

/// How a purchase starts: a paid app is refused before anything is sent;
/// a free one is asked for with the App Store pricing.
pub fn start_purchase(paid: bool) -> (s: PurchaseStep)
    ensures
        paid ==> (s matches PurchaseStep::Done(r) && res_view(r) == Err::<(), ErrorView>(
            ErrorView::PaidAppsNotSupported,
        )),
        !paid ==> (s matches PurchaseStep::Request { pricing_parameters, stage } && stage
            == PurchaseStage::AppStore && pricing_parameters@ == PRICING_PARAMETER_APPSTORE@),
{
    if paid {
        PurchaseStep::Done(Err(IpaToolError::PaidAppsNotSupported))
    } else {
        PurchaseStep::Request {
            pricing_parameters: String::from_str(PRICING_PARAMETER_APPSTORE),
            stage: PurchaseStage::AppStore,
        }
    }
}

/// What follows an answer to the request of `stage`: an App Store pricing
/// that is temporarily unavailable is retried once with the Apple Arcade
/// pricing; any other outcome ends the purchase.
pub fn continue_purchase(stage: PurchaseStage, reply: PurchaseReply) -> (s: PurchaseStep)
    ensures
        (stage == PurchaseStage::AppStore && purchase_reply_spec(reply) == Err::<(), ErrorView>(
            ErrorView::TemporarilyUnavailable,
        )) ==> (s matches PurchaseStep::Request { pricing_parameters, stage: next } && next
            == PurchaseStage::Arcade && pricing_parameters@ == PRICING_PARAMETER_APPLE_ARCADE@),
        !(stage == PurchaseStage::AppStore && purchase_reply_spec(reply) == Err::<(), ErrorView>(
            ErrorView::TemporarilyUnavailable,
        )) ==> (s matches PurchaseStep::Done(r) && res_view(r) == purchase_reply_spec(reply)),
{
    let outcome = purchase_reply_outcome(reply);
    let retry = match &outcome {
        Err(IpaToolError::TemporarilyUnavailable) => stage == PurchaseStage::AppStore,
        _ => false,
    };
    if retry {
        PurchaseStep::Request {
            pricing_parameters: String::from_str(PRICING_PARAMETER_APPLE_ARCADE),
            stage: PurchaseStage::Arcade,
        }
    } else {
        PurchaseStep::Done(outcome)
    }
}

/// The store's answer counts as a purchase only when it reports no failure,
/// says `purchaseSuccess` with status 0, and came with an HTTP status other
/// than 500.
pub proof fn purchase_success_needs_confirmation(status: u16, p: PurchaseResult)
    requires
        purchase_response_spec(status, p) is Ok,
    ensures
        p.failure_type is None,
        is_text(p.jingle_doc_type, "purchaseSuccess"@),
        p.status == Some(0i64),
        status != 500,
{
}

} // verus!
