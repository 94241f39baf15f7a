//! Records exchanged with the native billing plugin. They carry no behaviour
//! of their own: each is built from a request or from a native reply and
//! handed on unchanged.

use vstd::prelude::*;

verus! {

/// Asks the store for the details of one product.
#[derive(Debug, Clone, PartialEq, Default)]
pub struct GetProductDetailsRequest {
    pub product_id: String,
}

/// The catalogue entries that the store returned; possibly none.
#[derive(Debug, Clone, PartialEq, Default)]
pub struct GetProductDetailsResponse {
    pub product_details: Vec<ProductDetails>,
}

/// A liveness check; the value is echoed back unchanged.
#[derive(Debug, Clone, PartialEq, Default)]
pub struct PingRequest {
    pub value: Option<String>,
}

/// The echo of a liveness check.
#[derive(Debug, Clone, PartialEq, Default)]
pub struct PingResponse {
    pub value: Option<String>,
}

/// One catalogue entry.
#[derive(Debug, Clone, PartialEq, Default)]
pub struct ProductDetails {
    pub description: String,
    pub name: String,
    pub product_id: String,
    pub product_type: String,
    pub title: String,
    pub subscription_offer_details: Option<Vec<SubscriptionOfferDetails>>,
}

/// One offer of a subscription product.
#[derive(Debug, Clone, PartialEq, Default)]
pub struct SubscriptionOfferDetails {
    pub base_plan_id: String,
    pub installment_plan_details: Option<InstallmentPlanDetails>,
    pub offer_id: Option<String>,
    pub offer_tags: Vec<String>,
    /// Opaque token that a purchase of this offer must present.
    pub offer_token: String,
    pub pricing_phases: PricingPhases,
}

/// Commitment terms of an installment plan.
#[derive(Debug, Clone, PartialEq, Default)]
pub struct InstallmentPlanDetails {
    pub installment_plan_commitment_payments_count: i32,
    pub subsequent_installment_plan_commitment_payments_count: i32,
}

/// The phases of an offer, in the order in which they apply.
#[derive(Debug, Clone, PartialEq, Default)]
pub struct PricingPhases {
    pub pricing_phase_list: Vec<PricingPhase>,
}

/// One billing phase of an offer.
#[derive(Debug, Clone, PartialEq, Default)]
pub struct PricingPhase {
    pub billing_cycle_count: i32,
    /// ISO-8601 duration, such as `P1M`.
    pub billing_period: String,
    pub formatted_price: String,
    pub price_amount_micros: i64,
    pub price_currency_code: String,
    pub recurrence_mode: i32,
}

/// Starts the store's purchase flow for a product or a subscription offer.
#[derive(Debug, Clone, PartialEq, Default)]
pub struct LaunchPurchaseFlowRequest {
    pub product_id: String,
    pub offer_token: String,
}

/// The store's response code: zero for success, any other value a
/// store-defined outcome that the caller interprets. Neither is an error.
#[derive(Debug, Clone, PartialEq, Default)]
pub struct LaunchPurchaseFlowResponse {
    pub response_code: i32,
}

/// Asks for the purchases that the store knows of; it carries nothing.
#[derive(Debug, Clone, PartialEq, Default)]
pub struct QueryPurchasesRequest {}

/// The purchases that the store returned; possibly none.
#[derive(Debug, Clone, PartialEq, Default)]
pub struct QueryPurchasesResponse {
    pub purchases: Vec<Purchase>,
}

/// One purchase, as the store reports it. Nothing here is validated: the
/// signature and the token are checked by the store.
#[derive(Debug, Clone, PartialEq, Default)]
pub struct Purchase {
    pub order_id: String,
    pub package_name: String,
    pub purchase_state: i32,
    /// Milliseconds since the Unix epoch.
    pub purchase_time: i64,
    pub purchase_token: String,
    pub quantity: i32,
    pub signature: String,
    pub skus: Vec<String>,
    pub is_acknowledged: bool,
    pub is_auto_renewing: bool,
    /// The store's own record, verbatim.
    pub original_json: String,
    pub developer_payload: Option<String>,
    pub account_identifiers: Option<AccountIdentifiers>,
}

/// Obfuscated identifiers that link a purchase to an account.
#[derive(Debug, Clone, PartialEq, Default)]
pub struct AccountIdentifiers {
    pub obfuscated_account_id: Option<String>,
    pub obfuscated_profile_id: Option<String>,
}

} // verus!
