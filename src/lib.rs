//! In-app-purchase billing bridge: the records exchanged with the native
//! billing plugin, the handle to whichever plugin was registered, and the
//! mapping from the host's operations to native method calls.

mod bridge;
mod commands;
mod models;

pub use bridge::{complete, init, Error, Iap, NativeCall, NativeMethod, Platform};
pub use commands::Command;
pub use models::{
    AccountIdentifiers, GetProductDetailsRequest, GetProductDetailsResponse, InstallmentPlanDetails,
    LaunchPurchaseFlowRequest, LaunchPurchaseFlowResponse, PingRequest, PingResponse, PricingPhase,
    PricingPhases, ProductDetails, Purchase, QueryPurchasesRequest, QueryPurchasesResponse,
    SubscriptionOfferDetails,
};
