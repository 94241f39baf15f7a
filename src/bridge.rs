//! The handle to the native billing plugin, and the calls made through it.
//!
//! Talking to the plugin is the host's work: an operation on [`Iap`] says
//! which native call to make, or fails at once when no plugin is there, and
//! [`complete`] turns what the plugin answered into the operation's result.

use vstd::prelude::*;

use crate::models::{
    GetProductDetailsRequest, GetProductDetailsResponse, LaunchPurchaseFlowRequest,
    LaunchPurchaseFlowResponse, PingRequest, QueryPurchasesRequest, QueryPurchasesResponse,
};

verus! {

/// The mobile platform whose billing plugin was registered.
#[derive(Debug, Clone, Copy, PartialEq, Eq, Structural)]
pub enum Platform {
    Android,
    Ios,
}

/// The one kind of failure of this layer: the native call did not succeed.
#[derive(Debug, Clone, PartialEq)]
pub enum Error {
    /// No native billing plugin is registered.
    NativeUnavailable,
    /// The plugin failed, or its reply did not have the expected shape; the
    /// message is passed on as it came.
    NativeFailed(String),
}

/// A method of the native plugin, called by name.
#[derive(Debug, Clone, Copy, PartialEq, Eq, Structural)]
pub enum NativeMethod {
    GetProductDetails,
    LaunchPurchaseFlow,
    QueryPurchases,
    Ping,
}

impl NativeMethod {
    /// The name under which the plugin exposes the method.
    pub open spec fn spec_name(self) -> Seq<char> {
        match self {
            NativeMethod::GetProductDetails => "getProductDetails"@,
            NativeMethod::LaunchPurchaseFlow => "launchPurchaseFlow"@,
            NativeMethod::QueryPurchases => "queryPurchases"@,
            NativeMethod::Ping => "ping"@,
        }
    }

    pub fn name(&self) -> (r: &'static str)
        ensures
            r@ == self.spec_name(),
    {
        match self {
            NativeMethod::GetProductDetails => "getProductDetails",
            NativeMethod::LaunchPurchaseFlow => "launchPurchaseFlow",
            NativeMethod::QueryPurchases => "queryPurchases",
            NativeMethod::Ping => "ping",
        }
    }
}

/// A call for the host to make on the native plugin: the method, with the
/// request that it is to receive unchanged.
#[derive(Debug, Clone, PartialEq)]
pub enum NativeCall {
    GetProductDetails(GetProductDetailsRequest),
    LaunchPurchaseFlow(LaunchPurchaseFlowRequest),
    QueryPurchases(QueryPurchasesRequest),
    Ping(PingRequest),
}

impl NativeCall {
    pub open spec fn spec_method(&self) -> NativeMethod {
        match self {
            NativeCall::GetProductDetails(_) => NativeMethod::GetProductDetails,
            NativeCall::LaunchPurchaseFlow(_) => NativeMethod::LaunchPurchaseFlow,
            NativeCall::QueryPurchases(_) => NativeMethod::QueryPurchases,
            NativeCall::Ping(_) => NativeMethod::Ping,
        }
    }

    pub fn method(&self) -> (r: NativeMethod)
        ensures
            r == self.spec_method(),
    {
        match self {
            NativeCall::GetProductDetails(_) => NativeMethod::GetProductDetails,
            NativeCall::LaunchPurchaseFlow(_) => NativeMethod::LaunchPurchaseFlow,
            NativeCall::QueryPurchases(_) => NativeMethod::QueryPurchases,
            NativeCall::Ping(_) => NativeMethod::Ping,
        }
    }
}

/// What an operation on a handle yields: the call itself where a plugin is
/// registered, the unavailable error where none is.
pub open spec fn dispatched(platform: Option<Platform>, call: NativeCall) -> Result<NativeCall, Error> {
    match platform {
        Some(_) => Ok(call),
        None => Err(Error::NativeUnavailable),
    }
}

/// What an operation returns once the plugin has answered: the reply as it
/// came, or the plugin's failure as [`Error::NativeFailed`].
pub open spec fn completed<T>(outcome: Result<T, String>) -> Result<T, Error> {
    match outcome {
        Ok(v) => Ok(v),
        Err(m) => Err(Error::NativeFailed(m)),
    }
}

/// Access to the billing plugin. The platform is fixed when the handle is
/// made; every operation reads it and nothing changes it, so one handle
/// serves any number of callers.
#[derive(Debug, Clone)]
pub struct Iap {
    platform: Option<Platform>,
}

impl View for Iap {
    type V = Option<Platform>;

    closed spec fn view(&self) -> Option<Platform> {
        self.platform
    }
}

impl Iap {
    /// A handle to the plugin registered for `platform`.
    pub fn registered(platform: Platform) -> (r: Iap)
        ensures
            r@ == Some(platform),
    {
        Iap { platform: Some(platform) }
    }

    /// A handle where no plugin is registered: every operation fails.
    pub fn unavailable() -> (r: Iap)
        ensures
            r@ == None::<Platform>,
    {
        Iap { platform: None }
    }

    pub fn platform(&self) -> (r: Option<Platform>)
        ensures
            r == self@,
    {
        self.platform
    }

    fn dispatch(&self, call: NativeCall) -> (r: Result<NativeCall, Error>)
        ensures
            r == dispatched(self@, call),
    {
        match self.platform {
            Some(_) => Ok(call),
            None => Err(Error::NativeUnavailable),
        }
    }

    /// Looks up a product in the store's catalogue.
    pub fn get_product_details(&self, payload: GetProductDetailsRequest) -> (r: Result<NativeCall, Error>)
        ensures
            r == dispatched(self@, NativeCall::GetProductDetails(payload)),
    {
        self.dispatch(NativeCall::GetProductDetails(payload))
    }

    /// Starts the store's purchase flow.
    pub fn launch_purchase_flow(&self, payload: LaunchPurchaseFlowRequest) -> (r: Result<NativeCall, Error>)
        ensures
            r == dispatched(self@, NativeCall::LaunchPurchaseFlow(payload)),
    {
        self.dispatch(NativeCall::LaunchPurchaseFlow(payload))
    }

    /// Lists the purchases that the store knows of.
    pub fn query_purchases(&self, payload: QueryPurchasesRequest) -> (r: Result<NativeCall, Error>)
        ensures
            r == dispatched(self@, NativeCall::QueryPurchases(payload)),
    {
        self.dispatch(NativeCall::QueryPurchases(payload))
    }

    /// Checks that the plugin answers; it echoes the value.
    pub fn ping(&self, payload: PingRequest) -> (r: Result<NativeCall, Error>)
        ensures
            r == dispatched(self@, NativeCall::Ping(payload)),
    {
        self.dispatch(NativeCall::Ping(payload))
    }
}

/// Makes the handle once the host has tried to register the plugin of
/// `platform`: a failed registration is passed on as the plugin's failure.
pub fn init(platform: Platform, registration: Result<(), String>) -> (r: Result<Iap, Error>)
    ensures
        registration is Ok ==> r is Ok && r->Ok_0@ == Some(platform),
        registration is Err ==> r == Err::<Iap, Error>(Error::NativeFailed(registration->Err_0)),
{
    match registration {
        Ok(()) => Ok(Iap::registered(platform)),
        Err(m) => Err(Error::NativeFailed(m)),
    }
}

/// Turns what the plugin answered into the operation's result, unchanged.
pub fn complete<T>(outcome: Result<T, String>) -> (r: Result<T, Error>)
    ensures
        r == completed(outcome),
{
    match outcome {
        Ok(v) => Ok(v),
        Err(m) => Err(Error::NativeFailed(m)),
    }
}

/// Where no plugin is registered, every operation fails with the
/// unavailable error, whatever its request.
pub proof fn lemma_unavailable_fails_every_operation(
    h: Iap,
    details: GetProductDetailsRequest,
    launch: LaunchPurchaseFlowRequest,
    query: QueryPurchasesRequest,
    ping: PingRequest,
)
    requires
        h@ is None,
    ensures
        dispatched(h@, NativeCall::GetProductDetails(details)) == Err::<NativeCall, Error>(
            Error::NativeUnavailable,
        ),
        dispatched(h@, NativeCall::LaunchPurchaseFlow(launch)) == Err::<NativeCall, Error>(
            Error::NativeUnavailable,
        ),
        dispatched(h@, NativeCall::QueryPurchases(query)) == Err::<NativeCall, Error>(
            Error::NativeUnavailable,
        ),
        dispatched(h@, NativeCall::Ping(ping)) == Err::<NativeCall, Error>(Error::NativeUnavailable),
{
}

/// Two callers that share one handle, one querying purchases and one looking
/// up a product, each get the call for their own request and, from it, the
/// plugin's answer to that call alone: neither result depends on the other
/// caller's request or answer, in whichever order the two run.
pub proof fn lemma_shared_handle_calls_independent(
    h: Iap,
    query: QueryPurchasesRequest,
    details: GetProductDetailsRequest,
    query_answer: Result<QueryPurchasesResponse, String>,
    details_answer: Result<GetProductDetailsResponse, String>,
)
    requires
        h@ is Some,
    ensures
        dispatched(h@, NativeCall::QueryPurchases(query)) == Ok::<NativeCall, Error>(
            NativeCall::QueryPurchases(query),
        ),
        dispatched(h@, NativeCall::GetProductDetails(details)) == Ok::<NativeCall, Error>(
            NativeCall::GetProductDetails(details),
        ),
        NativeCall::QueryPurchases(query).spec_method().spec_name()
            != NativeCall::GetProductDetails(details).spec_method().spec_name(),
        query_answer is Ok ==> completed(query_answer)
            == Ok::<QueryPurchasesResponse, Error>(query_answer->Ok_0),
        details_answer is Ok ==> completed(details_answer)
            == Ok::<GetProductDetailsResponse, Error>(details_answer->Ok_0),
{
    reveal_strlit("queryPurchases");
    reveal_strlit("getProductDetails");
    assert("queryPurchases"@.len() != "getProductDetails"@.len());
}

/// A purchase flow that the plugin answered ends in success whatever the
/// response code: a non-zero code is an outcome for the caller to read, not
/// an error.
pub proof fn lemma_response_code_is_not_an_error(code: i32)
    ensures
        completed(Ok::<LaunchPurchaseFlowResponse, String>(LaunchPurchaseFlowResponse { response_code: code }))
            == Ok::<LaunchPurchaseFlowResponse, Error>(LaunchPurchaseFlowResponse { response_code: code }),
{
}

/// Each native method is called under a name of its own.
pub proof fn lemma_native_names_distinct(a: NativeMethod, b: NativeMethod)
    requires
        a != b,
    ensures
        a.spec_name() != b.spec_name(),
{
    reveal_strlit("getProductDetails");
    reveal_strlit("launchPurchaseFlow");
    reveal_strlit("queryPurchases");
    reveal_strlit("ping");
    assert("getProductDetails"@[0] != "launchPurchaseFlow"@[0]);
    assert("getProductDetails"@[0] != "queryPurchases"@[0]);
    assert("getProductDetails"@[0] != "ping"@[0]);
    assert("launchPurchaseFlow"@[0] != "queryPurchases"@[0]);
    assert("launchPurchaseFlow"@[0] != "ping"@[0]);
    assert("queryPurchases"@[0] != "ping"@[0]);
}

} // verus!
