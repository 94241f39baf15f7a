//! The operations that the host may invoke, by the names it uses.

use vstd::prelude::*;

use crate::bridge::NativeMethod;

verus! {

/// An operation that the host invokes by name.
#[derive(Debug, Clone, Copy, PartialEq, Eq, Structural)]
pub enum Command {
    GetProductDetails,
    LaunchPurchaseFlow,
    QueryPurchases,
    Ping,
}

impl Command {
    /// The name under which the host invokes the operation.
    pub open spec fn spec_name(self) -> Seq<char> {
        match self {
            Command::GetProductDetails => "get_product_details"@,
            Command::LaunchPurchaseFlow => "launch_purchase_flow"@,
            Command::QueryPurchases => "query_purchases"@,
            Command::Ping => "ping"@,
        }
    }

    /// The native method that carries the operation out.
    pub open spec fn spec_native_method(self) -> NativeMethod {
        match self {
            Command::GetProductDetails => NativeMethod::GetProductDetails,
            Command::LaunchPurchaseFlow => NativeMethod::LaunchPurchaseFlow,
            Command::QueryPurchases => NativeMethod::QueryPurchases,
            Command::Ping => NativeMethod::Ping,
        }
    }

    /// The operation that the host invokes as `name`, if any.
    pub open spec fn spec_from_name(name: Seq<char>) -> Option<Command> {
        if name == "get_product_details"@ {
            Some(Command::GetProductDetails)
        } else if name == "launch_purchase_flow"@ {
            Some(Command::LaunchPurchaseFlow)
        } else if name == "query_purchases"@ {
            Some(Command::QueryPurchases)
        } else if name == "ping"@ {
            Some(Command::Ping)
        } else {
            None
        }
    }

    pub fn name(&self) -> (r: &'static str)
        ensures
            r@ == self.spec_name(),
    {
        match self {
            Command::GetProductDetails => "get_product_details",
            Command::LaunchPurchaseFlow => "launch_purchase_flow",
            Command::QueryPurchases => "query_purchases",
            Command::Ping => "ping",
        }
    }

    pub fn native_method(&self) -> (r: NativeMethod)
        ensures
            r == self.spec_native_method(),
    {
        match self {
            Command::GetProductDetails => NativeMethod::GetProductDetails,
            Command::LaunchPurchaseFlow => NativeMethod::LaunchPurchaseFlow,
            Command::QueryPurchases => NativeMethod::QueryPurchases,
            Command::Ping => NativeMethod::Ping,
        }
    }

    pub fn from_name(name: &str) -> (r: Option<Command>)
        ensures
            r == Command::spec_from_name(name@),
    {
        let name = name.to_owned();
        if name == "get_product_details".to_owned() {
            Some(Command::GetProductDetails)
        } else if name == "launch_purchase_flow".to_owned() {
            Some(Command::LaunchPurchaseFlow)
        } else if name == "query_purchases".to_owned() {
            Some(Command::QueryPurchases)
        } else if name == "ping".to_owned() {
            Some(Command::Ping)
        } else {
            None
        }
    }
}

/// Looking a command up by the name it is invoked under gives that command
/// back: no two commands share a name.
pub proof fn lemma_from_name_of_name(c: Command)
    ensures
        Command::spec_from_name(c.spec_name()) == Some(c),
{
    reveal_strlit("get_product_details");
    reveal_strlit("launch_purchase_flow");
    reveal_strlit("query_purchases");
    reveal_strlit("ping");
    assert("launch_purchase_flow"@[0] != "get_product_details"@[0]);
    assert("query_purchases"@[0] != "get_product_details"@[0]);
    assert("query_purchases"@[0] != "launch_purchase_flow"@[0]);
    assert("ping"@[0] != "get_product_details"@[0]);
    assert("ping"@[0] != "launch_purchase_flow"@[0]);
    assert("ping"@[0] != "query_purchases"@[0]);
}

} // verus!
