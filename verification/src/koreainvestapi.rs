//! Free-standing order functions of the brokerage that predate the
//! `StockApi` interface; orders now go through an implementation of it.
use vstd::prelude::*;
use crate::error::{StockrsError, StockrsResult};
use crate::types::Order;

verus! {

fn superseded(what: &str) -> (e: StockrsError)
    ensures
        e matches StockrsError::UnsupportedFeature { feature, phase } && feature@ == what@ && phase@
            == "superseded by the StockApi implementations"@,
{
    StockrsError::UnsupportedFeature {
        feature: what.to_owned(),
        phase: String::from_str("superseded by the StockApi implementations"),
    }
}

/// Superseded: send orders through a `StockApi` implementation. This entry
/// point sends nothing and always answers `UnsupportedFeature`; it never
/// panics.
pub fn execute_order(order: &Order) -> (r: StockrsResult<String>)
    ensures
        r matches Err(StockrsError::UnsupportedFeature { .. }),
{
    Err(superseded("execute_order"))
}

/// Superseded: ask a `StockApi` implementation. This entry point asks
/// nothing and always answers `UnsupportedFeature`; it never panics.
pub fn check_fill(order_id: &str) -> (r: StockrsResult<bool>)
    ensures
        r matches Err(StockrsError::UnsupportedFeature { .. }),
{
    Err(superseded("check_fill"))
}

/// Superseded: cancel through a `StockApi` implementation. This entry point
/// cancels nothing and always answers `UnsupportedFeature`; it never panics.
pub fn cancel_order(order_id: &str) -> (r: StockrsResult<()>)
    ensures
        r matches Err(StockrsError::UnsupportedFeature { .. }),
{
    Err(superseded("cancel_order"))
}

} // verus!
