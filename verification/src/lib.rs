//! Binding and dispatch for a JSON-RPC style service: handler metadata,
//! parameter normalisation, and the table that maps wire names to handlers.

use vstd::prelude::*;

pub mod attrs;
pub mod dispatch;
pub mod invoke;
pub mod outside;
pub mod params;

verus! {

/// The marker attribute placed on handler functions. It changes nothing:
/// the annotated item is handed back exactly as it was received.
pub fn rpc(_attr: proc_macro2::TokenStream, item: proc_macro2::TokenStream) -> (out:
    proc_macro2::TokenStream)
    ensures
        out == item,
{
    item
}

} // verus!
