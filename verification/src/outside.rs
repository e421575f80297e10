//! Types of other crates that values of this library carry.

use vstd::prelude::*;

verus! {

/// `serde_json::Value`: a JSON value, carried through without being inspected.
#[verifier::external_type_specification]
#[verifier::external_body]
pub struct ExValue(serde_json::Value);

/// `serde_json::Map`: the fields of a JSON object.
#[verifier::external_type_specification]
#[verifier::external_body]
#[verifier::reject_recursive_types(K)]
#[verifier::reject_recursive_types(V)]
pub struct ExMap<K, V>(serde_json::Map<K, V>);

/// `jsonrpc_core::Error`: the error object of a failed call.
#[verifier::external_type_specification]
#[verifier::external_body]
pub struct ExError(jsonrpc_core::Error);

/// `proc_macro2::TokenStream`: a sequence of source tokens.
#[verifier::external_type_specification]
#[verifier::external_body]
pub struct ExTokenStream(proc_macro2::TokenStream);

} // verus!
