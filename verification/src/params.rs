//! The parameter normaliser: from the payload as it was received to the one
//! canonical value that is decoded into a handler's arguments.

use jsonrpc_core::Error;
use serde_json::Value;
use vstd::prelude::*;
use vstd::string::StringExecFns;

verus! {

/// The parameter payload of one request, as received.
pub enum ParamsWire {
    /// No parameters were sent.
    Absent,
    /// Parameters by position.
    PositionalList(Vec<Value>),
    /// Parameters by name.
    NamedObject(serde_json::Map<String, Value>),
}

/// The JSON array that holds `items`, in order.
pub uninterp spec fn array_value(items: Seq<Value>) -> Value;

/// The JSON object that holds `fields`.
pub uninterp spec fn object_value(fields: serde_json::Map<String, Value>) -> Value;

/// The invalid-parameters error that carries `message`.
pub uninterp spec fn invalid_params_error(message: Seq<char>) -> Error;

/// `serde_json::Value::Array`: wraps the items into a JSON array. The
/// result is a function of the items alone.
#[verifier::external_body]
fn make_array(items: Vec<Value>) -> (value: Value)
    ensures
        value == array_value(items@),
{
    Value::Array(items)
}

/// `serde_json::Value::Object`: wraps the fields into a JSON object. The
/// result is a function of the fields alone.
#[verifier::external_body]
fn make_object(fields: serde_json::Map<String, Value>) -> (value: Value)
    ensures
        value == object_value(fields),
{
    Value::Object(fields)
}

/// `jsonrpc_core::Error::invalid_params`: the error with the
/// invalid-parameters code, the given message and no data. The result is a
/// function of the message alone.
#[verifier::external_body]
fn invalid_params(message: String) -> (error: Error)
    ensures
        error == invalid_params_error(message@),
{
    Error::invalid_params(message)
}

/// The canonical value of a payload: nothing and the empty list become the
/// empty array, a list of one item becomes that item, a longer list becomes
/// the array of its items, and named parameters become an object.
pub open spec fn canonical_of(params: ParamsWire) -> Value {
    match params {
        ParamsWire::Absent => array_value(Seq::empty()),
        ParamsWire::PositionalList(items) => if items@.len() == 1 {
            items@[0]
        } else {
            array_value(items@)
        },
        ParamsWire::NamedObject(fields) => object_value(fields),
    }
}

/// Canonicalises a payload.
pub fn canonical_value(params: ParamsWire) -> (value: Value)
    ensures
        value == canonical_of(params),
{
    match params {
        ParamsWire::Absent => make_array(Vec::new()),
        ParamsWire::PositionalList(items) => {
            let mut items = items;
            if items.len() == 1 {
                items.remove(0)
            } else {
                make_array(items)
            }
        },
        ParamsWire::NamedObject(fields) => make_object(fields),
    }
}

/// The text of a parameter failure whose conversion detail is `detail`.
pub open spec fn expectation(detail: Seq<char>) -> Seq<char> {
    "expected "@ + detail
}

/// What a decoding attempt becomes: the decoded arguments as they are, or
/// the invalid-parameters error built from the conversion detail.
pub open spec fn bound_result<D>(decoded: Result<D, String>) -> Result<D, Error> {
    match decoded {
        Ok(arguments) => Ok(arguments),
        Err(detail) => Err(invalid_params_error(expectation(detail@))),
    }
}

/// Turns the outcome of decoding into the outcome of parameter binding.
pub fn bind_outcome<D>(decoded: Result<D, String>) -> (bound: Result<D, Error>)
    ensures
        bound == bound_result(decoded),
{
    match decoded {
        Ok(arguments) => Ok(arguments),
        Err(detail) => {
            let message = "expected ".to_owned().concat(detail.as_str());
            Err(invalid_params(message))
        },
    }
}

/// Canonicalises the payload, hands the canonical value to `decode` once,
/// and binds the outcome: whatever `decode` answers for that value is what
/// `bound_result` maps to the result.
pub fn parse_params<D, F: FnOnce(Value) -> Result<D, String>>(param: ParamsWire, decode: F) -> (bound:
    Result<D, Error>)
    requires
        decode.requires((canonical_of(param),)),
    ensures
        exists|decoded: Result<D, String>| #[trigger]
            decode.ensures((canonical_of(param),), decoded) && bound == bound_result(decoded),
{
    let value = canonical_value(param);
    let decoded = decode(value);
    bind_outcome(decoded)
}

/// A positional list of one item stands for that item: it is canonicalised
/// to the bare value, so whatever decodes the canonical value sees the item
/// as if it had been sent alone.
pub proof fn lemma_single_item_is_bare_value(items: Vec<Value>)
    requires
        items@.len() == 1,
    ensures
        canonical_of(ParamsWire::PositionalList(items)) == items@[0],
{
}

/// Two payloads with one canonical value are bound alike: what `decode`
/// makes of the one is what it makes of the other.
pub proof fn lemma_binding_goes_by_canonical_value<D, F: FnOnce(Value) -> Result<D, String>>(
    first: ParamsWire,
    second: ParamsWire,
    decode: F,
    decoded: Result<D, String>,
)
    requires
        canonical_of(first) == canonical_of(second),
    ensures
        decode.ensures((canonical_of(first),), decoded) <==> decode.ensures(
            (canonical_of(second),),
            decoded,
        ),
{
}

} // verus!
