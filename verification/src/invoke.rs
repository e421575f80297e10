//! Invoking an entry: the payload is bound to the handler's arguments, the
//! handler runs, and a method's result is serialised for the reply.
//!
//! The three steps that only the service can take are handed in as
//! closures: `decode` turns the canonical value into the typed arguments or
//! a conversion detail, `handler` runs the handler on the arguments (on
//! `None` where it declares no parameter), and `serialize` turns its result
//! into a canonical value.
//!
//! Named parameters sent to a handler of two or more parameters are
//! rejected at once: positions cannot be told from names, so `decode` is
//! not asked.

use crate::dispatch::DispatchEntry;
use crate::params::{
    bind_outcome, bound_result, canonical_of, expectation, invalid_params_error, parse_params,
    ParamsWire,
};
use jsonrpc_core::Error;
use serde_json::Value;
use vstd::prelude::*;
use vstd::string::StringExecFns;

verus! {

/// How an invocation ended.
#[derive(Debug, PartialEq)]
pub enum Invocation {
    /// A method's result or failure, owed to the caller.
    Reply(Result<Value, Error>),
    /// A notification: the caller gets nothing. Where the parameters could
    /// not be bound, the handler did not run and the line is for the log.
    Silent(Option<String>),
}

/// Whether the payload is refused for being named where positions are
/// needed.
pub open spec fn named_rejected(arity: nat, params: ParamsWire) -> bool {
    arity >= 2 && params is NamedObject
}

/// The arguments of a handler with parameters, from the outcome of decoding.
pub open spec fn bound_arguments<D>(decoded: Result<D, String>) -> Result<Option<D>, Error> {
    match bound_result(decoded) {
        Ok(arguments) => Ok(Some(arguments)),
        Err(error) => Err(error),
    }
}

/// Whether `bound` is what binding the payload gives: no arguments and no
/// look at the payload for a handler without parameters, the refusal of
/// named parameters, or what `decode` made of the canonical value.
pub open spec fn binds<D, Dec: FnOnce(Value) -> Result<D, String>>(
    arity: nat,
    params: ParamsWire,
    decode: Dec,
    bound: Result<Option<D>, Error>,
) -> bool {
    if arity == 0 {
        bound == Ok::<Option<D>, Error>(None)
    } else if named_rejected(arity, params) {
        bound == Err::<Option<D>, Error>(
            invalid_params_error(expectation("positional parameters"@)),
        )
    } else {
        exists|decoded: Result<D, String>| #[trigger]
            decode.ensures((canonical_of(params),), decoded) && bound == bound_arguments(decoded)
    }
}

/// Whether `reply` is the serialised form of a handler's answer: its failure
/// as it is, or its result as `serialize` gives it.
pub open spec fn serialized<R, Ser: FnOnce(R) -> Value>(
    answer: Result<R, Error>,
    serialize: Ser,
    reply: Result<Value, Error>,
) -> bool {
    match answer {
        Ok(result) => reply is Ok && serialize.ensures((result,), reply->Ok_0),
        Err(error) => reply == Err::<Value, Error>(error),
    }
}

/// Whether `reply` is a method's reply: the binding failure, or the
/// serialised answer of the handler on the bound arguments.
pub open spec fn answers<D, R, Han: FnOnce(Option<D>) -> Result<R, Error>, Ser: FnOnce(R) -> Value>(
    bound: Result<Option<D>, Error>,
    handler: Han,
    serialize: Ser,
    reply: Result<Value, Error>,
) -> bool {
    match bound {
        Ok(arguments) => exists|answer: Result<R, Error>| #[trigger]
            handler.ensures((arguments,), answer) && serialized(answer, serialize, reply),
        Err(error) => reply == Err::<Value, Error>(error),
    }
}

/// The log line for a notification whose parameters could not be bound.
pub open spec fn skip_notice(wire_name: Seq<char>) -> Seq<char> {
    "wrong parameter types for notification (rpc: "@ + wire_name + "), skip"@
}

/// Whether `log` is what a notification leaves: the log line where binding
/// failed, nothing where the handler ran.
pub open spec fn notified<D, R, Han: FnOnce(Option<D>) -> Result<R, Error>>(
    wire_name: Seq<char>,
    bound: Result<Option<D>, Error>,
    handler: Han,
    log: Option<String>,
) -> bool {
    match bound {
        Ok(arguments) => log is None && exists|answer: Result<R, Error>| #[trigger]
            handler.ensures((arguments,), answer),
        Err(_) => log is Some && log->Some_0@ == skip_notice(wire_name),
    }
}

/// Whether `outcome` is what invoking the entry gives.
pub open spec fn invoked<
    D,
    R,
    Dec: FnOnce(Value) -> Result<D, String>,
    Han: FnOnce(Option<D>) -> Result<R, Error>,
    Ser: FnOnce(R) -> Value,
>(
    entry: DispatchEntry,
    params: ParamsWire,
    decode: Dec,
    handler: Han,
    serialize: Ser,
    outcome: Invocation,
) -> bool {
    exists|bound: Result<Option<D>, Error>| #[trigger]
        binds(entry.descriptor().arity(), params, decode, bound) && match entry {
            DispatchEntry::MethodEntry(_) => outcome is Reply && answers(
                bound,
                handler,
                serialize,
                outcome->Reply_0,
            ),
            DispatchEntry::NotificationEntry(descriptor) => outcome is Silent && notified::<
                D,
                R,
                Han,
            >(descriptor.wire_name@, bound, handler, outcome->Silent_0),
        }
}

/// Binds the payload to the arguments of a handler with `arity` parameters.
pub fn bind_arguments<D, Dec: FnOnce(Value) -> Result<D, String>>(
    arity: usize,
    params: ParamsWire,
    decode: Dec,
) -> (bound: Result<Option<D>, Error>)
    requires
        arity > 0 && !named_rejected(arity as nat, params) ==> decode.requires(
            (canonical_of(params),),
        ),
    ensures
        binds(arity as nat, params, decode, bound),
{
    if arity == 0 {
        return Ok(None);
    }
    if arity >= 2 {
        if let ParamsWire::NamedObject(_) = &params {
            let refused: Result<D, String> = Err("positional parameters".to_owned());
            return match bind_outcome(refused) {
                Ok(arguments) => Ok(Some(arguments)),
                Err(error) => Err(error),
            };
        }
    }
    match parse_params(params, decode) {
        Ok(arguments) => Ok(Some(arguments)),
        Err(error) => Err(error),
    }
}

/// Serialises a handler's answer for the reply.
pub fn serialize_result<R, Ser: FnOnce(R) -> Value>(answer: Result<R, Error>, serialize: Ser) -> (reply:
    Result<Value, Error>)
    requires
        answer is Ok ==> serialize.requires((answer->Ok_0,)),
    ensures
        serialized(answer, serialize, reply),
{
    match answer {
        Ok(result) => Ok(serialize(result)),
        Err(error) => Err(error),
    }
}

/// Writes the log line for a notification whose parameters could not be
/// bound.
pub fn write_skip_notice(wire_name: &str) -> (line: String)
    ensures
        line@ == skip_notice(wire_name@),
{
    "wrong parameter types for notification (rpc: ".to_owned().concat(wire_name).concat("), skip")
}

impl DispatchEntry {
    /// Invokes the entry on a payload.
    pub fn invoke<
        D,
        R,
        Dec: FnOnce(Value) -> Result<D, String>,
        Han: FnOnce(Option<D>) -> Result<R, Error>,
        Ser: FnOnce(R) -> Value,
    >(&self, params: ParamsWire, decode: Dec, handler: Han, serialize: Ser) -> (outcome: Invocation)
        requires
            self.descriptor().arity() > 0 && !named_rejected(self.descriptor().arity(), params)
                ==> decode.requires((canonical_of(params),)),
            forall|arguments: Option<D>| handler.requires((arguments,)),
            *self is MethodEntry ==> forall|result: R| serialize.requires((result,)),
        ensures
            invoked(*self, params, decode, handler, serialize, outcome),
    {
        let arity = self.handler().param_types.len();
        let bound = bind_arguments(arity, params, decode);
        match self {
            DispatchEntry::MethodEntry(_) => {
                let reply = match bound {
                    Ok(arguments) => serialize_result(handler(arguments), serialize),
                    Err(error) => Err(error),
                };
                Invocation::Reply(reply)
            },
            DispatchEntry::NotificationEntry(descriptor) => {
                let log = match bound {
                    Ok(arguments) => {
                        let _ = handler(arguments);
                        None
                    },
                    Err(_) => Some(write_skip_notice(descriptor.wire_name.as_str())),
                };
                Invocation::Silent(log)
            },
        }
    }
}

/// A handler without parameters is bound in one way whatever the payload
/// holds: binding gives no arguments and no failure.
pub proof fn lemma_no_parameters_ignore_payload<D, Dec: FnOnce(Value) -> Result<D, String>>(
    first: ParamsWire,
    second: ParamsWire,
    decode: Dec,
    bound: Result<Option<D>, Error>,
)
    ensures
        binds(0, first, decode, bound) <==> binds(0, second, decode, bound),
        binds(0, first, decode, bound) <==> bound == Ok::<Option<D>, Error>(None),
{
}

/// Invoking an entry whose handler has no parameters never fails on the
/// payload and does not depend on it: the outcome is that of running the
/// handler without arguments.
pub proof fn lemma_invocation_without_parameters<
    D,
    R,
    Dec: FnOnce(Value) -> Result<D, String>,
    Han: FnOnce(Option<D>) -> Result<R, Error>,
    Ser: FnOnce(R) -> Value,
>(
    entry: DispatchEntry,
    params: ParamsWire,
    decode: Dec,
    handler: Han,
    serialize: Ser,
    outcome: Invocation,
)
    requires
        entry.descriptor().arity() == 0,
    ensures
        invoked(entry, params, decode, handler, serialize, outcome) <==> match entry {
            DispatchEntry::MethodEntry(_) => outcome is Reply && answers(
                Ok::<Option<D>, Error>(None),
                handler,
                serialize,
                outcome->Reply_0,
            ),
            DispatchEntry::NotificationEntry(_) => outcome is Silent && outcome->Silent_0 is None
                && exists|answer: Result<R, Error>| #[trigger] handler.ensures((None,), answer),
        },
{
    let unbound = Ok::<Option<D>, Error>(None);
    assert(binds(0, params, decode, unbound));
}

/// A positional list of one item, sent to a handler of one parameter, is
/// bound as the bare item is: `decode` is asked about the item itself.
pub proof fn lemma_single_item_binds_as_bare_value<D, Dec: FnOnce(Value) -> Result<D, String>>(
    items: Vec<Value>,
    decode: Dec,
    bound: Result<Option<D>, Error>,
)
    requires
        items@.len() == 1,
    ensures
        binds(1, ParamsWire::PositionalList(items), decode, bound) <==> exists|
            decoded: Result<D, String>,
        | #[trigger]
            decode.ensures((items@[0],), decoded) && bound == bound_arguments(decoded),
{
    let params = ParamsWire::PositionalList(items);
    assert(canonical_of(params) == items@[0]);
    if binds(1, params, decode, bound) {
        let decoded = choose|decoded: Result<D, String>| #[trigger]
            decode.ensures((canonical_of(params),), decoded) && bound == bound_arguments(decoded);
        assert(decode.ensures((items@[0],), decoded));
    }
    if exists|decoded: Result<D, String>| #[trigger]
        decode.ensures((items@[0],), decoded) && bound == bound_arguments(decoded) {
        let decoded = choose|decoded: Result<D, String>| #[trigger]
            decode.ensures((items@[0],), decoded) && bound == bound_arguments(decoded);
        assert(decode.ensures((canonical_of(params),), decoded));
    }
}

} // verus!
