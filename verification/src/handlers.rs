//! Decision logic of the host-facing entry points.
//!
//! The C ABI shell validates nothing itself: it turns each pointer
//! argument into `None` (null) or the owned text, calls the handler
//! here, and then performs what the outcome says: return the code,
//! and invoke the callback exactly when a delivery is present.  A
//! handler never asks for both a non-success return and a callback.
//!
//! The asynchronous entry points are split: a synchronous part that
//! validates and decides, and a delivery part that takes the host's
//! result, whatever it was, and fixes what reaches the callback.

use vstd::prelude::*;
use crate::address::{
    spec_decode_address, spec_encode_address, spec_has_prefix, spec_prefix, is_b58_char,
    encode_address, decode_address,
};
use crate::envelope::{
    build_envelope, mint_operation, payment_operation, set_fees_operation, opt_str_view,
    spec_envelope, spec_mint_operation, spec_payment_operation, spec_set_fees_operation,
    spec_xfer_code, xfer_code,
};
use crate::errors::ErrorCode;
use crate::json::{JsonVal, SpecJson, spec_render, render_json};
use crate::parse::{parse_json_text, spec_parse_text};
use crate::requests::{
    PaymentAddressConfig, config_from_json, spec_config_seed, spec_get_field, get_field,
    spec_outputs_of, outputs_from_json, spec_inputs_of, inputs_from_json, spec_fees_of,
    fees_from_json,
};
use crate::strutil::str_eq;
use crate::validation::{spec_did_len_ok, validate_did_len};

verus! {

/// One callback invocation the shell owes the host.
pub struct CallbackCall {
    pub err: ErrorCode,
    pub json: Option<String>,
}

/// What an entry point asks the shell to do: return `ret`, and invoke
/// the callback exactly when `callback` is present.
pub struct HandlerOutcome {
    pub ret: ErrorCode,
    pub callback: Option<CallbackCall>,
}

/// How an outcome realises a handler's decision: an error is returned
/// synchronously with no callback; a payload is delivered through the
/// callback under `cb_err`, and the entry returns success.
pub open spec fn outcome_matches(
    o: HandlerOutcome,
    r: Result<Seq<char>, ErrorCode>,
    cb_err: ErrorCode,
) -> bool {
    match r {
        Ok(t) => o.ret == ErrorCode::Success && match o.callback {
            Some(c) => c.err == cb_err && match c.json {
                Some(s) => s@ == t,
                None => false,
            },
            None => false,
        },
        Err(e) => o.ret == e && o.callback is None,
    }
}

fn err_outcome(e: ErrorCode) -> (r: HandlerOutcome)
    ensures
        r.ret == e,
        r.callback is None,
{
    HandlerOutcome { ret: e, callback: None }
}

fn deliver_outcome(cb_err: ErrorCode, text: String) -> (r: HandlerOutcome)
    ensures
        r.ret == ErrorCode::Success,
        match r.callback {
            Some(c) => c.err == cb_err && match c.json {
                Some(s) => s@ == text@,
                None => false,
            },
            None => false,
        },
{
    HandlerOutcome {
        ret: ErrorCode::Success,
        callback: Some(CallbackCall { err: cb_err, json: Some(text) }),
    }
}

/// The mint request an entry-point call produces, or the code it
/// fails with.
pub open spec fn spec_build_mint_txn(
    submitter: Option<Seq<char>>,
    outputs_text: Option<Seq<char>>,
    cb_present: bool,
    req_id: u64,
) -> Result<Seq<char>, ErrorCode> {
    if !cb_present {
        Err(ErrorCode::CommonInvalidParam5)
    } else {
        match outputs_text {
            None => Err(ErrorCode::CommonInvalidParam4),
            Some(t) => match spec_parse_text(t) {
                None => Err(ErrorCode::CommonInvalidStructure),
                Some(j) => match spec_outputs_of(j) {
                    None => Err(ErrorCode::CommonInvalidStructure),
                    Some(os) => Ok(
                        spec_render(spec_envelope(spec_mint_operation(os), req_id, submitter)),
                    ),
                },
            },
        }
    }
}

/// Build a mint request from an outputs document.  The submitter is
/// optional; a null outputs pointer or callback is refused by
/// position, and a document that is not an output list is a
/// structure error.
pub fn build_mint_txn(
    submitter: Option<&str>,
    outputs_json: Option<&str>,
    cb_present: bool,
    req_id: u64,
) -> (r: HandlerOutcome)
    ensures
        outcome_matches(
            r,
            spec_build_mint_txn(
                opt_str_view(submitter),
                opt_str_view(outputs_json),
                cb_present,
                req_id,
            ),
            ErrorCode::Success,
        ),
{
    if !cb_present {
        return err_outcome(ErrorCode::CommonInvalidParam5);
    }
    let outputs_text = match outputs_json {
        Some(t) => t,
        None => {
            return err_outcome(ErrorCode::CommonInvalidParam4);
        },
    };
    let doc = match parse_json_text(outputs_text) {
        Some(d) => d,
        None => {
            return err_outcome(ErrorCode::CommonInvalidStructure);
        },
    };
    let outputs = match outputs_from_json(&doc) {
        Some(os) => os,
        None => {
            return err_outcome(ErrorCode::CommonInvalidStructure);
        },
    };
    let operation = mint_operation(&outputs);
    let env = build_envelope(operation, req_id, submitter);
    deliver_outcome(ErrorCode::Success, render_json(&env))
}

/// The payment (transfer) request an entry-point call produces, or
/// the code it fails with.  An empty input or output list is
/// rejected: a transfer moves value, and its fees ride in the lists
/// themselves.
pub open spec fn spec_build_payment_req(
    submitter: Option<Seq<char>>,
    inputs_text: Option<Seq<char>>,
    outputs_text: Option<Seq<char>>,
    cb_present: bool,
    req_id: u64,
) -> Result<Seq<char>, ErrorCode> {
    if !cb_present {
        Err(ErrorCode::CommonInvalidParam6)
    } else {
        match submitter {
            None => Err(ErrorCode::CommonInvalidParam3),
            Some(d) => match inputs_text {
                None => Err(ErrorCode::CommonInvalidParam4),
                Some(it) => match outputs_text {
                    None => Err(ErrorCode::CommonInvalidParam5),
                    Some(ot) => match spec_parse_text(ot) {
                        None => Err(ErrorCode::CommonInvalidStructure),
                        Some(oj) => match spec_outputs_of(oj) {
                            None => Err(ErrorCode::CommonInvalidStructure),
                            Some(os) => match spec_parse_text(it) {
                                None => Err(ErrorCode::CommonInvalidStructure),
                                Some(ij) => match spec_inputs_of(ij) {
                                    None => Err(ErrorCode::CommonInvalidStructure),
                                    Some(is) => {
                                        if is.len() == 0 || os.len() == 0 {
                                            Err(ErrorCode::CommonInvalidStructure)
                                        } else {
                                            Ok(
                                                spec_render(
                                                    spec_envelope(
                                                        spec_payment_operation(is, os),
                                                        req_id,
                                                        Some(d),
                                                    ),
                                                ),
                                            )
                                        }
                                    },
                                },
                            },
                        },
                    },
                },
            },
        }
    }
}

/// Build a transfer request from input and output documents.  The
/// submitter is required.
pub fn build_payment_req(
    submitter: Option<&str>,
    inputs_json: Option<&str>,
    outputs_json: Option<&str>,
    cb_present: bool,
    req_id: u64,
) -> (r: HandlerOutcome)
    ensures
        outcome_matches(
            r,
            spec_build_payment_req(
                opt_str_view(submitter),
                opt_str_view(inputs_json),
                opt_str_view(outputs_json),
                cb_present,
                req_id,
            ),
            ErrorCode::Success,
        ),
{
    if !cb_present {
        return err_outcome(ErrorCode::CommonInvalidParam6);
    }
    let submitter_text = match submitter {
        Some(d) => d,
        None => {
            return err_outcome(ErrorCode::CommonInvalidParam3);
        },
    };
    let inputs_text = match inputs_json {
        Some(t) => t,
        None => {
            return err_outcome(ErrorCode::CommonInvalidParam4);
        },
    };
    let outputs_text = match outputs_json {
        Some(t) => t,
        None => {
            return err_outcome(ErrorCode::CommonInvalidParam5);
        },
    };
    let odoc = match parse_json_text(outputs_text) {
        Some(d) => d,
        None => {
            return err_outcome(ErrorCode::CommonInvalidStructure);
        },
    };
    let outputs = match outputs_from_json(&odoc) {
        Some(os) => os,
        None => {
            return err_outcome(ErrorCode::CommonInvalidStructure);
        },
    };
    let idoc = match parse_json_text(inputs_text) {
        Some(d) => d,
        None => {
            return err_outcome(ErrorCode::CommonInvalidStructure);
        },
    };
    let inputs = match inputs_from_json(&idoc) {
        Some(is) => is,
        None => {
            return err_outcome(ErrorCode::CommonInvalidStructure);
        },
    };
    if inputs.len() == 0 || outputs.len() == 0 {
        return err_outcome(ErrorCode::CommonInvalidStructure);
    }
    let operation = payment_operation(&inputs, &outputs);
    let env = build_envelope(operation, req_id, Some(submitter_text));
    deliver_outcome(ErrorCode::Success, render_json(&env))
}

/// The set-fees request an entry-point call produces, or the code it
/// fails with.
pub open spec fn spec_build_set_txn_fees(
    submitter: Option<Seq<char>>,
    fees_text: Option<Seq<char>>,
    cb_present: bool,
    req_id: u64,
) -> Result<Seq<char>, ErrorCode> {
    if !cb_present {
        Err(ErrorCode::CommonInvalidParam5)
    } else {
        match fees_text {
            None => Err(ErrorCode::CommonInvalidParam4),
            Some(t) => match spec_parse_text(t) {
                None => Err(ErrorCode::CommonInvalidStructure),
                Some(j) => match spec_fees_of(j) {
                    None => Err(ErrorCode::CommonInvalidStructure),
                    Some(fs) => Ok(
                        spec_render(
                            spec_envelope(spec_set_fees_operation(fs), req_id, submitter),
                        ),
                    ),
                },
            },
        }
    }
}

/// Build a set-fees request from a fee table document.
pub fn build_set_txn_fees(
    submitter: Option<&str>,
    fees_json: Option<&str>,
    cb_present: bool,
    req_id: u64,
) -> (r: HandlerOutcome)
    ensures
        outcome_matches(
            r,
            spec_build_set_txn_fees(
                opt_str_view(submitter),
                opt_str_view(fees_json),
                cb_present,
                req_id,
            ),
            ErrorCode::Success,
        ),
{
    if !cb_present {
        return err_outcome(ErrorCode::CommonInvalidParam5);
    }
    let fees_text = match fees_json {
        Some(t) => t,
        None => {
            return err_outcome(ErrorCode::CommonInvalidParam4);
        },
    };
    let doc = match parse_json_text(fees_text) {
        Some(d) => d,
        None => {
            return err_outcome(ErrorCode::CommonInvalidStructure);
        },
    };
    let fees = match fees_from_json(&doc) {
        Some(fs) => fs,
        None => {
            return err_outcome(ErrorCode::CommonInvalidStructure);
        },
    };
    let operation = set_fees_operation(&fees);
    let env = build_envelope(operation, req_id, submitter);
    deliver_outcome(ErrorCode::Success, render_json(&env))
}

/// What fee attachment decides: a transfer request never takes
/// attached fees, and any other well-formed request is echoed through
/// the callback with the invalid-state code, the success-path
/// semantics being left open by the host contract.  Pointers are
/// refused by position, command handle first; the callback sits
/// seventh, past the last positional code the host defines, so a
/// null callback maps to the largest one.
pub open spec fn spec_add_request_fees(
    req_text: Option<Seq<char>>,
    inputs_text: Option<Seq<char>>,
    outputs_text: Option<Seq<char>>,
    cb_present: bool,
) -> Result<Seq<char>, ErrorCode> {
    if !cb_present {
        Err(ErrorCode::CommonInvalidParam6)
    } else {
        match req_text {
            None => Err(ErrorCode::CommonInvalidParam4),
            Some(rt) => match inputs_text {
                None => Err(ErrorCode::CommonInvalidParam5),
                Some(it) => match outputs_text {
                    None => Err(ErrorCode::CommonInvalidParam6),
                    Some(ot) => match spec_parse_text(rt) {
                        None => Err(ErrorCode::CommonInvalidStructure),
                        Some(j) => match spec_get_field(j, "operation"@) {
                            None => Err(ErrorCode::CommonInvalidStructure),
                            Some(op) => match spec_get_field(op, "type"@) {
                                None => Err(ErrorCode::CommonInvalidStructure),
                                Some(SpecJson::Str(t)) => {
                                    if t == spec_xfer_code() {
                                        Err(ErrorCode::CommonInvalidStructure)
                                    } else {
                                        Ok(rt)
                                    }
                                },
                                Some(_) => Ok(rt),
                            },
                        },
                    },
                },
            },
        }
    }
}

/// Attach fees to a request.  A transfer request (`operation.type`
/// equal to the transfer code) is a structure error and the callback
/// is not invoked; otherwise the request is echoed unchanged with the
/// invalid-state code.
pub fn add_request_fees(
    req_json: Option<&str>,
    inputs_json: Option<&str>,
    outputs_json: Option<&str>,
    cb_present: bool,
) -> (r: HandlerOutcome)
    ensures
        outcome_matches(
            r,
            spec_add_request_fees(
                opt_str_view(req_json),
                opt_str_view(inputs_json),
                opt_str_view(outputs_json),
                cb_present,
            ),
            ErrorCode::CommonInvalidState,
        ),
{
    if !cb_present {
        return err_outcome(ErrorCode::CommonInvalidParam6);
    }
    let req_text = match req_json {
        Some(t) => t,
        None => {
            return err_outcome(ErrorCode::CommonInvalidParam4);
        },
    };
    if inputs_json.is_none() {
        return err_outcome(ErrorCode::CommonInvalidParam5);
    }
    if outputs_json.is_none() {
        return err_outcome(ErrorCode::CommonInvalidParam6);
    }
    let doc = match parse_json_text(req_text) {
        Some(d) => d,
        None => {
            return err_outcome(ErrorCode::CommonInvalidStructure);
        },
    };
    let operation = match get_field(&doc, "operation") {
        Some(op) => op,
        None => {
            return err_outcome(ErrorCode::CommonInvalidStructure);
        },
    };
    match get_field(operation, "type") {
        None => err_outcome(ErrorCode::CommonInvalidStructure),
        Some(JsonVal::Str(t)) => {
            if str_eq(t.as_str(), xfer_code()) {
                err_outcome(ErrorCode::CommonInvalidStructure)
            } else {
                deliver_outcome(ErrorCode::CommonInvalidState, String::from_str(req_text))
            }
        },
        Some(_) => deliver_outcome(ErrorCode::CommonInvalidState, String::from_str(req_text)),
    }
}

/// The seed an address-creation call selects, or the code it fails
/// with before any work is spawned.
pub open spec fn spec_create_payment_address_prepare(
    config_text: Option<Seq<char>>,
    cb_present: bool,
) -> Result<Seq<char>, ErrorCode> {
    if !cb_present {
        Err(ErrorCode::CommonInvalidParam4)
    } else {
        match config_text {
            None => Err(ErrorCode::CommonInvalidParam3),
            Some(t) => Ok(spec_config_seed(t)),
        }
    }
}

/// Synchronous part of address creation: validate the pointers and
/// read the config.  A config that fails to parse selects the empty
/// seed, which tolerates the host's empty-object calling convention.
pub fn create_payment_address_prepare(config_json: Option<&str>, cb_present: bool) -> (r: Result<
    PaymentAddressConfig,
    ErrorCode,
>)
    ensures
        match r {
            Ok(c) => spec_create_payment_address_prepare(
                opt_str_view(config_json),
                cb_present,
            ) == Ok::<Seq<char>, ErrorCode>(c.seed@),
            Err(e) => spec_create_payment_address_prepare(
                opt_str_view(config_json),
                cb_present,
            ) == Err::<Seq<char>, ErrorCode>(e),
        },
{
    if !cb_present {
        return Err(ErrorCode::CommonInvalidParam4);
    }
    match config_json {
        Some(t) => Ok(config_from_json(t)),
        None => Err(ErrorCode::CommonInvalidParam3),
    }
}

/// Delivery part of address creation: whatever the wallet call came
/// back with, fix what reaches the callback.  A 32-byte key becomes
/// its address under the success code — the method prefix followed
/// by a non-empty run of base58 characters; anything else is the
/// invalid-state code with no payload.
pub fn create_payment_address_deliver(wallet_key: Option<Vec<u8>>) -> (r: CallbackCall)
    ensures
        match wallet_key {
            Some(k) => {
                if k@.len() == 32 {
                    r.err == ErrorCode::Success && match r.json {
                        Some(s) => s@ == spec_encode_address(k@)
                            && spec_decode_address(s@) == Ok::<Seq<u8>, crate::errors::AddressError>(
                            k@,
                        ) && s@.len() > 8 && s@.take(8) == spec_prefix() && forall|i: int|
                            8 <= i < s@.len() ==> is_b58_char(#[trigger] s@[i]),
                        None => false,
                    }
                } else {
                    r.err == ErrorCode::CommonInvalidState && r.json is None
                }
            },
            None => r.err == ErrorCode::CommonInvalidState && r.json is None,
        },
{
    match wallet_key {
        Some(k) => {
            if k.len() == 32 {
                CallbackCall { err: ErrorCode::Success, json: Some(encode_address(&k)) }
            } else {
                CallbackCall { err: ErrorCode::CommonInvalidState, json: None }
            }
        },
        None => CallbackCall { err: ErrorCode::CommonInvalidState, json: None },
    }
}

/// Whether a get-UTXO call may be delegated to the host, or the code
/// it fails with: the submitter must have an identifier length and
/// the payment address must decode.
pub open spec fn spec_build_get_utxo_request(
    submitter: Option<Seq<char>>,
    address: Option<Seq<char>>,
    cb_present: bool,
) -> Result<(), ErrorCode> {
    if !cb_present {
        Err(ErrorCode::CommonInvalidParam5)
    } else {
        match submitter {
            None => Err(ErrorCode::CommonInvalidParam3),
            Some(d) => match address {
                None => Err(ErrorCode::CommonInvalidParam4),
                Some(a) => {
                    if !spec_did_len_ok(d) {
                        Err(ErrorCode::CommonInvalidParam3)
                    } else if !(spec_decode_address(a) is Ok) {
                        Err(ErrorCode::CommonInvalidStructure)
                    } else {
                        Ok(())
                    }
                },
            },
        }
    }
}

/// Validation part of the get-UTXO entry point; the request itself is
/// built by the host once this accepts.
pub fn build_get_utxo_request(
    submitter: Option<&str>,
    payment_address: Option<&str>,
    cb_present: bool,
) -> (r: Result<(), ErrorCode>)
    ensures
        r == spec_build_get_utxo_request(
            opt_str_view(submitter),
            opt_str_view(payment_address),
            cb_present,
        ),
{
    if !cb_present {
        return Err(ErrorCode::CommonInvalidParam5);
    }
    let did = match submitter {
        Some(d) => d,
        None => {
            return Err(ErrorCode::CommonInvalidParam3);
        },
    };
    let addr = match payment_address {
        Some(a) => a,
        None => {
            return Err(ErrorCode::CommonInvalidParam4);
        },
    };
    if !validate_did_len(did) {
        return Err(ErrorCode::CommonInvalidParam3);
    }
    match decode_address(addr) {
        Ok(_) => Ok(()),
        Err(_) => Err(ErrorCode::CommonInvalidStructure),
    }
}

/// Delivery part of the get-UTXO entry point: the host's request text
/// goes through the callback; a host error is returned as-is with no
/// callback.
pub fn get_utxo_deliver(host_result: Result<String, ErrorCode>) -> (r: HandlerOutcome)
    ensures
        match host_result {
            Ok(t) => outcome_matches(r, Ok(t@), ErrorCode::Success),
            Err(e) => r.ret == e && r.callback is None,
        },
{
    match host_result {
        Ok(t) => deliver_outcome(ErrorCode::Success, t),
        Err(e) => err_outcome(e),
    }
}

/// Stub kept host-compatible: registration needs the entry point to
/// exist, and until it is implemented it succeeds without invoking
/// the callback.
pub fn list_payment_addresses() -> (r: HandlerOutcome)
    ensures
        r.ret == ErrorCode::Success,
        r.callback is None,
{
    HandlerOutcome { ret: ErrorCode::Success, callback: None }
}

/// Stub kept host-compatible, as `list_payment_addresses`.
pub fn parse_response_with_fees() -> (r: HandlerOutcome)
    ensures
        r.ret == ErrorCode::Success,
        r.callback is None,
{
    HandlerOutcome { ret: ErrorCode::Success, callback: None }
}

/// Stub kept host-compatible, as `list_payment_addresses`.
pub fn parse_payment_response() -> (r: HandlerOutcome)
    ensures
        r.ret == ErrorCode::Success,
        r.callback is None,
{
    HandlerOutcome { ret: ErrorCode::Success, callback: None }
}

/// Stub kept host-compatible, as `list_payment_addresses`.
pub fn parse_get_utxo_response() -> (r: HandlerOutcome)
    ensures
        r.ret == ErrorCode::Success,
        r.callback is None,
{
    HandlerOutcome { ret: ErrorCode::Success, callback: None }
}

/// Stub kept host-compatible, as `list_payment_addresses`.
pub fn build_get_txn_fees() -> (r: HandlerOutcome)
    ensures
        r.ret == ErrorCode::Success,
        r.callback is None,
{
    HandlerOutcome { ret: ErrorCode::Success, callback: None }
}

/// Stub kept host-compatible, as `list_payment_addresses`.
pub fn parse_get_txn_fees_response() -> (r: HandlerOutcome)
    ensures
        r.ret == ErrorCode::Success,
        r.callback is None,
{
    HandlerOutcome { ret: ErrorCode::Success, callback: None }
}

} // verus!
