//! Envelope construction for the on-ledger requests.
//!
//! Every request the plugin emits is an object with exactly the
//! members `operation`, `reqId`, `protocolVersion` and, when a
//! submitter was supplied, `identifier`, in that order.  The
//! operation's `type` codes are string-valued: the transfer code is
//! fixed by the fee-attachment rule; the mint and set-fees codes must
//! match the ledger schema.

use vstd::prelude::*;
use crate::json::{
    JsonVal, SpecJson, jview, jvals_view, jpairs_view, lemma_jvals_view_len,
    lemma_jvals_view_index, lemma_jpairs_view_len, lemma_jpairs_view_index,
};
use crate::requests::{
    Fees, Input, Output, SpecInput, SpecOutput, inputs_view, outputs_view, PROTOCOL_VERSION,
};

verus! {

/// Transfer transaction code: fees are carried in a transfer's own
/// inputs and outputs, so fee attachment rejects it.
pub open spec fn spec_xfer_code() -> Seq<char> {
    "10000"@
}

pub open spec fn spec_mint_code() -> Seq<char> {
    "10001"@
}

pub open spec fn spec_set_fees_code() -> Seq<char> {
    "20000"@
}

pub fn xfer_code() -> (r: &'static str)
    ensures
        r@ == spec_xfer_code(),
{
    "10000"
}

pub open spec fn spec_output_json(o: SpecOutput) -> SpecJson {
    match o.extra {
        None => SpecJson::Obj(
            seq![
                ("address"@, SpecJson::Str(o.address)),
                ("amount"@, SpecJson::Num(o.amount)),
            ],
        ),
        Some(e) => SpecJson::Obj(
            seq![
                ("address"@, SpecJson::Str(o.address)),
                ("amount"@, SpecJson::Num(o.amount)),
                ("extra"@, SpecJson::Str(e)),
            ],
        ),
    }
}

pub open spec fn spec_outputs_json(os: Seq<SpecOutput>) -> Seq<SpecJson> {
    Seq::new(os.len(), |i: int| spec_output_json(os[i]))
}

pub open spec fn spec_input_json(x: SpecInput) -> SpecJson {
    match x.signature {
        None => SpecJson::Obj(
            seq![
                ("address"@, SpecJson::Str(x.address)),
                ("seqNo"@, SpecJson::Num(x.seq_no)),
            ],
        ),
        Some(e) => SpecJson::Obj(
            seq![
                ("address"@, SpecJson::Str(x.address)),
                ("seqNo"@, SpecJson::Num(x.seq_no)),
                ("signature"@, SpecJson::Str(e)),
            ],
        ),
    }
}

pub open spec fn spec_inputs_json(is: Seq<SpecInput>) -> Seq<SpecJson> {
    Seq::new(is.len(), |i: int| spec_input_json(is[i]))
}

pub open spec fn spec_fees_json(fs: Seq<(Seq<char>, u64)>) -> SpecJson {
    SpecJson::Obj(Seq::new(fs.len(), |i: int| (fs[i].0, SpecJson::Num(fs[i].1))))
}

pub open spec fn spec_mint_operation(os: Seq<SpecOutput>) -> SpecJson {
    SpecJson::Obj(
        seq![
            ("type"@, SpecJson::Str(spec_mint_code())),
            ("outputs"@, SpecJson::Arr(spec_outputs_json(os))),
        ],
    )
}

pub open spec fn spec_payment_operation(is: Seq<SpecInput>, os: Seq<SpecOutput>) -> SpecJson {
    SpecJson::Obj(
        seq![
            ("type"@, SpecJson::Str(spec_xfer_code())),
            ("inputs"@, SpecJson::Arr(spec_inputs_json(is))),
            ("outputs"@, SpecJson::Arr(spec_outputs_json(os))),
        ],
    )
}

pub open spec fn spec_set_fees_operation(fs: Seq<(Seq<char>, u64)>) -> SpecJson {
    SpecJson::Obj(
        seq![
            ("type"@, SpecJson::Str(spec_set_fees_code())),
            ("fees"@, spec_fees_json(fs)),
        ],
    )
}

/// The envelope around an operation: exactly `operation`, `reqId`,
/// `protocolVersion`, and `identifier` when a submitter was supplied.
pub open spec fn spec_envelope(op: SpecJson, req_id: u64, ident: Option<Seq<char>>) -> SpecJson {
    let base = seq![
        ("operation"@, op),
        ("reqId"@, SpecJson::Num(req_id)),
        ("protocolVersion"@, SpecJson::Num(PROTOCOL_VERSION)),
    ];
    match ident {
        Some(d) => SpecJson::Obj(base.push(("identifier"@, SpecJson::Str(d)))),
        None => SpecJson::Obj(base),
    }
}

pub open spec fn opt_str_view(o: Option<&str>) -> Option<Seq<char>> {
    match o {
        Some(s) => Some(s@),
        None => None,
    }
}

fn output_to_json(o: &Output) -> (r: JsonVal)
    ensures
        r@ == spec_output_json(o@),
{
    let mut pairs: Vec<(String, JsonVal)> = Vec::new();
    pairs.push((String::from_str("address"), JsonVal::Str(o.address.clone())));
    pairs.push((String::from_str("amount"), JsonVal::Num(o.amount)));
    match &o.extra {
        Some(e) => {
            pairs.push((String::from_str("extra"), JsonVal::Str(e.clone())));
        },
        None => {},
    }
    proof {
        lemma_jpairs_view_len(pairs@);
        lemma_jpairs_view_index(pairs@, 0);
        lemma_jpairs_view_index(pairs@, 1);
        if o.extra is Some {
            lemma_jpairs_view_index(pairs@, 2);
        }
        assert(jpairs_view(pairs@) =~= spec_output_json(o@)->Obj_0);
    }
    JsonVal::Obj(pairs)
}

fn input_to_json(x: &Input) -> (r: JsonVal)
    ensures
        r@ == spec_input_json(x@),
{
    let mut pairs: Vec<(String, JsonVal)> = Vec::new();
    pairs.push((String::from_str("address"), JsonVal::Str(x.address.clone())));
    pairs.push((String::from_str("seqNo"), JsonVal::Num(x.seq_no)));
    match &x.signature {
        Some(e) => {
            pairs.push((String::from_str("signature"), JsonVal::Str(e.clone())));
        },
        None => {},
    }
    proof {
        lemma_jpairs_view_len(pairs@);
        lemma_jpairs_view_index(pairs@, 0);
        lemma_jpairs_view_index(pairs@, 1);
        if x.signature is Some {
            lemma_jpairs_view_index(pairs@, 2);
        }
        assert(jpairs_view(pairs@) =~= spec_input_json(x@)->Obj_0);
    }
    JsonVal::Obj(pairs)
}

fn outputs_to_json(os: &Vec<Output>) -> (r: JsonVal)
    ensures
        r@ == SpecJson::Arr(spec_outputs_json(outputs_view(os@))),
{
    let mut items: Vec<JsonVal> = Vec::new();
    let mut i: usize = 0;
    while i < os.len()
        invariant
            i <= os@.len(),
            items@.len() == i,
            forall|k: int| 0 <= k < i ==> jview(#[trigger] items@[k]) == spec_output_json(
                os@[k]@),
        decreases os@.len() - i,
    {
        items.push(output_to_json(&os[i]));
        i = i + 1;
    }
    proof {
        lemma_jvals_view_len(items@);
        assert(jvals_view(items@) =~= spec_outputs_json(outputs_view(os@))) by {
            assert forall|k: int| 0 <= k < items@.len() implies jvals_view(items@)[k]
                == spec_outputs_json(outputs_view(os@))[k] by {
                lemma_jvals_view_index(items@, k);
            }
        }
    }
    JsonVal::Arr(items)
}

fn inputs_to_json(is: &Vec<Input>) -> (r: JsonVal)
    ensures
        r@ == SpecJson::Arr(spec_inputs_json(inputs_view(is@))),
{
    let mut items: Vec<JsonVal> = Vec::new();
    let mut i: usize = 0;
    while i < is.len()
        invariant
            i <= is@.len(),
            items@.len() == i,
            forall|k: int| 0 <= k < i ==> jview(#[trigger] items@[k]) == spec_input_json(
                is@[k]@),
        decreases is@.len() - i,
    {
        items.push(input_to_json(&is[i]));
        i = i + 1;
    }
    proof {
        lemma_jvals_view_len(items@);
        assert(jvals_view(items@) =~= spec_inputs_json(inputs_view(is@))) by {
            assert forall|k: int| 0 <= k < items@.len() implies jvals_view(items@)[k]
                == spec_inputs_json(inputs_view(is@))[k] by {
                lemma_jvals_view_index(items@, k);
            }
        }
    }
    JsonVal::Arr(items)
}

fn fees_to_json(fs: &Fees) -> (r: JsonVal)
    ensures
        r@ == spec_fees_json(fs@),
{
    let mut pairs: Vec<(String, JsonVal)> = Vec::new();
    let mut i: usize = 0;
    while i < fs.pairs.len()
        invariant
            i <= fs.pairs@.len(),
            pairs@.len() == i,
            forall|k: int| 0 <= k < i ==> #[trigger] pairs@[k].0@ == fs.pairs@[k].0@
                && pairs@[k].1 == JsonVal::Num(fs.pairs@[k].1),
        decreases fs.pairs@.len() - i,
    {
        pairs.push((fs.pairs[i].0.clone(), JsonVal::Num(fs.pairs[i].1)));
        i = i + 1;
    }
    proof {
        lemma_jpairs_view_len(pairs@);
        assert(jpairs_view(pairs@) =~= spec_fees_json(fs@)->Obj_0) by {
            assert forall|k: int| 0 <= k < pairs@.len() implies jpairs_view(pairs@)[k]
                == spec_fees_json(fs@)->Obj_0[k] by {
                lemma_jpairs_view_index(pairs@, k);
            }
        }
    }
    JsonVal::Obj(pairs)
}

/// Wrap an operation document in the request envelope.
pub fn build_envelope(operation: JsonVal, req_id: u64, submitter: Option<&str>) -> (r: JsonVal)
    ensures
        r@ == spec_envelope(operation@, req_id, opt_str_view(submitter)),
{
    let ghost opv = operation@;
    let mut pairs: Vec<(String, JsonVal)> = Vec::new();
    pairs.push((String::from_str("operation"), operation));
    pairs.push((String::from_str("reqId"), JsonVal::Num(req_id)));
    pairs.push((String::from_str("protocolVersion"), JsonVal::Num(PROTOCOL_VERSION)));
    match submitter {
        Some(d) => {
            pairs.push((String::from_str("identifier"), JsonVal::Str(String::from_str(d))));
        },
        None => {},
    }
    proof {
        lemma_jpairs_view_len(pairs@);
        lemma_jpairs_view_index(pairs@, 0);
        lemma_jpairs_view_index(pairs@, 1);
        lemma_jpairs_view_index(pairs@, 2);
        if submitter is Some {
            lemma_jpairs_view_index(pairs@, 3);
        }
        assert(jpairs_view(pairs@) =~= spec_envelope(opv, req_id, opt_str_view(
            submitter))->Obj_0);
    }
    JsonVal::Obj(pairs)
}

/// The mint operation: the given outputs under the mint code.
pub fn mint_operation(outputs: &Vec<Output>) -> (r: JsonVal)
    ensures
        r@ == spec_mint_operation(outputs_view(outputs@)),
{
    let outs = outputs_to_json(outputs);
    let ghost ov = outs@;
    let mut pairs: Vec<(String, JsonVal)> = Vec::new();
    pairs.push((String::from_str("type"), JsonVal::Str(String::from_str("10001"))));
    pairs.push((String::from_str("outputs"), outs));
    proof {
        lemma_jpairs_view_len(pairs@);
        lemma_jpairs_view_index(pairs@, 0);
        lemma_jpairs_view_index(pairs@, 1);
        assert(jpairs_view(pairs@) =~= spec_mint_operation(outputs_view(outputs@))->Obj_0);
    }
    JsonVal::Obj(pairs)
}

/// The transfer operation: the given inputs and outputs under the
/// transfer code.
pub fn payment_operation(inputs: &Vec<Input>, outputs: &Vec<Output>) -> (r: JsonVal)
    ensures
        r@ == spec_payment_operation(inputs_view(inputs@), outputs_view(outputs@)),
{
    let ins = inputs_to_json(inputs);
    let outs = outputs_to_json(outputs);
    let ghost iv = ins@;
    let ghost ov = outs@;
    let mut pairs: Vec<(String, JsonVal)> = Vec::new();
    pairs.push((String::from_str("type"), JsonVal::Str(String::from_str("10000"))));
    pairs.push((String::from_str("inputs"), ins));
    pairs.push((String::from_str("outputs"), outs));
    proof {
        lemma_jpairs_view_len(pairs@);
        lemma_jpairs_view_index(pairs@, 0);
        lemma_jpairs_view_index(pairs@, 1);
        lemma_jpairs_view_index(pairs@, 2);
        assert(jpairs_view(pairs@) =~= spec_payment_operation(inputs_view(inputs@),
            outputs_view(outputs@))->Obj_0);
    }
    JsonVal::Obj(pairs)
}

/// The set-fees operation: the fee table, emitted as given.
pub fn set_fees_operation(fees: &Fees) -> (r: JsonVal)
    ensures
        r@ == spec_set_fees_operation(fees@),
{
    let fj = fees_to_json(fees);
    let ghost fv = fj@;
    let mut pairs: Vec<(String, JsonVal)> = Vec::new();
    pairs.push((String::from_str("type"), JsonVal::Str(String::from_str("20000"))));
    pairs.push((String::from_str("fees"), fj));
    proof {
        lemma_jpairs_view_len(pairs@);
        lemma_jpairs_view_index(pairs@, 0);
        lemma_jpairs_view_index(pairs@, 1);
        assert(jpairs_view(pairs@) =~= spec_set_fees_operation(fees@)->Obj_0);
    }
    JsonVal::Obj(pairs)
}

} // verus!
