//! Typed request model and envelope construction.
//!
//! Outputs, inputs, fee tables and the address config are read out of
//! parsed JSON documents; envelopes wrap an operation object with the
//! request identifier, the protocol version and, when a submitter was
//! supplied, its identifier.  The transaction type codes are the
//! ledger's: the transfer code is fixed by the fee-attachment rule,
//! and the others must match the ledger schema exactly.

use vstd::prelude::*;
use crate::json::{
    JsonVal, SpecJson, jview, jvals_view, jpairs_view, lemma_jvals_view_len,
    lemma_jvals_view_index, lemma_jpairs_view_len, lemma_jpairs_view_index,
};
use crate::parse::{
    spec_parse_text, parse_json_text, spec_parse_value, spec_parse_string, spec_parse_members,
    spec_ws,
};
use crate::strutil::str_eq;

verus! {

pub const PROTOCOL_VERSION: u64 = 1;

/// A spendable value: an address together with the sequence number of
/// the transaction that created it.
pub struct Input {
    pub address: String,
    pub seq_no: u64,
    pub signature: Option<String>,
}

pub struct SpecInput {
    pub address: Seq<char>,
    pub seq_no: u64,
    pub signature: Option<Seq<char>>,
}

impl View for Input {
    type V = SpecInput;

    open spec fn view(&self) -> SpecInput {
        SpecInput {
            address: self.address@,
            seq_no: self.seq_no,
            signature: match self.signature {
                Some(s) => Some(s@),
                None => None,
            },
        }
    }
}

/// Value to be created at an address.
pub struct Output {
    pub address: String,
    pub amount: u64,
    pub extra: Option<String>,
}

pub struct SpecOutput {
    pub address: Seq<char>,
    pub amount: u64,
    pub extra: Option<Seq<char>>,
}

impl View for Output {
    type V = SpecOutput;

    open spec fn view(&self) -> SpecOutput {
        SpecOutput {
            address: self.address@,
            amount: self.amount,
            extra: match self.extra {
                Some(s) => Some(s@),
                None => None,
            },
        }
    }
}

/// Fee table: transaction type code to amount, order and unknown
/// codes kept verbatim.
pub struct Fees {
    pub pairs: Vec<(String, u64)>,
}

impl View for Fees {
    type V = Seq<(Seq<char>, u64)>;

    open spec fn view(&self) -> Seq<(Seq<char>, u64)> {
        Seq::new(self.pairs@.len(), |i: int| (self.pairs@[i].0@, self.pairs@[i].1))
    }
}

/// Address creation config; an empty seed asks the wallet for fresh
/// randomness.
pub struct PaymentAddressConfig {
    pub seed: String,
}

pub open spec fn inputs_view(is: Seq<Input>) -> Seq<SpecInput> {
    Seq::new(is.len(), |i: int| is[i]@)
}

pub open spec fn outputs_view(os: Seq<Output>) -> Seq<SpecOutput> {
    Seq::new(os.len(), |i: int| os[i]@)
}

/// Member lookup: the last binding of a key wins, as the reference
/// JSON readers have it.
pub open spec fn spec_lookup(pairs: Seq<(Seq<char>, SpecJson)>, key: Seq<char>) -> Option<
    SpecJson,
>
    decreases pairs.len(),
{
    if pairs.len() == 0 {
        None
    } else if pairs.last().0 == key {
        Some(pairs.last().1)
    } else {
        spec_lookup(pairs.drop_last(), key)
    }
}

pub open spec fn spec_get_field(j: SpecJson, key: Seq<char>) -> Option<SpecJson> {
    match j {
        SpecJson::Obj(pairs) => spec_lookup(pairs, key),
        _ => None,
    }
}

fn lookup_upto<'a>(pairs: &'a Vec<(String, JsonVal)>, n: usize, key: &str) -> (r: Option<
    &'a JsonVal,
>)
    requires
        n <= pairs@.len(),
    ensures
        match r {
            Some(f) => spec_lookup(jpairs_view(pairs@.take(n as int)), key@) == Some(f@),
            None => spec_lookup(jpairs_view(pairs@.take(n as int)), key@) is None,
        },
    decreases n,
{
    proof {
        lemma_jpairs_view_len(pairs@.take(n as int));
    }
    if n == 0 {
        None
    } else {
        proof {
            lemma_jpairs_view_index(pairs@.take(n as int), n - 1);
            assert(jpairs_view(pairs@.take(n as int)).last() == (
                pairs@[n - 1].0@,
                jview(pairs@[n - 1].1),
            ));
            lemma_jpairs_view_len(pairs@.take(n - 1 as int));
            assert(jpairs_view(pairs@.take(n as int)).drop_last() =~= jpairs_view(
                pairs@.take(n - 1 as int))) by {
                assert forall|j: int| 0 <= j < n - 1 implies jpairs_view(
                    pairs@.take(n as int)).drop_last()[j] == jpairs_view(
                    pairs@.take(n - 1 as int))[j] by {
                    lemma_jpairs_view_index(pairs@.take(n as int), j);
                    lemma_jpairs_view_index(pairs@.take(n - 1 as int), j);
                }
            }
        }
        let p = &pairs[n - 1];
        if str_eq(p.0.as_str(), key) {
            Some(&p.1)
        } else {
            lookup_upto(pairs, n - 1, key)
        }
    }
}

/// Field of an object document; `None` on any other document kind.
pub fn get_field<'a>(v: &'a JsonVal, key: &str) -> (r: Option<&'a JsonVal>)
    ensures
        match r {
            Some(f) => spec_get_field(v@, key@) == Some(f@),
            None => spec_get_field(v@, key@) is None,
        },
{
    match v {
        JsonVal::Obj(pairs) => {
            proof {
                assert(pairs@.take(pairs@.len() as int) =~= pairs@);
            }
            lookup_upto(pairs, pairs.len(), key)
        },
        _ => None,
    }
}

/// The output an object document denotes, if any: a string `address`,
/// a numeric `amount`, and an optional string `extra`.
pub open spec fn spec_output_of(j: SpecJson) -> Option<SpecOutput> {
    match spec_get_field(j, "address"@) {
        Some(SpecJson::Str(a)) => match spec_get_field(j, "amount"@) {
            Some(SpecJson::Num(n)) => match spec_get_field(j, "extra"@) {
                None => Some(SpecOutput { address: a, amount: n, extra: None }),
                Some(SpecJson::Str(e)) => Some(
                    SpecOutput { address: a, amount: n, extra: Some(e) },
                ),
                Some(_) => None,
            },
            _ => None,
        },
        _ => None,
    }
}

/// The input an object document denotes, if any: a string `address`,
/// a numeric `seqNo`, and an optional string `signature`.
pub open spec fn spec_input_of(j: SpecJson) -> Option<SpecInput> {
    match spec_get_field(j, "address"@) {
        Some(SpecJson::Str(a)) => match spec_get_field(j, "seqNo"@) {
            Some(SpecJson::Num(n)) => match spec_get_field(j, "signature"@) {
                None => Some(SpecInput { address: a, seq_no: n, signature: None }),
                Some(SpecJson::Str(e)) => Some(
                    SpecInput { address: a, seq_no: n, signature: Some(e) },
                ),
                Some(_) => None,
            },
            _ => None,
        },
        _ => None,
    }
}

pub fn output_from_json(v: &JsonVal) -> (r: Option<Output>)
    ensures
        match r {
            Some(o) => spec_output_of(v@) == Some(o@),
            None => spec_output_of(v@) is None,
        },
{
    let address = match get_field(v, "address") {
        Some(JsonVal::Str(a)) => a.clone(),
        _ => {
            return None;
        },
    };
    let amount = match get_field(v, "amount") {
        Some(JsonVal::Num(n)) => *n,
        _ => {
            return None;
        },
    };
    let extra = match get_field(v, "extra") {
        None => None,
        Some(JsonVal::Str(e)) => Some(e.clone()),
        Some(_) => {
            return None;
        },
    };
    Some(Output { address, amount, extra })
}

pub fn input_from_json(v: &JsonVal) -> (r: Option<Input>)
    ensures
        match r {
            Some(o) => spec_input_of(v@) == Some(o@),
            None => spec_input_of(v@) is None,
        },
{
    let address = match get_field(v, "address") {
        Some(JsonVal::Str(a)) => a.clone(),
        _ => {
            return None;
        },
    };
    let seq_no = match get_field(v, "seqNo") {
        Some(JsonVal::Num(n)) => *n,
        _ => {
            return None;
        },
    };
    let signature = match get_field(v, "signature") {
        None => None,
        Some(JsonVal::Str(e)) => Some(e.clone()),
        Some(_) => {
            return None;
        },
    };
    Some(Input { address, seq_no, signature })
}

pub open spec fn spec_outputs_of_seq(items: Seq<SpecJson>) -> Option<Seq<SpecOutput>>
    decreases items.len(),
{
    if items.len() == 0 {
        Some(Seq::<SpecOutput>::empty())
    } else {
        match spec_outputs_of_seq(items.drop_last()) {
            Some(os) => match spec_output_of(items.last()) {
                Some(o) => Some(os.push(o)),
                None => None,
            },
            None => None,
        }
    }
}

/// The output list an array document denotes, if any.
pub open spec fn spec_outputs_of(j: SpecJson) -> Option<Seq<SpecOutput>> {
    match j {
        SpecJson::Arr(items) => spec_outputs_of_seq(items),
        _ => None,
    }
}

pub open spec fn spec_inputs_of_seq(items: Seq<SpecJson>) -> Option<Seq<SpecInput>>
    decreases items.len(),
{
    if items.len() == 0 {
        Some(Seq::<SpecInput>::empty())
    } else {
        match spec_inputs_of_seq(items.drop_last()) {
            Some(is) => match spec_input_of(items.last()) {
                Some(x) => Some(is.push(x)),
                None => None,
            },
            None => None,
        }
    }
}

/// The input list an array document denotes, if any.
pub open spec fn spec_inputs_of(j: SpecJson) -> Option<Seq<SpecInput>> {
    match j {
        SpecJson::Arr(items) => spec_inputs_of_seq(items),
        _ => None,
    }
}

proof fn lemma_outputs_seq_fail(items: Seq<SpecJson>, k: int)
    requires
        0 <= k < items.len(),
        spec_output_of(items[k]) is None,
    ensures
        spec_outputs_of_seq(items) is None,
    decreases items.len(),
{
    if k < items.len() - 1 {
        lemma_outputs_seq_fail(items.drop_last(), k);
    }
}

proof fn lemma_inputs_seq_fail(items: Seq<SpecJson>, k: int)
    requires
        0 <= k < items.len(),
        spec_input_of(items[k]) is None,
    ensures
        spec_inputs_of_seq(items) is None,
    decreases items.len(),
{
    if k < items.len() - 1 {
        lemma_inputs_seq_fail(items.drop_last(), k);
    }
}

pub fn outputs_from_json(v: &JsonVal) -> (r: Option<Vec<Output>>)
    ensures
        match r {
            Some(os) => spec_outputs_of(v@) == Some(outputs_view(os@)),
            None => spec_outputs_of(v@) is None,
        },
{
    match v {
        JsonVal::Arr(items) => {
            proof {
                lemma_jvals_view_len(items@);
            }
            let mut out: Vec<Output> = Vec::new();
            let mut i: usize = 0;
            proof {
                assert(jvals_view(items@).take(0) =~= Seq::<SpecJson>::empty());
                assert(outputs_view(out@) =~= Seq::<SpecOutput>::empty());
            }
            while i < items.len()
                invariant
                    v@ == SpecJson::Arr(jvals_view(items@)),
                    i <= items@.len(),
                    jvals_view(items@).len() == items@.len(),
                    out@.len() == i,
                    spec_outputs_of_seq(jvals_view(items@).take(i as int)) == Some(
                        outputs_view(out@)),
                decreases items@.len() - i,
            {
                proof {
                    lemma_jvals_view_index(items@, i as int);
                }
                match output_from_json(&items[i]) {
                    Some(o) => {
                        let ghost prev = out@;
                        let ghost ov = o@;
                        out.push(o);
                        proof {
                            assert(jvals_view(items@).take((i + 1) as int).drop_last()
                                =~= jvals_view(items@).take(i as int));
                            assert(jvals_view(items@).take((i + 1) as int).last() == jview(
                                items@[i as int]));
                            assert(outputs_view(out@) =~= outputs_view(prev).push(ov));
                        }
                    },
                    None => {
                        proof {
                            lemma_outputs_seq_fail(jvals_view(items@), i as int);
                        }
                        return None;
                    },
                }
                i = i + 1;
            }
            proof {
                assert(jvals_view(items@).take(items@.len() as int) =~= jvals_view(items@));
            }
            Some(out)
        },
        _ => None,
    }
}

pub fn inputs_from_json(v: &JsonVal) -> (r: Option<Vec<Input>>)
    ensures
        match r {
            Some(is) => spec_inputs_of(v@) == Some(inputs_view(is@)),
            None => spec_inputs_of(v@) is None,
        },
{
    match v {
        JsonVal::Arr(items) => {
            proof {
                lemma_jvals_view_len(items@);
            }
            let mut out: Vec<Input> = Vec::new();
            let mut i: usize = 0;
            proof {
                assert(jvals_view(items@).take(0) =~= Seq::<SpecJson>::empty());
                assert(inputs_view(out@) =~= Seq::<SpecInput>::empty());
            }
            while i < items.len()
                invariant
                    v@ == SpecJson::Arr(jvals_view(items@)),
                    i <= items@.len(),
                    jvals_view(items@).len() == items@.len(),
                    out@.len() == i,
                    spec_inputs_of_seq(jvals_view(items@).take(i as int)) == Some(
                        inputs_view(out@)),
                decreases items@.len() - i,
            {
                proof {
                    lemma_jvals_view_index(items@, i as int);
                }
                match input_from_json(&items[i]) {
                    Some(x) => {
                        let ghost prev = out@;
                        let ghost xv = x@;
                        out.push(x);
                        proof {
                            assert(jvals_view(items@).take((i + 1) as int).drop_last()
                                =~= jvals_view(items@).take(i as int));
                            assert(jvals_view(items@).take((i + 1) as int).last() == jview(
                                items@[i as int]));
                            assert(inputs_view(out@) =~= inputs_view(prev).push(xv));
                        }
                    },
                    None => {
                        proof {
                            lemma_inputs_seq_fail(jvals_view(items@), i as int);
                        }
                        return None;
                    },
                }
                i = i + 1;
            }
            proof {
                assert(jvals_view(items@).take(items@.len() as int) =~= jvals_view(items@));
            }
            Some(out)
        },
        _ => None,
    }
}

pub open spec fn spec_fees_of_pairs(pairs: Seq<(Seq<char>, SpecJson)>) -> Option<
    Seq<(Seq<char>, u64)>,
>
    decreases pairs.len(),
{
    if pairs.len() == 0 {
        Some(Seq::<(Seq<char>, u64)>::empty())
    } else {
        match spec_fees_of_pairs(pairs.drop_last()) {
            Some(fs) => match pairs.last().1 {
                SpecJson::Num(n) => Some(fs.push((pairs.last().0, n))),
                _ => None,
            },
            None => None,
        }
    }
}

/// The fee table an object document denotes, if any: every member
/// value must be a number; codes are kept verbatim.
pub open spec fn spec_fees_of(j: SpecJson) -> Option<Seq<(Seq<char>, u64)>> {
    match j {
        SpecJson::Obj(pairs) => spec_fees_of_pairs(pairs),
        _ => None,
    }
}

proof fn lemma_fees_pairs_fail(pairs: Seq<(Seq<char>, SpecJson)>, k: int)
    requires
        0 <= k < pairs.len(),
        !(pairs[k].1 is Num),
    ensures
        spec_fees_of_pairs(pairs) is None,
    decreases pairs.len(),
{
    if k < pairs.len() - 1 {
        lemma_fees_pairs_fail(pairs.drop_last(), k);
    }
}

pub fn fees_from_json(v: &JsonVal) -> (r: Option<Fees>)
    ensures
        match r {
            Some(fs) => spec_fees_of(v@) == Some(fs@),
            None => spec_fees_of(v@) is None,
        },
{
    match v {
        JsonVal::Obj(pairs) => {
            proof {
                lemma_jpairs_view_len(pairs@);
            }
            let mut out: Vec<(String, u64)> = Vec::new();
            let mut i: usize = 0;
            proof {
                assert(jpairs_view(pairs@).take(0) =~= Seq::<(Seq<char>, SpecJson)>::empty());
                assert(Seq::new(out@.len(), |k: int| (out@[k].0@, out@[k].1)) =~= Seq::<
                    (Seq<char>, u64),
                >::empty());
            }
            while i < pairs.len()
                invariant
                    v@ == SpecJson::Obj(jpairs_view(pairs@)),
                    i <= pairs@.len(),
                    jpairs_view(pairs@).len() == pairs@.len(),
                    out@.len() == i,
                    spec_fees_of_pairs(jpairs_view(pairs@).take(i as int)) == Some(
                        Seq::new(out@.len(), |k: int| (out@[k].0@, out@[k].1))),
                decreases pairs@.len() - i,
            {
                proof {
                    lemma_jpairs_view_index(pairs@, i as int);
                }
                match &pairs[i].1 {
                    JsonVal::Num(n) => {
                        let ghost prev = out@;
                        out.push((pairs[i].0.clone(), *n));
                        proof {
                            assert(jpairs_view(pairs@).take((i + 1) as int).drop_last()
                                =~= jpairs_view(pairs@).take(i as int));
                            assert(jpairs_view(pairs@).take((i + 1) as int).last() == (
                                pairs@[i as int].0@,
                                jview(pairs@[i as int].1),
                            ));
                            assert(Seq::new(out@.len(), |k: int| (out@[k].0@, out@[k].1))
                                =~= Seq::new(prev.len(), |k: int| (prev[k].0@, prev[k].1)).push(
                                (pairs@[i as int].0@, pairs@[i as int].1->Num_0)));
                        }
                    },
                    _ => {
                        proof {
                            lemma_fees_pairs_fail(jpairs_view(pairs@), i as int);
                        }
                        return None;
                    },
                }
                i = i + 1;
            }
            proof {
                assert(jpairs_view(pairs@).take(pairs@.len() as int) =~= jpairs_view(pairs@));
            }
            Some(Fees { pairs: out })
        },
        _ => None,
    }
}

/// The seed a config text selects: a failed parse or a missing seed
/// string falls back to the empty seed, which matches how the host
/// hands over an empty object.
pub open spec fn spec_config_seed(s: Seq<char>) -> Seq<char> {
    match spec_parse_text(s) {
        Some(j) => match spec_get_field(j, "seed"@) {
            Some(SpecJson::Str(t)) => t,
            _ => Seq::<char>::empty(),
        },
        _ => Seq::<char>::empty(),
    }
}

pub fn config_from_json(s: &str) -> (r: PaymentAddressConfig)
    ensures
        r.seed@ == spec_config_seed(s@),
{
    match parse_json_text(s) {
        Some(v) => {
            match get_field(&v, "seed") {
                Some(JsonVal::Str(t)) => PaymentAddressConfig { seed: t.clone() },
                _ => PaymentAddressConfig { seed: String::new() },
            }
        },
        None => PaymentAddressConfig { seed: String::new() },
    }
}

/// An empty config object selects the same seed as an explicit empty
/// seed: both select the empty one, so the two configs drive address
/// creation identically.
pub proof fn lemma_empty_config_default()
    ensures
        spec_config_seed("{}"@) == spec_config_seed("{\"seed\":\"\"}"@),
{
    lemma_empty_object_config();
    lemma_explicit_empty_seed_config();
}

proof fn lemma_empty_object_config()
    ensures
        spec_config_seed("{}"@) == Seq::<char>::empty(),
{
    reveal_strlit("{}");
    let s = "{}"@;
    assert(s.len() == 2 && s[0] == '{' && s[1] == '}');
    assert(spec_ws(s, 0) == 0);
    assert(spec_ws(s, 1) == 1);
    assert(spec_ws(s, 2) == 2);
    assert(spec_parse_value(s, 0) == Some((
        SpecJson::Obj(Seq::<(Seq<char>, SpecJson)>::empty()),
        2int,
    )));
    assert(spec_parse_text(s) == Some(SpecJson::Obj(Seq::<(Seq<char>, SpecJson)>::empty())));
    assert(spec_lookup(Seq::<(Seq<char>, SpecJson)>::empty(), "seed"@) is None);
}

proof fn lemma_explicit_empty_seed_config()
    ensures
        spec_config_seed("{\"seed\":\"\"}"@) == Seq::<char>::empty(),
{
    reveal_strlit("{\"seed\":\"\"}");
    reveal_strlit("seed");
    let s = "{\"seed\":\"\"}"@;
    assert(s.len() == 11);
    assert(s[0] == '{' && s[1] == '"' && s[2] == 's' && s[3] == 'e' && s[4] == 'e'
        && s[5] == 'd' && s[6] == '"' && s[7] == ':' && s[8] == '"' && s[9] == '"'
        && s[10] == '}');
    assert(spec_ws(s, 0) == 0);
    assert(spec_ws(s, 1) == 1);
    assert(spec_ws(s, 7) == 7);
    assert(spec_ws(s, 10) == 10);
    assert(spec_ws(s, 11) == 11);
    assert(spec_parse_string(s, 6) == Some((Seq::<char>::empty(), 7int)));
    assert(spec_parse_string(s, 5) == Some((seq!['d'], 7int)));
    assert(spec_parse_string(s, 4) == Some((seq!['e', 'd'], 7int)));
    assert(spec_parse_string(s, 3) == Some((seq!['e', 'e', 'd'], 7int)));
    assert(spec_parse_string(s, 2) == Some((seq!['s', 'e', 'e', 'd'], 7int)));
    assert(spec_parse_string(s, 9) == Some((Seq::<char>::empty(), 10int)));
    assert(spec_parse_value(s, 8) == Some((SpecJson::Str(Seq::<char>::empty()), 10int)));
    let key = seq!['s', 'e', 'e', 'd'];
    let pairs = seq![(key, SpecJson::Str(Seq::<char>::empty()))];
    assert(spec_parse_members(s, 1) == Some((pairs, 11int)));
    assert(spec_parse_value(s, 0) == Some((SpecJson::Obj(pairs), 11int)));
    assert(spec_parse_text(s) == Some(SpecJson::Obj(pairs)));
    assert(key =~= "seed"@);
    assert(spec_lookup(pairs, "seed"@) == Some(SpecJson::Str(Seq::<char>::empty())));
}

/// Request identifier source: strictly increasing within a process,
/// so identifiers are pairwise distinct.
pub struct ReqIdGen {
    pub last: u64,
}

impl ReqIdGen {
    pub fn new(start: u64) -> (r: ReqIdGen)
        ensures
            r.last == start,
    {
        ReqIdGen { last: start }
    }

    pub fn next(&mut self) -> (r: u64)
        requires
            old(self).last < 0xffff_ffff_ffff_ffff,
        ensures
            final(self).last == old(self).last + 1,
            r == final(self).last,
            r > old(self).last,
    {
        self.last = self.last + 1;
        self.last
    }

    /// Fresh identifier, or nothing once the space is exhausted: the
    /// generator never restarts, so every identifier it ever hands
    /// out is strictly greater than the ones before.
    pub fn try_next(&mut self) -> (r: Option<u64>)
        ensures
            match r {
                Some(v) => old(self).last < 0xffff_ffff_ffff_ffff && final(self).last == old(
                    self).last + 1 && v == final(self).last && v > old(self).last,
                None => old(self).last == 0xffff_ffff_ffff_ffff && *final(self) == *old(self),
            },
    {
        if self.last < 0xffff_ffff_ffff_ffff {
            self.last = self.last + 1;
            Some(self.last)
        } else {
            None
        }
    }
}

} // verus!
