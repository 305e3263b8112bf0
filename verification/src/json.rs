//! JSON model shared by the request builders and parsers.
//!
//! `JsonVal` is the executable document tree; `SpecJson` is its
//! mathematical counterpart, with sequences in place of vectors and
//! strings.  `spec_render` fixes, character for character, the text
//! that `render_json` emits for a document.

use vstd::prelude::*;
use crate::strutil::push_char;

verus! {

/// Mathematical JSON document: the view of `JsonVal`.
pub enum SpecJson {
    Null,
    Bool(bool),
    Num(u64),
    Str(Seq<char>),
    Arr(Seq<SpecJson>),
    Obj(Seq<(Seq<char>, SpecJson)>),
}

/// Executable JSON document.  Object members keep their order, which
/// is part of an envelope's identity.
pub enum JsonVal {
    Null,
    Bool(bool),
    Num(u64),
    Str(String),
    Arr(Vec<JsonVal>),
    Obj(Vec<(String, JsonVal)>),
}

pub open spec fn jvals_view(items: Seq<JsonVal>) -> Seq<SpecJson>
    decreases items, 0int, items.len(),
{
    if items.len() == 0 {
        Seq::<SpecJson>::empty()
    } else {
        jvals_view(items.drop_last()).push(jview(items.last()))
    }
}

pub open spec fn jpairs_view(pairs: Seq<(String, JsonVal)>) -> Seq<(Seq<char>, SpecJson)>
    decreases pairs, 0int, pairs.len(),
{
    if pairs.len() == 0 {
        Seq::<(Seq<char>, SpecJson)>::empty()
    } else {
        jpairs_view(pairs.drop_last()).push((pairs.last().0@, jview(pairs.last().1)))
    }
}

pub open spec fn jview(v: JsonVal) -> SpecJson
    decreases v, 1int, 0int,
{
    match v {
        JsonVal::Null => SpecJson::Null,
        JsonVal::Bool(b) => SpecJson::Bool(b),
        JsonVal::Num(n) => SpecJson::Num(n),
        JsonVal::Str(s) => SpecJson::Str(s@),
        JsonVal::Arr(items) => SpecJson::Arr(jvals_view(items@)),
        JsonVal::Obj(pairs) => SpecJson::Obj(jpairs_view(pairs@)),
    }
}

impl View for JsonVal {
    type V = SpecJson;

    open spec fn view(&self) -> SpecJson {
        jview(*self)
    }
}

pub open spec fn spec_digit_char(d: int) -> char {
    if d == 0 { '0' }
    else if d == 1 { '1' }
    else if d == 2 { '2' }
    else if d == 3 { '3' }
    else if d == 4 { '4' }
    else if d == 5 { '5' }
    else if d == 6 { '6' }
    else if d == 7 { '7' }
    else if d == 8 { '8' }
    else { '9' }
}

/// Decimal digits of a non-negative integer, most significant first.
pub open spec fn spec_dec_digits(n: int) -> Seq<char>
    decreases n,
{
    if n < 10 {
        seq![spec_digit_char(n)]
    } else {
        spec_dec_digits(n / 10).push(spec_digit_char(n % 10))
    }
}

/// JSON escaping for one character: quote, backslash and the named
/// control characters take their two-character escapes; everything
/// else renders verbatim.  The parser rejects raw control
/// characters, so a parsed string renders back to legal text.
pub open spec fn spec_escape_char(c: char) -> Seq<char> {
    if c == '"' {
        seq!['\\', '"']
    } else if c == '\\' {
        seq!['\\', '\\']
    } else if c == '\n' {
        seq!['\\', 'n']
    } else if c == '\r' {
        seq!['\\', 'r']
    } else if c == '\t' {
        seq!['\\', 't']
    } else if c == '\u{8}' {
        seq!['\\', 'b']
    } else if c == '\u{c}' {
        seq!['\\', 'f']
    } else {
        seq![c]
    }
}

pub open spec fn spec_escape(s: Seq<char>) -> Seq<char>
    decreases s.len(),
{
    if s.len() == 0 {
        Seq::<char>::empty()
    } else {
        spec_escape(s.drop_last()) + spec_escape_char(s.last())
    }
}

/// The exact text of a rendered JSON document.
pub open spec fn spec_render(j: SpecJson) -> Seq<char>
    decreases j, 1int, 0int,
{
    match j {
        SpecJson::Null => seq!['n', 'u', 'l', 'l'],
        SpecJson::Bool(b) => if b {
            seq!['t', 'r', 'u', 'e']
        } else {
            seq!['f', 'a', 'l', 's', 'e']
        },
        SpecJson::Num(n) => spec_dec_digits(n as int),
        SpecJson::Str(s) => seq!['"'] + spec_escape(s) + seq!['"'],
        SpecJson::Arr(items) => seq!['['] + spec_render_items(items, 0) + seq![']'],
        SpecJson::Obj(pairs) => seq!['{'] + spec_render_members(pairs, 0) + seq!['}'],
    }
}

pub open spec fn spec_render_items(items: Seq<SpecJson>, i: int) -> Seq<char>
    decreases items, 2int, items.len() - i,
{
    if i < 0 || i >= items.len() {
        Seq::<char>::empty()
    } else if i == items.len() - 1 {
        spec_render(items[i])
    } else {
        spec_render(items[i]) + seq![','] + spec_render_items(items, i + 1)
    }
}

pub open spec fn spec_render_members(pairs: Seq<(Seq<char>, SpecJson)>, i: int) -> Seq<char>
    decreases pairs, 2int, pairs.len() - i,
{
    if i < 0 || i >= pairs.len() {
        Seq::<char>::empty()
    } else {
        let one = seq!['"'] + spec_escape(pairs[i].0) + seq!['"', ':'] + spec_render(pairs[i].1);
        if i == pairs.len() - 1 {
            one
        } else {
            one + seq![','] + spec_render_members(pairs, i + 1)
        }
    }
}

fn digit_char(d: u64) -> (c: char)
    requires
        d < 10,
    ensures
        c == spec_digit_char(d as int),
{
    if d == 0 { '0' }
    else if d == 1 { '1' }
    else if d == 2 { '2' }
    else if d == 3 { '3' }
    else if d == 4 { '4' }
    else if d == 5 { '5' }
    else if d == 6 { '6' }
    else if d == 7 { '7' }
    else if d == 8 { '8' }
    else { '9' }
}

fn render_u64(n: u64) -> (r: String)
    ensures
        r@ == spec_dec_digits(n as int),
    decreases n,
{
    let mut out = if n >= 10 { render_u64(n / 10) } else { String::new() };
    push_char(&mut out, digit_char(n % 10));
    proof {
        assert(out@ =~= spec_dec_digits(n as int));
    }
    out
}

fn escape_str(s: &str) -> (r: String)
    ensures
        r@ == spec_escape(s@),
{
    let len = s.unicode_len();
    let mut out = String::new();
    let mut i: usize = 0;
    while i < len
        invariant
            len == s@.len(),
            i <= len,
            out@ == spec_escape(s@.take(i as int)),
        decreases len - i,
    {
        let c = s.get_char(i);
        if c == '"' {
            push_char(&mut out, '\\');
            push_char(&mut out, '"');
        } else if c == '\\' {
            push_char(&mut out, '\\');
            push_char(&mut out, '\\');
        } else if c == '\n' {
            push_char(&mut out, '\\');
            push_char(&mut out, 'n');
        } else if c == '\r' {
            push_char(&mut out, '\\');
            push_char(&mut out, 'r');
        } else if c == '\t' {
            push_char(&mut out, '\\');
            push_char(&mut out, 't');
        } else if c == '\u{8}' {
            push_char(&mut out, '\\');
            push_char(&mut out, 'b');
        } else if c == '\u{c}' {
            push_char(&mut out, '\\');
            push_char(&mut out, 'f');
        } else {
            push_char(&mut out, c);
        }
        proof {
            assert(s@.take((i + 1) as int).drop_last() =~= s@.take(i as int));
            assert(s@.take((i + 1) as int).last() == s@[i as int]);
        }
        i = i + 1;
        assert(out@ =~= spec_escape(s@.take(i as int)));
    }
    proof {
        assert(s@.take(len as int) =~= s@);
    }
    out
}

fn render_string(s: &str) -> (r: String)
    ensures
        r@ == spec_render(SpecJson::Str(s@)),
{
    let mut out = String::new();
    push_char(&mut out, '"');
    let body = escape_str(s);
    out.append(body.as_str());
    push_char(&mut out, '"');
    proof {
        assert(out@ =~= spec_render(SpecJson::Str(s@)));
    }
    out
}

fn render_value(v: &JsonVal) -> (r: String)
    ensures
        r@ == spec_render(v@),
    decreases v, 1int, 0int,
{
    match v {
        JsonVal::Null => {
            let out = String::from_str("null");
            proof {
                reveal_strlit("null");
                assert(out@ =~= spec_render(v@));
            }
            out
        },
        JsonVal::Bool(b) => {
            if *b {
                let out = String::from_str("true");
                proof {
                    reveal_strlit("true");
                    assert(out@ =~= spec_render(v@));
                }
                out
            } else {
                let out = String::from_str("false");
                proof {
                    reveal_strlit("false");
                    assert(out@ =~= spec_render(v@));
                }
                out
            }
        },
        JsonVal::Num(n) => render_u64(*n),
        JsonVal::Str(s) => render_string(s.as_str()),
        JsonVal::Arr(items) => {
            let mut out = String::new();
            push_char(&mut out, '[');
            let body = render_items(items, 0);
            out.append(body.as_str());
            push_char(&mut out, ']');
            proof {
                assert(out@ =~= spec_render(v@));
            }
            out
        },
        JsonVal::Obj(pairs) => {
            let mut out = String::new();
            push_char(&mut out, '{');
            let body = render_members(pairs, 0);
            out.append(body.as_str());
            push_char(&mut out, '}');
            proof {
                assert(out@ =~= spec_render(v@));
            }
            out
        },
    }
}

fn render_items(items: &Vec<JsonVal>, i: usize) -> (r: String)
    requires
        i <= items@.len(),
    ensures
        r@ == spec_render_items(jvals_view(items@), i as int),
    decreases items, 2int, items@.len() - i,
{
    proof {
        lemma_jvals_view_len(items@);
    }
    if i < items.len() {
        let mut out = render_value(&items[i]);
        proof {
            lemma_jvals_view_index(items@, i as int);
        }
        if i + 1 < items.len() {
            push_char(&mut out, ',');
            let rest = render_items(items, i + 1);
            out.append(rest.as_str());
        }
        proof {
            assert(out@ =~= spec_render_items(jvals_view(items@), i as int));
        }
        out
    } else {
        String::new()
    }
}

fn render_members(pairs: &Vec<(String, JsonVal)>, i: usize) -> (r: String)
    requires
        i <= pairs@.len(),
    ensures
        r@ == spec_render_members(jpairs_view(pairs@), i as int),
    decreases pairs, 2int, pairs@.len() - i,
{
    proof {
        lemma_jpairs_view_len(pairs@);
    }
    if i < pairs.len() {
        let mut out = render_string(pairs[i].0.as_str());
        push_char(&mut out, ':');
        let val = render_value(&pairs[i].1);
        out.append(val.as_str());
        proof {
            lemma_jpairs_view_index(pairs@, i as int);
        }
        if i + 1 < pairs.len() {
            push_char(&mut out, ',');
            let rest = render_members(pairs, i + 1);
            out.append(rest.as_str());
        }
        proof {
            assert(out@ =~= spec_render_members(jpairs_view(pairs@), i as int));
        }
        out
    } else {
        String::new()
    }
}

pub proof fn lemma_jvals_view_len(items: Seq<JsonVal>)
    ensures
        jvals_view(items).len() == items.len(),
    decreases items.len(),
{
    if items.len() > 0 {
        lemma_jvals_view_len(items.drop_last());
    }
}

pub proof fn lemma_jvals_view_index(items: Seq<JsonVal>, i: int)
    requires
        0 <= i < items.len(),
    ensures
        jvals_view(items).len() == items.len(),
        jvals_view(items)[i] == jview(items[i]),
    decreases items.len(),
{
    lemma_jvals_view_len(items);
    if i < items.len() - 1 {
        lemma_jvals_view_index(items.drop_last(), i);
    }
}

pub proof fn lemma_jpairs_view_len(pairs: Seq<(String, JsonVal)>)
    ensures
        jpairs_view(pairs).len() == pairs.len(),
    decreases pairs.len(),
{
    if pairs.len() > 0 {
        lemma_jpairs_view_len(pairs.drop_last());
    }
}

pub proof fn lemma_jpairs_view_index(pairs: Seq<(String, JsonVal)>, i: int)
    requires
        0 <= i < pairs.len(),
    ensures
        jpairs_view(pairs).len() == pairs.len(),
        jpairs_view(pairs)[i].0 == pairs[i].0@,
        jpairs_view(pairs)[i].1 == jview(pairs[i].1),
    decreases pairs.len(),
{
    lemma_jpairs_view_len(pairs);
    if i < pairs.len() - 1 {
        lemma_jpairs_view_index(pairs.drop_last(), i);
    }
}

/// Serialize a document to its canonical JSON text.
pub fn render_json(v: &JsonVal) -> (r: String)
    ensures
        r@ == spec_render(v@),
{
    render_value(v)
}

} // verus!
