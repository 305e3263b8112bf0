//! JSON parser for the request model.
//!
//! `spec_parse_text` is the mathematical definition of the accepted
//! grammar; `parse_json_text` computes exactly that function.  The
//! grammar covers the documents the host exchanges with the plugin:
//! objects, arrays, strings with the single-character escapes,
//! unsigned decimal numbers, and the three literals.  Anything else,
//! including hex escapes and numbers out of the unsigned 64-bit
//! range, is rejected,
//! which surfaces as a structure error at the handlers.

use vstd::prelude::*;
use crate::json::{JsonVal, SpecJson, jview, jvals_view, jpairs_view};
use crate::strutil::push_char;

verus! {

pub open spec fn is_ws_char(c: char) -> bool {
    c == ' ' || c == '\n' || c == '\t' || c == '\r'
}

pub open spec fn is_digit_char(c: char) -> bool {
    0x30 <= (c as u32) && (c as u32) <= 0x39
}

pub open spec fn digit_val(c: char) -> int {
    (c as u32) - 0x30
}

/// The character a single-letter escape stands for; hex escapes are
/// not taken.
pub open spec fn spec_unescape(c: char) -> Option<char> {
    if c == '"' {
        Some('"')
    } else if c == '\\' {
        Some('\\')
    } else if c == '/' {
        Some('/')
    } else if c == 'n' {
        Some('\n')
    } else if c == 'r' {
        Some('\r')
    } else if c == 't' {
        Some('\t')
    } else if c == 'b' {
        Some('\u{8}')
    } else if c == 'f' {
        Some('\u{c}')
    } else {
        None
    }
}

/// Index of the first non-whitespace character at or after `i`.
pub open spec fn spec_ws(s: Seq<char>, i: int) -> int
    decreases s.len() - i,
{
    if 0 <= i && i < s.len() && is_ws_char(s[i]) {
        spec_ws(s, i + 1)
    } else {
        i
    }
}

/// Body of a string literal, starting just after the opening quote.
/// Returns the unescaped text and the index just after the closing
/// quote.  Raw control characters and unknown escapes are rejected.
pub open spec fn spec_parse_string(s: Seq<char>, i: int) -> Option<(Seq<char>, int)>
    decreases s.len() - i, 0int,
{
    if i < 0 || i >= s.len() {
        None
    } else {
        let c = s[i];
        if c == '"' {
            Some((Seq::<char>::empty(), i + 1))
        } else if c == '\\' {
            if i + 1 < s.len() {
                match spec_unescape(s[i + 1]) {
                    Some(u) => match spec_parse_string(s, i + 2) {
                        Some(p) => Some((seq![u] + p.0, p.1)),
                        None => None,
                    },
                    None => None,
                }
            } else {
                None
            }
        } else if (c as u32) < 0x20 {
            None
        } else {
            match spec_parse_string(s, i + 1) {
                Some(p) => Some((seq![c] + p.0, p.1)),
                None => None,
            }
        }
    }
}

/// Digits of an unsigned decimal number, folded onto `acc`.  Stops at
/// the first non-digit; fails only when the value would not fit.
pub open spec fn spec_parse_num(s: Seq<char>, i: int, acc: u64) -> Option<(u64, int)>
    decreases s.len() - i, 0int,
{
    if 0 <= i && i < s.len() && is_digit_char(s[i]) {
        let d = digit_val(s[i]);
        if acc > (0xffff_ffff_ffff_ffff - d) / 10 {
            None
        } else {
            spec_parse_num(s, i + 1, (acc * 10 + d) as u64)
        }
    } else {
        Some((acc, i))
    }
}

/// One JSON value starting at or after `i`, with the index just past
/// it.  The index bound checks double as the termination measure.
pub open spec fn spec_parse_value(s: Seq<char>, i: int) -> Option<(SpecJson, int)>
    decreases s.len() - i, 1int,
{
    let i1 = spec_ws(s, i);
    if i1 < i || i1 >= s.len() {
        None
    } else {
        let c = s[i1];
        if c == 'n' {
            if i1 + 4 <= s.len() && s[i1 + 1] == 'u' && s[i1 + 2] == 'l' && s[i1 + 3] == 'l' {
                Some((SpecJson::Null, i1 + 4))
            } else {
                None
            }
        } else if c == 't' {
            if i1 + 4 <= s.len() && s[i1 + 1] == 'r' && s[i1 + 2] == 'u' && s[i1 + 3] == 'e' {
                Some((SpecJson::Bool(true), i1 + 4))
            } else {
                None
            }
        } else if c == 'f' {
            if i1 + 5 <= s.len() && s[i1 + 1] == 'a' && s[i1 + 2] == 'l' && s[i1 + 3] == 's'
                && s[i1 + 4] == 'e' {
                Some((SpecJson::Bool(false), i1 + 5))
            } else {
                None
            }
        } else if c == '"' {
            match spec_parse_string(s, i1 + 1) {
                Some(p) => Some((SpecJson::Str(p.0), p.1)),
                None => None,
            }
        } else if is_digit_char(c) {
            match spec_parse_num(s, i1, 0) {
                Some(p) => Some((SpecJson::Num(p.0), p.1)),
                None => None,
            }
        } else if c == '[' {
            let i2 = spec_ws(s, i1 + 1);
            if i2 < i1 + 1 || i2 >= s.len() {
                None
            } else if s[i2] == ']' {
                Some((SpecJson::Arr(Seq::<SpecJson>::empty()), i2 + 1))
            } else {
                match spec_parse_items(s, i2) {
                    Some(p) => Some((SpecJson::Arr(p.0), p.1)),
                    None => None,
                }
            }
        } else if c == '{' {
            let i2 = spec_ws(s, i1 + 1);
            if i2 < i1 + 1 || i2 >= s.len() {
                None
            } else if s[i2] == '}' {
                Some((SpecJson::Obj(Seq::<(Seq<char>, SpecJson)>::empty()), i2 + 1))
            } else {
                match spec_parse_members(s, i2) {
                    Some(p) => Some((SpecJson::Obj(p.0), p.1)),
                    None => None,
                }
            }
        } else {
            None
        }
    }
}

/// Comma-separated values of a non-empty array, up to and including
/// the closing bracket.
pub open spec fn spec_parse_items(s: Seq<char>, i: int) -> Option<(Seq<SpecJson>, int)>
    decreases s.len() - i, 2int,
{
    match spec_parse_value(s, i) {
        Some(p) => {
            let v = p.0;
            let j = p.1;
            if j <= i || j > s.len() {
                None
            } else {
                let i2 = spec_ws(s, j);
                if i2 < j || i2 >= s.len() {
                    None
                } else if s[i2] == ']' {
                    Some((seq![v], i2 + 1))
                } else if s[i2] == ',' {
                    match spec_parse_items(s, i2 + 1) {
                        Some(q) => Some((seq![v] + q.0, q.1)),
                        None => None,
                    }
                } else {
                    None
                }
            }
        },
        None => None,
    }
}

/// Members of a non-empty object, up to and including the closing
/// brace.  `i` must sit on the opening quote of a key.
pub open spec fn spec_parse_members(s: Seq<char>, i: int) -> Option<
    (Seq<(Seq<char>, SpecJson)>, int),
>
    decreases s.len() - i, 2int,
{
    if i < 0 || i >= s.len() || s[i] != '"' {
        None
    } else {
        match spec_parse_string(s, i + 1) {
            Some(kp) => {
                let k = kp.0;
                let j = kp.1;
                if j <= i || j > s.len() {
                    None
                } else {
                    let i2 = spec_ws(s, j);
                    if i2 < j || i2 >= s.len() || s[i2] != ':' {
                        None
                    } else {
                        match spec_parse_value(s, i2 + 1) {
                            Some(vp) => {
                                let v = vp.0;
                                let j2 = vp.1;
                                if j2 <= i2 || j2 > s.len() {
                                    None
                                } else {
                                    let i3 = spec_ws(s, j2);
                                    if i3 < j2 || i3 >= s.len() {
                                        None
                                    } else if s[i3] == '}' {
                                        Some((seq![(k, v)], i3 + 1))
                                    } else if s[i3] == ',' {
                                        match spec_parse_members(s, i3 + 1) {
                                            Some(q) => Some((seq![(k, v)] + q.0, q.1)),
                                            None => None,
                                        }
                                    } else {
                                        None
                                    }
                                }
                            },
                            None => None,
                        }
                    }
                }
            },
            None => None,
        }
    }
}

/// A whole document: one value with nothing but whitespace after it.
pub open spec fn spec_parse_text(s: Seq<char>) -> Option<SpecJson> {
    match spec_parse_value(s, 0) {
        Some(p) => {
            if 0 <= p.1 <= s.len() && spec_ws(s, p.1) == s.len() {
                Some(p.0)
            } else {
                None
            }
        },
        None => None,
    }
}

proof fn lemma_jvals_view_cons(v: JsonVal, rest: Seq<JsonVal>)
    ensures
        jvals_view(seq![v] + rest) == seq![jview(v)] + jvals_view(rest),
    decreases rest.len(),
{
    if rest.len() == 0 {
        assert(seq![v] + rest =~= seq![v]);
        assert((seq![v]).drop_last() =~= Seq::<JsonVal>::empty());
        assert(jvals_view(Seq::<JsonVal>::empty()) =~= Seq::<SpecJson>::empty());
        assert((seq![v]).last() == v);
        assert(jvals_view(seq![v] + rest) =~= seq![jview(v)] + jvals_view(rest));
    } else {
        assert((seq![v] + rest).drop_last() =~= seq![v] + rest.drop_last());
        assert((seq![v] + rest).last() == rest.last());
        lemma_jvals_view_cons(v, rest.drop_last());
        assert(jvals_view(seq![v] + rest) == jvals_view(seq![v] + rest.drop_last()).push(
            jview(rest.last())));
        assert(jvals_view(rest) == jvals_view(rest.drop_last()).push(jview(rest.last())));
        assert(seq![jview(v)] + jvals_view(rest) =~= (seq![jview(v)] + jvals_view(
            rest.drop_last())).push(jview(rest.last())));
        assert(jvals_view(seq![v] + rest) =~= seq![jview(v)] + jvals_view(rest));
    }
}

proof fn lemma_jpairs_view_cons(k: String, v: JsonVal, rest: Seq<(String, JsonVal)>)
    ensures
        jpairs_view(seq![(k, v)] + rest) == seq![(k@, jview(v))] + jpairs_view(rest),
    decreases rest.len(),
{
    if rest.len() == 0 {
        assert(seq![(k, v)] + rest =~= seq![(k, v)]);
        assert((seq![(k, v)]).drop_last() =~= Seq::<(String, JsonVal)>::empty());
        assert(jpairs_view(Seq::<(String, JsonVal)>::empty())
            =~= Seq::<(Seq<char>, SpecJson)>::empty());
        assert((seq![(k, v)]).last() == (k, v));
        assert(jpairs_view(seq![(k, v)] + rest) =~= seq![(k@, jview(v))] + jpairs_view(rest));
    } else {
        assert((seq![(k, v)] + rest).drop_last() =~= seq![(k, v)] + rest.drop_last());
        assert((seq![(k, v)] + rest).last() == rest.last());
        lemma_jpairs_view_cons(k, v, rest.drop_last());
        assert(jpairs_view(seq![(k, v)] + rest) == jpairs_view(seq![(k, v)] + rest.drop_last())
            .push((rest.last().0@, jview(rest.last().1))));
        assert(jpairs_view(rest) == jpairs_view(rest.drop_last()).push(
            (rest.last().0@, jview(rest.last().1))));
        assert(seq![(k@, jview(v))] + jpairs_view(rest) =~= (seq![(k@, jview(v))] + jpairs_view(
            rest.drop_last())).push((rest.last().0@, jview(rest.last().1))));
        assert(jpairs_view(seq![(k, v)] + rest) =~= seq![(k@, jview(v))] + jpairs_view(rest));
    }
}

fn unescape_char(c: char) -> (r: Option<char>)
    ensures
        r == spec_unescape(c),
{
    if c == '"' {
        Some('"')
    } else if c == '\\' {
        Some('\\')
    } else if c == '/' {
        Some('/')
    } else if c == 'n' {
        Some('\n')
    } else if c == 'r' {
        Some('\r')
    } else if c == 't' {
        Some('\t')
    } else if c == 'b' {
        Some('\u{8}')
    } else if c == 'f' {
        Some('\u{c}')
    } else {
        None
    }
}

fn skip_ws(s: &str, i: usize) -> (j: usize)
    requires
        i as int <= s@.len(),
    ensures
        j as int == spec_ws(s@, i as int),
        i <= j,
        j as int <= s@.len(),
    decreases s@.len() - i,
{
    if i < s.unicode_len() {
        let c = s.get_char(i);
        if c == ' ' || c == '\n' || c == '\t' || c == '\r' {
            return skip_ws(s, i + 1);
        }
    }
    i
}

fn parse_string(s: &str, i: usize) -> (r: Option<(String, usize)>)
    ensures
        match r {
            Some(p) => spec_parse_string(s@, i as int) == Some((p.0@, p.1 as int))
                && i < p.1 <= s@.len(),
            None => spec_parse_string(s@, i as int) is None,
        },
    decreases s@.len() - i, 0int,
{
    let len = s.unicode_len();
    if i >= len {
        return None;
    }
    let c = s.get_char(i);
    if c == '"' {
        Some((String::new(), i + 1))
    } else if c == '\\' {
        if i + 1 < len {
            let e = s.get_char(i + 1);
            match unescape_char(e) {
                Some(u) => match parse_string(s, i + 2) {
                    Some(p) => {
                        let (t, j) = p;
                        let mut out = String::new();
                        push_char(&mut out, u);
                        out.append(t.as_str());
                        proof {
                            assert(out@ =~= seq![u] + t@);
                        }
                        Some((out, j))
                    },
                    None => None,
                },
                None => None,
            }
        } else {
            None
        }
    } else if (c as u32) < 0x20 {
        None
    } else {
        match parse_string(s, i + 1) {
            Some(p) => {
                let (t, j) = p;
                let mut out = String::new();
                push_char(&mut out, c);
                out.append(t.as_str());
                proof {
                    assert(out@ =~= seq![s@[i as int]] + t@);
                }
                Some((out, j))
            },
            None => None,
        }
    }
}

fn parse_num(s: &str, i: usize, acc: u64) -> (r: Option<(u64, usize)>)
    requires
        i as int <= s@.len(),
    ensures
        match r {
            Some(p) => spec_parse_num(s@, i as int, acc) == Some((p.0, p.1 as int))
                && i <= p.1 <= s@.len(),
            None => spec_parse_num(s@, i as int, acc) is None,
        },
    decreases s@.len() - i, 0int,
{
    let len = s.unicode_len();
    if i < len {
        let c = s.get_char(i);
        let u = c as u32;
        if 0x30 <= u && u <= 0x39 {
            let d = (u - 0x30) as u64;
            if acc > (0xffff_ffff_ffff_ffffu64 - d) / 10 {
                return None;
            }
            return parse_num(s, i + 1, acc * 10 + d);
        }
    }
    Some((acc, i))
}

/// One value, mirroring `spec_parse_value`.
fn parse_value(s: &str, i: usize) -> (r: Option<(JsonVal, usize)>)
    requires
        i as int <= s@.len(),
    ensures
        match r {
            Some(p) => spec_parse_value(s@, i as int) == Some((p.0@, p.1 as int))
                && i <= p.1 <= s@.len(),
            None => spec_parse_value(s@, i as int) is None,
        },
    decreases s@.len() - i, 1int,
{
    let len = s.unicode_len();
    let i1 = skip_ws(s, i);
    if i1 >= len {
        return None;
    }
    let c = s.get_char(i1);
    if c == 'n' {
        if len - i1 >= 4 && s.get_char(i1 + 1) == 'u' && s.get_char(i1 + 2) == 'l'
            && s.get_char(i1 + 3) == 'l' {
            Some((JsonVal::Null, i1 + 4))
        } else {
            None
        }
    } else if c == 't' {
        if len - i1 >= 4 && s.get_char(i1 + 1) == 'r' && s.get_char(i1 + 2) == 'u'
            && s.get_char(i1 + 3) == 'e' {
            Some((JsonVal::Bool(true), i1 + 4))
        } else {
            None
        }
    } else if c == 'f' {
        if len - i1 >= 5 && s.get_char(i1 + 1) == 'a' && s.get_char(i1 + 2) == 'l'
            && s.get_char(i1 + 3) == 's' && s.get_char(i1 + 4) == 'e' {
            Some((JsonVal::Bool(false), i1 + 5))
        } else {
            None
        }
    } else if c == '"' {
        match parse_string(s, i1 + 1) {
            Some(p) => Some((JsonVal::Str(p.0), p.1)),
            None => None,
        }
    } else if 0x30 <= (c as u32) && (c as u32) <= 0x39 {
        match parse_num(s, i1, 0) {
            Some(p) => Some((JsonVal::Num(p.0), p.1)),
            None => None,
        }
    } else if c == '[' {
        let i2 = skip_ws(s, i1 + 1);
        if i2 >= len {
            None
        } else if s.get_char(i2) == ']' {
            let out: Vec<JsonVal> = Vec::new();
            let v = JsonVal::Arr(out);
            proof {
                assert(v@ == SpecJson::Arr(jvals_view(Seq::<JsonVal>::empty())));
            }
            Some((v, i2 + 1))
        } else {
            match parse_items(s, i2) {
                Some(p) => Some((JsonVal::Arr(p.0), p.1)),
                None => None,
            }
        }
    } else if c == '{' {
        let i2 = skip_ws(s, i1 + 1);
        if i2 >= len {
            None
        } else if s.get_char(i2) == '}' {
            let out: Vec<(String, JsonVal)> = Vec::new();
            let v = JsonVal::Obj(out);
            proof {
                assert(v@ == SpecJson::Obj(jpairs_view(Seq::<(String, JsonVal)>::empty())));
            }
            Some((v, i2 + 1))
        } else {
            match parse_members(s, i2) {
                Some(p) => Some((JsonVal::Obj(p.0), p.1)),
                None => None,
            }
        }
    } else {
        None
    }
}

/// Values of a non-empty array, mirroring `spec_parse_items`.
fn parse_items(s: &str, i: usize) -> (r: Option<(Vec<JsonVal>, usize)>)
    requires
        i as int <= s@.len(),
    ensures
        match r {
            Some(p) => spec_parse_items(s@, i as int) == Some((jvals_view(p.0@), p.1 as int))
                && i <= p.1 <= s@.len(),
            None => spec_parse_items(s@, i as int) is None,
        },
    decreases s@.len() - i, 2int,
{
    let len = s.unicode_len();
    match parse_value(s, i) {
        Some(p) => {
            let (v, j) = p;
            if j <= i {
                return None;
            }
            let i2 = skip_ws(s, j);
            if i2 >= len {
                None
            } else if s.get_char(i2) == ']' {
                let mut out: Vec<JsonVal> = Vec::new();
                out.push(v);
                proof {
                    assert(out@ =~= seq![v]);
                    assert(out@.drop_last() =~= Seq::<JsonVal>::empty());
                    assert(jvals_view(Seq::<JsonVal>::empty()) =~= Seq::<SpecJson>::empty());
                    assert(jvals_view(out@) =~= seq![jview(v)]);
                }
                Some((out, i2 + 1))
            } else if s.get_char(i2) == ',' {
                match parse_items(s, i2 + 1) {
                    Some(q) => {
                        let (mut rest, j2) = q;
                        let ghost rest0 = rest@;
                        let mut out: Vec<JsonVal> = Vec::new();
                        out.push(v);
                        out.append(&mut rest);
                        proof {
                            assert(out@ =~= seq![v] + rest0);
                            lemma_jvals_view_cons(v, rest0);
                        }
                        Some((out, j2))
                    },
                    None => None,
                }
            } else {
                None
            }
        },
        None => None,
    }
}

/// Members of a non-empty object, mirroring `spec_parse_members`.
fn parse_members(s: &str, i: usize) -> (r: Option<(Vec<(String, JsonVal)>, usize)>)
    requires
        i as int <= s@.len(),
    ensures
        match r {
            Some(p) => spec_parse_members(s@, i as int) == Some((jpairs_view(p.0@), p.1 as int))
                && i <= p.1 <= s@.len(),
            None => spec_parse_members(s@, i as int) is None,
        },
    decreases s@.len() - i, 2int,
{
    let len = s.unicode_len();
    if i >= len || s.get_char(i) != '"' {
        return None;
    }
    match parse_string(s, i + 1) {
        Some(kp) => {
            let (k, j) = kp;
            let i2 = skip_ws(s, j);
            if i2 >= len || s.get_char(i2) != ':' {
                None
            } else {
                match parse_value(s, i2 + 1) {
                    Some(vp) => {
                        let (v, j2) = vp;
                        if j2 <= i2 {
                            return None;
                        }
                        let i3 = skip_ws(s, j2);
                        if i3 >= len {
                            None
                        } else if s.get_char(i3) == '}' {
                            let mut out: Vec<(String, JsonVal)> = Vec::new();
                            let ghost kk = k@;
                            let ghost vv = v@;
                            out.push((k, v));
                            proof {
                                assert(out@.drop_last() =~= Seq::<(String, JsonVal)>::empty());
                                assert(jpairs_view(Seq::<(String, JsonVal)>::empty())
                                    =~= Seq::<(Seq<char>, SpecJson)>::empty());
                                assert(jpairs_view(out@) =~= seq![(kk, vv)]);
                            }
                            Some((out, i3 + 1))
                        } else if s.get_char(i3) == ',' {
                            match parse_members(s, i3 + 1) {
                                Some(q) => {
                                    let (mut rest, j3) = q;
                                    let ghost rest0 = rest@;
                                    let ghost kk = k@;
                                    let ghost vv = v@;
                                    let ghost kv = (k, v);
                                    let mut out: Vec<(String, JsonVal)> = Vec::new();
                                    out.push((k, v));
                                    out.append(&mut rest);
                                    proof {
                                        assert(out@ =~= seq![kv] + rest0);
                                        lemma_jpairs_view_cons(kv.0, kv.1, rest0);
                                    }
                                    Some((out, j3))
                                },
                                None => None,
                            }
                        } else {
                            None
                        }
                    },
                    None => None,
                }
            }
        },
        None => None,
    }
}

/// Parse a whole JSON document.  Returns the document exactly when
/// `spec_parse_text` accepts the input.
pub fn parse_json_text(s: &str) -> (r: Option<JsonVal>)
    ensures
        match r {
            Some(v) => spec_parse_text(s@) == Some(v@),
            None => spec_parse_text(s@) is None,
        },
{
    let len = s.unicode_len();
    match parse_value(s, 0) {
        Some(p) => {
            let (v, j) = p;
            if skip_ws(s, j) == len {
                Some(v)
            } else {
                None
            }
        },
        None => None,
    }
}

} // verus!
