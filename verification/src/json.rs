//! The library's own JSON value tree: raw agent payloads are parsed into it
//! (through serde_json, behind a trusted boundary), the rule engine probes it
//! with verified lookups, and responses are printed from it by a verified
//! serializer.

use vstd::prelude::*;

verus! {

use crate::text::chars_of;
use crate::text::string_of;
use crate::text::str_to_string;

/// A JSON value. Numbers keep the textual form they had in the source, so
/// that no floating point runs through the library.
#[derive(Debug)]
pub enum JsonValue {
    Null,
    Bool(bool),
    Num(String),
    Str(String),
    Arr(Vec<JsonValue>),
    Obj(Vec<(String, JsonValue)>),
}

/// The mathematical form of a JSON value: strings as character sequences.
#[verifier::ext_equal]
pub enum JsonV {
    Null,
    Bool(bool),
    Num(Seq<char>),
    Str(Seq<char>),
    Arr(Seq<JsonV>),
    Obj(Seq<(Seq<char>, JsonV)>),
}

/// The mathematical form of a JSON value.
pub open spec fn jv_of(v: JsonValue) -> JsonV
    decreases v,
{
    match v {
        JsonValue::Null => JsonV::Null,
        JsonValue::Bool(b) => JsonV::Bool(b),
        JsonValue::Num(s) => JsonV::Num(s@),
        JsonValue::Str(s) => JsonV::Str(s@),
        JsonValue::Arr(a) => JsonV::Arr(jvs_of(a@)),
        JsonValue::Obj(o) => JsonV::Obj(jents_of(o@)),
    }
}

/// The mathematical forms of a sequence of JSON values.
pub open spec fn jvs_of(a: Seq<JsonValue>) -> Seq<JsonV>
    decreases a,
{
    if a.len() == 0 {
        Seq::empty()
    } else {
        seq![jv_of(a[0])] + jvs_of(a.skip(1))
    }
}

/// The mathematical forms of a sequence of JSON object fields.
pub open spec fn jents_of(o: Seq<(String, JsonValue)>) -> Seq<(Seq<char>, JsonV)>
    decreases o,
{
    if o.len() == 0 {
        Seq::empty()
    } else {
        seq![(o[0].0@, jv_of(o[0].1))] + jents_of(o.skip(1))
    }
}

impl View for JsonValue {
    type V = JsonV;

    open spec fn view(&self) -> JsonV {
        jv_of(*self)
    }
}

/// The form of a sequence of values is the sequence of the elements' forms.
pub proof fn lemma_jvs_of(a: Seq<JsonValue>)
    ensures
        jvs_of(a).len() == a.len(),
        forall|i: int| 0 <= i < a.len() ==> jvs_of(a)[i] == jv_of(a[i]),
    decreases a.len(),
{
    if a.len() > 0 {
        lemma_jvs_of(a.skip(1));
        assert forall|i: int| 0 <= i < a.len() implies jvs_of(a)[i] == jv_of(a[i]) by {
            if i > 0 {
                assert(jvs_of(a)[i] == jvs_of(a.skip(1))[i - 1]);
                assert(a.skip(1)[i - 1] == a[i]);
            }
        }
    }
}

/// The form of a sequence of fields is the sequence of the fields' forms.
pub proof fn lemma_jents_of(o: Seq<(String, JsonValue)>)
    ensures
        jents_of(o).len() == o.len(),
        forall|i: int| 0 <= i < o.len() ==> jents_of(o)[i] == (o[i].0@, jv_of(o[i].1)),
    decreases o.len(),
{
    if o.len() > 0 {
        lemma_jents_of(o.skip(1));
        assert forall|i: int| 0 <= i < o.len() implies jents_of(o)[i] == (
            o[i].0@,
            jv_of(o[i].1),
        ) by {
            if i > 0 {
                assert(jents_of(o)[i] == jents_of(o.skip(1))[i - 1]);
                assert(o.skip(1)[i - 1] == o[i]);
            }
        }
    }
}

/// The value under the first pair of `o` whose key is `key`, if any.
pub open spec fn obj_lookup(o: Seq<(Seq<char>, JsonV)>, key: Seq<char>) -> Option<JsonV>
    decreases o.len(),
{
    if o.len() == 0 {
        None
    } else if o[0].0 == key {
        Some(o[0].1)
    } else {
        obj_lookup(o.skip(1), key)
    }
}

/// The value under `key` when `v` is an object that has it; `None` otherwise.
pub open spec fn jv_get(v: JsonV, key: Seq<char>) -> Option<JsonV> {
    match v {
        JsonV::Obj(o) => obj_lookup(o, key),
        _ => None,
    }
}

/// The characters of the string under `key`, when `v` is an object and that
/// field holds a string; `None` otherwise.
pub open spec fn jv_get_str(v: JsonV, key: Seq<char>) -> Option<Seq<char>> {
    match jv_get(v, key) {
        Some(JsonV::Str(s)) => Some(s),
        _ => None,
    }
}

/// `o` with the value of the first pair whose key is `key` replaced by `val`;
/// `o` itself when no pair has that key.
pub open spec fn obj_set(
    o: Seq<(Seq<char>, JsonV)>,
    key: Seq<char>,
    val: JsonV,
) -> Seq<(Seq<char>, JsonV)>
    decreases o.len(),
{
    if o.len() == 0 {
        o
    } else if o[0].0 == key {
        seq![(key, val)] + o.skip(1)
    } else {
        seq![o[0]] + obj_set(o.skip(1), key, val)
    }
}

/// `v` with the field `key` overwritten, when `v` is an object.
pub open spec fn jv_set(v: JsonV, key: Seq<char>, val: JsonV) -> JsonV {
    match v {
        JsonV::Obj(o) => JsonV::Obj(obj_set(o, key, val)),
        _ => v,
    }
}

proof fn lemma_obj_lookup_skip(o: Seq<(Seq<char>, JsonV)>, key: Seq<char>, i: int)
    requires
        0 <= i <= o.len(),
        forall|j: int| 0 <= j < i ==> o[j].0 != key,
    ensures
        obj_lookup(o, key) == obj_lookup(o.skip(i), key),
    decreases i,
{
    if i == 0 {
        assert(o.skip(0) =~= o);
    } else {
        lemma_obj_lookup_skip(o.skip(1), key, i - 1);
        assert(o.skip(1).skip(i - 1) =~= o.skip(i));
    }
}

proof fn lemma_obj_set_at(o: Seq<(Seq<char>, JsonV)>, key: Seq<char>, val: JsonV, i: int)
    requires
        0 <= i < o.len(),
        o[i].0 == key,
        forall|j: int| 0 <= j < i ==> o[j].0 != key,
    ensures
        obj_set(o, key, val) =~= o.update(i, (key, val)),
    decreases i,
{
    if i == 0 {
        assert(seq![(key, val)] + o.skip(1) =~= o.update(0, (key, val)));
    } else {
        lemma_obj_set_at(o.skip(1), key, val, i - 1);
        assert(o.skip(1).update(i - 1, (key, val)) =~= o.update(i, (key, val)).skip(1));
        assert(seq![o[0]] + obj_set(o.skip(1), key, val) =~= o.update(i, (key, val)));
    }
}

proof fn lemma_obj_set_none(o: Seq<(Seq<char>, JsonV)>, key: Seq<char>, val: JsonV)
    requires
        forall|j: int| 0 <= j < o.len() ==> o[j].0 != key,
    ensures
        obj_set(o, key, val) =~= o,
    decreases o.len(),
{
    if o.len() > 0 {
        lemma_obj_set_none(o.skip(1), key, val);
        assert(seq![o[0]] + o.skip(1) =~= o);
    }
}

impl JsonValue {
    /// A reference to the value under `key`, when this is an object that has
    /// that field.
    pub fn get<'a>(&'a self, key: &str) -> (r: Option<&'a JsonValue>)
        ensures
            match r {
                Some(x) => jv_get(self@, key@) == Some(x@),
                None => jv_get(self@, key@) is None,
            },
    {
        match self {
            JsonValue::Obj(o) => {
                let ghost ov = jents_of(o@);
                proof {
                    lemma_jents_of(o@);
                }
                let mut i: usize = 0;
                while i < o.len()
                    invariant
                        i <= o.len(),
                        *self == JsonValue::Obj(*o),
                        ov == jents_of(o@),
                        ov.len() == o@.len(),
                        forall|j: int| 0 <= j < o@.len() ==> ov[j] == (
                            o@[j].0@,
                            jv_of(o@[j].1),
                        ),
                        forall|j: int| 0 <= j < i ==> ov[j].0 != key@,
                    decreases o.len() - i,
                {
                    if crate::text::str_eq(o[i].0.as_str(), key) {
                        proof {
                            lemma_obj_lookup_skip(ov, key@, i as int);
                            assert(ov.skip(i as int)[0] == ov[i as int]);
                            assert(obj_lookup(ov.skip(i as int), key@) == Some(ov[i as int].1));
                            assert(ov[i as int].1 == jv_of(o@[i as int].1));
                            assert(self@ == JsonV::Obj(jents_of(o@)));
                            assert(jv_get(self@, key@) == Some(jv_of(o@[i as int].1)));
                        }
                        return Some(&o[i].1);
                    }
                    i = i + 1;
                }
                proof {
                    lemma_obj_lookup_skip(ov, key@, i as int);
                    assert(ov.skip(i as int) =~= Seq::<(Seq<char>, JsonV)>::empty());
                }
                None
            },
            _ => None,
        }
    }

    /// The string under `key`, copied out, when this is an object whose field
    /// `key` holds a string.
    pub fn get_str(&self, key: &str) -> (r: Option<String>)
        ensures
            match r {
                Some(s) => jv_get_str(self@, key@) == Some(s@),
                None => jv_get_str(self@, key@) is None,
            },
    {
        match self.get(key) {
            Some(JsonValue::Str(s)) => Some(str_to_string(s.as_str())),
            Some(_) => None,
            None => None,
        }
    }

    /// A structurally equal copy of this value.
    pub fn deep_clone(&self) -> (r: JsonValue)
        ensures
            r@ == self@,
        decreases self,
    {
        match self {
            JsonValue::Null => JsonValue::Null,
            JsonValue::Bool(b) => JsonValue::Bool(*b),
            JsonValue::Num(s) => JsonValue::Num(str_to_string(s.as_str())),
            JsonValue::Str(s) => JsonValue::Str(str_to_string(s.as_str())),
            JsonValue::Arr(a) => {
                let mut out: Vec<JsonValue> = Vec::new();
                let mut i: usize = 0;
                while i < a.len()
                    invariant
                        i <= a.len(),
                        *self == JsonValue::Arr(*a),
                        out@.len() == i,
                        forall|j: int| 0 <= j < i ==> jv_of(out@[j]) == jv_of(a@[j]),
                    decreases a.len() - i,
                {
                    proof {
                        assert(self->Arr_0 == *a);
                        assert(decreases_to!(*self => self->Arr_0));
                        assert(decreases_to!(*a => a@));
                        assert(decreases_to!(a@ => a@[i as int]));
                        assert(decreases_to!(*self => a@[i as int]));
                    }
                    out.push(a[i].deep_clone());
                    i = i + 1;
                }
                proof {
                    lemma_jvs_of(out@);
                    lemma_jvs_of(a@);
                    assert(jvs_of(out@) =~= jvs_of(a@));
                }
                JsonValue::Arr(out)
            },
            JsonValue::Obj(o) => {
                let mut out: Vec<(String, JsonValue)> = Vec::new();
                let mut i: usize = 0;
                while i < o.len()
                    invariant
                        i <= o.len(),
                        *self == JsonValue::Obj(*o),
                        out@.len() == i,
                        forall|j: int| 0 <= j < i ==> out@[j].0@ == o@[j].0@ && jv_of(
                            out@[j].1,
                        ) == jv_of(o@[j].1),
                    decreases o.len() - i,
                {
                    proof {
                        assert(self->Obj_0 == *o);
                        assert(decreases_to!(*self => self->Obj_0));
                        assert(decreases_to!(*o => o@));
                        assert(decreases_to!(o@ => o@[i as int]));
                        assert(decreases_to!(o@[i as int] => o@[i as int].1));
                        assert(decreases_to!(*self => o@[i as int].1));
                    }
                    let k = str_to_string(o[i].0.as_str());
                    let x = o[i].1.deep_clone();
                    out.push((k, x));
                    i = i + 1;
                }
                proof {
                    lemma_jents_of(out@);
                    lemma_jents_of(o@);
                    assert(jents_of(out@) =~= jents_of(o@));
                }
                JsonValue::Obj(out)
            },
        }
    }

    /// A copy of this value in which the first field named `key` (when this
    /// is an object that has one) holds the string `val` instead.
    pub fn with_str_field(&self, key: &str, val: &str) -> (r: JsonValue)
        ensures
            r@ == jv_set(self@, key@, JsonV::Str(val@)),
    {
        match self {
            JsonValue::Obj(o) => {
                let ghost ov = jents_of(o@);
                proof {
                    lemma_jents_of(o@);
                }
                let mut out: Vec<(String, JsonValue)> = Vec::new();
                let mut replaced = false;
                let ghost mut gidx: int = 0;
                let mut i: usize = 0;
                while i < o.len()
                    invariant
                        i <= o.len(),
                        *self == JsonValue::Obj(*o),
                        ov == jents_of(o@),
                        ov.len() == o@.len(),
                        forall|j: int| 0 <= j < o@.len() ==> ov[j] == (
                            o@[j].0@,
                            jv_of(o@[j].1),
                        ),
                        out@.len() == i,
                        !replaced ==> forall|j: int| 0 <= j < i ==> ov[j].0 != key@,
                        !replaced ==> forall|j: int|
                            0 <= j < i ==> out@[j].0@ == ov[j].0 && jv_of(out@[j].1)
                                == ov[j].1,
                        replaced ==> 0 <= gidx < i && ov[gidx].0 == key@ && (forall|j: int|
                            0 <= j < gidx ==> ov[j].0 != key@),
                        replaced ==> out@[gidx].0@ == key@ && jv_of(out@[gidx].1)
                            == JsonV::Str(val@),
                        replaced ==> forall|j: int|
                            0 <= j < i && j != gidx ==> out@[j].0@ == ov[j].0 && jv_of(
                                out@[j].1,
                            ) == ov[j].1,
                    decreases o.len() - i,
                {
                    if !replaced && crate::text::str_eq(o[i].0.as_str(), key) {
                        out.push((str_to_string(key), JsonValue::Str(str_to_string(val))));
                        replaced = true;
                        proof {
                            gidx = i as int;
                        }
                    } else {
                        let k = str_to_string(o[i].0.as_str());
                        let x = o[i].1.deep_clone();
                        out.push((k, x));
                    }
                    i = i + 1;
                }
                proof {
                    lemma_jents_of(out@);
                    if replaced {
                        lemma_obj_set_at(ov, key@, JsonV::Str(val@), gidx);
                        assert(jents_of(out@) =~= obj_set(ov, key@, JsonV::Str(val@)));
                    } else {
                        lemma_obj_set_none(ov, key@, JsonV::Str(val@));
                        assert(jents_of(out@) =~= obj_set(ov, key@, JsonV::Str(val@)));
                    }
                }
                JsonValue::Obj(out)
            },
            _ => {
                let r = self.deep_clone();
                r
            },
        }
    }
}

/// What serde_json::from_str, followed by the variant-for-variant translation
/// into the library's value form, yields on the given text; `None` exactly on
/// text that serde_json rejects.
pub uninterp spec fn parsed_json(s: Seq<char>) -> Option<JsonV>;

#[verifier::external_type_specification]
#[verifier::external_body]
pub struct ExSerdeValue(serde_json::Value);

/// Relies on serde_json::Value's public variants: each arm moves one variant
/// of the parsed tree into the library's own value form; a number keeps the
/// textual form that serde_json prints for it.
#[verifier::external_body]
fn value_tree(v: &serde_json::Value) -> JsonValue {
    match v {
        serde_json::Value::Null => JsonValue::Null,
        serde_json::Value::Bool(b) => JsonValue::Bool(*b),
        serde_json::Value::Number(n) => JsonValue::Num(n.to_string()),
        serde_json::Value::String(s) => JsonValue::Str(s.clone()),
        serde_json::Value::Array(a) => JsonValue::Arr(a.iter().map(value_tree).collect()),
        serde_json::Value::Object(m) => JsonValue::Obj(
            m.iter().map(|(k, x)| (k.clone(), value_tree(x))).collect(),
        ),
    }
}

/// Relies on serde_json::from_str::<serde_json::Value>: parses JSON text,
/// deterministically, into a value tree; fails exactly on malformed JSON.
#[verifier::external_body]
pub fn parse_json(s: &str) -> (r: Option<JsonValue>)
    ensures
        match r {
            Some(v) => parsed_json(s@) == Some(v@),
            None => parsed_json(s@) is None,
        },
{
    match serde_json::from_str::<serde_json::Value>(s) {
        Ok(v) => Some(value_tree(&v)),
        Err(_) => None,
    }
}

/// The hexadecimal digit for `n`.
pub open spec fn spec_hex_digit(n: int) -> char {
    if n == 0 { '0' } else if n == 1 { '1' } else if n == 2 { '2' } else if n == 3 { '3' }
    else if n == 4 { '4' } else if n == 5 { '5' } else if n == 6 { '6' } else if n == 7 { '7' }
    else if n == 8 { '8' } else if n == 9 { '9' } else if n == 10 { 'a' } else if n == 11 { 'b' }
    else if n == 12 { 'c' } else if n == 13 { 'd' } else if n == 14 { 'e' } else { 'f' }
}

fn hex_digit(n: u32) -> (r: char)
    requires
        n < 16,
    ensures
        r == spec_hex_digit(n as int),
{
    if n == 0 { '0' } else if n == 1 { '1' } else if n == 2 { '2' } else if n == 3 { '3' }
    else if n == 4 { '4' } else if n == 5 { '5' } else if n == 6 { '6' } else if n == 7 { '7' }
    else if n == 8 { '8' } else if n == 9 { '9' } else if n == 10 { 'a' } else if n == 11 { 'b' }
    else if n == 12 { 'c' } else if n == 13 { 'd' } else if n == 14 { 'e' } else { 'f' }
}

/// How one character is written inside a JSON string literal.
pub open spec fn esc_char(c: char) -> Seq<char> {
    if c == '"' {
        seq!['\\', '"']
    } else if c == '\\' {
        seq!['\\', '\\']
    } else if c == '\n' {
        seq!['\\', 'n']
    } else if c == '\r' {
        seq!['\\', 'r']
    } else if c == '\t' {
        seq!['\\', 't']
    } else if (c as u32) < 32 {
        seq!['\\', 'u', '0', '0', spec_hex_digit(c as u32 as int / 16), spec_hex_digit(
            c as u32 as int % 16,
        )]
    } else {
        seq![c]
    }
}

/// How a whole string is written inside a JSON string literal.
pub open spec fn esc_str(s: Seq<char>) -> Seq<char>
    decreases s.len(),
{
    if s.len() == 0 {
        Seq::empty()
    } else {
        esc_char(s[0]) + esc_str(s.skip(1))
    }
}

proof fn lemma_esc_str_snoc(t: Seq<char>, c: char)
    ensures
        esc_str(t.push(c)) == esc_str(t) + esc_char(c),
    decreases t.len(),
{
    assert(esc_str(Seq::<char>::empty()) == Seq::<char>::empty());
    if t.len() == 0 {
        assert(t.push(c)[0] == c);
        assert(t.push(c).skip(1) =~= Seq::<char>::empty());
        assert(esc_str(t.push(c)) == esc_char(c) + esc_str(Seq::<char>::empty()));
        assert(esc_char(c) + Seq::<char>::empty() =~= esc_char(c));
        assert(esc_str(t) + esc_char(c) =~= esc_char(c));
    } else {
        lemma_esc_str_snoc(t.skip(1), c);
        assert(t.push(c).skip(1) =~= t.skip(1).push(c));
        assert(t.push(c)[0] == t[0]);
        assert(esc_str(t.push(c)) == esc_char(t[0]) + esc_str(t.skip(1).push(c)));
        assert(esc_str(t) + esc_char(c) =~= esc_char(t[0]) + (esc_str(t.skip(1))
            + esc_char(c)));
    }
}

fn write_escaped(s: &str, out: &mut Vec<char>)
    ensures
        final(out)@ == old(out)@ + esc_str(s@),
{
    let v = chars_of(s);
    let mut i: usize = 0;
    assert(esc_str(s@.take(0)) == Seq::<char>::empty());
    assert(out@ =~= old(out)@ + esc_str(s@.take(0)));
    while i < v.len()
        invariant
            i <= v.len(),
            v@ == s@,
            out@ == old(out)@ + esc_str(s@.take(i as int)),
        decreases v.len() - i,
    {
        let c = v[i];
        let n = c as u32;
        if c == '"' {
            out.push('\\');
            out.push('"');
        } else if c == '\\' {
            out.push('\\');
            out.push('\\');
        } else if c == '\n' {
            out.push('\\');
            out.push('n');
        } else if c == '\r' {
            out.push('\\');
            out.push('r');
        } else if c == '\t' {
            out.push('\\');
            out.push('t');
        } else if n < 32 {
            out.push('\\');
            out.push('u');
            out.push('0');
            out.push('0');
            out.push(hex_digit(n / 16));
            out.push(hex_digit(n % 16));
        } else {
            out.push(c);
        }
        proof {
            lemma_esc_str_snoc(s@.take(i as int), s@[i as int]);
            assert(s@.take(i as int).push(s@[i as int]) =~= s@.take(i + 1));
            assert(out@ =~= old(out)@ + esc_str(s@.take(i + 1)));
        }
        i = i + 1;
    }
    assert(s@.take(v@.len() as int) =~= s@);
}

/// The canonical text of a JSON value, as this library prints it: fields in
/// stored order, strings escaped, numbers written as held.
pub open spec fn json_text(v: JsonV) -> Seq<char>
    decreases v,
{
    match v {
        JsonV::Null => "null"@,
        JsonV::Bool(b) => if b { "true"@ } else { "false"@ },
        JsonV::Num(s) => s,
        JsonV::Str(s) => seq!['"'] + esc_str(s) + seq!['"'],
        JsonV::Arr(a) => seq!['['] + json_list_text(a) + seq![']'],
        JsonV::Obj(o) => seq!['{'] + json_obj_text(o) + seq!['}'],
    }
}

/// The comma-separated texts of the values of `a`.
pub open spec fn json_list_text(a: Seq<JsonV>) -> Seq<char>
    decreases a,
{
    if a.len() == 0 {
        Seq::empty()
    } else if a.len() == 1 {
        json_text(a[0])
    } else {
        json_text(a[0]) + seq![','] + json_list_text(a.skip(1))
    }
}

/// The comma-separated `"key":value` texts of the fields of `o`.
pub open spec fn json_obj_text(o: Seq<(Seq<char>, JsonV)>) -> Seq<char>
    decreases o,
{
    if o.len() == 0 {
        Seq::empty()
    } else if o.len() == 1 {
        json_entry_text(o[0])
    } else {
        json_entry_text(o[0]) + seq![','] + json_obj_text(o.skip(1))
    }
}

/// The `"key":value` text of one object field.
pub open spec fn json_entry_text(e: (Seq<char>, JsonV)) -> Seq<char>
    decreases e,
{
    seq!['"'] + esc_str(e.0) + seq!['"', ':'] + json_text(e.1)
}

fn write_json(v: &JsonValue, out: &mut Vec<char>)
    ensures
        final(out)@ == old(out)@ + json_text(v@),
    decreases v, 0int,
{
    match v {
        JsonValue::Null => {
            let t = chars_of("null");
            crate::text::push_all(out, &t);
        },
        JsonValue::Bool(b) => {
            let t = if *b {
                chars_of("true")
            } else {
                chars_of("false")
            };
            crate::text::push_all(out, &t);
        },
        JsonValue::Num(s) => {
            let t = chars_of(s.as_str());
            crate::text::push_all(out, &t);
        },
        JsonValue::Str(s) => {
            out.push('"');
            write_escaped(s.as_str(), out);
            out.push('"');
            assert(out@ =~= old(out)@ + (seq!['"'] + esc_str(s@) + seq!['"']));
        },
        JsonValue::Arr(a) => {
            out.push('[');
            write_list(a, 0, out);
            out.push(']');
            proof {
                assert(jvs_of(a@).skip(0) =~= jvs_of(a@));
                assert(out@ =~= old(out)@ + (seq!['['] + json_list_text(jvs_of(a@))
                    + seq![']']));
            }
        },
        JsonValue::Obj(o) => {
            out.push('{');
            write_obj(o, 0, out);
            out.push('}');
            proof {
                assert(jents_of(o@).skip(0) =~= jents_of(o@));
                assert(out@ =~= old(out)@ + (seq!['{'] + json_obj_text(jents_of(o@))
                    + seq!['}']));
            }
        },
    }
}

fn write_list(a: &Vec<JsonValue>, i: usize, out: &mut Vec<char>)
    requires
        i <= a.len(),
    ensures
        final(out)@ == old(out)@ + json_list_text(jvs_of(a@).skip(i as int)),
    decreases a, a.len() - i,
{
    let ghost views = jvs_of(a@);
    proof {
        lemma_jvs_of(a@);
    }
    if i == a.len() {
        assert(views.skip(i as int) =~= Seq::<JsonV>::empty());
        assert(out@ =~= old(out)@ + json_list_text(views.skip(i as int)));
    } else {
        write_json(&a[i], out);
        proof {
            assert(views.skip(i as int)[0] == jv_of(a@[i as int]));
        }
        if i + 1 == a.len() {
            assert(views.skip(i as int).len() == 1);
            assert(out@ =~= old(out)@ + json_list_text(views.skip(i as int)));
        } else {
            out.push(',');
            write_list(a, i + 1, out);
            proof {
                assert(views.skip(i as int).skip(1) =~= views.skip(i + 1));
                assert(views.skip(i as int).len() > 1);
                assert(out@ =~= old(out)@ + json_list_text(views.skip(i as int)));
            }
        }
    }
}

fn write_obj(o: &Vec<(String, JsonValue)>, i: usize, out: &mut Vec<char>)
    requires
        i <= o.len(),
    ensures
        final(out)@ == old(out)@ + json_obj_text(jents_of(o@).skip(i as int)),
    decreases o, o.len() - i,
{
    let ghost views = jents_of(o@);
    proof {
        lemma_jents_of(o@);
    }
    if i == o.len() {
        assert(views.skip(i as int) =~= Seq::<(Seq<char>, JsonV)>::empty());
        assert(out@ =~= old(out)@ + json_obj_text(views.skip(i as int)));
    } else {
        out.push('"');
        write_escaped(o[i].0.as_str(), out);
        out.push('"');
        out.push(':');
        write_json(&o[i].1, out);
        proof {
            assert(views.skip(i as int)[0] == (o@[i as int].0@, jv_of(o@[i as int].1)));
            assert(out@ =~= old(out)@ + json_entry_text(views.skip(i as int)[0]));
        }
        if i + 1 == o.len() {
            assert(views.skip(i as int).len() == 1);
            assert(out@ =~= old(out)@ + json_obj_text(views.skip(i as int)));
        } else {
            out.push(',');
            write_obj(o, i + 1, out);
            proof {
                assert(views.skip(i as int).skip(1) =~= views.skip(i + 1));
                assert(views.skip(i as int).len() > 1);
                assert(out@ =~= old(out)@ + json_obj_text(views.skip(i as int)));
            }
        }
    }
}

/// Prints a JSON value as text.
pub fn to_json_string(v: &JsonValue) -> (r: String)
    ensures
        r@ == json_text(v@),
{
    let mut out: Vec<char> = Vec::new();
    write_json(v, &mut out);
    assert(out@ =~= json_text(v@));
    string_of(&out)
}

} // verus!
