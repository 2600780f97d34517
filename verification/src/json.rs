use vstd::prelude::*;
use vstd::string::StrSliceExecFns;
use crate::text::str_eq;
use crate::text::push_char;
use crate::text::dec_int_str;
use crate::text::i64_to_string;

verus! {

/// The mathematical shape of a JSON document: the model that the contracts
/// of this crate speak of.
pub enum Json {
    Null,
    Bool(bool),
    Int(int),
    Str(Seq<char>),
    Arr(Seq<Json>),
    Obj(Seq<(Seq<char>, Json)>),
}

/// A JSON document as executable data. An object is an ordered list of
/// name/value pairs, in the order the fields were written. Numbers are
/// integers: every number this library writes into a request body (a token
/// count, an image count) is one.
#[derive(Debug)]
pub enum JsonValue {
    Null,
    Bool(bool),
    Int(i64),
    Str(String),
    Arr(Vec<JsonValue>),
    Obj(Vec<(String, JsonValue)>),
}

/// The model of a JSON value.
pub open spec fn json_view(v: JsonValue) -> Json
    decreases v,
{
    match v {
        JsonValue::Null => Json::Null,
        JsonValue::Bool(b) => Json::Bool(b),
        JsonValue::Int(i) => Json::Int(i as int),
        JsonValue::Str(s) => Json::Str(s@),
        JsonValue::Arr(es) => Json::Arr(vals_view(es@)),
        JsonValue::Obj(fs) => Json::Obj(fields_view(fs@)),
    }
}

/// The models of the elements of an array, in order.
pub open spec fn vals_view(es: Seq<JsonValue>) -> Seq<Json>
    decreases es,
{
    if es.len() == 0 {
        Seq::empty()
    } else {
        vals_view(es.drop_last()).push(json_view(es.last()))
    }
}

/// The models of the members of an object, in order.
pub open spec fn fields_view(fs: Seq<(String, JsonValue)>) -> Seq<(Seq<char>, Json)>
    decreases fs,
{
    if fs.len() == 0 {
        Seq::empty()
    } else {
        fields_view(fs.drop_last()).push((fs.last().0@, json_view(fs.last().1)))
    }
}

impl View for JsonValue {
    type V = Json;

    open spec fn view(&self) -> Json {
        json_view(*self)
    }
}

/// The document with every null-valued object member removed, at every
/// nesting depth. Array elements are kept, null or not: only object members
/// stand for optional request fields.
pub open spec fn trim_spec(j: Json) -> Json
    decreases j,
{
    match j {
        Json::Arr(es) => Json::Arr(trim_vals(es)),
        Json::Obj(fs) => Json::Obj(trim_fields(fs)),
        _ => j,
    }
}

/// Array elements, each trimmed.
pub open spec fn trim_vals(es: Seq<Json>) -> Seq<Json>
    decreases es,
{
    if es.len() == 0 {
        Seq::empty()
    } else {
        trim_vals(es.drop_last()).push(trim_spec(es.last()))
    }
}

/// Object members with the null-valued ones dropped and the rest trimmed.
pub open spec fn trim_fields(fs: Seq<(Seq<char>, Json)>) -> Seq<(Seq<char>, Json)>
    decreases fs,
{
    if fs.len() == 0 {
        Seq::empty()
    } else if fs.last().1 is Null {
        trim_fields(fs.drop_last())
    } else {
        trim_fields(fs.drop_last()).push((fs.last().0, trim_spec(fs.last().1)))
    }
}

/// The value of the first member named `name`, if the object has one.
pub open spec fn lookup_field(fs: Seq<(Seq<char>, Json)>, name: Seq<char>) -> Option<Json>
    decreases fs,
{
    if fs.len() == 0 {
        None
    } else if fs[0].0 == name {
        Some(fs[0].1)
    } else {
        lookup_field(fs.drop_first(), name)
    }
}

/// The value of the member named `name`: None where the document is not an
/// object or has no such member.
pub open spec fn obj_get(j: Json, name: Seq<char>) -> Option<Json> {
    match j {
        Json::Obj(fs) => lookup_field(fs, name),
        _ => None,
    }
}

/// Looking a name up in two member lists laid end to end finds what the
/// first list has, and otherwise what the second has.
pub proof fn lemma_lookup_concat(a: Seq<(Seq<char>, Json)>, b: Seq<(Seq<char>, Json)>, k: Seq<char>)
    ensures
        lookup_field(a + b, k) == match lookup_field(a, k) {
            Option::Some(x) => Some(x),
            Option::None => lookup_field(b, k),
        },
    decreases a,
{
    if a.len() == 0 {
        assert(a + b =~= b);
    } else {
        assert((a + b)[0] == a[0]);
        assert((a + b).drop_first() =~= a.drop_first() + b);
        lemma_lookup_concat(a.drop_first(), b, k);
    }
}

/// Looking a name up in the member an optional field writes finds the
/// field's string under the field's own name and nothing under any other.
pub proof fn lemma_lookup_opt_member(name: Seq<char>, o: Option<Seq<char>>, k: Seq<char>)
    ensures
        lookup_field(opt_str_member(name, o), k) == (if k == name {
            match o {
                Option::Some(s) => Some(Json::Str(s)),
                Option::None => None,
            }
        } else {
            Option::<Json>::None
        }),
{
    match o {
        Option::Some(s) => {
            assert(opt_str_member(name, o) =~= seq![(name, Json::Str(s))]);
            assert(opt_str_member(name, o).drop_first() =~= Seq::<(Seq<char>, Json)>::empty());
            assert(lookup_field(opt_str_member(name, o).drop_first(), k) is None);
        },
        Option::None => {
            assert(opt_str_member(name, o) =~= Seq::<(Seq<char>, Json)>::empty());
        },
    }
}

/// Holds when no object member anywhere in the document is null.
pub open spec fn null_free(j: Json) -> bool
    decreases j,
{
    match j {
        Json::Arr(es) => null_free_vals(es),
        Json::Obj(fs) => null_free_fields(fs),
        _ => true,
    }
}

pub open spec fn null_free_vals(es: Seq<Json>) -> bool
    decreases es,
{
    if es.len() == 0 {
        true
    } else {
        null_free_vals(es.drop_last()) && null_free(es.last())
    }
}

pub open spec fn null_free_fields(fs: Seq<(Seq<char>, Json)>) -> bool
    decreases fs,
{
    if fs.len() == 0 {
        true
    } else {
        null_free_fields(fs.drop_last()) && !(fs.last().1 is Null) && null_free(fs.last().1)
    }
}

/// Trimming leaves no null-valued object member behind, at any depth.
pub proof fn lemma_trim_null_free(j: Json)
    ensures
        null_free(trim_spec(j)),
    decreases j,
{
    match j {
        Json::Arr(es) => lemma_trim_vals_null_free(es),
        Json::Obj(fs) => lemma_trim_fields_null_free(fs),
        _ => {},
    }
}

proof fn lemma_trim_vals_null_free(es: Seq<Json>)
    ensures
        null_free_vals(trim_vals(es)),
    decreases es,
{
    if es.len() > 0 {
        lemma_trim_vals_null_free(es.drop_last());
        lemma_trim_null_free(es.last());
        assert(trim_vals(es.drop_last()).push(trim_spec(es.last())).drop_last() =~= trim_vals(
            es.drop_last(),
        ));
    }
}

proof fn lemma_trim_fields_null_free(fs: Seq<(Seq<char>, Json)>)
    ensures
        null_free_fields(trim_fields(fs)),
    decreases fs,
{
    if fs.len() > 0 {
        lemma_trim_fields_null_free(fs.drop_last());
        if !(fs.last().1 is Null) {
            lemma_trim_null_free(fs.last().1);
            assert(trim_fields(fs.drop_last()).push(
                (fs.last().0, trim_spec(fs.last().1)),
            ).drop_last() =~= trim_fields(fs.drop_last()));
        }
    }
}

/// On a document that already has no null-valued member, trimming changes
/// nothing.
pub proof fn lemma_trim_identity_on_null_free(j: Json)
    requires
        null_free(j),
    ensures
        trim_spec(j) == j,
    decreases j,
{
    match j {
        Json::Arr(es) => {
            lemma_trim_vals_identity(es);
        },
        Json::Obj(fs) => {
            lemma_trim_fields_identity(fs);
        },
        _ => {},
    }
}

proof fn lemma_trim_vals_identity(es: Seq<Json>)
    requires
        null_free_vals(es),
    ensures
        trim_vals(es) == es,
    decreases es,
{
    if es.len() == 0 {
        assert(trim_vals(es) =~= es);
    } else {
        lemma_trim_vals_identity(es.drop_last());
        lemma_trim_identity_on_null_free(es.last());
        assert(trim_vals(es) =~= es);
    }
}

proof fn lemma_trim_fields_identity(fs: Seq<(Seq<char>, Json)>)
    requires
        null_free_fields(fs),
    ensures
        trim_fields(fs) == fs,
    decreases fs,
{
    if fs.len() == 0 {
        assert(trim_fields(fs) =~= fs);
    } else {
        lemma_trim_fields_identity(fs.drop_last());
        lemma_trim_identity_on_null_free(fs.last().1);
        assert(trim_fields(fs) =~= fs);
    }
}

/// A sequence of strings has no null anywhere.
pub proof fn lemma_null_free_vals_strs(es: Seq<Json>)
    requires
        forall|i: int| 0 <= i < es.len() ==> (#[trigger] es[i]) is Str,
    ensures
        null_free_vals(es),
    decreases es,
{
    if es.len() > 0 {
        assert forall|i: int| 0 <= i < es.drop_last().len() implies (#[trigger] es.drop_last()[
        i]) is Str by {
            assert(es.drop_last()[i] == es[i]);
        }
        lemma_null_free_vals_strs(es.drop_last());
        assert(es[es.len() - 1] is Str);
        assert(null_free(es.last()));
    }
}

/// An object none of whose member values is null, or holds a null deeper
/// down, has no null anywhere.
pub proof fn lemma_null_free_fields_of_members(fs: Seq<(Seq<char>, Json)>)
    requires
        forall|i: int|
            0 <= i < fs.len() ==> !((#[trigger] fs[i]).1 is Null) && null_free(fs[i].1),
    ensures
        null_free_fields(fs),
    decreases fs,
{
    if fs.len() > 0 {
        assert forall|i: int|
            0 <= i < fs.drop_last().len() implies !((#[trigger] fs.drop_last()[i]).1 is Null)
            && null_free(fs.drop_last()[i].1) by {
            assert(fs.drop_last()[i] == fs[i]);
        }
        lemma_null_free_fields_of_members(fs.drop_last());
        assert(fs[fs.len() - 1] == fs.last());
    }
}

/// An object all of whose member values are strings has no null anywhere.
pub proof fn lemma_null_free_fields_strs(fs: Seq<(Seq<char>, Json)>)
    requires
        forall|i: int| 0 <= i < fs.len() ==> (#[trigger] fs[i]).1 is Str,
    ensures
        null_free_fields(fs),
{
    assert forall|i: int|
        0 <= i < fs.len() implies !((#[trigger] fs[i]).1 is Null) && null_free(fs[i].1) by {
        assert(null_free(fs[i].1));
    }
    lemma_null_free_fields_of_members(fs);
}

/// Trimming twice is the same as trimming once.
pub proof fn lemma_trim_idempotent(j: Json)
    ensures
        trim_spec(trim_spec(j)) == trim_spec(j),
{
    lemma_trim_null_free(j);
    lemma_trim_identity_on_null_free(trim_spec(j));
}

impl Clone for JsonValue {
    /// A copy with the same model.
    fn clone(&self) -> (r: Self)
        ensures
            r@ == self@,
        decreases *self,
    {
        match self {
            JsonValue::Null => JsonValue::Null,
            JsonValue::Bool(b) => JsonValue::Bool(*b),
            JsonValue::Int(i) => JsonValue::Int(*i),
            JsonValue::Str(s) => JsonValue::Str(s.clone()),
            JsonValue::Arr(es) => {
                let mut out: Vec<JsonValue> = Vec::new();
                let mut i: usize = 0;
                while i < es.len()
                    invariant
                        i <= es.len(),
                        *self == JsonValue::Arr(*es),
                        vals_view(out@) == vals_view(es@.take(i as int)),
                    decreases es.len() - i,
                {
                    proof {
                        assert(decreases_to!(*self => self->Arr_0));
                        assert(decreases_to!(self->Arr_0 => es@));
                        assert(decreases_to!(es@ => es@[i as int]));
                    }
                    let t = es[i].clone();
                    proof {
                        assert(es@.take(i + 1 as int).drop_last() =~= es@.take(i as int));
                        assert(es@.take(i + 1 as int).last() == es@[i as int]);
                        lemma_vals_view_push(out@, t);
                    }
                    out.push(t);
                    i = i + 1;
                }
                proof {
                    assert(es@.take(es@.len() as int) =~= es@);
                }
                JsonValue::Arr(out)
            },
            JsonValue::Obj(fs) => {
                let mut out: Vec<(String, JsonValue)> = Vec::new();
                let mut i: usize = 0;
                while i < fs.len()
                    invariant
                        i <= fs.len(),
                        *self == JsonValue::Obj(*fs),
                        fields_view(out@) == fields_view(fs@.take(i as int)),
                    decreases fs.len() - i,
                {
                    proof {
                        assert(decreases_to!(*self => self->Obj_0));
                        assert(decreases_to!(self->Obj_0 => fs@));
                        assert(decreases_to!(fs@ => fs@[i as int]));
                        assert(decreases_to!(fs@[i as int] => fs@[i as int].1));
                    }
                    let name = fs[i].0.clone();
                    let t = fs[i].1.clone();
                    proof {
                        assert(fs@.take(i + 1 as int).drop_last() =~= fs@.take(i as int));
                        assert(fs@.take(i + 1 as int).last() == fs@[i as int]);
                        lemma_fields_view_push(out@, name, t);
                    }
                    out.push((name, t));
                    i = i + 1;
                }
                proof {
                    assert(fs@.take(fs@.len() as int) =~= fs@);
                }
                JsonValue::Obj(out)
            },
        }
    }
}

pub proof fn lemma_vals_view_push(es: Seq<JsonValue>, x: JsonValue)
    ensures
        vals_view(es.push(x)) == vals_view(es).push(json_view(x)),
{
    assert(es.push(x).drop_last() =~= es);
    assert(es.push(x).last() == x);
}

pub proof fn lemma_fields_view_push(fs: Seq<(String, JsonValue)>, k: String, v: JsonValue)
    ensures
        fields_view(fs.push((k, v))) == fields_view(fs).push((k@, json_view(v))),
{
    assert(fs.push((k, v)).drop_last() =~= fs);
    assert(fs.push((k, v)).last() == (k, v));
}

pub proof fn lemma_trim_vals_push(es: Seq<Json>, x: Json)
    ensures
        trim_vals(es.push(x)) == trim_vals(es).push(trim_spec(x)),
{
    assert(es.push(x).drop_last() =~= es);
    assert(es.push(x).last() == x);
}

pub proof fn lemma_trim_fields_push(fs: Seq<(Seq<char>, Json)>, k: Seq<char>, v: Json)
    ensures
        trim_fields(fs.push((k, v))) == if v is Null {
            trim_fields(fs)
        } else {
            trim_fields(fs).push((k, trim_spec(v)))
        },
{
    assert(fs.push((k, v)).drop_last() =~= fs);
    assert(fs.push((k, v)).last() == (k, v));
}

/// `fields_view` keeps length and order: member by member.
pub proof fn lemma_fields_view_index(fs: Seq<(String, JsonValue)>)
    ensures
        fields_view(fs).len() == fs.len(),
        forall|i: int|
            0 <= i < fs.len() ==> #[trigger] fields_view(fs)[i] == (fs[i].0@, json_view(fs[i].1)),
    decreases fs,
{
    if fs.len() > 0 {
        lemma_fields_view_index(fs.drop_last());
    }
}

/// `vals_view` keeps length and order: element by element.
pub proof fn lemma_vals_view_index(es: Seq<JsonValue>)
    ensures
        vals_view(es).len() == es.len(),
        forall|i: int| 0 <= i < es.len() ==> #[trigger] vals_view(es)[i] == json_view(es[i]),
    decreases es,
{
    if es.len() > 0 {
        lemma_vals_view_index(es.drop_last());
    }
}

impl JsonValue {
    /// The value of the member named `name`, where this document is an
    /// object that has one.
    pub fn get<'a>(&'a self, name: &str) -> (r: Option<&'a JsonValue>)
        ensures
            match r {
                Some(v) => obj_get(self@, name@) == Some(v@),
                None => obj_get(self@, name@) is None,
            },
    {
        match self {
            JsonValue::Obj(fs) => {
                proof {
                    lemma_fields_view_index(fs@);
                    assert(fields_view(fs@).skip(0) =~= fields_view(fs@));
                }
                let mut i: usize = 0;
                while i < fs.len()
                    invariant
                        i <= fs.len(),
                        *self == JsonValue::Obj(*fs),
                        fields_view(fs@).len() == fs@.len(),
                        forall|k: int|
                            0 <= k < fs@.len() ==> #[trigger] fields_view(fs@)[k] == (
                            fs@[k].0@,
                            json_view(fs@[k].1),
                            ),
                        lookup_field(fields_view(fs@), name@) == lookup_field(
                            fields_view(fs@).skip(i as int),
                            name@,
                        ),
                    decreases fs.len() - i,
                {
                    if str_eq(fs[i].0.as_str(), name) {
                        proof {
                            assert(fields_view(fs@).skip(i as int)[0] == fields_view(fs@)[
                            i as int]);
                        }
                        return Some(&fs[i].1);
                    }
                    proof {
                        assert(fields_view(fs@).skip(i as int)[0] == fields_view(fs@)[i as int]);
                        assert(fields_view(fs@).skip(i as int).drop_first() =~= fields_view(
                            fs@,
                        ).skip(i as int + 1));
                    }
                    i = i + 1;
                }
                proof {
                    assert(fields_view(fs@).skip(fs@.len() as int) =~= Seq::empty());
                }
                None
            },
            _ => None,
        }
    }

    /// A copy of the document with every null-valued object member removed,
    /// so that an optional request field left unset is omitted from the body
    /// rather than sent as null.
    pub fn trim(&self) -> (r: JsonValue)
        ensures
            r@ == trim_spec(self@),
        decreases *self,
    {
        match self {
            JsonValue::Null => JsonValue::Null,
            JsonValue::Bool(b) => JsonValue::Bool(*b),
            JsonValue::Int(i) => JsonValue::Int(*i),
            JsonValue::Str(s) => JsonValue::Str(s.clone()),
            JsonValue::Arr(es) => {
                let mut out: Vec<JsonValue> = Vec::new();
                let mut i: usize = 0;
                while i < es.len()
                    invariant
                        i <= es.len(),
                        vals_view(out@) == trim_vals(vals_view(es@.take(i as int))),
                        *self == JsonValue::Arr(*es),
                    decreases es.len() - i,
                {
                    proof {
                        assert(decreases_to!(*self => self->Arr_0));
                        assert(decreases_to!(self->Arr_0 => es@));
                        assert(decreases_to!(es@ => es@[i as int]));
                    }
                    let t = es[i].trim();
                    proof {
                        assert(es@.take(i + 1 as int).drop_last() =~= es@.take(i as int));
                        assert(es@.take(i + 1 as int).last() == es@[i as int]);
                        lemma_trim_vals_push(vals_view(es@.take(i as int)), json_view(es@[i as int]));
                        lemma_vals_view_push(out@, t);
                    }
                    out.push(t);
                    i = i + 1;
                }
                proof {
                    assert(es@.take(es@.len() as int) =~= es@);
                }
                JsonValue::Arr(out)
            },
            JsonValue::Obj(fs) => {
                let mut out: Vec<(String, JsonValue)> = Vec::new();
                let mut i: usize = 0;
                while i < fs.len()
                    invariant
                        i <= fs.len(),
                        fields_view(out@) == trim_fields(fields_view(fs@.take(i as int))),
                        *self == JsonValue::Obj(*fs),
                    decreases fs.len() - i,
                {
                    proof {
                        assert(fs@.take(i + 1 as int).drop_last() =~= fs@.take(i as int));
                        assert(fs@.take(i + 1 as int).last() == fs@[i as int]);
                        lemma_trim_fields_push(
                            fields_view(fs@.take(i as int)),
                            fs@[i as int].0@,
                            json_view(fs@[i as int].1),
                        );
                    }
                    match &fs[i].1 {
                        JsonValue::Null => {},
                        _ => {
                            let name = fs[i].0.clone();
                            proof {
                                assert(decreases_to!(*self => self->Obj_0));
                                assert(decreases_to!(self->Obj_0 => fs@));
                                assert(decreases_to!(fs@ => fs@[i as int]));
                                assert(decreases_to!(fs@[i as int] => fs@[i as int].1));
                            }
                            let t = fs[i].1.trim();
                            proof {
                                lemma_fields_view_push(out@, name, t);
                            }
                            out.push((name, t));
                        },
                    }
                    i = i + 1;
                }
                proof {
                    assert(fs@.take(fs@.len() as int) =~= fs@);
                }
                JsonValue::Obj(out)
            },
        }
    }
}

/// How an optional string field is read back from a member: an absent
/// member means the field is unset, a string member sets it, and anything
/// else is no reading at all.
pub open spec fn opt_str_of(m: Option<Json>) -> Option<Option<Seq<char>>> {
    match m {
        Option::None => Some(None),
        Option::Some(Json::Str(s)) => Some(Some(s)),
        Option::Some(_) => None,
    }
}

/// The member a request writes for an optional string field: one member
/// where the field is set, none where it is not.
pub open spec fn opt_str_member(name: Seq<char>, v: Option<Seq<char>>) -> Seq<(Seq<char>, Json)> {
    match v {
        Option::Some(s) => seq![(name, Json::Str(s))],
        Option::None => Seq::empty(),
    }
}

/// The character for one hexadecimal digit, lower case.
pub open spec fn hex_digit(d: int) -> char {
    if d < 10 {
        crate::text::dec_digit(d)
    } else if d == 10 {
        'a'
    } else if d == 11 {
        'b'
    } else if d == 12 {
        'c'
    } else if d == 13 {
        'd'
    } else if d == 14 {
        'e'
    } else {
        'f'
    }
}

/// How one character is written inside a JSON string literal.
pub open spec fn escape_char(c: char) -> Seq<char> {
    if c == '"' {
        seq!['\\', '"']
    } else if c == '\\' {
        seq!['\\', '\\']
    } else if c == '\n' {
        seq!['\\', 'n']
    } else if c == '\r' {
        seq!['\\', 'r']
    } else if c == '\t' {
        seq!['\\', 't']
    } else if (c as u32) < 32 {
        seq!['\\', 'u', '0', '0', hex_digit(c as u32 as int / 16), hex_digit(c as u32 as int % 16)]
    } else {
        seq![c]
    }
}

/// The body of a JSON string literal: each character escaped as JSON asks.
pub open spec fn str_text(s: Seq<char>) -> Seq<char>
    decreases s,
{
    if s.len() == 0 {
        Seq::empty()
    } else {
        str_text(s.drop_last()) + escape_char(s.last())
    }
}

/// The JSON text of a document.
pub open spec fn json_text(j: Json) -> Seq<char>
    decreases j,
{
    match j {
        Json::Null => seq!['n', 'u', 'l', 'l'],
        Json::Bool(b) => if b {
            seq!['t', 'r', 'u', 'e']
        } else {
            seq!['f', 'a', 'l', 's', 'e']
        },
        Json::Int(i) => dec_int_str(i),
        Json::Str(s) => seq!['"'] + str_text(s) + seq!['"'],
        Json::Arr(es) => seq!['['] + arr_text(es) + seq![']'],
        Json::Obj(fs) => seq!['{'] + obj_text(fs) + seq!['}'],
    }
}

/// The comma-separated texts of the elements of an array.
pub open spec fn arr_text(es: Seq<Json>) -> Seq<char>
    decreases es,
{
    if es.len() == 0 {
        Seq::empty()
    } else {
        arr_text(es.drop_last()) + (if es.len() == 1 {
            Seq::empty()
        } else {
            seq![',']
        }) + json_text(es.last())
    }
}

/// The comma-separated texts of the members of an object.
pub open spec fn obj_text(fs: Seq<(Seq<char>, Json)>) -> Seq<char>
    decreases fs,
{
    if fs.len() == 0 {
        Seq::empty()
    } else {
        obj_text(fs.drop_last()) + (if fs.len() == 1 {
            Seq::empty()
        } else {
            seq![',']
        }) + seq!['"'] + str_text(fs.last().0) + seq!['"', ':'] + json_text(fs.last().1)
    }
}

proof fn lemma_str_text_push(s: Seq<char>, c: char)
    ensures
        str_text(s.push(c)) == str_text(s) + escape_char(c),
{
    assert(s.push(c).drop_last() =~= s);
    assert(s.push(c).last() == c);
}

proof fn lemma_arr_text_push(es: Seq<Json>, x: Json)
    ensures
        arr_text(es.push(x)) == arr_text(es) + (if es.len() == 0 {
            Seq::<char>::empty()
        } else {
            seq![',']
        }) + json_text(x),
{
    assert(es.push(x).drop_last() =~= es);
    assert(es.push(x).last() == x);
}

proof fn lemma_obj_text_push(fs: Seq<(Seq<char>, Json)>, k: Seq<char>, v: Json)
    ensures
        obj_text(fs.push((k, v))) == obj_text(fs) + (if fs.len() == 0 {
            Seq::<char>::empty()
        } else {
            seq![',']
        }) + seq!['"'] + str_text(k) + seq!['"', ':'] + json_text(v),
{
    assert(fs.push((k, v)).drop_last() =~= fs);
    assert(fs.push((k, v)).last() == (k, v));
}

fn hex_digit_exec(d: u32) -> (c: char)
    requires
        d < 16,
    ensures
        c == hex_digit(d as int),
{
    match d {
        0 => '0',
        1 => '1',
        2 => '2',
        3 => '3',
        4 => '4',
        5 => '5',
        6 => '6',
        7 => '7',
        8 => '8',
        9 => '9',
        10 => 'a',
        11 => 'b',
        12 => 'c',
        13 => 'd',
        14 => 'e',
        _ => 'f',
    }
}

/// Writes the body of a JSON string literal for `s` onto `out`.
fn write_str_escaped(s: &str, out: &mut String)
    ensures
        final(out)@ == old(out)@ + str_text(s@),
{
    let n = s.unicode_len();
    let ghost start = old(out)@;
    let mut i: usize = 0;
    proof {
        assert(s@.take(0) =~= Seq::<char>::empty());
    }
    while i < n
        invariant
            i <= n,
            n == s@.len(),
            out@ == start + str_text(s@.take(i as int)),
        decreases n - i,
    {
        let c = s.get_char(i);
        proof {
            assert(s@.take(i + 1 as int).drop_last() =~= s@.take(i as int));
            assert(s@.take(i + 1 as int).last() == s@[i as int]);
            lemma_str_text_push(s@.take(i as int), s@[i as int]);
        }
        if c == '"' {
            push_char(out, '\\');
            push_char(out, '"');
        } else if c == '\\' {
            push_char(out, '\\');
            push_char(out, '\\');
        } else if c == '\n' {
            push_char(out, '\\');
            push_char(out, 'n');
        } else if c == '\r' {
            push_char(out, '\\');
            push_char(out, 'r');
        } else if c == '\t' {
            push_char(out, '\\');
            push_char(out, 't');
        } else if (c as u32) < 32 {
            push_char(out, '\\');
            push_char(out, 'u');
            push_char(out, '0');
            push_char(out, '0');
            let hi = hex_digit_exec((c as u32) / 16);
            let lo = hex_digit_exec((c as u32) % 16);
            push_char(out, hi);
            push_char(out, lo);
        } else {
            push_char(out, c);
        }
        proof {
            assert(out@ =~= start + str_text(s@.take(i + 1 as int)));
        }
        i = i + 1;
    }
    proof {
        assert(s@.take(n as int) =~= s@);
    }
}

impl JsonValue {
    /// Writes the JSON text of the document onto `out`.
    fn write_json(&self, out: &mut String)
        ensures
            final(out)@ == old(out)@ + json_text(self@),
        decreases *self,
    {
        let ghost start = old(out)@;
        match self {
            JsonValue::Null => {
                push_char(out, 'n');
                push_char(out, 'u');
                push_char(out, 'l');
                push_char(out, 'l');
                proof {
                    assert(out@ =~= start + json_text(self@));
                }
            },
            JsonValue::Bool(b) => {
                if *b {
                    push_char(out, 't');
                    push_char(out, 'r');
                    push_char(out, 'u');
                    push_char(out, 'e');
                } else {
                    push_char(out, 'f');
                    push_char(out, 'a');
                    push_char(out, 'l');
                    push_char(out, 's');
                    push_char(out, 'e');
                }
                proof {
                    assert(out@ =~= start + json_text(self@));
                }
            },
            JsonValue::Int(i) => {
                let t = i64_to_string(*i);
                out.append(t.as_str());
                proof {
                    assert(out@ =~= start + json_text(self@));
                }
            },
            JsonValue::Str(s) => {
                push_char(out, '"');
                write_str_escaped(s.as_str(), out);
                push_char(out, '"');
                proof {
                    assert(out@ =~= start + json_text(self@));
                }
            },
            JsonValue::Arr(es) => {
                push_char(out, '[');
                let ghost open_done = out@;
                let mut i: usize = 0;
                proof {
                    assert(vals_view(es@.take(0)) =~= Seq::<Json>::empty());
                }
                while i < es.len()
                    invariant
                        i <= es.len(),
                        *self == JsonValue::Arr(*es),
                        open_done == start.push('['),
                        out@ == open_done + arr_text(vals_view(es@.take(i as int))),
                    decreases es.len() - i,
                {
                    proof {
                        lemma_vals_view_index(es@.take(i as int));
                    }
                    if i > 0 {
                        push_char(out, ',');
                    }
                    proof {
                        assert(decreases_to!(*self => self->Arr_0));
                        assert(decreases_to!(self->Arr_0 => es@));
                        assert(decreases_to!(es@ => es@[i as int]));
                    }
                    es[i].write_json(out);
                    proof {
                        assert(es@.take(i + 1 as int) =~= es@.take(i as int).push(es@[i as int]));
                        lemma_vals_view_push(es@.take(i as int), es@[i as int]);
                        lemma_arr_text_push(vals_view(es@.take(i as int)), json_view(es@[i as int]));
                        assert(out@ =~= open_done + arr_text(vals_view(es@.take(i + 1 as int))));
                    }
                    i = i + 1;
                }
                push_char(out, ']');
                proof {
                    assert(es@.take(es@.len() as int) =~= es@);
                    assert(out@ =~= start + json_text(self@));
                }
            },
            JsonValue::Obj(fs) => {
                push_char(out, '{');
                let ghost open_done = out@;
                let mut i: usize = 0;
                proof {
                    assert(fields_view(fs@.take(0)) =~= Seq::<(Seq<char>, Json)>::empty());
                }
                while i < fs.len()
                    invariant
                        i <= fs.len(),
                        *self == JsonValue::Obj(*fs),
                        open_done == start.push('{'),
                        out@ == open_done + obj_text(fields_view(fs@.take(i as int))),
                    decreases fs.len() - i,
                {
                    proof {
                        lemma_fields_view_index(fs@.take(i as int));
                    }
                    if i > 0 {
                        push_char(out, ',');
                    }
                    push_char(out, '"');
                    write_str_escaped(fs[i].0.as_str(), out);
                    push_char(out, '"');
                    push_char(out, ':');
                    proof {
                        assert(decreases_to!(*self => self->Obj_0));
                        assert(decreases_to!(self->Obj_0 => fs@));
                        assert(decreases_to!(fs@ => fs@[i as int]));
                        assert(decreases_to!(fs@[i as int] => fs@[i as int].1));
                    }
                    fs[i].1.write_json(out);
                    proof {
                        assert(fs@.take(i + 1 as int) =~= fs@.take(i as int).push(fs@[i as int]));
                        lemma_fields_view_push(fs@.take(i as int), fs@[i as int].0, fs@[i as int].1);
                        lemma_obj_text_push(
                            fields_view(fs@.take(i as int)),
                            fs@[i as int].0@,
                            json_view(fs@[i as int].1),
                        );
                        assert(out@ =~= open_done + obj_text(fields_view(fs@.take(i + 1 as int))));
                    }
                    i = i + 1;
                }
                push_char(out, '}');
                proof {
                    assert(fs@.take(fs@.len() as int) =~= fs@);
                    assert(out@ =~= start + json_text(self@));
                }
            },
        }
    }

    /// The JSON text of the document: objects and arrays in member order,
    /// strings escaped, no whitespace.
    pub fn to_json_text(&self) -> (r: String)
        ensures
            r@ == json_text(self@),
    {
        let mut out = String::new();
        self.write_json(&mut out);
        proof {
            assert(Seq::<char>::empty() + json_text(self@) =~= json_text(self@));
        }
        out
    }
}

} // verus!
