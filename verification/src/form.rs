use vstd::prelude::*;
use crate::error::ChatGptError;
use crate::json::Json;
use crate::json::JsonValue;
use crate::json::fields_view;
use crate::json::json_text;
use crate::text::str_eq;

verus! {

/// One part of a multipart form body: a plain text field, or a field that
/// names a file on disk whose contents are to be streamed.
pub enum FormPart {
    Text { name: String, value: String },
    File { name: String, path: String },
}

/// The model of a form part: its name and its text or path.
pub enum FormPartModel {
    Text(Seq<char>, Seq<char>),
    File(Seq<char>, Seq<char>),
}

impl View for FormPart {
    type V = FormPartModel;

    open spec fn view(&self) -> FormPartModel {
        match *self {
            FormPart::Text { name, value } => FormPartModel::Text(name@, value@),
            FormPart::File { name, path } => FormPartModel::File(name@, path@),
        }
    }
}

/// The models of a list of form parts, in order.
pub open spec fn parts_view(ps: Seq<FormPart>) -> Seq<FormPartModel>
    decreases ps,
{
    if ps.len() == 0 {
        Seq::empty()
    } else {
        parts_view(ps.drop_last()).push(ps.last()@)
    }
}

/// The text a value takes as a plain text field: a string goes as it is,
/// anything else as its JSON text.
pub open spec fn form_value_text(j: Json) -> Seq<char> {
    match j {
        Json::Str(s) => s,
        _ => json_text(j),
    }
}

/// The form parts for the members of an object, in member order: a null
/// member is skipped, a member named in `files` becomes a file part and
/// must hold a string path, every other member becomes a text part.
/// None where a member named in `files` holds something else than a string.
pub open spec fn form_parts_of(fs: Seq<(Seq<char>, Json)>, files: Seq<Seq<char>>) -> Option<
    Seq<FormPartModel>,
>
    decreases fs,
{
    if fs.len() == 0 {
        Some(Seq::empty())
    } else {
        match form_parts_of(fs.drop_last(), files) {
            Option::None => None,
            Option::Some(rest) => {
                if fs.last().1 is Null {
                    Some(rest)
                } else if files.contains(fs.last().0) {
                    match fs.last().1 {
                        Json::Str(p) => Some(rest.push(FormPartModel::File(fs.last().0, p))),
                        _ => None,
                    }
                } else {
                    Some(
                        rest.push(FormPartModel::Text(fs.last().0, form_value_text(fs.last().1))),
                    )
                }
            },
        }
    }
}

/// The form for a whole document: None where it is not an object.
pub open spec fn form_of(j: Json, files: Seq<Seq<char>>) -> Option<Seq<FormPartModel>> {
    match j {
        Json::Obj(fs) => form_parts_of(fs, files),
        _ => None,
    }
}

proof fn lemma_parts_view_push(ps: Seq<FormPart>, x: FormPart)
    ensures
        parts_view(ps.push(x)) == parts_view(ps).push(x@),
{
    assert(ps.push(x).drop_last() =~= ps);
    assert(ps.push(x).last() == x);
}

proof fn lemma_form_parts_push(fs: Seq<(Seq<char>, Json)>, files: Seq<Seq<char>>, k: Seq<char>, v: Json)
    ensures
        form_parts_of(fs.push((k, v)), files) == match form_parts_of(fs, files) {
            Option::None => None,
            Option::Some(rest) => {
                if v is Null {
                    Some(rest)
                } else if files.contains(k) {
                    match v {
                        Json::Str(p) => Some(rest.push(FormPartModel::File(k, p))),
                        _ => None,
                    }
                } else {
                    Some(rest.push(FormPartModel::Text(k, form_value_text(v))))
                }
            },
        },
{
    assert(fs.push((k, v)).drop_last() =~= fs);
    assert(fs.push((k, v)).last() == (k, v));
}

proof fn lemma_form_parts_none(fs: Seq<(Seq<char>, Json)>, files: Seq<Seq<char>>, i: int)
    requires
        0 <= i <= fs.len(),
        form_parts_of(fs.take(i), files) is None,
    ensures
        form_parts_of(fs, files) is None,
    decreases fs.len() - i,
{
    if i == fs.len() {
        assert(fs.take(i) =~= fs);
    } else {
        assert(fs.take(i + 1) =~= fs.take(i).push(fs[i]));
        lemma_form_parts_push(fs.take(i), files, fs[i].0, fs[i].1);
        lemma_form_parts_none(fs, files, i + 1);
    }
}

/// An object every one of whose members named in `files` holds a string
/// always has a form: nothing else can make the conversion fail.
pub proof fn lemma_form_parts_total(fs: Seq<(Seq<char>, Json)>, files: Seq<Seq<char>>)
    requires
        forall|i: int|
            0 <= i < fs.len() && files.contains((#[trigger] fs[i]).0) ==> fs[i].1 is Str,
    ensures
        form_parts_of(fs, files) is Some,
    decreases fs,
{
    if fs.len() > 0 {
        assert forall|i: int|
            0 <= i < fs.drop_last().len() && files.contains(
                (#[trigger] fs.drop_last()[i]).0,
            ) implies fs.drop_last()[i].1 is Str by {
            assert(fs.drop_last()[i] == fs[i]);
        }
        lemma_form_parts_total(fs.drop_last(), files);
        assert(fs[fs.len() - 1] == fs.last());
    }
}

/// True exactly when one of `files` holds the characters of `name`.
fn contains_name(files: &Vec<String>, name: &String) -> (r: bool)
    ensures
        r == files.deep_view().contains(name@),
{
    let mut i: usize = 0;
    while i < files.len()
        invariant
            i <= files.len(),
            forall|k: int| 0 <= k < i ==> files.deep_view()[k] != name@,
        decreases files.len() - i,
    {
        if str_eq(files[i].as_str(), name.as_str()) {
            proof {
                assert(files.deep_view()[i as int] == name@);
            }
            return true;
        }
        i = i + 1;
    }
    proof {
        if files.deep_view().contains(name@) {
            let k = choose|k: int|
                0 <= k < files.deep_view().len() && files.deep_view()[k] == name@;
            assert(files.deep_view()[k] != name@);
        }
    }
    false
}

/// The multipart form for a request body: every member of the object in
/// order, null members omitted, the members named in `file_fields` as file
/// parts holding the path, the rest as text parts. An error carries the
/// body back where it is not an object, or where a designated file member
/// does not hold a string path.
pub fn convert_form(v: &JsonValue, file_fields: &Vec<String>) -> (r: Result<
    Vec<FormPart>,
    ChatGptError,
>)
    ensures
        match r {
            Ok(parts) => form_of(v@, file_fields.deep_view()) == Some(parts_view(parts@)),
            Err(e) => {
                &&& form_of(v@, file_fields.deep_view()) is None
                &&& e matches ChatGptError::JsonParse(bad) && bad@ == v@
            },
        },
{
    match v {
        JsonValue::Obj(fs) => {
            let mut out: Vec<FormPart> = Vec::new();
            let mut i: usize = 0;
            proof {
                assert(fields_view(fs@.take(0)) =~= Seq::<(Seq<char>, Json)>::empty());
            }
            while i < fs.len()
                invariant
                    i <= fs.len(),
                    *v == JsonValue::Obj(*fs),
                    form_parts_of(fields_view(fs@.take(i as int)), file_fields.deep_view())
                        == Some(parts_view(out@)),
                decreases fs.len() - i,
            {
                proof {
                    assert(fs@.take(i + 1 as int) =~= fs@.take(i as int).push(fs@[i as int]));
                    crate::json::lemma_fields_view_push(
                        fs@.take(i as int),
                        fs@[i as int].0,
                        fs@[i as int].1,
                    );
                    lemma_form_parts_push(
                        fields_view(fs@.take(i as int)),
                        file_fields.deep_view(),
                        fs@[i as int].0@,
                        crate::json::json_view(fs@[i as int].1),
                    );
                }
                let is_null = match &fs[i].1 {
                    JsonValue::Null => true,
                    _ => false,
                };
                if !is_null {
                    let name = fs[i].0.clone();
                    if contains_name(file_fields, &name) {
                        match &fs[i].1 {
                            JsonValue::Str(p) => {
                                let part = FormPart::File { name, path: p.clone() };
                                proof {
                                    lemma_parts_view_push(out@, part);
                                }
                                out.push(part);
                            },
                            _ => {
                                proof {
                                    crate::json::lemma_fields_view_index(fs@);
                                    crate::json::lemma_fields_view_index(fs@.take(i + 1 as int));
                                    assert(fields_view(fs@).take(i + 1 as int) =~= fields_view(
                                        fs@.take(i + 1 as int),
                                    ));
                                    lemma_form_parts_none(
                                        fields_view(fs@),
                                        file_fields.deep_view(),
                                        i + 1,
                                    );
                                }
                                return Err(ChatGptError::JsonParse(v.clone()));
                            },
                        }
                    } else {
                        let value = match &fs[i].1 {
                            JsonValue::Str(s) => s.clone(),
                            other => other.to_json_text(),
                        };
                        let part = FormPart::Text { name, value };
                        proof {
                            lemma_parts_view_push(out@, part);
                        }
                        out.push(part);
                    }
                }
                i = i + 1;
            }
            proof {
                assert(fs@.take(fs@.len() as int) =~= fs@);
            }
            Ok(out)
        },
        _ => Err(ChatGptError::JsonParse(v.clone())),
    }
}

} // verus!
