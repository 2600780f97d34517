use vstd::prelude::*;
use crate::error::ChatGptError;
use crate::json::Json;
use crate::json::JsonValue;
use crate::json::fields_view;
use crate::json::json_view;
use crate::json::obj_get;
use crate::json::vals_view;
use crate::json::lemma_fields_view_index;
use crate::json::lemma_vals_view_index;
use crate::json::lemma_vals_view_push;

verus! {

/// The body that the embeddings endpoint answered with.
pub struct ChatGptResponseEmbeddings {
    value: JsonValue,
}

impl View for ChatGptResponseEmbeddings {
    type V = Json;

    closed spec fn view(&self) -> Json {
        self.value@
    }
}

impl ChatGptResponseEmbeddings {
    /// Wraps a parsed response body.
    pub fn new(value: JsonValue) -> (r: Self)
        ensures
            r@ == value@,
    {
        Self { value }
    }

    /// The wrapped body.
    pub fn to_value(&self) -> (r: &JsonValue)
        ensures
            r@ == self@,
    {
        &self.value
    }
}

/// An embeddings request: the model, the texts to embed, and optionally the
/// end user on whose behalf the call is made.
pub struct ChatGptRequestEmbeddingsGenerations {
    pub model: String,
    pub input: Vec<String>,
    pub user: Option<String>,
}

/// The model of an embeddings request.
pub struct EmbeddingsGenerationsView {
    pub model: Seq<char>,
    pub input: Seq<Seq<char>>,
    pub user: Option<Seq<char>>,
}

impl View for ChatGptRequestEmbeddingsGenerations {
    type V = EmbeddingsGenerationsView;

    open spec fn view(&self) -> EmbeddingsGenerationsView {
        EmbeddingsGenerationsView {
            model: self.model@,
            input: self.input.deep_view(),
            user: self.user.deep_view(),
        }
    }
}

/// The JSON body of an embeddings request: model and input always, the user
/// member only where one is set.
pub open spec fn embeddings_json(v: EmbeddingsGenerationsView) -> Json {
    Json::Obj(
        seq![
            ("model"@, Json::Str(v.model)),
            ("input"@, Json::Arr(Seq::new(v.input.len(), |i: int| Json::Str(v.input[i])))),
        ] + match v.user {
            Option::Some(u) => seq![("user"@, Json::Str(u))],
            Option::None => Seq::empty(),
        },
    )
}

/// The embeddings request that a JSON document describes: None where the
/// document is not an object, has no string member `model`, has no member
/// `input` holding an array of strings, or has a non-string member `user`.
/// Members with other names are passed over.
pub open spec fn embeddings_of_json(j: Json) -> Option<EmbeddingsGenerationsView> {
    match obj_get(j, "model"@) {
        Option::Some(Json::Str(m)) => match obj_get(j, "input"@) {
            Option::Some(Json::Arr(es)) => {
                if forall|i: int| 0 <= i < es.len() ==> (#[trigger] es[i]) is Str {
                    match obj_get(j, "user"@) {
                        Option::None => Some(
                            EmbeddingsGenerationsView {
                                model: m,
                                input: Seq::new(es.len(), |i: int| es[i]->Str_0),
                                user: None,
                            },
                        ),
                        Option::Some(Json::Str(u)) => Some(
                            EmbeddingsGenerationsView {
                                model: m,
                                input: Seq::new(es.len(), |i: int| es[i]->Str_0),
                                user: Some(u),
                            },
                        ),
                        Option::Some(_) => None,
                    }
                } else {
                    None
                }
            },
            _ => None,
        },
        _ => None,
    }
}

/// Reading an embeddings request back out of its own JSON body gives the
/// request: the body keeps every set field, and leaving the user unset
/// changes nothing else.
pub proof fn lemma_embeddings_round_trip(v: EmbeddingsGenerationsView)
    ensures
        embeddings_of_json(embeddings_json(v)) == Some(v),
{
    reveal_strlit("model");
    reveal_strlit("input");
    reveal_strlit("user");
    let inp = Json::Arr(Seq::new(v.input.len(), |i: int| Json::Str(v.input[i])));
    let base = seq![("model"@, Json::Str(v.model)), ("input"@, inp)];
    let j = embeddings_json(v);
    let fs = j->Obj_0;
    assert("model"@ != "input"@) by {
        assert("model"@[0] == 'm');
        assert("input"@[0] == 'i');
    }
    assert("user"@ != "model"@) by {
        assert("user"@.len() == 4);
        assert("model"@.len() == 5);
    }
    assert("user"@ != "input"@) by {
        assert("user"@.len() == 4);
        assert("input"@.len() == 5);
    }
    let es = inp->Arr_0;
    assert(Seq::new(es.len(), |i: int| es[i]->Str_0) =~= v.input);
    match v.user {
        Option::None => {
            assert(fs =~= base);
            assert(fs.drop_first() =~= seq![("input"@, inp)]);
            assert(fs.drop_first().drop_first() =~= Seq::<(Seq<char>, Json)>::empty());
            assert(obj_get(j, "model"@) == Some(Json::Str(v.model)));
            assert(crate::json::lookup_field(fs.drop_first(), "input"@) == Some(inp));
            assert(obj_get(j, "input"@) == Some(inp));
            assert(crate::json::lookup_field(fs.drop_first().drop_first(), "user"@) is None);
            assert(crate::json::lookup_field(fs.drop_first(), "user"@) is None);
            assert(obj_get(j, "user"@) is None);
        },
        Option::Some(u) => {
            assert(fs =~= base.push(("user"@, Json::Str(u))));
            assert(fs.drop_first() =~= seq![("input"@, inp), ("user"@, Json::Str(u))]);
            assert(fs.drop_first().drop_first() =~= seq![("user"@, Json::Str(u))]);
            assert(obj_get(j, "model"@) == Some(Json::Str(v.model)));
            assert(crate::json::lookup_field(fs.drop_first(), "input"@) == Some(inp));
            assert(obj_get(j, "input"@) == Some(inp));
            assert(crate::json::lookup_field(fs.drop_first().drop_first(), "user"@) == Some(
                Json::Str(u),
            ));
            assert(crate::json::lookup_field(fs.drop_first(), "user"@) == Some(Json::Str(u)));
            assert(obj_get(j, "user"@) == Some(Json::Str(u)));
        },
    }
    assert(embeddings_of_json(j) matches Some(w) && w == v);
}

/// The JSON body of an embeddings request holds no null member anywhere:
/// trimming it changes nothing, because the unset user member was never
/// written.
pub proof fn lemma_embeddings_json_trimmed(v: EmbeddingsGenerationsView)
    ensures
        crate::json::null_free(embeddings_json(v)),
        crate::json::trim_spec(embeddings_json(v)) == embeddings_json(v),
{
    let inp = Json::Arr(Seq::new(v.input.len(), |i: int| Json::Str(v.input[i])));
    let base = seq![("model"@, Json::Str(v.model)), ("input"@, inp)];
    let j = embeddings_json(v);
    let fs = j->Obj_0;
    crate::json::lemma_null_free_vals_strs(inp->Arr_0);
    assert(crate::json::null_free(inp));
    assert(crate::json::null_free_fields(Seq::<(Seq<char>, Json)>::empty()));
    assert(base.drop_last() =~= seq![("model"@, Json::Str(v.model))]);
    assert(base.drop_last().drop_last() =~= Seq::<(Seq<char>, Json)>::empty());
    assert(crate::json::null_free(Json::Str(v.model)));
    assert(base.drop_last().last() == ("model"@, Json::Str(v.model)));
    assert(crate::json::null_free_fields(base.drop_last()));
    assert(base.last() == ("input"@, inp));
    assert(crate::json::null_free_fields(base));
    match v.user {
        Option::None => {
            assert(fs =~= base);
        },
        Option::Some(u) => {
            assert(fs =~= base.push(("user"@, Json::Str(u))));
            assert(fs.drop_last() =~= base);
            assert(fs.last() == ("user"@, Json::Str(u)));
            assert(crate::json::null_free(Json::Str(u)));
        },
    }
    assert(crate::json::null_free_fields(fs));
    crate::json::lemma_trim_identity_on_null_free(j);
}

impl ChatGptRequestEmbeddingsGenerations {
    /// A request for one input text, with no end user set.
    pub fn new(model: &str, input: &str) -> (r: Self)
        ensures
            r.model@ == model@,
            r.input.deep_view() == seq![input@],
            r.user is None,
    {
        let mut items: Vec<String> = Vec::new();
        items.push(input.to_owned());
        proof {
            assert(items.deep_view() =~= seq![input@]);
        }
        Self { model: model.to_owned(), input: items, user: None }
    }

    /// The JSON body of the request, the unset user member omitted.
    pub fn to_value(&self) -> (r: JsonValue)
        ensures
            r@ == embeddings_json(self@),
    {
        let mut fields: Vec<(String, JsonValue)> = Vec::new();
        fields.push(("model".to_owned(), JsonValue::Str(self.model.clone())));
        let mut items: Vec<JsonValue> = Vec::new();
        let mut i: usize = 0;
        while i < self.input.len()
            invariant
                i <= self.input.len(),
                vals_view(items@) =~= Seq::new(i as nat, |k: int| Json::Str(self.input.deep_view()[k])),
            decreases self.input.len() - i,
        {
            let s = JsonValue::Str(self.input[i].clone());
            proof {
                lemma_vals_view_push(items@, s);
                assert(vals_view(items@.push(s)) =~= Seq::new(
                    (i + 1) as nat,
                    |k: int| Json::Str(self.input.deep_view()[k]),
                ));
            }
            items.push(s);
            i = i + 1;
        }
        fields.push(("input".to_owned(), JsonValue::Arr(items)));
        match &self.user {
            Option::Some(u) => {
                fields.push(("user".to_owned(), JsonValue::Str(u.clone())));
            },
            Option::None => {},
        }
        let r = JsonValue::Obj(fields);
        proof {
            lemma_fields_view_index(fields@);
            assert(r@ matches Json::Obj(fs) && fs =~= (embeddings_json(self@))->Obj_0);
        }
        r
    }

    /// The request that a JSON document describes, the document handed back
    /// inside the error where it does not describe one.
    pub fn from_value(value: JsonValue) -> (r: Result<Self, ChatGptError>)
        ensures
            match r {
                Ok(req) => embeddings_of_json(value@) == Some(req@),
                Err(e) => {
                    &&& embeddings_of_json(value@) is None
                    &&& e matches ChatGptError::JsonParse(bad) && bad@ == value@
                },
            },
    {
        let model: String = match value.get("model") {
            Option::Some(JsonValue::Str(m)) => m.clone(),
            _ => {
                return Err(ChatGptError::JsonParse(value.clone()));
            },
        };
        let input: Vec<String> = match value.get("input") {
            Option::Some(JsonValue::Arr(es)) => {
                let mut items: Vec<String> = Vec::new();
                let mut i: usize = 0;
                proof {
                    lemma_vals_view_index(es@);
                }
                while i < es.len()
                    invariant
                        i <= es.len(),
                        obj_get(value@, "input"@) == Some(Json::Arr(vals_view(es@))),
                        vals_view(es@).len() == es@.len(),
                        forall|k: int|
                            0 <= k < es@.len() ==> #[trigger] vals_view(es@)[k] == json_view(
                                es@[k],
                            ),
                        forall|k: int| 0 <= k < i ==> (#[trigger] vals_view(es@)[k]) is Str,
                        items.deep_view() =~= Seq::new(
                            i as nat,
                            |k: int| vals_view(es@)[k]->Str_0,
                        ),
                    decreases es.len() - i,
                {
                    match &es[i] {
                        JsonValue::Str(s) => {
                            let c = s.clone();
                            proof {
                                assert(items.deep_view().push(c@) =~= Seq::new(
                                    (i + 1) as nat,
                                    |k: int| vals_view(es@)[k]->Str_0,
                                ));
                            }
                            items.push(c);
                        },
                        _ => {
                            proof {
                                assert(vals_view(es@)[i as int] == json_view(es@[i as int]));
                                assert(!((vals_view(es@)[i as int]) is Str));
                            }
                            return Err(ChatGptError::JsonParse(value.clone()));
                        },
                    }
                    i = i + 1;
                }
                items
            },
            _ => {
                return Err(ChatGptError::JsonParse(value.clone()));
            },
        };
        let user: Option<String> = match value.get("user") {
            Option::None => None,
            Option::Some(JsonValue::Str(u)) => Some(u.clone()),
            Option::Some(_) => {
                return Err(ChatGptError::JsonParse(value.clone()));
            },
        };
        let req = Self { model, input, user };
        proof {
            assert(embeddings_of_json(value@) matches Some(v) && v =~= req@);
        }
        Ok(req)
    }
}

} // verus!
