use vstd::prelude::*;
use crate::error::ChatGptError;
use crate::json::Json;
use crate::json::JsonValue;
use crate::json::json_view;
use crate::json::obj_get;
use crate::json::lemma_fields_view_index;
use crate::json::lemma_vals_view_index;
use crate::json::lemma_vals_view_push;
use crate::json::vals_view;

verus! {

/// A text-completion request: the model, the prompts to complete, and how
/// many tokens the answer may use.
pub struct ChatGptRequestCompletionsCreate {
    pub model: String,
    pub prompt: Vec<String>,
    pub max_tokens: i64,
}

/// The model of a text-completion request.
pub struct CompletionsCreateView {
    pub model: Seq<char>,
    pub prompt: Seq<Seq<char>>,
    pub max_tokens: int,
}

impl View for ChatGptRequestCompletionsCreate {
    type V = CompletionsCreateView;

    open spec fn view(&self) -> CompletionsCreateView {
        CompletionsCreateView {
            model: self.model@,
            prompt: self.prompt.deep_view(),
            max_tokens: self.max_tokens as int,
        }
    }
}

/// The JSON body of a text-completion request.
pub open spec fn completions_json(v: CompletionsCreateView) -> Json {
    Json::Obj(
        seq![
            ("model"@, Json::Str(v.model)),
            ("prompt"@, Json::Arr(Seq::new(v.prompt.len(), |i: int| Json::Str(v.prompt[i])))),
            ("max_tokens"@, Json::Int(v.max_tokens)),
        ],
    )
}

/// The text-completion request that a JSON document describes: None where
/// the document is not an object, has no string member `model`, has no
/// member `prompt` holding an array of strings, or has no member
/// `max_tokens` holding an integer. Members with other names are passed
/// over.
pub open spec fn completions_of_json(j: Json) -> Option<CompletionsCreateView> {
    match obj_get(j, "model"@) {
        Option::Some(Json::Str(m)) => match obj_get(j, "prompt"@) {
            Option::Some(Json::Arr(es)) => {
                if forall|i: int| 0 <= i < es.len() ==> (#[trigger] es[i]) is Str {
                    match obj_get(j, "max_tokens"@) {
                        Option::Some(Json::Int(t)) => Some(
                            CompletionsCreateView {
                                model: m,
                                prompt: Seq::new(es.len(), |i: int| es[i]->Str_0),
                                max_tokens: t,
                            },
                        ),
                        _ => None,
                    }
                } else {
                    None
                }
            },
            _ => None,
        },
        _ => None,
    }
}

/// Reading a text-completion request back out of its own JSON body gives
/// the request.
pub proof fn lemma_completions_round_trip(v: CompletionsCreateView)
    ensures
        completions_of_json(completions_json(v)) == Some(v),
{
    reveal_strlit("model");
    reveal_strlit("prompt");
    reveal_strlit("max_tokens");
    let arr = Json::Arr(Seq::new(v.prompt.len(), |i: int| Json::Str(v.prompt[i])));
    let j = completions_json(v);
    let fs = j->Obj_0;
    assert("model"@ != "prompt"@) by {
        assert("model"@.len() == 5);
        assert("prompt"@.len() == 6);
    }
    assert("max_tokens"@ != "model"@) by {
        assert("max_tokens"@.len() == 10);
        assert("model"@.len() == 5);
    }
    assert("max_tokens"@ != "prompt"@) by {
        assert("max_tokens"@.len() == 10);
        assert("prompt"@.len() == 6);
    }
    let es = arr->Arr_0;
    assert(Seq::new(es.len(), |i: int| es[i]->Str_0) =~= v.prompt);
    assert(fs.drop_first() =~= seq![("prompt"@, arr), ("max_tokens"@, Json::Int(v.max_tokens))]);
    assert(fs.drop_first().drop_first() =~= seq![("max_tokens"@, Json::Int(v.max_tokens))]);
    assert(obj_get(j, "model"@) == Some(Json::Str(v.model)));
    assert(crate::json::lookup_field(fs.drop_first(), "prompt"@) == Some(arr));
    assert(obj_get(j, "prompt"@) == Some(arr));
    assert(crate::json::lookup_field(fs.drop_first().drop_first(), "max_tokens"@) == Some(
        Json::Int(v.max_tokens),
    ));
    assert(crate::json::lookup_field(fs.drop_first(), "max_tokens"@) == Some(
        Json::Int(v.max_tokens),
    ));
    assert(obj_get(j, "max_tokens"@) == Some(Json::Int(v.max_tokens)));
    assert(completions_of_json(j) matches Some(w) && w == v);
}

/// The JSON body of a text-completion request holds no null member
/// anywhere: trimming it changes nothing.
pub proof fn lemma_completions_json_trimmed(v: CompletionsCreateView)
    ensures
        crate::json::null_free(completions_json(v)),
        crate::json::trim_spec(completions_json(v)) == completions_json(v),
{
    let arr = Json::Arr(Seq::new(v.prompt.len(), |i: int| Json::Str(v.prompt[i])));
    let j = completions_json(v);
    let fs = j->Obj_0;
    crate::json::lemma_null_free_vals_strs(arr->Arr_0);
    assert forall|i: int|
        0 <= i < fs.len() implies !((#[trigger] fs[i]).1 is Null) && crate::json::null_free(
        fs[i].1) by {
        assert(fs[0].1 == Json::Str(v.model));
        assert(fs[1].1 == arr);
        assert(fs[2].1 == Json::Int(v.max_tokens));
        assert(crate::json::null_free(Json::Str(v.model)));
        assert(crate::json::null_free(arr));
        assert(crate::json::null_free(Json::Int(v.max_tokens)));
    }
    crate::json::lemma_null_free_fields_of_members(fs);
    crate::json::lemma_trim_identity_on_null_free(j);
}

impl ChatGptRequestCompletionsCreate {
    /// A request for one prompt.
    pub fn new(model: &str, max_tokens: i64, prompt: &str) -> (r: Self)
        ensures
            r.model@ == model@,
            r.prompt.deep_view() == seq![prompt@],
            r.max_tokens == max_tokens,
    {
        let mut items: Vec<String> = Vec::new();
        items.push(prompt.to_owned());
        proof {
            assert(items.deep_view() =~= seq![prompt@]);
        }
        Self { model: model.to_owned(), prompt: items, max_tokens }
    }

    /// The JSON body of the request.
    pub fn to_value(&self) -> (r: JsonValue)
        ensures
            r@ == completions_json(self@),
    {
        let mut fields: Vec<(String, JsonValue)> = Vec::new();
        fields.push(("model".to_owned(), JsonValue::Str(self.model.clone())));
        let mut items: Vec<JsonValue> = Vec::new();
        let mut i: usize = 0;
        while i < self.prompt.len()
            invariant
                i <= self.prompt.len(),
                vals_view(items@) =~= Seq::new(
                    i as nat,
                    |k: int| Json::Str(self.prompt.deep_view()[k]),
                ),
            decreases self.prompt.len() - i,
        {
            let s = JsonValue::Str(self.prompt[i].clone());
            proof {
                lemma_vals_view_push(items@, s);
                assert(vals_view(items@.push(s)) =~= Seq::new(
                    (i + 1) as nat,
                    |k: int| Json::Str(self.prompt.deep_view()[k]),
                ));
            }
            items.push(s);
            i = i + 1;
        }
        fields.push(("prompt".to_owned(), JsonValue::Arr(items)));
        fields.push(("max_tokens".to_owned(), JsonValue::Int(self.max_tokens)));
        let r = JsonValue::Obj(fields);
        proof {
            lemma_fields_view_index(fields@);
            assert(r@ matches Json::Obj(fs) && fs =~= completions_json(self@)->Obj_0);
        }
        r
    }

    /// The request that a JSON document describes, the document handed back
    /// inside the error where it does not describe one.
    pub fn from_value(value: JsonValue) -> (r: Result<Self, ChatGptError>)
        ensures
            match r {
                Ok(req) => completions_of_json(value@) == Some(req@),
                Err(e) => {
                    &&& completions_of_json(value@) is None
                    &&& e matches ChatGptError::JsonParse(bad) && bad@ == value@
                },
            },
    {
        let model: String = match value.get("model") {
            Option::Some(JsonValue::Str(m)) => m.clone(),
            _ => {
                return Err(ChatGptError::JsonParse(value.clone()));
            },
        };
        let prompt: Vec<String> = match value.get("prompt") {
            Option::Some(JsonValue::Arr(es)) => {
                let mut items: Vec<String> = Vec::new();
                let mut i: usize = 0;
                proof {
                    lemma_vals_view_index(es@);
                }
                while i < es.len()
                    invariant
                        i <= es.len(),
                        obj_get(value@, "prompt"@) == Some(Json::Arr(vals_view(es@))),
                        vals_view(es@).len() == es@.len(),
                        forall|k: int|
                            0 <= k < es@.len() ==> #[trigger] vals_view(es@)[k] == json_view(
                                es@[k],
                            ),
                        forall|k: int| 0 <= k < i ==> (#[trigger] vals_view(es@)[k]) is Str,
                        items.deep_view() =~= Seq::new(
                            i as nat,
                            |k: int| vals_view(es@)[k]->Str_0,
                        ),
                    decreases es.len() - i,
                {
                    match &es[i] {
                        JsonValue::Str(s) => {
                            let c = s.clone();
                            proof {
                                assert(items.deep_view().push(c@) =~= Seq::new(
                                    (i + 1) as nat,
                                    |k: int| vals_view(es@)[k]->Str_0,
                                ));
                            }
                            items.push(c);
                        },
                        _ => {
                            proof {
                                assert(vals_view(es@)[i as int] == json_view(es@[i as int]));
                                assert(!((vals_view(es@)[i as int]) is Str));
                            }
                            return Err(ChatGptError::JsonParse(value.clone()));
                        },
                    }
                    i = i + 1;
                }
                items
            },
            _ => {
                return Err(ChatGptError::JsonParse(value.clone()));
            },
        };
        let max_tokens: i64 = match value.get("max_tokens") {
            Option::Some(JsonValue::Int(t)) => *t,
            _ => {
                return Err(ChatGptError::JsonParse(value.clone()));
            },
        };
        let req = Self { model, prompt, max_tokens };
        proof {
            assert(completions_of_json(value@) matches Some(w) && w =~= req@);
        }
        Ok(req)
    }
}

} // verus!
