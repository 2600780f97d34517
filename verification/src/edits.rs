use vstd::prelude::*;
use crate::json::Json;
use crate::json::JsonValue;
use crate::json::lemma_fields_view_index;

verus! {

/// An edit request: the model, what to do, and the text to do it to.
pub struct ChatGptRequestEdits {
    pub model: String,
    pub instruction: String,
    pub input: String,
}

/// The model of an edit request.
pub struct EditsView {
    pub model: Seq<char>,
    pub instruction: Seq<char>,
    pub input: Seq<char>,
}

impl View for ChatGptRequestEdits {
    type V = EditsView;

    open spec fn view(&self) -> EditsView {
        EditsView { model: self.model@, instruction: self.instruction@, input: self.input@ }
    }
}

/// The JSON body of an edit request.
pub open spec fn edits_json(v: EditsView) -> Json {
    Json::Obj(
        seq![
            ("model"@, Json::Str(v.model)),
            ("instruction"@, Json::Str(v.instruction)),
            ("input"@, Json::Str(v.input)),
        ],
    )
}

impl ChatGptRequestEdits {
    /// An edit of `input` under `instruction`.
    pub fn new(model: &str, instruction: &str, input: &str) -> (r: Self)
        ensures
            r.model@ == model@,
            r.instruction@ == instruction@,
            r.input@ == input@,
    {
        Self {
            model: model.to_owned(),
            instruction: instruction.to_owned(),
            input: input.to_owned(),
        }
    }

    /// The JSON body of the request.
    pub fn to_value(&self) -> (r: JsonValue)
        ensures
            r@ == edits_json(self@),
    {
        let mut fields: Vec<(String, JsonValue)> = Vec::new();
        fields.push(("model".to_owned(), JsonValue::Str(self.model.clone())));
        fields.push(("instruction".to_owned(), JsonValue::Str(self.instruction.clone())));
        fields.push(("input".to_owned(), JsonValue::Str(self.input.clone())));
        let r = JsonValue::Obj(fields);
        proof {
            lemma_fields_view_index(fields@);
            assert(r@ matches Json::Obj(fs) && fs =~= edits_json(self@)->Obj_0);
        }
        r
    }
}

} // verus!
